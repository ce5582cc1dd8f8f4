use ua571::sentry::SentryBank;

#[test]
fn four_sentries() {
    let bank = SentryBank::new(500);
    assert_eq!(bank.len(), 4);
    assert_eq!(bank.get(0).unwrap().id, 1);
    assert_eq!(bank.get(3).unwrap().id, 4);
}

#[test]
fn lookup_by_id_and_out_of_range() {
    let mut bank = SentryBank::new(200);
    assert!(bank.get(4).is_none());
    assert_eq!(bank.by_id(3).unwrap().id, 3);
    assert!(bank.by_id(9).is_none());
    bank.by_id_mut(2).unwrap().online = false;
    assert!(!bank.get(1).unwrap().online);
    assert_eq!(bank.iter().count(), 4);
    assert!(bank.iter().all(|s| s.fire.rounds == 200));
    assert_eq!(bank.get(0).unwrap().label(), "SENTRY-1");
}
