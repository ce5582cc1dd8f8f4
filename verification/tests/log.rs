use ua571::log::{EventLog, LogKind};

#[test]
fn capacity_evicts_oldest() {
    let mut log = EventLog::new(3);
    log.push_info("a");
    log.push_info("b");
    log.push_info("c");
    log.push_info("d");
    assert_eq!(log.len(), 3);
    let msgs: Vec<_> = log.iter().map(|e| e.kind.to_string()).collect();
    assert!(msgs[0].contains('b'));
    assert!(msgs[2].contains('d'));
}

#[test]
fn recent_is_newest_first_and_bounded() {
    let mut log = EventLog::new(8);
    assert!(log.is_empty());
    log.push_info("one");
    log.push_info("two");
    log.push_info("three");
    let recent = log.recent(2);
    assert_eq!(recent.len(), 2);
    assert_eq!(recent[0].kind.to_string(), "three");
    assert_eq!(recent[1].kind.to_string(), "two");
    assert_eq!(log.recent(10).len(), 3);
    assert!(recent[0].seq > recent[1].seq);
}

#[test]
fn log_lines_render_their_events() {
    assert_eq!(
        LogKind::Boot.to_string(),
        "SYSTEM BOOT — UA 571-C CONSOLE ONLINE"
    );
    assert_eq!(
        LogKind::Empty { sentry: 2 }.to_string(),
        "SENTRY-2 DRUM EMPTY"
    );
    assert_eq!(
        LogKind::Demo {
            message: "AUTO-PLAY ENGAGED".into()
        }
        .to_string(),
        "DEMO: AUTO-PLAY ENGAGED"
    );
}

#[test]
fn age_counts_from_the_logged_moment() {
    let mut log = EventLog::new(4);
    log.push_info("a");
    let e = log.recent(1)[0].clone();
    assert_eq!(e.age(e.at + 1_500), 1_500);
    assert_eq!(e.age(e.at), 0);
    assert_eq!(e.age(e.at.saturating_sub(1)), 0);
    assert!(log.clock() >= e.at);
    assert_eq!(e.age(log.clock()) <= log.clock(), true);
}
