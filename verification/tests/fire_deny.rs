use ua571::config::Config;
use ua571::fire::CRITICAL_THRESHOLD;
use ua571::fire_deny::{fire_deny_reason, fire_with_status, FireDenyReason};
use ua571::state::AppState;

fn fresh_console() -> AppState {
    AppState::new(Config {
        show_boot: false,
        ..Config::default()
    })
}

#[test]
fn message_mapping_is_stable() {
    assert_eq!(FireDenyReason::Offline.message(), "OFFLINE");
    assert_eq!(FireDenyReason::LinkDown.message(), "LINK DOWN");
    assert_eq!(FireDenyReason::Empty.message(), "EMPTY");
    assert_eq!(FireDenyReason::Critical.message(), "CRITICAL");
}

#[test]
fn armed_ready_fire_has_no_reason() {
    let mut app = fresh_console();
    app.toggle_arm();
    assert_eq!(fire_deny_reason(&app), None);
}

#[test]
fn unarmed_is_none_not_a_reason() {
    let app = fresh_console();
    assert!(!app.active_sentry().is_armed());
    assert_eq!(fire_deny_reason(&app), None);
}

#[test]
fn offline_takes_priority() {
    let mut app = fresh_console();
    app.toggle_arm();
    app.active_sentry_mut().unwrap().online = false;
    app.active_sentry_mut().unwrap().link_ok = false;
    assert_eq!(fire_deny_reason(&app), Some(FireDenyReason::Offline));
}

#[test]
fn link_down_when_online_but_faulted() {
    let mut app = fresh_console();
    app.toggle_arm();
    app.active_sentry_mut().unwrap().link_ok = false;
    assert_eq!(fire_deny_reason(&app), Some(FireDenyReason::LinkDown));
}

#[test]
fn empty_when_armed_and_linked_but_dry() {
    let mut app = fresh_console();
    app.toggle_arm();
    app.active_sentry_mut().unwrap().fire.rounds = 0;
    assert_eq!(fire_deny_reason(&app), Some(FireDenyReason::Empty));
}

#[test]
fn critical_when_low_rounds() {
    let mut app = fresh_console();
    app.toggle_arm();
    app.active_sentry_mut()
        .unwrap()
        .fire
        .reset(CRITICAL_THRESHOLD - 1);
    assert_eq!(fire_deny_reason(&app), Some(FireDenyReason::Critical));
}

#[test]
fn matches_app_state_fire_outcomes() {
    let mut app = fresh_console();
    app.toggle_arm();
    app.active_sentry_mut().unwrap().online = false;
    assert_eq!(fire_deny_reason(&app), Some(FireDenyReason::Offline));
    assert!(!app.fire());

    app.active_sentry_mut().unwrap().online = true;
    app.active_sentry_mut().unwrap().fire.rounds = 0;
    assert_eq!(fire_deny_reason(&app), Some(FireDenyReason::Empty));
    assert!(!app.fire());
}

#[test]
fn fire_with_status_reports_deny_reason_and_leaves_ammo_untouched() {
    let mut app = fresh_console();
    app.toggle_arm();
    app.active_sentry_mut().unwrap().link_ok = false;
    let rounds_before = app.fire_telemetry().rounds;

    let (fired, status) = fire_with_status(&mut app);

    assert!(!fired);
    assert_eq!(status, Some(FireDenyReason::LinkDown));
    assert_eq!(
        app.fire_telemetry().rounds,
        rounds_before,
        "denied fire must not spend ammo"
    );
}

#[test]
fn fire_with_status_is_silent_on_a_normal_successful_fire() {
    let mut app = fresh_console();
    app.toggle_arm();

    let (fired, status) = fire_with_status(&mut app);

    assert!(fired);
    assert_eq!(status, None, "armed/successful fire should not add status noise");
}

#[test]
fn fire_with_status_reports_critical_on_the_crossing_shot() {
    let mut app = fresh_console();
    app.toggle_arm();
    app.active_sentry_mut()
        .unwrap()
        .fire
        .reset(CRITICAL_THRESHOLD);

    let (fired, status) = fire_with_status(&mut app);

    assert!(fired);
    assert_eq!(status, Some(FireDenyReason::Critical));
}

#[test]
fn fire_with_status_reports_empty_without_double_counting() {
    let mut app = fresh_console();
    app.toggle_arm();
    app.active_sentry_mut().unwrap().fire.rounds = 0;

    let (fired, status) = fire_with_status(&mut app);

    assert!(!fired);
    assert_eq!(status, Some(FireDenyReason::Empty));
}

#[test]
fn last_round_reports_empty_after_it_goes_off() {
    let mut app = fresh_console();
    app.toggle_arm();
    app.active_sentry_mut().unwrap().fire.reset(1);
    let (fired, status) = fire_with_status(&mut app);
    assert!(fired);
    assert_eq!(app.fire_telemetry().rounds, 0);
    assert_eq!(status, Some(FireDenyReason::Empty));
}
