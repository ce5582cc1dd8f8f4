use ua571::config::Config;
use ua571::demo::{default_script, DemoPlayer, DemoStep};
use ua571::options::WeaponStatus;
use ua571::state::AppState;

#[test]
fn demo_runs_to_completion() {
    let mut state = AppState::new(Config::default());
    let mut demo = DemoPlayer::default_demo();
    demo.start();
    let mut guard = 0;
    while demo.tick(&mut state) {
        guard += 1;
        assert!(guard < 10_000, "demo did not finish");
    }
    assert!(!demo.is_active());
}

#[test]
fn stop_halts_before_completion() {
    let mut state = AppState::new(Config {
        show_boot: false,
        ..Config::default()
    });
    let mut demo = DemoPlayer::default_demo();
    demo.start();
    assert!(demo.tick(&mut state));
    demo.stop();
    assert!(!demo.is_active());
    assert!(!demo.tick(&mut state));
}

#[test]
fn fire_step_expends_rounds() {
    let mut state = AppState::new(Config {
        show_boot: false,
        ..Config::default()
    });
    let mut demo = DemoPlayer::new(vec![
        DemoStep::SetWeapon {
            status: WeaponStatus::Armed,
        },
        DemoStep::Fire { times: 3 },
        DemoStep::Done,
    ]);
    demo.start();
    let start = state.fire_telemetry().rounds;
    while demo.tick(&mut state) {}
    assert_eq!(state.fire_telemetry().rounds, start - 3);
}

#[test]
fn default_script_ends_with_done() {
    let script = default_script();
    assert!(!script.is_empty());
    assert!(matches!(script[script.len() - 1], DemoStep::Done));
    assert!(matches!(script[0], DemoStep::Log { .. }));
}

#[test]
fn wait_step_holds_for_its_ticks() {
    let mut state = AppState::new(Config {
        show_boot: false,
        ..Config::default()
    });
    let mut demo = DemoPlayer::new(vec![DemoStep::Wait { ticks: 3 }, DemoStep::Done]);
    demo.start();
    let mut ticks = 0;
    while demo.tick(&mut state) {
        ticks += 1;
        assert!(ticks < 100);
    }
    assert!(ticks >= 3);
    assert!(!demo.is_active());
}

#[test]
fn empty_script_stops_at_once() {
    let mut state = AppState::new(Config {
        show_boot: false,
        ..Config::default()
    });
    let mut demo = DemoPlayer::new(Vec::new());
    demo.start();
    assert!(!demo.tick(&mut state));
    assert!(!demo.is_active());
}
