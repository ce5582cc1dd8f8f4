use ua571::config::{Config, Theme};
use ua571::state::Screen;
use ua571::tui::{App, ConfirmHold, TuiKey, TuiKeyCode, TuiKeyKind, CONFIRM_HOLD_GAP_NS};

const MS: u64 = 1_000_000;

/// A console plus a clock that advances one millisecond per key event, like
/// events arriving back to back.
struct Harness {
    app: App,
    now: u64,
}

impl Harness {
    fn key(&mut self, code: TuiKeyCode, kind: TuiKeyKind) {
        self.now += MS;
        self.app.handle_key(
            TuiKey {
                code,
                kind,
                ctrl: false,
            },
            self.now,
        );
    }
}

fn boot_app() -> Harness {
    Harness {
        app: App::new(Config {
            show_boot: true,
            demo_on_start: true,
            ..Config::default()
        }),
        now: 0,
    }
}

fn options_app() -> Harness {
    Harness {
        app: App::new(Config {
            show_boot: false,
            ..Config::default()
        }),
        now: 0,
    }
}

#[test]
fn confirm_hold_treats_close_presses_as_the_same_hold() {
    let mut hold = ConfirmHold::default();
    let t0 = 5_000 * MS;
    hold.begin(t0);
    assert!(hold.is_active());
    assert!(hold.is_held_press(t0 + 30 * MS));
    assert!(hold.is_held_press(t0 + 500 * MS));
    hold.release();
    assert!(!hold.is_held_press(t0 + 510 * MS));
}

#[test]
fn confirm_hold_expires_after_typematic_gap() {
    let mut hold = ConfirmHold::default();
    let t0 = 5_000 * MS;
    hold.begin(t0);
    assert!(hold.is_held_press(t0 + 20 * MS));
    assert!(!hold.is_held_press(t0 + 20 * MS + CONFIRM_HOLD_GAP_NS));
    assert!(!hold.is_active());
}

#[test]
fn hold_space_through_post_stays_on_options_with_demo() {
    let mut h = boot_app();
    h.key(TuiKeyCode::Char(' '), TuiKeyKind::Press);
    assert_eq!(h.app.state.screen, Screen::Options);
    assert!(h.app.state.demo.is_active());

    h.key(TuiKeyCode::Char(' '), TuiKeyKind::Press);
    h.key(TuiKeyCode::Char(' '), TuiKeyKind::Repeat);
    assert_eq!(h.app.state.screen, Screen::Options);
    assert!(h.app.state.demo.is_active());

    h.key(TuiKeyCode::Char(' '), TuiKeyKind::Release);
    h.key(TuiKeyCode::Char(' '), TuiKeyKind::Press);
    assert_eq!(h.app.state.screen, Screen::Fire);
    assert!(!h.app.state.demo.is_active());
}

#[test]
fn hold_enter_through_post_does_not_confirm_options() {
    let mut h = boot_app();
    h.key(TuiKeyCode::Enter, TuiKeyKind::Press);
    assert_eq!(h.app.state.screen, Screen::Options);
    h.key(TuiKeyCode::Enter, TuiKeyKind::Press);
    assert_eq!(h.app.state.screen, Screen::Options);
    assert!(h.app.state.demo.is_active());
}

#[test]
fn other_key_during_post_does_not_latch_space() {
    let mut h = boot_app();
    h.key(TuiKeyCode::Char('z'), TuiKeyKind::Press);
    assert_eq!(h.app.state.screen, Screen::Options);
    h.key(TuiKeyCode::Char(' '), TuiKeyKind::Press);
    assert_eq!(h.app.state.screen, Screen::Fire);
}

#[test]
fn space_on_options_does_not_hold_to_fire() {
    let mut h = options_app();
    h.key(TuiKeyCode::Char('a'), TuiKeyKind::Press);
    h.key(TuiKeyCode::Char(' '), TuiKeyKind::Press);
    assert_eq!(h.app.state.screen, Screen::Fire);
    let rounds = h.app.state.fire_telemetry().rounds;
    h.key(TuiKeyCode::Char(' '), TuiKeyKind::Press);
    h.key(TuiKeyCode::Char(' '), TuiKeyKind::Repeat);
    assert_eq!(h.app.state.fire_telemetry().rounds, rounds);

    h.key(TuiKeyCode::Char(' '), TuiKeyKind::Release);
    h.key(TuiKeyCode::Char(' '), TuiKeyKind::Press);
    assert_eq!(h.app.state.fire_telemetry().rounds, rounds - 1);
}

#[test]
fn space_repeat_on_fire_hold_to_fires() {
    let mut h = options_app();
    h.key(TuiKeyCode::Char('a'), TuiKeyKind::Press);
    h.key(TuiKeyCode::Char('f'), TuiKeyKind::Press);
    h.key(TuiKeyCode::Char(' '), TuiKeyKind::Press);
    assert_eq!(h.app.state.fire_telemetry().rounds, 499);
    h.key(TuiKeyCode::Char(' '), TuiKeyKind::Repeat);
    assert_eq!(h.app.state.fire_telemetry().rounds, 498);
    h.key(TuiKeyCode::Char(' '), TuiKeyKind::Press);
    assert_eq!(h.app.state.fire_telemetry().rounds, 497);
}

#[test]
fn ctrl_c_quits_on_press_only() {
    let mut h = options_app();
    h.app.handle_key(
        TuiKey {
            code: TuiKeyCode::Char('c'),
            kind: TuiKeyKind::Release,
            ctrl: true,
        },
        1,
    );
    assert!(!h.app.state.should_quit);
    h.app.handle_key(
        TuiKey {
            code: TuiKeyCode::Char('c'),
            kind: TuiKeyKind::Press,
            ctrl: true,
        },
        2,
    );
    assert!(h.app.state.should_quit);
}

#[test]
fn theme_key_cycles_and_releases_are_ignored() {
    let mut h = options_app();
    assert_eq!(h.app.state.config.theme, Theme::Yellow);
    h.key(TuiKeyCode::Char('t'), TuiKeyKind::Press);
    assert_eq!(h.app.state.config.theme, Theme::Phosphor);
    h.key(TuiKeyCode::Char('T'), TuiKeyKind::Release);
    assert_eq!(h.app.state.config.theme, Theme::Phosphor);
    h.key(TuiKeyCode::Esc, TuiKeyKind::Press);
    assert_eq!(h.app.state.screen, Screen::Options);
    h.key(TuiKeyCode::Char('F'), TuiKeyKind::Press);
    assert_eq!(h.app.state.screen, Screen::Fire);
    h.key(TuiKeyCode::Esc, TuiKeyKind::Press);
    assert_eq!(h.app.state.screen, Screen::Options);
}

#[test]
fn hold_after_a_gap_counts_as_a_new_press() {
    let mut h = options_app();
    h.key(TuiKeyCode::Char('a'), TuiKeyKind::Press);
    h.key(TuiKeyCode::Enter, TuiKeyKind::Press);
    assert_eq!(h.app.state.screen, Screen::Fire);
    let rounds = h.app.state.fire_telemetry().rounds;
    h.key(TuiKeyCode::Enter, TuiKeyKind::Press);
    assert_eq!(h.app.state.fire_telemetry().rounds, rounds);
    h.now += CONFIRM_HOLD_GAP_NS;
    h.key(TuiKeyCode::Enter, TuiKeyKind::Press);
    assert_eq!(h.app.state.fire_telemetry().rounds, rounds - 1);
    assert!(!h.app.confirm_hold.is_active());
}

#[test]
fn non_confirm_repeats_and_releases_do_nothing() {
    let mut h = options_app();
    let before = *h.app.state.options();
    h.key(TuiKeyCode::Char('a'), TuiKeyKind::Repeat);
    h.key(TuiKeyCode::Down, TuiKeyKind::Release);
    assert_eq!(*h.app.state.options(), before);
    h.key(TuiKeyCode::Down, TuiKeyKind::Press);
    assert_ne!(*h.app.state.options(), before);
}
