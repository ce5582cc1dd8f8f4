use ua571::config::{Config, Theme, VERSION};
use ua571::keys::{apply_panel_key, PanelKey};
use ua571::options::MenuSection;
use ua571::state::{AppState, Screen};
use ua571::web::{
    apply_demo_checkbox, apply_sound_checkbox, chrome_status_line, demo_checkbox_on,
    canvas_size, is_confirm_code, page_config, pkg_version, screen_name, web_key,
    ConfirmRepeatGate, WebKey,
};

fn press(state: &mut AppState, code: &str) {
    ua571::web::handle_key(state, code, &mut None);
}

fn gated(state: &mut AppState, gate: &mut ConfirmRepeatGate, code: &str, repeat: bool) {
    ua571::web::apply_key(state, gate, code, repeat, &mut None);
}

fn status(state: &AppState) -> String {
    chrome_status_line(state, None)
}

fn web_state() -> AppState {
    AppState::new(Config {
        show_boot: false,
        ..Config::default()
    })
}

#[test]
fn pkg_version_matches_core() {
    assert_eq!(pkg_version(), VERSION);
    assert_eq!(pkg_version(), "0.2.0");
}

#[test]
fn keys_arm_fire_and_quit() {
    let mut state = web_state();
    press(&mut state, "KeyA");
    assert!(state.active_sentry().is_armed());
    press(&mut state, "KeyF");
    assert_eq!(state.screen, Screen::Fire);
    press(&mut state, "Space");
    assert_eq!(state.fire_telemetry().rounds, 499);
    press(&mut state, "KeyQ");
    assert!(state.should_quit);
}

#[test]
fn keys_select_sentry_and_mute() {
    let mut state = web_state();
    press(&mut state, "Digit3");
    assert_eq!(state.active_sentry().id, 3);
    assert!(!state.config.sound);
    press(&mut state, "KeyM");
    assert!(state.config.sound);
    press(&mut state, "KeyF");
    press(&mut state, "Escape");
    assert_eq!(state.screen, Screen::Options);
}

#[test]
fn options_arrows_and_hl_change_section_focus() {
    let mut state = web_state();
    assert_eq!(state.screen, Screen::Options);
    assert_eq!(state.active_sentry().options.focus, MenuSection::SystemMode);

    press(&mut state, "ArrowRight");
    assert_eq!(state.active_sentry().options.focus, MenuSection::WeaponStatus);
    press(&mut state, "ArrowLeft");
    assert_eq!(state.active_sentry().options.focus, MenuSection::SystemMode);

    press(&mut state, "KeyL");
    assert_eq!(state.active_sentry().options.focus, MenuSection::WeaponStatus);
    press(&mut state, "KeyH");
    assert_eq!(state.active_sentry().options.focus, MenuSection::SystemMode);

    press(&mut state, "ArrowLeft");
    assert_eq!(state.active_sentry().options.focus, MenuSection::TargetSelect);
    press(&mut state, "KeyL");
    assert_eq!(state.active_sentry().options.focus, MenuSection::SystemMode);
    assert_eq!(state.screen, Screen::Options);
    assert_eq!(state.active_sentry().id, 1);
}

#[test]
fn digit_and_numpad_select_matching_sentry() {
    let mut state = web_state();
    assert_eq!(state.screen, Screen::Options);
    assert_eq!(state.active_sentry().id, 1);

    press(&mut state, "Digit2");
    assert_eq!(state.active_sentry().id, 2);
    press(&mut state, "Digit3");
    assert_eq!(state.active_sentry().id, 3);
    press(&mut state, "Digit4");
    assert_eq!(state.active_sentry().id, 4);
    press(&mut state, "Digit1");
    assert_eq!(state.active_sentry().id, 1);

    press(&mut state, "Numpad2");
    assert_eq!(state.active_sentry().id, 2);
    press(&mut state, "Numpad3");
    assert_eq!(state.active_sentry().id, 3);
    press(&mut state, "Numpad4");
    assert_eq!(state.active_sentry().id, 4);
    press(&mut state, "Numpad1");
    assert_eq!(state.active_sentry().id, 1);
    assert_eq!(state.screen, Screen::Options);
}

#[test]
fn escape_on_options_returns_to_fire() {
    let mut state = web_state();
    assert_eq!(state.screen, Screen::Options);
    press(&mut state, "Escape");
    assert_eq!(state.screen, Screen::Fire);
    press(&mut state, "Escape");
    assert_eq!(state.screen, Screen::Options);
}

#[test]
fn key_o_opens_options_from_fire_and_stays_on_options() {
    let mut state = web_state();
    press(&mut state, "KeyO");
    assert_eq!(state.screen, Screen::Options);
    press(&mut state, "KeyF");
    assert_eq!(state.screen, Screen::Fire);
    press(&mut state, "KeyO");
    assert_eq!(state.screen, Screen::Options);
    press(&mut state, "KeyO");
    assert_eq!(state.screen, Screen::Options);
}

#[test]
fn keys_toggle_demo() {
    let mut state = web_state();
    press(&mut state, "KeyD");
    assert!(state.demo.is_active());
    press(&mut state, "KeyD");
    assert!(!state.demo.is_active());
}

#[test]
fn demo_toggle_confirms_in_status_line() {
    let mut state = web_state();
    let mut hint = None;
    ua571::web::handle_key(&mut state, "KeyD", &mut hint);
    assert!(state.demo.is_active());
    let line = chrome_status_line(&state, hint);
    assert!(line.contains("Demo on"), "toggle on should confirm: {line}");
    assert!(line.contains("SAFE"), "Demo confirm must not drop SAFE chrome: {line}");

    ua571::web::handle_key(&mut state, "KeyD", &mut hint);
    assert!(!state.demo.is_active());
    let line = chrome_status_line(&state, hint);
    assert!(line.contains("Demo off"), "toggle off should confirm: {line}");

    ua571::web::handle_key(&mut state, "KeyM", &mut hint);
    let line = chrome_status_line(&state, hint);
    assert!(
        !line.contains("Demo on") && !line.contains("Demo off"),
        "hint should clear on the next action: {line}"
    );
}

#[test]
fn demo_checkbox_stays_on_during_boot() {
    let state = AppState::new(Config {
        show_boot: true,
        demo_on_start: true,
        ..Config::default()
    });
    assert_eq!(state.screen, Screen::Boot);
    assert!(!state.demo.is_active());
    assert!(demo_checkbox_on(&state));
}

#[test]
fn boot_status_line_says_demo_not_manual_when_checkbox_on() {
    let mut state = AppState::new(Config {
        show_boot: true,
        demo_on_start: true,
        ..Config::default()
    });
    assert!(!state.demo.is_active());
    let line = status(&state);
    assert!(
        line.contains("DEMO") && !line.contains("MANUAL"),
        "checked Demo must not read MANUAL during POST: {line}"
    );

    apply_demo_checkbox(&mut state, false);
    let line = status(&state);
    assert!(
        line.contains("MANUAL") && !line.contains("DEMO"),
        "unchecked Demo should read MANUAL during POST: {line}"
    );
}

#[test]
fn unchecking_demo_during_boot_cancels_pending_autoplay() {
    let mut state = AppState::new(Config {
        show_boot: true,
        demo_on_start: true,
        ..Config::default()
    });
    apply_demo_checkbox(&mut state, false);
    assert!(!demo_checkbox_on(&state));
    state.skip_boot();
    assert!(!state.demo.is_active());
    assert!(!demo_checkbox_on(&state));
}

#[test]
fn checking_demo_during_boot_starts_after_splash() {
    let mut state = AppState::new(Config {
        show_boot: true,
        demo_on_start: false,
        ..Config::default()
    });
    apply_demo_checkbox(&mut state, true);
    assert!(!state.demo.is_active());
    assert!(demo_checkbox_on(&state));
    state.skip_boot();
    assert!(state.demo.is_active());
    assert!(demo_checkbox_on(&state));
}

#[test]
fn demo_checkbox_after_boot_toggles_player() {
    let mut state = web_state();
    apply_demo_checkbox(&mut state, true);
    assert!(state.demo.is_active());
    assert!(demo_checkbox_on(&state));
    apply_demo_checkbox(&mut state, false);
    assert!(!state.demo.is_active());
    assert!(!demo_checkbox_on(&state));
}

#[test]
fn any_key_skips_boot() {
    let mut state = AppState::new(Config {
        show_boot: true,
        ..Config::default()
    });
    press(&mut state, "KeyZ");
    assert_eq!(state.screen, Screen::Options);
}

#[test]
fn space_during_boot_stays_on_options_with_demo() {
    let mut state = AppState::new(Config {
        show_boot: true,
        demo_on_start: true,
        ..Config::default()
    });
    press(&mut state, "Space");
    assert_eq!(state.screen, Screen::Options);
    assert!(state.demo.is_active());
}

#[test]
fn space_on_options_opens_fire_and_stops_demo() {
    let mut state = web_state();
    press(&mut state, "KeyD");
    assert_eq!(state.screen, Screen::Options);
    assert!(state.demo.is_active());
    press(&mut state, "Space");
    assert_eq!(state.screen, Screen::Fire);
    assert!(!state.demo.is_active());
}

#[test]
fn enter_on_fire_expends_a_round() {
    let mut state = web_state();
    press(&mut state, "KeyA");
    press(&mut state, "KeyF");
    press(&mut state, "Enter");
    assert_eq!(state.fire_telemetry().rounds, 499);
    press(&mut state, "NumpadEnter");
    assert_eq!(state.fire_telemetry().rounds, 498);
}

#[test]
fn space_repeat_through_post_stays_on_options_with_demo() {
    let mut state = AppState::new(Config {
        show_boot: true,
        demo_on_start: true,
        ..Config::default()
    });
    let mut gate = ConfirmRepeatGate::default();
    gated(&mut state, &mut gate, "Space", false);
    assert_eq!(state.screen, Screen::Options);
    assert!(state.demo.is_active());
    gated(&mut state, &mut gate, "Space", true);
    gated(&mut state, &mut gate, "Enter", true);
    assert_eq!(state.screen, Screen::Options);
    assert!(state.demo.is_active());
}

#[test]
fn space_repeat_after_options_confirm_does_not_fire() {
    let mut state = web_state();
    let mut gate = ConfirmRepeatGate::default();
    gated(&mut state, &mut gate, "KeyA", false);
    gated(&mut state, &mut gate, "Space", false);
    assert_eq!(state.screen, Screen::Fire);
    let rounds = state.fire_telemetry().rounds;
    gated(&mut state, &mut gate, "Space", true);
    gated(&mut state, &mut gate, "Enter", true);
    assert_eq!(state.fire_telemetry().rounds, rounds);
}

#[test]
fn space_repeat_after_options_confirm_unarmed_does_not_log_safe() {
    let mut state = web_state();
    let mut gate = ConfirmRepeatGate::default();
    gated(&mut state, &mut gate, "Space", false);
    assert_eq!(state.screen, Screen::Fire);
    gated(&mut state, &mut gate, "Space", true);
    assert!(
        !state
            .log
            .recent(16)
            .iter()
            .any(|e| e.kind.to_string().contains("CANNOT FIRE")),
        "Options hold must not spam SAFE fire attempts"
    );
}

#[test]
fn space_repeat_on_fire_hold_to_fires_until_keyup() {
    let mut state = web_state();
    let mut gate = ConfirmRepeatGate::default();
    gated(&mut state, &mut gate, "KeyA", false);
    gated(&mut state, &mut gate, "KeyF", false);
    gated(&mut state, &mut gate, "Space", false);
    assert_eq!(state.fire_telemetry().rounds, 499);
    gated(&mut state, &mut gate, "Space", true);
    assert_eq!(state.fire_telemetry().rounds, 498);
    gate.key_up("Space");
    gated(&mut state, &mut gate, "Space", true);
    assert_eq!(state.fire_telemetry().rounds, 498);
    gated(&mut state, &mut gate, "Space", false);
    assert_eq!(state.fire_telemetry().rounds, 497);
}

#[test]
fn arrow_repeat_is_ignored() {
    let mut state = web_state();
    let mut gate = ConfirmRepeatGate::default();
    let before = state.active_sentry().options;
    gated(&mut state, &mut gate, "ArrowDown", true);
    assert_eq!(state.active_sentry().options, before);
    gated(&mut state, &mut gate, "ArrowDown", false);
    assert_ne!(state.active_sentry().options, before);
}

#[test]
fn status_line_reads_the_active_sentry() {
    let mut state = web_state();
    state.toggle_arm();
    assert_eq!(
        status(&state),
        "S1 · 500 rds · AUTO-REMOTE · ARMED · MANUAL · MUTE"
    );
    assert_eq!(
        chrome_status_line(&state, Some("EMPTY")),
        "S1 · 500 rds · AUTO-REMOTE · ARMED · MANUAL · MUTE · EMPTY"
    );
}

#[test]
fn key_codes_classify() {
    assert_eq!(web_key("KeyQ"), WebKey::Quit);
    assert_eq!(web_key("Numpad4"), WebKey::Sentry(3));
    assert_eq!(web_key("KeyJ"), WebKey::Down);
    assert_eq!(web_key("NumpadEnter"), WebKey::Confirm);
    assert_eq!(web_key("keyq"), WebKey::Other);
    assert!(is_confirm_code("Space"));
    assert!(!is_confirm_code("ArrowUp"));
    assert_eq!(screen_name(Screen::Boot), "boot");
    assert_eq!(screen_name(Screen::Fire), "fire");
    assert_eq!(screen_name(Screen::Options), "options");
}

#[test]
fn sound_checkbox_only_toggles_on_change() {
    let mut state = web_state();
    let before = state.log.len();
    apply_sound_checkbox(&mut state, false);
    assert!(!state.config.sound);
    assert_eq!(state.log.len(), before);
    apply_sound_checkbox(&mut state, true);
    assert!(state.config.sound);
    apply_sound_checkbox(&mut state, true);
    assert!(state.config.sound);
}

#[test]
fn browser_panel_keys_match_the_shared_helper() {
    for start in [Screen::Options, Screen::Fire] {
        for (code, key) in [("KeyO", PanelKey::OpenOptions), ("Escape", PanelKey::ToggleFirePanel)] {
            let mut a = web_state();
            let mut b = web_state();
            a.set_screen(start);
            b.set_screen(start);
            a.toggle_demo();
            b.toggle_demo();
            press(&mut a, code);
            apply_panel_key(&mut b, key);
            assert_eq!(a.screen, b.screen);
            assert_eq!(a.demo.is_active(), b.demo.is_active());
            assert_eq!(a.log.len(), b.log.len());
        }
    }
}

#[test]
fn key_up_only_ends_confirm_holds() {
    let mut gate = ConfirmRepeatGate { origin_fire: true };
    gate.key_up("ArrowUp");
    assert!(gate.origin_fire);
    gate.key_up("Enter");
    assert!(!gate.origin_fire);
}

#[test]
fn page_config_follows_the_page_switches() {
    let c = page_config("amber", true, true, true);
    assert_eq!(c.theme, Theme::Amber);
    assert!(!c.show_boot);
    assert!(c.demo_on_start);
    assert!(c.sound);
    assert_eq!(c.tick_ms, 80);
    let fallback = page_config("ultraviolet", false, false, false);
    assert_eq!(fallback.theme, Theme::Yellow);
    assert!(fallback.show_boot);
    assert_eq!(canvas_size(0), (1, 640, 240));
    assert_eq!(canvas_size(3), (3, 1920, 720));
    assert_eq!(canvas_size(99), (6, 3840, 1440));
}
