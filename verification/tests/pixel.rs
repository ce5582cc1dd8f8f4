use ua571::config::Config;
use ua571::fire_deny::fire_with_status;
use ua571::idle::idle_runtime;
use ua571::keys::{apply_panel_key, PanelKey};
use ua571::pixel::{
    handle_input, window_title, ConfirmHold, FocusTracker, PixelInput, PixelKey,
    BASE_TITLE_PREFIX,
};
use ua571::state::{AppState, Screen};

fn fresh_keys(keys: &[PixelKey]) -> PixelInput {
    PixelInput {
        fresh: keys.to_vec(),
        confirm_repeat: false,
    }
}

fn repeat_pulse() -> PixelInput {
    PixelInput {
        fresh: Vec::new(),
        confirm_repeat: true,
    }
}

fn pixel_state() -> AppState {
    AppState::new(Config {
        show_boot: false,
        ..Config::default()
    })
}

#[test]
fn window_title_has_no_hint_by_default() {
    let title = window_title(None);
    assert!(title.starts_with(BASE_TITLE_PREFIX));
    assert!(!title.contains('—'));
}

#[test]
fn window_title_appends_fire_status_hint() {
    for hint in ["OFFLINE", "LINK DOWN", "EMPTY", "CRITICAL"] {
        let title = window_title(Some(hint));
        assert!(
            title.starts_with(BASE_TITLE_PREFIX),
            "hinted title should keep the base title: {title:?}"
        );
        assert!(title.ends_with(hint), "hinted title should end with the reason: {title:?}");
    }
}

#[test]
fn uses_shared_fire_deny_helper() {
    // Both fire paths (fresh confirm and key-repeat hold) report what the
    // shared classifier reports.
    let mut state = pixel_state();
    let mut expected = pixel_state();
    let mut hold = ConfirmHold::default();
    let mut hint = None;
    state.active_sentry_mut().unwrap().link_ok = false;
    expected.active_sentry_mut().unwrap().link_ok = false;
    handle_input(&fresh_keys(&[PixelKey::F]), &mut state, &mut hold, &mut hint);
    expected.set_screen(Screen::Fire);
    assert!(handle_input(&fresh_keys(&[PixelKey::Enter]), &mut state, &mut hold, &mut hint));
    let (_, status) = fire_with_status(&mut expected);
    assert_eq!(hint, status.map(|r| r.message()));
    assert_eq!(hint, Some("LINK DOWN"));
    assert!(handle_input(&repeat_pulse(), &mut state, &mut hold, &mut hint));
    assert_eq!(hint, Some("LINK DOWN"));
}

#[test]
fn uses_shared_panel_key_helper() {
    let mut state = pixel_state();
    let mut expected = pixel_state();
    let mut hold = ConfirmHold::default();
    let mut hint = None;
    state.toggle_demo();
    expected.toggle_demo();
    handle_input(&fresh_keys(&[PixelKey::Escape]), &mut state, &mut hold, &mut hint);
    apply_panel_key(&mut expected, PanelKey::ToggleFirePanel);
    assert_eq!(state.screen, expected.screen);
    assert_eq!(state.demo.is_active(), expected.demo.is_active());
    handle_input(&fresh_keys(&[PixelKey::O]), &mut state, &mut hold, &mut hint);
    apply_panel_key(&mut expected, PanelKey::OpenOptions);
    assert_eq!(state.screen, expected.screen);
    assert_eq!(state.screen, Screen::Options);
    assert_eq!(state.log.len(), expected.log.len());
}

#[test]
fn confirm_hold_only_repeat_fires_when_hold_originated_on_fire() {
    let mut hold = ConfirmHold { origin_fire: false };
    assert!(
        !hold.allows_repeat_fire(Screen::Fire),
        "a hold that confirmed Options -> Fire must not repeat-fire"
    );

    hold.origin_fire = true;
    assert!(hold.allows_repeat_fire(Screen::Fire));

    assert!(!hold.allows_repeat_fire(Screen::Options));
    assert!(!hold.allows_repeat_fire(Screen::Boot));
}

#[test]
fn uses_shared_idle_runtime_helper() {
    // The frame policy is the shared one: no ticks or sound while unfocused.
    for focused in [true, false] {
        for sound in [true, false] {
            let idle = idle_runtime(!focused, sound);
            assert_eq!(idle.tick, focused);
            assert_eq!(idle.audio, focused && sound);
        }
    }
}

#[test]
fn focus_tracker_flags_only_the_regain_frame() {
    let mut focus = FocusTracker::new(true);
    assert!(!focus.regained(true), "already focused is not a regain");
    assert!(!focus.regained(false), "losing focus is not a regain");
    assert!(!focus.regained(false), "staying unfocused is not a regain");
    assert!(focus.regained(true), "unfocused -> focused is exactly a regain");
    assert!(
        !focus.regained(true),
        "staying focused after regain is not a regain again"
    );
}

#[test]
fn focus_tracker_starting_unfocused_flags_first_focus() {
    let mut focus = FocusTracker::new(false);
    assert!(focus.regained(true));
}

#[test]
fn mute_key_only_toggles_the_preference() {
    let mut state = pixel_state();
    let mut hold = ConfirmHold::default();
    let mut hint = None;
    let options = *state.options();
    assert!(!state.config.sound);
    assert!(handle_input(&fresh_keys(&[PixelKey::M]), &mut state, &mut hold, &mut hint));
    assert!(state.config.sound);
    assert_eq!(*state.options(), options);
    assert_eq!(state.screen, Screen::Options);
}

#[test]
fn options_confirm_does_not_start_hold_to_fire() {
    let mut state = pixel_state();
    let mut hold = ConfirmHold::default();
    let mut hint = None;
    handle_input(&fresh_keys(&[PixelKey::A]), &mut state, &mut hold, &mut hint);
    handle_input(&fresh_keys(&[PixelKey::Space]), &mut state, &mut hold, &mut hint);
    assert_eq!(state.screen, Screen::Fire);
    let rounds = state.fire_telemetry().rounds;
    assert!(!handle_input(&repeat_pulse(), &mut state, &mut hold, &mut hint));
    assert_eq!(state.fire_telemetry().rounds, rounds);
    handle_input(&fresh_keys(&[PixelKey::Space]), &mut state, &mut hold, &mut hint);
    assert_eq!(state.fire_telemetry().rounds, rounds - 1);
    assert!(handle_input(&repeat_pulse(), &mut state, &mut hold, &mut hint));
    assert_eq!(state.fire_telemetry().rounds, rounds - 2);
}

#[test]
fn boot_skips_on_any_fresh_key_only() {
    let mut state = AppState::new(Config::default());
    let mut hold = ConfirmHold::default();
    let mut hint = None;
    assert!(!handle_input(&repeat_pulse(), &mut state, &mut hold, &mut hint));
    assert_eq!(state.screen, Screen::Boot);
    assert!(handle_input(&fresh_keys(&[PixelKey::Other]), &mut state, &mut hold, &mut hint));
    assert_eq!(state.screen, Screen::Options);
}

#[test]
fn any_fresh_key_clears_the_hint() {
    let mut state = pixel_state();
    let mut hold = ConfirmHold::default();
    let mut hint = Some("EMPTY");
    handle_input(&fresh_keys(&[PixelKey::Other]), &mut state, &mut hold, &mut hint);
    assert_eq!(hint, None);
}
