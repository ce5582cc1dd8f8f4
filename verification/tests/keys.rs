use ua571::config::Config;
use ua571::keys::{apply_panel_key, PanelKey};
use ua571::state::{AppState, Screen};

fn panel_console() -> AppState {
    AppState::new(Config {
        show_boot: false,
        ..Config::default()
    })
}

#[test]
fn o_opens_options_and_does_not_leave() {
    let mut state = panel_console();
    assert_eq!(state.screen, Screen::Options);
    apply_panel_key(&mut state, PanelKey::OpenOptions);
    assert_eq!(state.screen, Screen::Options);
    state.set_screen(Screen::Fire);
    apply_panel_key(&mut state, PanelKey::OpenOptions);
    assert_eq!(state.screen, Screen::Options);
    apply_panel_key(&mut state, PanelKey::OpenOptions);
    assert_eq!(state.screen, Screen::Options);
}

#[test]
fn esc_toggles_fire_and_options() {
    let mut state = panel_console();
    assert_eq!(state.screen, Screen::Options);
    apply_panel_key(&mut state, PanelKey::ToggleFirePanel);
    assert_eq!(state.screen, Screen::Fire);
    apply_panel_key(&mut state, PanelKey::ToggleFirePanel);
    assert_eq!(state.screen, Screen::Options);
}

#[test]
fn both_keys_stop_demo() {
    let mut state = panel_console();
    state.toggle_demo();
    assert!(state.demo.is_active());
    apply_panel_key(&mut state, PanelKey::OpenOptions);
    assert!(!state.demo.is_active());

    state.toggle_demo();
    assert!(state.demo.is_active());
    apply_panel_key(&mut state, PanelKey::ToggleFirePanel);
    assert!(!state.demo.is_active());
    assert_eq!(state.screen, Screen::Fire);
}

#[test]
fn esc_during_boot_skips_the_splash() {
    let mut state = AppState::new(Config::default());
    assert_eq!(state.screen, Screen::Boot);
    apply_panel_key(&mut state, PanelKey::ToggleFirePanel);
    assert_eq!(state.screen, Screen::Options);
}
