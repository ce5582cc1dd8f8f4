use ua571::config::Config;
use ua571::fire::FireTelemetry;
use ua571::log::LogKind;
use ua571::options::MenuSection;
use ua571::screen_text::{
    critical_text, help_text, log_line, option_line, rate_label, rounds_text, section_title,
    sentry_bar_label, sentry_bar_status, temperature_alert, temperature_label,
};
use ua571::state::{AppState, Screen};

#[test]
fn sentry_bar_reads_each_unit() {
    let mut state = AppState::new(Config {
        show_boot: false,
        ..Config::default()
    });
    state.toggle_arm();
    let s = state.active_sentry();
    assert_eq!(sentry_bar_label(s), " S1:ARMED 500rds ");
    assert_eq!(sentry_bar_status(s), "│ AUTO-REMOTE │ SEARCH │ LINK OK");
    state.active_sentry_mut().unwrap().link_ok = false;
    assert!(sentry_bar_status(state.active_sentry()).ends_with("LINK DOWN"));
    assert_eq!(sentry_bar_label(state.bank.get(1).unwrap()), " S2:SAFE 500rds ");
}

#[test]
fn rounds_are_right_aligned_in_three_columns() {
    assert_eq!(rounds_text(7), "  7");
    assert_eq!(rounds_text(42), " 42");
    assert_eq!(rounds_text(500), "500");
    assert_eq!(rounds_text(999), "999");
    assert_eq!(rounds_text(0), "  0");
}

#[test]
fn panel_titles_and_rows_mark_focus_and_selection() {
    assert_eq!(section_title(MenuSection::IffStatus, true), "▶ IFF STATUS ");
    assert_eq!(section_title(MenuSection::IffStatus, false), " IFF STATUS ");
    assert_eq!(option_line("SAFE", true), " ► SAFE ");
    assert_eq!(option_line("ARMED", false), "   ARMED ");
}

#[test]
fn firing_panel_readouts() {
    let mut f = FireTelemetry::new(500);
    assert_eq!(critical_text(&f), "  NOMINAL   ");
    f.critical = true;
    f.critical_blink = true;
    assert_eq!(critical_text(&f), "  CRITICAL  ");
    f.critical_blink = false;
    assert_eq!(critical_text(&f).trim(), "");
    assert_eq!(temperature_label(85), "85°");
    assert_eq!(rate_label(12), "12 rpm");
    assert!(temperature_alert(80));
    assert!(!temperature_alert(79));
}

#[test]
fn help_and_log_lines() {
    assert!(help_text(Screen::Fire).starts_with("Enter/Space fire"));
    assert!(help_text(Screen::Options).starts_with("←→ section"));
    assert_eq!(log_line(&LogKind::Empty { sentry: 4 }), "› SENTRY-4 DRUM EMPTY");
}
