use ua571::config::{Config, NativeCli, Theme};
use ua571::options::{IffStatus, SystemMode, WeaponStatus};
use ua571::session::{
    compose_config, load_native_startup, session_path_for, SessionFile, SessionPrefs,
};
use ua571::state::AppState;

fn sample_prefs() -> SessionPrefs {
    SessionPrefs {
        theme: Some(Theme::Amber),
        sound: Some(true),
        system_mode: Some(SystemMode::SemiAuto),
        weapon_status: Some(WeaponStatus::Armed),
        iff_status: Some(IffStatus::Engaged),
    }
}

fn no_flags() -> NativeCli {
    NativeCli::default()
}

#[test]
fn round_trips_through_toml() {
    let prefs = sample_prefs();
    assert_eq!(SessionPrefs::from_toml(&prefs.to_toml()), Some(prefs));
}

#[test]
fn wire_names_match_what_the_web_frontend_stores() {
    for mode in SystemMode::ALL {
        assert_eq!(mode.wire_name(), format!("{mode:?}"));
        assert_eq!(SystemMode::parse_wire_name(mode.wire_name()), mode);
    }
    for weapon in WeaponStatus::ALL {
        assert_eq!(weapon.wire_name(), format!("{weapon:?}"));
        assert_eq!(WeaponStatus::parse_wire_name(weapon.wire_name()), weapon);
    }
    for iff in IffStatus::ALL {
        assert_eq!(iff.wire_name(), format!("{iff:?}"));
        assert_eq!(IffStatus::parse_wire_name(iff.wire_name()), iff);
    }
}

#[test]
fn unknown_names_fall_back_to_defaults_like_the_web_does() {
    assert_eq!(
        WeaponStatus::parse_wire_name("armed"),
        WeaponStatus::default()
    );
    assert_eq!(WeaponStatus::parse_wire_name(""), WeaponStatus::default());
    assert_eq!(IffStatus::parse_wire_name("nonsense"), IffStatus::default());
}

#[test]
fn a_corrupt_file_reads_as_no_session() {
    assert_eq!(SessionPrefs::from_toml("this is not toml {{{"), None);
}

#[test]
fn a_partial_file_degrades_field_by_field() {
    let prefs = SessionPrefs::from_toml("theme = \"amber\"\nsound = \"yes please\"\n").unwrap();
    assert_eq!(prefs.theme, Some(Theme::Amber));
    assert_eq!(
        prefs.sound, None,
        "a wrong-typed field falls through to the config file, it doesn't fail the read"
    );
    assert_eq!(prefs.weapon_status, None);
}

#[test]
fn an_unknown_theme_falls_back_rather_than_failing_the_read() {
    let prefs = SessionPrefs::from_toml("theme = \"ultraviolet\"\n").unwrap();
    assert_eq!(prefs.theme, None, "an unknown theme lets the config file decide");
}

#[test]
fn cli_beats_session_beats_config_file_beats_default() {
    let default_config = Config::default();
    assert_eq!(default_config.theme, Theme::Yellow);

    let from_file = Config {
        theme: Theme::Phosphor,
        ..Default::default()
    };
    assert_eq!(
        compose_config(from_file.clone(), None, &no_flags())
            .unwrap()
            .theme,
        Theme::Phosphor
    );

    let session = SessionPrefs {
        theme: Some(Theme::Amber),
        sound: Some(true),
        ..Default::default()
    };
    let composed = compose_config(from_file.clone(), Some(&session), &no_flags()).unwrap();
    assert_eq!(composed.theme, Theme::Amber);
    assert!(composed.sound);

    let with_flag = NativeCli {
        theme: Some("mono".into()),
        mute: true,
        ..no_flags()
    };
    let composed = compose_config(from_file, Some(&session), &with_flag).unwrap();
    assert_eq!(composed.theme, Theme::Mono);
    assert!(!composed.sound, "--mute still wins over a saved sound pref");
}

#[test]
fn a_session_field_that_is_absent_leaves_the_config_file_alone() {
    let from_file = Config {
        theme: Theme::Phosphor,
        sound: true,
        ..Default::default()
    };
    let session = SessionPrefs::default();
    let composed = compose_config(from_file, Some(&session), &no_flags()).unwrap();
    assert_eq!(composed.theme, Theme::Phosphor);
    assert!(composed.sound);
}

#[test]
fn restored_values_are_still_clamped() {
    let from_file = Config {
        tick_ms: 1,
        starting_rounds: 5000,
        log_capacity: 2,
        ..Default::default()
    };
    let composed = compose_config(from_file, None, &no_flags()).unwrap();
    assert_eq!(composed.tick_ms, 16);
    assert_eq!(composed.starting_rounds, 999);
    assert_eq!(composed.log_capacity, 8);
}

#[test]
fn no_save_session_means_no_path_to_write() {
    let cli = NativeCli {
        no_save_session: true,
        ..no_flags()
    };
    let path = session_path_for(&cli, Some("/home/op/.config/ua571/session.toml".into()));
    let startup = load_native_startup(&cli, Config::default(), path, SessionFile::Missing).unwrap();
    assert!(startup.session_path.is_none());
    assert!(startup.notice.is_none());
    assert!(startup.weapon_status.is_none());
}

#[test]
fn session_toml_lists_present_fields_only() {
    let prefs = SessionPrefs {
        sound: Some(false),
        iff_status: Some(IffStatus::Test),
        ..Default::default()
    };
    assert_eq!(
        prefs.to_toml(),
        "# Written by ua571 on exit. Hand edits belong in config.toml.\nsound = false\niff_status = \"Test\"\n"
    );
}

#[test]
fn a_loaded_session_is_restored_and_announced() {
    let path = Some(String::from("/tmp/s.toml"));
    let startup = load_native_startup(
        &no_flags(),
        Config {
            show_boot: false,
            ..Config::default()
        },
        path,
        SessionFile::Loaded(sample_prefs()),
    )
    .unwrap();
    assert_eq!(startup.config.theme, Theme::Amber);
    assert!(startup.config.sound);
    assert_eq!(startup.weapon_status, Some(WeaponStatus::Armed));
    assert_eq!(
        startup.notice.as_deref(),
        Some("SESSION RESTORED FROM /tmp/s.toml")
    );

    let mut state = AppState::new(startup.config);
    startup.apply(&mut state);
    for i in 0..4 {
        let s = state.bank.get(i).unwrap();
        assert_eq!(s.options.system_mode, SystemMode::SemiAuto);
        assert_eq!(s.options.weapon_status, WeaponStatus::Armed);
        assert_eq!(s.options.iff_status, IffStatus::Engaged);
    }
    let last = state.log.recent(1)[0].kind.to_string();
    assert_eq!(last, "SESSION RESTORED FROM /tmp/s.toml");

    let saved = startup.exit_prefs(&state).unwrap();
    assert_eq!(saved, sample_prefs());
}

#[test]
fn an_unreadable_session_is_ignored_with_a_notice() {
    let startup = load_native_startup(
        &no_flags(),
        Config::default(),
        Some(String::from("/x/session.toml")),
        SessionFile::Unreadable,
    )
    .unwrap();
    assert_eq!(startup.config.theme, Theme::Yellow);
    assert_eq!(
        startup.notice.as_deref(),
        Some("SESSION FILE IGNORED (UNREADABLE): /x/session.toml")
    );
    assert!(startup.system_mode.is_none());
}

#[test]
fn startup_refuses_an_unknown_cli_theme() {
    let cli = NativeCli {
        theme: Some("plaid".into()),
        ..no_flags()
    };
    assert!(load_native_startup(&cli, Config::default(), None, SessionFile::Missing).is_err());
}
