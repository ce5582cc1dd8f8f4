use ua571::config::{load_native_config, Config, ConfigLoadError, NativeCli, Theme};

#[test]
fn validate_clamps_tick() {
    let c = Config {
        tick_ms: 1,
        ..Config::default()
    }
    .validate();
    assert_eq!(c.tick_ms, 16);
}

#[test]
fn theme_parse() {
    assert_eq!(Theme::parse("yellow"), Some(Theme::Yellow));
    assert_eq!(Theme::parse("grid"), Some(Theme::Yellow));
    assert_eq!(Theme::parse("green"), Some(Theme::Phosphor));
    assert_eq!(Theme::parse("amber"), Some(Theme::Amber));
    assert_eq!(Theme::parse("nope"), None);
}

#[test]
fn default_is_yellow() {
    assert_eq!(Config::default().theme, Theme::Yellow);
    assert_eq!(Theme::default(), Theme::Yellow);
}

#[test]
fn validate_clamps_rounds_capacity_and_high_tick() {
    let c = Config {
        starting_rounds: 5000,
        log_capacity: 2,
        tick_ms: 9_000,
        ..Config::default()
    }
    .validate();
    assert_eq!(c.starting_rounds, 999);
    assert_eq!(c.log_capacity, 8);
    assert_eq!(c.tick_ms, 1000);
}

#[test]
fn theme_next_cycles_all() {
    let mut t = Theme::Yellow;
    let mut seen = vec![t];
    for _ in 0..3 {
        t = t.next();
        seen.push(t);
    }
    assert_eq!(
        seen,
        vec![Theme::Yellow, Theme::Phosphor, Theme::Amber, Theme::Mono]
    );
    assert_eq!(t.next(), Theme::Yellow);
    assert_eq!(Theme::Amber.as_str(), "amber");
}

#[test]
fn theme_rgba_matches_pixel_u32() {
    let [r, g, b, a] = Theme::Yellow.on_rgba();
    assert_eq!(a, 0xff);
    assert_eq!(Theme::Yellow.on_rgb_u32(), 0x00_FF_EE_00);
    assert_eq!(
        Theme::Yellow.on_rgb_u32(),
        (u32::from(r) << 16) | (u32::from(g) << 8) | u32::from(b)
    );
}

#[test]
fn cli_flags_apply_without_config_file() {
    let cfg = load_native_config(
        Config::default(),
        &NativeCli {
            rounds: Some(42),
            tick_ms: Some(50),
            no_boot: true,
            demo: true,
            mute: true,
            ..NativeCli::default()
        },
    )
    .unwrap();
    assert_eq!(cfg.starting_rounds, 42);
    assert_eq!(cfg.tick_ms, 50);
    assert!(!cfg.show_boot);
    assert!(cfg.demo_on_start);
    assert!(!cfg.sound);
}

#[test]
fn unknown_theme_is_error() {
    let err = load_native_config(
        Config::default(),
        &NativeCli {
            theme: Some("octarine".into()),
            ..NativeCli::default()
        },
    )
    .unwrap_err();
    assert!(err.to_string().contains("octarine"));
}

#[test]
fn theme_names_round_trip_and_parse_any_case() {
    for t in Theme::ALL {
        assert_eq!(Theme::parse(t.as_str()), Some(t));
    }
    assert_eq!(Theme::parse("MONO"), Some(Theme::Mono));
    assert_eq!(Theme::parse("Phosphor"), Some(Theme::Phosphor));
}

#[test]
fn theme_off_colors_are_dark() {
    for t in Theme::ALL {
        let [r, g, b, a] = t.off_rgba();
        assert_eq!(a, 0xff);
        assert_eq!(
            t.off_rgb_u32(),
            (u32::from(r) << 16) | (u32::from(g) << 8) | u32::from(b)
        );
    }
    assert_eq!(Theme::Mono.on_rgba(), [0xe0, 0xe0, 0xe0, 0xff]);
}

#[test]
fn validate_keeps_values_in_range() {
    let c = Config {
        tick_ms: 250,
        starting_rounds: 300,
        log_capacity: 20,
        ..Config::default()
    };
    assert_eq!(c.validate(), c);
}

#[test]
fn cli_theme_flag_wins_over_file_theme() {
    let file = Config {
        theme: Theme::Amber,
        sound: true,
        ..Config::default()
    };
    let cfg = load_native_config(
        file,
        &NativeCli {
            theme: Some("mono".into()),
            ..NativeCli::default()
        },
    )
    .unwrap();
    assert_eq!(cfg.theme, Theme::Mono);
    assert!(cfg.sound);
    let kept = load_native_config(file, &NativeCli::default()).unwrap();
    assert_eq!(kept.theme, Theme::Amber);
}

#[test]
fn load_errors_name_the_path_and_cause() {
    let read = ConfigLoadError::Read {
        path: "/etc/ua571.toml".into(),
        source: "denied".into(),
    };
    assert_eq!(read.to_string(), "failed to read config /etc/ua571.toml: denied");
    let parse = ConfigLoadError::Parse {
        path: "c.toml".into(),
        source: "bad".into(),
    };
    assert_eq!(parse.to_string(), "failed to parse config c.toml: bad");
    let unknown = ConfigLoadError::UnknownTheme("teal".into());
    assert_eq!(
        unknown.to_string(),
        "unknown theme 'teal': use yellow, phosphor, amber, or mono"
    );
}

#[test]
fn validate_is_idempotent() {
    let c = Config {
        tick_ms: 5,
        starting_rounds: 4000,
        log_capacity: 0,
        ..Config::default()
    }
    .validate();
    assert_eq!(c.validate(), c);
}
