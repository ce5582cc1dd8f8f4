use ua571::fire::{FireTelemetry, CRITICAL_THRESHOLD, RM_MAX, TEMP_MAX};

#[test]
fn starts_cold_and_idle() {
    let f = FireTelemetry::new(500);
    assert_eq!(f.temperature, 0);
    assert_eq!(f.rm, 0);
}

#[test]
fn fire_raises_temp_and_rm() {
    let mut f = FireTelemetry::new(500);
    for _ in 0..12 {
        assert!(f.fire());
    }
    assert!(f.rm > 0, "R(M) should climb under fire");
    assert!(f.temperature > 0, "temperature should climb under fire");
    assert!(f.rm <= RM_MAX);
    assert!(f.temperature <= TEMP_MAX);
}

#[test]
fn fire_decrements_rounds() {
    let mut f = FireTelemetry::new(500);
    assert!(f.fire());
    assert_eq!(f.rounds, 499);
}

#[test]
fn critical_below_threshold() {
    let mut f = FireTelemetry::new(100);
    assert!(!f.critical);
    f.fire();
    assert_eq!(f.rounds, 99);
    assert!(f.critical);
}

#[test]
fn empty_drum_does_not_underflow() {
    let mut f = FireTelemetry::new(0);
    assert!(!f.fire());
    assert_eq!(f.rounds, 0);
    assert_eq!(f.temperature, 0);
    assert_eq!(f.rm, 0);
}

#[test]
fn time_display_format() {
    let f = FireTelemetry::new(500);
    assert_eq!(f.time_display(), "33.33");
    let mut f2 = FireTelemetry::new(500);
    f2.time_centisecs = 505;
    assert_eq!(f2.time_display(), "5.05");
}

#[test]
fn reload_resets_gauges() {
    let mut f = FireTelemetry::new(500);
    for _ in 0..20 {
        let _ = f.fire();
    }
    f.reset(500);
    assert_eq!(f.temperature, 0);
    assert_eq!(f.rm, 0);
    assert_eq!(f.rounds, 500);
}

#[test]
fn time_parts_split_centiseconds() {
    let mut f = FireTelemetry::new(500);
    f.time_centisecs = 1234;
    assert_eq!(f.time_secs(), 12);
    assert_eq!(f.time_frac(), 34);
    assert_eq!(f.time_display(), "12.34");
}

#[test]
fn critical_blink_toggles_only_while_critical() {
    let mut calm = FireTelemetry::new(500);
    for _ in 0..10 {
        calm.tick_blink();
    }
    assert!(!calm.critical_blink);

    let mut hot = FireTelemetry::new(CRITICAL_THRESHOLD - 1);
    assert!(hot.critical);
    let mut flips = 0;
    let mut last = hot.critical_blink;
    for _ in 0..20 {
        hot.tick_blink();
        if hot.critical_blink != last {
            flips += 1;
            last = hot.critical_blink;
        }
    }
    assert!(flips > 0);
}

#[test]
fn gauges_stay_capped_under_sustained_fire() {
    let mut f = FireTelemetry::new(999);
    while f.fire() {}
    assert_eq!(f.rounds, 0);
    assert!(f.temperature <= TEMP_MAX);
    assert!(f.rm <= RM_MAX);
    assert!(f.critical);
}

#[test]
fn idle_tick_cools_barrel_and_spins_down() {
    let mut f = FireTelemetry::new(500);
    for _ in 0..30 {
        f.fire();
    }
    let (t, rm) = (f.temperature, f.rm);
    assert!(t > 0 && rm > 0);
    f.tick();
    assert_eq!(f.temperature, t - 1);
    assert_eq!(f.rm, rm - 1);
    assert_eq!(f.rounds, 470);
    for _ in 0..200 {
        f.tick();
    }
    assert_eq!(f.temperature, 0);
    assert_eq!(f.rm, 0);
    assert_eq!(f.rounds, 470);
}
