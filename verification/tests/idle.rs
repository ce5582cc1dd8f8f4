use ua571::idle::idle_runtime;

#[test]
fn backgrounded_pauses_ticks_and_mutes_without_flipping_sound_pref() {
    let muted = idle_runtime(true, true);
    assert!(!muted.tick, "backgrounded frontend must not simulate");
    assert!(!muted.audio, "backgrounded frontend must mute output");
    let sound_off = idle_runtime(true, false);
    assert!(!sound_off.tick);
    assert!(!sound_off.audio);

    let foreground_on = idle_runtime(false, true);
    assert!(foreground_on.tick);
    assert!(foreground_on.audio, "foreground + sound pref on resumes audio");
    let foreground_off = idle_runtime(false, false);
    assert!(foreground_off.tick);
    assert!(
        !foreground_off.audio,
        "coming to the foreground must not enable sound the operator muted"
    );
}
