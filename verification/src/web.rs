//! Browser console rules: how `KeyboardEvent.code` values drive the console,
//! when a held Space/Enter may keep firing, the Demo / Sound checkboxes, and
//! the one-line status shown in the page chrome.
use vstd::prelude::*;

use crate::config::{Config, Theme, VERSION};
use crate::fb::{HEIGHT, WIDTH};
use crate::keys::{spec_apply_panel_key, PanelKey};
use crate::state::{AppModel, AppState, Screen};
use crate::text::{decimal, push_decimal, str_eq};

verus! {

/// Workspace crate version for the web chrome (`v0.2.0`).
pub fn pkg_version() -> (r: String)
    ensures
        r@ == VERSION@,
{
    let mut v = String::new();
    v.append(VERSION);
    v
}

/// The console configuration the page asks for: the named theme (yellow when
/// the name is unknown), the splash unless skipped, the demo and sound
/// switches, everything else default, validated.
pub open spec fn spec_page_config(theme: Seq<char>, demo: bool, skip_boot: bool, sound: bool) -> Config {
    Config {
        theme: match Theme::spec_parse(theme) {
            Some(t) => t,
            None => Theme::Yellow,
        },
        show_boot: !skip_boot,
        demo_on_start: demo,
        sound,
        ..Config::spec_default()
    }.spec_validate()
}

pub fn page_config(theme: &str, demo: bool, skip_boot: bool, sound: bool) -> (r: Config)
    ensures
        r == spec_page_config(theme@, demo, skip_boot, sound),
{
    let theme = match Theme::parse(theme) {
        Some(t) => t,
        None => Theme::Yellow,
    };
    let config = Config { theme, show_boot: !skip_boot, demo_on_start: demo, sound, ..Config::default() };
    config.validate()
}

/// The canvas size for an integer pixel scale, clamped to 1–6: the logical
/// 640 × 240 canvas times the scale.
pub fn canvas_size(scale: u32) -> (r: (u32, u32, u32))
    ensures
        r.0 == if scale < 1 {
            1
        } else if scale > 6 {
            6
        } else {
            scale
        },
        r.1 == WIDTH * r.0,
        r.2 == HEIGHT * r.0,
{
    let scale = if scale < 1 {
        1
    } else if scale > 6 {
        6
    } else {
        scale
    };
    let w = WIDTH as u32;
    let h = HEIGHT as u32;
    assert(w == 640 && h == 240);
    (scale, w * scale, h * scale)
}

/// What a browser key code asks of the console.
#[derive(Debug, Clone, Copy, PartialEq, Eq, Structural)]
pub enum WebKey {
    Quit,
    Demo,
    Sound,
    FirePanel,
    Options,
    Escape,
    Arm,
    Reload,
    /// Select the sentry at this bank index.
    Sentry(usize),
    Left,
    Right,
    Up,
    Down,
    Confirm,
    Other,
}

/// `KeyQ`, `KeyD`, `KeyM`, `KeyF`, `KeyO`, `Escape`, `KeyA`, `KeyR`; the
/// digits 1–4 on either row; arrows or `hjkl`; `Enter`, `NumpadEnter` or
/// `Space`; anything else is ignored.
pub open spec fn spec_web_key(code: Seq<char>) -> WebKey {
    if code == "KeyQ"@ {
        WebKey::Quit
    } else if code == "KeyD"@ {
        WebKey::Demo
    } else if code == "KeyM"@ {
        WebKey::Sound
    } else if code == "KeyF"@ {
        WebKey::FirePanel
    } else if code == "KeyO"@ {
        WebKey::Options
    } else if code == "Escape"@ {
        WebKey::Escape
    } else if code == "KeyA"@ {
        WebKey::Arm
    } else if code == "KeyR"@ {
        WebKey::Reload
    } else if code == "Digit1"@ || code == "Numpad1"@ {
        WebKey::Sentry(0)
    } else if code == "Digit2"@ || code == "Numpad2"@ {
        WebKey::Sentry(1)
    } else if code == "Digit3"@ || code == "Numpad3"@ {
        WebKey::Sentry(2)
    } else if code == "Digit4"@ || code == "Numpad4"@ {
        WebKey::Sentry(3)
    } else if code == "ArrowLeft"@ || code == "KeyH"@ {
        WebKey::Left
    } else if code == "ArrowRight"@ || code == "KeyL"@ {
        WebKey::Right
    } else if code == "ArrowUp"@ || code == "KeyK"@ {
        WebKey::Up
    } else if code == "ArrowDown"@ || code == "KeyJ"@ {
        WebKey::Down
    } else if code == "Enter"@ || code == "NumpadEnter"@ || code == "Space"@ {
        WebKey::Confirm
    } else {
        WebKey::Other
    }
}

/// Reads a browser key code.
pub fn web_key(code: &str) -> (r: WebKey)
    ensures
        r == spec_web_key(code@),
{
    if str_eq(code, "KeyQ") {
        WebKey::Quit
    } else if str_eq(code, "KeyD") {
        WebKey::Demo
    } else if str_eq(code, "KeyM") {
        WebKey::Sound
    } else if str_eq(code, "KeyF") {
        WebKey::FirePanel
    } else if str_eq(code, "KeyO") {
        WebKey::Options
    } else if str_eq(code, "Escape") {
        WebKey::Escape
    } else if str_eq(code, "KeyA") {
        WebKey::Arm
    } else if str_eq(code, "KeyR") {
        WebKey::Reload
    } else if str_eq(code, "Digit1") || str_eq(code, "Numpad1") {
        WebKey::Sentry(0)
    } else if str_eq(code, "Digit2") || str_eq(code, "Numpad2") {
        WebKey::Sentry(1)
    } else if str_eq(code, "Digit3") || str_eq(code, "Numpad3") {
        WebKey::Sentry(2)
    } else if str_eq(code, "Digit4") || str_eq(code, "Numpad4") {
        WebKey::Sentry(3)
    } else if str_eq(code, "ArrowLeft") || str_eq(code, "KeyH") {
        WebKey::Left
    } else if str_eq(code, "ArrowRight") || str_eq(code, "KeyL") {
        WebKey::Right
    } else if str_eq(code, "ArrowUp") || str_eq(code, "KeyK") {
        WebKey::Up
    } else if str_eq(code, "ArrowDown") || str_eq(code, "KeyJ") {
        WebKey::Down
    } else if str_eq(code, "Enter") || str_eq(code, "NumpadEnter") || str_eq(code, "Space") {
        WebKey::Confirm
    } else {
        WebKey::Other
    }
}

pub open spec fn spec_is_confirm_code(code: Seq<char>) -> bool {
    code == "Enter"@ || code == "NumpadEnter"@ || code == "Space"@
}

/// Space or either Enter.
pub fn is_confirm_code(code: &str) -> (r: bool)
    ensures
        r == spec_is_confirm_code(code@),
{
    str_eq(code, "Enter") || str_eq(code, "NumpadEnter") || str_eq(code, "Space")
}

/// Chrome Demo checkbox: during POST it reflects the scheduled auto-play
/// flag, afterwards the live player.
pub open spec fn spec_demo_checkbox_on(m: AppModel) -> bool {
    if m.screen == Screen::Boot {
        m.config.demo_on_start
    } else {
        m.demo.active
    }
}

pub fn demo_checkbox_on(state: &AppState) -> (r: bool)
    ensures
        r == spec_demo_checkbox_on(state@),
{
    if state.screen == Screen::Boot {
        state.config.demo_on_start
    } else {
        state.demo.is_active()
    }
}

/// The Demo checkbox: the startup flag always follows it; after POST the
/// player is toggled when it disagrees.
pub open spec fn spec_apply_demo_checkbox(m: AppModel, on: bool) -> AppModel {
    let m1 = AppModel { config: crate::config::Config { demo_on_start: on, ..m.config }, ..m };
    if m1.screen == Screen::Boot || on == m1.demo.active {
        m1
    } else {
        m1.toggle_demo()
    }
}

/// Apply the Demo checkbox. During POST only the pending flag is stored so
/// unchecking cancels auto-play that would otherwise start after splash.
pub fn apply_demo_checkbox(state: &mut AppState, on: bool)
    requires
        old(state)@.ready(1),
    ensures
        final(state)@ == spec_apply_demo_checkbox(old(state)@, on),
        final(state)@.wf(),
{
    state.config.demo_on_start = on;
    if state.screen == Screen::Boot {
        return;
    }
    if on != state.demo.is_active() {
        state.toggle_demo();
    }
}

/// The Sound checkbox: sound is toggled only when it disagrees.
pub open spec fn spec_apply_sound_checkbox(m: AppModel, on: bool) -> AppModel {
    if on != m.config.sound {
        m.toggle_sound()
    } else {
        m
    }
}

pub fn apply_sound_checkbox(state: &mut AppState, on: bool)
    requires
        old(state)@.ready(1),
    ensures
        final(state)@ == spec_apply_sound_checkbox(old(state)@, on),
        final(state)@.wf(),
{
    if on != state.config.sound {
        state.toggle_sound();
    }
}

/// Active screen name for the page: `boot`, `options` or `fire`.
pub fn screen_name(screen: Screen) -> (r: &'static str)
    ensures
        r@ == match screen {
            Screen::Boot => "boot"@,
            Screen::Options => "options"@,
            Screen::Fire => "fire"@,
        },
{
    match screen {
        Screen::Boot => "boot",
        Screen::Options => "options",
        Screen::Fire => "fire",
    }
}

pub open spec fn text_opt(t: Option<&str>) -> Option<Seq<char>> {
    match t {
        Some(s) => Some(s@),
        None => None,
    }
}

/// The status strip: active sentry, rounds, system mode, ARMED/SAFE,
/// DEMO/MANUAL (by the Demo checkbox), SND/MUTE, and the hint if any, joined
/// by ` · `.
pub open spec fn spec_chrome_status_line(m: AppModel, hint: Option<Seq<char>>) -> Seq<char> {
    let s = m.active();
    "S"@ + decimal(s.id as nat) + " · "@ + decimal(s.fire.rounds as nat) + " rds · "@
        + s.options.system_mode.spec_label() + " · "@ + (if s.spec_is_armed() {
        "ARMED"@
    } else {
        "SAFE"@
    }) + " · "@ + (if spec_demo_checkbox_on(m) {
        "DEMO"@
    } else {
        "MANUAL"@
    }) + " · "@ + (if m.config.sound {
        "SND"@
    } else {
        "MUTE"@
    }) + match hint {
        Some(h) => " · "@ + h,
        None => Seq::empty(),
    }
}

/// HTML chrome status. During POST, DEMO/MANUAL follows the Demo checkbox
/// (scheduled `demo_on_start`) so the strip does not say MANUAL while the
/// box is still checked.
pub fn chrome_status_line(state: &AppState, hint: Option<&str>) -> (r: String)
    requires
        state@.wf(),
    ensures
        r@ == spec_chrome_status_line(state@, text_opt(hint)),
{
    let s = state.active_sentry();
    let mut line = String::new();
    line.append("S");
    push_decimal(&mut line, s.id as u64);
    line.append(" · ");
    push_decimal(&mut line, s.fire.rounds as u64);
    line.append(" rds · ");
    line.append(s.options.system_mode.label());
    line.append(" · ");
    line.append(
        if s.is_armed() {
            "ARMED"
        } else {
            "SAFE"
        },
    );
    line.append(" · ");
    line.append(
        if demo_checkbox_on(state) {
            "DEMO"
        } else {
            "MANUAL"
        },
    );
    line.append(" · ");
    line.append(
        if state.config.sound {
            "SND"
        } else {
            "MUTE"
        },
    );
    let ghost before_hint = line@;
    if let Some(h) = hint {
        line.append(" · ");
        line.append(h);
        assert(line@ =~= before_hint + (" · "@ + h@));
    } else {
        assert(line@ =~= before_hint + Seq::<char>::empty());
    }
    line
}

/// One key on the console. During POST any key only skips the splash.
/// Otherwise: Q quits; D toggles the demo and confirms it in the hint; M
/// toggles sound; F and O stop the demo and open the firing panel or Options;
/// Esc stops the demo and toggles the panel; A, R and the digits stop the
/// demo and arm, reload, or select a sentry; arrows/`hjkl` stop the demo and
/// move the Options focus or selection (only on Options); Enter/Space stop
/// the demo and fire on the firing panel or confirm Options into it. The hint
/// is cleared by every key but D.
pub open spec fn spec_handle_key(m: AppModel, code: Seq<char>) -> (AppModel, Option<Seq<char>>) {
    if m.screen == Screen::Boot {
        (m.skip_boot(), None)
    } else {
        match spec_web_key(code) {
            WebKey::Quit => (m.quit(), None),
            WebKey::Demo => {
                let m1 = m.toggle_demo();
                (
                    m1,
                    Some(
                        if spec_demo_checkbox_on(m1) {
                            "Demo on"@
                        } else {
                            "Demo off"@
                        },
                    ),
                )
            },
            WebKey::Sound => (m.toggle_sound(), None),
            WebKey::FirePanel => (m.stop_demo().set_screen(Screen::Fire), None),
            WebKey::Options => (m.stop_demo().set_screen(Screen::Options), None),
            WebKey::Escape => (m.stop_demo().toggle_fire_panel(), None),
            WebKey::Arm => (m.stop_demo().toggle_arm(), None),
            WebKey::Reload => (m.stop_demo().reload(), None),
            WebKey::Sentry(i) => (m.stop_demo().select_sentry(i), None),
            WebKey::Left => (
                if m.screen == Screen::Options {
                    m.stop_demo().focus_prev_section()
                } else {
                    m
                },
                None,
            ),
            WebKey::Right => (
                if m.screen == Screen::Options {
                    m.stop_demo().focus_next_section()
                } else {
                    m
                },
                None,
            ),
            WebKey::Up => (
                if m.screen == Screen::Options {
                    m.stop_demo().select_up()
                } else {
                    m
                },
                None,
            ),
            WebKey::Down => (
                if m.screen == Screen::Options {
                    m.stop_demo().select_down()
                } else {
                    m
                },
                None,
            ),
            WebKey::Confirm => {
                let m1 = m.stop_demo();
                (
                    match m1.screen {
                        Screen::Fire => m1.fire().0,
                        Screen::Options => m1.set_screen(Screen::Fire),
                        Screen::Boot => m1,
                    },
                    None,
                )
            },
            WebKey::Other => (m, None),
        }
    }
}

/// Applies one browser key code to the console and sets the chrome hint.
pub fn handle_key(state: &mut AppState, code: &str, status_hint: &mut Option<&'static str>)
    requires
        old(state)@.ready(8),
    ensures
        (final(state)@, text_opt(*final(status_hint))) == spec_handle_key(old(state)@, code@),
        final(state)@.wf(),
{
    *status_hint = None;
    if state.screen == Screen::Boot {
        state.skip_boot();
        return;
    }
    match web_key(code) {
        WebKey::Quit => {
            state.quit();
        },
        WebKey::Demo => {
            state.toggle_demo();
            *status_hint = Some(
                if demo_checkbox_on(state) {
                    "Demo on"
                } else {
                    "Demo off"
                },
            );
        },
        WebKey::Sound => state.toggle_sound(),
        WebKey::FirePanel => {
            state.stop_demo();
            state.set_screen(Screen::Fire);
        },
        WebKey::Options => {
            state.stop_demo();
            state.set_screen(Screen::Options);
        },
        WebKey::Escape => {
            state.stop_demo();
            state.toggle_fire_panel();
        },
        WebKey::Arm => {
            state.stop_demo();
            state.toggle_arm();
        },
        WebKey::Reload => {
            state.stop_demo();
            state.reload();
        },
        WebKey::Sentry(i) => {
            state.stop_demo();
            state.select_sentry(i);
        },
        WebKey::Left => {
            if state.screen == Screen::Options {
                state.stop_demo();
                state.focus_prev_section();
            }
        },
        WebKey::Right => {
            if state.screen == Screen::Options {
                state.stop_demo();
                state.focus_next_section();
            }
        },
        WebKey::Up => {
            if state.screen == Screen::Options {
                state.stop_demo();
                state.select_up();
            }
        },
        WebKey::Down => {
            if state.screen == Screen::Options {
                state.stop_demo();
                state.select_down();
            }
        },
        WebKey::Confirm => {
            state.stop_demo();
            match state.screen {
                Screen::Fire => {
                    let _ = state.fire();
                },
                Screen::Options => state.set_screen(Screen::Fire),
                Screen::Boot => {},
            }
        },
        WebKey::Other => {},
    }
}

/// Space/Enter OS-repeat may fire only if the originating keydown was on Fire.
#[derive(Debug, Default)]
pub struct ConfirmRepeatGate {
    pub origin_fire: bool,
}

impl ConfirmRepeatGate {
    /// A repeat is delivered only for Space/Enter whose hold began on the
    /// firing panel; every fresh keydown is delivered, and a fresh Space/Enter
    /// records whether it began there.
    pub open spec fn spec_allow(self, screen: Screen, code: Seq<char>, repeat: bool) -> (
        ConfirmRepeatGate,
        bool,
    ) {
        if repeat {
            (self, spec_is_confirm_code(code) && self.origin_fire)
        } else if spec_is_confirm_code(code) {
            (ConfirmRepeatGate { origin_fire: screen == Screen::Fire }, true)
        } else {
            (self, true)
        }
    }

    /// Whether this key event should be delivered to [`handle_key`].
    pub fn allow(&mut self, screen: Screen, code: &str, repeat: bool) -> (r: bool)
        ensures
            (*final(self), r) == old(self).spec_allow(screen, code@, repeat),
    {
        if repeat {
            return is_confirm_code(code) && self.origin_fire;
        }
        if is_confirm_code(code) {
            self.origin_fire = screen == Screen::Fire;
        }
        true
    }

    /// Releasing Space/Enter ends the hold; other keys change nothing.
    pub fn key_up(&mut self, code: &str)
        ensures
            final(self).origin_fire == (old(self).origin_fire && !spec_is_confirm_code(code@)),
    {
        if is_confirm_code(code) {
            self.origin_fire = false;
        }
    }
}

/// A keydown through the repeat gate: a refused event changes neither the
/// console nor the hint.
pub open spec fn spec_apply_key(
    m: AppModel,
    gate: ConfirmRepeatGate,
    hint: Option<Seq<char>>,
    code: Seq<char>,
    repeat: bool,
) -> (AppModel, ConfirmRepeatGate, Option<Seq<char>>, bool) {
    let (g, allowed) = gate.spec_allow(m.screen, code, repeat);
    if allowed {
        let (m1, h) = spec_handle_key(m, code);
        (m1, g, h, true)
    } else {
        (m, g, hint, false)
    }
}

pub fn apply_key(
    state: &mut AppState,
    gate: &mut ConfirmRepeatGate,
    code: &str,
    repeat: bool,
    status_hint: &mut Option<&'static str>,
) -> (r: bool)
    requires
        old(state)@.ready(8),
    ensures
        (final(state)@, *final(gate), text_opt(*final(status_hint)), r) == spec_apply_key(
            old(state)@,
            *old(gate),
            text_opt(*old(status_hint)),
            code@,
            repeat,
        ),
        final(state)@.wf(),
{
    if !gate.allow(state.screen, code, repeat) {
        return false;
    }
    handle_key(state, code, status_hint);
    true
}

/// Key repeats: a repeat of any key but Space/Enter is refused and changes
/// nothing; a Space/Enter repeat is delivered only while the hold began on the
/// firing panel; a fresh Space/Enter pressed anywhere else starts a hold whose
/// repeats are refused.
pub proof fn lemma_repeat_gate(
    m: AppModel,
    gate: ConfirmRepeatGate,
    hint: Option<Seq<char>>,
    code: Seq<char>,
)
    ensures
        !spec_is_confirm_code(code) ==> spec_apply_key(m, gate, hint, code, true) == (
            m,
            gate,
            hint,
            false,
        ),
        spec_apply_key(m, gate, hint, code, true).3 ==> gate.origin_fire,
        spec_is_confirm_code(code) && m.screen != Screen::Fire ==> !spec_apply_key(
            m,
            gate,
            hint,
            code,
            false,
        ).1.origin_fire,
        spec_is_confirm_code(code) && !gate.origin_fire ==> spec_apply_key(
            m,
            gate,
            hint,
            code,
            true,
        ) == (m, gate, hint, false),
{
}

/// The Demo checkbox during POST only schedules: the player is untouched, and
/// once the splash ends the demo runs exactly when the box was left checked.
pub proof fn lemma_demo_checkbox_during_boot(m: AppModel, on: bool)
    requires
        m.screen == Screen::Boot,
        !m.demo.active,
    ensures
        spec_apply_demo_checkbox(m, on).demo == m.demo,
        spec_demo_checkbox_on(spec_apply_demo_checkbox(m, on)) == on,
        spec_apply_demo_checkbox(m, on).skip_boot().demo.active == on,
{
}

/// After POST the checkbox and the player agree once it is applied.
pub proof fn lemma_demo_checkbox_after_boot(m: AppModel, on: bool)
    requires
        m.screen != Screen::Boot,
    ensures
        spec_apply_demo_checkbox(m, on).demo.active == on,
        spec_demo_checkbox_on(spec_apply_demo_checkbox(m, on)) == on,
{
}

/// Away from POST the browser's O and Esc do exactly what the shared panel
/// keys do (see `apply_panel_key`), so the browser and the pixel window agree.
pub proof fn lemma_panel_keys_shared(m: AppModel)
    requires
        m.screen != Screen::Boot,
    ensures
        spec_handle_key(m, "KeyO"@).0 == spec_apply_panel_key(m, PanelKey::OpenOptions),
        spec_handle_key(m, "Escape"@).0 == spec_apply_panel_key(m, PanelKey::ToggleFirePanel),
{
    reveal_strlit("KeyQ");
    reveal_strlit("KeyD");
    reveal_strlit("KeyM");
    reveal_strlit("KeyF");
    reveal_strlit("KeyO");
    reveal_strlit("Escape");
    assert("KeyO"@[3] != "KeyQ"@[3]);
    assert("KeyO"@[3] != "KeyD"@[3]);
    assert("KeyO"@[3] != "KeyM"@[3]);
    assert("KeyO"@[3] != "KeyF"@[3]);
    assert("Escape"@.len() != "KeyQ"@.len());
    assert("Escape"@.len() != "KeyD"@.len());
    assert("Escape"@.len() != "KeyM"@.len());
    assert("Escape"@.len() != "KeyF"@.len());
    assert("Escape"@.len() != "KeyO"@.len());
}


/// Away from POST, digit key 1–4 (top row or keypad) makes the unit with that
/// number active (index one below the digit), stops a running demo, and
/// changes no unit and not the screen.
pub proof fn lemma_digit_selects_sentry(m: AppModel, code: Seq<char>, k: usize)
    requires
        m.wf(),
        m.screen != Screen::Boot,
        (k == 0 && (code == "Digit1"@ || code == "Numpad1"@)) || (k == 1 && (code == "Digit2"@
            || code == "Numpad2"@)) || (k == 2 && (code == "Digit3"@ || code == "Numpad3"@)) || (k
            == 3 && (code == "Digit4"@ || code == "Numpad4"@)),
    ensures
        ({
            let r = spec_handle_key(m, code).0;
            &&& r.active_index == k
            &&& r.bank == m.bank
            &&& !r.demo.active
            &&& r.screen == m.screen
        }),
{
    reveal_strlit("KeyQ");
    reveal_strlit("KeyD");
    reveal_strlit("KeyM");
    reveal_strlit("KeyF");
    reveal_strlit("KeyO");
    reveal_strlit("Escape");
    reveal_strlit("KeyA");
    reveal_strlit("KeyR");
    reveal_strlit("Digit1");
    reveal_strlit("Numpad1");
    reveal_strlit("Digit2");
    reveal_strlit("Numpad2");
    reveal_strlit("Digit3");
    reveal_strlit("Numpad3");
    reveal_strlit("Digit4");
    reveal_strlit("Numpad4");
    reveal_strlit("1234");
    assert(code.len() == 6 ==> code[0] == 'D' && code[5] == "1234"@[k as int]);
    assert(code.len() == 7 ==> code[0] == 'N' && code[6] == "1234"@[k as int]);
    assert(spec_web_key(code) == WebKey::Sentry(k));
}

} // verus!
