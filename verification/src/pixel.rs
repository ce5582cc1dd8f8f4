//! Desktop pixel-window rules: the window title with its one-shot fire
//! status, the focus tracker that resyncs the clock once focus returns, and
//! how one frame's key presses drive the console.
//!
//! A frame's keys are given as plain values: the keys freshly pressed this
//! frame (repeats excluded), and whether Enter or Space delivered an OS
//! key-repeat pulse.
use vstd::prelude::*;

use crate::config::VERSION;
use crate::fire_deny::{fire_with_status, spec_fire_deny_reason, FireDenyReason};
use crate::keys::{apply_panel_key, spec_apply_panel_key, PanelKey};
use crate::state::{AppModel, AppState, Screen};

verus! {

/// Base window title (no fire-status suffix).
pub const BASE_TITLE_PREFIX: &'static str = "UA 571-C Remote Sentry Weapon System";

/// The base title and version, then ` — ` and the hint when there is one.
pub open spec fn spec_window_title(hint: Option<Seq<char>>) -> Seq<char> {
    let base = BASE_TITLE_PREFIX@ + "  v"@ + VERSION@;
    match hint {
        Some(h) => base + " — "@ + h,
        None => base,
    }
}

/// Compose the window title: base title plus a one-shot fire-status suffix.
/// The title bar is the pixel window's only text surface, so it carries
/// CRITICAL / EMPTY / LINK DOWN / OFFLINE.
pub fn window_title(hint: Option<&str>) -> (r: String)
    ensures
        r@ == spec_window_title(
            match hint {
                Some(h) => Some(h@),
                None => None,
            },
        ),
{
    let mut title = String::new();
    title.append(BASE_TITLE_PREFIX);
    title.append("  v");
    title.append(VERSION);
    let ghost base = title@;
    assert(base =~= BASE_TITLE_PREFIX@ + "  v"@ + VERSION@);
    if let Some(h) = hint {
        title.append(" — ");
        title.append(h);
        assert(title@ =~= base + " — "@ + h@);
    }
    title
}

/// Tracks window focus transitions so the main loop can resync its tick
/// clock exactly once on the frame focus returns.
#[derive(Debug)]
pub struct FocusTracker {
    pub was_focused: bool,
}

impl FocusTracker {
    pub fn new(focused: bool) -> (r: Self)
        ensures
            r.was_focused == focused,
    {
        Self { was_focused: focused }
    }

    /// Record this frame's focus state; `true` exactly on the frame focus
    /// goes from lost to regained.
    pub fn regained(&mut self, focused: bool) -> (r: bool)
        ensures
            r == (focused && !old(self).was_focused),
            final(self).was_focused == focused,
    {
        let regained = focused && !self.was_focused;
        self.was_focused = focused;
        regained
    }
}

/// Latches whether the Enter/Space hold currently in progress began while
/// the Fire screen was active.
#[derive(Debug, Default)]
pub struct ConfirmHold {
    pub origin_fire: bool,
}

impl ConfirmHold {
    /// A key-repeat pulse keeps firing only while the current hold both
    /// started on the firing panel and is still there.
    pub fn allows_repeat_fire(&self, screen: Screen) -> (r: bool)
        ensures
            r == (self.origin_fire && screen == Screen::Fire),
    {
        self.origin_fire && screen == Screen::Fire
    }
}

/// Keys the pixel window reacts to.
#[derive(Debug, Clone, Copy, PartialEq, Eq, Structural)]
pub enum PixelKey {
    Q,
    D,
    M,
    F,
    O,
    Escape,
    A,
    R,
    Key1,
    Key2,
    Key3,
    Key4,
    Left,
    Right,
    Up,
    Down,
    H,
    L,
    K,
    J,
    Enter,
    Space,
    Other,
}

/// One frame's keyboard input.
#[derive(Debug, Clone)]
pub struct PixelInput {
    /// Keys that went down this frame (key-repeat excluded).
    pub fresh: Vec<PixelKey>,
    /// Enter or Space is down and delivered a press or repeat pulse.
    pub confirm_repeat: bool,
}

impl PixelInput {
    pub fn pressed(&self, key: PixelKey) -> (r: bool)
        ensures
            r == self.fresh@.contains(key),
    {
        let mut i: usize = 0;
        while i < self.fresh.len()
            invariant
                i <= self.fresh@.len(),
                forall|j: int| 0 <= j < i ==> self.fresh@[j] != key,
            decreases self.fresh@.len() - i,
        {
            if self.fresh[i] == key {
                return true;
            }
            i = i + 1;
        }
        false
    }
}

/// A fire request and the hint it leaves: the refusal reason when it is
/// refused, the post-shot status (CRITICAL / EMPTY) when it goes off.
pub open spec fn spec_fire_with_hint(m: AppModel) -> (AppModel, Option<Seq<char>>) {
    let (m1, fired) = m.fire();
    let status = if fired {
        spec_fire_deny_reason(m1)
    } else {
        spec_fire_deny_reason(m)
    };
    (
        m1,
        match status {
            Some(r) => Some(r.spec_message()),
            None => None,
        },
    )
}

/// The single action a frame's keys lead to away from POST, given the
/// console after the demo was stopped where the key stops it.
pub open spec fn spec_frame_keys(
    m: AppModel,
    hold: ConfirmHold,
    hint: Option<Seq<char>>,
    input: (Seq<PixelKey>, bool),
) -> (AppModel, ConfirmHold, Option<Seq<char>>, bool) {
    let fresh = input.0;
    let on_options = m.screen == Screen::Options;
    if fresh.contains(PixelKey::Q) {
        (m.quit(), hold, hint, true)
    } else if fresh.contains(PixelKey::D) {
        (m.toggle_demo(), hold, hint, true)
    } else if fresh.contains(PixelKey::M) {
        (m.toggle_sound(), hold, hint, true)
    } else if fresh.contains(PixelKey::F) {
        (m.stop_demo().set_screen(Screen::Fire), hold, hint, true)
    } else if fresh.contains(PixelKey::O) {
        (spec_apply_panel_key(m, PanelKey::OpenOptions), hold, hint, true)
    } else if fresh.contains(PixelKey::Escape) {
        (spec_apply_panel_key(m, PanelKey::ToggleFirePanel), hold, hint, true)
    } else if fresh.contains(PixelKey::A) {
        (m.stop_demo().toggle_arm(), hold, hint, true)
    } else if fresh.contains(PixelKey::R) {
        (m.stop_demo().reload(), hold, hint, true)
    } else if fresh.contains(PixelKey::Key1) {
        (m.stop_demo().select_sentry(0), hold, hint, true)
    } else if fresh.contains(PixelKey::Key2) {
        (m.stop_demo().select_sentry(1), hold, hint, true)
    } else if fresh.contains(PixelKey::Key3) {
        (m.stop_demo().select_sentry(2), hold, hint, true)
    } else if fresh.contains(PixelKey::Key4) {
        (m.stop_demo().select_sentry(3), hold, hint, true)
    } else if on_options && (fresh.contains(PixelKey::Left) || fresh.contains(PixelKey::H)) {
        (m.stop_demo().focus_prev_section(), hold, hint, true)
    } else if on_options && (fresh.contains(PixelKey::Right) || fresh.contains(PixelKey::L)) {
        (m.stop_demo().focus_next_section(), hold, hint, true)
    } else if on_options && (fresh.contains(PixelKey::Up) || fresh.contains(PixelKey::K)) {
        (m.stop_demo().select_up(), hold, hint, true)
    } else if on_options && (fresh.contains(PixelKey::Down) || fresh.contains(PixelKey::J)) {
        (m.stop_demo().select_down(), hold, hint, true)
    } else if fresh.contains(PixelKey::Enter) || fresh.contains(PixelKey::Space) {
        let h = ConfirmHold { origin_fire: m.screen == Screen::Fire };
        let m1 = m.stop_demo();
        match m1.screen {
            Screen::Fire => {
                let (m2, status) = spec_fire_with_hint(m1);
                (m2, h, status, true)
            },
            Screen::Options => (m1.set_screen(Screen::Fire), h, hint, true),
            Screen::Boot => (m1, h, hint, true),
        }
    } else if hold.origin_fire && m.screen == Screen::Fire && input.1 {
        let (m2, status) = spec_fire_with_hint(m.stop_demo());
        (m2, hold, status, true)
    } else {
        (m, hold, hint, false)
    }
}

/// One frame of input. During POST any fresh key only skips the splash.
/// Otherwise any fresh key clears the previous hint, and the first matching
/// rule acts: Q, D, M, F, O, Esc, A, R, the digits, the Options-only
/// arrows/`hjkl`, a fresh Enter/Space (which also records whether the hold
/// began on the firing panel), and finally a key-repeat pulse that keeps
/// firing only for a hold that began there. The result says whether
/// anything happened.
pub open spec fn spec_handle_input(
    m: AppModel,
    hold: ConfirmHold,
    hint: Option<Seq<char>>,
    input: (Seq<PixelKey>, bool),
) -> (AppModel, ConfirmHold, Option<Seq<char>>, bool) {
    if m.screen == Screen::Boot {
        if input.0.len() > 0 {
            (m.skip_boot(), hold, hint, true)
        } else {
            (m, hold, hint, false)
        }
    } else {
        spec_frame_keys(
            m,
            hold,
            if input.0.len() > 0 {
                None
            } else {
                hint
            },
            input,
        )
    }
}

pub open spec fn hint_view(h: Option<&'static str>) -> Option<Seq<char>> {
    match h {
        Some(s) => Some(s@),
        None => None,
    }
}

/// Fires once through the shared classifier and records its status as the
/// hint.
fn fire_and_hint(state: &mut AppState, status_hint: &mut Option<&'static str>)
    requires
        old(state)@.ready(2),
    ensures
        (final(state)@, hint_view(*final(status_hint))) == spec_fire_with_hint(old(state)@),
        final(state)@.wf(),
{
    let (_fired, status) = fire_with_status(state);
    *status_hint = match status {
        Some(reason) => Some(FireDenyReason::message(reason)),
        None => None,
    };
}

/// Applies one frame's keys; returns whether anything happened.
#[verifier::rlimit(60)]
pub fn handle_input(
    input: &PixelInput,
    state: &mut AppState,
    confirm_hold: &mut ConfirmHold,
    status_hint: &mut Option<&'static str>,
) -> (r: bool)
    requires
        old(state)@.ready(8),
    ensures
        (final(state)@, *final(confirm_hold), hint_view(*final(status_hint)), r)
            == spec_handle_input(
            old(state)@,
            *old(confirm_hold),
            hint_view(*old(status_hint)),
            (input.fresh@, input.confirm_repeat),
        ),
        final(state)@.wf(),
{
    if state.screen == Screen::Boot {
        if input.fresh.len() > 0 {
            state.skip_boot();
            return true;
        }
        return false;
    }
    // Any fresh (non-repeat) key clears a previous fire-status hint; only
    // the Fire confirm below may set a new one. A held Enter/Space
    // repeat-fire pulse recomputes it on every pulse instead.
    if input.fresh.len() > 0 {
        *status_hint = None;
    }
    if input.pressed(PixelKey::Q) {
        state.quit();
        return true;
    }
    if input.pressed(PixelKey::D) {
        state.toggle_demo();
        return true;
    }
    if input.pressed(PixelKey::M) {
        // The mute itself is recomputed every frame from the sound
        // preference and focus, so this only flips the preference.
        state.toggle_sound();
        return true;
    }
    if input.pressed(PixelKey::F) {
        state.stop_demo();
        state.set_screen(Screen::Fire);
        return true;
    }
    if input.pressed(PixelKey::O) {
        apply_panel_key(state, PanelKey::OpenOptions);
        return true;
    }
    if input.pressed(PixelKey::Escape) {
        apply_panel_key(state, PanelKey::ToggleFirePanel);
        return true;
    }
    if input.pressed(PixelKey::A) {
        state.stop_demo();
        state.toggle_arm();
        return true;
    }
    if input.pressed(PixelKey::R) {
        state.stop_demo();
        state.reload();
        return true;
    }
    if input.pressed(PixelKey::Key1) {
        state.stop_demo();
        state.select_sentry(0);
        return true;
    }
    if input.pressed(PixelKey::Key2) {
        state.stop_demo();
        state.select_sentry(1);
        return true;
    }
    if input.pressed(PixelKey::Key3) {
        state.stop_demo();
        state.select_sentry(2);
        return true;
    }
    if input.pressed(PixelKey::Key4) {
        state.stop_demo();
        state.select_sentry(3);
        return true;
    }
    if state.screen == Screen::Options {
        if input.pressed(PixelKey::Left) || input.pressed(PixelKey::H) {
            state.stop_demo();
            state.focus_prev_section();
            return true;
        }
        if input.pressed(PixelKey::Right) || input.pressed(PixelKey::L) {
            state.stop_demo();
            state.focus_next_section();
            return true;
        }
        if input.pressed(PixelKey::Up) || input.pressed(PixelKey::K) {
            state.stop_demo();
            state.select_up();
            return true;
        }
        if input.pressed(PixelKey::Down) || input.pressed(PixelKey::J) {
            state.stop_demo();
            state.select_down();
            return true;
        }
    }
    // Edge-triggered: true only on the frame Enter/Space first goes down.
    let confirm_fresh = input.pressed(PixelKey::Enter) || input.pressed(PixelKey::Space);
    if confirm_fresh {
        // Record whether *this* press started on the Fire screen, before
        // acting on it — a confirm on Options moves to Fire below, and that
        // must not itself count as an origin-on-Fire press.
        confirm_hold.origin_fire = state.screen == Screen::Fire;
        state.stop_demo();
        match state.screen {
            Screen::Fire => fire_and_hint(state, status_hint),
            Screen::Options => state.set_screen(Screen::Fire),
            Screen::Boot => {},
        }
        return true;
    }
    // OS key-repeat pulse: hold-to-fire only when the physical hold began on
    // the Fire screen.
    if confirm_hold.allows_repeat_fire(state.screen) && input.confirm_repeat {
        state.stop_demo();
        fire_and_hint(state, status_hint);
        return true;
    }
    false
}

/// Hold-to-fire: a frame with no fresh key and a key-repeat pulse fires only
/// when the hold began on the firing panel and the console is still there; a
/// fresh Space/Enter on Options lands on the firing panel with a hold that
/// does not repeat-fire; a frame with no fresh key and no pulse does nothing.
pub proof fn lemma_repeat_fire(
    m: AppModel,
    hold: ConfirmHold,
    hint: Option<Seq<char>>,
    pulse: bool,
)
    requires
        m.wf(),
    ensures
        !(hold.origin_fire && m.screen == Screen::Fire && pulse) ==> spec_handle_input(
            m,
            hold,
            hint,
            (Seq::<PixelKey>::empty(), pulse),
        ) == (m, hold, hint, false),
        m.screen == Screen::Options ==> {
            let r = spec_handle_input(m, hold, hint, (seq![PixelKey::Space], false));
            &&& r.0.screen == Screen::Fire
            &&& !r.1.origin_fire
            &&& spec_handle_input(r.0, r.1, r.2, (Seq::<PixelKey>::empty(), true)) == (
                r.0,
                r.1,
                r.2,
                false,
            )
        },
{
    assert(!Seq::<PixelKey>::empty().contains(PixelKey::Q));
    if m.screen == Screen::Options {
        let keys = seq![PixelKey::Space];
        assert(keys[0] == PixelKey::Space);
        assert(keys.contains(PixelKey::Space));
        assert(!keys.contains(PixelKey::Q));
        assert(!keys.contains(PixelKey::D));
        assert(!keys.contains(PixelKey::M));
        assert(!keys.contains(PixelKey::F));
        assert(!keys.contains(PixelKey::O));
        assert(!keys.contains(PixelKey::Escape));
        assert(!keys.contains(PixelKey::A));
        assert(!keys.contains(PixelKey::R));
        assert(!keys.contains(PixelKey::Key1));
        assert(!keys.contains(PixelKey::Key2));
        assert(!keys.contains(PixelKey::Key3));
        assert(!keys.contains(PixelKey::Key4));
        assert(!keys.contains(PixelKey::Left));
        assert(!keys.contains(PixelKey::H));
        assert(!keys.contains(PixelKey::Right));
        assert(!keys.contains(PixelKey::L));
        assert(!keys.contains(PixelKey::Up));
        assert(!keys.contains(PixelKey::K));
        assert(!keys.contains(PixelKey::Down));
        assert(!keys.contains(PixelKey::J));
    }
}


/// Away from POST, a frame whose only fresh key is digit 1–4 makes the unit
/// with that number active (index one below the digit), stops a running demo,
/// and changes no unit and not the screen.
pub proof fn lemma_digit_selects_sentry(
    m: AppModel,
    hold: ConfirmHold,
    hint: Option<Seq<char>>,
    key: PixelKey,
    repeat: bool,
)
    requires
        m.wf(),
        m.screen != Screen::Boot,
        key is Key1 || key is Key2 || key is Key3 || key is Key4,
    ensures
        ({
            let r = spec_handle_input(m, hold, hint, (seq![key], repeat)).0;
            &&& r.active_index == match key {
                PixelKey::Key1 => 0usize,
                PixelKey::Key2 => 1usize,
                PixelKey::Key3 => 2usize,
                _ => 3usize,
            }
            &&& r.bank == m.bank
            &&& !r.demo.active
            &&& r.screen == m.screen
        }),
{
    let s = seq![key];
    assert forall|k: PixelKey| s.contains(k) <==> k == key by {
        if k == key {
            assert(s[0] == k);
        }
    }
}

} // verus!
