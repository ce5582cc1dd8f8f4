//! Terminal console rules: how key events drive the console, and the
//! Space/Enter latch that keeps one physical hold from confirming, then
//! firing.
//!
//! Key events are given as plain values (code, press / repeat / release, and
//! whether Control was held) with the time they arrived, in nanoseconds on
//! any monotonic clock.
use vstd::prelude::*;

use crate::config::{Config, Theme};
use crate::state::{AppModel, AppState, Screen};

verus! {

/// Gap after the last Space/Enter event beyond which Unix Press-repeats
/// (typematic delay is typically 250–1000 ms) are treated as a new press.
pub const CONFIRM_HOLD_GAP_NS: u64 = 1_000_000_000;

/// Latches Space/Enter after a non-Fire origin (POST skip / Options confirm)
/// until Release, or until events stop for [`CONFIRM_HOLD_GAP_NS`] (Unix).
#[derive(Debug, Clone, Copy, PartialEq, Eq, Structural)]
pub struct ConfirmHold {
    pub active: bool,
    /// When the last event of the hold arrived.
    pub last: Option<u64>,
}

impl Default for ConfirmHold {
    fn default() -> (r: Self)
        ensures
            r == (ConfirmHold { active: false, last: None }),
    {
        ConfirmHold { active: false, last: None }
    }
}

impl ConfirmHold {
    pub fn begin(&mut self, now: u64)
        ensures
            *final(self) == (ConfirmHold { active: true, last: Some(now) }),
    {
        self.active = true;
        self.last = Some(now);
    }

    pub fn release(&mut self)
        ensures
            *final(self) == (ConfirmHold { active: false, last: None }),
    {
        self.active = false;
        self.last = None;
    }

    pub fn is_active(&self) -> (r: bool)
        ensures
            r == self.active,
    {
        self.active
    }

    /// A Press belongs to the current hold while the hold is latched and the
    /// previous event came less than the gap before (a clock that went back
    /// counts as no time at all); it then refreshes the hold. A press after
    /// the gap releases it.
    pub open spec fn spec_held_press(self, now: u64) -> (ConfirmHold, bool) {
        if !self.active {
            (self, false)
        } else {
            match self.last {
                Some(prev) if (if now >= prev {
                    now - prev
                } else {
                    0
                }) < CONFIRM_HOLD_GAP_NS => (ConfirmHold { active: true, last: Some(now) }, true),
                _ => (ConfirmHold { active: false, last: None }, false),
            }
        }
    }

    /// `true` when this Press is the same physical hold (ignore it).
    pub fn is_held_press(&mut self, now: u64) -> (r: bool)
        ensures
            (*final(self), r) == old(self).spec_held_press(now),
    {
        if !self.active {
            return false;
        }
        match self.last {
            Some(prev) if now.saturating_sub(prev) < CONFIRM_HOLD_GAP_NS => {
                self.last = Some(now);
                true
            },
            _ => {
                self.release();
                false
            },
        }
    }
}

/// The key of a terminal key event.
#[derive(Debug, Clone, Copy, PartialEq, Eq, Structural)]
pub enum TuiKeyCode {
    Char(char),
    Enter,
    Esc,
    Left,
    Right,
    Up,
    Down,
    Other,
}

#[derive(Debug, Clone, Copy, PartialEq, Eq, Structural)]
pub enum TuiKeyKind {
    Press,
    Repeat,
    Release,
}

/// One terminal key event.
#[derive(Debug, Clone, Copy, PartialEq, Eq, Structural)]
pub struct TuiKey {
    pub code: TuiKeyCode,
    pub kind: TuiKeyKind,
    /// Control was held.
    pub ctrl: bool,
}

pub open spec fn is_char(code: TuiKeyCode, lower: char, upper: char) -> bool {
    code == TuiKeyCode::Char(lower) || code == TuiKeyCode::Char(upper)
}

pub open spec fn spec_is_confirm(code: TuiKeyCode) -> bool {
    code == TuiKeyCode::Enter || code == TuiKeyCode::Char(' ')
}

/// The console with the theme changed to the next one.
pub open spec fn next_theme(m: AppModel) -> AppModel {
    AppModel { config: Config { theme: m.config.theme.spec_next(), ..m.config }, ..m }
}

/// A key that got past the Space/Enter latch, away from POST.
pub open spec fn spec_dispatch(m: AppModel, hold: ConfirmHold, code: TuiKeyCode, now: u64) -> (
    AppModel,
    ConfirmHold,
) {
    let on_options = m.screen == Screen::Options;
    if is_char(code, 'q', 'Q') {
        (m.quit(), hold)
    } else if is_char(code, 'd', 'D') {
        (m.toggle_demo(), hold)
    } else if is_char(code, 'm', 'M') {
        (m.toggle_sound(), hold)
    } else if is_char(code, 't', 'T') {
        (next_theme(m), hold)
    } else if is_char(code, 'f', 'F') {
        (m.stop_demo().set_screen(Screen::Fire), hold)
    } else if is_char(code, 'o', 'O') || code == TuiKeyCode::Esc {
        (m.stop_demo().set_screen(Screen::Options), hold)
    } else if is_char(code, 'a', 'A') {
        (m.stop_demo().toggle_arm(), hold)
    } else if is_char(code, 'r', 'R') {
        (m.stop_demo().reload(), hold)
    } else if code == TuiKeyCode::Char('1') {
        (m.stop_demo().select_sentry(0), hold)
    } else if code == TuiKeyCode::Char('2') {
        (m.stop_demo().select_sentry(1), hold)
    } else if code == TuiKeyCode::Char('3') {
        (m.stop_demo().select_sentry(2), hold)
    } else if code == TuiKeyCode::Char('4') {
        (m.stop_demo().select_sentry(3), hold)
    } else if code == TuiKeyCode::Left || code == TuiKeyCode::Char('h') {
        (
            if on_options {
                m.stop_demo().focus_prev_section()
            } else {
                m
            },
            hold,
        )
    } else if code == TuiKeyCode::Right || code == TuiKeyCode::Char('l') {
        (
            if on_options {
                m.stop_demo().focus_next_section()
            } else {
                m
            },
            hold,
        )
    } else if code == TuiKeyCode::Up || code == TuiKeyCode::Char('k') {
        (
            if on_options {
                m.stop_demo().select_up()
            } else {
                m
            },
            hold,
        )
    } else if code == TuiKeyCode::Down || code == TuiKeyCode::Char('j') {
        (
            if on_options {
                m.stop_demo().select_down()
            } else {
                m
            },
            hold,
        )
    } else if spec_is_confirm(code) {
        let m1 = m.stop_demo();
        match m1.screen {
            Screen::Fire => (m1.fire().0, hold),
            Screen::Options => (
                m1.set_screen(Screen::Fire),
                ConfirmHold { active: true, last: Some(now) },
            ),
            Screen::Boot => (m1, hold),
        }
    } else {
        (m, hold)
    }
}

/// One key event. Ctrl+C quits on press or repeat. Space/Enter: a release
/// ends the latch; a repeat only counts on the firing panel with no latch; a
/// press inside a latched hold is dropped. Any other key counts only when
/// pressed. During POST a counted key skips the splash (Space/Enter also
/// latch). Otherwise the key is dispatched.
pub open spec fn spec_handle_key(m: AppModel, hold: ConfirmHold, key: TuiKey, now: u64) -> (
    AppModel,
    ConfirmHold,
) {
    let confirm = spec_is_confirm(key.code);
    if key.ctrl && key.code == TuiKeyCode::Char('c') {
        (
            if key.kind != TuiKeyKind::Release {
                m.quit()
            } else {
                m
            },
            hold,
        )
    } else if confirm && key.kind == TuiKeyKind::Release {
        (m, ConfirmHold { active: false, last: None })
    } else if confirm && key.kind == TuiKeyKind::Repeat && (m.screen != Screen::Fire
        || hold.active) {
        (m, hold)
    } else if confirm && key.kind == TuiKeyKind::Press && hold.spec_held_press(now).1 {
        (m, hold.spec_held_press(now).0)
    } else if !confirm && key.kind != TuiKeyKind::Press {
        (m, hold)
    } else {
        let h = if confirm && key.kind == TuiKeyKind::Press {
            hold.spec_held_press(now).0
        } else {
            hold
        };
        if m.screen == Screen::Boot {
            (
                m.skip_boot(),
                if confirm {
                    ConfirmHold { active: true, last: Some(now) }
                } else {
                    h
                },
            )
        } else {
            spec_dispatch(m, h, key.code, now)
        }
    }
}

/// The terminal console: the shared state plus the Space/Enter latch.
pub struct App {
    pub state: AppState,
    /// Space/Enter that skipped POST (or confirmed Options) must not fire
    /// until key-up. Unix terminals deliver typematic as extra `Press` events.
    pub confirm_hold: ConfirmHold,
}

impl App {
    pub fn new(config: Config) -> (r: Self)
        ensures
            r.state@ == AppState::spec_new(config),
            r.confirm_hold == (ConfirmHold { active: false, last: None }),
    {
        App { state: AppState::new(config), confirm_hold: ConfirmHold::default() }
    }

    /// Applies one key event that arrived at `now` (nanoseconds).
    pub fn handle_key(&mut self, key: TuiKey, now: u64)
        requires
            old(self).state@.ready(8),
        ensures
            (final(self).state@, final(self).confirm_hold) == spec_handle_key(
                old(self).state@,
                old(self).confirm_hold,
                key,
                now,
            ),
            final(self).state@.wf(),
    {
        if key.ctrl && key.code == TuiKeyCode::Char('c') {
            if key.kind != TuiKeyKind::Release {
                self.state.quit();
            }
            return;
        }
        let is_confirm = key.code == TuiKeyCode::Enter || key.code == TuiKeyCode::Char(' ');
        if is_confirm {
            match key.kind {
                TuiKeyKind::Release => {
                    self.confirm_hold.release();
                    return;
                },
                TuiKeyKind::Repeat => {
                    // Hold-to-fire only when the originating press was already on Fire.
                    if self.state.screen != Screen::Fire || self.confirm_hold.is_active() {
                        return;
                    }
                },
                TuiKeyKind::Press => {
                    // Typematic repeats look like Press. Ignore until release/gap.
                    if self.confirm_hold.is_held_press(now) {
                        return;
                    }
                },
            }
        } else if key.kind != TuiKeyKind::Press {
            return;
        }
        if self.state.screen == Screen::Boot {
            // Any key skips boot.
            self.state.skip_boot();
            if is_confirm {
                self.confirm_hold.begin(now);
            }
            return;
        }
        self.dispatch(key.code, now);
    }
    /// A key that got past the latch, away from POST.
    #[verifier::rlimit(40)]
    fn dispatch(&mut self, code: TuiKeyCode, now: u64)
        requires
            old(self).state@.ready(8),
        ensures
            (final(self).state@, final(self).confirm_hold) == spec_dispatch(
                old(self).state@,
                old(self).confirm_hold,
                code,
                now,
            ),
            final(self).state@.wf(),
    {
        let on_options = self.state.screen == Screen::Options;
        match code {
            TuiKeyCode::Char('q') | TuiKeyCode::Char('Q') => {
                self.state.quit();
            },
            TuiKeyCode::Char('d') | TuiKeyCode::Char('D') => {
                self.state.toggle_demo();
            },
            TuiKeyCode::Char('m') | TuiKeyCode::Char('M') => {
                self.state.toggle_sound();
            },
            TuiKeyCode::Char('t') | TuiKeyCode::Char('T') => {
                self.state.config.theme = self.state.config.theme.next();
            },
            TuiKeyCode::Char('f') | TuiKeyCode::Char('F') => {
                self.state.stop_demo();
                self.state.set_screen(Screen::Fire);
            },
            TuiKeyCode::Char('o') | TuiKeyCode::Char('O') | TuiKeyCode::Esc => {
                self.state.stop_demo();
                self.state.set_screen(Screen::Options);
            },
            TuiKeyCode::Char('a') | TuiKeyCode::Char('A') => {
                self.state.stop_demo();
                self.state.toggle_arm();
            },
            TuiKeyCode::Char('r') | TuiKeyCode::Char('R') => {
                self.state.stop_demo();
                self.state.reload();
            },
            TuiKeyCode::Char('1') => {
                self.state.stop_demo();
                self.state.select_sentry(0);
            },
            TuiKeyCode::Char('2') => {
                self.state.stop_demo();
                self.state.select_sentry(1);
            },
            TuiKeyCode::Char('3') => {
                self.state.stop_demo();
                self.state.select_sentry(2);
            },
            TuiKeyCode::Char('4') => {
                self.state.stop_demo();
                self.state.select_sentry(3);
            },
            TuiKeyCode::Left | TuiKeyCode::Char('h') => {
                if on_options {
                    self.state.stop_demo();
                    self.state.focus_prev_section();
                }
            },
            TuiKeyCode::Right | TuiKeyCode::Char('l') => {
                if on_options {
                    self.state.stop_demo();
                    self.state.focus_next_section();
                }
            },
            TuiKeyCode::Up | TuiKeyCode::Char('k') => {
                if on_options {
                    self.state.stop_demo();
                    self.state.select_up();
                }
            },
            TuiKeyCode::Down | TuiKeyCode::Char('j') => {
                if on_options {
                    self.state.stop_demo();
                    self.state.select_down();
                }
            },
            TuiKeyCode::Enter | TuiKeyCode::Char(' ') => {
                self.state.stop_demo();
                match self.state.screen {
                    Screen::Fire => {
                        let _ = self.state.fire();
                    },
                    Screen::Options => {
                        // Confirm → fire panel.
                        self.state.set_screen(Screen::Fire);
                        // Remaining Press-repeats of this hold must not dump rounds.
                        self.confirm_hold.begin(now);
                    },
                    Screen::Boot => {},
                }
            },
            _ => {},
        }
    }
}

/// The Space/Enter latch: while a hold is latched, repeats change nothing and
/// a press within the gap of the previous event changes nothing (it only
/// refreshes the latch); a release always clears it; and a Space/Enter that
/// skipped POST or confirmed Options latches.
pub proof fn lemma_confirm_latch(m: AppModel, hold: ConfirmHold, key: TuiKey, now: u64)
    requires
        spec_is_confirm(key.code),
        !key.ctrl,
    ensures
        hold.active && key.kind == TuiKeyKind::Repeat ==> spec_handle_key(m, hold, key, now).0
            == m,
        hold.active && key.kind == TuiKeyKind::Press && (hold.last matches Some(prev) && (if now
            >= prev {
            now - prev
        } else {
            0
        }) < CONFIRM_HOLD_GAP_NS) ==> spec_handle_key(m, hold, key, now) == (
            m,
            ConfirmHold { active: true, last: Some(now) },
        ),
        key.kind == TuiKeyKind::Release ==> spec_handle_key(m, hold, key, now) == (
            m,
            ConfirmHold { active: false, last: None },
        ),
        key.kind == TuiKeyKind::Press && !hold.active && (m.screen == Screen::Boot || m.screen
            == Screen::Options) ==> spec_handle_key(m, hold, key, now).1 == (ConfirmHold {
            active: true,
            last: Some(now),
        }),
{
}

/// Keys other than Space/Enter act on presses only: repeats and releases of
/// them change nothing.
pub proof fn lemma_press_only(m: AppModel, hold: ConfirmHold, key: TuiKey, now: u64)
    requires
        !spec_is_confirm(key.code),
        !(key.ctrl && key.code == TuiKeyCode::Char('c')),
        key.kind != TuiKeyKind::Press,
    ensures
        spec_handle_key(m, hold, key, now) == (m, hold),
{
}


/// Away from POST, a press of digit key 1–4 makes the unit with that number
/// active (index one below the digit), stops a running demo, and changes no
/// unit and not the screen.
pub proof fn lemma_digit_selects_sentry(m: AppModel, hold: ConfirmHold, d: char, now: u64)
    requires
        m.wf(),
        m.screen != Screen::Boot,
        d == '1' || d == '2' || d == '3' || d == '4',
    ensures
        ({
            let key = TuiKey { code: TuiKeyCode::Char(d), kind: TuiKeyKind::Press, ctrl: false };
            let r = spec_handle_key(m, hold, key, now).0;
            &&& r.active_index == (d as u32) - ('1' as u32)
            &&& r.bank == m.bank
            &&& !r.demo.active
            &&& r.screen == m.screen
        }),
{
}

} // verus!
