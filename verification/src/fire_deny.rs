//! Shared fire-deny classification for pixel, web, and TUI.
//!
//! `AppState::fire()` already logs OFFLINE / LINK DOWN / SAFE / DRUM EMPTY /
//! CRITICAL into the event log. Frontends that show a short one-shot status
//! line instead of (or in addition to) a log should call [`fire_deny_reason`]
//! instead of re-deriving the same online/link/armed/rounds branches, so every
//! console uses the same reason classes and copy.
use vstd::prelude::*;

use crate::fire::{lemma_fire_laws, CRITICAL_THRESHOLD};
use crate::state::{AppModel, AppState};

verus! {

/// Reason a fire attempt produced no round, or the classification to show
/// alongside a fire that just crossed into CRITICAL.
///
/// `None` (not a variant here) covers both "not armed" (SAFE — already shown
/// as standing chrome by every frontend) and a normal, successful,
/// non-critical fire: neither needs a called-out status line.
#[derive(Debug, Clone, Copy, PartialEq, Eq, Structural)]
pub enum FireDenyReason {
    /// Selected sentry is powered down.
    Offline,
    /// Selected sentry is online but its datalink is faulted.
    LinkDown,
    /// Drum is dry — `fire()` returns `false` without consuming the request.
    Empty,
    /// Fire succeeded but rounds remaining are below `CRITICAL_THRESHOLD`.
    Critical,
}

impl FireDenyReason {
    pub open spec fn spec_message(self) -> Seq<char> {
        match self {
            FireDenyReason::Offline => "OFFLINE"@,
            FireDenyReason::LinkDown => "LINK DOWN"@,
            FireDenyReason::Empty => "EMPTY"@,
            FireDenyReason::Critical => "CRITICAL"@,
        }
    }

    /// Stable status/log copy, shared across every frontend.
    pub fn message(self) -> (r: &'static str)
        ensures
            r@ == self.spec_message(),
    {
        match self {
            FireDenyReason::Offline => "OFFLINE",
            FireDenyReason::LinkDown => "LINK DOWN",
            FireDenyReason::Empty => "EMPTY",
            FireDenyReason::Critical => "CRITICAL",
        }
    }
}

/// The active sentry's fire status: offline first, then a faulted link, then
/// (for an armed unit) an empty drum, then CRITICAL; a SAFE unit or an
/// ordinary armed one has no reason to show.
pub open spec fn spec_fire_deny_reason(m: AppModel) -> Option<FireDenyReason> {
    let s = m.active();
    if !s.online {
        Some(FireDenyReason::Offline)
    } else if !s.link_ok {
        Some(FireDenyReason::LinkDown)
    } else if !s.spec_is_armed() {
        None
    } else if s.fire.rounds == 0 {
        Some(FireDenyReason::Empty)
    } else if s.fire.critical {
        Some(FireDenyReason::Critical)
    } else {
        None
    }
}

/// Classify the active sentry's current fire status for a one-shot status
/// line.
///
/// Call once *before* [`AppState::fire`] to get the deny reason to show when
/// it returns `false` (the state a denied call leaves unchanged), and call
/// again *after* a successful fire to see whether it just crossed into
/// CRITICAL.
pub fn fire_deny_reason(state: &AppState) -> (r: Option<FireDenyReason>)
    requires
        state@.wf(),
    ensures
        r == spec_fire_deny_reason(state@),
{
    let s = state.active_sentry();
    if !s.online {
        Some(FireDenyReason::Offline)
    } else if !s.link_ok {
        Some(FireDenyReason::LinkDown)
    } else if !s.is_armed() {
        None
    } else if s.fire.rounds == 0 {
        Some(FireDenyReason::Empty)
    } else if s.fire.critical {
        Some(FireDenyReason::Critical)
    } else {
        None
    }
}

/// Fire once and classify the result for a one-shot status line in a single
/// call: the deny reason if fire was blocked, or the post-fire classification
/// — currently just CRITICAL — when it succeeds. `None` for an ordinary,
/// non-critical successful fire.
pub fn fire_with_status(state: &mut AppState) -> (r: (bool, Option<FireDenyReason>))
    requires
        old(state)@.ready(2),
    ensures
        (final(state)@, r.0) == old(state)@.fire(),
        r.1 == if r.0 {
            spec_fire_deny_reason(final(state)@)
        } else {
            spec_fire_deny_reason(old(state)@)
        },
        final(state)@.wf(),
{
    let before = fire_deny_reason(state);
    let fired = state.fire();
    let status = if fired {
        fire_deny_reason(state)
    } else {
        before
    };
    (fired, status)
}

/// The classifier agrees with `fire()`: an offline, unlinked or empty unit
/// is refused, and after a shot that does go off the status is EMPTY when it
/// was the last round, CRITICAL when fewer than `CRITICAL_THRESHOLD` remain,
/// and nothing otherwise.
pub proof fn lemma_deny_reason_matches_fire(m: AppModel)
    requires
        m.ready(2),
    ensures
        spec_fire_deny_reason(m) matches Some(r) && r != FireDenyReason::Critical ==> !m.fire().1,
        m.fire().1 ==> spec_fire_deny_reason(m.fire().0) == if m.fire().0.active().fire.rounds
            == 0 {
            Some(FireDenyReason::Empty)
        } else if m.fire().0.active().fire.rounds < CRITICAL_THRESHOLD {
            Some(FireDenyReason::Critical)
        } else {
            None
        },
{
    lemma_fire_laws(m.active().fire);
}

} // verus!
