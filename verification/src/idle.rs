//! Shared "paused in the background" policy for windowed/tabbed frontends.
//!
//! While backgrounded (hidden tab / unfocused window) a frontend never ticks
//! and never makes sound; back in the foreground it resumes ticking and only
//! resumes sound if the operator's own sound preference was already on. The
//! preference itself is only read here, never written.
use vstd::prelude::*;

verus! {

/// Whether the simulation should tick and SFX should play right now.
#[derive(Debug, Clone, Copy, PartialEq, Eq, Structural)]
pub struct IdleRuntime {
    /// Advance the simulation this frame.
    pub tick: bool,
    /// Emit/allow SFX this frame.
    pub audio: bool,
}

/// Classify whether the frontend is backgrounded into tick/audio policy.
pub fn idle_runtime(backgrounded: bool, sound_enabled: bool) -> (r: IdleRuntime)
    ensures
        r.tick == !backgrounded,
        r.audio == (!backgrounded && sound_enabled),
{
    if backgrounded {
        IdleRuntime { tick: false, audio: false }
    } else {
        IdleRuntime { tick: true, audio: sound_enabled }
    }
}

} // verus!
