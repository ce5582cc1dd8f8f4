//! Firing-panel telemetry simulation.
use vstd::prelude::*;

use crate::text::{decimal, decimal2, push_decimal, push_decimal2};

verus! {

/// Default drum capacity (as on the film prop).
pub const DEFAULT_ROUNDS: u16 = 500;

/// Rounds remaining at which CRITICAL is asserted.
pub const CRITICAL_THRESHOLD: u16 = 100;

/// Starting "time at 100%" in centiseconds (33.33 s).
pub const DEFAULT_TIME_CENTISECS: u32 = 3333;

/// Temperature gauge: cold at rest, climbs toward max under fire.
pub const TEMP_MAX: u8 = 100;

pub const TEMP_MIN: u8 = 0;

/// R(M) — rounds per minute gauge (relative 0..=100 of cyclic rate).
pub const RM_MAX: u8 = 100;

pub const RM_MIN: u8 = 0;

/// Telemetry shown on the firing panel.
#[derive(Debug, Clone, Copy, PartialEq, Eq, Structural)]
pub struct FireTelemetry {
    pub rounds: u16,
    /// Time-at-100% remaining, centiseconds (e.g. 3333 => 33.33).
    pub time_centisecs: u32,
    /// Barrel / breech temperature 0..=100 (0 = cold).
    pub temperature: u8,
    /// Rounds per minute relative rate 0..=100 (0 = idle).
    pub rm: u8,
    pub critical: bool,
    /// Blink phase for CRITICAL invert effect.
    pub critical_blink: bool,
    /// Blink phase counter (advances every tick while CRITICAL).
    pub critical_counter: u8,
    /// Shots since the last temperature step.
    pub temp_counter: u8,
    /// Shots since the last R(M) step.
    pub rm_counter: u8,
}

impl Default for FireTelemetry {
    fn default() -> (r: Self)
        ensures
            r == FireTelemetry::spec_new(DEFAULT_ROUNDS),
    {
        Self::new(DEFAULT_ROUNDS)
    }
}

impl FireTelemetry {
    /// A full drum of `rounds`: cold barrel, idle rate, clock at 33.33 s, and
    /// CRITICAL exactly when fewer than `CRITICAL_THRESHOLD` rounds are loaded.
    pub open spec fn spec_new(rounds: u16) -> Self {
        FireTelemetry {
            rounds,
            time_centisecs: DEFAULT_TIME_CENTISECS,
            temperature: TEMP_MIN,
            rm: RM_MIN,
            critical: rounds < CRITICAL_THRESHOLD,
            critical_blink: false,
            critical_counter: 0,
            temp_counter: 0,
            rm_counter: 0,
        }
    }

    /// The animation counters stay within their cycle lengths.
    pub open spec fn inv(self) -> bool {
        &&& self.critical_counter < 3
        &&& self.temp_counter < 3
        &&& self.rm_counter < 2
    }

    /// CRITICAL recomputed from the round count; entering CRITICAL starts the
    /// blink lit, leaving it turns the blink off.
    pub open spec fn spec_update_critical(self) -> Self {
        let critical = self.rounds < CRITICAL_THRESHOLD;
        let entering = critical && !self.critical;
        FireTelemetry {
            critical,
            critical_blink: if entering {
                true
            } else if !critical {
                false
            } else {
                self.critical_blink
            },
            critical_counter: if entering {
                0
            } else {
                self.critical_counter
            },
            ..self
        }
    }

    /// The clock after one expended round: 7 centiseconds drain, and anything
    /// under three seconds drops to zero.
    pub open spec fn spec_drain_time(t: u32) -> u32 {
        let drained: u32 = if t > 0 {
            if t >= 7 {
                (t - 7) as u32
            } else {
                0
            }
        } else {
            t
        };
        if drained < 300 {
            0
        } else {
            drained
        }
    }

    /// One burst: with an empty drum only CRITICAL is refreshed and no round is
    /// expended; otherwise one round is spent, the clock drains, R(M) gains 2
    /// on every second shot and temperature 1 on every third (both capped at
    /// 100), and CRITICAL is refreshed.
    pub open spec fn spec_fire(self) -> (Self, bool) {
        if self.rounds == 0 {
            (self.spec_update_critical(), false)
        } else {
            let rm_counter: u8 = ((self.rm_counter + 1) % 2) as u8;
            let temp_counter: u8 = ((self.temp_counter + 1) % 3) as u8;
            let rm: u8 = if rm_counter == 0 && self.rm < RM_MAX {
                if self.rm + 2 > RM_MAX {
                    RM_MAX
                } else {
                    (self.rm + 2) as u8
                }
            } else {
                self.rm
            };
            let temperature: u8 = if temp_counter == 0 && self.temperature < TEMP_MAX {
                (self.temperature + 1) as u8
            } else {
                self.temperature
            };
            let fired = FireTelemetry {
                rounds: (self.rounds - 1) as u16,
                time_centisecs: Self::spec_drain_time(self.time_centisecs),
                rm,
                rm_counter,
                temperature,
                temp_counter,
                ..self
            };
            (fired.spec_update_critical(), true)
        }
    }

    /// One animation tick: outside CRITICAL the blink is off; inside it the
    /// blink phase flips on every third tick.
    pub open spec fn spec_tick_blink(self) -> Self {
        if !self.critical {
            FireTelemetry { critical_blink: false, ..self }
        } else {
            let c: u8 = ((self.critical_counter + 1) % 3) as u8;
            FireTelemetry {
                critical_counter: c,
                critical_blink: if c == 0 {
                    !self.critical_blink
                } else {
                    self.critical_blink
                },
                ..self
            }
        }
    }

    /// One idle tick: the blink animation advances, the barrel cools by one
    /// degree and R(M) spins down by one, neither going below zero. The drum
    /// and the clock are left alone.
    pub open spec fn spec_tick(self) -> Self {
        let b = self.spec_tick_blink();
        FireTelemetry {
            temperature: if b.temperature > 0 {
                (b.temperature - 1) as u8
            } else {
                0
            },
            rm: if b.rm > 0 {
                (b.rm - 1) as u8
            } else {
                0
            },
            ..b
        }
    }

    /// The time display: whole seconds, a dot, and two digits of hundredths.
    pub open spec fn spec_time_display(self) -> Seq<char> {
        decimal((self.time_centisecs / 100) as nat) + "."@ + decimal2((self.time_centisecs % 100) as nat)
    }

    pub fn new(rounds: u16) -> (r: Self)
        ensures
            r == Self::spec_new(rounds),
            r.inv(),
            r.rounds == rounds,
            r.time_centisecs == DEFAULT_TIME_CENTISECS,
            r.temperature == TEMP_MIN,
            r.rm == RM_MIN,
            r.critical == (rounds < CRITICAL_THRESHOLD),
            !r.critical_blink,
    {
        Self {
            rounds,
            time_centisecs: DEFAULT_TIME_CENTISECS,
            // Idle: cold barrel, zero fire rate.
            temperature: TEMP_MIN,
            rm: RM_MIN,
            critical: rounds < CRITICAL_THRESHOLD,
            critical_blink: false,
            critical_counter: 0,
            temp_counter: 0,
            rm_counter: 0,
        }
    }

    /// Reset gauges and counters but keep (or set) round count.
    pub fn reset(&mut self, rounds: u16)
        ensures
            *final(self) == Self::spec_new(rounds),
            final(self).inv(),
    {
        *self = Self::new(rounds);
    }

    /// Integer part of time display (seconds).
    pub fn time_secs(&self) -> (r: u32)
        ensures
            r == self.time_centisecs / 100,
    {
        self.time_centisecs / 100
    }

    /// Fractional hundredths for time display.
    pub fn time_frac(&self) -> (r: u32)
        ensures
            r == self.time_centisecs % 100,
    {
        self.time_centisecs % 100
    }

    /// Format as `SS.FF`, as the panel shows it (no leading space).
    pub fn time_display(&self) -> (r: String)
        ensures
            r@ == self.spec_time_display(),
    {
        let mut s = String::new();
        push_decimal(&mut s, self.time_secs() as u64);
        s.append(".");
        push_decimal2(&mut s, self.time_frac() as u64);
        s
    }

    /// Fire one burst. Decrements ammo and advances telemetry theater.
    /// Returns `true` if a round was expended.
    pub fn fire(&mut self) -> (r: bool)
        requires
            old(self).inv(),
        ensures
            (*final(self), r) == old(self).spec_fire(),
            final(self).inv(),
            r == (old(self).rounds > 0),
            r ==> final(self).rounds == old(self).rounds - 1,
            !r ==> final(self).rounds == old(self).rounds,
            !r ==> final(self).temperature == old(self).temperature && final(self).rm == old(self).rm
                && final(self).time_centisecs == old(self).time_centisecs,
            final(self).critical == (final(self).rounds < CRITICAL_THRESHOLD),
            old(self).temperature <= final(self).temperature,
            old(self).rm <= final(self).rm,
            old(self).temperature <= TEMP_MAX ==> final(self).temperature <= TEMP_MAX,
            old(self).rm <= RM_MAX ==> final(self).rm <= RM_MAX,
    {
        if self.rounds == 0 {
            self.update_critical();
            return false;
        }
        self.rounds -= 1;

        // Time-at-100% drains while firing.
        if self.time_centisecs > 0 {
            self.time_centisecs = self.time_centisecs.saturating_sub(7);
        }
        if self.time_centisecs < 300 {
            self.time_centisecs = 0;
        }

        // R(M) ramps up quickly toward cyclic rate.
        self.rm_counter = (self.rm_counter + 1) % 2;
        if self.rm_counter == 0 && self.rm < RM_MAX {
            let raised = self.rm.saturating_add(2);
            self.rm = if raised < RM_MAX {
                raised
            } else {
                RM_MAX
            };
        }

        // Temperature climbs more gradually under sustained fire.
        self.temp_counter = (self.temp_counter + 1) % 3;
        if self.temp_counter == 0 && self.temperature < TEMP_MAX {
            let raised = self.temperature.saturating_add(1);
            self.temperature = if raised < TEMP_MAX {
                raised
            } else {
                TEMP_MAX
            };
        }

        self.update_critical();
        true
    }

    /// Idle tick for blink animation (call from UI frame loop).
    pub fn tick_blink(&mut self)
        requires
            old(self).inv(),
        ensures
            *final(self) == old(self).spec_tick_blink(),
            final(self).inv(),
            final(self).rounds == old(self).rounds,
            final(self).critical == old(self).critical,
            !final(self).critical ==> !final(self).critical_blink,
    {
        if !self.critical {
            self.critical_blink = false;
            return;
        }
        self.critical_counter = (self.critical_counter + 1) % 3;
        if self.critical_counter == 0 {
            self.critical_blink = !self.critical_blink;
        }
    }

    /// Idle tick (call from the UI frame loop): the CRITICAL blink animates,
    /// the barrel cools and R(M) spins down.
    pub fn tick(&mut self)
        requires
            old(self).inv(),
        ensures
            *final(self) == old(self).spec_tick(),
            final(self).inv(),
            final(self).rounds == old(self).rounds,
    {
        self.tick_blink();
        if self.temperature > 0 {
            self.temperature = self.temperature - 1;
        }
        if self.rm > 0 {
            self.rm = self.rm - 1;
        }
    }

    fn update_critical(&mut self)
        requires
            old(self).inv(),
        ensures
            *final(self) == old(self).spec_update_critical(),
            final(self).inv(),
    {
        let was = self.critical;
        self.critical = self.rounds < CRITICAL_THRESHOLD;
        if self.critical && !was {
            self.critical_blink = true;
            self.critical_counter = 0;
        }
        if !self.critical {
            self.critical_blink = false;
        }
    }
}

/// A burst keeps the animation counters in range, spends exactly one round
/// when the drum is not empty and none when it is, never cools the barrel or
/// slows the rate, keeps both gauges at or below 100, and leaves CRITICAL set
/// exactly when fewer than `CRITICAL_THRESHOLD` rounds remain.
pub proof fn lemma_fire_laws(f: FireTelemetry)
    requires
        f.inv(),
    ensures
        f.spec_fire().0.inv(),
        f.spec_fire().1 == (f.rounds > 0),
        f.spec_fire().0.rounds == if f.rounds > 0 { f.rounds - 1 } else { f.rounds as int },
        f.spec_fire().0.critical == (f.spec_fire().0.rounds < CRITICAL_THRESHOLD),
        f.temperature <= f.spec_fire().0.temperature,
        f.rm <= f.spec_fire().0.rm,
        f.temperature <= TEMP_MAX ==> f.spec_fire().0.temperature <= TEMP_MAX,
        f.rm <= RM_MAX ==> f.spec_fire().0.rm <= RM_MAX,
        f.rounds == 0 ==> f.spec_fire().0.temperature == f.temperature && f.spec_fire().0.rm == f.rm,
{
}

/// The blink animation keeps the counters in range, never touches the drum,
/// and is dark whenever CRITICAL is off.
pub proof fn lemma_tick_blink_laws(f: FireTelemetry)
    requires
        f.inv(),
    ensures
        f.spec_tick_blink().inv(),
        f.spec_tick_blink().rounds == f.rounds,
        f.spec_tick_blink().critical == f.critical,
        !f.critical ==> !f.spec_tick_blink().critical_blink,
{
}

/// An idle tick keeps the animation counters in range, never touches the
/// drum or the clock, never heats the barrel or speeds up the rate, and lowers
/// each of temperature and R(M) by exactly one while it is above zero.
pub proof fn lemma_tick_cools(f: FireTelemetry)
    requires
        f.inv(),
    ensures
        f.spec_tick().inv(),
        f.spec_tick().rounds == f.rounds,
        f.spec_tick().time_centisecs == f.time_centisecs,
        f.spec_tick().critical == f.critical,
        f.spec_tick().temperature <= f.temperature,
        f.spec_tick().rm <= f.rm,
        f.temperature > 0 ==> f.spec_tick().temperature == f.temperature - 1,
        f.rm > 0 ==> f.spec_tick().rm == f.rm - 1,
        f.temperature == 0 ==> f.spec_tick().temperature == 0,
        f.rm == 0 ==> f.spec_tick().rm == 0,
{
}


/// A burst that spends a round drains the time-at-100% clock by 7
/// centiseconds, and a clock that would fall below three seconds reads zero;
/// the clock never runs up.
pub proof fn lemma_fire_drains_clock(f: FireTelemetry)
    requires
        f.inv(),
        f.rounds > 0,
    ensures
        f.time_centisecs >= 307 ==> f.spec_fire().0.time_centisecs == f.time_centisecs - 7,
        f.time_centisecs < 307 ==> f.spec_fire().0.time_centisecs == 0,
        f.time_centisecs > 0 ==> f.spec_fire().0.time_centisecs < f.time_centisecs,
{
}

/// Under sustained fire R(M) climbs by exactly 2 over any two bursts and the
/// temperature by exactly 1 over any three, until each reaches 100.
pub proof fn lemma_fire_heats_up(f: FireTelemetry)
    requires
        f.inv(),
    ensures
        f.rounds >= 2 && f.rm + 2 <= RM_MAX ==> f.spec_fire().0.spec_fire().0.rm == f.rm + 2,
        f.rounds >= 3 && f.temperature < TEMP_MAX ==> f.spec_fire().0.spec_fire().0.spec_fire().0.temperature
            == f.temperature + 1,
{
    lemma_fire_laws(f);
    lemma_fire_laws(f.spec_fire().0);
    lemma_fire_laws(f.spec_fire().0.spec_fire().0);
}

} // verus!
