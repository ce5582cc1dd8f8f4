//! Rolling engagement / system event log.
use std::collections::VecDeque;

use vstd::prelude::*;
use vstd::std_specs::iter::IteratorSpec;
use web_time::Instant;

use crate::text::{decimal, push_decimal};

verus! {

broadcast use vstd::std_specs::vecdeque::group_vec_dequeue_axioms;

pub const DEFAULT_LOG_CAPACITY: usize = 64;

/// Declares `web_time::Instant` (on native targets `std::time::Instant`) so the
/// log can keep the moment it was created. Opaque: nothing inside an instant
/// is visible here.
#[verifier::external_type_specification]
#[verifier::external_body]
pub struct ExInstant(Instant);

/// Specifies `Clone::clone` for `Instant` (std, re-exported by `web_time`):
/// `Instant` is `Copy`, so the clone is the same instant.
pub assume_specification[ <Instant as Clone>::clone ](i: &Instant) -> (r: Instant)
    ensures
        r == *i,
;

/// Wraps `web_time::Instant::now`: the instant at which it is called. Nothing
/// about its value is claimed; it depends on the clock.
#[verifier::external_body]
fn instant_now() -> (r: Instant) {
    Instant::now()
}

/// Wraps `Instant::elapsed` (std, re-exported by `web_time`): the time since
/// `epoch` on the monotonic clock, in whole nanoseconds (truncated to 64 bits).
/// Nothing about the value is claimed; it depends on the clock.
#[verifier::external_body]
fn nanos_since(epoch: Instant) -> (r: u64) {
    epoch.elapsed().as_nanos() as u64
}

#[derive(Debug, Clone)]
pub enum LogKind {
    Boot,
    ScreenChange { to: String },
    SentrySelect { id: u8 },
    OptionChange { section: String, value: String },
    Armed { sentry: u8 },
    Safe { sentry: u8 },
    Fire { sentry: u8, rounds_left: u16, profile: String, spectral: String },
    Critical { sentry: u8, rounds: u16 },
    Empty { sentry: u8 },
    Demo { message: String },
    Info { message: String },
}

/// A log event's kind with its text fields taken as character sequences.
pub enum LogKindView {
    Boot,
    ScreenChange { to: Seq<char> },
    SentrySelect { id: u8 },
    OptionChange { section: Seq<char>, value: Seq<char> },
    Armed { sentry: u8 },
    Safe { sentry: u8 },
    Fire { sentry: u8, rounds_left: u16, profile: Seq<char>, spectral: Seq<char> },
    Critical { sentry: u8, rounds: u16 },
    Empty { sentry: u8 },
    Demo { message: Seq<char> },
    Info { message: Seq<char> },
}

impl View for LogKind {
    type V = LogKindView;

    open spec fn view(&self) -> LogKindView {
        match self {
            LogKind::Boot => LogKindView::Boot,
            LogKind::ScreenChange { to } => LogKindView::ScreenChange { to: to@ },
            LogKind::SentrySelect { id } => LogKindView::SentrySelect { id: *id },
            LogKind::OptionChange { section, value } => LogKindView::OptionChange {
                section: section@,
                value: value@,
            },
            LogKind::Armed { sentry } => LogKindView::Armed { sentry: *sentry },
            LogKind::Safe { sentry } => LogKindView::Safe { sentry: *sentry },
            LogKind::Fire { sentry, rounds_left, profile, spectral } => LogKindView::Fire {
                sentry: *sentry,
                rounds_left: *rounds_left,
                profile: profile@,
                spectral: spectral@,
            },
            LogKind::Critical { sentry, rounds } => LogKindView::Critical {
                sentry: *sentry,
                rounds: *rounds,
            },
            LogKind::Empty { sentry } => LogKindView::Empty { sentry: *sentry },
            LogKind::Demo { message } => LogKindView::Demo { message: message@ },
            LogKind::Info { message } => LogKindView::Info { message: message@ },
        }
    }
}

impl LogKindView {
    /// The line the console prints for the event.
    pub open spec fn text(self) -> Seq<char> {
        match self {
            LogKindView::Boot => "SYSTEM BOOT — UA 571-C CONSOLE ONLINE"@,
            LogKindView::ScreenChange { to } => "DISPLAY → "@ + to,
            LogKindView::SentrySelect { id } => "OPERATOR SELECT SENTRY-"@ + decimal(id as nat),
            LogKindView::OptionChange { section, value } => section + " SET → "@ + value,
            LogKindView::Armed { sentry } => "SENTRY-"@ + decimal(sentry as nat)
                + " WEAPON ARMED"@,
            LogKindView::Safe { sentry } => "SENTRY-"@ + decimal(sentry as nat) + " WEAPON SAFE"@,
            LogKindView::Fire { sentry, rounds_left, profile, spectral } => "SENTRY-"@ + decimal(
                sentry as nat,
            ) + " FIRE — "@ + profile + "/"@ + spectral + " — "@ + decimal(rounds_left as nat)
                + " RDS"@,
            LogKindView::Critical { sentry, rounds } => "SENTRY-"@ + decimal(sentry as nat)
                + " CRITICAL — "@ + decimal(rounds as nat) + " RDS REMAINING"@,
            LogKindView::Empty { sentry } => "SENTRY-"@ + decimal(sentry as nat) + " DRUM EMPTY"@,
            LogKindView::Demo { message } => "DEMO: "@ + message,
            LogKindView::Info { message } => message,
        }
    }
}

impl LogKind {
    /// The line the console prints for the event.
    pub fn to_string(&self) -> (r: String)
        ensures
            r@ == self@.text(),
    {
        let mut s = String::new();
        match self {
            LogKind::Boot => {
                s.append("SYSTEM BOOT — UA 571-C CONSOLE ONLINE");
            },
            LogKind::ScreenChange { to } => {
                s.append("DISPLAY → ");
                s.append(to.as_str());
            },
            LogKind::SentrySelect { id } => {
                s.append("OPERATOR SELECT SENTRY-");
                push_decimal(&mut s, *id as u64);
            },
            LogKind::OptionChange { section, value } => {
                s.append(section.as_str());
                s.append(" SET → ");
                s.append(value.as_str());
            },
            LogKind::Armed { sentry } => {
                s.append("SENTRY-");
                push_decimal(&mut s, *sentry as u64);
                s.append(" WEAPON ARMED");
            },
            LogKind::Safe { sentry } => {
                s.append("SENTRY-");
                push_decimal(&mut s, *sentry as u64);
                s.append(" WEAPON SAFE");
            },
            LogKind::Fire { sentry, rounds_left, profile, spectral } => {
                s.append("SENTRY-");
                push_decimal(&mut s, *sentry as u64);
                s.append(" FIRE — ");
                s.append(profile.as_str());
                s.append("/");
                s.append(spectral.as_str());
                s.append(" — ");
                push_decimal(&mut s, *rounds_left as u64);
                s.append(" RDS");
            },
            LogKind::Critical { sentry, rounds } => {
                s.append("SENTRY-");
                push_decimal(&mut s, *sentry as u64);
                s.append(" CRITICAL — ");
                push_decimal(&mut s, *rounds as u64);
                s.append(" RDS REMAINING");
            },
            LogKind::Empty { sentry } => {
                s.append("SENTRY-");
                push_decimal(&mut s, *sentry as u64);
                s.append(" DRUM EMPTY");
            },
            LogKind::Demo { message } => {
                s.append("DEMO: ");
                s.append(message.as_str());
            },
            LogKind::Info { message } => {
                s.append(message.as_str());
            },
        }
        assert(s@ =~= self@.text());
        s
    }
}

#[derive(Debug, Clone)]
pub struct LogEvent {
    pub kind: LogKind,
    /// When it was logged: nanoseconds since the log was created.
    pub at: u64,
    /// Monotonic sequence for stable ordering.
    pub seq: u64,
}

impl LogEvent {
    /// How long ago the event was logged, as seen from `now` (both in
    /// nanoseconds on the log's clock; zero if `now` is earlier).
    pub fn age(&self, now: u64) -> (r: u64)
        ensures
            r == (if now >= self.at { now - self.at } else { 0 }),
    {
        now.saturating_sub(self.at)
    }
}

/// One logged event: what happened and its sequence number.
pub struct LogEntry {
    pub kind: LogKindView,
    pub seq: u64,
}

/// The log as the rest of the console sees it: entries oldest first, the
/// most it keeps, and the sequence number the next event gets.
pub struct LogModel {
    pub entries: Seq<LogEntry>,
    pub capacity: nat,
    pub next_seq: u64,
}

impl LogModel {
    /// Holds at least one and never more than `capacity` entries.
    pub open spec fn wf(self) -> bool {
        &&& self.capacity >= 1
        &&& self.entries.len() <= self.capacity
    }

    /// Logging `kind`: when full the oldest entry is dropped, then the new
    /// entry is appended with the next sequence number.
    pub open spec fn push(self, kind: LogKindView) -> LogModel {
        let kept = if self.entries.len() >= self.capacity {
            self.entries.drop_first()
        } else {
            self.entries
        };
        LogModel {
            entries: kept.push(LogEntry { kind, seq: self.next_seq }),
            next_seq: (self.next_seq + 1) as u64,
            ..self
        }
    }

    /// Room left before the sequence counter would overflow.
    pub open spec fn room(self) -> int {
        u64::MAX - self.next_seq
    }
}

pub open spec fn entry_of(e: LogEvent) -> LogEntry {
    LogEntry { kind: e.kind@, seq: e.seq }
}

#[derive(Debug, Clone)]
pub struct EventLog {
    events: VecDeque<LogEvent>,
    capacity: usize,
    next_seq: u64,
    /// The moment the log was created; event times count from it.
    epoch: Instant,
}

impl View for EventLog {
    type V = LogModel;

    closed spec fn view(&self) -> LogModel {
        LogModel {
            entries: self.events@.map_values(|e: LogEvent| entry_of(e)),
            capacity: self.capacity as nat,
            next_seq: self.next_seq,
        }
    }
}

impl Default for EventLog {
    fn default() -> (r: Self)
        ensures
            r@.entries.len() == 0,
            r@.capacity == DEFAULT_LOG_CAPACITY,
            r@.next_seq == 0,
            r@.wf(),
    {
        Self::new(DEFAULT_LOG_CAPACITY)
    }
}

impl EventLog {
    /// The events themselves, oldest first.
    pub closed spec fn events(self) -> Seq<LogEvent> {
        self.events@
    }

    pub broadcast proof fn lemma_view_events(self)
        ensures
            #[trigger] self@.entries == self.events().map_values(|e: LogEvent| entry_of(e)),
    {
    }

    pub fn new(capacity: usize) -> (r: Self)
        ensures
            r@ == (LogModel {
                entries: Seq::empty(),
                capacity: if capacity >= 1 { capacity as nat } else { 1 },
                next_seq: 0,
            }),
            r@.wf(),
    {
        let log = Self {
            events: VecDeque::with_capacity(capacity),
            capacity: if capacity >= 1 {
                capacity
            } else {
                1
            },
            next_seq: 0,
            epoch: instant_now(),
        };
        assert(log@.entries =~= Seq::<LogEntry>::empty());
        log
    }

    /// The log's clock: nanoseconds since the log was created. Nothing about
    /// the value is claimed; it depends on the clock.
    pub fn clock(&self) -> u64 {
        nanos_since(self.epoch)
    }

    /// How many more events can be numbered.
    pub fn room(&self) -> (r: u64)
        ensures
            r == self@.room(),
    {
        u64::MAX - self.next_seq
    }

    pub fn push(&mut self, kind: LogKind)
        requires
            old(self)@.wf(),
            old(self)@.room() >= 1,
        ensures
            final(self)@ == old(self)@.push(kind@),
            final(self)@.wf(),
            final(self).events().last().kind == kind,
    {
        let ghost k = kind@;
        if self.events.len() >= self.capacity {
            self.events.pop_front();
        }
        self.events.push_back(LogEvent { kind, at: nanos_since(self.epoch), seq: self.next_seq });
        self.next_seq += 1;
        assert(self@.entries =~= old(self)@.push(k).entries);
    }

    pub fn push_info(&mut self, message: &str)
        requires
            old(self)@.wf(),
            old(self)@.room() >= 1,
        ensures
            final(self)@ == old(self)@.push(LogKindView::Info { message: message@ }),
            final(self)@.wf(),
    {
        self.push(LogKind::Info { message: message.to_string() });
    }

    pub fn iter(&self) -> (r: std::collections::vec_deque::Iter<'_, LogEvent>)
        ensures
            IteratorSpec::remaining(&r) == self.events().map_values(|e: LogEvent| &e),
    {
        let r = self.events.iter();
        assert(IteratorSpec::remaining(&r) =~= self.events().map_values(|e: LogEvent| &e));
        r
    }

    pub fn len(&self) -> (r: usize)
        ensures
            r == self@.entries.len(),
    {
        self.events.len()
    }

    pub fn is_empty(&self) -> (r: bool)
        ensures
            r == (self@.entries.len() == 0),
    {
        self.events.len() == 0
    }

    /// Newest-first slice for UI.
    pub fn recent(&self, n: usize) -> (r: Vec<&LogEvent>)
        ensures
            r@.len() == if n < self@.entries.len() { n as int } else { self@.entries.len() as int },
            forall|i: int|
                0 <= i < r@.len() ==> *#[trigger] r@[i] == self.events()[self.events().len() - 1
                    - i],
    {
        let len = self.events.len();
        assert(self@.entries.len() == len);
        let mut out: Vec<&LogEvent> = Vec::new();
        let mut i: usize = 0;
        while i < n && i < len
            invariant
                len == self.events().len(),
                i <= len,
                i <= n,
                out@.len() == i,
                forall|j: int| 0 <= j < i ==> *#[trigger] out@[j] == self.events()[len - 1 - j],
            decreases len - i,
        {
            out.push(&self.events[len - 1 - i]);
            i = i + 1;
        }
        out
    }
}

/// However many events are logged, the log never holds more than its capacity,
/// and each new event gets a sequence number one higher than the last.
pub proof fn lemma_push_keeps_capacity(m: LogModel, kind: LogKindView)
    requires
        m.wf(),
        m.room() >= 1,
    ensures
        m.push(kind).wf(),
        m.push(kind).capacity == m.capacity,
        m.push(kind).entries.last().seq == m.next_seq,
        m.push(kind).next_seq == m.next_seq + 1,
        m.entries.len() < m.capacity ==> m.push(kind).entries == m.entries.push(
            LogEntry { kind, seq: m.next_seq },
        ),
        m.entries.len() == m.capacity ==> m.push(kind).entries == m.entries.drop_first().push(
            LogEntry { kind, seq: m.next_seq },
        ),
{
}

} // verus!
