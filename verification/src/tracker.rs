//! Time values: the start and end markers of a session, and the record of a
//! finished session.

use vstd::prelude::*;
use crate::clock::utc_now_parts;

verus! {

/// A point on the UTC time line: whole seconds since the Unix epoch and the
/// nanoseconds past that second.
pub struct Instant {
    pub secs: int,
    pub nanos: int,
}

impl Instant {
    /// `self` is not earlier than `other`: seconds decide, nanoseconds break
    /// the tie.
    pub open spec fn at_or_after(self, other: Instant) -> bool {
        self.secs > other.secs || (self.secs == other.secs && self.nanos >= other.nanos)
    }
}

/// The instant at which a session started.
#[derive(Debug, Clone, Copy, PartialEq, Eq, Structural)]
pub struct StartTime {
    secs: i64,
    nanos: u32,
}

impl View for StartTime {
    type V = Instant;

    closed spec fn view(&self) -> Instant {
        Instant { secs: self.secs as int, nanos: self.nanos as int }
    }
}

impl StartTime {
    /// The current wall-clock time in UTC. Which instant that is, no
    /// contract can say; it is never inside a leap second.
    pub fn now() -> (t: StartTime)
        ensures
            0 <= t@.nanos < 1_000_000_000,
    {
        let parts = utc_now_parts();
        StartTime { secs: parts.0, nanos: parts.1 }
    }

    /// The start marker at `secs` seconds since the Unix epoch and `nanos`
    /// nanoseconds.
    pub fn from_parts(secs: i64, nanos: u32) -> (t: StartTime)
        ensures
            t@ == (Instant { secs: secs as int, nanos: nanos as int }),
    {
        StartTime { secs, nanos }
    }

    /// Whole seconds since the Unix epoch.
    pub fn secs(&self) -> (s: i64)
        ensures
            s == self@.secs,
    {
        self.secs
    }

    /// Nanoseconds past the whole second.
    pub fn nanos(&self) -> (n: u32)
        ensures
            n == self@.nanos,
    {
        self.nanos
    }

    /// Two start markers at the same instant are the same value.
    pub proof fn lemma_view_injective(a: StartTime, b: StartTime)
        requires
            a@ == b@,
        ensures
            a == b,
    {
    }
}

/// The instant at which a session ended.
#[derive(Debug, Clone, Copy, PartialEq, Eq, Structural)]
pub struct EndTime {
    secs: i64,
    nanos: u32,
}

impl View for EndTime {
    type V = Instant;

    closed spec fn view(&self) -> Instant {
        Instant { secs: self.secs as int, nanos: self.nanos as int }
    }
}

impl EndTime {
    /// The current wall-clock time in UTC. Which instant that is, no
    /// contract can say; it is never inside a leap second.
    pub fn now() -> (t: EndTime)
        ensures
            0 <= t@.nanos < 1_000_000_000,
    {
        let parts = utc_now_parts();
        EndTime { secs: parts.0, nanos: parts.1 }
    }

    /// The end marker at `secs` seconds since the Unix epoch and `nanos`
    /// nanoseconds.
    pub fn from_parts(secs: i64, nanos: u32) -> (t: EndTime)
        ensures
            t@ == (Instant { secs: secs as int, nanos: nanos as int }),
    {
        EndTime { secs, nanos }
    }

    /// Whole seconds since the Unix epoch.
    pub fn secs(&self) -> (s: i64)
        ensures
            s == self@.secs,
    {
        self.secs
    }

    /// Nanoseconds past the whole second.
    pub fn nanos(&self) -> (n: u32)
        ensures
            n == self@.nanos,
    {
        self.nanos
    }

    /// Whether this end marker is not earlier than `start`.
    pub fn is_at_or_after(&self, start: &StartTime) -> (b: bool)
        ensures
            b == self@.at_or_after(start@),
    {
        self.secs > start.secs || (self.secs == start.secs && self.nanos >= start.nanos)
    }

    /// Two end markers at the same instant are the same value.
    pub proof fn lemma_view_injective(a: EndTime, b: EndTime)
        requires
            a@ == b@,
        ensures
            a == b,
    {
    }
}

/// A finished session. Its end is never earlier than its start.
#[derive(Debug, Clone, Copy, PartialEq, Eq, Structural)]
pub struct TimeRecord {
    start: StartTime,
    end: EndTime,
}

impl TimeRecord {
    #[verifier::type_invariant]
    closed spec fn ordered(self) -> bool {
        self.end@.at_or_after(self.start@)
    }

    /// The record that pairs `start` with `end`.
    pub closed spec fn spanning(start: StartTime, end: EndTime) -> TimeRecord {
        TimeRecord { start, end }
    }

    /// The start marker of the record.
    pub closed spec fn started(self) -> StartTime {
        self.start
    }

    /// The end marker of the record.
    pub closed spec fn ended(self) -> EndTime {
        self.end
    }

    /// A record is its two markers, and nothing else.
    pub broadcast proof fn lemma_spanning(start: StartTime, end: EndTime)
        ensures
            (#[trigger] TimeRecord::spanning(start, end)).started() == start,
            TimeRecord::spanning(start, end).ended() == end,
    {
    }

    /// Two records with the same markers are the same record.
    pub proof fn lemma_markers_decide(self, other: TimeRecord)
        requires
            self.started() == other.started(),
            self.ended() == other.ended(),
        ensures
            self == other,
    {
    }

    /// The record of a session from `start` to `end`, or `None` where the
    /// clock went backwards and `end` is earlier than `start`.
    pub fn new(start: StartTime, end: EndTime) -> (r: Option<TimeRecord>)
        ensures
            r == if end@.at_or_after(start@) {
                Some(TimeRecord::spanning(start, end))
            } else {
                None
            },
    {
        if end.is_at_or_after(&start) {
            Some(TimeRecord { start, end })
        } else {
            None
        }
    }

    /// The start marker.
    pub fn start(&self) -> (t: StartTime)
        ensures
            t == self.started(),
    {
        self.start
    }

    /// The end marker, which is not earlier than the start marker.
    pub fn end(&self) -> (t: EndTime)
        ensures
            t == self.ended(),
            t@.at_or_after(self.started()@),
    {
        proof {
            use_type_invariant(self);
        }
        self.end
    }
}

} // verus!
