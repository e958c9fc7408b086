//! Instants of Coordinated Universal Time, to the nanosecond.

use vstd::prelude::*;

verus! {

/// Nanoseconds in a second.
pub const NANOS_PER_SEC: u32 = 1_000_000_000;

/// The first second of the calendar: the start of the year 262144 BCE.
pub const MIN_SECS: i64 = -8_334_601_228_800;

/// The last second of the calendar: the end of the year 262142.
pub const MAX_SECS: i64 = 8_210_266_876_799;

/// An instant: whole seconds since the Unix epoch, and nanoseconds on top of them.
#[derive(Debug, Clone, Copy, PartialEq, Eq, Structural)]
pub struct Timestamp {
    pub secs: i64,
    pub nanos: u32,
}

/// The whole seconds in a span of nanoseconds; a part of a second is dropped, in a
/// negative span too.
pub open spec fn whole_seconds(nanos: int) -> int {
    if nanos >= 0 {
        nanos / 1_000_000_000
    } else {
        -((-nanos) / 1_000_000_000)
    }
}

impl Timestamp {
    /// The instant lies in the calendar and its nanoseconds make less than a second.
    pub open spec fn wf(self) -> bool {
        MIN_SECS <= self.secs <= MAX_SECS && self.nanos < NANOS_PER_SEC
    }

    /// Nanoseconds since the Unix epoch.
    pub open spec fn total_nanos(self) -> int {
        self.secs * 1_000_000_000 + self.nanos
    }

    /// The instant `secs` seconds later.
    pub open spec fn later(self, secs: nat) -> Timestamp {
        Timestamp { secs: (self.secs + secs) as i64, nanos: self.nanos }
    }

    /// The instant with the given seconds and nanoseconds, if there is one.
    pub fn new(secs: i64, nanos: u32) -> (t: Option<Self>)
        ensures
            match t {
                Some(t) => t.wf() && t.secs == secs && t.nanos == nanos,
                None => !(Timestamp { secs, nanos }).wf(),
            },
    {
        if MIN_SECS <= secs && secs <= MAX_SECS && nanos < NANOS_PER_SEC {
            Some(Timestamp { secs, nanos })
        } else {
            None
        }
    }

    /// The whole seconds from `now` to this instant; negative where it has passed.
    pub fn seconds_since(&self, now: &Timestamp) -> (secs: i64)
        requires
            self.wf(),
            now.wf(),
        ensures
            secs == whole_seconds(self.total_nanos() - now.total_nanos()),
    {
        let secs: i64 = self.secs - now.secs;
        if secs > 0 && self.nanos < now.nanos {
            secs - 1
        } else if secs < 0 && self.nanos > now.nanos {
            secs + 1
        } else {
            secs
        }
    }

    /// The instant `secs` seconds later.
    pub fn plus_seconds(&self, secs: u32) -> (t: Timestamp)
        requires
            self.wf(),
            self.secs + secs <= MAX_SECS,
        ensures
            t.wf(),
            t.total_nanos() == self.total_nanos() + secs * 1_000_000_000,
            t == self.later(secs as nat),
    {
        Timestamp { secs: self.secs + secs as i64, nanos: self.nanos }
    }
}

/// Seconds added to an instant are the seconds counted back to it.
pub proof fn law_seconds_count_back(t: Timestamp, secs: nat)
    requires
        t.wf(),
        t.secs + secs <= MAX_SECS,
    ensures
        whole_seconds(t.later(secs).total_nanos() - t.total_nanos()) == secs,
{
}

} // verus!
