//! A plain duration value: whole seconds plus a sub-second nanosecond
//! part, as the kernel's counters convert into it.

use vstd::prelude::*;

verus! {

pub const NANOS_PER_SEC: u32 = 1_000_000_000;

pub const NANOS_PER_MILLI: u32 = 1_000_000;

pub const MILLIS_PER_SEC: u64 = 1_000;

/// A span of time: seconds and a nanosecond remainder under one second.
#[derive(Debug, Clone, Copy, PartialEq, Eq, Default, Structural)]
pub struct Duration {
    /// Whole seconds.
    pub secs: u64,
    /// Nanoseconds, always under one second.
    pub nanos: u32,
}

/// The duration a count of milliseconds converts to.
pub open spec fn spec_duration_from_millis(millis: u64) -> Duration {
    Duration {
        secs: (millis / MILLIS_PER_SEC) as u64,
        nanos: ((millis % MILLIS_PER_SEC) * (NANOS_PER_MILLI as u64)) as u32,
    }
}

/// The duration a count of nanoseconds converts to.
pub open spec fn spec_duration_from_nanos(nanos: u64) -> Duration {
    Duration {
        secs: (nanos / (NANOS_PER_SEC as u64)) as u64,
        nanos: (nanos % (NANOS_PER_SEC as u64)) as u32,
    }
}

impl Duration {
    /// The nanosecond remainder stays under one second.
    pub open spec fn wf(&self) -> bool {
        self.nanos < NANOS_PER_SEC
    }

    /// The whole span in nanoseconds.
    pub open spec fn total_nanos(&self) -> int {
        self.secs * (NANOS_PER_SEC as int) + self.nanos
    }

    /// A span of whole seconds.
    pub fn from_secs(secs: u64) -> (r: Duration)
        ensures
            r.secs == secs,
            r.nanos == 0,
            r.wf(),
    {
        Duration { secs, nanos: 0 }
    }

    /// A span of milliseconds.
    pub fn from_millis(millis: u64) -> (r: Duration)
        ensures
            r == spec_duration_from_millis(millis),
            r.total_nanos() == millis * (NANOS_PER_MILLI as int),
            r.wf(),
    {
        let secs = millis / MILLIS_PER_SEC;
        let rem = (millis % MILLIS_PER_SEC) as u32;
        let nanos = rem * NANOS_PER_MILLI;
        proof {
            vstd::arithmetic::div_mod::lemma_fundamental_div_mod(
                millis as int,
                MILLIS_PER_SEC as int,
            );
        }
        Duration { secs, nanos }
    }

    /// A span of nanoseconds.
    pub fn from_nanos(nanos: u64) -> (r: Duration)
        ensures
            r == spec_duration_from_nanos(nanos),
            r.total_nanos() == nanos,
            r.wf(),
    {
        let secs = nanos / (NANOS_PER_SEC as u64);
        let rem = (nanos % (NANOS_PER_SEC as u64)) as u32;
        proof {
            vstd::arithmetic::div_mod::lemma_fundamental_div_mod(
                nanos as int,
                NANOS_PER_SEC as int,
            );
        }
        Duration { secs, nanos: rem }
    }
}

} // verus!
