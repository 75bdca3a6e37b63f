//! Points in time, in UTC, as seconds and nanoseconds since the Unix epoch.
use vstd::prelude::*;

verus! {

pub const NANOS_PER_SEC: u32 = 1_000_000_000;

/// The first second `chrono` can represent: the start of January 1, 262143 BCE.
pub const MIN_UTC_SECS: i64 = -8334601315200;

/// The last second `chrono` can represent: the last second of December 31, 262142 CE.
pub const MAX_UTC_SECS: i64 = 8210266876799;

/// A UTC instant: whole seconds since the epoch and the nanoseconds within that second.
#[derive(Copy, Clone, Debug, PartialEq, Eq, Structural)]
pub struct UtcTimestamp {
    pub secs: i64,
    pub nanos: u32,
}

impl UtcTimestamp {
    /// The nanoseconds of a valid instant stay below one second, and the instant
    /// lies in the range of dates `chrono` can represent.
    pub open spec fn wf(self) -> bool {
        &&& self.nanos < NANOS_PER_SEC
        &&& MIN_UTC_SECS <= self.secs <= MAX_UTC_SECS
    }

    /// The instant as a count of nanoseconds since the epoch.
    pub open spec fn total_nanos(self) -> int {
        self.secs * 1_000_000_000 + self.nanos
    }

    /// Whether `self` comes strictly after `other`.
    pub open spec fn spec_after(self, other: UtcTimestamp) -> bool {
        self.secs > other.secs || (self.secs == other.secs && self.nanos > other.nanos)
    }

    pub fn new(secs: i64, nanos: u32) -> (r: Self)
        requires
            nanos < NANOS_PER_SEC,
            MIN_UTC_SECS <= secs <= MAX_UTC_SECS,
        ensures
            r.secs == secs,
            r.nanos == nanos,
            r.wf(),
    {
        UtcTimestamp { secs, nanos }
    }

    /// Whether `self` comes strictly after `other`.
    pub fn is_after(&self, other: &UtcTimestamp) -> (r: bool)
        ensures
            r == self.spec_after(*other),
    {
        self.secs > other.secs || (self.secs == other.secs && self.nanos > other.nanos)
    }
}

/// A span of time that is never negative, as `std::time::Duration` holds it:
/// whole seconds and the nanoseconds beyond them.
#[derive(Copy, Clone, Debug, PartialEq, Eq, Structural)]
pub struct Duration {
    pub secs: u64,
    pub nanos: u32,
}

impl Duration {
    /// The nanoseconds of a valid span stay below one second.
    pub open spec fn wf(self) -> bool {
        self.nanos < NANOS_PER_SEC
    }

    /// The span as a count of nanoseconds.
    pub open spec fn total_nanos(self) -> int {
        self.secs * 1_000_000_000 + self.nanos
    }

    /// As `Duration::new`: nanoseconds of a second or more carry over into the seconds.
    pub fn new(secs: u64, nanos: u32) -> (r: Duration)
        requires
            secs + nanos / NANOS_PER_SEC <= u64::MAX,
        ensures
            r.wf(),
            r.secs == secs + nanos / NANOS_PER_SEC,
            r.nanos == nanos % NANOS_PER_SEC,
            r.total_nanos() == secs * 1_000_000_000 + nanos,
    {
        let carry = (nanos / NANOS_PER_SEC) as u64;
        let r = Duration { secs: secs + carry, nanos: nanos % NANOS_PER_SEC };
        assert(nanos == (nanos / NANOS_PER_SEC) * 1_000_000_000 + nanos % NANOS_PER_SEC);
        assert((secs + carry) * 1_000_000_000 == secs * 1_000_000_000 + carry * 1_000_000_000) by (nonlinear_arith);
        r
    }
}

/// The instant `d` after `t`, as a count of nanoseconds.
pub open spec fn nanos_after(t: UtcTimestamp, d: Duration) -> int {
    t.total_nanos() + d.total_nanos()
}

/// Whether the instant `d` after `t` can still be represented.
pub open spec fn fits_after(t: UtcTimestamp, d: Duration) -> bool {
    nanos_after(t, d) <= MAX_UTC_SECS * 1_000_000_000 + 999_999_999
}

impl UtcTimestamp {
    /// The instant `d` after `self`, as `DateTime<Utc> + Duration` computes it.
    /// (`chrono` panics when the sum leaves its range; this asks the caller to stay in it.)
    pub fn plus(&self, d: Duration) -> (r: UtcTimestamp)
        requires
            self.wf(),
            d.wf(),
            fits_after(*self, d),
        ensures
            r.wf(),
            r.total_nanos() == nanos_after(*self, d),
    {
        let mut secs: i128 = self.secs as i128 + d.secs as i128;
        let mut nanos: u32 = self.nanos + d.nanos;
        if nanos >= NANOS_PER_SEC {
            nanos = nanos - NANOS_PER_SEC;
            secs = secs + 1;
        }
        assert(secs * 1_000_000_000 + nanos == self.total_nanos() + d.total_nanos()) by (nonlinear_arith)
            requires
                secs == self.secs + d.secs || secs == self.secs + d.secs + 1,
                secs == self.secs + d.secs ==> nanos == self.nanos + d.nanos,
                secs == self.secs + d.secs + 1 ==> nanos + 1_000_000_000 == self.nanos + d.nanos;
        assert(secs <= MAX_UTC_SECS) by (nonlinear_arith)
            requires
                secs * 1_000_000_000 + nanos <= MAX_UTC_SECS * 1_000_000_000 + 999_999_999,
                nanos >= 0;
        assert(secs >= MIN_UTC_SECS);
        UtcTimestamp { secs: secs as i64, nanos }
    }
}

/// On valid instants, coming after is the order of the nanosecond counts.
pub proof fn lemma_after_is_later(a: UtcTimestamp, b: UtcTimestamp)
    requires
        a.wf(),
        b.wf(),
    ensures
        a.spec_after(b) <==> a.total_nanos() > b.total_nanos(),
{
    if a.secs > b.secs {
        assert(a.secs * 1_000_000_000 >= b.secs * 1_000_000_000 + 1_000_000_000) by (nonlinear_arith)
            requires a.secs > b.secs;
    } else if a.secs < b.secs {
        assert(b.secs * 1_000_000_000 >= a.secs * 1_000_000_000 + 1_000_000_000) by (nonlinear_arith)
            requires a.secs < b.secs;
    }
}

} // verus!
