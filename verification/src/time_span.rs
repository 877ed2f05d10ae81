//! Spans of time, held as whole seconds and a nanosecond remainder, with the
//! arithmetic and conversions the timers and deadline reports use.

use vstd::prelude::*;

verus! {

pub const NANOS_PER_SEC: u32 = 1_000_000_000;

pub const NANOS_PER_MILLI: u32 = 1_000_000;

pub const NANOS_PER_MICRO: u32 = 1_000;

/// A span of time: `secs` seconds and `nanos` nanoseconds, `nanos` below one
/// second.
#[derive(Clone, Copy, Debug)]
pub struct TimeSpan {
    secs: u64,
    nanos: u32,
}

/// The length of a span in nanoseconds.
pub open spec fn span_nanos(secs: u64, nanos: u32) -> nat {
    (secs as nat) * 1_000_000_000 + nanos as nat
}

impl View for TimeSpan {
    type V = nat;

    /// The length of the span in nanoseconds.
    closed spec fn view(&self) -> nat {
        span_nanos(self.secs, self.nanos)
    }
}

/// The largest span in nanoseconds.
pub open spec fn max_span_nanos() -> nat {
    span_nanos(u64::MAX, (NANOS_PER_SEC - 1) as u32)
}

impl TimeSpan {
    #[verifier::type_invariant]
    spec fn wf(self) -> bool {
        self.nanos < NANOS_PER_SEC
    }

    /// A span of `secs` seconds and `nanos` nanoseconds; nanoseconds beyond a
    /// second carry into the seconds.
    pub fn new(secs: u64, nanos: u32) -> (span: Self)
        requires
            secs + nanos / NANOS_PER_SEC <= u64::MAX,
        ensures
            span@ == span_nanos(secs, nanos),
    {
        let extra = (nanos / NANOS_PER_SEC) as u64;
        let rest = nanos % NANOS_PER_SEC;
        TimeSpan { secs: secs + extra, nanos: rest }
    }

    /// A span of whole seconds.
    pub fn from_secs(secs: u64) -> (span: Self)
        ensures
            span@ == secs as nat * 1_000_000_000,
    {
        TimeSpan { secs, nanos: 0 }
    }

    /// A span of `millis` milliseconds.
    pub fn from_millis(millis: u64) -> (span: Self)
        ensures
            span@ == millis as nat * 1_000_000,
    {
        let nanos = ((millis % 1000) as u32) * NANOS_PER_MILLI;
        TimeSpan { secs: millis / 1000, nanos }
    }

    /// A span of `micros` microseconds.
    pub fn from_micros(micros: u64) -> (span: Self)
        ensures
            span@ == micros as nat * 1_000,
    {
        let nanos = ((micros % 1_000_000) as u32) * NANOS_PER_MICRO;
        TimeSpan { secs: micros / 1_000_000, nanos }
    }

    /// Whole seconds of the span.
    pub fn as_secs(&self) -> (secs: u64)
        ensures
            secs == self@ / 1_000_000_000,
    {
        proof {
            use_type_invariant(self);
        }
        self.secs
    }

    /// Nanoseconds beyond the whole seconds.
    pub fn subsec_nanos(&self) -> (nanos: u32)
        ensures
            nanos == self@ % 1_000_000_000,
    {
        proof {
            use_type_invariant(self);
        }
        self.nanos
    }

    /// The span in whole milliseconds.
    pub fn as_millis(&self) -> (millis: u128)
        ensures
            millis == self@ / 1_000_000,
    {
        proof {
            use_type_invariant(self);
        }
        (self.secs as u128) * 1000 + (self.nanos / NANOS_PER_MILLI) as u128
    }

    /// The span in whole microseconds.
    pub fn as_micros(&self) -> (micros: u128)
        ensures
            micros == self@ / 1_000,
    {
        proof {
            use_type_invariant(self);
        }
        (self.secs as u128) * 1_000_000 + (self.nanos / NANOS_PER_MICRO) as u128
    }

    /// The span in nanoseconds.
    pub fn as_nanos(&self) -> (nanos: u128)
        ensures
            nanos == self@,
    {
        proof {
            use_type_invariant(self);
        }
        (self.secs as u128) * 1_000_000_000 + self.nanos as u128
    }

    /// Whether this span is longer than `other`.
    pub fn longer_than(&self, other: &TimeSpan) -> (longer: bool)
        ensures
            longer == (self@ > other@),
    {
        proof {
            use_type_invariant(self);
            use_type_invariant(other);
        }
        self.secs > other.secs || (self.secs == other.secs && self.nanos > other.nanos)
    }

    /// This span less `other`; `None` where `other` is the longer one.
    pub fn checked_sub(&self, other: &TimeSpan) -> (diff: Option<TimeSpan>)
        ensures
            other@ <= self@ <==> diff is Some,
            diff matches Some(d) ==> d@ == self@ - other@,
    {
        proof {
            use_type_invariant(self);
            use_type_invariant(other);
        }
        if self.secs < other.secs || (self.secs == other.secs && self.nanos < other.nanos) {
            None
        } else if self.nanos >= other.nanos {
            Some(TimeSpan { secs: self.secs - other.secs, nanos: self.nanos - other.nanos })
        } else {
            Some(
                TimeSpan {
                    secs: self.secs - other.secs - 1,
                    nanos: self.nanos + NANOS_PER_SEC - other.nanos,
                },
            )
        }
    }

    /// This span plus `other`; `None` where the sum is longer than the
    /// longest span.
    pub fn checked_add(&self, other: &TimeSpan) -> (sum: Option<TimeSpan>)
        ensures
            self@ + other@ <= max_span_nanos() <==> sum is Some,
            sum matches Some(s) ==> s@ == self@ + other@,
    {
        proof {
            use_type_invariant(self);
            use_type_invariant(other);
        }
        let nanos = self.nanos + other.nanos;
        let carry: u64 = if nanos >= NANOS_PER_SEC { 1 } else { 0 };
        let rest = if nanos >= NANOS_PER_SEC { nanos - NANOS_PER_SEC } else { nanos };
        match self.secs.checked_add(other.secs) {
            None => None,
            Some(s) => match s.checked_add(carry) {
                None => None,
                Some(total) => Some(TimeSpan { secs: total, nanos: rest }),
            },
        }
    }
}

} // verus!
