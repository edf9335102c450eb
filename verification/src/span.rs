//! Lengths of time, held to the nanosecond.

use vstd::prelude::*;

verus! {

/// The nanoseconds of one second.
pub const NANOS_PER_SEC: u32 = 1_000_000_000;

/// A length of time: whole seconds, and less than one second of nanoseconds.
///
/// Its view is the number of nanoseconds it lasts. A point in time is written as the span from
/// the start of the process to that point.
#[derive(Clone, Copy, Debug, PartialEq, Eq, Structural)]
pub struct Span {
    secs: u64,
    nanos: u32,
}

/// The nanoseconds of the longest span there is.
pub open spec fn max_nanos() -> nat {
    (u64::MAX * NANOS_PER_SEC + (NANOS_PER_SEC - 1)) as nat
}

impl View for Span {
    type V = nat;

    closed spec fn view(&self) -> nat {
        (self.secs * NANOS_PER_SEC + self.nanos) as nat
    }
}

impl Span {
    #[verifier::type_invariant]
    spec fn well_formed(self) -> bool {
        self.nanos < NANOS_PER_SEC
    }

    /// The span of `secs` seconds and `nanos` nanoseconds; nanoseconds beyond a second count
    /// as seconds.
    pub fn new(secs: u64, nanos: u32) -> (span: Span)
        requires
            secs + nanos / NANOS_PER_SEC <= u64::MAX,
        ensures
            span@ == secs * NANOS_PER_SEC + nanos,
    {
        let carry: u64 = (nanos / NANOS_PER_SEC) as u64;
        Span { secs: secs + carry, nanos: nanos % NANOS_PER_SEC }
    }

    /// The span of `secs` whole seconds.
    pub fn from_secs(secs: u64) -> (span: Span)
        ensures
            span@ == secs * NANOS_PER_SEC,
    {
        Span { secs, nanos: 0 }
    }

    /// The longest span there is.
    pub fn max_value() -> (span: Span)
        ensures
            span@ == max_nanos(),
    {
        Span { secs: u64::MAX, nanos: NANOS_PER_SEC - 1 }
    }

    /// The whole seconds of the span.
    pub fn as_secs(&self) -> (secs: u64)
        ensures
            secs == self@ / (NANOS_PER_SEC as nat),
    {
        proof {
            use_type_invariant(self);
        }
        self.secs
    }

    /// What the span lasts beyond its whole seconds, in nanoseconds.
    pub fn subsec_nanos(&self) -> (nanos: u32)
        ensures
            nanos == self@ % (NANOS_PER_SEC as nat),
    {
        proof {
            use_type_invariant(self);
        }
        self.nanos
    }

    /// Whether the span is the longest there is.
    pub fn is_max(&self) -> (res: bool)
        ensures
            res == (self@ == max_nanos()),
    {
        proof {
            use_type_invariant(self);
        }
        self.secs == u64::MAX && self.nanos == NANOS_PER_SEC - 1
    }

    /// Whether the span lasts at least as long as `other`.
    pub fn at_least(&self, other: &Span) -> (res: bool)
        ensures
            res == (self@ >= other@),
    {
        proof {
            use_type_invariant(self);
            use_type_invariant(other);
        }
        self.secs > other.secs || (self.secs == other.secs && self.nanos >= other.nanos)
    }

    /// The longer of two spans.
    pub fn longer(self, other: Span) -> (span: Span)
        ensures
            span@ == if self@ >= other@ { self@ } else { other@ },
    {
        if self.at_least(&other) {
            self
        } else {
            other
        }
    }

    /// A quarter of the span, rounded down to the nanosecond.
    pub fn quarter(&self) -> (span: Span)
        ensures
            span@ == self@ / 4,
    {
        proof {
            use_type_invariant(self);
        }
        let spare: u64 = self.secs % 4;
        assert(spare * NANOS_PER_SEC <= 3 * NANOS_PER_SEC);
        let rest: u64 = spare * (NANOS_PER_SEC as u64) + self.nanos as u64;
        Span { secs: self.secs / 4, nanos: (rest / 4) as u32 }
    }

    /// What is left of the span after `other`; nothing where `other` is longer.
    pub fn saturating_sub(&self, other: &Span) -> (span: Span)
        ensures
            span@ == if self@ >= other@ { (self@ - other@) as nat } else { 0 },
    {
        proof {
            use_type_invariant(self);
            use_type_invariant(other);
        }
        if !self.at_least(other) {
            Span { secs: 0, nanos: 0 }
        } else if self.nanos >= other.nanos {
            Span { secs: self.secs - other.secs, nanos: self.nanos - other.nanos }
        } else {
            Span {
                secs: self.secs - other.secs - 1,
                nanos: self.nanos + (NANOS_PER_SEC - other.nanos),
            }
        }
    }
}

/// The longest span is one nanosecond short of 2^64 seconds.
pub proof fn law_longest_span()
    ensures
        max_nanos() + 1 == 0x1_0000_0000_0000_0000int * 1_000_000_000,
{
}

} // verus!
