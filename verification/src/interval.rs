//! Spans of time, with a resolution of one nanosecond.

use vstd::prelude::*;

verus! {

/// Nanoseconds in one second.
pub const NANOS_PER_SEC: u32 = 1_000_000_000;

/// Of two numbers of whole seconds, the smaller one stays the smaller one
/// when a whole second is added to it: no nanoseconds make up for a second.
proof fn lemma_whole_seconds(a: int, b: int)
    ensures
        a < b ==> a * (NANOS_PER_SEC as int) + (NANOS_PER_SEC as int) <= b * (NANOS_PER_SEC as int),
{
    let unit = NANOS_PER_SEC as int;
    assert(a < b ==> a * unit + unit <= b * unit) by (nonlinear_arith)
        requires
            unit > 0,
    ;
}

/// A span of time that is never negative: whole seconds and the nanoseconds
/// of the second that has begun.
#[derive(Clone, Copy, Debug, PartialEq, Eq, Structural)]
pub struct Interval {
    secs: u64,
    nanos: u32,
}

impl Interval {
    #[verifier::type_invariant]
    spec fn well_formed(self) -> bool {
        self.nanos < NANOS_PER_SEC
    }

    /// The whole span in nanoseconds.
    pub closed spec fn total_nanos(self) -> nat {
        (self.secs as nat) * (NANOS_PER_SEC as nat) + self.nanos as nat
    }

    /// The whole seconds of the span.
    pub closed spec fn spec_secs(self) -> nat {
        self.secs as nat
    }

    /// The nanoseconds beyond the whole seconds.
    pub closed spec fn spec_subsec_nanos(self) -> nat {
        self.nanos as nat
    }

    /// What holds of every span that a program can hold: the nanoseconds
    /// stay below one second.
    pub open spec fn valid(self) -> bool {
        self.spec_subsec_nanos() < NANOS_PER_SEC
    }

    /// How the two parts make up the whole, and that two spans of the same
    /// length are the same span.
    pub proof fn lemma_parts(self, other: Interval)
        requires
            self.valid(),
            other.valid(),
        ensures
            self.total_nanos() == self.spec_secs() * (NANOS_PER_SEC as nat)
                + self.spec_subsec_nanos(),
            self.total_nanos() == other.total_nanos() ==> self == other,
    {
        if self.total_nanos() == other.total_nanos() {
            let a = self.secs as int;
            let b = other.secs as int;
            let unit = NANOS_PER_SEC as int;
            assert(a == b) by (nonlinear_arith)
                requires
                    a * unit + self.nanos == b * unit + other.nanos,
                    0 <= self.nanos < unit,
                    0 <= other.nanos < unit,
            ;
        }
    }

    /// The span of `secs` whole seconds.
    pub closed spec fn spec_from_secs(secs: u64) -> Interval {
        Interval { secs, nanos: 0 }
    }

    /// A span of whole seconds is as long as it says.
    pub proof fn lemma_from_secs(secs: u64)
        ensures
            Self::spec_from_secs(secs).total_nanos() == secs as nat * (NANOS_PER_SEC as nat),
            Self::spec_from_secs(secs).spec_secs() == secs,
            Self::spec_from_secs(secs).spec_subsec_nanos() == 0,
    {
    }

    /// The empty span.
    pub fn zero() -> (r: Interval)
        ensures
            r == Self::spec_from_secs(0),
            r.total_nanos() == 0,
    {
        Interval { secs: 0, nanos: 0 }
    }

    /// A span of `secs` whole seconds.
    #[verifier::when_used_as_spec(spec_from_secs)]
    pub fn from_secs(secs: u64) -> (r: Interval)
        ensures
            r == Self::spec_from_secs(secs),
            r.total_nanos() == secs as nat * (NANOS_PER_SEC as nat),
    {
        Interval { secs, nanos: 0 }
    }

    /// The span of `millis` milliseconds.
    pub closed spec fn spec_from_millis(millis: u64) -> Interval {
        Interval { secs: millis / 1000, nanos: ((millis % 1000) * 1_000_000) as u32 }
    }

    /// A span of milliseconds is as long as it says.
    pub proof fn lemma_from_millis(millis: u64)
        ensures
            Self::spec_from_millis(millis).valid(),
            Self::spec_from_millis(millis).total_nanos() == millis as nat * 1_000_000,
    {
        assert((millis / 1000) * 1_000_000_000 + (millis % 1000) * 1_000_000 == millis * 1_000_000)
            by (nonlinear_arith);
    }

    /// A span of `millis` milliseconds.
    #[verifier::when_used_as_spec(spec_from_millis)]
    pub fn from_millis(millis: u64) -> (r: Interval)
        ensures
            r == Self::spec_from_millis(millis),
            r.total_nanos() == millis as nat * 1_000_000,
    {
        let secs: u64 = millis / 1000;
        let rest: u64 = millis % 1000;
        let nanos: u32 = (rest * 1_000_000) as u32;
        proof {
            Self::lemma_from_millis(millis);
        }
        Interval { secs, nanos }
    }

    /// A span of `secs` seconds and `nanos` nanoseconds, where `nanos` is less
    /// than a second; `None` where it is not.
    pub fn new(secs: u64, nanos: u32) -> (r: Option<Interval>)
        ensures
            nanos < NANOS_PER_SEC <==> r is Some,
            r matches Some(span) ==> span.spec_secs() == secs && span.spec_subsec_nanos() == nanos
                && span.total_nanos() == secs as nat * (NANOS_PER_SEC as nat) + nanos as nat,
    {
        if nanos < NANOS_PER_SEC {
            Some(Interval { secs, nanos })
        } else {
            None
        }
    }

    /// The whole seconds of the span.
    pub fn as_secs(&self) -> (secs: u64)
        ensures
            secs == self.spec_secs(),
            secs == self.total_nanos() / (NANOS_PER_SEC as nat),
    {
        proof {
            use_type_invariant(self);
            let a = self.secs as int;
            let n = self.nanos as int;
            let unit = NANOS_PER_SEC as int;
            assert((a * unit + n) / unit == a) by (nonlinear_arith)
                requires
                    0 <= n < unit,
                    unit > 0,
            ;
        }
        self.secs
    }

    /// The nanoseconds beyond the whole seconds: less than one second.
    pub fn subsec_nanos(&self) -> (nanos: u32)
        ensures
            nanos == self.spec_subsec_nanos(),
            nanos < NANOS_PER_SEC,
    {
        proof {
            use_type_invariant(self);
        }
        self.nanos
    }

    /// Whether the span is empty.
    pub fn is_zero(&self) -> (b: bool)
        ensures
            b == (self.total_nanos() == 0),
    {
        proof {
            let a = self.secs as int;
            let unit = NANOS_PER_SEC as int;
            assert(a > 0 ==> a * unit > 0) by (nonlinear_arith)
                requires
                    unit > 0,
            ;
        }
        self.secs == 0 && self.nanos == 0
    }

    /// Whether `self` is shorter than `other`.
    pub fn shorter_than(&self, other: &Interval) -> (b: bool)
        ensures
            b == (self.total_nanos() < other.total_nanos()),
    {
        proof {
            use_type_invariant(self);
            use_type_invariant(other);
            lemma_whole_seconds(self.secs as int, other.secs as int);
            lemma_whole_seconds(other.secs as int, self.secs as int);
        }
        self.secs < other.secs || (self.secs == other.secs && self.nanos < other.nanos)
    }

    /// What is left of `self` once `other` has passed.
    pub closed spec fn spec_saturating_sub(&self, other: &Interval) -> Interval {
        if self.total_nanos() < other.total_nanos() {
            Interval { secs: 0, nanos: 0 }
        } else if self.nanos >= other.nanos {
            Interval {
                secs: (self.secs - other.secs) as u64,
                nanos: (self.nanos - other.nanos) as u32,
            }
        } else {
            Interval {
                secs: (self.secs - other.secs - 1) as u64,
                nanos: (self.nanos + NANOS_PER_SEC - other.nanos) as u32,
            }
        }
    }

    /// What is left of a span once another has passed is their difference,
    /// and the empty span where the other is the longer one.
    pub proof fn lemma_saturating_sub(self, other: Interval)
        requires
            self.valid(),
            other.valid(),
        ensures
            self.spec_saturating_sub(&other).valid(),
            self.spec_saturating_sub(&other).total_nanos() == if self.total_nanos()
                >= other.total_nanos() {
                self.total_nanos() - other.total_nanos()
            } else {
                0
            },
    {
        lemma_whole_seconds(self.secs as int, other.secs as int);
    }

    /// What is left of `self` once `other` has passed: their difference, and
    /// the empty span where `other` is the longer one.
    #[verifier::when_used_as_spec(spec_saturating_sub)]
    pub fn saturating_sub(&self, other: &Interval) -> (r: Interval)
        ensures
            r == self.spec_saturating_sub(other),
            r.total_nanos() == if self.total_nanos() >= other.total_nanos() {
                self.total_nanos() - other.total_nanos()
            } else {
                0
            },
    {
        proof {
            use_type_invariant(self);
            use_type_invariant(other);
            self.lemma_saturating_sub(*other);
        }
        if self.shorter_than(other) {
            return Interval::zero();
        }
        if self.nanos >= other.nanos {
            Interval { secs: self.secs - other.secs, nanos: self.nanos - other.nanos }
        } else {
            Interval {
                secs: self.secs - other.secs - 1,
                nanos: self.nanos + NANOS_PER_SEC - other.nanos,
            }
        }
    }
}

} // verus!
