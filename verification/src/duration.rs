//! Spans of time with nanosecond resolution.

use vstd::prelude::*;
use vstd::arithmetic::div_mod::lemma_fundamental_div_mod_converse;

verus! {

/// Nanoseconds in one second.
pub const NANOS_PER_SEC: u32 = 1_000_000_000;

/// A non-negative span of time: whole seconds, and the nanoseconds beyond them,
/// always fewer than a second's worth.
#[derive(Clone, Copy, Debug, PartialEq, Eq, Structural)]
pub struct Duration {
    secs: u64,
    nanos: u32,
}

impl Duration {
    /// The fractional part stays below one second.
    #[verifier::type_invariant]
    pub closed spec fn wf(self) -> bool {
        self.nanos < NANOS_PER_SEC
    }

    /// The span as a count of nanoseconds.
    pub closed spec fn as_nanos(self) -> nat {
        self.secs as nat * 1_000_000_000 + self.nanos as nat
    }

    /// The longest span that can be held, in nanoseconds.
    pub open spec fn max_nanos() -> nat {
        18_446_744_073_709_551_615 * 1_000_000_000 + 999_999_999
    }

    /// The well-formed span of `n` nanoseconds, for `n` up to `max_nanos()`.
    pub closed spec fn from_nanos_spec(n: nat) -> Duration {
        Duration { secs: (n / 1_000_000_000) as u64, nanos: (n % 1_000_000_000) as u32 }
    }

    /// The sum of two spans, held at the longest span where it would pass it.
    pub open spec fn spec_saturating_add(self, rhs: Duration) -> Duration {
        if self.as_nanos() + rhs.as_nanos() >= Self::max_nanos() {
            Self::from_nanos_spec(Self::max_nanos())
        } else {
            Self::from_nanos_spec(self.as_nanos() + rhs.as_nanos())
        }
    }

    /// A well-formed span never exceeds `max_nanos()`.
    pub proof fn lemma_bounded(self)
        requires
            self.wf(),
        ensures
            self.as_nanos() <= Self::max_nanos(),
    {
    }

    /// Two well-formed spans of the same length are the same value.
    pub proof fn lemma_nanos_injective(a: Duration, b: Duration)
        requires
            a.wf(),
            b.wf(),
            a.as_nanos() == b.as_nanos(),
        ensures
            a == b,
    {
    }

    /// `from_nanos_spec` is well formed and has the length it was given.
    pub proof fn lemma_from_nanos(n: nat)
        requires
            n <= Self::max_nanos(),
        ensures
            Self::from_nanos_spec(n).wf(),
            Self::from_nanos_spec(n).as_nanos() == n,
    {
        let q = n / 1_000_000_000;
        let r = n % 1_000_000_000;
        assert(n == q * 1_000_000_000 + r && 0 <= r < 1_000_000_000 && q <= u64::MAX) by {
            vstd::arithmetic::div_mod::lemma_fundamental_div_mod(n as int, 1_000_000_000);
        }
    }

    /// A sum of well-formed spans is well formed, and as long as both together
    /// up to the longest span.
    pub proof fn lemma_saturating_add(a: Duration, b: Duration)
        requires
            a.wf(),
            b.wf(),
        ensures
            a.spec_saturating_add(b).wf(),
            a.spec_saturating_add(b).as_nanos() == if a.as_nanos() + b.as_nanos()
                >= Self::max_nanos() {
                Self::max_nanos()
            } else {
                a.as_nanos() + b.as_nanos()
            },
    {
        Self::lemma_from_nanos(Self::max_nanos());
        if a.as_nanos() + b.as_nanos() < Self::max_nanos() {
            Self::lemma_from_nanos(a.as_nanos() + b.as_nanos());
        }
    }

    /// The empty span.
    pub fn zero() -> (d: Duration)
        ensures
            d.wf(),
            d.as_nanos() == 0,
            d == Self::from_nanos_spec(0),
    {
        Duration { secs: 0, nanos: 0 }
    }

    /// The longest span.
    pub fn max() -> (d: Duration)
        ensures
            d.wf(),
            d.as_nanos() == Self::max_nanos(),
            d == Self::from_nanos_spec(Self::max_nanos()),
    {
        let d = Duration { secs: u64::MAX, nanos: NANOS_PER_SEC - 1 };
        proof {
            Self::lemma_from_nanos(Self::max_nanos());
            Self::lemma_nanos_injective(d, Self::from_nanos_spec(Self::max_nanos()));
        }
        d
    }

    /// A span of `secs` seconds and `nanos` nanoseconds. A nanosecond count of
    /// a second or more carries over into the seconds, which must have room
    /// for it.
    pub fn new(secs: u64, nanos: u32) -> (d: Duration)
        requires
            secs + nanos / NANOS_PER_SEC <= u64::MAX,
        ensures
            d.wf(),
            d.as_nanos() == secs * 1_000_000_000 + nanos,
    {
        let carry: u32 = nanos / NANOS_PER_SEC;
        let rest: u32 = nanos % NANOS_PER_SEC;
        let whole: u64 = secs + carry as u64;
        assert(nanos == carry * 1_000_000_000 + rest) by {
            vstd::arithmetic::div_mod::lemma_fundamental_div_mod(nanos as int, 1_000_000_000);
        }
        Duration { secs: whole, nanos: rest }
    }

    /// A span of whole seconds.
    pub fn from_secs(secs: u64) -> (d: Duration)
        ensures
            d.wf(),
            d.as_nanos() == secs * 1_000_000_000,
    {
        Duration { secs, nanos: 0 }
    }

    /// A span of whole milliseconds.
    pub fn from_millis(millis: u64) -> (d: Duration)
        ensures
            d.wf(),
            d.as_nanos() == millis * 1_000_000,
    {
        let secs: u64 = millis / 1000;
        let rest: u32 = (millis % 1000) as u32;
        assert(millis == secs * 1000 + rest) by {
            vstd::arithmetic::div_mod::lemma_fundamental_div_mod(millis as int, 1000);
        }
        Duration { secs, nanos: rest * 1_000_000 }
    }

    /// The whole seconds of the span.
    pub fn as_secs(&self) -> (secs: u64)
        ensures
            secs == self.as_nanos() / 1_000_000_000,
    {
        proof {
            use_type_invariant(self);
            lemma_fundamental_div_mod_converse(
                self.as_nanos() as int,
                1_000_000_000,
                self.secs as int,
                self.nanos as int,
            );
        }
        self.secs
    }

    /// The nanoseconds of the span beyond its whole seconds.
    pub fn subsec_nanos(&self) -> (nanos: u32)
        ensures
            nanos == self.as_nanos() % 1_000_000_000,
    {
        proof {
            use_type_invariant(self);
            lemma_fundamental_div_mod_converse(
                self.as_nanos() as int,
                1_000_000_000,
                self.secs as int,
                self.nanos as int,
            );
        }
        self.nanos
    }

    /// Whether this span is strictly shorter than `other`.
    pub fn lt(&self, other: &Duration) -> (shorter: bool)
        ensures
            shorter == (self.as_nanos() < other.as_nanos()),
    {
        proof {
            use_type_invariant(self);
            use_type_invariant(other);
        }
        self.secs < other.secs || (self.secs == other.secs && self.nanos < other.nanos)
    }

    /// The sum of the two spans, or the longest span where the sum would pass
    /// it.
    pub fn saturating_add(self, rhs: Duration) -> (sum: Duration)
        ensures
            sum.wf(),
            sum == self.spec_saturating_add(rhs),
            sum.as_nanos() == if self.as_nanos() + rhs.as_nanos() >= Self::max_nanos() {
                Self::max_nanos()
            } else {
                self.as_nanos() + rhs.as_nanos()
            },
    {
        proof {
            use_type_invariant(&self);
            use_type_invariant(&rhs);
            Self::lemma_saturating_add(self, rhs);
        }
        let nanos_sum: u32 = self.nanos + rhs.nanos;
        let carries: bool = nanos_sum >= NANOS_PER_SEC;
        let nanos: u32 = if carries {
            nanos_sum - NANOS_PER_SEC
        } else {
            nanos_sum
        };
        let carry: u64 = if carries {
            1
        } else {
            0
        };
        let sum = match self.secs.checked_add(rhs.secs) {
            None => Self::max(),
            Some(secs_sum) => match secs_sum.checked_add(carry) {
                None => Self::max(),
                Some(secs) => Duration { secs, nanos },
            },
        };
        proof {
            Self::lemma_nanos_injective(sum, self.spec_saturating_add(rhs));
        }
        sum
    }
}

impl Default for Duration {
    /// The empty span.
    fn default() -> (d: Duration)
        ensures
            d.wf(),
            d.as_nanos() == 0,
            d == Duration::from_nanos_spec(0),
    {
        Duration::zero()
    }
}

} // verus!
