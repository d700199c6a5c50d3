//! A non-negative span of time with nanosecond precision.
//!
//! `Duration` is the quantity the stopwatch accumulates. It is stored as
//! whole seconds plus a sub-second nanosecond remainder, and every value
//! lies in `[0, duration_max_nanos()]` nanoseconds. Arithmetic comes in
//! checked and saturating flavors.

use core::hash::Hasher;
use std::collections::hash_map::DefaultHasher;
use vstd::arithmetic::div_mod::lemma_fundamental_div_mod_converse;
use vstd::bytes::{spec_u32_to_le_bytes, spec_u64_to_le_bytes, u32_to_le_bytes, u64_to_le_bytes};
use vstd::prelude::*;

verus! {

/// Number of nanoseconds in one second.
pub const NANOS_PER_SEC: u32 = 1_000_000_000;

/// The largest nanosecond count a `Duration` can hold:
/// `u64::MAX` seconds plus `NANOS_PER_SEC - 1` nanoseconds.
pub open spec fn duration_max_nanos() -> int {
    0xffff_ffff_ffff_ffffint * 1_000_000_000 + 999_999_999
}

/// Clamps a nanosecond count into the duration domain
/// `[0, duration_max_nanos()]`.
pub open spec fn clamp_to_duration(x: int) -> int {
    if x < 0 {
        0
    } else if x > duration_max_nanos() {
        duration_max_nanos()
    } else {
        x
    }
}

/// A non-negative span of time, precise to the nanosecond.
///
/// The view of a `Duration` (written `d@`) is its total length in
/// nanoseconds, as a mathematical integer.
#[derive(Clone, Copy, Debug, PartialEq, Eq, Structural)]
pub struct Duration {
    secs: u64,
    nanos: u32,
}

impl View for Duration {
    type V = int;

    closed spec fn view(&self) -> int {
        self.secs * 1_000_000_000 + self.nanos
    }
}

impl Duration {
    /// Well-formedness: the nanosecond remainder stays below one second,
    /// so the view determines the fields and never exceeds
    /// `duration_max_nanos()`.
    #[verifier::type_invariant]
    pub closed spec fn wf(self) -> bool {
        self.nanos < NANOS_PER_SEC
    }

    /// Returns a duration of `secs` whole seconds plus `nanos` extra
    /// nanoseconds.
    pub fn new(secs: u64, nanos: u32) -> (r: Self)
        requires
            nanos < NANOS_PER_SEC,
        ensures
            r@ == secs * 1_000_000_000 + nanos,
    {
        Duration { secs, nanos }
    }

    /// Returns the zero-length duration.
    pub fn zero() -> (r: Self)
        ensures
            r@ == 0,
    {
        Duration { secs: 0, nanos: 0 }
    }

    /// Returns the longest representable duration.
    pub fn max_value() -> (r: Self)
        ensures
            r@ == duration_max_nanos(),
    {
        Duration { secs: u64::MAX, nanos: 999_999_999 }
    }

    /// Returns a duration of `secs` whole seconds.
    pub fn from_secs(secs: u64) -> (r: Self)
        ensures
            r@ == secs * 1_000_000_000,
    {
        Duration { secs, nanos: 0 }
    }

    /// Returns a duration of `millis` milliseconds.
    pub fn from_millis(millis: u64) -> (r: Self)
        ensures
            r@ == millis * 1_000_000,
    {
        let secs: u64 = millis / 1000;
        let rem: u64 = millis % 1000;
        proof {
            assert(millis == 1000 * (millis as int / 1000) + millis as int % 1000) by {
                vstd::arithmetic::div_mod::lemma_fundamental_div_mod(millis as int, 1000);
            }
        }
        Duration { secs, nanos: (rem as u32) * 1_000_000 }
    }

    /// Returns a duration of `nanos` nanoseconds.
    pub fn from_nanos(nanos: u64) -> (r: Self)
        ensures
            r@ == nanos,
    {
        let secs: u64 = nanos / NANOS_PER_SEC as u64;
        let rem: u64 = nanos % NANOS_PER_SEC as u64;
        proof {
            assert(nanos == 1_000_000_000 * (nanos as int / 1_000_000_000) + nanos as int
                % 1_000_000_000) by {
                vstd::arithmetic::div_mod::lemma_fundamental_div_mod(nanos as int, 1_000_000_000);
            }
        }
        Duration { secs, nanos: rem as u32 }
    }

    /// Returns `true` exactly when the duration has zero length.
    pub fn is_zero(&self) -> (r: bool)
        ensures
            r == (self@ == 0),
    {
        self.secs == 0 && self.nanos == 0
    }

    /// Adds two durations; `None` when the sum leaves the duration domain.
    pub fn checked_add(self, rhs: Self) -> (r: Option<Self>)
        ensures
            (r is Some) <==> self@ + rhs@ <= duration_max_nanos(),
            r matches Some(d) ==> d@ == self@ + rhs@,
    {
        proof {
            use_type_invariant(&self);
            use_type_invariant(&rhs);
        }
        let nanos_sum: u32 = self.nanos + rhs.nanos;
        let carry: u64 = if nanos_sum >= NANOS_PER_SEC {
            1
        } else {
            0
        };
        let new_nanos: u32 = if nanos_sum >= NANOS_PER_SEC {
            nanos_sum - NANOS_PER_SEC
        } else {
            nanos_sum
        };
        match self.secs.checked_add(rhs.secs) {
            Some(partial) => match partial.checked_add(carry) {
                Some(new_secs) => Some(Duration { secs: new_secs, nanos: new_nanos }),
                None => None,
            },
            None => None,
        }
    }

    /// Adds two durations, clamping the sum to the duration domain.
    pub fn saturating_add(self, rhs: Self) -> (r: Self)
        ensures
            r@ == clamp_to_duration(self@ + rhs@),
    {
        match self.checked_add(rhs) {
            Some(d) => d,
            None => Self::max_value(),
        }
    }

    /// Subtracts `rhs` from `self`; `None` when `rhs` is longer than
    /// `self`.
    pub fn checked_sub(self, rhs: Self) -> (r: Option<Self>)
        ensures
            (r is Some) <==> self@ >= rhs@,
            r matches Some(d) ==> d@ == self@ - rhs@,
    {
        proof {
            use_type_invariant(&self);
            use_type_invariant(&rhs);
        }
        if self.secs > rhs.secs {
            if self.nanos >= rhs.nanos {
                Some(Duration { secs: self.secs - rhs.secs, nanos: self.nanos - rhs.nanos })
            } else {
                Some(
                    Duration {
                        secs: self.secs - rhs.secs - 1,
                        nanos: self.nanos + NANOS_PER_SEC - rhs.nanos,
                    },
                )
            }
        } else if self.secs == rhs.secs && self.nanos >= rhs.nanos {
            Some(Duration { secs: 0, nanos: self.nanos - rhs.nanos })
        } else {
            None
        }
    }

    /// Subtracts `rhs` from `self`, clamping the difference to the
    /// duration domain.
    pub fn saturating_sub(self, rhs: Self) -> (r: Self)
        ensures
            r@ == clamp_to_duration(self@ - rhs@),
    {
        proof {
            use_type_invariant(&self);
        }
        match self.checked_sub(rhs) {
            Some(d) => d,
            None => Self::zero(),
        }
    }

    /// Feeds this duration's value to a hasher. The bytes written are a
    /// function of the view alone, so equal durations hash equal.
    pub fn hash(&self, state: &mut DefaultHasher)
        ensures
            final(state)@ == old(state)@ + duration_hash_writes(self@),
    {
        proof {
            use_type_invariant(self);
            lemma_duration_fields_from_view(*self);
        }
        let secs_bytes: Vec<u8> = u64_to_le_bytes(self.secs);
        let nanos_bytes: Vec<u8> = u32_to_le_bytes(self.nanos);
        state.write(secs_bytes.as_slice());
        state.write(nanos_bytes.as_slice());
        proof {
            assert(final(state)@ =~= old(state)@ + duration_hash_writes(self@));
        }
    }
}

impl PartialOrd for Duration {
    fn partial_cmp(&self, other: &Self) -> (r: Option<core::cmp::Ordering>) {
        proof {
            use_type_invariant(self);
            use_type_invariant(other);
        }
        if self.secs < other.secs {
            Some(core::cmp::Ordering::Less)
        } else if self.secs > other.secs {
            Some(core::cmp::Ordering::Greater)
        } else if self.nanos < other.nanos {
            Some(core::cmp::Ordering::Less)
        } else if self.nanos > other.nanos {
            Some(core::cmp::Ordering::Greater)
        } else {
            Some(core::cmp::Ordering::Equal)
        }
    }
}

impl vstd::std_specs::cmp::PartialOrdSpecImpl for Duration {
    open spec fn obeys_partial_cmp_spec() -> bool {
        true
    }

    open spec fn partial_cmp_spec(&self, other: &Self) -> Option<core::cmp::Ordering> {
        if self@ < other@ {
            Some(core::cmp::Ordering::Less)
        } else if self@ > other@ {
            Some(core::cmp::Ordering::Greater)
        } else {
            Some(core::cmp::Ordering::Equal)
        }
    }
}

/// The byte sequences a duration of `v` nanoseconds feeds to a hasher:
/// the seconds as eight little-endian bytes, then the sub-second
/// nanoseconds as four.
pub open spec fn duration_hash_writes(v: int) -> Seq<Seq<u8>> {
    seq![
        spec_u64_to_le_bytes((v / 1_000_000_000) as u64),
        spec_u32_to_le_bytes((v % 1_000_000_000) as u32),
    ]
}

/// A well-formed duration's fields are recovered from its view by
/// division and remainder.
proof fn lemma_duration_fields_from_view(d: Duration)
    requires
        d.wf(),
    ensures
        d@ / 1_000_000_000 == d.secs,
        d@ % 1_000_000_000 == d.nanos,
{
    lemma_fundamental_div_mod_converse(d@, 1_000_000_000, d.secs as int, d.nanos as int);
}

/// Well-formed durations with the same view are the same value.
pub proof fn lemma_duration_view_injective(a: Duration, b: Duration)
    requires
        a.wf(),
        b.wf(),
        a@ == b@,
    ensures
        a == b,
{
    lemma_duration_fields_from_view(a);
    lemma_duration_fields_from_view(b);
}

/// Every duration's view is non-negative, well-formed or not.
pub broadcast proof fn lemma_duration_view_nonneg(d: Duration)
    ensures
        0 <= #[trigger] d@,
{
}

/// A well-formed duration's view lies in the duration domain.
pub proof fn lemma_duration_view_in_range(d: Duration)
    requires
        d.wf(),
    ensures
        0 <= d@ <= duration_max_nanos(),
{
}

} // verus!
