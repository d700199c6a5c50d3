//! A deterministic, paused clock for driving a stopwatch in tests and
//! simulations.

use crate::duration::{duration_hash_writes, duration_max_nanos, Duration};
use crate::instant::Instant;
use std::collections::hash_map::DefaultHasher;
use vstd::prelude::*;

verus! {

/// An [`Instant`] on a virtual timeline.
///
/// The timeline starts at an epoch (position zero) and spans the same
/// range as [`Duration`]; a value is the offset of its point from the
/// epoch. The clock is paused: [`Instant::now`] always answers with the
/// epoch, and anchors anywhere on the timeline are built explicitly with
/// [`VirtualInstant::epoch`], [`VirtualInstant::from_offset`] and the
/// trait's arithmetic.
#[derive(Clone, Copy, Debug, PartialEq, Eq, Structural)]
pub struct VirtualInstant {
    offset: Duration,
}

impl VirtualInstant {
    /// Returns the origin of the virtual timeline.
    pub fn epoch() -> (r: Self)
        ensures
            r.time() == 0,
    {
        VirtualInstant { offset: Duration::zero() }
    }

    /// Returns the instant `offset` past the epoch.
    pub fn from_offset(offset: Duration) -> (r: Self)
        ensures
            r.time() == offset@,
    {
        VirtualInstant { offset }
    }
}

impl Instant for VirtualInstant {
    /// A virtual instant's position is its offset from the epoch.
    closed spec fn time(&self) -> int {
        self.offset@
    }

    /// The virtual timeline spans exactly the duration domain.
    open spec fn in_domain(t: int) -> bool {
        0 <= t <= duration_max_nanos()
    }

    /// A virtual instant hashes as the duration separating it from the
    /// epoch.
    open spec fn hash_writes(t: int) -> Seq<Seq<u8>> {
        duration_hash_writes(t)
    }

    /// The clock is paused at the epoch.
    fn now() -> (r: Self)
        ensures
            r.time() == 0,
    {
        Self::epoch()
    }

    fn checked_add(&self, duration: Duration) -> (r: Option<Self>) {
        proof {
            broadcast use crate::duration::lemma_duration_view_nonneg;
        }
        match self.offset.checked_add(duration) {
            Some(offset) => Some(VirtualInstant { offset }),
            None => None,
        }
    }

    fn checked_sub(&self, duration: Duration) -> (r: Option<Self>) {
        proof {
            use_type_invariant(&self.offset);
            crate::duration::lemma_duration_view_in_range(self.offset);
            broadcast use crate::duration::lemma_duration_view_nonneg;
        }
        match self.offset.checked_sub(duration) {
            Some(offset) => Some(VirtualInstant { offset }),
            None => None,
        }
    }

    fn saturating_duration_since(&self, earlier: Self) -> (r: Duration) {
        self.offset.saturating_sub(earlier.offset)
    }

    fn hash(&self, state: &mut DefaultHasher) {
        self.offset.hash(state);
    }
}

} // verus!
