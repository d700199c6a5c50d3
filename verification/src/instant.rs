//! The timekeeping capability a stopwatch measures against.

use crate::duration::{clamp_to_duration, Duration};
use std::collections::hash_map::DefaultHasher;
use vstd::prelude::*;

verus! {

/// A trait outlining the behavior of a timekeeping type.
///
/// A stopwatch works with any type that implements `Instant`. An
/// implementor is an opaque, copyable point on a timeline; the trait's
/// contracts speak of it through `time`, its position on that timeline in
/// nanoseconds, and `in_domain`, the set of positions the type can
/// represent.
///
/// No ordering operator is assumed to exist on instants: ordering between
/// two points is derived by comparing the two directional
/// [`saturating_duration_since`](Instant::saturating_duration_since)
/// measurements.
pub trait Instant: Copy + Sized {
    /// The position of this instant on its timeline, in nanoseconds.
    spec fn time(&self) -> int;

    /// Which timeline positions the implementing type can represent.
    spec fn in_domain(t: int) -> bool;

    /// The byte sequences an instant at position `t` feeds to a hasher,
    /// a function of the position alone, so that instants at the same
    /// position hash equal.
    spec fn hash_writes(t: int) -> Seq<Seq<u8>>;

    /// Returns the current instant in time.
    fn now() -> Self;

    /// Returns an instant ahead of `self` by the given duration.
    ///
    /// Returns `None` exactly when the new position is not representable
    /// by the implementing type.
    fn checked_add(&self, duration: Duration) -> (r: Option<Self>)
        ensures
            (r is Some) <==> Self::in_domain(self.time() + duration@),
            r matches Some(p) ==> p.time() == self.time() + duration@,
    ;

    /// Returns an instant previous to `self` by the given duration.
    ///
    /// Returns `None` exactly when the new position is not representable
    /// by the implementing type.
    fn checked_sub(&self, duration: Duration) -> (r: Option<Self>)
        ensures
            (r is Some) <==> Self::in_domain(self.time() - duration@),
            r matches Some(p) ==> p.time() == self.time() - duration@,
    ;

    /// Returns the duration that has elapsed since `earlier`: the
    /// difference of the two positions, floored at zero when `earlier` is
    /// ahead of `self` and clamped to the duration domain.
    fn saturating_duration_since(&self, earlier: Self) -> (r: Duration)
        ensures
            r@ == clamp_to_duration(self.time() - earlier.time()),
    ;

    /// Feeds this instant's position to a hasher.
    fn hash(&self, state: &mut DefaultHasher)
        ensures
            final(state)@ == old(state)@ + Self::hash_writes(self.time()),
    ;
}

} // verus!
