//! The laws the library upholds, stated and proved once, in general.
//!
//! Each proof function here states a property over all values of its
//! parameters; the executable operations' contracts are phrased in the
//! same spec functions, so the laws carry over to every call.

use crate::canonical::{canon_hash_writes, canon_view};
use crate::duration::{clamp_to_duration, duration_max_nanos, Duration};
use crate::instant::Instant;
use crate::stopwatch::Stopwatch;
use vstd::prelude::*;

verus! {

/// Law: semantic equality of stopwatches is reflexive.
pub proof fn lemma_equiv_reflexive<I: Instant>(a: Stopwatch<I>)
    ensures
        a.equiv(a),
{
}

/// Law: semantic equality of stopwatches is symmetric.
pub proof fn lemma_equiv_symmetric<I: Instant>(a: Stopwatch<I>, b: Stopwatch<I>)
    ensures
        a.equiv(b) == b.equiv(a),
{
}

/// Law: semantic equality of stopwatches is transitive.
pub proof fn lemma_equiv_transitive<I: Instant>(a: Stopwatch<I>, b: Stopwatch<I>, c: Stopwatch<I>)
    requires
        a.equiv(b),
        b.equiv(c),
    ensures
        a.equiv(c),
{
}

/// Law: equal stopwatches hash equal. Semantically equal stopwatches
/// feed a hasher identical byte sequences, whatever their internal
/// representation.
pub proof fn lemma_equiv_hash_writes_equal<I: Instant>(a: Stopwatch<I>, b: Stopwatch<I>)
    requires
        a.equiv(b),
    ensures
        canon_hash_writes::<I>(canon_view(a)) == canon_hash_writes::<I>(canon_view(b)),
{
}

/// Law: for every state, the elapsed time measured at an anchor is
/// monotonically non-decreasing as the anchor advances.
pub proof fn lemma_elapsed_monotonic<I: Instant>(sw: Stopwatch<I>, t1: int, t2: int)
    requires
        t1 <= t2,
    ensures
        sw.spec_elapsed(t1) <= sw.spec_elapsed(t2),
{
}

/// Law: when a checked addition succeeds (the sum stays in the duration
/// domain), the sum it stores is exactly what the saturating addition
/// stores.
pub proof fn lemma_checked_add_matches_saturating<I: Instant>(sw: Stopwatch<I>, d: Duration)
    requires
        sw.elapsed@ + d@ <= duration_max_nanos(),
    ensures
        sw.elapsed@ + d@ == clamp_to_duration(sw.elapsed@ + d@),
{
    broadcast use crate::duration::lemma_duration_view_nonneg;
}

/// Law: when a checked elapsed query succeeds, its value is exactly
/// what the saturating query answers at the same anchor.
pub proof fn lemma_checked_elapsed_matches_elapsed<I: Instant>(
    sw: Stopwatch<I>,
    t: int,
    d: Duration,
)
    requires
        sw.spec_checked_elapsed_outcome(t, Some(d)),
    ensures
        d@ == sw.spec_elapsed(t),
{
    broadcast use crate::duration::lemma_duration_view_nonneg;
}

/// Law: when a checked subtraction succeeds, its result matches the
/// saturating subtraction at the same anchor exactly, in both the
/// elapsed time and the restarted interval.
pub proof fn lemma_checked_sub_matches_saturating<I: Instant>(
    sw: Stopwatch<I>,
    d: int,
    anchor: I,
    checked: Stopwatch<I>,
    saturated: Stopwatch<I>,
)
    requires
        0 <= d,
        sw.spec_checked_sub_outcome(d, anchor, Some(checked)),
        sw.spec_saturating_sub_outcome(d, anchor, saturated),
    ensures
        checked.elapsed@ == saturated.elapsed@,
        checked.start == saturated.start,
{
    broadcast use crate::duration::lemma_duration_view_nonneg;
}

/// Law: when a checked stop succeeds, the elapsed time it stores is
/// exactly what the saturating stop at the same anchor stores.
pub proof fn lemma_checked_stop_matches_stop<I: Instant>(
    pre: Stopwatch<I>,
    t: int,
    post: Stopwatch<I>,
    ok: bool,
)
    requires
        pre.spec_checked_stop_outcome(t, post, ok),
        ok,
    ensures
        post.elapsed@ == pre.spec_elapsed(t),
        post.start is None,
{
    broadcast use crate::duration::lemma_duration_view_nonneg;
}

/// Law: the subtraction family never observes an anchor before the
/// running interval's start: an anchor strictly before the start acts
/// exactly as the start itself, so such anchors are interchangeable.
pub proof fn lemma_sub_anchor_clamps_to_start<I: Instant>(
    sw: Stopwatch<I>,
    d: int,
    a: I,
    s: I,
    r: Option<Stopwatch<I>>,
)
    requires
        sw.start == Some(s),
        a.time() < s.time(),
    ensures
        sw.spec_checked_sub_outcome(d, a, r) == sw.spec_checked_sub_outcome(d, s, r),
{
}

/// Law: a checked stop that fails leaves the stopwatch exactly as it
/// was.
pub proof fn lemma_checked_stop_failure_preserves<I: Instant>(
    pre: Stopwatch<I>,
    t: int,
    post: Stopwatch<I>,
    ok: bool,
)
    requires
        pre.spec_checked_stop_outcome(t, post, ok),
        !ok,
    ensures
        post == pre,
{
}

/// Law: clamping never leaves the duration domain.
pub proof fn lemma_clamp_in_domain(x: int)
    ensures
        0 <= clamp_to_duration(x) <= duration_max_nanos(),
{
}

/// Law: a saturating subtraction never fails and its result is clamped
/// to the duration domain.
pub proof fn lemma_saturating_sub_in_domain<I: Instant>(
    sw: Stopwatch<I>,
    d: int,
    anchor: I,
    r: Stopwatch<I>,
)
    requires
        sw.spec_saturating_sub_outcome(d, anchor, r),
    ensures
        0 <= r.elapsed@ <= duration_max_nanos(),
{
}

} // verus!
