//! The arithmetic engine: a stopwatch value and every operation that
//! reads or updates it.

use crate::canonical::{canon_hash_writes, canon_view, lemma_canonical_eq_denotes, Canonical};
use crate::duration::{clamp_to_duration, duration_max_nanos, Duration};
use crate::instant::Instant;
use std::collections::hash_map::DefaultHasher;
use vstd::prelude::*;

verus! {

/// A stopwatch measures and accumulates elapsed time between starts and
/// stops.
///
/// Stopwatches work with any type that implements [`Instant`].
///
/// The pair `(elapsed, start)` is not unique per logical value: moving a
/// span of time from `elapsed` into an equally shifted `start` leaves the
/// observable behavior unchanged. Equality is therefore defined through
/// the canonical projection in [`crate::canonical`], never through field
/// comparison.
#[derive(Clone, Copy, Debug)]
pub struct Stopwatch<I: Instant> {
    /// Accumulated elapsed time from completed measurement intervals.
    pub elapsed: Duration,
    /// The instant at which the stopwatch was started, if it is running.
    /// Otherwise, `None`.
    pub start: Option<I>,
}

impl<I: Instant> Stopwatch<I> {
    /// The logical elapsed time as of timeline position `t`, before any
    /// saturation of the total: the stored elapsed time, plus the
    /// zero-floored span from `start` to `t` when running.
    pub open spec fn spec_raw_elapsed(self, t: int) -> int {
        match self.start {
            None => self.elapsed@,
            Some(s) => self.elapsed@ + clamp_to_duration(t - s.time()),
        }
    }

    /// The logical elapsed time as of timeline position `t`, saturated
    /// into the duration domain: what `elapsed_at` answers.
    pub open spec fn spec_elapsed(self, t: int) -> int {
        clamp_to_duration(self.spec_raw_elapsed(t))
    }

    /// Timeline position `t` clamped to be no earlier than the running
    /// interval's start; `t` itself when stopped.
    pub open spec fn spec_clamped_time(self, t: int) -> int {
        match self.start {
            None => t,
            Some(s) => if t < s.time() {
                s.time()
            } else {
                t
            },
        }
    }

    /// The anchor instant the subtraction family actually uses: `anchor`
    /// saturated to the last start.
    pub open spec fn spec_clamped_anchor(self, anchor: I) -> I {
        match self.start {
            None => anchor,
            Some(s) => if anchor.time() < s.time() {
                s
            } else {
                anchor
            },
        }
    }

    /// What `checked_elapsed_at` answers at timeline position `t`: the
    /// raw elapsed time when it fits the duration domain, no value
    /// otherwise.
    pub open spec fn spec_checked_elapsed_outcome(self, t: int, r: Option<Duration>) -> bool {
        if self.spec_raw_elapsed(t) <= duration_max_nanos() {
            r matches Some(d) && d@ == self.spec_raw_elapsed(t)
        } else {
            r is None
        }
    }

    /// Returns a stopped stopwatch with zero elapsed time.
    pub fn new() -> (r: Self)
        ensures
            r.elapsed@ == 0,
            r.start is None,
    {
        Self::with_elapsed(Duration::zero())
    }

    /// Returns a running stopwatch initialized with zero elapsed time,
    /// started at the current instant.
    pub fn new_started() -> (r: Self)
        ensures
            r.elapsed@ == 0,
            r.start is Some,
    {
        Self::with_elapsed_started(Duration::zero())
    }

    /// Returns a stopwatch initialized with zero elapsed time, started
    /// at the given instant.
    pub fn new_started_at(start: I) -> (r: Self)
        ensures
            r.elapsed@ == 0,
            r.start == Some(start),
    {
        Self::from_raw(Duration::zero(), Some(start))
    }

    /// Returns a stopped stopwatch with the given elapsed time.
    pub fn with_elapsed(elapsed: Duration) -> (r: Self)
        ensures
            r.elapsed == elapsed,
            r.start is None,
    {
        Self::from_raw(elapsed, None)
    }

    /// Returns a running stopwatch initialized with the given elapsed
    /// time, started at the current instant.
    pub fn with_elapsed_started(elapsed: Duration) -> (r: Self)
        ensures
            r.elapsed == elapsed,
            r.start is Some,
    {
        Self::from_raw(elapsed, Some(I::now()))
    }

    /// Returns a stopwatch from its raw parts.
    pub fn from_raw(elapsed: Duration, start: Option<I>) -> (r: Self)
        ensures
            r.elapsed == elapsed,
            r.start == start,
    {
        Self { elapsed, start }
    }

    /// Returns `true` if the stopwatch is running.
    pub fn is_running(&self) -> (r: bool)
        ensures
            r == (self.start is Some),
    {
        self.start.is_some()
    }

    /// Returns `true` if the stopwatch is stopped.
    pub fn is_stopped(&self) -> (r: bool)
        ensures
            r == (self.start is None),
    {
        !self.is_running()
    }

    /// Returns the total time elapsed as of the current instant. If
    /// overflow occurs, the result saturates to the longest representable
    /// duration.
    pub fn elapsed(&self) -> (r: Duration)
        ensures
            exists|t: int| r@ == self.spec_elapsed(t),
            r@ >= clamp_to_duration(self.elapsed@),
            self.start is None ==> r == self.elapsed,
    {
        let now: I = I::now();
        let r: Duration = self.elapsed_at(now);
        proof {
            use_type_invariant(&self.elapsed);
            assert(r@ == self.spec_elapsed(now.time()));
            if self.start is None {
                use_type_invariant(&r);
                crate::duration::lemma_duration_view_in_range(self.elapsed);
                crate::duration::lemma_duration_view_injective(r, self.elapsed);
            }
        }
        r
    }

    /// Returns the total time elapsed, measured as if the current time
    /// were `anchor`. If overflow occurs, the result saturates to the
    /// longest representable duration.
    ///
    /// The query does not clamp `anchor`: an anchor before the last start
    /// simply contributes a zero-length running interval.
    pub fn elapsed_at(&self, anchor: I) -> (r: Duration)
        ensures
            r@ == self.spec_elapsed(anchor.time()),
    {
        proof {
            broadcast use crate::duration::lemma_duration_view_nonneg;
        }
        match self.checked_elapsed_at(anchor) {
            Some(d) => d,
            None => Duration::max_value(),
        }
    }

    /// Computes the total time elapsed as of the current instant; no
    /// value if overflow occurred.
    pub fn checked_elapsed(&self) -> (r: Option<Duration>)
        ensures
            exists|t: int| self.spec_checked_elapsed_outcome(t, r),
            self.start is None ==> r == Some(self.elapsed),
    {
        let now: I = I::now();
        let r: Option<Duration> = self.checked_elapsed_at(now);
        proof {
            assert(self.spec_checked_elapsed_outcome(now.time(), r));
        }
        r
    }

    /// Computes the total time elapsed, measured as if the current time
    /// were `anchor`; no value if overflow occurred.
    pub fn checked_elapsed_at(&self, anchor: I) -> (r: Option<Duration>)
        ensures
            self.spec_checked_elapsed_outcome(anchor.time(), r),
            self.start is None ==> r == Some(self.elapsed),
    {
        proof {
            use_type_invariant(&self.elapsed);
            crate::duration::lemma_duration_view_in_range(self.elapsed);
        }
        let before_start: Duration = self.elapsed;
        if let Some(start) = self.start {
            let after_start: Duration = anchor.saturating_duration_since(start);
            before_start.checked_add(after_start)
        } else {
            Some(before_start)
        }
    }

    /// Starts measuring the time elapsed, from the current instant.
    pub fn start(&mut self)
        ensures
            final(self).elapsed == old(self).elapsed,
            final(self).start is Some,
    {
        self.start_at(I::now());
    }

    /// Starts measuring the time elapsed as if the current time were
    /// `anchor`. If the stopwatch is already running, the prior start is
    /// overwritten: the interval in progress is discarded, not
    /// accumulated.
    pub fn start_at(&mut self, anchor: I)
        ensures
            final(self).elapsed == old(self).elapsed,
            final(self).start == Some(anchor),
    {
        self.start = Some(anchor);
    }

    /// Stops measuring the time elapsed since the last start, as of the
    /// current instant. Overflow of the new elapsed time saturates to the
    /// longest representable duration. No effect if already stopped.
    pub fn stop(&mut self)
        ensures
            final(self).start is None,
            old(self).start is None ==> final(self).elapsed == old(self).elapsed,
            exists|t: int| final(self).elapsed@ == old(self).spec_elapsed(t),
    {
        let now: I = I::now();
        self.stop_at(now);
        proof {
            assert(final(self).elapsed@ == old(self).spec_elapsed(now.time()));
        }
    }

    /// Stops measuring the time elapsed since the last start as if the
    /// current time were `anchor`.
    ///
    /// If `anchor` is earlier than the last start, the elapsed time does
    /// not grow; overflow of the new elapsed time saturates to the
    /// longest representable duration.
    pub fn stop_at(&mut self, anchor: I)
        ensures
            final(self).start is None,
            old(self).start is None ==> final(self).elapsed == old(self).elapsed,
            final(self).elapsed@ == old(self).spec_elapsed(anchor.time()),
    {
        proof {
            use_type_invariant(&self.elapsed);
            crate::duration::lemma_duration_view_in_range(self.elapsed);
        }
        if let Some(start) = self.start {
            let after_start: Duration = anchor.saturating_duration_since(start);
            self.elapsed = self.elapsed.saturating_add(after_start);
            self.start = None;
        }
    }

    /// Tries to stop the stopwatch as of the current instant. If the new
    /// elapsed time overflows, returns `false` without mutating the
    /// stopwatch.
    pub fn checked_stop(&mut self) -> (ok: bool)
        ensures
            exists|t: int|
                old(self).spec_checked_stop_outcome(t, *final(self), ok),
            old(self).start is None ==> ok && *final(self) == *old(self),
    {
        let now: I = I::now();
        let ok: bool = self.checked_stop_at(now);
        proof {
            assert(old(self).spec_checked_stop_outcome(now.time(), *final(self), ok));
        }
        ok
    }

    /// What `checked_stop_at` leaves behind at timeline position `t`:
    /// success exactly when the new elapsed time fits the duration
    /// domain, and no mutation on failure.
    pub open spec fn spec_checked_stop_outcome(self, t: int, post: Self, ok: bool) -> bool {
        &&& ok == (self.spec_raw_elapsed(t) <= duration_max_nanos())
        &&& if ok {
            post.start is None && post.elapsed@ == self.spec_raw_elapsed(t)
        } else {
            post == self
        }
    }

    /// Tries to stop the stopwatch as if the current time were `anchor`.
    /// If the new elapsed time overflows, returns `false` without
    /// mutating the stopwatch.
    pub fn checked_stop_at(&mut self, anchor: I) -> (ok: bool)
        ensures
            old(self).spec_checked_stop_outcome(anchor.time(), *final(self), ok),
            old(self).start is None ==> ok && *final(self) == *old(self),
    {
        proof {
            use_type_invariant(&self.elapsed);
            crate::duration::lemma_duration_view_in_range(self.elapsed);
        }
        if let Some(start) = self.start {
            let after_start: Duration = anchor.saturating_duration_since(start);
            match self.elapsed.checked_add(after_start) {
                Some(new_elapsed) => {
                    self.elapsed = new_elapsed;
                    self.start = None;
                },
                None => {
                    return false;
                },
            }
        }
        true
    }

    /// Toggles whether the stopwatch is running or stopped: starts it
    /// when stopped, stops it (saturating) when running, as of the
    /// current instant.
    pub fn toggle(&mut self)
        ensures
            (final(self).start is Some) == (old(self).start is None),
            old(self).start is None ==> final(self).elapsed == old(self).elapsed,
            exists|t: int| final(self).elapsed@ == old(self).spec_elapsed(t),
    {
        let pre_elapsed: Duration = self.elapsed;
        let now: I = I::now();
        self.toggle_at(now);
        proof {
            use_type_invariant(&pre_elapsed);
            crate::duration::lemma_duration_view_in_range(pre_elapsed);
            assert(final(self).elapsed@ == old(self).spec_elapsed(now.time()));
        }
    }

    /// Toggles whether the stopwatch is running or stopped, as if the
    /// current time were `anchor`.
    pub fn toggle_at(&mut self, anchor: I)
        ensures
            (final(self).start is Some) == (old(self).start is None),
            old(self).start is None ==> final(self).elapsed == old(self).elapsed
                && final(self).start == Some(anchor),
            old(self).start is Some ==> final(self).start is None
                && final(self).elapsed@ == old(self).spec_elapsed(anchor.time()),
    {
        if self.is_running() {
            self.stop_at(anchor);
        } else {
            self.start_at(anchor);
        }
    }

    /// Tries to toggle whether the stopwatch is running or stopped, as
    /// of the current instant. If the new elapsed time overflows, returns
    /// `false` without mutating the stopwatch.
    pub fn checked_toggle(&mut self) -> (ok: bool)
        ensures
            exists|t: int|
                old(self).spec_checked_toggle_outcome(t, anchor_of(final(self).start), *final(self), ok),
            old(self).start is None ==> ok,
    {
        let now: I = I::now();
        let ok: bool = self.checked_toggle_at(now);
        proof {
            let a = anchor_of(final(self).start);
            if old(self).start is None {
                assert(final(self).start == Some(now));
                assert(a == now);
            }
            assert(old(self).spec_checked_toggle_outcome(now.time(), a, *final(self), ok));
        }
        ok
    }

    /// What `checked_toggle_at` leaves behind: a start when stopped, a
    /// checked stop when running.
    pub open spec fn spec_checked_toggle_outcome(self, t: int, anchor: I, post: Self, ok: bool) -> bool {
        match self.start {
            None => ok && post.elapsed == self.elapsed && post.start == Some(anchor),
            Some(_) => self.spec_checked_stop_outcome(t, post, ok),
        }
    }

    /// Tries to toggle whether the stopwatch is running or stopped, as
    /// if the current time were `anchor`. If the new elapsed time
    /// overflows, returns `false` without mutating the stopwatch.
    pub fn checked_toggle_at(&mut self, anchor: I) -> (ok: bool)
        ensures
            old(self).spec_checked_toggle_outcome(anchor.time(), anchor, *final(self), ok),
    {
        if self.is_running() {
            self.checked_stop_at(anchor)
        } else {
            self.start_at(anchor);
            true
        }
    }

    /// Stops the stopwatch and resets the elapsed time to zero.
    pub fn reset(&mut self)
        ensures
            final(self).elapsed@ == 0,
            final(self).start is None,
    {
        *self = Self::new();
    }

    /// Resets the elapsed time to zero without affecting whether the
    /// stopwatch is running; a running interval restarts at the current
    /// instant.
    pub fn reset_in_place(&mut self)
        ensures
            final(self).elapsed@ == 0,
            (final(self).start is Some) == (old(self).start is Some),
    {
        self.reset_in_place_at(I::now());
    }

    /// Resets the elapsed time to zero without affecting whether the
    /// stopwatch is running; a running interval restarts at `start`.
    pub fn reset_in_place_at(&mut self, start: I)
        ensures
            final(self).elapsed@ == 0,
            old(self).start is Some ==> final(self).start == Some(start),
            old(self).start is None ==> final(self).start is None,
    {
        self.set_in_place_at(Duration::zero(), start);
    }

    /// Stops the stopwatch and sets the total elapsed time to `new`.
    pub fn set(&mut self, new: Duration)
        ensures
            final(self).elapsed == new,
            final(self).start is None,
    {
        *self = Self::with_elapsed(new);
    }

    /// Sets the total elapsed time to `new` without affecting whether
    /// the stopwatch is running; a running interval restarts at the
    /// current instant.
    pub fn set_in_place(&mut self, new: Duration)
        ensures
            final(self).elapsed == new,
            (final(self).start is Some) == (old(self).start is Some),
    {
        self.set_in_place_at(new, I::now());
    }

    /// Sets the total elapsed time to `new` as if the current time were
    /// `anchor`, without affecting whether the stopwatch is running; a
    /// running interval restarts at `anchor`.
    pub fn set_in_place_at(&mut self, new: Duration, anchor: I)
        ensures
            final(self).elapsed == new,
            old(self).start is Some ==> final(self).start == Some(anchor),
            old(self).start is None ==> final(self).start is None,
    {
        let was_running: bool = self.is_running();
        self.set(new);
        if was_running {
            self.start_at(anchor);
        }
    }

    /// Stops the stopwatch and sets the total elapsed time to `new`,
    /// returning the previous elapsed time as of the current instant.
    pub fn replace(&mut self, new: Duration) -> (prev: Duration)
        ensures
            final(self).elapsed == new,
            final(self).start is None,
            exists|t: int| prev@ == old(self).spec_elapsed(t),
            old(self).start is None ==> prev == old(self).elapsed,
    {
        self.replace_at(new, I::now())
    }

    /// Stops the stopwatch and sets the total elapsed time to `new`,
    /// returning the previous elapsed time as if the current time were
    /// `anchor`.
    pub fn replace_at(&mut self, new: Duration, anchor: I) -> (prev: Duration)
        ensures
            final(self).elapsed == new,
            final(self).start is None,
            prev@ == old(self).spec_elapsed(anchor.time()),
            old(self).start is None ==> prev == old(self).elapsed,
    {
        let prev: Duration = self.elapsed_at(anchor);
        proof {
            if self.start is None {
                use_type_invariant(&prev);
                use_type_invariant(&self.elapsed);
                crate::duration::lemma_duration_view_in_range(self.elapsed);
                crate::duration::lemma_duration_view_injective(prev, self.elapsed);
            }
        }
        self.set(new);
        prev
    }

    /// Adds `dur` to the stored elapsed time, clamping the sum to the
    /// duration domain. The running interval, if any, is untouched.
    pub fn saturating_add(self, dur: Duration) -> (r: Self)
        ensures
            r.elapsed@ == clamp_to_duration(self.elapsed@ + dur@),
            r.start == self.start,
    {
        Self { elapsed: self.elapsed.saturating_add(dur), start: self.start }
    }

    /// Adds `dur` to the stored elapsed time; no value if the sum leaves
    /// the duration domain. The running interval, if any, is untouched.
    pub fn checked_add(self, dur: Duration) -> (r: Option<Self>)
        ensures
            (r is Some) <==> self.elapsed@ + dur@ <= duration_max_nanos(),
            r matches Some(sw) ==> sw.elapsed@ == self.elapsed@ + dur@ && sw.start == self.start,
    {
        match self.elapsed.checked_add(dur) {
            Some(elapsed) => Some(Self { elapsed, start: self.start }),
            None => None,
        }
    }

    /// Adds `dur` to the stored elapsed time. The sum must stay inside
    /// the duration domain; use [`checked_add`](Self::checked_add) or
    /// [`saturating_add`](Self::saturating_add) to handle overflow
    /// gracefully.
    pub fn add(self, dur: Duration) -> (r: Self)
        requires
            self.elapsed@ + dur@ <= duration_max_nanos(),
        ensures
            r.elapsed@ == self.elapsed@ + dur@,
            r.start == self.start,
    {
        match self.checked_add(dur) {
            Some(sw) => sw,
            None => vstd::pervasive::unreached(),
        }
    }

    /// The stored elapsed time after it has been synchronized with the
    /// running interval as of timeline position `t`, saturating: the
    /// value the subtraction family subtracts from.
    pub open spec fn spec_synced_elapsed(self, t: int) -> int {
        clamp_to_duration(self.spec_raw_elapsed(self.spec_clamped_time(t)))
    }

    /// What the saturating subtraction of `d` nanoseconds at `anchor`
    /// produces: the synchronized elapsed time minus `d`, floored at
    /// zero, with a running interval restarted at the clamped anchor.
    pub open spec fn spec_saturating_sub_outcome(self, d: int, anchor: I, r: Self) -> bool {
        &&& r.elapsed@ == clamp_to_duration(self.spec_synced_elapsed(anchor.time()) - d)
        &&& r.start == (match self.start {
            None => None,
            Some(_) => Some(self.spec_clamped_anchor(anchor)),
        })
    }

    /// What the checked subtraction of `d` nanoseconds at `anchor`
    /// produces: as the saturating form, but with no value (and no new
    /// state) when synchronization overflows or the subtraction
    /// underflows.
    pub open spec fn spec_checked_sub_outcome(self, d: int, anchor: I, r: Option<Self>) -> bool {
        let synced = self.spec_raw_elapsed(self.spec_clamped_time(anchor.time()));
        if synced <= duration_max_nanos() && synced - d >= 0 {
            r matches Some(sw) && sw.elapsed@ == synced - d && sw.start == (match self.start {
                None => None,
                Some(_) => Some(self.spec_clamped_anchor(anchor)),
            })
        } else {
            r is None
        }
    }

    /// Subtracts `dur` from the total elapsed time as of the current
    /// instant, flooring the difference at zero. A running interval is
    /// first folded into the elapsed time (saturating) and restarted, so
    /// the subtraction acts on an up-to-date value.
    pub fn saturating_sub(self, dur: Duration) -> (r: Self)
        ensures
            exists|a: I| self.spec_saturating_sub_outcome(dur@, a, r),
            (r.start is Some) == (self.start is Some),
    {
        let now: I = I::now();
        let r: Self = self.saturating_sub_at(dur, now);
        proof {
            assert(self.spec_saturating_sub_outcome(dur@, now, r));
        }
        r
    }

    /// Subtracts `dur` from the total elapsed time as if the current
    /// time were `anchor`, flooring the difference at zero.
    ///
    /// `anchor` saturates to the last start, the running interval is
    /// folded into the elapsed time (saturating), the subtraction is
    /// applied, and a running stopwatch restarts at the clamped anchor.
    pub fn saturating_sub_at(self, dur: Duration, anchor: I) -> (r: Self)
        ensures
            self.spec_saturating_sub_outcome(dur@, anchor, r),
            (r.start is Some) == (self.start is Some),
    {
        let mut sw: Self = self;
        let mut clamped: I = anchor;
        sw.saturate_anchor_to_start(&mut clamped);
        sw.saturating_sync_elapsed_at(clamped);
        proof {
            use_type_invariant(&self.elapsed);
            crate::duration::lemma_duration_view_in_range(self.elapsed);
        }
        sw.elapsed = sw.elapsed.saturating_sub(dur);
        sw
    }

    /// Subtracts `dur` from the total elapsed time as of the current
    /// instant; no value if synchronization overflows or the subtraction
    /// underflows.
    pub fn checked_sub(self, dur: Duration) -> (r: Option<Self>)
        ensures
            exists|a: I| self.spec_checked_sub_outcome(dur@, a, r),
            r matches Some(sw) ==> (sw.start is Some) == (self.start is Some),
    {
        let now: I = I::now();
        let r: Option<Self> = self.checked_sub_at(dur, now);
        proof {
            assert(self.spec_checked_sub_outcome(dur@, now, r));
        }
        r
    }

    /// Subtracts `dur` from the total elapsed time as if the current
    /// time were `anchor`; no value if synchronization overflows or the
    /// subtraction underflows.
    ///
    /// `anchor` saturates to the last start. On failure no new state is
    /// produced.
    pub fn checked_sub_at(self, dur: Duration, anchor: I) -> (r: Option<Self>)
        ensures
            self.spec_checked_sub_outcome(dur@, anchor, r),
            r matches Some(sw) ==> (sw.start is Some) == (self.start is Some),
    {
        let mut sw: Self = self;
        let mut clamped: I = anchor;
        sw.saturate_anchor_to_start(&mut clamped);
        if !sw.checked_sync_elapsed_at(clamped) {
            return None;
        }
        proof {
            use_type_invariant(&self.elapsed);
            crate::duration::lemma_duration_view_in_range(self.elapsed);
        }
        match sw.elapsed.checked_sub(dur) {
            Some(elapsed) => {
                sw.elapsed = elapsed;
                Some(sw)
            },
            None => None,
        }
    }

    /// Subtracts `dur` from the total elapsed time of a stopped
    /// stopwatch. The difference must stay at or above zero; on a running
    /// stopwatch, whose in-progress interval depends on the current
    /// instant, use [`checked_sub`](Self::checked_sub) or
    /// [`saturating_sub`](Self::saturating_sub).
    pub fn sub(self, dur: Duration) -> (r: Self)
        requires
            self.start is None,
            dur@ <= self.elapsed@,
        ensures
            r.elapsed@ == self.elapsed@ - dur@,
            r.start is None,
    {
        proof {
            use_type_invariant(&self.elapsed);
            crate::duration::lemma_duration_view_in_range(self.elapsed);
        }
        match self.checked_sub(dur) {
            Some(sw) => sw,
            None => vstd::pervasive::unreached(),
        }
    }

    /// Clamps `anchor` so that when the stopwatch is running, the anchor
    /// is no earlier than the running interval's start.
    ///
    /// Instants carry no native ordering, so the two points are ordered
    /// by measuring their difference in both directions.
    fn saturate_anchor_to_start(&self, anchor: &mut I)
        ensures
            *final(anchor) == self.spec_clamped_anchor(*old(anchor)),
    {
        if let Some(start) = self.start {
            let future: Duration = anchor.saturating_duration_since(start);
            let past: Duration = start.saturating_duration_since(*anchor);
            if future < past {
                *anchor = start;
            }
        }
    }

    /// Folds the running interval as of `anchor` into the stored elapsed
    /// time, saturating, and restarts the interval at `anchor`. No effect
    /// when stopped.
    fn saturating_sync_elapsed_at(&mut self, anchor: I)
        ensures
            old(self).start is None ==> *final(self) == *old(self),
            old(self).start matches Some(s) ==> final(self).elapsed@ == clamp_to_duration(
                old(self).elapsed@ + clamp_to_duration(anchor.time() - s.time()),
            ) && final(self).start == Some(anchor),
    {
        if let Some(start) = self.start {
            let after_start: Duration = anchor.saturating_duration_since(start);
            self.elapsed = self.elapsed.saturating_add(after_start);
            self.start = Some(anchor);
        }
    }

    /// Folds the running interval as of `anchor` into the stored elapsed
    /// time and restarts the interval at `anchor`; `false`, with no
    /// mutation, if the new elapsed time overflows. No effect when
    /// stopped.
    fn checked_sync_elapsed_at(&mut self, anchor: I) -> (ok: bool)
        ensures
            old(self).start is None ==> ok && *final(self) == *old(self),
            old(self).start matches Some(s) ==> {
                &&& ok == (old(self).elapsed@ + clamp_to_duration(anchor.time() - s.time())
                    <= duration_max_nanos())
                &&& ok ==> final(self).elapsed@ == old(self).elapsed@ + clamp_to_duration(
                    anchor.time() - s.time(),
                ) && final(self).start == Some(anchor)
                &&& !ok ==> *final(self) == *old(self)
            },
    {
        if let Some(start) = self.start {
            let after_start: Duration = anchor.saturating_duration_since(start);
            match self.elapsed.checked_add(after_start) {
                Some(elapsed) => {
                    self.elapsed = elapsed;
                    self.start = Some(anchor);
                },
                None => {
                    return false;
                },
            }
        }
        true
    }
}

impl<I: Instant> Stopwatch<I> {
    /// Whether two stopwatches are semantically equal: their canonical
    /// forms coincide. This is what `==` on stopwatches means.
    pub open spec fn equiv(self, rhs: Self) -> bool {
        canon_view(self) == canon_view(rhs)
    }

    /// Feeds this stopwatch's canonical form to a hasher. The bytes
    /// written are a function of the canonical form alone, so equal
    /// stopwatches hash equal, whatever their representation and
    /// whenever they are observed.
    pub fn hash(&self, state: &mut DefaultHasher)
        ensures
            final(state)@ == old(state)@ + canon_hash_writes::<I>(canon_view(*self)),
    {
        let c: Canonical<I> = Canonical::new(*self);
        c.hash(state);
        proof {
            assert(c.spec_hash_writes() == canon_hash_writes::<I>(canon_view(*self)));
        }
    }
}

impl<I: Instant> PartialEq for Stopwatch<I> {
    /// Tests for semantic equality between `self` and `rhs`, through the
    /// canonical projection: never a direct field comparison.
    fn eq(&self, rhs: &Self) -> (r: bool) {
        let c1: Canonical<I> = Canonical::new(*self);
        let c2: Canonical<I> = Canonical::new(*rhs);
        proof {
            lemma_canonical_eq_denotes(c1, c2, canon_view(*self), canon_view(*rhs));
        }
        c1 == c2
    }
}

impl<I: Instant> vstd::std_specs::cmp::PartialEqSpecImpl for Stopwatch<I> {
    open spec fn obeys_eq_spec() -> bool {
        true
    }

    open spec fn eq_spec(&self, rhs: &Self) -> bool {
        self.equiv(*rhs)
    }
}

impl<I: Instant> Default for Stopwatch<I> {
    /// Returns the default stopwatch: stopped, with zero elapsed time.
    fn default() -> (r: Self)
        ensures
            r.elapsed@ == 0,
            r.start is None,
    {
        Self::new()
    }
}

/// The instant inside `start`, for speaking of a just-started stopwatch;
/// meaningful only when `start` holds one.
pub open spec fn anchor_of<I: Instant>(start: Option<I>) -> I
    recommends
        start is Some,
{
    start->0
}

} // verus!
