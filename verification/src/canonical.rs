//! The canonical projection: the normalized representative of a
//! stopwatch state that equality and hashing are defined through.
//!
//! A running stopwatch's `(elapsed, start)` pair is not unique for a
//! given logical trajectory: shifting stored duration into the start
//! anchor (when representable) produces an observably identical
//! stopwatch. The projection picks, among all equivalent
//! representations, the one where `elapsed` is folded entirely into the
//! start anchor, or declares the class unbounded when that folding is
//! not representable.

use crate::duration::{duration_hash_writes, Duration};
use crate::instant::Instant;
use crate::stopwatch::Stopwatch;
use core::hash::Hasher;
use std::collections::hash_map::DefaultHasher;
use vstd::prelude::*;
use vstd::std_specs::cmp::PartialEqSpec;

verus! {

/// The mathematical canonical form of a stopwatch state: what a state
/// means, stripped of its representation.
pub enum CanonView {
    /// Not running; carries the elapsed time in nanoseconds.
    Stopped { elapsed: int },
    /// Running, and `start - elapsed` is representable in the instant
    /// domain; carries that position, the virtual start had the elapsed
    /// time been zero.
    Bounded { origin: int },
    /// Running, but `start - elapsed` is not representable; all such
    /// states form one equivalence class.
    Unbounded,
}

/// The canonical form of `sw`, at the specification level.
pub open spec fn canon_view<I: Instant>(sw: Stopwatch<I>) -> CanonView {
    match sw.start {
        None => CanonView::Stopped { elapsed: sw.elapsed@ },
        Some(s) => if I::in_domain(s.time() - sw.elapsed@) {
            CanonView::Bounded { origin: s.time() - sw.elapsed@ }
        } else {
            CanonView::Unbounded
        },
    }
}

/// The byte sequences a stopwatch with canonical form `m` feeds to a
/// hasher: a tag for the variant, then the variant's payload.
pub open spec fn canon_hash_writes<I: Instant>(m: CanonView) -> Seq<Seq<u8>> {
    match m {
        CanonView::Stopped { elapsed } => seq![seq![0u8]] + duration_hash_writes(elapsed),
        CanonView::Bounded { origin } => seq![seq![1u8]] + I::hash_writes(origin),
        CanonView::Unbounded => seq![seq![2u8]],
    }
}

/// Returns whether two instants denote the same timeline position,
/// derived by measuring their difference in both directions: equal
/// exactly when neither precedes the other.
pub(crate) fn instant_eq<I: Instant>(lhs: I, rhs: I) -> (r: bool)
    ensures
        r == (lhs.time() == rhs.time()),
{
    let forward: Duration = lhs.saturating_duration_since(rhs);
    let backward: Duration = rhs.saturating_duration_since(lhs);
    proof {
        use_type_invariant(&forward);
        use_type_invariant(&backward);
        if forward@ == backward@ {
            crate::duration::lemma_duration_view_injective(forward, backward);
        }
    }
    forward == backward
}

/// The canonical form of a stopwatch state, as an executable value.
#[derive(Clone, Copy, Debug)]
pub enum Canonical<I: Instant> {
    /// The state is not running; the payload is its elapsed time.
    Stopped(Duration),
    /// The state is running and `start - elapsed` is representable; the
    /// payload is that instant.
    Bounded(I),
    /// The state is running and `start - elapsed` is not representable.
    Unbounded,
}

impl<I: Instant> Canonical<I> {
    /// Whether this executable canonical form denotes the mathematical
    /// canonical form `m`.
    pub open spec fn denotes(self, m: CanonView) -> bool {
        match self {
            Canonical::Stopped(d) => m matches CanonView::Stopped { elapsed } && d@ == elapsed,
            Canonical::Bounded(p) => m matches CanonView::Bounded { origin } && p.time() == origin,
            Canonical::Unbounded => m is Unbounded,
        }
    }

    /// Derives the canonical form of `sw`.
    pub fn new(sw: Stopwatch<I>) -> (r: Self)
        ensures
            r.denotes(canon_view(sw)),
    {
        match sw.start {
            None => Canonical::Stopped(sw.elapsed),
            Some(start) => match start.checked_sub(sw.elapsed) {
                Some(origin) => Canonical::Bounded(origin),
                None => Canonical::Unbounded,
            },
        }
    }

    /// Feeds this canonical form to a hasher: a tag byte for the
    /// variant, then the payload. The bytes written are a function of
    /// the denoted mathematical form alone.
    pub fn hash(&self, state: &mut DefaultHasher)
        ensures
            final(state)@ == old(state)@ + self.spec_hash_writes(),
    {
        match self {
            Canonical::Stopped(d) => {
                let tag: Vec<u8> = vec![0u8];
                state.write(tag.as_slice());
                d.hash(state);
            },
            Canonical::Bounded(p) => {
                let tag: Vec<u8> = vec![1u8];
                state.write(tag.as_slice());
                p.hash(state);
            },
            Canonical::Unbounded => {
                let tag: Vec<u8> = vec![2u8];
                state.write(tag.as_slice());
            },
        }
        proof {
            assert(final(state)@ =~~= old(state)@ + self.spec_hash_writes());
        }
    }

    /// The byte sequences this canonical form feeds to a hasher.
    pub open spec fn spec_hash_writes(self) -> Seq<Seq<u8>> {
        match self {
            Canonical::Stopped(d) => seq![seq![0u8]] + duration_hash_writes(d@),
            Canonical::Bounded(p) => seq![seq![1u8]] + I::hash_writes(p.time()),
            Canonical::Unbounded => seq![seq![2u8]],
        }
    }
}

impl<I: Instant> PartialEq for Canonical<I> {
    /// Tests two canonical forms for equality: same variant, and equal
    /// payloads, with instants compared by timeline position.
    fn eq(&self, rhs: &Self) -> (r: bool) {
        match (self, rhs) {
            (Canonical::Stopped(a), Canonical::Stopped(b)) => {
                proof {
                    use_type_invariant(a);
                    use_type_invariant(b);
                    if a@ == b@ {
                        crate::duration::lemma_duration_view_injective(*a, *b);
                    }
                }
                *a == *b
            },
            (Canonical::Bounded(p), Canonical::Bounded(q)) => instant_eq(*p, *q),
            (Canonical::Unbounded, Canonical::Unbounded) => true,
            _ => false,
        }
    }
}

impl<I: Instant> vstd::std_specs::cmp::PartialEqSpecImpl for Canonical<I> {
    open spec fn obeys_eq_spec() -> bool {
        true
    }

    open spec fn eq_spec(&self, rhs: &Self) -> bool {
        match (*self, *rhs) {
            (Canonical::Stopped(a), Canonical::Stopped(b)) => a@ == b@,
            (Canonical::Bounded(p), Canonical::Bounded(q)) => p.time() == q.time(),
            (Canonical::Unbounded, Canonical::Unbounded) => true,
            _ => false,
        }
    }
}

/// Canonical forms denoting mathematical forms compare equal exactly
/// when the mathematical forms are equal.
pub proof fn lemma_canonical_eq_denotes<I: Instant>(
    c1: Canonical<I>,
    c2: Canonical<I>,
    m1: CanonView,
    m2: CanonView,
)
    requires
        c1.denotes(m1),
        c2.denotes(m2),
    ensures
        c1.eq_spec(&c2) == (m1 == m2),
{
}

} // verus!
