use std::collections::hash_map::DefaultHasher;
use std::hash::Hasher;

use libsw_core::{Duration, Instant, VirtualInstant};

type I = VirtualInstant;
type Stopwatch = libsw_core::Stopwatch<I>;

fn delay() -> Duration {
    Duration::from_millis(100)
}

/// An anchor far from the epoch, leaving room to step backwards.
fn distant() -> I {
    VirtualInstant::from_offset(Duration::from_secs(1_000_000))
}

#[test]
fn eq_properties() {
    for [a, b, c] in mixed_stopwatches() {
        // reflexive
        assert!(a == a);
        assert!(b == b);

        // symmetric
        assert_eq!(a == b, b == a);

        // transitive
        if (a == b) && (b == c) {
            assert_eq!(a, c);
        }
    }
}

#[test]
fn eq_running() {
    // whatever is compared shouldn't depend on the time of observation
    let now = I::now();
    let sw_1 = Stopwatch::new_started_at(now);
    let sw_2 = Stopwatch::new_started_at(now);
    let sw_3 = Stopwatch::from_raw(delay(), Some(now));
    assert_eq!(sw_1, sw_2);
    assert_ne!(sw_1, sw_3);
}

#[test]
fn eq_correct() {
    assert_ne!(Stopwatch::new(), Stopwatch::new_started());
    assert_ne!(
        Stopwatch::with_elapsed(Duration::from_secs(1)),
        Stopwatch::with_elapsed(Duration::from_secs(2)),
    );

    let mut sw_1 = Stopwatch::new();
    let mut sw_2 = Stopwatch::new();
    let start = I::now();
    sw_1.start_at(start);
    sw_2.start_at(start);
    assert_eq!(sw_1, sw_2);
}

#[test]
fn partial_eq_use_of_unnormalized_instant() {
    // The virtual timeline's origin is known exactly: an instant at the
    // epoch cannot step backwards, so a stopwatch whose elapsed time
    // reaches past it is unbounded, while the same elapsed time anchored
    // one step later is bounded.
    let anchor1 = VirtualInstant::epoch();
    let dt = Duration::from_secs(1);
    let anchor2 = Instant::checked_add(&anchor1, dt).unwrap();
    assert_eq!(None, Instant::checked_sub(&anchor1, dt));
    assert_eq!(anchor1, Instant::checked_sub(&anchor2, dt).unwrap());

    assert_ne!(
        Stopwatch::from_raw(dt, Some(anchor1)),
        Stopwatch::from_raw(dt, Some(anchor2)),
    );
}

#[test]
fn partial_eq_saturation_disqualifies_elapsed_as_viable_method() {
    let anchor0 = I::now();
    let anchor1 = Instant::checked_add(&anchor0, delay()).unwrap();
    let anchor2 = Instant::checked_add(&anchor1, delay()).unwrap();
    //     NOW
    // <----|--------->
    //      0   1   2
    let sw_1 = Stopwatch::new_started_at(anchor1);
    let sw_2 = Stopwatch::new_started_at(anchor2);

    // yes,
    assert_eq!(sw_1.elapsed_at(anchor0), sw_2.elapsed_at(anchor0));
    assert_eq!(sw_1.is_running(), sw_2.is_running());

    // but...
    assert_ne!(sw_1, sw_2);
}

#[test]
fn partial_eq_mixed_state() {
    let anchor1 = I::now();
    let anchor2 = Instant::checked_add(&anchor1, delay()).unwrap();
    let sw_0 = Stopwatch::new();
    let sw_1 = Stopwatch::new_started_at(anchor1);
    let sw_2 = Stopwatch::new_started_at(anchor2);

    // yes,
    assert_eq!(sw_0.elapsed_at(anchor1), sw_1.elapsed_at(anchor1));
    assert_eq!(sw_0.elapsed_at(anchor1), sw_2.elapsed_at(anchor1));
    assert_eq!(sw_1.elapsed_at(anchor1), sw_2.elapsed_at(anchor1));

    // but...
    assert_ne!(sw_0, sw_1);
    assert_ne!(sw_0, sw_2);
    assert_ne!(sw_1, sw_2);
}

#[test]
fn unbounded_eq_status_quo() {
    let overflowing_1;
    let overflowing_2;
    {
        let start_1 = distant();
        let start_2 = Instant::checked_sub(&start_1, delay()).unwrap();
        overflowing_1 = Stopwatch::from_raw(Duration::max_value(), Some(start_1));
        overflowing_2 = Stopwatch::from_raw(Duration::max_value(), Some(start_2));
    }

    assert_eq!(overflowing_1, overflowing_2);
}

#[test]
fn partial_eq() {
    for [a, b, _] in mixed_stopwatches() {
        assert_eq!(a == b, !(a != b));
    }
}

#[test]
fn hash_and_eq() {
    for [sw_1, sw_2, sw_3] in mixed_stopwatches() {
        let mut hasher_1 = DefaultHasher::new();
        let mut hasher_2 = DefaultHasher::new();
        let mut hasher_3 = DefaultHasher::new();

        sw_1.hash(&mut hasher_1);
        sw_2.hash(&mut hasher_2);
        sw_3.hash(&mut hasher_3);

        // When both equality and hashing are defined, the following must
        // hold: k1 == k2 -> hash(k1) == hash(k2)
        assert_eq!(sw_1 == sw_2, hasher_1.finish() == hasher_2.finish());
        assert_eq!(sw_1 == sw_3, hasher_1.finish() == hasher_3.finish());
        assert_eq!(sw_2 == sw_3, hasher_2.finish() == hasher_3.finish());
    }
}

#[test]
fn hash_running() {
    let now = I::now();
    let sw_1 = Stopwatch::new_started_at(now);
    let sw_2 = Stopwatch::new_started_at(now);
    let sw_3 = Stopwatch::from_raw(delay(), Some(now));

    let mut hasher_1 = DefaultHasher::new();
    let mut hasher_2 = DefaultHasher::new();
    let mut hasher_3 = DefaultHasher::new();

    sw_1.hash(&mut hasher_1);
    sw_2.hash(&mut hasher_2);
    sw_3.hash(&mut hasher_3);

    // whatever is hashed shouldn't depend on the time of observation
    assert_eq!(hasher_1.finish(), hasher_2.finish());
    assert_ne!(hasher_1.finish(), hasher_3.finish());
}

#[test]
fn crafted_splits_compare_equal() {
    // Two different elapsed/start splits of the same logical trajectory.
    let elapsed = Duration::from_secs(10);
    let start = distant();
    let sw_1 = Stopwatch::from_raw(elapsed, Some(start));
    let sw_2 = Stopwatch::from_raw(
        elapsed.checked_sub(Duration::from_secs(1)).unwrap(),
        Some(Instant::checked_sub(&start, Duration::from_secs(1)).unwrap()),
    );
    assert_eq!(sw_1, sw_2);

    let mut hasher_1 = DefaultHasher::new();
    let mut hasher_2 = DefaultHasher::new();
    sw_1.hash(&mut hasher_1);
    sw_2.hash(&mut hasher_2);
    assert_eq!(hasher_1.finish(), hasher_2.finish());
}

fn mixed_stopwatches() -> [[Stopwatch; 3]; 11] {
    let crafted_1;
    let crafted_2;
    {
        let mut elapsed = Duration::from_secs(10);
        let mut start = distant();
        crafted_1 = Stopwatch::from_raw(elapsed, Some(start));

        elapsed = elapsed.checked_sub(Duration::from_secs(1)).unwrap();
        start = Instant::checked_sub(&start, Duration::from_secs(1)).unwrap();
        crafted_2 = Stopwatch::from_raw(elapsed, Some(start));
    }
    assert_eq!(crafted_1, crafted_2);

    let started = Stopwatch::new_started();
    let started_elapsed_1 = Stopwatch::with_elapsed_started(Duration::from_secs(1));
    let started_elapsed_2 = Stopwatch::with_elapsed_started(Duration::from_secs(2));

    let overflowing_1;
    let overflowing_2;
    {
        let start_1 = distant();
        let start_2 = Instant::checked_sub(&start_1, delay()).unwrap();
        overflowing_1 = Stopwatch::from_raw(Duration::max_value(), Some(start_1));
        overflowing_2 = Stopwatch::from_raw(Duration::max_value(), Some(start_2));
    }

    [
        [Stopwatch::new(), Stopwatch::new(), Stopwatch::new()],
        [started, started, started],
        [started, Stopwatch::new(), Stopwatch::new()],
        [
            Stopwatch::with_elapsed(Duration::from_secs(1)),
            Stopwatch::with_elapsed(Duration::from_secs(1)),
            Stopwatch::with_elapsed(Duration::from_secs(1)),
        ],
        [started_elapsed_1, started_elapsed_1, started_elapsed_1],
        [started_elapsed_1, started_elapsed_2, started_elapsed_1],
        [overflowing_1, overflowing_2, started],
        [
            started_elapsed_1,
            Stopwatch::with_elapsed(Duration::from_secs(1)),
            Stopwatch::with_elapsed(Duration::from_secs(1)),
        ],
        [
            started_elapsed_2,
            Stopwatch::with_elapsed(Duration::from_secs(1)),
            Stopwatch::with_elapsed(Duration::from_secs(1)),
        ],
        [
            Stopwatch::with_elapsed(Duration::from_secs(1)),
            Stopwatch::with_elapsed(Duration::from_secs(2)),
            Stopwatch::with_elapsed(Duration::from_secs(3)),
        ],
        [crafted_1, crafted_2, Stopwatch::default()],
    ]
}
