use ttgo_3::accumulator::{Accumulator, SharedAccumulator};

#[test]
fn add_sequence_then_drain_returns_sum() {
    let mut acc = Accumulator::new();
    acc.add(1);
    acc.add(2);
    acc.add(3);
    assert_eq!(acc.drain(), 6);
    assert_eq!(acc.drain(), 0);
}

#[test]
fn add_mixed_signs_then_drain_returns_net() {
    let mut acc = Accumulator::new();
    acc.add(-10);
    acc.add(10);
    acc.add(-10);
    assert_eq!(acc.pending(), -10);
    assert_eq!(acc.drain(), -10);
    assert_eq!(acc.pending(), 0);
}

#[test]
fn drain_of_fresh_accumulator_is_zero() {
    let mut acc = Accumulator::new();
    assert_eq!(acc.drain(), 0);
}

#[test]
fn add_checked_applies_in_range() {
    let mut acc = Accumulator::new();
    assert!(acc.add_checked(i32::MAX));
    assert_eq!(acc.drain(), i32::MAX);
}

#[test]
fn add_checked_drops_overflowing_delta() {
    let mut acc = Accumulator::new();
    assert!(acc.add_checked(i32::MAX));
    assert!(!acc.add_checked(1));
    assert_eq!(acc.drain(), i32::MAX);
    assert!(acc.add_checked(i32::MIN));
    assert!(!acc.add_checked(-1));
    assert_eq!(acc.drain(), i32::MIN);
}

#[test]
fn shared_accumulator_drains_net_sum_once() {
    let acc = SharedAccumulator::new();
    assert!(acc.add(-10));
    assert!(acc.add(-10));
    assert!(acc.add(10));
    assert_eq!(acc.drain(), -10);
    assert_eq!(acc.drain(), 0);
}

#[test]
fn interleaved_adds_and_drains_conserve_every_delta() {
    // Clicks from a left (-10) and a right (+10) button arrive between
    // drains in some serialized order; over time the drains return exactly
    // the sum of everything added, no delta lost and none counted twice.
    let acc = SharedAccumulator::new();
    let mut added: i64 = 0;
    let mut drained: i64 = 0;

    for (deltas, drains_after) in [
        (vec![-10, 10, -10], 1),
        (vec![10, 10], 2),
        (vec![], 1),
        (vec![-10], 1),
    ] {
        for d in deltas {
            assert!(acc.add(d));
            added += i64::from(d);
        }
        for _ in 0..drains_after {
            drained += i64::from(acc.drain());
        }
    }

    assert_eq!(added, drained);
    assert_eq!(acc.drain(), 0);
}

#[test]
fn shared_accumulator_reports_dropped_overflow() {
    let acc = SharedAccumulator::new();
    assert!(acc.add(i32::MAX));
    assert!(!acc.add(1));
    assert_eq!(acc.drain(), i32::MAX);
    assert_eq!(acc.drain(), 0);
}
