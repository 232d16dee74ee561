//! The one-shot countdown timer: edge-triggered expiry, exactly once, under
//! any split of the elapsed time into frame deltas.

use trolley_problem::timer::CountdownTimer;

#[test]
fn timer_fires_exactly_once_with_small_deltas() {
    let mut t = CountdownTimer::new(1_000);
    let mut fires = 0;
    for _ in 0..20 {
        if t.tick(100) {
            fires += 1;
        }
    }
    assert_eq!(fires, 1);
}

#[test]
fn timer_fires_exactly_once_with_uneven_deltas() {
    let mut t = CountdownTimer::new(1_000);
    let mut fires = 0;
    for delta in [1, 999, 700, 5_000, 0, 3] {
        if t.tick(delta) {
            fires += 1;
        }
    }
    assert_eq!(fires, 1);
}

#[test]
fn timer_fires_exactly_once_with_one_huge_delta() {
    let mut t = CountdownTimer::new(1_000);
    let mut fires = 0;
    for delta in [1_000_000, 1_000_000] {
        if t.tick(delta) {
            fires += 1;
        }
    }
    assert_eq!(fires, 1);
}

#[test]
fn timer_fires_on_exact_boundary() {
    let mut t = CountdownTimer::new(1_000);
    assert!(!t.tick(999));
    assert!(t.tick(1));
    assert!(!t.tick(1));
}

#[test]
fn timer_does_not_fire_before_expiry() {
    let mut t = CountdownTimer::new(10_000);
    let mut fires = 0;
    for _ in 0..9 {
        if t.tick(1_000) {
            fires += 1;
        }
    }
    assert_eq!(fires, 0);
    assert!(!t.finished());
    assert_eq!(t.remaining_ms(), 1_000);
}

#[test]
fn timer_elapsed_saturates_at_duration() {
    let mut t = CountdownTimer::new(500);
    t.tick(10_000);
    assert!(t.finished());
    assert_eq!(t.remaining_ms(), 0);
    assert_eq!(t.duration_ms(), 500);
}

#[test]
fn zero_delta_ticks_change_nothing() {
    let mut t = CountdownTimer::new(100);
    for _ in 0..5 {
        assert!(!t.tick(0));
    }
    assert_eq!(t.remaining_ms(), 100);
}
