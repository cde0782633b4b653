use wasi_sched::clock::{CoarseClock, Duration, FixedClock, Instant, WasiMonotonicClock};
use wasi_sched::subscription::MonotonicClockSubscription;

#[test]
fn checked_duration_since_orders_instants() {
    let a = Instant::from_nanos(40);
    let b = Instant::from_nanos(100);
    assert_eq!(b.checked_duration_since(a), Some(Duration::from_nanos(60)));
    assert_eq!(b.checked_duration_since(b), Some(Duration::from_nanos(0)));
    assert_eq!(a.checked_duration_since(b), None);
}

#[test]
fn fixed_clock_ignores_precision() {
    let c = FixedClock { time: Instant::from_nanos(77) };
    assert_eq!(c.now(Duration::from_nanos(1)), Instant::from_nanos(77));
    assert_eq!(c.now(Duration::from_nanos(1000)), Instant::from_nanos(77));
}

#[test]
fn coarse_clock_rounds_down_to_precision() {
    let c = CoarseClock { time: Instant::from_nanos(1050) };
    assert_eq!(c.now(Duration::from_nanos(100)), Instant::from_nanos(1000));
    assert_eq!(c.now(Duration::from_nanos(1)), Instant::from_nanos(1050));
    assert_eq!(c.now(Duration::from_nanos(0)), Instant::from_nanos(1050));
}

#[test]
fn subscription_samples_at_constructed_precision() {
    // The same clock, the same deadline: only the precision stored in the
    // subscription differs, and the sampled reading shows which one each
    // `now()` call was handed.
    let c = CoarseClock { time: Instant::from_nanos(1050) };
    let coarse = MonotonicClockSubscription {
        clock: &c,
        deadline: Instant::from_nanos(1025),
        precision: Duration::from_nanos(100),
    };
    let fine = MonotonicClockSubscription {
        clock: &c,
        deadline: Instant::from_nanos(1025),
        precision: Duration::from_nanos(1),
    };
    assert_eq!(coarse.now(), Instant::from_nanos(1000));
    assert_eq!(fine.now(), Instant::from_nanos(1050));
    // Coalescing changes the outcome: at coarse precision the deadline has
    // not been reached yet, at fine precision it has.
    assert!(coarse.result().is_none());
    assert!(matches!(fine.result(), Some(Ok(()))));
}
