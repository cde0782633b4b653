use wasi_sched::clock::{Duration, FixedClock, Instant};
use wasi_sched::error::Error;
use wasi_sched::subscription::{
    MonotonicClockSubscription, RwEventFlags, RwSubscription, Subscription, SubscriptionResult,
};
use wasi_sched::table::{FileCaps, Table};

fn pollable_table() -> Table {
    let mut t = Table::new();
    t.insert(1, FileCaps::poll_readwrite());
    t
}

#[test]
fn construction_without_poll_capability_fails() {
    let mut t = Table::new();
    t.insert(1, FileCaps::empty());
    let r = RwSubscription::new(&t, 1);
    assert!(matches!(r, Err(Error::NotCapable)));
}

#[test]
fn construction_on_unknown_handle_fails() {
    let t = Table::new();
    let r = RwSubscription::new(&t, 7);
    assert!(matches!(r, Err(Error::Badf)));
}

#[test]
fn construction_with_poll_capability_succeeds() {
    let t = pollable_table();
    let r = RwSubscription::new(&t, 1);
    assert!(r.is_ok());
}

#[test]
fn reinsert_overrides_capabilities() {
    let mut t = Table::new();
    t.insert(1, FileCaps::empty());
    t.insert(1, FileCaps::poll_readwrite());
    assert!(RwSubscription::new(&t, 1).is_ok());
}

#[test]
fn file_resolves_under_same_gate() {
    let t = pollable_table();
    let s = RwSubscription::new(&t, 1).unwrap();
    let f = s.file().unwrap();
    assert_eq!(f.fd, 1);
    assert!(f.caps.contains(FileCaps::poll_readwrite()));
}

#[test]
fn result_is_none_before_completion() {
    let t = pollable_table();
    let s = RwSubscription::new(&t, 1).unwrap();
    assert!(s.result().is_none());
}

#[test]
fn deadline_result_is_none_before_deadline() {
    let c = FixedClock { time: Instant::from_nanos(100) };
    let s = MonotonicClockSubscription {
        clock: &c,
        deadline: Instant::from_nanos(200),
        precision: Duration::from_nanos(1),
    };
    assert!(s.result().is_none());
    assert_eq!(s.duration_until(), Some(Duration::from_nanos(100)));
}

#[test]
fn complete_reports_size_and_flags() {
    let t = pollable_table();
    let mut s = RwSubscription::new(&t, 1).unwrap();
    s.complete(5, RwEventFlags::hangup());
    let r = s.result();
    assert!(matches!(r, Some(Ok((5, f))) if f == RwEventFlags::hangup()));
}

#[test]
fn error_reports_the_failure() {
    let t = pollable_table();
    let mut s = RwSubscription::new(&t, 1).unwrap();
    s.error(Error::Io);
    assert!(matches!(s.result(), Some(Err(Error::Io))));
}

#[test]
fn deadline_boundary_flips_both_views() {
    let c = FixedClock { time: Instant::from_nanos(100) };

    let before = MonotonicClockSubscription {
        clock: &c,
        deadline: Instant::from_nanos(101),
        precision: Duration::from_nanos(1),
    };
    assert!(before.result().is_none());
    assert_eq!(before.duration_until(), Some(Duration::from_nanos(1)));

    let at = MonotonicClockSubscription {
        clock: &c,
        deadline: Instant::from_nanos(100),
        precision: Duration::from_nanos(1),
    };
    assert!(matches!(at.result(), Some(Ok(()))));
    assert!(at.duration_until().is_none());

    let past = MonotonicClockSubscription {
        clock: &c,
        deadline: Instant::from_nanos(40),
        precision: Duration::from_nanos(1),
    };
    assert!(matches!(past.result(), Some(Ok(()))));
    assert!(past.duration_until().is_none());
}

#[test]
fn deadline_is_queryable_repeatedly() {
    let c = FixedClock { time: Instant::from_nanos(100) };
    let s = MonotonicClockSubscription {
        clock: &c,
        deadline: Instant::from_nanos(50),
        precision: Duration::from_nanos(1),
    };
    assert!(matches!(s.result(), Some(Ok(()))));
    assert!(matches!(s.result(), Some(Ok(()))));
    assert_eq!(s.now(), Instant::from_nanos(100));
}

#[test]
fn conversion_preserves_write_tag() {
    let t = pollable_table();
    let mut s = RwSubscription::new(&t, 1).unwrap();
    s.complete(3, RwEventFlags::empty());
    let r = SubscriptionResult::from_subscription(Subscription::<FixedClock>::Write(s));
    assert!(matches!(r, Some(SubscriptionResult::Write(Ok((3, f)))) if f.bits == 0));
}

#[test]
fn conversion_preserves_read_tag() {
    let t = pollable_table();
    let mut s = RwSubscription::new(&t, 1).unwrap();
    s.complete(9, RwEventFlags::hangup());
    let r = SubscriptionResult::from_subscription(Subscription::<FixedClock>::Read(s));
    assert!(matches!(r, Some(SubscriptionResult::Read(Ok((9, f)))) if f == RwEventFlags::hangup()));
}

#[test]
fn conversion_preserves_clock_tag() {
    let c = FixedClock { time: Instant::from_nanos(10) };
    let s = MonotonicClockSubscription {
        clock: &c,
        deadline: Instant::from_nanos(5),
        precision: Duration::from_nanos(1),
    };
    let r = SubscriptionResult::from_subscription(Subscription::MonotonicClock(s));
    assert!(matches!(r, Some(SubscriptionResult::MonotonicClock(Ok(())))));
}

#[test]
fn conversion_of_failed_interest_keeps_the_error() {
    let t = pollable_table();
    let mut s = RwSubscription::new(&t, 1).unwrap();
    s.error(Error::Io);
    let r = SubscriptionResult::from_subscription(Subscription::<FixedClock>::Read(s));
    assert!(matches!(r, Some(SubscriptionResult::Read(Err(Error::Io)))));
}

#[test]
fn batch_conversion_keeps_order_and_drops_pending() {
    let mut t = Table::new();
    t.insert(1, FileCaps::poll_readwrite());
    t.insert(2, FileCaps::poll_readwrite());
    let c = FixedClock { time: Instant::from_nanos(1000) };

    let a = RwSubscription::new(&t, 1).unwrap();
    let mut b = RwSubscription::new(&t, 2).unwrap();
    b.complete(10, RwEventFlags::empty());
    let d = MonotonicClockSubscription {
        clock: &c,
        deadline: Instant::from_nanos(500),
        precision: Duration::from_nanos(1),
    };

    let batch = vec![
        Subscription::Read(a),
        Subscription::Write(b),
        Subscription::MonotonicClock(d),
    ];
    let converted: Vec<Option<SubscriptionResult>> = batch
        .into_iter()
        .map(SubscriptionResult::from_subscription)
        .collect();

    assert_eq!(converted.len(), 3);
    assert!(converted[0].is_none());
    assert!(matches!(
        converted[1],
        Some(SubscriptionResult::Write(Ok((10, f)))) if f.bits == 0
    ));
    assert!(matches!(
        converted[2],
        Some(SubscriptionResult::MonotonicClock(Ok(())))
    ));

    let satisfied: Vec<SubscriptionResult> = converted.into_iter().flatten().collect();
    assert_eq!(satisfied.len(), 2);
    assert!(matches!(satisfied[0], SubscriptionResult::Write(Ok(_))));
    assert!(matches!(satisfied[1], SubscriptionResult::MonotonicClock(Ok(()))));
}
