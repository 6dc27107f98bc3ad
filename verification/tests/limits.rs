use openworkers_core::{Admission, BindingLimit, Capability, LimitCounter, LimitTracker, RuntimeLimits};

#[test]
fn default_limits() {
    let limits = RuntimeLimits::default();
    assert_eq!(limits.heap_initial_mb, 1);
    assert_eq!(limits.heap_max_mb, 128);
    assert_eq!(limits.max_cpu_time_ms, 50);
    assert_eq!(limits.max_wall_clock_time_ms, 30_000);
    assert_eq!(limits.stream_buffer_size, 16);
    assert_eq!(limits.fetch_limit, BindingLimit { max_total: 50, max_concurrent: 6 });
    assert_eq!(limits.kv_limit, BindingLimit { max_total: 1000, max_concurrent: 10 });
    assert_eq!(limits.database_limit, BindingLimit { max_total: 100, max_concurrent: 5 });
    assert_eq!(limits.storage_limit, BindingLimit { max_total: 100, max_concurrent: 3 });
}

#[test]
fn limits_can_be_overridden_one_by_one() {
    let limits = RuntimeLimits { max_cpu_time_ms: 0, kv_limit: BindingLimit::unlimited(), ..RuntimeLimits::default() };
    assert_eq!(limits.max_cpu_time_ms, 0);
    assert_eq!(limits.max_wall_clock_time_ms, 30_000);
    assert_eq!(limits.kv_limit, BindingLimit { max_total: 0, max_concurrent: 0 });
    assert_eq!(limits.fetch_limit, BindingLimit::new(50, 6));
}

#[test]
fn counter_rejects_for_good_past_the_lifetime_allowance() {
    let mut counter = LimitCounter::new(BindingLimit::new(2, 1));
    assert_eq!(counter.try_acquire(), Admission::Granted);
    counter.release();
    assert_eq!(counter.try_acquire(), Admission::Granted);
    counter.release();
    assert_eq!(counter.calls_total(), 2);
    assert_eq!(counter.calls_in_flight(), 0);
    assert_eq!(counter.try_acquire(), Admission::Rejected);
    assert_eq!(counter.try_acquire(), Admission::Rejected);
    assert_eq!(counter.calls_total(), 2);
    assert_eq!(counter.calls_in_flight(), 0);
}

#[test]
fn counter_defers_while_too_many_calls_are_in_flight() {
    let mut counter = LimitCounter::new(BindingLimit::new(10, 2));
    assert_eq!(counter.try_acquire(), Admission::Granted);
    assert_eq!(counter.try_acquire(), Admission::Granted);
    assert_eq!(counter.try_acquire(), Admission::Deferred);
    assert_eq!(counter.calls_total(), 2);
    assert_eq!(counter.calls_in_flight(), 2);
    counter.release();
    assert_eq!(counter.calls_in_flight(), 1);
    assert_eq!(counter.try_acquire(), Admission::Granted);
    assert_eq!(counter.calls_total(), 3);
}

#[test]
fn rejection_comes_before_deferral() {
    let mut counter = LimitCounter::new(BindingLimit::new(1, 1));
    assert_eq!(counter.try_acquire(), Admission::Granted);
    assert_eq!(counter.try_acquire(), Admission::Rejected);
}

#[test]
fn zero_is_no_ceiling() {
    let mut counter = LimitCounter::new(BindingLimit::unlimited());
    for _ in 0..1000 {
        assert_eq!(counter.try_acquire(), Admission::Granted);
    }
    assert_eq!(counter.calls_total(), 1000);
    assert_eq!(counter.calls_in_flight(), 1000);

    let mut counter = LimitCounter::new(BindingLimit::new(0, 1));
    for _ in 0..100 {
        assert_eq!(counter.try_acquire(), Admission::Granted);
        assert_eq!(counter.try_acquire(), Admission::Deferred);
        counter.release();
    }
    assert_eq!(counter.calls_total(), 100);
}

#[test]
fn tracker_counts_each_kind_on_its_own() {
    let limits = RuntimeLimits {
        fetch_limit: BindingLimit::new(1, 1),
        kv_limit: BindingLimit::new(2, 1),
        ..RuntimeLimits::default()
    };
    let mut tracker = LimitTracker::new(&limits);
    assert_eq!(tracker.try_acquire(Capability::Fetch), Admission::Granted);
    assert_eq!(tracker.try_acquire(Capability::Fetch), Admission::Rejected);
    assert_eq!(tracker.try_acquire(Capability::Kv), Admission::Granted);
    assert_eq!(tracker.try_acquire(Capability::Kv), Admission::Deferred);
    tracker.release(Capability::Kv);
    assert_eq!(tracker.try_acquire(Capability::Kv), Admission::Granted);
    assert_eq!(tracker.get(Capability::Fetch).calls_total(), 1);
    assert_eq!(tracker.get(Capability::Fetch).calls_in_flight(), 1);
    assert_eq!(tracker.get(Capability::Kv).calls_total(), 2);
    assert_eq!(tracker.get(Capability::Kv).calls_in_flight(), 1);
    assert_eq!(tracker.get(Capability::Database).calls_total(), 0);
    assert_eq!(tracker.get(Capability::Storage).calls_total(), 0);
    assert_eq!(tracker.try_acquire(Capability::Storage), Admission::Granted);
    assert_eq!(tracker.try_acquire(Capability::Database), Admission::Granted);
}

#[test]
fn zero_switches_a_time_limit_off() {
    let limits = RuntimeLimits::default();
    assert_eq!(limits.cpu_time_limit(), Some(50));
    assert_eq!(limits.wall_clock_limit(), Some(30_000));
    let limits = RuntimeLimits { max_cpu_time_ms: 0, ..RuntimeLimits::default() };
    assert_eq!(limits.cpu_time_limit(), None);
    assert_eq!(limits.wall_clock_limit(), Some(30_000));
    let limits = RuntimeLimits { max_wall_clock_time_ms: 0, ..RuntimeLimits::default() };
    assert_eq!(limits.cpu_time_limit(), Some(50));
    assert_eq!(limits.wall_clock_limit(), None);
}
