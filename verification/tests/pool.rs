use s3_stats::pool::{PoolAction, PoolEvent, StatsPool, CHANNEL_CAPACITY, DEFAULT_INTERVAL_MS};
use s3_stats::stats::{StatEvent, DEFAULT_MAX_CALL};

fn event(cpu: i64) -> PoolEvent {
    PoolEvent::Received(StatEvent { cpu, ram: 1, disk: 2, time: 3 })
}

#[test]
fn defaults() {
    assert_eq!(CHANNEL_CAPACITY, 1000);
    assert_eq!(DEFAULT_INTERVAL_MS, 500);
}

#[test]
fn a_new_pool_is_fresh_with_its_ceiling_resolved() {
    let pool = StatsPool::new(500, 3);
    assert_eq!(pool.interval_ms(), 500);
    assert_eq!(pool.stats().max_call, 3);
    assert_eq!(pool.stats().total_calls, 0);
    assert_eq!(StatsPool::new(1, 0).stats().max_call, DEFAULT_MAX_CALL);
}

#[test]
fn a_tick_before_any_event_shows_nothing() {
    let mut pool = StatsPool::new(500, 3);
    assert!(matches!(pool.handle(PoolEvent::Tick), PoolAction::Sleep));
}

#[test]
fn an_event_is_folded_in_and_the_aggregator_waits() {
    let mut pool = StatsPool::new(500, 3);
    assert!(matches!(pool.handle(event(7)), PoolAction::Wait));
    assert_eq!(pool.stats().total_calls, 1);
    assert_eq!(pool.stats().total_cpu, 7);
    assert_eq!(pool.stats().max_time, 3);
}

#[test]
fn a_closed_channel_stops_the_aggregator_and_changes_nothing() {
    let mut pool = StatsPool::new(500, 3);
    pool.handle(event(7));
    let before = format!("{:?}", pool.stats());
    assert!(matches!(pool.handle(PoolEvent::Closed), PoolAction::Stop));
    assert_eq!(format!("{:?}", pool.stats()), before);
}

#[test]
fn the_reporter_goes_on_after_the_channel_closed() {
    let mut pool = StatsPool::new(500, 3);
    pool.handle(event(7));
    let before = format!("{:?}", pool.handle(PoolEvent::Tick));
    assert!(matches!(pool.handle(PoolEvent::Closed), PoolAction::Stop));
    let after = pool.handle(PoolEvent::Tick);
    assert!(matches!(after, PoolAction::Show(_)));
    assert_eq!(format!("{:?}", after), before);
    let mut idle = StatsPool::new(500, 3);
    idle.handle(PoolEvent::Closed);
    assert!(matches!(idle.handle(PoolEvent::Tick), PoolAction::Sleep));
}

#[test]
fn the_reporter_ends_when_it_is_told_to() {
    let mut pool = StatsPool::new(500, 3);
    pool.handle(event(7));
    let before = format!("{:?}", pool.stats());
    assert!(matches!(pool.handle(PoolEvent::Shutdown), PoolAction::Stop));
    assert_eq!(format!("{:?}", pool.stats()), before);
}

#[test]
fn buffered_events_are_folded_before_the_aggregator_ends() {
    let mut pool = StatsPool::new(500, 10);
    let buffered = [event(1), event(2), event(3)];
    for e in buffered {
        assert!(matches!(pool.handle(e), PoolAction::Wait));
    }
    assert!(matches!(pool.handle(PoolEvent::Closed), PoolAction::Stop));
    let s = pool.stats();
    assert_eq!((s.total_calls, s.total_cpu, s.max_cpu), (3, 6, 3));
}

#[test]
fn a_tick_shows_the_table_and_changes_nothing() {
    let mut pool = StatsPool::new(500, 3);
    pool.handle(event(7));
    let before = format!("{:?}", pool.stats());
    let shown = match pool.handle(PoolEvent::Tick) {
        PoolAction::Show(text) => text,
        other => panic!("{:?}", other),
    };
    assert_eq!(Some(shown), pool.stats().draw_table());
    assert_eq!(format!("{:?}", pool.stats()), before);
}

#[test]
fn two_ticks_without_an_event_between_show_the_same() {
    let mut pool = StatsPool::new(500, 3);
    pool.handle(event(7));
    pool.handle(event(9));
    let first = format!("{:?}", pool.handle(PoolEvent::Tick));
    let second = format!("{:?}", pool.handle(PoolEvent::Tick));
    assert_eq!(first, second);
    pool.handle(event(1));
    let third = format!("{:?}", pool.handle(PoolEvent::Tick));
    assert_ne!(first, third);
}

#[test]
fn the_pool_rolls_over_at_its_ceiling() {
    let mut pool = StatsPool::new(500, 3);
    for cpu in [1i64, 2, 3, 4, 5] {
        pool.handle(event(cpu));
    }
    let s = pool.stats();
    assert_eq!((s.total_calls, s.total_row, s.total_cpu, s.max_cpu), (2, 1, 15, 5));
}
