//! What holds of the running statistics over whole sequences of events.

use vstd::prelude::*;
use crate::arith::clamp_u64;
use crate::pool::{action_for, next_stats, PoolActionView, PoolEventView};
use crate::report::report;
use crate::stats::{
    effective_ceiling, fold, fresh, run, step, total_cpu, total_disk, total_ram, total_time,
    EventView, StatsView,
};

verus! {

/// The statistics before any event, with the ceiling resolved to `ceiling`.
pub open spec fn fresh_with_ceiling(ceiling: int) -> StatsView {
    StatsView { ceiling, ..fresh() }
}

/// Every difference and every elapsed time of the events is positive.
pub open spec fn all_positive(events: Seq<EventView>) -> bool {
    forall|i: int|
        0 <= i < events.len() ==> {
            &&& (#[trigger] events[i]).cpu > 0
            &&& events[i].ram > 0
            &&& events[i].disk > 0
            &&& events[i].time > 0
        }
}

/// Folding events in adds each difference to its sum: after any sequence,
/// each sum is what it was plus the arithmetic sum of that field over the
/// sequence.
pub proof fn lemma_fold_sums(s: StatsView, events: Seq<EventView>)
    ensures
        fold(s, events).sum_cpu == s.sum_cpu + total_cpu(events),
        fold(s, events).sum_ram == s.sum_ram + total_ram(events),
        fold(s, events).sum_disk == s.sum_disk + total_disk(events),
        fold(s, events).sum_time == s.sum_time + total_time(events),
    decreases events.len(),
{
    if events.len() > 0 {
        lemma_fold_sums(s, events.drop_last());
    }
}

/// Each maximum after a sequence of events is the largest among the maximum
/// before and that field of every event: it is below none of them and equal
/// to one of them.
pub proof fn lemma_fold_maxima(s: StatsView, events: Seq<EventView>)
    ensures
        ({
            let r = fold(s, events);
            &&& r.max_cpu >= s.max_cpu
            &&& r.max_ram >= s.max_ram
            &&& r.max_disk >= s.max_disk
            &&& r.max_time >= s.max_time
            &&& forall|i: int| 0 <= i < events.len() ==> (#[trigger] events[i]).cpu <= r.max_cpu
            &&& forall|i: int| 0 <= i < events.len() ==> (#[trigger] events[i]).ram <= r.max_ram
            &&& forall|i: int| 0 <= i < events.len() ==> (#[trigger] events[i]).disk <= r.max_disk
            &&& forall|i: int| 0 <= i < events.len() ==> (#[trigger] events[i]).time <= r.max_time
            &&& r.max_cpu == s.max_cpu || exists|i: int|
                0 <= i < events.len() && (#[trigger] events[i]).cpu == r.max_cpu
            &&& r.max_ram == s.max_ram || exists|i: int|
                0 <= i < events.len() && (#[trigger] events[i]).ram == r.max_ram
            &&& r.max_disk == s.max_disk || exists|i: int|
                0 <= i < events.len() && (#[trigger] events[i]).disk == r.max_disk
            &&& r.max_time == s.max_time || exists|i: int|
                0 <= i < events.len() && (#[trigger] events[i]).time == r.max_time
        }),
    decreases events.len(),
{
    if events.len() > 0 {
        let front = events.drop_last();
        lemma_fold_maxima(s, front);
        assert(forall|i: int| 0 <= i < front.len() ==> front[i] == events[i]);
    }
}

/// From fresh statistics and events whose differences are all positive,
/// each sum is the arithmetic sum of its field, and each maximum is the
/// true maximum of its field: some event has it and none exceeds it.
pub proof fn lemma_positive_events(events: Seq<EventView>)
    requires
        events.len() > 0,
        all_positive(events),
    ensures
        ({
            let r = fold(fresh(), events);
            &&& r.sum_cpu == total_cpu(events)
            &&& r.sum_ram == total_ram(events)
            &&& r.sum_disk == total_disk(events)
            &&& r.sum_time == total_time(events)
            &&& forall|i: int| 0 <= i < events.len() ==> (#[trigger] events[i]).cpu <= r.max_cpu
            &&& forall|i: int| 0 <= i < events.len() ==> (#[trigger] events[i]).ram <= r.max_ram
            &&& forall|i: int| 0 <= i < events.len() ==> (#[trigger] events[i]).disk <= r.max_disk
            &&& forall|i: int| 0 <= i < events.len() ==> (#[trigger] events[i]).time <= r.max_time
            &&& exists|i: int| 0 <= i < events.len() && (#[trigger] events[i]).cpu == r.max_cpu
            &&& exists|i: int| 0 <= i < events.len() && (#[trigger] events[i]).ram == r.max_ram
            &&& exists|i: int| 0 <= i < events.len() && (#[trigger] events[i]).disk == r.max_disk
            &&& exists|i: int| 0 <= i < events.len() && (#[trigger] events[i]).time == r.max_time
        }),
{
    lemma_fold_sums(fresh(), events);
    lemma_fold_maxima(fresh(), events);
}

/// Folding events in never loses or repeats one: from statistics whose
/// counter is within its ceiling, the counter and the rollover count
/// together stand for exactly as many events more as were folded in. After
/// at least one event the ceiling is resolved and the counter lies between
/// one and the ceiling.
pub proof fn lemma_every_event_is_counted(s: StatsView, events: Seq<EventView>)
    requires
        s.wf(),
    ensures
        ({
            let r = fold(s, events);
            &&& r.wf()
            &&& effective_ceiling(r.ceiling) == effective_ceiling(s.ceiling)
            &&& r.rollovers >= s.rollovers
            &&& r.events_counted() == s.events_counted() + events.len()
            &&& events.len() > 0 ==> r.ceiling == effective_ceiling(s.ceiling) && 1 <= r.calls
                <= r.ceiling
        }),
    decreases events.len(),
{
    if events.len() > 0 {
        let front = events.drop_last();
        lemma_every_event_is_counted(s, front);
        let p = fold(s, front);
        let c = effective_ceiling(p.ceiling);
        if p.calls + 1 > c {
            assert((p.rollovers + 1) * c == p.rollovers * c + c) by (nonlinear_arith);
        }
    }
}

/// With the ceiling at `ceiling`, folding exactly `ceiling + 1` events into
/// fresh statistics leaves the rollover count at one and the counter at one,
/// not at zero; with `Stats::update` repeated as in the unbounded fold.
pub proof fn lemma_rollover_after_ceiling_plus_one(ceiling: int, events: Seq<EventView>)
    requires
        ceiling >= 1,
        events.len() == ceiling + 1,
    ensures
        fold(fresh_with_ceiling(ceiling), events).rollovers == 1,
        fold(fresh_with_ceiling(ceiling), events).calls == 1,
        run(fresh_with_ceiling(ceiling), events).rollovers == 1,
        run(fresh_with_ceiling(ceiling), events).calls == 1,
{
    let s = fresh_with_ceiling(ceiling);
    lemma_every_event_is_counted(s, events);
    lemma_run_counts(s, events);
    let r = fold(s, events);
    lemma_split_count(ceiling, 1, 1, r.rollovers, r.calls);
}

/// With the ceiling at `ceiling`, folding exactly `k * ceiling` events into
/// fresh statistics, for `k` at least one, leaves the rollover count at
/// `k - 1` and the counter at the ceiling. `Stats::update` repeated gives
/// the same, the rollover count no higher than `u64::MAX`.
pub proof fn lemma_rollover_at_multiple(ceiling: int, k: int, events: Seq<EventView>)
    requires
        ceiling >= 1,
        k >= 1,
        events.len() == k * ceiling,
    ensures
        fold(fresh_with_ceiling(ceiling), events).rollovers == k - 1,
        fold(fresh_with_ceiling(ceiling), events).calls == ceiling,
        run(fresh_with_ceiling(ceiling), events).rollovers == clamp_u64(k - 1),
        run(fresh_with_ceiling(ceiling), events).calls == ceiling,
{
    let s = fresh_with_ceiling(ceiling);
    lemma_run_counts(s, events);
    assert(k * ceiling >= 1) by (nonlinear_arith)
        requires
            k >= 1,
            ceiling >= 1,
    ;
    lemma_every_event_is_counted(s, events);
    let r = fold(s, events);
    assert(k * ceiling == (k - 1) * ceiling + ceiling) by (nonlinear_arith);
    lemma_split_count(ceiling, k - 1, ceiling, r.rollovers, r.calls);
}

/// `Stats::update` repeated is the unbounded fold for as long as nothing
/// reaches the bounds of its integer: where the fold of every prefix of the
/// events fits, the statistics that `update` leaves are those of the fold.
pub proof fn lemma_run_is_fold(s: StatsView, events: Seq<EventView>)
    requires
        forall|k: int| 0 <= k <= events.len() ==> (#[trigger] fold(s, events.take(k))).in_range(),
    ensures
        run(s, events) == fold(s, events),
    decreases events.len(),
{
    if events.len() > 0 {
        let front = events.drop_last();
        assert forall|k: int| 0 <= k <= front.len() implies (#[trigger] fold(
            s,
            front.take(k),
        )).in_range() by {
            assert(front.take(k) == events.take(k));
        }
        lemma_run_is_fold(s, front);
        assert(events.take(events.len() as int) == events);
    }
}

/// Holding the sums to their range does not touch the counting: after any
/// events `Stats::update` repeated leaves the ceiling, the counter and the
/// maxima of the unbounded fold, and its rollover count held to the range
/// of `u64`.
pub proof fn lemma_run_counts(s: StatsView, events: Seq<EventView>)
    requires
        0 <= s.rollovers <= u64::MAX,
    ensures
        run(s, events).ceiling == fold(s, events).ceiling,
        run(s, events).calls == fold(s, events).calls,
        run(s, events).rollovers == clamp_u64(fold(s, events).rollovers),
        fold(s, events).rollovers >= s.rollovers,
        run(s, events).max_cpu == fold(s, events).max_cpu,
        run(s, events).max_ram == fold(s, events).max_ram,
        run(s, events).max_disk == fold(s, events).max_disk,
        run(s, events).max_time == fold(s, events).max_time,
    decreases events.len(),
{
    if events.len() > 0 {
        lemma_run_counts(s, events.drop_last());
    }
}

/// For events whose differences are all positive, the sum over a part of
/// them from the start is between zero and the sum over all, and no single
/// difference is above the sum over all.
proof fn lemma_positive_totals(events: Seq<EventView>, k: int)
    requires
        all_positive(events),
        0 <= k <= events.len(),
    ensures
        0 <= total_cpu(events.take(k)) <= total_cpu(events),
        0 <= total_ram(events.take(k)) <= total_ram(events),
        0 <= total_disk(events.take(k)) <= total_disk(events),
        0 <= total_time(events.take(k)) <= total_time(events),
        k < events.len() ==> {
            &&& events[k].cpu <= total_cpu(events)
            &&& events[k].ram <= total_ram(events)
            &&& events[k].disk <= total_disk(events)
            &&& events[k].time <= total_time(events)
        },
    decreases events.len(),
{
    if k == events.len() {
        assert(events.take(k) == events);
        if k > 0 {
            lemma_positive_totals(events.drop_last(), k - 1);
        }
    } else {
        let front = events.drop_last();
        assert(front.take(k) == events.take(k));
        lemma_positive_totals(front, k);
        lemma_positive_totals(front, front.len() as int);
    }
}

/// What `Stats::update` leaves after events whose differences are all
/// positive, folded into fresh statistics: where the sum of each field over
/// all the events fits its integer, nothing is held back. The statistics
/// are those of the unbounded fold, each sum is the arithmetic sum of its
/// field, and each maximum is the true maximum of its field.
pub proof fn lemma_positive_events_run(events: Seq<EventView>)
    requires
        all_positive(events),
        events.len() <= u64::MAX,
        total_cpu(events) <= i64::MAX,
        total_ram(events) <= i64::MAX,
        total_disk(events) <= i64::MAX,
        total_time(events) <= u64::MAX,
    ensures
        ({
            let r = run(fresh(), events);
            &&& r == fold(fresh(), events)
            &&& r.sum_cpu == total_cpu(events)
            &&& r.sum_ram == total_ram(events)
            &&& r.sum_disk == total_disk(events)
            &&& r.sum_time == total_time(events)
            &&& forall|i: int| 0 <= i < events.len() ==> (#[trigger] events[i]).cpu <= r.max_cpu
            &&& forall|i: int| 0 <= i < events.len() ==> (#[trigger] events[i]).ram <= r.max_ram
            &&& forall|i: int| 0 <= i < events.len() ==> (#[trigger] events[i]).disk <= r.max_disk
            &&& forall|i: int| 0 <= i < events.len() ==> (#[trigger] events[i]).time <= r.max_time
            &&& events.len() > 0 ==> exists|i: int|
                0 <= i < events.len() && (#[trigger] events[i]).cpu == r.max_cpu
            &&& events.len() > 0 ==> exists|i: int|
                0 <= i < events.len() && (#[trigger] events[i]).ram == r.max_ram
            &&& events.len() > 0 ==> exists|i: int|
                0 <= i < events.len() && (#[trigger] events[i]).disk == r.max_disk
            &&& events.len() > 0 ==> exists|i: int|
                0 <= i < events.len() && (#[trigger] events[i]).time == r.max_time
        }),
{
    if events.len() > 0 {
        lemma_positive_events(events);
    }
    assert forall|k: int| 0 <= k <= events.len() implies (#[trigger] fold(
        fresh(),
        events.take(k),
    )).in_range() by {
        let part = events.take(k);
        let r = fold(fresh(), part);
        lemma_positive_totals(events, k);
        lemma_fold_sums(fresh(), part);
        lemma_fold_maxima(fresh(), part);
        lemma_every_event_is_counted(fresh(), part);
        assert(r.rollovers <= k) by (nonlinear_arith)
            requires
                r.rollovers * effective_ceiling(r.ceiling) + r.calls == k,
                effective_ceiling(r.ceiling) >= 1,
                r.calls >= 0,
                r.rollovers >= 0,
        ;
        assert forall|i: int| 0 <= i < part.len() implies {
            &&& (#[trigger] part[i]).cpu <= i64::MAX
            &&& part[i].ram <= i64::MAX
            &&& part[i].disk <= i64::MAX
            &&& part[i].time <= u64::MAX
        } by {
            lemma_positive_totals(events, i);
        }
    }
    lemma_run_is_fold(fresh(), events);
    lemma_fold_sums(fresh(), events);
}

/// Two events folded in one after the other give the same statistics in
/// either order.
pub proof fn lemma_step_commutes(s: StatsView, a: EventView, b: EventView)
    ensures
        step(step(s, a), b) == step(step(s, b), a),
{
}

/// An event folded in at any place of a sequence gives what it gives folded
/// in last.
pub proof fn lemma_fold_insert(s: StatsView, events: Seq<EventView>, i: int, e: EventView)
    requires
        0 <= i <= events.len(),
    ensures
        fold(s, events.insert(i, e)) == step(fold(s, events), e),
    decreases events.len() - i,
{
    let longer = events.insert(i, e);
    if i == events.len() {
        assert(longer.drop_last() == events);
    } else {
        let front = events.drop_last();
        assert(longer.drop_last() == front.insert(i, e));
        lemma_fold_insert(s, front, i, e);
        lemma_step_commutes(fold(s, front), e, events.last());
    }
}

/// The statistics do not depend on the order of the events: two sequences
/// that hold the same events, each as often as the other, fold to the same
/// statistics. So events of different producers may interleave in any way.
pub proof fn lemma_fold_any_order(s: StatsView, a: Seq<EventView>, b: Seq<EventView>)
    requires
        a.to_multiset() == b.to_multiset(),
    ensures
        fold(s, a) == fold(s, b),
    decreases a.len(),
{
    a.to_multiset_ensures();
    b.to_multiset_ensures();
    if a.len() > 0 {
        let e = a.last();
        let front = a.drop_last();
        assert(a.to_multiset().count(e) > 0);
        let j = choose|j: int| 0 <= j < b.len() && b[j] == e;
        let rest = b.remove(j);
        assert(front == a.remove(a.len() - 1));
        lemma_fold_any_order(s, front, rest);
        assert(rest.insert(j, e) == b);
        lemma_fold_insert(s, rest, j, e);
    }
}

/// Reading is idempotent: a tick of the reporter leaves the statistics as
/// they were, so a second tick with no event folded in between is answered
/// as the first was, with the same text or with none.
pub proof fn lemma_report_repeats(s: StatsView)
    ensures
        next_stats(s, PoolEventView::Tick) == s,
        action_for(next_stats(s, PoolEventView::Tick), PoolEventView::Tick) == action_for(
            s,
            PoolEventView::Tick,
        ),
{
}

/// Only an event received changes the statistics. The closing of the
/// channel ends the aggregator and leaves the reporter as it was: a tick
/// after it is answered as a tick before it, and never with the order to
/// end.
pub proof fn lemma_closing_leaves_the_reporter(s: StatsView, happened: PoolEventView)
    ensures
        !(happened is Received) ==> next_stats(s, happened) == s,
        action_for(s, PoolEventView::Closed) == PoolActionView::Stop,
        action_for(next_stats(s, PoolEventView::Closed), PoolEventView::Tick) == action_for(
            s,
            PoolEventView::Tick,
        ),
        action_for(s, PoolEventView::Tick) != PoolActionView::Stop,
        action_for(s, PoolEventView::Shutdown) == PoolActionView::Stop,
{
}

/// Fresh statistics have no report, and from the first event on there
/// always is one: the call counter never returns to zero.
pub proof fn lemma_report_after_first_event(s: StatsView, events: Seq<EventView>)
    requires
        s.wf(),
        events.len() > 0,
    ensures
        report(fresh()) is None,
        report(fold(s, events)) is Some,
        report(run(s, events)) is Some,
{
    lemma_every_event_is_counted(s, events);
    lemma_run_calls(s, events);
}

/// Holding the sums and the rollover count to their range leaves the
/// ceiling and the counter as the unbounded fold has them.
proof fn lemma_run_calls(s: StatsView, events: Seq<EventView>)
    ensures
        run(s, events).ceiling == fold(s, events).ceiling,
        run(s, events).calls == fold(s, events).calls,
    decreases events.len(),
{
    if events.len() > 0 {
        lemma_run_calls(s, events.drop_last());
    }
}

/// A count of events splits in one way only into whole ceilings and a rest
/// between one and the ceiling.
proof fn lemma_split_count(ceiling: int, q: int, rest: int, rollovers: int, calls: int)
    requires
        ceiling >= 1,
        1 <= calls <= ceiling,
        1 <= rest <= ceiling,
        rollovers * ceiling + calls == q * ceiling + rest,
    ensures
        rollovers == q,
        calls == rest,
{
    assert(rollovers == q) by (nonlinear_arith)
        requires
            ceiling >= 1,
            1 <= calls <= ceiling,
            1 <= rest <= ceiling,
            rollovers * ceiling + calls == q * ceiling + rest,
    ;
}

} // verus!
