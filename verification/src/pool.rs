//! The owner of the running statistics and what it decides: an event that
//! arrives is folded in, and a tick of the reporter is answered with the
//! report to show. The closing of the channel ends the aggregator; the
//! reporter ends on a signal of its own. Whoever runs the tasks hands in
//! what happened and carries out what comes back.

use vstd::prelude::*;
use crate::report::report;
use crate::stats::{fresh, step, EventView, StatEvent, Stats, StatsView};
use crate::config::resolved;

verus! {

/// How many events the channel to the aggregator holds before a producer
/// has to wait.
pub const CHANNEL_CAPACITY: usize = 1000;

/// The time between two reports where none is configured, in milliseconds.
pub const DEFAULT_INTERVAL_MS: u64 = 500;

/// What can happen to the pool.
#[derive(Clone, Copy, Debug)]
pub enum PoolEvent {
    /// The aggregator took this event from the channel.
    Received(StatEvent),
    /// The channel is closed and empty: every sender is gone and every
    /// event that was sent has been received.
    Closed,
    /// The reporter woke up.
    Tick,
    /// The reporter was told to end.
    Shutdown,
}

/// What is to be done after something happened.
#[derive(Debug)]
pub enum PoolAction {
    /// The aggregator waits for the next event.
    Wait,
    /// The task that handed this in ends: the aggregator when the channel
    /// has closed, the reporter when it was told to end.
    Stop,
    /// The reporter shows this text, then sleeps for the interval.
    Show(String),
    /// The reporter shows nothing and sleeps for the interval.
    Sleep,
}

/// What can happen to the pool, over the model of an event.
pub ghost enum PoolEventView {
    Received(EventView),
    Closed,
    Tick,
    Shutdown,
}

/// What is to be done, over the text as a sequence of characters.
pub ghost enum PoolActionView {
    Wait,
    Stop,
    Show(Seq<char>),
    Sleep,
}

impl View for PoolEvent {
    type V = PoolEventView;

    open spec fn view(&self) -> PoolEventView {
        match *self {
            PoolEvent::Received(e) => PoolEventView::Received(e@),
            PoolEvent::Closed => PoolEventView::Closed,
            PoolEvent::Tick => PoolEventView::Tick,
            PoolEvent::Shutdown => PoolEventView::Shutdown,
        }
    }
}

impl View for PoolAction {
    type V = PoolActionView;

    open spec fn view(&self) -> PoolActionView {
        match *self {
            PoolAction::Wait => PoolActionView::Wait,
            PoolAction::Stop => PoolActionView::Stop,
            PoolAction::Show(text) => PoolActionView::Show(text@),
            PoolAction::Sleep => PoolActionView::Sleep,
        }
    }
}

/// The statistics after something happened: an event received is folded
/// in as `Stats::update` does it; nothing else changes them.
pub open spec fn next_stats(s: StatsView, happened: PoolEventView) -> StatsView {
    match happened {
        PoolEventView::Received(e) => step(s, e).saturated(),
        PoolEventView::Closed => s,
        PoolEventView::Tick => s,
        PoolEventView::Shutdown => s,
    }
}

/// What is to be done after something happened to the statistics `s`. The
/// aggregator waits after each event and ends when the channel has closed.
/// The reporter answers every tick with the report, if there is one,
/// whether or not the channel has closed, and ends only when it is told to.
pub open spec fn action_for(s: StatsView, happened: PoolEventView) -> PoolActionView {
    match happened {
        PoolEventView::Received(_) => PoolActionView::Wait,
        PoolEventView::Closed => PoolActionView::Stop,
        PoolEventView::Tick => match report(s) {
            Some(text) => PoolActionView::Show(text),
            None => PoolActionView::Sleep,
        },
        PoolEventView::Shutdown => PoolActionView::Stop,
    }
}

/// The running statistics with their owner: the one place where they are
/// written and read. The ceiling is resolved when the pool is made, and the
/// call counter never exceeds it.
pub struct StatsPool {
    stats: Stats,
    interval_ms: u64,
}

impl View for StatsPool {
    type V = StatsView;

    closed spec fn view(&self) -> StatsView {
        self.stats@
    }
}

impl StatsPool {
    #[verifier::type_invariant]
    spec fn valid(self) -> bool {
        &&& self.stats.max_call >= 1
        &&& self.stats.total_calls <= self.stats.max_call
    }

    /// The time between two reports, in milliseconds.
    pub closed spec fn interval(self) -> u64 {
        self.interval_ms
    }

    /// A pool with fresh statistics, the ceiling resolved to `max_call` (to
    /// the default where that is zero), that reports every `interval_ms`
    /// milliseconds.
    pub fn new(interval_ms: u64, max_call: u64) -> (pool: StatsPool)
        ensures
            pool@ == resolved(fresh(), max_call as int),
            pool.interval() == interval_ms,
    {
        let mut stats = Stats::default();
        stats.resolve(max_call);
        StatsPool { stats, interval_ms }
    }

    /// Takes in what happened and says what is to be done. Only an event
    /// received changes the statistics.
    pub fn handle(&mut self, happened: PoolEvent) -> (action: PoolAction)
        ensures
            final(self)@ == next_stats(old(self)@, happened@),
            action@ == action_for(old(self)@, happened@),
            final(self).interval() == old(self).interval(),
            final(self)@.wf(),
            final(self)@.ceiling >= 1,
    {
        proof {
            use_type_invariant(&*self);
        }
        match happened {
            PoolEvent::Received(e) => {
                let mut stats: Stats = self.stats;
                stats.update(e.cpu, e.ram, e.disk, e.time);
                self.stats = stats;
                PoolAction::Wait
            },
            PoolEvent::Closed => PoolAction::Stop,
            PoolEvent::Tick => match self.stats.draw_table() {
                Some(text) => PoolAction::Show(text),
                None => PoolAction::Sleep,
            },
            PoolEvent::Shutdown => PoolAction::Stop,
        }
    }

    /// The statistics as they stand.
    pub fn stats(&self) -> (stats: Stats)
        ensures
            stats@ == self@,
    {
        self.stats
    }

    /// The time between two reports, in milliseconds.
    pub fn interval_ms(&self) -> (ms: u64)
        ensures
            ms == self.interval(),
    {
        self.interval_ms
    }
}

} // verus!
