//! Running statistics over usage events: a call counter that rolls over at
//! a ceiling, running sums and running maxima.

use vstd::prelude::*;
use crate::arith::{add_i64, clamp_i64, clamp_u64, max_int};

verus! {

/// The ceiling that an unresolved counter takes: 10^14 calls.
pub const DEFAULT_MAX_CALL: u64 = 100_000_000_000_000;

/// What one finished request cost. `cpu` is a difference of CPU load in
/// hundredths of a percent; `ram` and `disk` are differences in bytes and,
/// like `cpu`, negative when usage went down; `time` is in milliseconds.
#[derive(Clone, Copy, Debug)]
pub struct StatEvent {
    pub cpu: i64,
    pub ram: i64,
    pub disk: i64,
    pub time: u64,
}

/// The running statistics. `max_call` is the ceiling of `total_calls`, and 0
/// while it is unresolved; `total_row` counts the rollovers.
#[derive(Clone, Copy, Debug)]
pub struct Stats {
    pub max_call: u64,
    pub total_row: u64,
    pub total_calls: u64,
    pub total_cpu: i64,
    pub total_ram: i64,
    pub total_disk: i64,
    pub total_time: u64,
    pub max_cpu: i64,
    pub max_ram: i64,
    pub max_disk: i64,
    pub max_time: u64,
}

/// A usage event as four integers.
pub ghost struct EventView {
    pub cpu: int,
    pub ram: int,
    pub disk: int,
    pub time: int,
}

/// The running statistics as unbounded integers.
pub ghost struct StatsView {
    pub ceiling: int,
    pub rollovers: int,
    pub calls: int,
    pub sum_cpu: int,
    pub sum_ram: int,
    pub sum_disk: int,
    pub sum_time: int,
    pub max_cpu: int,
    pub max_ram: int,
    pub max_disk: int,
    pub max_time: int,
}

impl View for StatEvent {
    type V = EventView;

    open spec fn view(&self) -> EventView {
        event_view(self.cpu as int, self.ram as int, self.disk as int, self.time as int)
    }
}

impl View for Stats {
    type V = StatsView;

    open spec fn view(&self) -> StatsView {
        StatsView {
            ceiling: self.max_call as int,
            rollovers: self.total_row as int,
            calls: self.total_calls as int,
            sum_cpu: self.total_cpu as int,
            sum_ram: self.total_ram as int,
            sum_disk: self.total_disk as int,
            sum_time: self.total_time as int,
            max_cpu: self.max_cpu as int,
            max_ram: self.max_ram as int,
            max_disk: self.max_disk as int,
            max_time: self.max_time as int,
        }
    }
}

/// The event with these four values.
pub open spec fn event_view(cpu: int, ram: int, disk: int, time: int) -> EventView {
    EventView { cpu, ram, disk, time }
}

/// The statistics before any event: every field zero, the ceiling
/// unresolved.
pub open spec fn fresh() -> StatsView {
    StatsView {
        ceiling: 0,
        rollovers: 0,
        calls: 0,
        sum_cpu: 0,
        sum_ram: 0,
        sum_disk: 0,
        sum_time: 0,
        max_cpu: 0,
        max_ram: 0,
        max_disk: 0,
        max_time: 0,
    }
}

/// The ceiling in force: the resolved one, or the default while none is
/// resolved.
pub open spec fn effective_ceiling(ceiling: int) -> int {
    if ceiling < 1 {
        DEFAULT_MAX_CALL as int
    } else {
        ceiling
    }
}

/// One event folded into the statistics, over unbounded integers. The
/// counter goes up by one and, where that exceeds the ceiling, goes down by
/// the ceiling while the rollover count goes up by one. The maxima are never
/// reset.
pub open spec fn step(s: StatsView, e: EventView) -> StatsView {
    let ceiling = effective_ceiling(s.ceiling);
    let rolls = s.calls + 1 > ceiling;
    StatsView {
        ceiling,
        rollovers: if rolls { s.rollovers + 1 } else { s.rollovers },
        calls: if rolls { s.calls + 1 - ceiling } else { s.calls + 1 },
        sum_cpu: s.sum_cpu + e.cpu,
        sum_ram: s.sum_ram + e.ram,
        sum_disk: s.sum_disk + e.disk,
        sum_time: s.sum_time + e.time,
        max_cpu: max_int(s.max_cpu, e.cpu),
        max_ram: max_int(s.max_ram, e.ram),
        max_disk: max_int(s.max_disk, e.disk),
        max_time: max_int(s.max_time, e.time),
    }
}

/// A sequence of events folded in, first to last, over unbounded integers.
pub open spec fn fold(s: StatsView, events: Seq<EventView>) -> StatsView
    decreases events.len(),
{
    if events.len() == 0 {
        s
    } else {
        step(fold(s, events.drop_last()), events.last())
    }
}

/// A sequence of events folded in, first to last, as `Stats::update` does
/// it: after each event the rollover count and the sums are held to the
/// range of their integers.
pub open spec fn run(s: StatsView, events: Seq<EventView>) -> StatsView
    decreases events.len(),
{
    if events.len() == 0 {
        s
    } else {
        step(run(s, events.drop_last()), events.last()).saturated()
    }
}

/// The sum of the CPU differences of a sequence of events.
pub open spec fn total_cpu(events: Seq<EventView>) -> int
    decreases events.len(),
{
    if events.len() == 0 {
        0
    } else {
        total_cpu(events.drop_last()) + events.last().cpu
    }
}

/// The sum of the memory differences of a sequence of events.
pub open spec fn total_ram(events: Seq<EventView>) -> int
    decreases events.len(),
{
    if events.len() == 0 {
        0
    } else {
        total_ram(events.drop_last()) + events.last().ram
    }
}

/// The sum of the disk differences of a sequence of events.
pub open spec fn total_disk(events: Seq<EventView>) -> int
    decreases events.len(),
{
    if events.len() == 0 {
        0
    } else {
        total_disk(events.drop_last()) + events.last().disk
    }
}

/// The sum of the elapsed times of a sequence of events.
pub open spec fn total_time(events: Seq<EventView>) -> int
    decreases events.len(),
{
    if events.len() == 0 {
        0
    } else {
        total_time(events.drop_last()) + events.last().time
    }
}

impl StatsView {
    /// The counter is within the ceiling in force.
    pub open spec fn wf(self) -> bool {
        0 <= self.calls <= effective_ceiling(self.ceiling)
    }

    /// Every field fits the machine integer that holds it.
    pub open spec fn in_range(self) -> bool {
        &&& 0 <= self.ceiling <= u64::MAX
        &&& 0 <= self.rollovers <= u64::MAX
        &&& 0 <= self.calls <= u64::MAX
        &&& i64::MIN <= self.sum_cpu <= i64::MAX
        &&& i64::MIN <= self.sum_ram <= i64::MAX
        &&& i64::MIN <= self.sum_disk <= i64::MAX
        &&& 0 <= self.sum_time <= u64::MAX
        &&& i64::MIN <= self.max_cpu <= i64::MAX
        &&& i64::MIN <= self.max_ram <= i64::MAX
        &&& i64::MIN <= self.max_disk <= i64::MAX
        &&& 0 <= self.max_time <= u64::MAX
    }

    /// The statistics with the rollover count and each sum held to the
    /// range of its machine integer.
    pub open spec fn saturated(self) -> StatsView {
        StatsView {
            rollovers: clamp_u64(self.rollovers),
            sum_cpu: clamp_i64(self.sum_cpu),
            sum_ram: clamp_i64(self.sum_ram),
            sum_disk: clamp_i64(self.sum_disk),
            sum_time: clamp_u64(self.sum_time),
            ..self
        }
    }

    /// The number of events that the counter and the rollover count stand
    /// for together.
    pub open spec fn events_counted(self) -> int {
        self.rollovers * effective_ceiling(self.ceiling) + self.calls
    }
}

impl Default for Stats {
    fn default() -> (s: Self)
        ensures
            s@ == fresh(),
    {
        Stats {
            max_call: 0,
            total_row: 0,
            total_calls: 0,
            total_cpu: 0,
            total_ram: 0,
            total_disk: 0,
            total_time: 0,
            max_cpu: 0,
            max_ram: 0,
            max_disk: 0,
            max_time: 0,
        }
    }
}

impl Stats {
    /// Folds one event into the statistics. An unresolved ceiling becomes
    /// the default. The rollover count and the sums stop at the bounds of
    /// their integers; everything else is exact.
    pub fn update(&mut self, cpu: i64, ram: i64, disk: i64, time: u64)
        ensures
            final(self)@ == step(
                old(self)@,
                event_view(cpu as int, ram as int, disk as int, time as int),
            ).saturated(),
            old(self)@.wf() ==> 1 <= final(self).total_calls <= final(self).max_call,
    {
        if self.max_call < 1 {
            self.max_call = DEFAULT_MAX_CALL;
        }
        if self.total_calls >= self.max_call {
            self.total_row = self.total_row.saturating_add(1);
            self.total_calls = self.total_calls - self.max_call + 1;
        } else {
            self.total_calls = self.total_calls + 1;
        }
        self.total_cpu = add_i64(self.total_cpu, cpu);
        self.total_ram = add_i64(self.total_ram, ram);
        self.total_disk = add_i64(self.total_disk, disk);
        self.total_time = self.total_time.saturating_add(time);
        if cpu > self.max_cpu {
            self.max_cpu = cpu;
        }
        if ram > self.max_ram {
            self.max_ram = ram;
        }
        if disk > self.max_disk {
            self.max_disk = disk;
        }
        if time > self.max_time {
            self.max_time = time;
        }
    }
}

} // verus!
