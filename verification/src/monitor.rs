//! Sampling at the two ends of a request: a snapshot of CPU load, memory
//! and disk in use, and the cost of the request as the difference of two.

use vstd::prelude::*;
use vstd::string::StringExecFns;
use crate::arith::{clamp_i64, clamp_u64, diff_i64, div_i64, div_nearest, div_toward_zero};
use crate::stats::{event_view, StatEvent};
use crate::text::{
    decimal, digit, digit_char, fixed2, push_decimal, push_fixed2, push_signed, signed_decimal,
};

verus! {

/// Sizes are shown in megabytes: bytes divided by this, twice.
pub const KIB: u64 = 1024;

/// One disk: its size and what is free of it, in bytes.
#[derive(Clone, Copy, Debug)]
pub struct Volume {
    pub total: u64,
    pub available: u64,
}

/// The resources in use at one moment. `cpu` is the load in hundredths of a
/// percent, `used_mem` and `used_disk` are bytes, `taken_at` is a time in
/// milliseconds on a clock that does not go back.
#[derive(Clone, Copy, Debug)]
pub struct Snapshot {
    pub cpu: u32,
    pub used_mem: u64,
    pub used_disk: u64,
    pub taken_at: u64,
}

/// The snapshot taken when a request began. It is handed over when the
/// request ends, so that one beginning is paired with one end.
#[derive(Debug)]
pub struct Monitor {
    pub start_mem: u64,
    pub start_cpu: u32,
    pub start_time: u64,
    pub start_disk: u64,
}

/// The sum of the loads of some cores.
pub open spec fn load_sum(cores: Seq<u32>) -> int
    decreases cores.len(),
{
    if cores.len() == 0 {
        0
    } else {
        load_sum(cores.drop_last()) + cores.last()
    }
}

/// The mean load of the cores, rounded to the nearest hundredth of a
/// percent, a half upwards; zero where there is no core.
pub open spec fn mean_load(cores: Seq<u32>) -> int {
    if cores.len() == 0 {
        0
    } else {
        div_nearest(load_sum(cores), cores.len() as int)
    }
}

/// What is in use of one disk: its size less what is free, and zero where
/// more is reported free than the disk holds.
pub open spec fn volume_used(v: Volume) -> int {
    if v.total >= v.available {
        v.total - v.available
    } else {
        0
    }
}

/// What is in use of all the disks together.
pub open spec fn used_space(volumes: Seq<Volume>) -> int
    decreases volumes.len(),
{
    if volumes.len() == 0 {
        0
    } else {
        used_space(volumes.drop_last()) + volume_used(volumes.last())
    }
}

/// A size in bytes as it is shown: divided by 1024 twice.
pub open spec fn megabytes(bytes: int) -> int {
    bytes / 1024 / 1024
}

/// A signed difference in bytes as it is shown: divided by 1024 twice, each
/// time rounded towards zero.
pub open spec fn signed_megabytes(bytes: int) -> int {
    div_toward_zero(div_toward_zero(bytes, 1024), 1024)
}

/// The line that reports a snapshot under a tag.
pub open spec fn snapshot_line(tag: Seq<char>, cpu: int, used_mem: int, used_disk: int) -> Seq<
    char,
> {
    "["@ + tag + "] RAM: "@ + decimal(megabytes(used_mem) as nat) + " MB | CPU: "@ + fixed2(cpu)
        + "% | DiskUsed: "@ + decimal(megabytes(used_disk) as nat) + " MB"@
}

/// Thousandths after a decimal point, without the zeros at the end:
/// nothing for 0, `.5` for 500, `.05` for 50, `.005` for 5.
pub open spec fn thousandths(f: nat) -> Seq<char>
    recommends
        f < 1000,
{
    if f == 0 {
        Seq::<char>::empty()
    } else if f % 100 == 0 {
        seq!['.', digit_char((f / 100) as int)]
    } else if f % 10 == 0 {
        seq!['.', digit_char((f / 100) as int), digit_char((f / 10 % 10) as int)]
    } else {
        seq![
            '.',
            digit_char((f / 100) as int),
            digit_char((f / 10 % 10) as int),
            digit_char((f % 10) as int),
        ]
    }
}

/// A time in milliseconds as the standard library shows a duration: `0ns`
/// for none, whole milliseconds below a second, and from a second on
/// seconds with the thousandths that are needed.
pub open spec fn duration_text(ms: nat) -> Seq<char> {
    if ms == 0 {
        "0ns"@
    } else if ms < 1000 {
        decimal(ms) + "ms"@
    } else {
        decimal(ms / 1000) + thousandths(ms % 1000) + "s"@
    }
}

/// The line that reports what a request cost.
pub open spec fn delta_line(cpu: int, ram: int, disk: int, time: int) -> Seq<char> {
    "[TOGNOEK] ΔRAM: "@ + signed_decimal(signed_megabytes(ram)) + " MB | ΔCPU: "@ + fixed2(cpu)
        + "% | ΔDisk: "@ + signed_decimal(signed_megabytes(disk)) + " MB | Time: "@
        + duration_text(time as nat)
}

proof fn lemma_load_sum_bound(cores: Seq<u32>)
    ensures
        0 <= load_sum(cores) <= cores.len() * u32::MAX,
    decreases cores.len(),
{
    if cores.len() > 0 {
        lemma_load_sum_bound(cores.drop_last());
        assert(cores.len() * u32::MAX == (cores.len() - 1) * u32::MAX + u32::MAX)
            by (nonlinear_arith);
    }
}

/// The mean load of the cores, rounded to the nearest hundredth of a
/// percent; zero where there is no core.
pub fn avg_cpu(cores: &Vec<u32>) -> (mean: u32)
    ensures
        mean == mean_load(cores@),
{
    let n: usize = cores.len();
    if n == 0 {
        return 0;
    }
    let mut sum: u128 = 0;
    let mut i: usize = 0;
    while i < n
        invariant
            n == cores.len(),
            i <= n,
            sum == load_sum(cores@.take(i as int)),
            sum <= i * u32::MAX,
        decreases n - i,
    {
        proof {
            assert(cores@.take(i + 1).drop_last() == cores@.take(i as int));
            assert((i + 1) * u32::MAX == i * u32::MAX + u32::MAX) by (nonlinear_arith);
        }
        sum = sum + cores[i] as u128;
        i = i + 1;
    }
    proof {
        assert(cores@.take(n as int) == cores@);
        lemma_load_sum_bound(cores@);
        assert((2 * sum + n) / (2 * n) <= u32::MAX) by (nonlinear_arith)
            requires
                0 <= sum <= n * u32::MAX,
                n > 0,
        ;
    }
    ((2 * sum + n as u128) / (2 * (n as u128))) as u32
}

/// What is in use of all the disks together, no more than `u64::MAX`.
pub fn used_disk_space(volumes: &Vec<Volume>) -> (used: u64)
    ensures
        used == clamp_u64(used_space(volumes@)),
{
    let n: usize = volumes.len();
    let mut used: u64 = 0;
    let mut i: usize = 0;
    while i < n
        invariant
            n == volumes.len(),
            i <= n,
            used_space(volumes@.take(i as int)) >= 0,
            used == clamp_u64(used_space(volumes@.take(i as int))),
        decreases n - i,
    {
        proof {
            assert(volumes@.take(i + 1).drop_last() == volumes@.take(i as int));
        }
        let v: Volume = volumes[i];
        used = used.saturating_add(v.total.saturating_sub(v.available));
        i = i + 1;
    }
    proof {
        assert(volumes@.take(n as int) == volumes@);
    }
    used
}

impl Snapshot {
    /// The snapshot made of what was read: the memory in use, the load of
    /// each core, each disk, and the time of reading.
    pub fn capture(used_mem: u64, cores: &Vec<u32>, volumes: &Vec<Volume>, taken_at: u64) -> (snap:
        Snapshot)
        ensures
            snap.used_mem == used_mem,
            snap.cpu == mean_load(cores@),
            snap.used_disk == clamp_u64(used_space(volumes@)),
            snap.taken_at == taken_at,
    {
        Snapshot {
            cpu: avg_cpu(cores),
            used_mem,
            used_disk: used_disk_space(volumes),
            taken_at,
        }
    }

    /// The line that reports this snapshot under `tag`: memory and disk in
    /// megabytes, the load with two decimals.
    pub fn line(&self, tag: &str) -> (text: String)
        ensures
            text@ == snapshot_line(
                tag@,
                self.cpu as int,
                self.used_mem as int,
                self.used_disk as int,
            ),
    {
        let mut text = String::from_str("[");
        text.append(tag);
        text.append("] RAM: ");
        push_decimal(&mut text, (self.used_mem / KIB / KIB) as u128);
        text.append(" MB | CPU: ");
        push_fixed2(&mut text, self.cpu as i64);
        text.append("% | DiskUsed: ");
        push_decimal(&mut text, (self.used_disk / KIB / KIB) as u128);
        text.append(" MB");
        text
    }
}

impl Monitor {
    /// Begins a request with the snapshot taken at its start.
    pub fn start(begin: Snapshot) -> (monitor: Monitor)
        ensures
            monitor.start_mem == begin.used_mem,
            monitor.start_cpu == begin.cpu,
            monitor.start_time == begin.taken_at,
            monitor.start_disk == begin.used_disk,
    {
        Monitor {
            start_mem: begin.used_mem,
            start_cpu: begin.cpu,
            start_time: begin.taken_at,
            start_disk: begin.used_disk,
        }
    }

    /// Ends the request with the snapshot taken at its end, and gives what
    /// it cost: each figure at the end less the figure at the start. The
    /// differences of memory and disk are held to the range of `i64`; the
    /// time is zero where the end is not after the start.
    pub fn end(self, end: Snapshot) -> (event: StatEvent)
        ensures
            event@ == event_view(
                end.cpu - self.start_cpu,
                clamp_i64(end.used_mem - self.start_mem),
                clamp_i64(end.used_disk - self.start_disk),
                clamp_u64(end.taken_at - self.start_time),
            ),
    {
        StatEvent {
            cpu: end.cpu as i64 - self.start_cpu as i64,
            ram: diff_i64(end.used_mem, self.start_mem),
            disk: diff_i64(end.used_disk, self.start_disk),
            time: end.taken_at.saturating_sub(self.start_time),
        }
    }
}

fn thousandths_text(f: u64) -> (text: String)
    requires
        f < 1000,
    ensures
        text@ == thousandths(f as nat),
{
    let mut text = String::new();
    if f != 0 {
        text.push('.');
        text.push(digit((f / 100) as u8));
        if f % 100 != 0 {
            text.push(digit((f / 10 % 10) as u8));
            if f % 10 != 0 {
                text.push(digit((f % 10) as u8));
            }
        }
    }
    text
}

/// A time in milliseconds as the standard library shows a duration.
pub fn duration_string(ms: u64) -> (text: String)
    ensures
        text@ == duration_text(ms as nat),
{
    if ms == 0 {
        String::from_str("0ns")
    } else if ms < 1000 {
        let mut text = String::new();
        push_decimal(&mut text, ms as u128);
        text.append("ms");
        text
    } else {
        let fraction = thousandths_text(ms % 1000);
        let mut text = String::new();
        push_decimal(&mut text, (ms / 1000) as u128);
        text.append(fraction.as_str());
        text.append("s");
        text
    }
}

impl StatEvent {
    /// The line that reports what a request cost: the differences of memory
    /// and disk in megabytes, that of the load with two decimals, the time
    /// as a duration.
    pub fn line(&self) -> (text: String)
        ensures
            text@ == delta_line(
                self.cpu as int,
                self.ram as int,
                self.disk as int,
                self.time as int,
            ),
    {
        let mut text = String::from_str("[TOGNOEK] ΔRAM: ");
        push_signed(&mut text, div_i64(div_i64(self.ram, KIB), KIB));
        text.append(" MB | ΔCPU: ");
        push_fixed2(&mut text, self.cpu);
        text.append("% | ΔDisk: ");
        push_signed(&mut text, div_i64(div_i64(self.disk, KIB), KIB));
        text.append(" MB | Time: ");
        let time = duration_string(self.time);
        text.append(time.as_str());
        text
    }
}

} // verus!
