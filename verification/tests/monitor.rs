use s3_stats::monitor::{
    avg_cpu, duration_string, used_disk_space, Monitor, Snapshot, Volume,
};
use std::time::Duration;
use s3_stats::stats::StatEvent;

#[test]
fn mean_load_of_no_core_is_zero() {
    assert_eq!(avg_cpu(&vec![]), 0);
}

#[test]
fn mean_load_is_rounded_to_the_nearest() {
    assert_eq!(avg_cpu(&vec![1000]), 1000);
    assert_eq!(avg_cpu(&vec![1000, 2000]), 1500);
    assert_eq!(avg_cpu(&vec![1000, 2001]), 1501);
    assert_eq!(avg_cpu(&vec![1, 1, 2]), 1);
    assert_eq!(avg_cpu(&vec![1, 2, 2]), 2);
    assert_eq!(avg_cpu(&vec![0, 0, 0, 1]), 0);
    assert_eq!(avg_cpu(&vec![u32::MAX, u32::MAX, u32::MAX]), u32::MAX);
    assert_eq!(avg_cpu(&vec![u32::MAX, u32::MAX - 1]), u32::MAX);
}

#[test]
fn mean_load_agrees_with_the_mean_of_the_floats() {
    let loads = [12.5f32, 50.0, 99.75, 3.25];
    let cores: Vec<u32> = loads.iter().map(|l| (l * 100.0).round() as u32).collect();
    let mean = loads.iter().sum::<f32>() / loads.len() as f32;
    assert_eq!(avg_cpu(&cores), (mean * 100.0).round() as u32);
}

#[test]
fn used_disk_space_adds_what_each_disk_uses() {
    assert_eq!(used_disk_space(&vec![]), 0);
    let volumes = vec![
        Volume { total: 1000, available: 400 },
        Volume { total: 50, available: 50 },
        Volume { total: 7, available: 0 },
    ];
    assert_eq!(used_disk_space(&volumes), 607);
}

#[test]
fn used_disk_space_counts_nothing_for_a_disk_that_reports_more_free_than_it_holds() {
    let volumes = vec![Volume { total: 10, available: 25 }, Volume { total: 9, available: 4 }];
    assert_eq!(used_disk_space(&volumes), 5);
}

#[test]
fn used_disk_space_stops_at_the_bound() {
    let volumes = vec![Volume { total: u64::MAX, available: 1 }, Volume { total: 9, available: 4 }];
    assert_eq!(used_disk_space(&volumes), u64::MAX);
}

#[test]
fn capture_puts_the_readings_together() {
    let snap = Snapshot::capture(
        4096,
        &vec![100, 300],
        &vec![Volume { total: 10, available: 3 }],
        77,
    );
    assert_eq!(snap.used_mem, 4096);
    assert_eq!(snap.cpu, 200);
    assert_eq!(snap.used_disk, 7);
    assert_eq!(snap.taken_at, 77);
}

#[test]
fn capture_of_nothing_is_all_zero() {
    let snap = Snapshot::capture(0, &vec![], &vec![], 0);
    assert_eq!((snap.cpu, snap.used_mem, snap.used_disk, snap.taken_at), (0, 0, 0, 0));
}

#[test]
fn snapshot_line_shows_megabytes_and_two_decimals() {
    let snap = Snapshot {
        cpu: 1234,
        used_mem: 5 * 1024 * 1024 + 1024 * 1024 - 1,
        used_disk: 300 * 1024 * 1024,
        taken_at: 0,
    };
    assert_eq!(snap.line("Begin"), "[Begin] RAM: 5 MB | CPU: 12.34% | DiskUsed: 300 MB");
    assert_eq!(
        snap.line("End"),
        format!(
            "[End] RAM: {} MB | CPU: {:.2}% | DiskUsed: {} MB",
            snap.used_mem / 1024 / 1024,
            12.34f64,
            snap.used_disk / 1024 / 1024
        )
    );
    let idle = Snapshot { cpu: 7, used_mem: 0, used_disk: 0, taken_at: 0 };
    assert_eq!(idle.line("Begin"), "[Begin] RAM: 0 MB | CPU: 0.07% | DiskUsed: 0 MB");
}

#[test]
fn start_keeps_the_first_snapshot() {
    let m = Monitor::start(Snapshot { cpu: 5, used_mem: 6, used_disk: 7, taken_at: 8 });
    assert_eq!((m.start_cpu, m.start_mem, m.start_disk, m.start_time), (5, 6, 7, 8));
}

#[test]
fn end_gives_the_differences() {
    let m = Monitor::start(Snapshot { cpu: 500, used_mem: 1000, used_disk: 50, taken_at: 7 });
    let e = m.end(Snapshot { cpu: 300, used_mem: 4000, used_disk: 20, taken_at: 19 });
    assert_eq!(e.cpu, -200);
    assert_eq!(e.ram, 3000);
    assert_eq!(e.disk, -30);
    assert_eq!(e.time, 12);
}

#[test]
fn end_holds_the_differences_to_their_range() {
    let m = Monitor::start(Snapshot { cpu: u32::MAX, used_mem: 0, used_disk: u64::MAX, taken_at: 9 });
    let e = m.end(Snapshot { cpu: 0, used_mem: u64::MAX, used_disk: 0, taken_at: 3 });
    assert_eq!(e.cpu, -(u32::MAX as i64));
    assert_eq!(e.ram, i64::MAX);
    assert_eq!(e.disk, i64::MIN);
    assert_eq!(e.time, 0);
}

#[test]
fn event_line_shows_signed_megabytes() {
    let e = StatEvent { cpu: -250, ram: 3 * 1024 * 1024, disk: -(2 * 1024 * 1024) - 5, time: 1234 };
    assert_eq!(e.line(), "[TOGNOEK] ΔRAM: 3 MB | ΔCPU: -2.50% | ΔDisk: -2 MB | Time: 1.234s");
    let small = StatEvent { cpu: 5, ram: -1, disk: 1024 * 1024 - 1, time: 0 };
    assert_eq!(small.line(), "[TOGNOEK] ΔRAM: 0 MB | ΔCPU: 0.05% | ΔDisk: 0 MB | Time: 0ns");
    assert_eq!(
        e.line(),
        format!(
            "[TOGNOEK] ΔRAM: {} MB | ΔCPU: {:.2}% | ΔDisk: {} MB | Time: {:?}",
            e.ram / 1024 / 1024,
            -2.5f64,
            e.disk / 1024 / 1024,
            Duration::from_millis(e.time)
        )
    );
}

#[test]
fn durations_are_shown_as_the_standard_library_shows_them() {
    assert_eq!(duration_string(0), "0ns");
    assert_eq!(duration_string(1), "1ms");
    assert_eq!(duration_string(999), "999ms");
    assert_eq!(duration_string(1000), "1s");
    assert_eq!(duration_string(1500), "1.5s");
    assert_eq!(duration_string(1050), "1.05s");
    assert_eq!(duration_string(1005), "1.005s");
    assert_eq!(duration_string(61_230), "61.23s");
    for ms in (0u64..3000).chain([59_999, 60_000, 3_600_001, u64::MAX / 1000, u64::MAX]) {
        assert_eq!(duration_string(ms), format!("{:?}", Duration::from_millis(ms)), "{}", ms);
    }
}
