use s3_stats::stats::Stats;

fn formatted(rollovers: u64, n: u64) -> String {
    let stats = Stats { total_row: rollovers, ..Stats::default() };
    stats.format_number(n)
}

#[test]
fn format_number_below_a_thousand_is_plain() {
    assert_eq!(formatted(0, 0), "0");
    assert_eq!(formatted(0, 7), "7");
    assert_eq!(formatted(0, 999), "999");
}

#[test]
fn format_number_two_decimals_under_ten() {
    assert_eq!(formatted(0, 1000), "1.00K");
    assert_eq!(formatted(0, 1500), "1.50K");
    assert_eq!(formatted(0, 1234), "1.23K");
    assert_eq!(formatted(0, 1236), "1.24K");
}

#[test]
fn format_number_one_decimal_under_a_hundred() {
    assert_eq!(formatted(0, 25000), "25.0K");
    assert_eq!(formatted(0, 10000), "10.0K");
    assert_eq!(formatted(0, 12349), "12.3K");
    assert_eq!(formatted(0, 12350), "12.4K");
}

#[test]
fn format_number_no_decimals_from_a_hundred() {
    assert_eq!(formatted(0, 100_000), "100K");
    assert_eq!(formatted(0, 123_456), "123K");
    assert_eq!(formatted(0, 999_499), "999K");
}

#[test]
fn format_number_rounds_without_changing_the_suffix() {
    assert_eq!(formatted(0, 999_999), "1000K");
    assert_eq!(formatted(0, 9_999), "10.00K");
    assert_eq!(formatted(0, 99_990), "100.0K");
}

#[test]
fn format_number_rounds_a_half_upwards() {
    assert_eq!(formatted(0, 1005), "1.01K");
    assert_eq!(formatted(0, 1004), "1.00K");
    assert_eq!(formatted(0, 999_500), "1000K");
}

#[test]
fn format_number_every_suffix() {
    assert_eq!(formatted(0, 1_000_000), "1.00M");
    assert_eq!(formatted(0, 2_500_000_000), "2.50B");
    assert_eq!(formatted(0, 73_000_000_000_000), "73.0T");
    assert_eq!(formatted(0, 100_000_000_000_000), "100T");
    assert_eq!(formatted(0, 4_000_000_000_000_000), "4.00P");
    assert_eq!(formatted(0, 1_000_000_000_000_000_000), "1.00E");
    assert_eq!(formatted(0, u64::MAX), "18.4E");
}

#[test]
fn format_number_prefixes_rollovers() {
    assert_eq!(formatted(2, 500), "2-500");
    assert!(formatted(2, 500).starts_with("2-500"));
    assert_eq!(formatted(1, 1500), "1-1.50K");
    assert_eq!(formatted(12, 25000), "12-25.0K");
    assert_eq!(formatted(u64::MAX, 1), "18446744073709551615-1");
}

#[test]
fn no_table_before_the_first_event() {
    assert_eq!(Stats::default().draw_table(), None);
    let at_zero = Stats { max_call: 5, total_row: 3, total_cpu: 9, ..Stats::default() };
    assert_eq!(at_zero.draw_table(), None);
}

fn sample() -> Stats {
    Stats {
        max_call: 3,
        total_row: 1,
        total_calls: 2,
        total_cpu: 1501,
        total_ram: 10,
        total_disk: -7,
        total_time: 9,
        max_cpu: 1234,
        max_ram: 123_456_789_012,
        max_disk: 3,
        max_time: 5,
    }
}

#[test]
fn table_is_laid_out_in_fixed_columns() {
    let text = sample().draw_table().unwrap();
    let mut expected = String::new();
    expected.push_str("\x1B[2J\x1B[3J\x1B[H");
    expected.push_str(
        "===========================[http://127.0.0.1:3000]============================\n",
    );
    expected.push_str(
        "┌─────────────┬───────────────┬───────────────┬───────────────┬───────────────┐\n",
    );
    expected.push_str(
        "│ TotalCalls  │   CPU %       │   RAM (MB)    │  Disk (MB)    │  Time (ms)    │\n",
    );
    expected.push_str(
        "├─────────────┼───────────────┼───────────────┼───────────────┼───────────────┤\n",
    );
    expected.push_str(&format!(
        "│ {:11} │ Avg: {:8.2} │ Avg: {:8} │ Avg: {:8} │ Avg: {:8} │\n",
        "1-2", 7.51f64, 5, -3, 4
    ));
    expected.push_str(&format!(
        "│ {:11} │ Max: {:8.2} │ Max: {:8} │ Max: {:8} │ Max: {:8} │\n",
        "", 12.34f64, 123_456_789_012i64, 3, 5
    ));
    expected.push_str(
        "└─────────────┴───────────────┴───────────────┴───────────────┴───────────────┘\n",
    );
    assert_eq!(text, expected);
}

#[test]
fn table_lines_are_written_out() {
    let text = sample().draw_table().unwrap();
    let lines: Vec<&str> = text.lines().collect();
    assert_eq!(lines.len(), 7);
    assert_eq!(
        lines[4],
        "│ 1-2         │ Avg:     7.51 │ Avg:        5 │ Avg:       -3 │ Avg:        4 │"
    );
    assert_eq!(
        lines[5],
        "│             │ Max:    12.34 │ Max: 123456789012 │ Max:        3 │ Max:        5 │"
    );
}

#[test]
fn average_load_is_rounded_to_the_nearest_hundredth() {
    let line = |total_cpu: i64, total_calls: u64| {
        let s = Stats { max_call: 100, total_calls, total_cpu, ..Stats::default() };
        let text = s.draw_table().unwrap();
        text.lines().nth(4).unwrap().to_string()
    };
    assert!(line(1000, 3).contains("Avg:     3.33 │"));
    assert!(line(2000, 3).contains("Avg:     6.67 │"));
    assert!(line(-2000, 3).contains("Avg:    -6.67 │"));
    assert!(line(1, 2).contains("Avg:     0.01 │"));
    assert!(line(-1, 2).contains("Avg:    -0.01 │"));
    assert!(line(1, 3).contains("Avg:     0.00 │"));
    assert!(line(i64::MIN, 1).contains("Avg: -92233720368547758.08 │"));
    assert!(line(1502, 3).contains(&format!("Avg: {:8.2} │", 15.02f64 / 3.0)));
}

#[test]
fn other_averages_round_towards_zero() {
    let s = Stats {
        max_call: 10,
        total_calls: 4,
        total_cpu: -150,
        total_ram: -7,
        total_disk: 7,
        total_time: 7,
        ..Stats::default()
    };
    let text = s.draw_table().unwrap();
    let lines: Vec<&str> = text.lines().collect();
    assert_eq!(
        lines[4],
        "│ 4           │ Avg:    -0.38 │ Avg:       -1 │ Avg:        1 │ Avg:        1 │"
    );
}

#[test]
fn reading_twice_shows_the_same() {
    let s = sample();
    let first = s.draw_table();
    let second = s.draw_table();
    assert_eq!(first, second);
    assert!(first.is_some());
}
