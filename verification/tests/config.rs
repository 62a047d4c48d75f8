use s3_stats::config::resolve_max_call;
use s3_stats::stats::{Stats, DEFAULT_MAX_CALL};

#[test]
fn no_override_gives_the_default() {
    assert_eq!(resolve_max_call(None), 100_000_000_000_000);
    assert_eq!(resolve_max_call(None), DEFAULT_MAX_CALL);
}

#[test]
fn a_decimal_override_is_taken() {
    assert_eq!(resolve_max_call(Some("5")), 5);
    assert_eq!(resolve_max_call(Some("0042")), 42);
    assert_eq!(resolve_max_call(Some("+7")), 7);
    assert_eq!(resolve_max_call(Some("0")), 0);
    assert_eq!(resolve_max_call(Some("18446744073709551615")), u64::MAX);
}

#[test]
fn a_malformed_override_gives_the_default() {
    for text in ["", "+", "-", "-1", "abc", "12a", " 5", "5 ", "1_000", "++1", "1.5", "٣"] {
        assert_eq!(resolve_max_call(Some(text)), DEFAULT_MAX_CALL, "{:?}", text);
    }
}

#[test]
fn an_override_too_large_gives_the_default() {
    assert_eq!(resolve_max_call(Some("18446744073709551616")), DEFAULT_MAX_CALL);
    assert_eq!(resolve_max_call(Some("99999999999999999999999")), DEFAULT_MAX_CALL);
}

#[test]
fn resolve_sets_an_unresolved_ceiling_once() {
    let mut s = Stats::default();
    s.resolve(3);
    assert_eq!(s.max_call, 3);
    s.resolve(9);
    assert_eq!(s.max_call, 3);
}

#[test]
fn resolve_with_zero_takes_the_default() {
    let mut s = Stats::default();
    s.resolve(resolve_max_call(Some("0")));
    assert_eq!(s.max_call, DEFAULT_MAX_CALL);
}

#[test]
fn resolve_changes_nothing_but_the_ceiling() {
    let mut s = Stats { total_calls: 2, total_cpu: 9, max_time: 4, ..Stats::default() };
    s.resolve(5);
    assert_eq!(s.max_call, 5);
    assert_eq!(s.total_calls, 2);
    assert_eq!(s.total_cpu, 9);
    assert_eq!(s.max_time, 4);
}
