use s3_stats::calendar::Stamp;

fn fields(seconds: u64) -> (u16, u8, u8, u8, u8, u8) {
    let s = Stamp::from_unix(seconds);
    (s.year, s.month, s.day, s.hour, s.minute, s.second)
}

#[test]
fn moments_before_1980_become_the_beginning_of_1980() {
    assert_eq!(fields(0), (1980, 1, 1, 0, 0, 0));
    assert_eq!(fields(86_399), (1980, 1, 1, 0, 0, 0));
    assert_eq!(fields(315_532_799), (1980, 1, 1, 0, 0, 0));
}

#[test]
fn the_first_and_the_last_moment_that_an_archive_writes() {
    assert_eq!(fields(315_532_800), (1980, 1, 1, 0, 0, 0));
    assert_eq!(fields(315_532_801), (1980, 1, 1, 0, 0, 1));
    assert_eq!(fields(4_354_819_199), (2107, 12, 31, 23, 59, 59));
}

#[test]
fn moments_after_2107_become_the_beginning_of_1980() {
    assert_eq!(fields(4_354_819_200), (1980, 1, 1, 0, 0, 0));
    assert_eq!(fields(u64::MAX), (1980, 1, 1, 0, 0, 0));
}

#[test]
fn known_moments() {
    assert_eq!(fields(946_684_800), (2000, 1, 1, 0, 0, 0));
    assert_eq!(fields(951_782_400), (2000, 2, 29, 0, 0, 0));
    assert_eq!(fields(951_868_800), (2000, 3, 1, 0, 0, 0));
    assert_eq!(fields(1_000_000_000), (2001, 9, 9, 1, 46, 40));
    assert_eq!(fields(1_700_000_000), (2023, 11, 14, 22, 13, 20));
    assert_eq!(fields(1_709_209_844), (2024, 2, 29, 12, 30, 44));
    assert_eq!(fields(2_147_483_647), (2038, 1, 19, 3, 14, 7));
}

#[test]
fn the_year_2100_has_no_leap_day() {
    assert_eq!(fields(4_107_542_399), (2100, 2, 28, 23, 59, 59));
    assert_eq!(fields(4_107_542_400), (2100, 3, 1, 0, 0, 0));
}

#[test]
fn the_end_of_a_year_and_of_each_month() {
    assert_eq!(fields(1_735_689_599), (2024, 12, 31, 23, 59, 59));
    assert_eq!(fields(1_735_689_600), (2025, 1, 1, 0, 0, 0));
    let lengths = [31u64, 28, 31, 30, 31, 30, 31, 31, 30, 31, 30, 31];
    let mut seconds = 1_735_689_600u64;
    for (i, days) in lengths.iter().enumerate() {
        assert_eq!(fields(seconds), (2025, i as u8 + 1, 1, 0, 0, 0));
        seconds += days * 86_400;
        assert_eq!(fields(seconds - 1), (2025, i as u8 + 1, *days as u8, 23, 59, 59));
    }
    assert_eq!(fields(seconds), (2026, 1, 1, 0, 0, 0));
}

#[test]
fn every_day_follows_the_day_before() {
    let mut seconds = 315_532_800u64;
    let mut before = fields(seconds);
    while seconds < 4_354_819_200 - 86_400 {
        seconds += 86_400;
        let now = fields(seconds);
        let next_day = now.0 == before.0 && now.1 == before.1 && now.2 == before.2 + 1;
        let next_month = now.0 == before.0 && now.1 == before.1 + 1 && now.2 == 1 && before.2 >= 28;
        let next_year = now.0 == before.0 + 1 && now.1 == 1 && now.2 == 1 && before.1 == 12
            && before.2 == 31;
        assert!(next_day || next_month || next_year, "{:?} then {:?}", before, now);
        before = now;
    }
    assert_eq!(before, (2107, 12, 31, 0, 0, 0));
}
