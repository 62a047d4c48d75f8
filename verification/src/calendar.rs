//! The date and time of day, by the Gregorian calendar, of a count of
//! seconds since the beginning of 1970: what an archive dates its files
//! with.

use vstd::prelude::*;

verus! {

/// The seconds of a day.
pub const DAY_SECONDS: u64 = 86_400;

/// A date and a time of day as plain numbers.
#[derive(Clone, Copy, Debug)]
pub struct Stamp {
    pub year: u16,
    pub month: u8,
    pub day: u8,
    pub hour: u8,
    pub minute: u8,
    pub second: u8,
}

/// Whether a year has a 29th of February.
pub open spec fn is_leap(year: int) -> bool {
    year % 4 == 0 && (year % 100 != 0 || year % 400 == 0)
}

/// The days of a year.
pub open spec fn year_days(year: int) -> int {
    if is_leap(year) {
        366
    } else {
        365
    }
}

/// The days of a month of a year.
pub open spec fn month_days(year: int, month: int) -> int {
    if month == 2 {
        if is_leap(year) {
            29
        } else {
            28
        }
    } else if month == 4 || month == 6 || month == 9 || month == 11 {
        30
    } else {
        31
    }
}

/// The days from the beginning of 1970 to the beginning of a year.
pub open spec fn days_before_year(year: int) -> int
    decreases year - 1970,
{
    if year <= 1970 {
        0
    } else {
        days_before_year(year - 1) + year_days(year - 1)
    }
}

/// The days from the beginning of a year to the beginning of one of its
/// months.
pub open spec fn days_before_month(year: int, month: int) -> int
    decreases month,
{
    if month <= 1 {
        0
    } else {
        days_before_month(year, month - 1) + month_days(year, month - 1)
    }
}

/// A day of the calendar, from 1970 on.
pub open spec fn is_date(year: int, month: int, day: int) -> bool {
    &&& year >= 1970
    &&& 1 <= month <= 12
    &&& 1 <= day <= month_days(year, month)
}

/// The days from the beginning of 1970 to a day of the calendar.
pub open spec fn day_number(year: int, month: int, day: int) -> int {
    days_before_year(year) + days_before_month(year, month) + day - 1
}

/// Whether a count of seconds since the beginning of 1970 falls into the
/// years that an archive can write down, 1980 to 2107.
pub open spec fn in_archive_years(seconds: int) -> bool {
    days_before_year(1980) <= seconds / 86_400 < days_before_year(2108)
}

/// The first moment that an archive can write down: the beginning of 1980.
pub open spec fn archive_epoch() -> Stamp {
    Stamp { year: 1980, month: 1, day: 1, hour: 0, minute: 0, second: 0 }
}

impl Stamp {
    /// The stamp is within the bounds that the archive's format sets for
    /// each of its numbers.
    pub open spec fn fits_archive(self) -> bool {
        &&& 1980 <= self.year <= 2107
        &&& 1 <= self.month <= 12
        &&& 1 <= self.day <= 31
        &&& self.hour <= 23
        &&& self.minute <= 59
        &&& self.second <= 60
    }

    /// The stamp shows the moment that lies `seconds` after the beginning
    /// of 1970: its date is the day that so many whole days lead to, and
    /// its time of day is the rest.
    pub open spec fn shows(self, seconds: int) -> bool {
        &&& is_date(self.year as int, self.month as int, self.day as int)
        &&& day_number(self.year as int, self.month as int, self.day as int) == seconds / 86_400
        &&& self.hour == seconds % 86_400 / 3600
        &&& self.minute == seconds % 3600 / 60
        &&& self.second == seconds % 60
    }

    /// The stamp, or the beginning of 1980 where the stamp is outside the
    /// bounds of the archive's format.
    pub open spec fn or_epoch(self) -> Stamp {
        if self.fits_archive() {
            self
        } else {
            archive_epoch()
        }
    }

    /// The stamp for a moment given in seconds since the beginning of 1970:
    /// its date and time of day where the year is one of 1980 to 2107, and
    /// the beginning of 1980 for every other moment.
    pub fn from_unix(seconds: u64) -> (stamp: Stamp)
        ensures
            stamp.fits_archive(),
            in_archive_years(seconds as int) ==> stamp.shows(seconds as int),
            !in_archive_years(seconds as int) ==> stamp == archive_epoch(),
    {
        let days: u64 = seconds / DAY_SECONDS;
        let mut year: u16 = 1970;
        let mut rest: u64 = days;
        while year < 2108 && rest >= days_in_year(year)
            invariant
                1970 <= year <= 2108,
                rest + days_before_year(year as int) == days,
            decreases 2108 - year,
        {
            rest = rest - days_in_year(year);
            year = year + 1;
        }
        proof {
            lemma_years_grow(1980, year as int);
            lemma_years_grow(year + 1, 1980);
            lemma_years_grow(year + 1, 2108);
        }
        if year < 1980 || year > 2107 {
            return Stamp { year: 1980, month: 1, day: 1, hour: 0, minute: 0, second: 0 };
        }
        let mut month: u8 = 1;
        let mut left: u64 = rest;
        while month < 12 && left >= days_in_month(year, month)
            invariant
                1 <= month <= 12,
                left + days_before_month(year as int, month as int) == rest,
                rest < year_days(year as int),
            decreases 12 - month,
        {
            left = left - days_in_month(year, month);
            month = month + 1;
        }
        proof {
            lemma_december(year as int);
        }
        let of_day: u64 = seconds % DAY_SECONDS;
        Stamp {
            year,
            month,
            day: (left + 1) as u8,
            hour: (of_day / 3600) as u8,
            minute: (seconds % 3600 / 60) as u8,
            second: (seconds % 60) as u8,
        }
    }

    /// The stamp, or the beginning of 1980 where the stamp is outside the
    /// bounds of the archive's format.
    pub fn for_archive(self) -> (stamp: Stamp)
        ensures
            stamp == self.or_epoch(),
            stamp.fits_archive(),
    {
        if 1980 <= self.year && self.year <= 2107 && 1 <= self.month && self.month <= 12 && 1
            <= self.day && self.day <= 31 && self.hour <= 23 && self.minute <= 59 && self.second
            <= 60 {
            self
        } else {
            Stamp { year: 1980, month: 1, day: 1, hour: 0, minute: 0, second: 0 }
        }
    }
}

fn leap(year: u16) -> (yes: bool)
    ensures
        yes == is_leap(year as int),
{
    year % 4 == 0 && (year % 100 != 0 || year % 400 == 0)
}

fn days_in_year(year: u16) -> (days: u64)
    ensures
        days == year_days(year as int),
{
    if leap(year) {
        366
    } else {
        365
    }
}

fn days_in_month(year: u16, month: u8) -> (days: u64)
    ensures
        days == month_days(year as int, month as int),
{
    if month == 2 {
        if leap(year) {
            29
        } else {
            28
        }
    } else if month == 4 || month == 6 || month == 9 || month == 11 {
        30
    } else {
        31
    }
}

/// A later year begins no earlier.
proof fn lemma_years_grow(early: int, late: int)
    ensures
        early <= late ==> days_before_year(early) <= days_before_year(late),
    decreases late - early,
{
    if early < late {
        lemma_years_grow(early, late - 1);
    }
}

/// December begins 31 days before the year ends.
proof fn lemma_december(year: int)
    ensures
        days_before_month(year, 12) + 31 == year_days(year),
{
    reveal_with_fuel(days_before_month, 13);
}

/// A later month begins no earlier.
proof fn lemma_months_grow(year: int, early: int, late: int)
    ensures
        early <= late ==> days_before_month(year, early) <= days_before_month(year, late),
    decreases late - early,
{
    if early < late {
        lemma_months_grow(year, early, late - 1);
    }
}

/// A day of the calendar lies within its year.
proof fn lemma_date_in_year(year: int, month: int, day: int)
    requires
        is_date(year, month, day),
    ensures
        days_before_year(year) <= day_number(year, month, day) < days_before_year(year + 1),
{
    lemma_months_grow(year, 1, month);
    lemma_months_grow(year, month + 1, 13);
    lemma_december(year);
}

/// No two days of the calendar are equally far from the beginning of 1970.
pub proof fn lemma_one_date_per_day(y1: int, m1: int, d1: int, y2: int, m2: int, d2: int)
    requires
        is_date(y1, m1, d1),
        is_date(y2, m2, d2),
        day_number(y1, m1, d1) == day_number(y2, m2, d2),
    ensures
        y1 == y2,
        m1 == m2,
        d1 == d2,
{
    lemma_date_in_year(y1, m1, d1);
    lemma_date_in_year(y2, m2, d2);
    lemma_years_grow(y1 + 1, y2);
    lemma_years_grow(y2 + 1, y1);
    lemma_months_grow(y1, m1 + 1, m2);
    lemma_months_grow(y1, m2 + 1, m1);
}

/// A moment has one stamp only: two stamps that show the same moment are
/// the same.
pub proof fn lemma_one_stamp_per_moment(a: Stamp, b: Stamp, seconds: int)
    requires
        a.shows(seconds),
        b.shows(seconds),
    ensures
        a == b,
{
    lemma_one_date_per_day(
        a.year as int,
        a.month as int,
        a.day as int,
        b.year as int,
        b.month as int,
        b.day as int,
    );
}

} // verus!
