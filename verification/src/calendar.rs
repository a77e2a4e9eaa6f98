//! The Gregorian calendar, by days since 1970-01-01.

use vstd::prelude::*;

verus! {

/// Whether a year has 366 days.
pub open spec fn is_leap(year: int) -> bool {
    year % 4 == 0 && (year % 100 != 0 || year % 400 == 0)
}

/// How many leap years there are from year 1 up to and including `year`.
pub open spec fn leap_years(year: int) -> int {
    year / 4 - year / 100 + year / 400
}

/// The number of days from 1970-01-01 to the first day of `year`.
pub open spec fn year_start(year: int) -> int {
    365 * (year - 1970) + leap_years(year - 1) - leap_years(1969)
}

/// How many days of the year come before the first day of `month`.
pub open spec fn month_start(year: int, month: int) -> int {
    let leap: int = if is_leap(year) {
        1
    } else {
        0
    };
    if month <= 1 {
        0
    } else if month == 2 {
        31
    } else if month == 3 {
        59 + leap
    } else if month == 4 {
        90 + leap
    } else if month == 5 {
        120 + leap
    } else if month == 6 {
        151 + leap
    } else if month == 7 {
        181 + leap
    } else if month == 8 {
        212 + leap
    } else if month == 9 {
        243 + leap
    } else if month == 10 {
        273 + leap
    } else if month == 11 {
        304 + leap
    } else if month == 12 {
        334 + leap
    } else {
        365 + leap
    }
}

/// Whether there is such a day.
pub open spec fn is_date(year: int, month: int, day: int) -> bool {
    &&& 1 <= month <= 12
    &&& 1 <= day <= month_start(year, month + 1) - month_start(year, month)
}

/// The number of days from 1970-01-01 to the given day.
pub open spec fn day_number(year: int, month: int, day: int) -> int {
    year_start(year) + month_start(year, month) + day - 1
}

/// Years follow each other without gap: each starts after the 365 or 366 days of
/// the one before, and 1970 starts at zero.
pub proof fn years_follow_each_other(year: int)
    ensures
        year_start(year + 1) == year_start(year) + month_start(year, 13),
        year_start(1970) == 0,
{
    lemma_leap_step(year);
}

proof fn lemma_leap_step(year: int)
    ensures
        leap_years(year) == leap_years(year - 1) + (if is_leap(year) {
            1int
        } else {
            0
        }),
{
}

/// Two dates with one day number are the same date.
pub proof fn dates_are_unique(y1: int, m1: int, d1: int, y2: int, m2: int, d2: int)
    requires
        is_date(y1, m1, d1),
        is_date(y2, m2, d2),
        day_number(y1, m1, d1) == day_number(y2, m2, d2),
    ensures
        y1 == y2,
        m1 == m2,
        d1 == d2,
{
    lemma_years_apart(y1, y2);
    lemma_years_apart(y2, y1);
}

proof fn lemma_years_apart(early: int, late: int)
    ensures
        early < late ==> year_start(late) >= year_start(early) + month_start(early, 13),
    decreases late - early,
{
    if early + 1 < late {
        lemma_years_apart(early, late - 1);
        years_follow_each_other(late - 1);
    } else if early + 1 == late {
        years_follow_each_other(early);
    }
}

/// The number of days from 0000-03-01 to the first day of March of `year`.
spec fn march_start(year: int) -> int {
    365 * year + leap_years(year)
}

proof fn lemma_march(year: int)
    ensures
        march_start(year) - 719468 == day_number(year, 3, 1),
        march_start(year) - 719468 + 306 == year_start(year + 1),
{
    lemma_leap_step(year);
    years_follow_each_other(year);
}

/// The year that starts with the March at or before a day, and the days since its
/// first day. Days are counted from 0000-03-01.
fn march_date(z: u64) -> (date: (u64, u32))
    requires
        z <= 0x7FFF_FFFF_FFFF_FFFF,
    ensures
        march_start(date.0 as int) + date.1 == z,
        date.1 <= 365,
        date.1 == 365 ==> is_leap(date.0 + 1),
        date.0 <= z / 365,
{
    let era: u64 = z / 146097;
    let day_of_era: u64 = z % 146097;
    let century: u64 = if day_of_era / 36524 < 4 {
        day_of_era / 36524
    } else {
        3
    };
    let day_of_century: u64 = day_of_era - 36524 * century;
    let cycle: u64 = day_of_century / 1461;
    let day_of_cycle: u64 = day_of_century % 1461;
    let year_of_cycle: u64 = if day_of_cycle / 365 < 4 {
        day_of_cycle / 365
    } else {
        3
    };
    let day_of_year: u64 = day_of_cycle - 365 * year_of_cycle;
    let march_year: u64 = 400 * era + 100 * century + 4 * cycle + year_of_cycle;
    proof {
        lemma_cycles(era as int, century as int, cycle as int, year_of_cycle as int);
        lemma_long_year(
            era as int,
            century as int,
            cycle as int,
            year_of_cycle as int,
            day_of_century as int,
            day_of_year as int,
        );
    }
    (march_year, day_of_year as u32)
}

/// What the quotients of a year's number are, by its place in the cycles of leap years.
proof fn lemma_cycles(era: int, century: int, cycle: int, year_of_cycle: int)
    requires
        0 <= century < 4,
        0 <= cycle < 25,
        0 <= year_of_cycle < 4,
    ensures
        leap_years(400 * era + 100 * century + 4 * cycle + year_of_cycle) == 97 * era + 24 * century
            + cycle,
{
    let y = 400 * era + 100 * century + 4 * cycle + year_of_cycle;
    assert(y / 4 == 100 * era + 25 * century + cycle);
    assert(y / 100 == 4 * era + century);
    assert(y / 400 == era);
}

/// A year that has a day more than 365 ends with the February of a leap year.
proof fn lemma_long_year(
    era: int,
    century: int,
    cycle: int,
    year_of_cycle: int,
    day_of_century: int,
    day_of_year: int,
)
    requires
        0 <= century < 4,
        0 <= cycle < 25,
        0 <= year_of_cycle < 4,
        0 <= day_of_century <= 36524,
        day_of_century == 36524 ==> century == 3,
        day_of_century == 1461 * cycle + 365 * year_of_cycle + day_of_year,
    ensures
        day_of_year == 365 && year_of_cycle == 3 ==> is_leap(
            400 * era + 100 * century + 4 * cycle + year_of_cycle + 1,
        ),
{
    if day_of_year == 365 && year_of_cycle == 3 {
        let y = 400 * era + 100 * century + 4 * cycle + year_of_cycle + 1;
        if cycle == 24 {
            assert(century == 3);
            assert(y == 400 * (era + 1));
        } else {
            assert(y % 100 == 4 * cycle + 4);
        }
    }
}

/// The year in full, the month and the day of a day number.
pub fn civil_date(days: u64) -> (date: (i64, u32, u32))
    requires
        days <= 0x7FFF_FFFF_FFFF_FFFF - 719468,
    ensures
        is_date(date.0 as int, date.1 as int, date.2 as int),
        day_number(date.0 as int, date.1 as int, date.2 as int) == days,
        1970 <= date.0,
{
    let (march_year, day_of_year): (u64, u32) = march_date(days + 719468);
    proof {
        let y = march_year as int;
        lemma_march(y);
        lemma_march(y + 1);
        lemma_leap_step(y);
        lemma_leap_step(y + 1);
    }
    let (month, day): (u32, u32) = month_from_march(day_of_year);
    if month >= 3 {
        (march_year as i64, month, day)
    } else {
        (march_year as i64 + 1, month, day)
    }
}

/// The number of days from the first of March to the first of the month, for the
/// months of the twelve that start with March.
spec fn since_march(month: int) -> int {
    if month >= 3 {
        month_start(1, month) - 59
    } else {
        month_start(1, month) + 306
    }
}

/// Month and day of a day counted from the first of March.
fn month_from_march(day_of_year: u32) -> (date: (u32, u32))
    requires
        day_of_year <= 365,
    ensures
        1 <= date.0 <= 12,
        since_march(date.0 as int) + date.1 - 1 == day_of_year,
        1 <= date.1,
        date.0 != 2 && date.0 != 12 ==> date.1 <= since_march(date.0 + 1) - since_march(
            date.0 as int,
        ),
        date.0 == 12 ==> date.1 <= 31,
        date.0 == 2 ==> date.1 <= 29,
{
    if day_of_year < 31 {
        (3, day_of_year + 1)
    } else if day_of_year < 61 {
        (4, day_of_year - 31 + 1)
    } else if day_of_year < 92 {
        (5, day_of_year - 61 + 1)
    } else if day_of_year < 122 {
        (6, day_of_year - 92 + 1)
    } else if day_of_year < 153 {
        (7, day_of_year - 122 + 1)
    } else if day_of_year < 184 {
        (8, day_of_year - 153 + 1)
    } else if day_of_year < 214 {
        (9, day_of_year - 184 + 1)
    } else if day_of_year < 245 {
        (10, day_of_year - 214 + 1)
    } else if day_of_year < 275 {
        (11, day_of_year - 245 + 1)
    } else if day_of_year < 306 {
        (12, day_of_year - 275 + 1)
    } else if day_of_year < 337 {
        (1, day_of_year - 306 + 1)
    } else {
        (2, day_of_year - 337 + 1)
    }
}

} // verus!
