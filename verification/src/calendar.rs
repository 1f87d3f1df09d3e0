//! Days of the proleptic Gregorian calendar, counted from 1970-01-01.

use vstd::prelude::*;

verus! {

/// Division that rounds toward zero, for a positive divisor.
pub open spec fn toward_zero(n: int, d: int) -> int {
    if n >= 0 {
        n / d
    } else {
        -((-n) / d)
    }
}

/// Days from 1970-01-01 to the given day.
///
/// Years are taken to begin in March, so that a leap day ends its year: the
/// days before year `y` are `365 * y` and one for each leap day, and the days
/// before month `m` of it (March is 0) are `(153 * m + 2) / 5`.
pub open spec fn days_from_civil(year: int, month: int, day: int) -> int {
    let y = if month <= 2 {
        year - 1
    } else {
        year
    };
    let m = if month <= 2 {
        month + 9
    } else {
        month - 3
    };
    365 * y + y / 4 - y / 100 + y / 400 + toward_zero(153 * m + 2, 5) + (day - 1) - 719468
}

/// Computes `days_from_civil`, era by era of 400 years.
pub fn civil_to_days(year: i64, month: i64, day: i64) -> (r: i128)
    ensures
        r == days_from_civil(year as int, month as int, day as int),
        -0x1_0000_0000_0000_0000_0000 < r < 0x1_0000_0000_0000_0000_0000,
{
    let y: i128 = if month <= 2 {
        year as i128 - 1
    } else {
        year as i128
    };
    let m: i128 = if month <= 2 {
        month as i128 + 9
    } else {
        month as i128 - 3
    };
    let era: i128 = if y >= 0 {
        y / 400
    } else {
        (y - 399) / 400
    };
    let year_of_era: i128 = y - era * 400;
    assert(0 <= year_of_era < 400);
    let day_of_year: i128 = (153 * m + 2) / 5 + day as i128 - 1;
    let day_of_era: i128 = year_of_era * 365 + year_of_era / 4 - year_of_era / 100 + day_of_year;
    proof {
        assert(y == 400 * era + year_of_era);
        assert(y as int / 4 == 100 * era + year_of_era as int / 4);
        assert(y as int / 100 == 4 * era + year_of_era as int / 100);
        assert(y as int / 400 == era);
    }
    era * 146097 + day_of_era - 719468
}

pub open spec fn is_leap_year(year: int) -> bool {
    year % 4 == 0 && (year % 100 != 0 || year % 400 == 0)
}

pub open spec fn month_length(year: int, month: int) -> int {
    if month == 2 {
        if is_leap_year(year) {
            29
        } else {
            28
        }
    } else if month == 4 || month == 6 || month == 9 || month == 11 {
        30
    } else {
        31
    }
}

/// A day that the calendar has.
pub open spec fn is_calendar_day(year: int, month: int, day: int) -> bool {
    &&& 1 <= month <= 12
    &&& 1 <= day <= month_length(year, month)
}

/// The day that follows a day of the calendar.
pub open spec fn next_day(year: int, month: int, day: int) -> (int, int, int) {
    if day < month_length(year, month) {
        (year, month, day + 1)
    } else if month < 12 {
        (year, month + 1, 1)
    } else {
        (year + 1, 1, 1)
    }
}

proof fn lemma_leap_days(year: int)
    ensures
        (year / 4 - year / 100 + year / 400) - ((year - 1) / 4 - (year - 1) / 100 + (year - 1)
            / 400) == if is_leap_year(year) {
            1int
        } else {
            0
        },
{
    assert(year / 4 - (year - 1) / 4 == if year % 4 == 0 { 1int } else { 0 });
    assert(year / 100 - (year - 1) / 100 == if year % 100 == 0 { 1int } else { 0 });
    assert(year / 400 - (year - 1) / 400 == if year % 400 == 0 { 1int } else { 0 });
    assert(year % 100 == 0 ==> year % 4 == 0);
    assert(year % 400 == 0 ==> year % 100 == 0);
}

/// Day numbers start with 0 on 1970-01-01, and each day of the calendar has
/// the number behind the day before it: so they count the calendar's days.
pub proof fn law_day_numbers_count_days(year: int, month: int, day: int)
    requires
        is_calendar_day(year, month, day),
    ensures
        days_from_civil(1970, 1, 1) == 0,
        ({
            let (y, m, d) = next_day(year, month, day);
            &&& is_calendar_day(y, m, d)
            &&& days_from_civil(y, m, d) == days_from_civil(year, month, day) + 1
        }),
{
    lemma_leap_days(year);
    if day == month_length(year, month) && month != 2 {
        assert(month == 1 || month == 3 || month == 4 || month == 5 || month == 6 || month == 7
            || month == 8 || month == 9 || month == 10 || month == 11 || month == 12);
    }
}

/// Months and days that the calendar does not have are carried over: a day
/// further is a day later, whatever the day; the months behind December are those
/// of the next year, and the one before January is the December before; and from
/// March on, five months are always 153 days.
pub proof fn law_days_beyond_the_calendar_are_carried_over(year: int, month: int, day: int)
    ensures
        days_from_civil(year, month, day + 1) == days_from_civil(year, month, day) + 1,
        days_from_civil(year, 13, day) == days_from_civil(year + 1, 1, day),
        days_from_civil(year, 14, day) == days_from_civil(year + 1, 2, day),
        days_from_civil(year, 0, day) == days_from_civil(year - 1, 12, day),
        month >= 3 ==> days_from_civil(year, month + 5, day) == days_from_civil(year, month, day)
            + 153,
{
}

/// The calendar repeats itself every 400 years, which are 146097 days.
pub proof fn law_calendar_repeats_every_400_years(year: int, month: int, day: int)
    ensures
        days_from_civil(year + 400, month, day) == days_from_civil(year, month, day) + 146097,
{
    let y = if month <= 2 {
        year - 1
    } else {
        year
    };
    assert((y + 400) / 4 == y / 4 + 100);
    assert((y + 400) / 100 == y / 100 + 4);
    assert((y + 400) / 400 == y / 400 + 1);
}

/// From one March to the next it is 365 days, and 366 where a leap day lies
/// between: every fourth year, not every hundredth, but every four hundredth.
pub proof fn law_leap_days_lengthen_the_year(year: int)
    ensures
        days_from_civil(year, 3, 1) - days_from_civil(year - 1, 3, 1) == if year % 400 == 0 {
            366int
        } else if year % 100 == 0 {
            365
        } else if year % 4 == 0 {
            366
        } else {
            365
        },
{
    let leap_days = if is_leap_year(year) {
        1int
    } else {
        0
    };
    assert(days_from_civil(year, 3, 1) - days_from_civil(year - 1, 3, 1) == 365 + leap_days) by {
        lemma_leap_days(year);
    }
    lemma_multiples(year);
}

proof fn lemma_multiples(year: int)
    ensures
        year % 400 == 0 ==> year % 4 == 0,
{
}

} // verus!
