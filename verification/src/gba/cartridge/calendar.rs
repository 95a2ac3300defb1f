//! The Gregorian calendar, as day counts since 1970-01-01.

use vstd::prelude::*;

verus! {

/// Whether a year has a 29 February.
pub open spec fn is_leap(year: int) -> bool {
    year % 4 == 0 && (year % 100 != 0 || year % 400 == 0)
}

/// The days of a month.
pub open spec fn days_in_month(year: int, month: int) -> int {
    if month == 2 {
        if is_leap(year) {
            29
        } else {
            28
        }
    } else if month == 4 || month == 6 || month == 9 || month == 11 {
        30
    } else {
        31
    }
}

/// The days of a year before the first of a month.
pub open spec fn days_before_month(year: int, month: int) -> int
    decreases month,
{
    if month <= 1 {
        0
    } else {
        days_before_month(year, month - 1) + days_in_month(year, month - 1)
    }
}

/// The days from the first of January of the year 1 to that of `year`.
pub open spec fn days_before_year(year: int) -> int {
    365 * (year - 1) + (year - 1) / 4 - (year - 1) / 100 + (year - 1) / 400
}

/// The day count of a date since 1970-01-01.
pub open spec fn day_number(year: int, month: int, day: int) -> int {
    days_before_year(year) - days_before_year(1970) + days_before_month(year, month) + day - 1
}

/// Whether a date exists.
pub open spec fn is_date(year: int, month: int, day: int) -> bool {
    1 <= month <= 12 && 1 <= day <= days_in_month(year, month)
}

/// Year, month and day of a day count, by reckoning in 400-year eras of years
/// that begin in March.
#[verifier::opaque]
pub open spec fn civil(days: int) -> (int, int, int) {
    let z = days + 719_468;
    let era = z / 146_097;
    let doe = z % 146_097;
    let yoe = (doe - doe / 1460 + doe / 36_524 - doe / 146_096) / 365;
    let doy = doe - (365 * yoe + yoe / 4 - yoe / 100);
    let mp = (5 * doy + 2) / 153;
    let day = doy - (153 * mp + 2) / 5 + 1;
    let month = if mp < 10 {
        mp + 3
    } else {
        mp - 9
    };
    let year = yoe + era * 400;
    (
        if month <= 2 {
            year + 1
        } else {
            year
        },
        month,
        day,
    )
}

/// The year of an era, and the bounds of the days it takes.
proof fn lemma_year_of_era(doe: int)
    requires
        0 <= doe < 146_097,
    ensures
        ({
            let yoe = (doe - doe / 1460 + doe / 36_524 - doe / 146_096) / 365;
            let doy = doe - (365 * yoe + yoe / 4 - yoe / 100);
            &&& 0 <= yoe <= 399
            &&& 0 <= doy <= 365
            &&& doy == 365 ==> (yoe % 4 == 3 && (yoe % 100 != 99 || yoe == 399))
        }),
{
    let a = doe / 1460;
    let b = doe / 36_524;
    let c = doe / 146_096;
    let n = doe - a + b - c;
    let yoe = n / 365;
    assert(0 <= b <= 4);
    assert(c == 0 || c == 1);
}

/// The days before each month.
pub proof fn lemma_months(year: int)
    ensures
        days_before_month(year, 1) == 0,
        days_before_month(year, 2) == 31,
        days_before_month(year, 3) == 59 + (if is_leap(year) {
            1int
        } else {
            0
        }),
        days_before_month(year, 4) == days_before_month(year, 3) + 31,
        days_before_month(year, 5) == days_before_month(year, 3) + 61,
        days_before_month(year, 6) == days_before_month(year, 3) + 92,
        days_before_month(year, 7) == days_before_month(year, 3) + 122,
        days_before_month(year, 8) == days_before_month(year, 3) + 153,
        days_before_month(year, 9) == days_before_month(year, 3) + 184,
        days_before_month(year, 10) == days_before_month(year, 3) + 214,
        days_before_month(year, 11) == days_before_month(year, 3) + 245,
        days_before_month(year, 12) == days_before_month(year, 3) + 275,
{
    reveal_with_fuel(days_before_month, 13);
}

/// Month and day of a day of a year that begins in March: the month's place in
/// that year, and how many days stand before it.
proof fn lemma_month_of_year(doy: int)
    requires
        0 <= doy <= 365,
    ensures
        ({
            let mp = (5 * doy + 2) / 153;
            let before = (153 * mp + 2) / 5;
            &&& 0 <= mp <= 11
            &&& before <= doy
            &&& mp == 0 ==> before == 0 && doy < 31
            &&& mp == 1 ==> before == 31 && doy < 61
            &&& mp == 2 ==> before == 61 && doy < 92
            &&& mp == 3 ==> before == 92 && doy < 122
            &&& mp == 4 ==> before == 122 && doy < 153
            &&& mp == 5 ==> before == 153 && doy < 184
            &&& mp == 6 ==> before == 184 && doy < 214
            &&& mp == 7 ==> before == 214 && doy < 245
            &&& mp == 8 ==> before == 245 && doy < 275
            &&& mp == 9 ==> before == 275 && doy < 306
            &&& mp == 10 ==> before == 306 && doy < 337
            &&& mp == 11 ==> before == 337
        }),
{
}

/// The days before a March that begins the year `start` of the reckoning.
proof fn lemma_march(era: int, yoe: int)
    requires
        0 <= yoe <= 399,
    ensures
        ({
            let start = yoe + era * 400;
            &&& days_before_year(start + 1) == era * 146_097 + 365 * yoe + yoe / 4 - yoe / 100
            &&& days_before_year(start) + (if is_leap(start) {
                366int
            } else {
                365
            }) == days_before_year(start + 1)
            &&& is_leap(start + 1) <==> (yoe % 4 == 3 && (yoe % 100 != 99 || yoe == 399))
        }),
{
    let start = yoe + era * 400;
    assert(start / 4 == era * 100 + yoe / 4);
    assert(start / 100 == era * 4 + yoe / 100);
    assert(start / 400 == era);
    assert(days_before_year(start + 1) == 365 * start + start / 4 - start / 100 + start / 400);
}

/// A year has 365 days, or 366 in a leap year.
pub proof fn lemma_year_length(year: int)
    ensures
        days_before_year(year + 1) == days_before_year(year) + (if is_leap(year) {
            366int
        } else {
            365
        }),
{
    lemma_march(year / 400, year % 400);
}

/// The date of a day count exists and has that day count: the reckoning is that
/// of the Gregorian calendar.
pub proof fn civil_is_gregorian(days: int)
    ensures
        ({
            let (year, month, day) = civil(days);
            is_date(year, month, day) && day_number(year, month, day) == days
        }),
{
    let z = days + 719_468;
    let era = z / 146_097;
    let doe = z % 146_097;
    lemma_year_of_era(doe);
    let yoe = (doe - doe / 1460 + doe / 36_524 - doe / 146_096) / 365;
    let doy = doe - (365 * yoe + yoe / 4 - yoe / 100);
    lemma_month_of_year(doy);
    lemma_march(era, yoe);
    reveal(civil);
    let (year, month, day) = civil(days);
    lemma_months(year);
    assert(days_before_year(1970) == 719_162);
}

/// The 400-year era of a day, counted from a first of March.
fn era_of(z: i64) -> (era: i64)
    requires
        -0x7000_0000_0000_0000 <= z,
    ensures
        era == z as int / 146_097,
{
    if z >= 0 {
        z / 146_097
    } else {
        -1 - (-1 - z) / 146_097
    }
}

/// Gregorian year/month/day from a day count since 1970-01-01. Month and day are
/// 1-based.
pub fn civil_from_days(z: i64) -> (date: (i64, u8, u8))
    requires
        -0x6000_0000_0000_0000 <= z <= 0x6000_0000_0000_0000,
    ensures
        (date.0 as int, date.1 as int, date.2 as int) == civil(z as int),
        is_date(date.0 as int, date.1 as int, date.2 as int),
        day_number(date.0 as int, date.1 as int, date.2 as int) == z,
{
    proof {
        reveal(civil);
        civil_is_gregorian(z as int);
        lemma_year_of_era((z + 719_468) % 146_097);
    }
    let z: i64 = z + 719_468;
    let era: i64 = era_of(z);
    let doe: i64 = z - era * 146_097;  // [0, 146096]
    let yoe: i64 = (doe - doe / 1460 + doe / 36_524 - doe / 146_096) / 365;  // [0, 399]
    let y: i64 = yoe + era * 400;
    let doy: i64 = doe - (365 * yoe + yoe / 4 - yoe / 100);  // [0, 365]
    let mp: i64 = (5 * doy + 2) / 153;  // [0, 11]
    let d: u8 = (doy - (153 * mp + 2) / 5 + 1) as u8;  // [1, 31]
    let m: u8 = (if mp < 10 {
        mp + 3
    } else {
        mp - 9
    }) as u8;  // [1, 12]
    (
        if m <= 2 {
            y + 1
        } else {
            y
        },
        m,
        d,
    )
}

} // verus!
