//! Dates: the split of a time stamp into calendar fields, and BCD.

use vstd::prelude::*;

verus! {

/// Whether `y` is a leap year of the Gregorian calendar.
pub open spec fn is_leap(y: int) -> bool {
    y % 4 == 0 && (y % 100 != 0 || y % 400 == 0)
}

pub open spec fn month_length(y: int, m: int) -> int {
    if m == 2 {
        if is_leap(y) {
            29
        } else {
            28
        }
    } else if m == 4 || m == 6 || m == 9 || m == 11 {
        30
    } else {
        31
    }
}

/// Days from January 1 of year 0 to January 1 of year `y`.
pub open spec fn days_before_year(y: int) -> int {
    365 * y + (y + 3) / 4 - (y + 99) / 100 + (y + 399) / 400
}

/// Days from January 1 to the first of month `m`.
pub open spec fn days_before_month(y: int, m: int) -> int
    decreases m,
{
    if m <= 1 {
        0
    } else {
        days_before_month(y, m - 1) + month_length(y, m - 1)
    }
}

/// Days from 1970-01-01 to the given date.
pub open spec fn day_number(y: int, m: int, d: int) -> int {
    days_before_year(y) + days_before_month(y, m) + d - 1 - 719528
}

pub open spec fn is_date(y: int, m: int, d: int) -> bool {
    1 <= m <= 12 && 1 <= d <= month_length(y, m)
}

/// A point in time, split.
#[derive(Debug, Clone, Copy, PartialEq, Eq, Structural)]
pub struct DateTime {
    pub year: u32,
    pub month: u32,
    pub day: u32,
    /// 0 is Sunday.
    pub weekday: u32,
    pub hour: u32,
    pub minute: u32,
    pub second: u32,
}

/// Years of 146097 days repeat every 400; here is where a year that starts in
/// March lies within such a cycle.
proof fn year_of_cycle(doe: int, yoe: int)
    requires
        0 <= doe <= 146096,
        yoe == (doe - doe / 1460 + doe / 36524 - doe / 146096) / 365,
    ensures
        0 <= yoe <= 399,
        0 <= doe - (365 * yoe + yoe / 4 - yoe / 100) <= 365,
        doe - (365 * yoe + yoe / 4 - yoe / 100) == 365 ==> is_leap(yoe + 1),
{
    let c = doe / 36524;
    let r = doe - 36524 * c;
    assert(0 <= c <= 4);
    if c == 4 {
        assert(doe == 146096);
    } else {
        let q = doe / 1460;
        assert(doe / 146096 == 0 || doe == 146096);
    }
}

/// Days before a month in closed form.
proof fn days_before_month_closed(y: int, m: int)
    requires
        1 <= m <= 12,
    ensures
        days_before_month(y, m) == (if m <= 2 {
            31 * (m - 1)
        } else {
            59 + (if is_leap(y) {
                1int
            } else {
                0
            }) + (153 * (m - 3) + 2) / 5
        }),
{
    reveal_with_fuel(days_before_month, 13);
}

/// Where a day lies within a year that starts in March.
proof fn month_of_year(doy: int, mp: int, d: int)
    requires
        0 <= doy <= 365,
        mp == (5 * doy + 2) / 153,
        d == doy - (153 * mp + 2) / 5 + 1,
    ensures
        0 <= mp <= 11,
        mp == 11 ==> 1 <= d <= 29 && doy == 336 + d,
        mp == 11 && d == 29 ==> doy == 365,
        mp == 10 ==> 1 <= d <= 31 && doy == 305 + d,
        mp < 10 ==> 1 <= d <= month_length(1, mp + 3),
{
}

/// The date of day `doy` of March year `yoe` of a 400-year cycle.
proof fn date_of_cycle(doe: int, yoe: int, doy: int, mp: int, d: int)
    requires
        0 <= yoe <= 399,
        doy == doe - (365 * yoe + yoe / 4 - yoe / 100),
        0 <= doy <= 365,
        doy == 365 ==> is_leap(yoe + 1),
        mp == (5 * doy + 2) / 153,
        d == doy - (153 * mp + 2) / 5 + 1,
    ensures
        0 <= mp <= 11,
        mp < 10 ==> is_date(yoe, mp + 3, d) && day_number(yoe, mp + 3, d) + 719468 == doe,
        mp >= 10 ==> is_date(yoe + 1, mp - 9, d) && day_number(yoe + 1, mp - 9, d) + 719468 == doe,
{
    month_of_year(doy, mp, d);
    if mp < 10 {
        days_before_month_closed(yoe, mp + 3);
        assert((yoe + 3) / 4 - (yoe + 99) / 100 + (yoe + 399) / 400 + (if is_leap(yoe) {
            1int
        } else {
            0
        }) == yoe / 4 - yoe / 100 + 1);
    } else {
        days_before_month_closed(yoe + 1, mp - 9);
        assert((yoe + 4) / 4 - (yoe + 100) / 100 + (yoe + 400) / 400 == yoe / 4 - yoe / 100 + 1);
    }
}

proof fn leap_shift(era: int, y: int)
    ensures
        is_leap(y + 400 * era) == is_leap(y),
{
    assert((y + 400 * era) % 4 == y % 4);
    assert((y + 400 * era) % 100 == y % 100);
    assert((y + 400 * era) % 400 == y % 400);
}

proof fn year_shift(era: int, y: int)
    ensures
        days_before_year(y + 400 * era) == days_before_year(y) + 146097 * era,
{
    assert((y + 400 * era + 3) / 4 == (y + 3) / 4 + 100 * era);
    assert((y + 400 * era + 99) / 100 == (y + 99) / 100 + 4 * era);
    assert((y + 400 * era + 399) / 400 == (y + 399) / 400 + era);
}

/// The calendar repeats every 400 years.
proof fn cycle_shift(era: int, y: int, m: int, d: int)
    requires
        0 <= y <= 400,
        1 <= m <= 12,
    ensures
        is_date(y + 400 * era, m, d) == is_date(y, m, d),
        day_number(y + 400 * era, m, d) == day_number(y, m, d) + 146097 * era,
{
    days_before_month_closed(y, m);
    days_before_month_closed(y + 400 * era, m);
    leap_shift(era, y);
    year_shift(era, y);
    assert(month_length(y + 400 * era, m) == month_length(y, m));
    assert(days_before_month(y + 400 * era, m) == days_before_month(y, m));
}

/// The date of the day `days` days after 1970-01-01, as year, month and day.
/// It is the one valid date with that day number. The range keeps the year
/// within 32 bits.
pub fn days_to_ymd(days: i64) -> (r: (i32, u32, u32))
    requires
        -784_000_000_000 <= days <= 784_000_000_000,
    ensures
        is_date(r.0 as int, r.1 as int, r.2 as int),
        day_number(r.0 as int, r.1 as int, r.2 as int) == days,
{
    let shifted: i64 = days + 719468;
    let era: i64 = if shifted >= 0 {
        shifted / 146097
    } else {
        -((146096 - shifted) / 146097)
    };
    let doe: u32 = (shifted - era * 146097) as u32;
    let yoe: u32 = (doe - doe / 1460 + doe / 36524 - doe / 146096) / 365;
    proof {
        year_of_cycle(doe as int, yoe as int);
    }
    let doy: u32 = doe - (365 * yoe + yoe / 4 - yoe / 100);
    proof {
        let mp = (5 * doy + 2) / 153;
        let d = doy - (153 * mp + 2) / 5 + 1;
        date_of_cycle(doe as int, yoe as int, doy as int, mp, d);
        if mp < 10 {
            cycle_shift(era as int, yoe as int, mp + 3, d);
        } else {
            cycle_shift(era as int, yoe + 1, mp - 9, d);
        }
        month_of_year(doy as int, mp, d);
    }
    let mp: u32 = (5 * doy + 2) / 153;
    let d: u32 = doy - (153 * mp + 2) / 5 + 1;
    let m: u32 = if mp < 10 {
        mp + 3
    } else {
        mp - 9
    };
    let y: i32 = (yoe as i64 + era * 400) as i32;
    if m <= 2 {
        (y + 1, m, d)
    } else {
        (y, m, d)
    }
}

/// Two valid dates with the same day number are the same date.
pub proof fn day_number_is_injective(y1: int, m1: int, d1: int, y2: int, m2: int, d2: int)
    requires
        is_date(y1, m1, d1),
        is_date(y2, m2, d2),
        day_number(y1, m1, d1) == day_number(y2, m2, d2),
    ensures
        y1 == y2 && m1 == m2 && d1 == d2,
{
    days_before_month_closed(y1, m1);
    days_before_month_closed(y2, m2);
    year_bounds(y1);
    year_bounds(y2);
    if y1 < y2 {
        year_monotone(y1 + 1, y2);
    } else if y2 < y1 {
        year_monotone(y2 + 1, y1);
    }
}

proof fn year_bounds(y: int)
    ensures
        days_before_year(y + 1) == days_before_year(y) + 365 + (if is_leap(y) {
            1int
        } else {
            0
        }),
{
    step_of_4(y);
    step_of_100(y);
    step_of_400(y);
}

proof fn step_of_4(y: int)
    ensures
        (y + 4) / 4 - (y + 3) / 4 == (if y % 4 == 0 {
            1int
        } else {
            0
        }),
{
}

proof fn step_of_100(y: int)
    ensures
        (y + 100) / 100 - (y + 99) / 100 == (if y % 100 == 0 {
            1int
        } else {
            0
        }),
        y % 100 == 0 ==> y % 4 == 0,
{
}

proof fn step_of_400(y: int)
    ensures
        (y + 400) / 400 - (y + 399) / 400 == (if y % 400 == 0 {
            1int
        } else {
            0
        }),
        y % 400 == 0 ==> y % 100 == 0,
{
}

proof fn year_monotone(a: int, b: int)
    requires
        a <= b,
    ensures
        days_before_year(a) <= days_before_year(b),
    decreases b - a,
{
    if a < b {
        year_monotone(a, b - 1);
        year_bounds(b - 1);
    }
}

/// The point in time `seconds` after the start of 1970 (UTC). The date is the
/// calendar date of the whole days, counted modulo 2^32.
pub open spec fn date_time(seconds: u64) -> DateTime {
    let days = (seconds / 86400) as u32;
    let (y, m, d) = ymd(days as int);
    DateTime {
        year: y as u32,
        month: m as u32,
        day: d as u32,
        weekday: ((days + 4) % 7) as u32,
        hour: ((seconds / 3600) % 24) as u32,
        minute: ((seconds / 60) % 60) as u32,
        second: (seconds % 60) as u32,
    }
}

/// The valid date with day number `days`.
pub open spec fn ymd(days: int) -> (int, int, int) {
    choose|t: (int, int, int)|
        #![trigger day_number(t.0, t.1, t.2)]
        is_date(t.0, t.1, t.2) && day_number(t.0, t.1, t.2) == days
}

/// Splits a time stamp into calendar fields.
pub fn split_time(seconds: u64) -> (t: DateTime)
    ensures
        t == date_time(seconds),
{
    let second: u32 = (seconds % 60) as u32;
    let minute: u32 = ((seconds / 60) % 60) as u32;
    let hour: u32 = ((seconds / 3600) % 24) as u32;
    let days: u32 = (seconds / 86400) as u32;
    let weekday: u32 = ((days as u64 + 4) % 7) as u32;
    let (year, month, day) = days_to_ymd(days as i64);
    proof {
        let t = ymd(days as int);
        assert(day_number(year as int, month as int, day as int) == days);
        let w = (year as int, month as int, day as int);
        assert(is_date(w.0, w.1, w.2) && day_number(w.0, w.1, w.2) == days);
        day_number_is_injective(year as int, month as int, day as int, t.0, t.1, t.2);
        day_number_at_least(year as int, month as int, day as int);
    }
    DateTime { year: year as u32, month, day, weekday, hour, minute, second }
}

proof fn day_number_at_least(y: int, m: int, d: int)
    requires
        is_date(y, m, d),
        day_number(y, m, d) >= 0,
    ensures
        y >= 1970,
{
    days_before_month_closed(y, m);
    if y < 1970 {
        year_monotone(y, 1969);
        year_bounds(y);
        year_bounds(1969);
        year_monotone(y + 1, 1970);
    }
}

/// `n` below 100 as two decimal digits, one per nibble.
#[verifier::allow_in_spec]
pub fn bcd(n: u32) -> u8
    returns
        (((n / 10) << 4) as u8) | ((n % 10) as u8),
{
    (((n / 10) << 4) as u8) | ((n % 10) as u8)
}

/// BCD keeps both digits.
pub proof fn bcd_digits(n: u32)
    requires
        n < 100,
    ensures
        bcd(n) == 16 * (n / 10) + n % 10,
        bcd(n) >> 4 == n / 10,
        bcd(n) & 0xF == n % 10,
{
    let t = n / 10;
    let u = n % 10;
    assert(((t << 4) as u8 | u as u8) == 16 * t + u && ((t << 4) as u8 | u as u8) >> 4 == t && ((t
        << 4) as u8 | u as u8) & 0xF == u) by (bit_vector)
        requires
            t < 10,
            u < 10,
    ;
}

/// The fields of a time: seconds, minutes and hours count up to a day, days
/// number the date, and the first day was a Thursday.
pub proof fn times_count(seconds: u64)
    requires
        seconds / 86400 <= 0xFFFF_FFFF,
    ensures
        ({
            let t = date_time(seconds);
            &&& t.second < 60 && t.minute < 60 && t.hour < 24
            &&& seconds % 86400 == t.second + 60 * t.minute + 3600 * t.hour
            &&& t.weekday < 7
            &&& (seconds / 86400 - 3) % 7 == t.weekday as int % 7
        }),
{
    let d = seconds / 86400;
    assert((d + 4) % 7 == (d - 3) % 7);
}

/// The calendar: 1 January 1970 is day 0, the day after a day has the next
/// number, and so have the first of a month after the last of the one before
/// and New Year after 31 December.
pub proof fn days_follow(y: int, m: int, d: int)
    requires
        is_date(y, m, d),
    ensures
        day_number(1970, 1, 1) == 0,
        d < month_length(y, m) ==> day_number(y, m, d + 1) == day_number(y, m, d) + 1,
        m < 12 && d == month_length(y, m) ==> day_number(y, m + 1, 1) == day_number(y, m, d) + 1,
        month_length(y, 2) == (if y % 4 == 0 && (y % 100 != 0 || y % 400 == 0) {
            29int
        } else {
            28int
        }),
        month_length(y, 4) == 30 && month_length(y, 6) == 30 && month_length(y, 9) == 30
            && month_length(y, 11) == 30,
        month_length(y, 1) == 31 && month_length(y, 3) == 31 && month_length(y, 5) == 31
            && month_length(y, 7) == 31 && month_length(y, 8) == 31 && month_length(y, 10) == 31
            && month_length(y, 12) == 31,
{
    reveal_with_fuel(days_before_month, 3);
}

} // verus!
