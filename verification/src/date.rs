//! Calendar dates in the proleptic Gregorian calendar, with conversion to
//! day numbers counted from the Unix epoch (1970-01-01 is day 0).

use vstd::prelude::*;

verus! {

/// A calendar date (UTC).
#[derive(Clone, Copy, Debug, PartialEq, Eq, Structural)]
pub struct CivilDate {
    pub year: i64,
    pub month: u8,
    pub day: u8,
}

/// A calendar date together with a time of day (UTC).
#[derive(Clone, Copy, Debug, PartialEq, Eq, Structural)]
pub struct CivilDateTime {
    pub date: CivilDate,
    pub hour: u8,
    pub minute: u8,
    pub second: u8,
}

/// Whether `y` is a leap year in the Gregorian calendar.
pub open spec fn spec_is_leap_year(y: int) -> bool {
    (y % 4 == 0 && y % 100 != 0) || y % 400 == 0
}

/// The number of days in month `m` of year `y`.
pub open spec fn spec_days_in_month(y: int, m: int) -> int {
    if m == 2 {
        if spec_is_leap_year(y) {
            29
        } else {
            28
        }
    } else if m == 4 || m == 6 || m == 9 || m == 11 {
        30
    } else {
        31
    }
}

/// A date is valid when its month and day exist in the given year.
/// Years are restricted to four digits.
pub open spec fn valid_date(d: CivilDate) -> bool {
    &&& 1 <= d.year <= 9999
    &&& 1 <= d.month <= 12
    &&& 1 <= d.day <= spec_days_in_month(d.year as int, d.month as int)
}

/// A date-time is valid when its date is and its time of day is in range.
pub open spec fn valid_date_time(t: CivilDateTime) -> bool {
    &&& valid_date(t.date)
    &&& t.hour < 24
    &&& t.minute < 60
    &&& t.second < 60
}

/// The day number of a date: the count of days since 1970-01-01.
///
/// This is the standard conversion from a Gregorian calendar date to a
/// linear day count, organised around 400-year eras of 146097 days each.
pub open spec fn day_number(d: CivilDate) -> int {
    let y = if d.month <= 2 {
        d.year - 1
    } else {
        d.year as int
    };
    let era = y / 400;
    let yoe = y - era * 400;
    let mp = if d.month > 2 {
        d.month - 3
    } else {
        d.month + 9
    };
    let doy = (153 * mp + 2) / 5 + d.day - 1;
    let doe = yoe * 365 + yoe / 4 - yoe / 100 + doy;
    era * 146097 + doe - 719468
}

/// The smallest day number of a valid date (0001-01-01).
pub const MIN_DAY: i64 = -719162;

/// The largest day number of a valid date (9999-12-31).
pub const MAX_DAY: i64 = 2932896;

/// The weekday of a day number: 0 is Monday through 6 is Sunday.
pub open spec fn spec_weekday(day: int) -> int {
    (day + 3) % 7
}

/// Weekday number of Saturday.
pub const SATURDAY: u8 = 5;

/// Weekday number of Sunday.
pub const SUNDAY: u8 = 6;

/// Returns whether `y` is a leap year.
pub fn is_leap_year(y: i64) -> (r: bool)
    requires
        1 <= y <= 9999,
    ensures
        r == spec_is_leap_year(y as int),
{
    let yu = y as u64;
    (yu % 4 == 0 && yu % 100 != 0) || yu % 400 == 0
}

/// Returns the number of days in month `m` of year `y`.
pub fn days_in_month(y: i64, m: u8) -> (r: u8)
    requires
        1 <= y <= 9999,
        1 <= m <= 12,
    ensures
        r == spec_days_in_month(y as int, m as int),
{
    if m == 2 {
        if is_leap_year(y) {
            29
        } else {
            28
        }
    } else if m == 4 || m == 6 || m == 9 || m == 11 {
        30
    } else {
        31
    }
}

/// Returns the day number of a date.
pub fn days_from_civil(d: &CivilDate) -> (n: i64)
    requires
        valid_date(*d),
    ensures
        n == day_number(*d),
        MIN_DAY <= n <= MAX_DAY,
{
    let y: u64 = if d.month <= 2 {
        (d.year - 1) as u64
    } else {
        d.year as u64
    };
    let era: u64 = y / 400;
    let yoe: u64 = y - era * 400;
    let mp: u64 = if d.month > 2 {
        (d.month - 3) as u64
    } else {
        (d.month + 9) as u64
    };
    let doy: u64 = (153 * mp + 2) / 5 + d.day as u64 - 1;
    let doe: u64 = yoe * 365 + yoe / 4 - yoe / 100 + doy;
    let n: i64 = (era * 146097 + doe) as i64 - 719468;
    proof {
        lemma_day_number_bounds(*d);
    }
    n
}

/// The day number of every valid date lies between `MIN_DAY` and `MAX_DAY`.
proof fn lemma_day_number_bounds(d: CivilDate)
    requires
        valid_date(d),
    ensures
        MIN_DAY <= day_number(d) <= MAX_DAY,
{
}

/// Returns the weekday of a day number: 0 is Monday through 6 is Sunday.
pub fn weekday_of(day: i64) -> (r: u8)
    requires
        MIN_DAY <= day <= MAX_DAY,
    ensures
        r == spec_weekday(day as int),
        r < 7,
{
    proof {
        vstd::arithmetic::div_mod::lemma_mod_multiples_vanish(102738, day + 3, 7);
        vstd::arithmetic::div_mod::lemma_mod_division_less_than_divisor(day + 3, 7);
    }
    (((day + 3 + 719166) as u64) % 7) as u8
}

/// Stepping a quotient: adding one to a non-negative dividend either keeps
/// the quotient (and increments the remainder) or, exactly when the new
/// dividend is a multiple of the divisor, increments the quotient.
proof fn lemma_div_step(a: int, k: int)
    requires
        0 <= a,
        0 < k,
    ensures
        a % k == k - 1 ==> (a + 1) / k == a / k + 1 && (a + 1) % k == 0,
        a % k < k - 1 ==> (a + 1) / k == a / k && (a + 1) % k == a % k + 1,
{
    vstd::arithmetic::div_mod::lemma_fundamental_div_mod(a, k);
    vstd::arithmetic::div_mod::lemma_mod_division_less_than_divisor(a, k);
    let q0 = a / k;
    let r0 = a % k;
    if r0 == k - 1 {
        assert(a + 1 == (q0 + 1) * k + 0) by (nonlinear_arith)
            requires
                a == k * q0 + r0,
                r0 == k - 1,
        ;
        vstd::arithmetic::div_mod::lemma_fundamental_div_mod_converse_div(a + 1, k, q0 + 1, 0);
        vstd::arithmetic::div_mod::lemma_fundamental_div_mod_converse_mod(a + 1, k, q0 + 1, 0);
    } else {
        assert(a + 1 == q0 * k + (r0 + 1)) by (nonlinear_arith)
            requires
                a == k * q0 + r0,
        ;
        vstd::arithmetic::div_mod::lemma_fundamental_div_mod_converse_div(a + 1, k, q0, r0 + 1);
        vstd::arithmetic::div_mod::lemma_fundamental_div_mod_converse_mod(a + 1, k, q0, r0 + 1);
    }
}

/// Advancing from the last day of February to the first of March advances
/// the day number by one; this is where the leap-year rule enters.
proof fn lemma_feb_step(d: CivilDate)
    requires
        valid_date(d),
        d.month == 2,
        d.day == spec_days_in_month(d.year as int, 2),
    ensures
        day_number(CivilDate { year: d.year, month: 3, day: 1 }) == day_number(d) + 1,
{
    let y = d.year as int;
    let q = y - 1;
    let era0 = q / 400;
    let yoe0 = q % 400;
    vstd::arithmetic::div_mod::lemma_fundamental_div_mod(q, 400);
    vstd::arithmetic::div_mod::lemma_mod_division_less_than_divisor(q, 400);
    if yoe0 == 399 {
        vstd::arithmetic::div_mod::lemma_fundamental_div_mod_converse_div(y, 400, era0 + 1, 0);
        vstd::arithmetic::div_mod::lemma_fundamental_div_mod_converse_mod(y, 400, era0 + 1, 0);
        assert(spec_is_leap_year(y));
    } else {
        let yoe1 = yoe0 + 1;
        vstd::arithmetic::div_mod::lemma_fundamental_div_mod_converse_div(y, 400, era0, yoe1);
        vstd::arithmetic::div_mod::lemma_fundamental_div_mod_converse_mod(y, 400, era0, yoe1);
        vstd::arithmetic::div_mod::lemma_mod_mod(y, 4, 100);
        vstd::arithmetic::div_mod::lemma_mod_mod(y, 100, 4);
        lemma_div_step(yoe0, 4);
        lemma_div_step(yoe0, 100);
        vstd::arithmetic::div_mod::lemma_mod_division_less_than_divisor(yoe0, 4);
        vstd::arithmetic::div_mod::lemma_mod_division_less_than_divisor(yoe0, 100);
        if yoe1 % 100 == 0 {
            vstd::arithmetic::div_mod::lemma_fundamental_div_mod(yoe1, 100);
            vstd::arithmetic::div_mod::lemma_fundamental_div_mod_converse_mod(
                yoe1,
                4,
                25 * (yoe1 / 100),
                0,
            );
        }
    }
}

/// Advancing past the end of any month other than February or December
/// advances the day number by one.
proof fn lemma_month_step(d: CivilDate)
    requires
        valid_date(d),
        d.month < 12,
        d.day == spec_days_in_month(d.year as int, d.month as int),
    ensures
        day_number(CivilDate { year: d.year, month: (d.month + 1) as u8, day: 1 }) == day_number(d)
            + 1,
{
    if d.month == 2 {
        lemma_feb_step(d);
    }
}

/// Returns the day after the given date.
pub fn next_day(d: &CivilDate) -> (r: CivilDate)
    requires
        valid_date(*d),
        day_number(*d) < MAX_DAY,
    ensures
        valid_date(r),
        day_number(r) == day_number(*d) + 1,
{
    let dim = days_in_month(d.year, d.month);
    if d.day < dim {
        CivilDate { year: d.year, month: d.month, day: d.day + 1 }
    } else if d.month < 12 {
        let r = CivilDate { year: d.year, month: d.month + 1, day: 1 };
        proof {
            lemma_month_step(*d);
        }
        r
    } else {
        CivilDate { year: d.year + 1, month: 1, day: 1 }
    }
}

/// Returns the date `n` days after the given date.
pub fn add_days(d: &CivilDate, n: u64) -> (r: CivilDate)
    requires
        valid_date(*d),
        day_number(*d) + n <= MAX_DAY,
    ensures
        valid_date(r),
        day_number(r) == day_number(*d) + n,
{
    let mut cur = *d;
    let mut i: u64 = 0;
    while i < n
        invariant
            valid_date(cur),
            i <= n,
            day_number(cur) == day_number(*d) + i,
            day_number(*d) + n <= MAX_DAY,
        decreases n - i,
    {
        cur = next_day(&cur);
        i = i + 1;
    }
    cur
}

/// Returns whether the date exists in the calendar.
pub fn is_valid_date(d: &CivilDate) -> (r: bool)
    ensures
        r == valid_date(*d),
{
    1 <= d.year && d.year <= 9999 && 1 <= d.month && d.month <= 12 && 1 <= d.day && d.day
        <= days_in_month(d.year, d.month)
}

/// Returns whether the date-time exists in the calendar.
pub fn is_valid_date_time(t: &CivilDateTime) -> (r: bool)
    ensures
        r == valid_date_time(*t),
{
    is_valid_date(&t.date) && t.hour < 24 && t.minute < 60 && t.second < 60
}

/// The number of seconds since the Unix epoch at the given date-time.
pub open spec fn spec_unix_seconds(t: CivilDateTime) -> int {
    day_number(t.date) * 86400 + t.hour * 3600 + t.minute * 60 + t.second
}

/// Returns the number of seconds since the Unix epoch at the given
/// date-time.
pub fn unix_seconds(t: &CivilDateTime) -> (r: i64)
    requires
        valid_date_time(*t),
    ensures
        r == spec_unix_seconds(*t),
{
    let day = days_from_civil(&t.date);
    day * 86400 + t.hour as i64 * 3600 + t.minute as i64 * 60 + t.second as i64
}

} // verus!
