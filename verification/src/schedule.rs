//! Planning the calendar date of an upgrade from the voting period and the
//! current time.
//!
//! The planned date is found in a single pass: add the voting period to the
//! current time, push the candidate one day ahead when the cutoff rule
//! applies, move a weekend candidate to the following Monday, and anchor the
//! result to the fixed afternoon hour.

use vstd::prelude::*;

use crate::date::{
    add_days, day_number, days_from_civil, spec_weekday, valid_date, valid_date_time, weekday_of,
    CivilDate, CivilDateTime, MAX_DAY, SATURDAY, SUNDAY,
};

verus! {

/// The fixed hour of day (UTC) that every planned upgrade is anchored to.
pub const ANCHOR_HOUR: u8 = 16;

/// The latest hour at which planning may still target the very next
/// candidate day; after it the candidate is pushed one day ahead.
pub const CUTOFF_HOUR: u8 = 14;

/// A largest supported voting period, in hours; keeps the planned date
/// within the supported calendar for any starting year up to 9000.
pub const MAX_VOTING_PERIOD_HOURS: u64 = 1_000_000;

/// The calendar date of a planned upgrade, anchored to a fixed hour (UTC).
#[derive(Clone, Copy, Debug, PartialEq, Eq, Structural)]
pub struct PlannedDate {
    pub date: CivilDate,
    pub hour: u8,
}

/// The day number of the candidate after adding the voting period and
/// applying the cutoff rule, but before weekend avoidance.
pub open spec fn spec_candidate_day(voting_period_hours: int, now: CivilDateTime) -> int {
    let total = now.hour + voting_period_hours;
    let cand_day = day_number(now.date) + total / 24;
    let cand_hour = total % 24;
    if now.hour > CUTOFF_HOUR || cand_hour >= ANCHOR_HOUR {
        cand_day + 1
    } else {
        cand_day
    }
}

/// The day number of the planned upgrade date: the candidate day, moved off
/// a weekend onto the following Monday.
pub open spec fn spec_planned_day(voting_period_hours: int, now: CivilDateTime) -> int {
    let cand = spec_candidate_day(voting_period_hours, now);
    if spec_weekday(cand) == SATURDAY {
        cand + 2
    } else if spec_weekday(cand) == SUNDAY {
        cand + 1
    } else {
        cand
    }
}

/// The planned upgrade day never falls on a weekend, whatever the voting
/// period and the current time.
pub proof fn lemma_planned_day_not_weekend(voting_period_hours: int, now: CivilDateTime)
    requires
        voting_period_hours >= 0,
    ensures
        spec_weekday(spec_planned_day(voting_period_hours, now)) != SATURDAY,
        spec_weekday(spec_planned_day(voting_period_hours, now)) != SUNDAY,
{
    let cand = spec_candidate_day(voting_period_hours, now);
    vstd::arithmetic::div_mod::lemma_mod_division_less_than_divisor(cand + 3, 7);
    if spec_weekday(cand) == SATURDAY {
        vstd::arithmetic::div_mod::lemma_mod_add_multiples_vanish(cand + 3 - 7, 7);
        vstd::arithmetic::div_mod::lemma_mod_division_less_than_divisor(cand + 5 - 7, 7);
        vstd::arithmetic::div_mod::lemma_mod_add_multiples_vanish(cand + 5 - 7, 7);
    } else if spec_weekday(cand) == SUNDAY {
        vstd::arithmetic::div_mod::lemma_mod_add_multiples_vanish(cand + 4 - 7, 7);
        vstd::arithmetic::div_mod::lemma_mod_division_less_than_divisor(cand + 4 - 7, 7);
    }
}

/// Computes the date for the planned upgrade from the voting period and the
/// current time, all in UTC.
///
/// The candidate is the current time plus the voting period.  When planning
/// starts after the cutoff hour, or the candidate itself would reach the
/// anchor hour, the candidate moves one day ahead; a candidate on a weekend
/// then moves to the following Monday.  The result is the candidate's date
/// at the anchor hour.
pub fn calculate_planned_date(voting_period_hours: u64, now: &CivilDateTime) -> (r: PlannedDate)
    requires
        valid_date_time(*now),
        now.date.year <= 9000,
        voting_period_hours <= MAX_VOTING_PERIOD_HOURS,
    ensures
        valid_date(r.date),
        r.hour == ANCHOR_HOUR,
        day_number(r.date) == spec_planned_day(voting_period_hours as int, *now),
        spec_weekday(day_number(r.date)) != SATURDAY,
        spec_weekday(day_number(r.date)) != SUNDAY,
{
    proof {
        lemma_day_bound_year_9000(now.date);
    }
    let now_day = days_from_civil(&now.date);
    let total = now.hour as u64 + voting_period_hours;
    let cand_hour = (total % 24) as u8;

    // days ahead of the current date, before weekend avoidance
    let mut days_ahead = total / 24;
    if now.hour > CUTOFF_HOUR || cand_hour >= ANCHOR_HOUR {
        days_ahead = days_ahead + 1;
    }

    let cand_day = now_day + days_ahead as i64;
    let wd = weekday_of(cand_day);
    if wd == SATURDAY {
        days_ahead = days_ahead + 2;
    } else if wd == SUNDAY {
        days_ahead = days_ahead + 1;
    }

    proof {
        lemma_planned_day_not_weekend(voting_period_hours as int, *now);
    }
    let date = add_days(&now.date, days_ahead);
    PlannedDate { date, hour: ANCHOR_HOUR }
}

/// For a date no later than the year 9000, even the largest supported
/// voting period keeps the planned day within the supported calendar.
proof fn lemma_day_bound_year_9000(d: CivilDate)
    requires
        valid_date(d),
        d.year <= 9000,
    ensures
        day_number(d) + MAX_VOTING_PERIOD_HOURS / 24 + 4 <= MAX_DAY,
{
}

/// Returns whether the given time is a valid upgrade time: any time on a
/// weekday, and no time on a Saturday or Sunday.
pub fn is_valid_upgrade_time(upgrade_time: &CivilDateTime) -> (r: bool)
    requires
        valid_date_time(*upgrade_time),
    ensures
        r == (spec_weekday(day_number(upgrade_time.date)) != SATURDAY && spec_weekday(
            day_number(upgrade_time.date),
        ) != SUNDAY),
{
    let wd = weekday_of(days_from_civil(&upgrade_time.date));
    wd != SATURDAY && wd != SUNDAY
}

} // verus!
