//! Pure helpers behind the interactive prompts: decoding a chosen network,
//! checking a pasted link, and rendering a time for display.

use vstd::prelude::*;

use crate::date::{
    day_number, days_from_civil, spec_weekday, valid_date_time, weekday_of, CivilDateTime,
};
use crate::network::{spec_network_label, Network};
use crate::strutil::{spec_starts_with, spec_u64_dec, starts_with_str, str_eq, u64_to_string};

verus! {

/// Decodes the label chosen in a network prompt back into the network.
pub fn network_from_label(label: &str) -> (r: Option<Network>)
    ensures
        match r {
            Some(network) => label@ == spec_network_label(network),
            None => label@ != spec_network_label(Network::LocalNode) && label@
                != spec_network_label(Network::Testnet) && label@ != spec_network_label(
                Network::Mainnet,
            ),
        },
{
    if str_eq(label, "Local Node") {
        Some(Network::LocalNode)
    } else if str_eq(label, "Testnet") {
        Some(Network::Testnet)
    } else if str_eq(label, "Mainnet") {
        Some(Network::Mainnet)
    } else {
        None
    }
}

/// The prefix that a link to a governance discussion page must carry.
pub open spec fn spec_commonwealth_prefix() -> Seq<char> {
    "https://commonwealth.im/evmos"@
}

/// Returns whether the pasted link points at the governance discussion
/// site.
pub fn is_valid_commonwealth_link(link: &str) -> (r: bool)
    ensures
        r == spec_starts_with(link@, spec_commonwealth_prefix()),
{
    starts_with_str(link, "https://commonwealth.im/evmos")
}

/// The hour on a twelve-hour clock.
pub open spec fn spec_hour12(hour: int) -> int {
    if hour % 12 == 0 {
        12
    } else {
        hour % 12
    }
}

/// The abbreviated name of a weekday (0 is Monday through 6 is Sunday).
pub open spec fn spec_weekday_abbrev(wd: int) -> Seq<char> {
    if wd == 0 {
        "Mon"@
    } else if wd == 1 {
        "Tue"@
    } else if wd == 2 {
        "Wed"@
    } else if wd == 3 {
        "Thu"@
    } else if wd == 4 {
        "Fri"@
    } else if wd == 5 {
        "Sat"@
    } else {
        "Sun"@
    }
}

/// The English name of a month.
pub open spec fn spec_month_name(m: int) -> Seq<char> {
    if m == 1 {
        "January"@
    } else if m == 2 {
        "February"@
    } else if m == 3 {
        "March"@
    } else if m == 4 {
        "April"@
    } else if m == 5 {
        "May"@
    } else if m == 6 {
        "June"@
    } else if m == 7 {
        "July"@
    } else if m == 8 {
        "August"@
    } else if m == 9 {
        "September"@
    } else if m == 10 {
        "October"@
    } else if m == 11 {
        "November"@
    } else {
        "December"@
    }
}

/// The display form of a time: the hour on a twelve-hour clock with its
/// half-day marker, then weekday, month, day and year.
pub open spec fn spec_time_string(t: CivilDateTime) -> Seq<char> {
    spec_u64_dec(spec_hour12(t.hour as int)) + (if t.hour >= 12 {
        "PM"@
    } else {
        "AM"@
    }) + " UTC on "@ + spec_weekday_abbrev(spec_weekday(day_number(t.date))) + "., "@
        + spec_month_name(t.date.month as int) + " "@ + spec_u64_dec(t.date.day as int) + "., "@
        + spec_u64_dec(t.date.year as int)
}

/// Returns the abbreviated name of a weekday.
fn weekday_abbrev(wd: u8) -> (r: String)
    requires
        wd < 7,
    ensures
        r@ == spec_weekday_abbrev(wd as int),
{
    if wd == 0 {
        String::from_str("Mon")
    } else if wd == 1 {
        String::from_str("Tue")
    } else if wd == 2 {
        String::from_str("Wed")
    } else if wd == 3 {
        String::from_str("Thu")
    } else if wd == 4 {
        String::from_str("Fri")
    } else if wd == 5 {
        String::from_str("Sat")
    } else {
        String::from_str("Sun")
    }
}

/// Returns the English name of a month.
fn month_name(m: u8) -> (r: String)
    requires
        1 <= m <= 12,
    ensures
        r@ == spec_month_name(m as int),
{
    if m == 1 {
        String::from_str("January")
    } else if m == 2 {
        String::from_str("February")
    } else if m == 3 {
        String::from_str("March")
    } else if m == 4 {
        String::from_str("April")
    } else if m == 5 {
        String::from_str("May")
    } else if m == 6 {
        String::from_str("June")
    } else if m == 7 {
        String::from_str("July")
    } else if m == 8 {
        String::from_str("August")
    } else if m == 9 {
        String::from_str("September")
    } else if m == 10 {
        String::from_str("October")
    } else if m == 11 {
        String::from_str("November")
    } else {
        String::from_str("December")
    }
}

/// Returns the display form of the given time, such as
/// `4PM UTC on Mon., October 23., 2023`.
pub fn get_time_string(time: &CivilDateTime) -> (r: String)
    requires
        valid_date_time(*time),
    ensures
        r@ == spec_time_string(*time),
{
    let h12: u8 = if time.hour % 12 == 0 {
        12
    } else {
        time.hour % 12
    };
    let wd = weekday_of(days_from_civil(&time.date));

    let mut r = u64_to_string(h12 as u64);
    if time.hour >= 12 {
        r.append("PM");
    } else {
        r.append("AM");
    }
    r.append(" UTC on ");
    let wd_name = weekday_abbrev(wd);
    r.append(wd_name.as_str());
    r.append("., ");
    let m_name = month_name(time.date.month);
    r.append(m_name.as_str());
    r.append(" ");
    let day_str = u64_to_string(time.date.day as u64);
    r.append(day_str.as_str());
    r.append("., ");
    let year_str = u64_to_string(time.date.year as u64);
    r.append(year_str.as_str());
    r
}

} // verus!
