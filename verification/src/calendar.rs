//! Rendering ledger timestamps as calendar dates.
//!
//! Ledger timestamps count seconds from the ledger epoch, which sits
//! 946,684,800 seconds after the Unix epoch (2000-01-01 00:00:00 UTC). A
//! timestamp is rendered as `YYYY-MM-DD HH:MM UTC` using proper Gregorian
//! calendar rules (leap years included). Timestamps at or beyond the year
//! 10000, and sums that overflow, render as the invalid-date sentinel.

use vstd::prelude::*;
use vstd::string::StringExecFns;

use crate::numeral::{dec_digits, padded_dec, two_digit_string, u64_to_dec_string};

verus! {

/// Seconds between the Unix epoch and the ledger epoch.
pub const LEDGER_EPOCH_OFFSET: u64 = 946684800;

/// The first Unix timestamp of the year 10000, the limit of what is rendered.
pub const TIMESTAMP_LIMIT: u64 = 253402300800;

pub open spec fn is_leap_year(y: nat) -> bool {
    y % 4 == 0 && (y % 100 != 0 || y % 400 == 0)
}

pub open spec fn days_in_year(y: nat) -> nat {
    if is_leap_year(y) {
        366
    } else {
        365
    }
}

pub open spec fn days_in_month(y: nat, m: nat) -> nat {
    if m == 2 {
        if is_leap_year(y) {
            29
        } else {
            28
        }
    } else if m == 4 || m == 6 || m == 9 || m == 11 {
        30
    } else {
        31
    }
}

/// Walks forward one calendar year at a time from year `y`: yields the year
/// that day number `days` falls in, and the day's index within that year.
pub open spec fn year_and_day(days: nat, y: nat) -> (nat, nat)
    decreases days,
{
    if days < days_in_year(y) {
        (y, days)
    } else {
        year_and_day((days - days_in_year(y)) as nat, y + 1)
    }
}

/// Walks forward one month at a time from month `m` of year `y`: yields the
/// month that day-of-year index `doy` falls in, and the day's index within
/// that month.
pub open spec fn month_and_day(doy: nat, y: nat, m: nat) -> (nat, nat)
    decreases doy,
{
    if doy < days_in_month(y, m) {
        (m, doy)
    } else {
        month_and_day((doy - days_in_month(y, m)) as nat, y, m + 1)
    }
}

/// The Gregorian calendar date (year, month, day) of the day that starts
/// `days` whole days after 1970-01-01.
pub open spec fn civil_date_of_days(days: nat) -> (nat, nat, nat) {
    let yd = year_and_day(days, 1970);
    let md = month_and_day(yd.1, yd.0, 1);
    (yd.0, md.0, md.1 + 1)
}

/// What a Unix timestamp renders as: `YYYY-MM-DD HH:MM UTC`, or the
/// invalid-date sentinel at or beyond the year 10000.
pub open spec fn timestamp_display_spec(ts: u64) -> Seq<char> {
    if ts >= TIMESTAMP_LIMIT {
        "Некорректная дата"@
    } else {
        let date = civil_date_of_days((ts / 86400) as nat);
        dec_digits(date.0) + seq!['-'] + padded_dec(date.1, 2) + seq!['-'] + padded_dec(date.2, 2)
            + seq![' '] + padded_dec(((ts % 86400) / 3600) as nat, 2) + seq![':'] + padded_dec(
            ((ts % 3600) / 60) as nat,
            2,
        ) + " UTC"@
    }
}

/// What an optional ledger-epoch timestamp renders as: the no-data sentinel
/// when absent, otherwise the Unix rendering of `t` shifted by the ledger
/// epoch offset (with an overflowing shift rendered as invalid).
pub open spec fn epoch_display_spec(date: Option<u64>) -> Seq<char> {
    match date {
        None => "Нет данных"@,
        Some(t) => if t + LEDGER_EPOCH_OFFSET <= u64::MAX {
            timestamp_display_spec((t + LEDGER_EPOCH_OFFSET) as u64)
        } else {
            "Некорректная дата"@
        },
    }
}

fn leap_year(y: u64) -> (r: bool)
    ensures
        r == is_leap_year(y as nat),
{
    y % 4 == 0 && (y % 100 != 0 || y % 400 == 0)
}

fn year_length(y: u64) -> (r: u64)
    ensures
        r == days_in_year(y as nat),
{
    if leap_year(y) {
        366
    } else {
        365
    }
}

fn month_length(y: u64, m: u64) -> (r: u64)
    ensures
        r == days_in_month(y as nat, m as nat),
{
    if m == 2 {
        if leap_year(y) {
            29
        } else {
            28
        }
    } else if m == 4 || m == 6 || m == 9 || m == 11 {
        30
    } else {
        31
    }
}

/// Renders a Unix timestamp as `YYYY-MM-DD HH:MM UTC`, or as the
/// invalid-date sentinel at or beyond the year 10000.
pub fn format_timestamp(ts: u64) -> (r: String)
    ensures
        r@ == timestamp_display_spec(ts),
{
    if ts >= TIMESTAMP_LIMIT {
        return String::from_str("Некорректная дата");
    }
    let days = ts / 86400;
    let mut rem = days;
    let mut y: u64 = 1970;
    loop
        invariant
            year_and_day(days as nat, 1970) == year_and_day(rem as nat, y as nat),
            1970 <= y,
            rem <= days,
            days <= 2932897,
            y - 1970 <= days - rem,
        ensures
            year_and_day(days as nat, 1970) == (y as nat, rem as nat),
            rem < days_in_year(y as nat),
            1970 <= y <= 2934868,
        decreases rem,
    {
        let len = year_length(y);
        if rem < len {
            break;
        }
        rem = rem - len;
        y = y + 1;
    }
    let ghost doy: nat = rem as nat;
    let mut m: u64 = 1;
    loop
        invariant
            month_and_day(doy, y as nat, 1) == month_and_day(rem as nat, y as nat, m as nat),
            1 <= m,
            rem <= doy,
            doy < 366,
            28 * (m - 1) <= doy - rem,
        ensures
            month_and_day(doy, y as nat, 1) == (m as nat, rem as nat),
            rem < days_in_month(y as nat, m as nat),
            1 <= m <= 14,
        decreases rem,
    {
        let len = month_length(y, m);
        if rem < len {
            break;
        }
        rem = rem - len;
        m = m + 1;
    }
    let day = rem + 1;
    let hour = (ts % 86400) / 3600;
    let minute = (ts % 3600) / 60;
    let year_str = u64_to_dec_string(y);
    let month_str = two_digit_string(m);
    let day_str = two_digit_string(day);
    let hour_str = two_digit_string(hour);
    let minute_str = two_digit_string(minute);
    proof {
        reveal_strlit("-");
        reveal_strlit(" ");
        reveal_strlit(":");
        reveal_strlit(" UTC");
    }
    let r = year_str.concat("-").concat(month_str.as_str()).concat("-").concat(
        day_str.as_str(),
    ).concat(" ").concat(hour_str.as_str()).concat(":").concat(minute_str.as_str()).concat(" UTC");
    assert(r@ =~= timestamp_display_spec(ts)) by {
        assert("-"@ =~= seq!['-']);
        assert(" "@ =~= seq![' ']);
        assert(":"@ =~= seq![':']);
    }
    r
}

/// Renders an optional ledger-epoch timestamp for display: the no-data
/// sentinel when absent, otherwise the shifted Unix timestamp.
pub fn epoch_to_display(date: Option<u64>) -> (r: String)
    ensures
        r@ == epoch_display_spec(date),
{
    match date {
        None => String::from_str("Нет данных"),
        Some(t) => match t.checked_add(LEDGER_EPOCH_OFFSET) {
            Some(ts) => format_timestamp(ts),
            None => String::from_str("Некорректная дата"),
        },
    }
}

} // verus!
