use crate::text::{replace_all, replace_spec};
use std::fmt::Write;
use vstd::prelude::*;

verus! {

/// A wall-clock moment: a calendar date, a time of day, and the offset from
/// UTC (in seconds, east positive) of the zone it was read in.
#[derive(Clone, Copy, Debug, PartialEq, Eq, Structural)]
pub struct Timestamp {
    pub year: i32,
    pub month: u32,
    pub day: u32,
    pub hour: u32,
    pub minute: u32,
    pub second: u32,
    pub utc_offset_seconds: i32,
}

/// The ISO week number that chrono gives the date `year-month-day`, or `None`
/// where chrono has no such date.
pub uninterp spec fn iso_week_of(year: i32, month: u32, day: u32) -> Option<u32>;

/// What chrono's strftime-style formatting writes for `moment` under `format`,
/// or `None` where chrono rejects the moment or the format string.
pub uninterp spec fn strftime(moment: Timestamp, format: Seq<char>) -> Option<Seq<char>>;

/// Relies on chrono's `NaiveDate::from_ymd_opt` and `IsoWeek::week`: the ISO
/// week number of the moment's date, which chrono documents as 1 to 53.
#[verifier::external_body]
fn iso_week(moment: &Timestamp) -> (r: Option<u32>)
    ensures
        r == iso_week_of(moment.year, moment.month, moment.day),
        r matches Some(w) ==> 1 <= w <= 53,
{
    chrono::NaiveDate::from_ymd_opt(moment.year, moment.month, moment.day)
        .map(|d| chrono::Datelike::iso_week(&d).week())
}

/// Relies on chrono's `DateTime::<FixedOffset>::format`: the moment written out
/// under a strftime-style format string; `None` where chrono cannot build the
/// moment or reports the format as invalid.
#[verifier::external_body]
fn format_moment(moment: &Timestamp, format: &str) -> (r: Option<String>)
    ensures
        match r {
            Some(t) => strftime(*moment, format@) == Some(t@),
            None => strftime(*moment, format@) is None,
        },
{
    let date = chrono::NaiveDate::from_ymd_opt(moment.year, moment.month, moment.day)?;
    let local = date.and_hms_opt(moment.hour, moment.minute, moment.second)?;
    let zone = chrono::FixedOffset::east_opt(moment.utc_offset_seconds)?;
    let at = local.and_local_timezone(zone).single()?;
    let mut out = String::new();
    match write!(out, "{}", at.format(format)) {
        Ok(()) => Some(out),
        Err(_) => None,
    }
}

/// The fiscal quarter that an ISO week number falls in.
pub open spec fn quarter_of(week: int) -> int {
    if week <= 13 {
        1
    } else if week <= 26 {
        2
    } else if week <= 39 {
        3
    } else {
        4
    }
}

/// Maps an ISO week number (1 to 53) to its fiscal quarter: weeks 1-13 are the
/// first quarter, 14-26 the second, 27-39 the third and 40-53 the fourth.
pub fn quarter_from_week(week: u32) -> (r: u32)
    requires
        1 <= week <= 53,
    ensures
        r == quarter_of(week as int),
        1 <= r <= 4,
{
    if week <= 13 {
        1
    } else if week <= 26 {
        2
    } else if week <= 39 {
        3
    } else {
        4
    }
}

/// The decimal digit of a quarter.
pub open spec fn quarter_chars(q: int) -> Seq<char> {
    if q == 1 {
        seq!['1']
    } else if q == 2 {
        seq!['2']
    } else if q == 3 {
        seq!['3']
    } else {
        seq!['4']
    }
}

/// The token that stands for the fiscal quarter in a format string.
pub open spec fn quarter_token() -> Seq<char> {
    seq!['%', 'Q']
}

/// What a format string reads after `%Q` is replaced by the digit of
/// quarter `q`.
pub open spec fn with_quarter(format: Seq<char>, q: int) -> Seq<char> {
    replace_spec(format, quarter_token(), quarter_chars(q))
}

/// `moment` written out under `format`, where `%Q` stands for the fiscal
/// quarter of the moment's ISO week; `None` where chrono rejects the date or
/// the format.
pub open spec fn formatted_with_quarter(moment: Timestamp, format: Seq<char>) -> Option<Seq<char>> {
    match iso_week_of(moment.year, moment.month, moment.day) {
        Some(w) => strftime(moment, with_quarter(format, quarter_of(w as int))),
        None => None,
    }
}

fn quarter_text(q: u32) -> (r: &'static str)
    requires
        1 <= q <= 4,
    ensures
        r@ == quarter_chars(q as int),
{
    proof {
        reveal_strlit("1");
        reveal_strlit("2");
        reveal_strlit("3");
        reveal_strlit("4");
    }
    if q == 1 {
        "1"
    } else if q == 2 {
        "2"
    } else if q == 3 {
        "3"
    } else {
        "4"
    }
}

/// Replaces each `%Q` in a format string by the digit of `quarter`.
pub fn process_format_string(format: &str, quarter: u32) -> (r: String)
    requires
        1 <= quarter <= 4,
    ensures
        r@ == with_quarter(format@, quarter as int),
{
    proof {
        reveal_strlit("%Q");
        assert("%Q"@ =~= quarter_token());
    }
    replace_all(format, "%Q", quarter_text(quarter))
}

/// Writes out `moment` under a strftime-style format string in which `%Q`
/// stands for the fiscal quarter of the moment's ISO week.
pub fn current_date_formatted(format: &str, moment: &Timestamp) -> (r: Option<String>)
    ensures
        match r {
            Some(t) => formatted_with_quarter(*moment, format@) == Some(t@),
            None => formatted_with_quarter(*moment, format@) is None,
        },
{
    match iso_week(moment) {
        Some(week) => {
            let quarter = quarter_from_week(week);
            let resolved = process_format_string(format, quarter);
            format_moment(moment, resolved.as_str())
        },
        None => None,
    }
}

} // verus!
