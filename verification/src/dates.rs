//! Calendar facts that come from chrono: which weekday a calendar date
//! falls on, its ISO week number, and the current year.

use chrono::Datelike;
use vstd::prelude::*;

use crate::calendar::days_in_month_num;

verus! {

/// The weekday of the calendar date (y, m, d), counted as days since
/// Monday (0 through 6); a function of the date alone.
pub uninterp spec fn weekday_number_of(y: int, m: int, d: int) -> int;

/// The ISO 8601 week number of the calendar date (y, m, d); a function of
/// the date alone.
pub uninterp spec fn iso_week_of(y: int, m: int, d: int) -> int;

/// Relies on chrono's NaiveDate::from_ymd_opt, Datelike::weekday and
/// Weekday::num_days_from_monday: every valid date in chrono's year range
/// has a weekday, counted 0 to 6 from Monday, that depends on the date
/// alone.
#[verifier::external_body]
pub(crate) fn date_weekday_number(y: i32, m: u32, d: u32) -> (r: u32)
    requires
        -262143 <= y <= 262142,
        1 <= m <= 12,
        1 <= d <= days_in_month_num(m as int),
    ensures
        r == weekday_number_of(y as int, m as int, d as int),
        r <= 6,
{
    chrono::NaiveDate::from_ymd_opt(y, m, d).unwrap().weekday().num_days_from_monday()
}

/// Relies on chrono's NaiveDate::from_ymd_opt and Datelike::iso_week:
/// every valid date in chrono's year range falls in an ISO week numbered
/// 1 to 53, and the number depends on the date alone.
#[verifier::external_body]
pub(crate) fn date_iso_week(y: i32, m: u32, d: u32) -> (r: u32)
    requires
        -262143 <= y <= 262142,
        1 <= m <= 12,
        1 <= d <= days_in_month_num(m as int),
    ensures
        r == iso_week_of(y as int, m as int, d as int),
        1 <= r <= 53,
{
    chrono::NaiveDate::from_ymd_opt(y, m, d).unwrap().iso_week().week()
}

/// Relies on chrono's Utc::now and Datelike::year: the current civil
/// year, always within the year range of chrono's dates.
#[verifier::external_body]
pub(crate) fn current_year() -> (r: i32)
    ensures
        -262143 <= r <= 262142,
{
    chrono::Utc::now().year()
}

} // verus!
