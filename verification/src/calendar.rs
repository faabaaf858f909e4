//! Month and weekday tables: names, numbers, days per month (fixed,
//! non-leap), and the option grids the wizard offers for month and day
//! selection.

use vstd::prelude::*;

use crate::strutil::{ci_eq, dec_digits, eq_ci, str_eq, u32_to_string};

verus! {

#[derive(Clone, Copy, PartialEq, Eq, Structural, Debug)]
pub enum Month {
    January,
    February,
    March,
    April,
    May,
    June,
    July,
    August,
    September,
    October,
    November,
    December,
}

#[derive(Clone, Copy, PartialEq, Eq, Structural, Debug)]
pub enum Weekday {
    Mon,
    Tue,
    Wed,
    Thu,
    Fri,
    Sat,
    Sun,
}

// ---------------------------------------------------------------------------
// Months
// ---------------------------------------------------------------------------

pub open spec fn month_num(m: Month) -> int {
    match m {
        Month::January => 1,
        Month::February => 2,
        Month::March => 3,
        Month::April => 4,
        Month::May => 5,
        Month::June => 6,
        Month::July => 7,
        Month::August => 8,
        Month::September => 9,
        Month::October => 10,
        Month::November => 11,
        Month::December => 12,
    }
}

pub open spec fn month_of_num(i: int) -> Month {
    if i == 1 { Month::January }
    else if i == 2 { Month::February }
    else if i == 3 { Month::March }
    else if i == 4 { Month::April }
    else if i == 5 { Month::May }
    else if i == 6 { Month::June }
    else if i == 7 { Month::July }
    else if i == 8 { Month::August }
    else if i == 9 { Month::September }
    else if i == 10 { Month::October }
    else if i == 11 { Month::November }
    else { Month::December }
}

/// The capitalized name of month `i` (1 through 12).
pub open spec fn month_name(i: int) -> Seq<char> {
    if i == 1 { "January"@ }
    else if i == 2 { "February"@ }
    else if i == 3 { "March"@ }
    else if i == 4 { "April"@ }
    else if i == 5 { "May"@ }
    else if i == 6 { "June"@ }
    else if i == 7 { "July"@ }
    else if i == 8 { "August"@ }
    else if i == 9 { "September"@ }
    else if i == 10 { "October"@ }
    else if i == 11 { "November"@ }
    else { "December"@ }
}

/// The month number named by `s` up to ASCII case, or 0 if `s` names no
/// month.
pub open spec fn month_number_of_name(s: Seq<char>) -> int {
    if ci_eq(s, "january"@) { 1 }
    else if ci_eq(s, "february"@) { 2 }
    else if ci_eq(s, "march"@) { 3 }
    else if ci_eq(s, "april"@) { 4 }
    else if ci_eq(s, "may"@) { 5 }
    else if ci_eq(s, "june"@) { 6 }
    else if ci_eq(s, "july"@) { 7 }
    else if ci_eq(s, "august"@) { 8 }
    else if ci_eq(s, "september"@) { 9 }
    else if ci_eq(s, "october"@) { 10 }
    else if ci_eq(s, "november"@) { 11 }
    else if ci_eq(s, "december"@) { 12 }
    else { 0 }
}

/// Days in month number `n`, from a fixed non-leap table; 0 for anything
/// that is not a month number.
pub open spec fn days_in_month_num(n: int) -> int {
    if n == 1 { 31 }
    else if n == 2 { 28 }
    else if n == 3 { 31 }
    else if n == 4 { 30 }
    else if n == 5 { 31 }
    else if n == 6 { 30 }
    else if n == 7 { 31 }
    else if n == 8 { 31 }
    else if n == 9 { 30 }
    else if n == 10 { 31 }
    else if n == 11 { 30 }
    else if n == 12 { 31 }
    else { 0 }
}

pub open spec fn days_of_month_name(s: Seq<char>) -> int {
    days_in_month_num(month_number_of_name(s))
}

/// The month number a name denotes up to ASCII case, or 0 for anything
/// that names no month.
pub fn month_number_str(s: &str) -> (r: u32)
    ensures
        r == month_number_of_name(s@),
{
    if eq_ci(s, "january") { 1 }
    else if eq_ci(s, "february") { 2 }
    else if eq_ci(s, "march") { 3 }
    else if eq_ci(s, "april") { 4 }
    else if eq_ci(s, "may") { 5 }
    else if eq_ci(s, "june") { 6 }
    else if eq_ci(s, "july") { 7 }
    else if eq_ci(s, "august") { 8 }
    else if eq_ci(s, "september") { 9 }
    else if eq_ci(s, "october") { 10 }
    else if eq_ci(s, "november") { 11 }
    else if eq_ci(s, "december") { 12 }
    else { 0 }
}

/// The month number a user's answer names, or 0 when it names none
/// (a missing answer also counts as 0).
pub fn get_month_number(option: &Option<String>) -> (r: u32)
    ensures
        (match option {
            Some(month) => r == month_number_of_name(month@),
            None => r == 0,
        }),
{
    match option {
        Some(month) => month_number_str(month.as_str()),
        None => 0,
    }
}

/// A missing month answer names no month: the empty string matches no
/// month name, so its day count is zero.
pub proof fn lemma_empty_month_name()
    ensures
        month_number_of_name(Seq::<char>::empty()) == 0,
        days_of_month_name(Seq::<char>::empty()) == 0,
{
    reveal_strlit("january");
    reveal_strlit("february");
    reveal_strlit("march");
    reveal_strlit("april");
    reveal_strlit("may");
    reveal_strlit("june");
    reveal_strlit("july");
    reveal_strlit("august");
    reveal_strlit("september");
    reveal_strlit("october");
    reveal_strlit("november");
    reveal_strlit("december");
}

/// Days in the month a user's answer names, from the fixed non-leap table.
pub fn get_days_by_month(month: &String) -> (r: i32)
    ensures
        r == days_of_month_name(month@),
        0 <= r <= 31,
{
    let s = month.as_str();
    if eq_ci(s, "january") { 31 }
    else if eq_ci(s, "february") { 28 }
    else if eq_ci(s, "march") { 31 }
    else if eq_ci(s, "april") { 30 }
    else if eq_ci(s, "may") { 31 }
    else if eq_ci(s, "june") { 30 }
    else if eq_ci(s, "july") { 31 }
    else if eq_ci(s, "august") { 31 }
    else if eq_ci(s, "september") { 30 }
    else if eq_ci(s, "october") { 31 }
    else if eq_ci(s, "november") { 30 }
    else if eq_ci(s, "december") { 31 }
    else { 0 }
}

pub fn get_month_from_int(item: i32) -> (r: Option<Month>)
    ensures
        (match r {
            Some(m) => 1 <= item <= 12 && m == month_of_num(item as int),
            None => !(1 <= item <= 12),
        }),
{
    match item {
        1 => Some(Month::January),
        2 => Some(Month::February),
        3 => Some(Month::March),
        4 => Some(Month::April),
        5 => Some(Month::May),
        6 => Some(Month::June),
        7 => Some(Month::July),
        8 => Some(Month::August),
        9 => Some(Month::September),
        10 => Some(Month::October),
        11 => Some(Month::November),
        12 => Some(Month::December),
        _ => None,
    }
}

pub fn string_from_month(month: Month) -> (r: String)
    ensures
        r@ == month_name(month_num(month)),
{
    let item = match month {
        Month::January => "January",
        Month::February => "February",
        Month::March => "March",
        Month::April => "April",
        Month::May => "May",
        Month::June => "June",
        Month::July => "July",
        Month::August => "August",
        Month::September => "September",
        Month::October => "October",
        Month::November => "November",
        Month::December => "December",
    };
    item.to_owned()
}

// ---------------------------------------------------------------------------
// Weekdays
// ---------------------------------------------------------------------------

/// Days since Monday, the order in which week parity and storage paths
/// count weekdays.
pub open spec fn weekday_idx(w: Weekday) -> int {
    match w {
        Weekday::Mon => 0,
        Weekday::Tue => 1,
        Weekday::Wed => 2,
        Weekday::Thu => 3,
        Weekday::Fri => 4,
        Weekday::Sat => 5,
        Weekday::Sun => 6,
    }
}

pub open spec fn weekday_of_idx(i: int) -> Weekday {
    if i == 0 { Weekday::Mon }
    else if i == 1 { Weekday::Tue }
    else if i == 2 { Weekday::Wed }
    else if i == 3 { Weekday::Thu }
    else if i == 4 { Weekday::Fri }
    else if i == 5 { Weekday::Sat }
    else { Weekday::Sun }
}

pub open spec fn weekday_name(w: Weekday) -> Seq<char> {
    match w {
        Weekday::Sun => "sunday"@,
        Weekday::Mon => "monday"@,
        Weekday::Tue => "tuesday"@,
        Weekday::Wed => "wednesday"@,
        Weekday::Thu => "thursday"@,
        Weekday::Fri => "friday"@,
        Weekday::Sat => "saturday"@,
    }
}

/// The weekday a storage-path segment names exactly, if any.
pub open spec fn weekday_of_name(s: Seq<char>) -> Option<Weekday> {
    if s == "sunday"@ { Some(Weekday::Sun) }
    else if s == "monday"@ { Some(Weekday::Mon) }
    else if s == "tuesday"@ { Some(Weekday::Tue) }
    else if s == "wednesday"@ { Some(Weekday::Wed) }
    else if s == "thursday"@ { Some(Weekday::Thu) }
    else if s == "friday"@ { Some(Weekday::Fri) }
    else if s == "saturday"@ { Some(Weekday::Sat) }
    else { None }
}

/// Looking a weekday's display name back up yields the same weekday: the
/// seven-entry table is a closed round trip.
pub proof fn lemma_weekday_name_roundtrip(w: Weekday)
    ensures
        weekday_of_name(weekday_name(w)) == Some(w),
{
    reveal_strlit("sunday");
    reveal_strlit("monday");
    reveal_strlit("tuesday");
    reveal_strlit("wednesday");
    reveal_strlit("thursday");
    reveal_strlit("friday");
    reveal_strlit("saturday");
    match w {
        Weekday::Sun => {
        },
        Weekday::Mon => {
            assert("monday"@[0] != "sunday"@[0]);
        },
        Weekday::Tue => {
            assert("tuesday"@.len() != "sunday"@.len());
            assert("tuesday"@.len() != "monday"@.len());
        },
        Weekday::Wed => {
            assert("wednesday"@.len() != "sunday"@.len());
            assert("wednesday"@.len() != "monday"@.len());
            assert("wednesday"@.len() != "tuesday"@.len());
        },
        Weekday::Thu => {
            assert("thursday"@.len() != "sunday"@.len());
            assert("thursday"@.len() != "monday"@.len());
            assert("thursday"@.len() != "tuesday"@.len());
            assert("thursday"@.len() != "wednesday"@.len());
        },
        Weekday::Fri => {
            assert("friday"@[0] != "sunday"@[0]);
            assert("friday"@[0] != "monday"@[0]);
            assert("friday"@.len() != "tuesday"@.len());
            assert("friday"@.len() != "wednesday"@.len());
            assert("friday"@.len() != "thursday"@.len());
        },
        Weekday::Sat => {
            assert("saturday"@.len() != "sunday"@.len());
            assert("saturday"@.len() != "monday"@.len());
            assert("saturday"@.len() != "tuesday"@.len());
            assert("saturday"@.len() != "wednesday"@.len());
            assert("saturday"@[0] != "thursday"@[0]);
            assert("saturday"@.len() != "friday"@.len());
        },
    }
}

pub fn get_weekday_display(weekday: Weekday) -> (r: String)
    ensures
        r@ == weekday_name(weekday),
{
    match weekday {
        Weekday::Sun => "sunday".to_owned(),
        Weekday::Mon => "monday".to_owned(),
        Weekday::Tue => "tuesday".to_owned(),
        Weekday::Wed => "wednesday".to_owned(),
        Weekday::Thu => "thursday".to_owned(),
        Weekday::Fri => "friday".to_owned(),
        Weekday::Sat => "saturday".to_owned(),
    }
}

pub fn weekday_from_name(s: &str) -> (r: Option<Weekday>)
    ensures
        r == weekday_of_name(s@),
{
    if str_eq(s, "sunday") { Some(Weekday::Sun) }
    else if str_eq(s, "monday") { Some(Weekday::Mon) }
    else if str_eq(s, "tuesday") { Some(Weekday::Tue) }
    else if str_eq(s, "wednesday") { Some(Weekday::Wed) }
    else if str_eq(s, "thursday") { Some(Weekday::Thu) }
    else if str_eq(s, "friday") { Some(Weekday::Fri) }
    else if str_eq(s, "saturday") { Some(Weekday::Sat) }
    else { None }
}

pub fn weekday_from_number(n: u32) -> (r: Weekday)
    requires
        n < 7,
    ensures
        r == weekday_of_idx(n as int),
        weekday_idx(r) == n,
{
    match n {
        0 => Weekday::Mon,
        1 => Weekday::Tue,
        2 => Weekday::Wed,
        3 => Weekday::Thu,
        4 => Weekday::Fri,
        5 => Weekday::Sat,
        _ => Weekday::Sun,
    }
}

// ---------------------------------------------------------------------------
// Option grids
// ---------------------------------------------------------------------------

/// The month-selection grid: one labelled button per row.
pub open spec fn months_grid() -> Seq<Seq<Seq<char>>> {
    Seq::new(12, |i: int| seq![month_name(i + 1)])
}

pub fn get_option_months() -> (r: Vec<Vec<String>>)
    ensures
        r.deep_view() == months_grid(),
{
    let mut result: Vec<Vec<String>> = Vec::new();
    result.push(vec!["January".to_owned()]);
    result.push(vec!["February".to_owned()]);
    result.push(vec!["March".to_owned()]);
    result.push(vec!["April".to_owned()]);
    result.push(vec!["May".to_owned()]);
    result.push(vec!["June".to_owned()]);
    result.push(vec!["July".to_owned()]);
    result.push(vec!["August".to_owned()]);
    result.push(vec!["September".to_owned()]);
    result.push(vec!["October".to_owned()]);
    result.push(vec!["November".to_owned()]);
    result.push(vec!["December".to_owned()]);
    proof {
        assert(result.deep_view() =~~= months_grid());
    }
    result
}

/// Length of row `r` (0 through 4) of the day grid for a month of `days`
/// days: full rows hold seven buttons, the last used row the remainder.
pub open spec fn day_row_len(r: int, days: int) -> int {
    if days - 7 * r >= 7 { 7 }
    else if days - 7 * r >= 0 { days - 7 * r }
    else { 0 }
}

/// The day-selection grid: five rows of up to seven day numbers each.
pub open spec fn day_grid(days: int) -> Seq<Seq<Seq<char>>> {
    Seq::new(5, |r: int| Seq::new(day_row_len(r, days) as nat, |k: int| dec_digits((7 * r + k + 1) as nat)))
}

/// The day-selection grid for the month a user's answer names.
pub fn get_option_days(month: &String) -> (r: Vec<Vec<String>>)
    ensures
        r.deep_view() == day_grid(days_of_month_name(month@)),
{
    let days_i = get_days_by_month(month);
    let days: u32 = days_i as u32;
    let ghost d: int = days_of_month_name(month@);
    let mut result: Vec<Vec<String>> = Vec::new();
    let mut row: usize = 0;
    while row < 5
        invariant
            row <= 5,
            days == d,
            0 <= d <= 31,
            result@.len() == row,
            forall|i: int| 0 <= i < row ==> result@[i].deep_view() == day_grid(d)[i],
        decreases 5 - row,
    {
        let mut this_row: Vec<String> = Vec::new();
        let base: u32 = 7 * (row as u32);
        let len: u32 = if days >= base + 7 { 7 } else if days >= base { days - base } else { 0 };
        assert(len == day_row_len(row as int, d));
        let mut k: u32 = 0;
        while k < len
            invariant
                k <= len,
                len == day_row_len(row as int, d),
                base == 7 * row,
                row < 5,
                this_row@.len() == k,
                forall|i: int| 0 <= i < k ==> this_row@[i]@ == dec_digits((7 * row + i + 1) as nat),
            decreases len - k,
        {
            this_row.push(u32_to_string(base + k + 1));
            k += 1;
        }
        proof {
            assert forall|i: int| 0 <= i < len implies this_row.deep_view()[i]
                == day_grid(d)[row as int][i] by {
                assert(this_row.deep_view()[i] == this_row@[i]@);
            }
            assert(this_row.deep_view() =~= day_grid(d)[row as int]);
        }
        result.push(this_row);
        row += 1;
    }
    proof {
        assert forall|i: int| 0 <= i < 5 implies result.deep_view()[i] == day_grid(d)[i] by {
            assert(result.deep_view()[i] == result@[i].deep_view());
        }
        assert(result.deep_view() =~= day_grid(d));
    }
    result
}

} // verus!
