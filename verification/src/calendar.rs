//! The calendar arithmetic the date picker needs, done by `chrono` on the
//! days that [`CalendarDate`] numbers.
use vstd::prelude::*;

use chrono::Datelike;

use crate::domain::CalendarDate;

verus! {

/// The number of the first day of the month of day `day`, where `chrono`
/// represents that day.
pub uninterp spec fn month_start_day(day: int) -> Option<int>;

/// The number of the day `months` months after day `day`, on the last day
/// of the month where the day of the month does not exist there; none where
/// either day lies outside what `chrono` represents.
pub uninterp spec fn months_added_day(day: int, months: int) -> Option<int>;

/// The same, `months` months before.
pub uninterp spec fn months_subtracted_day(day: int, months: int) -> Option<int>;

/// The number of the day `days` days after day `day`, where `chrono`
/// represents both.
pub uninterp spec fn days_added_day(day: int, days: int) -> Option<int>;

/// Day `day` written as `YYYY-MM-DD`, where `chrono` represents it.
pub uninterp spec fn iso_date_text(day: int) -> Option<Seq<char>>;

/// The day a text written as `YYYY-MM-DD` names, if it names one.
pub uninterp spec fn iso_date_reading(text: Seq<char>) -> Option<int>;

/// `NaiveDate::checked_add_signed` by `TimeDelta::try_days(days)`, on the
/// day numbered `date.day_number`. Claimed: the result is `days_added_day`
/// of the number and the count, and a day it gives is `days` days on.
#[verifier::external_body]
pub(crate) fn date_after_days(date: CalendarDate, days: i64) -> (r: Option<CalendarDate>)
    ensures
        match r {
            Some(d) => days_added_day(date.day_number as int, days as int) == Some(d.day_number as int)
                && d.day_number == date.day_number + days,
            None => days_added_day(date.day_number as int, days as int) is None,
        },
{
    let start = chrono::NaiveDate::from_num_days_from_ce_opt(date.day_number)?;
    let end = start.checked_add_signed(chrono::TimeDelta::try_days(days)?)?;
    Some(CalendarDate { day_number: end.num_days_from_ce() })
}

/// `Datelike::with_day(1)` on the day numbered `date.day_number`. Claimed:
/// the result is `month_start_day` of that number.
#[verifier::external_body]
pub(crate) fn first_day_of_month(date: CalendarDate) -> (r: Option<CalendarDate>)
    ensures
        match r {
            Some(d) => month_start_day(date.day_number as int) == Some(d.day_number as int),
            None => month_start_day(date.day_number as int) is None,
        },
{
    let day = chrono::NaiveDate::from_num_days_from_ce_opt(date.day_number)?;
    day.with_day(1).map(|first| CalendarDate { day_number: first.num_days_from_ce() })
}

/// `NaiveDate::checked_add_months` by `Months::new(months)`, on the day
/// numbered `date.day_number`. Claimed: the result is `months_added_day` of
/// the number and the count.
#[verifier::external_body]
pub(crate) fn date_plus_months(date: CalendarDate, months: u32) -> (r: Option<CalendarDate>)
    ensures
        match r {
            Some(d) => months_added_day(date.day_number as int, months as int) == Some(d.day_number as int),
            None => months_added_day(date.day_number as int, months as int) is None,
        },
{
    let day = chrono::NaiveDate::from_num_days_from_ce_opt(date.day_number)?;
    day.checked_add_months(chrono::Months::new(months)).map(|d| CalendarDate { day_number: d.num_days_from_ce() })
}

/// `NaiveDate::checked_sub_months` by `Months::new(months)`, on the day
/// numbered `date.day_number`. Claimed: the result is
/// `months_subtracted_day` of the number and the count.
#[verifier::external_body]
pub(crate) fn date_minus_months(date: CalendarDate, months: u32) -> (r: Option<CalendarDate>)
    ensures
        match r {
            Some(d) => months_subtracted_day(date.day_number as int, months as int) == Some(d.day_number as int),
            None => months_subtracted_day(date.day_number as int, months as int) is None,
        },
{
    let day = chrono::NaiveDate::from_num_days_from_ce_opt(date.day_number)?;
    day.checked_sub_months(chrono::Months::new(months)).map(|d| CalendarDate { day_number: d.num_days_from_ce() })
}

/// `NaiveDate::format("%Y-%m-%d")` on the day numbered `date.day_number`.
/// Claimed: the text is `iso_date_text` of that number.
#[verifier::external_body]
pub(crate) fn date_text(date: CalendarDate) -> (r: Option<String>)
    ensures
        match r {
            Some(t) => iso_date_text(date.day_number as int) == Some(t@),
            None => iso_date_text(date.day_number as int) is None,
        },
{
    chrono::NaiveDate::from_num_days_from_ce_opt(date.day_number).map(|day| day.format("%Y-%m-%d").to_string())
}

/// `NaiveDate::parse_from_str(text, "%Y-%m-%d")`, read as a day number.
/// Claimed: the result is `iso_date_reading` of the text.
#[verifier::external_body]
pub(crate) fn parse_iso_date(text: &str) -> (r: Option<CalendarDate>)
    ensures
        match r {
            Some(d) => iso_date_reading(text@) == Some(d.day_number as int),
            None => iso_date_reading(text@) is None,
        },
{
    chrono::NaiveDate::parse_from_str(text, "%Y-%m-%d").ok().map(|day| CalendarDate { day_number: day.num_days_from_ce() })
}

} // verus!
