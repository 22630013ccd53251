//! Calendar dates.
use vstd::prelude::*;

verus! {

/// Whether a text is a calendar date in the form `year-month-day`, as
/// `time::Date::parse` tells.
pub uninterp spec fn is_calendar_date(value: Seq<char>) -> bool;

/// Parses `value` with `time::Date::parse` under the format description
/// `[year]-[month]-[day]` and tells whether that gave a date. Which texts the
/// `time` crate takes for a date is left to it: the result is named.
#[verifier::external_body]
pub(crate) fn parses_as_date(value: &str) -> (valid: bool)
    ensures
        valid == is_calendar_date(value@),
{
    match time::format_description::parse_borrowed::<1>("[year]-[month]-[day]") {
        Ok(format) => time::Date::parse(value, &format).is_ok(),
        Err(_) => false,
    }
}

} // verus!
