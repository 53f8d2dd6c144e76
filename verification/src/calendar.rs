//! Calendar texts of instants and dates, as the `chrono` crate writes them.

use crate::text::optional_text;
use vstd::prelude::*;

verus! {

/// The RFC 3339 text of the instant `secs` seconds and `nanos` nanoseconds
/// after the Unix epoch, in UTC; `None` where no such instant can be
/// represented.
pub uninterp spec fn rfc3339_text(secs: i64, nanos: u32) -> Option<Seq<char>>;

/// The `%Y-%m-%d` text of the day that lies `days_from_ce` days after
/// December 31, 1 BCE; `None` where the day is out of range.
pub uninterp spec fn calendar_date_text(days_from_ce: i32) -> Option<Seq<char>>;

/// Builds the instant with `chrono::DateTime::<Utc>::from_timestamp` and
/// writes it with `DateTime::to_rfc3339`. The text depends on the two
/// numbers alone; it is `None` exactly where `from_timestamp` refuses them.
#[verifier::external_body]
pub(crate) fn rfc3339_of(secs: i64, nanos: u32) -> (text: Option<String>)
    ensures
        optional_text(text) == rfc3339_text(secs, nanos),
{
    match chrono::DateTime::<chrono::Utc>::from_timestamp(secs, nanos) {
        Some(instant) => Some(instant.to_rfc3339()),
        None => None,
    }
}

/// Builds the day with `chrono::NaiveDate::from_num_days_from_ce_opt` and
/// writes it through the `Display` of `NaiveDate`. The text depends on the
/// day number alone; it is `None` exactly where the day is out of range.
#[verifier::external_body]
pub(crate) fn calendar_date_of(days_from_ce: i32) -> (text: Option<String>)
    ensures
        optional_text(text) == calendar_date_text(days_from_ce),
{
    match chrono::NaiveDate::from_num_days_from_ce_opt(days_from_ce) {
        Some(day) => Some(day.to_string()),
        None => None,
    }
}

} // verus!
