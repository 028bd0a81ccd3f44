//! Points in civil time, and the calls into the calendar library that make
//! them.

use chrono::{Datelike, Timelike};
use vstd::prelude::*;

verus! {

#[verifier::external_type_specification]
#[verifier::external_body]
pub struct ExParseError(chrono::ParseError);

/// A date and a time of day, without a time zone.
///
/// A leap second is held as second 59 with a `nanosecond` of one thousand
/// million or more.
#[derive(Debug, Clone, Copy, PartialEq, Eq, Structural)]
pub struct DateTime {
    pub year: i32,
    pub month: u32,
    pub day: u32,
    pub hour: u32,
    pub minute: u32,
    pub second: u32,
    pub nanosecond: u32,
}

impl DateTime {
    /// Whether every field lies in the range of its unit.
    pub open spec fn is_valid(self) -> bool {
        &&& 1 <= self.month <= 12
        &&& 1 <= self.day <= 31
        &&& self.hour <= 23
        &&& self.minute <= 59
        &&& self.second <= 59
        &&& self.nanosecond <= 1_999_999_999
    }
}

/// What `chrono::NaiveDateTime::parse_from_str` reads from `text` under the
/// pattern `format`; `None` where it reports an error.
pub uninterp spec fn parsed_date_time(text: Seq<char>, format: Seq<char>) -> Option<DateTime>;

/// Calls `chrono::NaiveDateTime::parse_from_str`. Trusted: the outcome is a
/// function of the text and the pattern, and the fields of a point in time
/// that was read lie in the ranges that the calendar library documents.
#[verifier::external_body]
pub(crate) fn parse_from_str(text: &str, format: &str) -> (parsed: Result<
    DateTime,
    chrono::ParseError,
>)
    ensures
        match parsed {
            Ok(t) => parsed_date_time(text@, format@) == Some(t) && t.is_valid(),
            Err(_) => parsed_date_time(text@, format@) is None,
        },
{
    chrono::NaiveDateTime::parse_from_str(text, format).map(
        |t|
            DateTime {
                year: t.year(),
                month: t.month(),
                day: t.day(),
                hour: t.hour(),
                minute: t.minute(),
                second: t.second(),
                nanosecond: t.nanosecond(),
            },
    )
}

/// Calls `chrono::Local::now` and takes the local date and time of day from
/// it. Trusted: the fields lie in the ranges that the calendar library
/// documents; which point in time comes back depends on the clock.
#[verifier::external_body]
pub(crate) fn local_now() -> (now: DateTime)
    ensures
        now.is_valid(),
{
    let t = chrono::Local::now().naive_local();
    DateTime {
        year: t.year(),
        month: t.month(),
        day: t.day(),
        hour: t.hour(),
        minute: t.minute(),
        second: t.second(),
        nanosecond: t.nanosecond(),
    }
}

} // verus!
