//! The wall clock and the calendar, both taken from `chrono`.

use vstd::prelude::*;

verus! {

/// The current time in seconds since the Unix epoch.
///
/// Trusted: calls `chrono::Utc::now` and reads the seconds of the result with
/// `DateTime::timestamp`. Nothing is claimed of the value: two calls may
/// differ. `Utc::now` gives up only on a system clock set before 1970.
#[verifier::external_body]
pub(crate) fn utc_now() -> (now: i64) {
    chrono::Utc::now().timestamp()
}

/// The seconds since the Unix epoch that `chrono` reads from `text` under the
/// format `format`, the text taken as a UTC date and time; nothing where
/// `chrono` rejects the text.
pub uninterp spec fn utc_seconds(text: Seq<char>, format: Seq<char>) -> Option<i64>;

/// Reads a date and time in UTC.
///
/// Trusted: calls `chrono::NaiveDateTime::parse_from_str`, attaches UTC with
/// `NaiveDateTime::and_utc` and reads the seconds with `DateTime::timestamp`.
/// The parse depends on the text and the format alone, so the contract only
/// gives the result its name.
#[verifier::external_body]
pub(crate) fn parse_utc_seconds(text: &str, format: &str) -> (r: Option<i64>)
    ensures
        r == utc_seconds(text@, format@),
{
    match chrono::NaiveDateTime::parse_from_str(text, format) {
        Ok(naive) => Some(naive.and_utc().timestamp()),
        Err(_) => None,
    }
}

} // verus!
