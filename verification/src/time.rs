//! Trusted bridge to the calendar arithmetic of the `chrono` crate. Each
//! function's result depends on its text argument alone, so it is given a
//! name that the engine's contracts speak of exactly.

use vstd::prelude::*;

verus! {

/// The epoch seconds of an RFC 3339 timestamp text, if it parses as one.
pub uninterp spec fn rfc3339_epoch_of(s: Seq<char>) -> Option<i64>;

/// Relies on `chrono::DateTime::parse_from_rfc3339` and
/// `chrono::DateTime::timestamp`: whether the text parses and the instant it
/// denotes depend on the text alone.
#[verifier::external_body]
pub fn parse_iso_to_timestamp(s: &str) -> (r: Option<i64>)
    ensures
        r == rfc3339_epoch_of(s@),
{
    chrono::DateTime::parse_from_rfc3339(s).ok().map(|dt| dt.timestamp())
}

/// The epoch seconds of a clippings-file datetime text such as
/// `January 1, 2024 12:00:00`, read as UTC, if it parses as one.
pub uninterp spec fn clipping_epoch_of(s: Seq<char>) -> Option<i64>;

/// Relies on `chrono::NaiveDateTime::parse_from_str` with the fixed format
/// `%B %e, %Y %H:%M:%S`, and on `NaiveDateTime::and_utc`: the outcome
/// depends on the text alone.
#[verifier::external_body]
pub fn parse_clipping_datetime(s: &str) -> (r: Option<i64>)
    ensures
        r == clipping_epoch_of(s@),
{
    chrono::NaiveDateTime::parse_from_str(s, "%B %e, %Y %H:%M:%S")
        .ok()
        .map(|dt| dt.and_utc().timestamp())
}

/// The UTC text `%Y-%m-%dT%H:%M:%SZ` of an epoch second; empty for seconds
/// outside the representable calendar range.
pub uninterp spec fn iso_of_epoch(ts: i64) -> Seq<char>;

/// Relies on `chrono::DateTime::from_timestamp` and chrono's formatting with
/// the fixed format above: the text depends on the second alone.
#[verifier::external_body]
pub fn format_timestamp_iso(ts: i64) -> (r: String)
    ensures
        r@ == iso_of_epoch(ts),
{
    match chrono::DateTime::from_timestamp(ts, 0) {
        Some(dt) => dt.format("%Y-%m-%dT%H:%M:%SZ").to_string(),
        None => String::new(),
    }
}

} // verus!
