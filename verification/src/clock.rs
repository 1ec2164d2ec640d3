//! The calendar and wall-clock facts that only chrono can supply: the time
//! now, local-timezone formatting of an instant, and parsing of the match
//! provider's datetime strings. Everything here hands plain values (epoch
//! seconds and strings) to the verified code.

use vstd::prelude::*;

verus! {

/// The instant that the match provider's datetime text denotes, in non-leap
/// seconds since the Unix epoch, or `None` where the text does not parse as an
/// RFC 3339 datetime once a UTC suffix is added.
pub uninterp spec fn utc_epoch_of(s: Seq<char>) -> Option<i64>;

/// Relies on chrono's `Utc::now` and `DateTime::timestamp`: the seconds since
/// the Unix epoch. chrono documents that its datetimes are limited to about
/// +/- 262,000 years from the common era, so the magnitude stays far below
/// 10^13.
#[verifier::external_body]
pub(crate) fn now_epoch_seconds() -> (r: i64)
    ensures
        -10_000_000_000_000 < r < 10_000_000_000_000,
{
    chrono::Utc::now().timestamp()
}

/// Relies on chrono's `DateTime::from_timestamp` and `DateTime::format`: the
/// weekday, month name, day and year of the instant, in the machine's local
/// timezone. The result depends on that timezone, so nothing is stated beyond
/// what the caller can see for itself.
#[verifier::external_body]
pub(crate) fn format_local_date(epoch_seconds: i64) -> String {
    match chrono::DateTime::from_timestamp(epoch_seconds, 0) {
        Some(dt) => dt.with_timezone(&chrono::Local).format("%A %B %d, %Y").to_string(),
        None => String::new(),
    }
}

/// Relies on chrono's `DateTime::from_timestamp` and `DateTime::time`: the
/// clock time of the instant in the machine's local timezone, as text. The
/// result depends on that timezone, so nothing is stated.
#[verifier::external_body]
pub(crate) fn format_local_time(epoch_seconds: i64) -> String {
    match chrono::DateTime::from_timestamp(epoch_seconds, 0) {
        Some(dt) => dt.with_timezone(&chrono::Local).time().to_string(),
        None => String::new(),
    }
}

/// Relies on chrono's `FromStr for DateTime<Utc>` (a relaxed RFC 3339 parse)
/// and `DateTime::timestamp`. The provider sends datetimes without a timezone
/// suffix, so a literal `Z` is appended first, as the result's name records.
/// The parse depends on the characters alone, and chrono's documented
/// +/- 262,000 year range keeps any parsed value far below 10^13 seconds.
#[verifier::external_body]
pub(crate) fn parse_utc_epoch(raw: &str) -> (r: Option<i64>)
    ensures
        r == utc_epoch_of(raw@),
        r matches Some(v) ==> -10_000_000_000_000 < v < 10_000_000_000_000,
{
    let mut text = String::from(raw);
    text.push('Z');
    text.parse::<chrono::DateTime<chrono::Utc>>().ok().map(|dt| dt.timestamp())
}

} // verus!
