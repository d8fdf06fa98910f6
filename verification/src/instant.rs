use vstd::prelude::*;

use time::format_description::well_known::Rfc3339;
use time::OffsetDateTime;

verus! {

/// Nanoseconds per second.
pub const NANOS_PER_SECOND: i128 = 1_000_000_000;

/// The latest instant the date-time type represents, 9999-12-31T23:59:59.999999999Z,
/// in nanoseconds since the Unix epoch.
pub open spec fn max_instant() -> int {
    253_402_300_799_999_999_999
}

/// The earliest instant the date-time type represents, -9999-01-01T00:00:00Z.
pub open spec fn min_instant() -> int {
    -377_705_203_200_000_000_000
}

/// An instant the date-time type represents.
pub open spec fn valid_instant(nanos: int) -> bool {
    min_instant() <= nanos <= max_instant()
}

/// Instants from 0000-01-01T00:00:00Z on have an RFC 3339 rendering (a four-digit year).
pub open spec fn rfc3339_renderable(nanos: int) -> bool {
    -62_167_219_200_000_000_000 <= nanos <= max_instant()
}

/// The RFC 3339 text of a UTC instant, as `OffsetDateTime::format` writes it.
pub uninterp spec fn rfc3339_text(nanos: int) -> Seq<char>;

/// What `OffsetDateTime::parse` with RFC 3339 reads from a text: the instant in
/// nanoseconds since the Unix epoch and the UTC offset in seconds.
pub uninterp spec fn rfc3339_parse(text: Seq<char>) -> Option<(i128, i32)>;

/// Renders a UTC instant as RFC 3339 text: `OffsetDateTime::from_unix_timestamp_nanos`
/// then `OffsetDateTime::format`. Its contract claims what the source shows: the
/// rendering exists exactly for the years 0 to 9999, its text is named
/// `rfc3339_text`, it is at least 20 characters long (`YYYY-MM-DDTHH:MM:SS`
/// then `Z`), and parsing that text gives back the same instant with offset 0
/// (a UTC date-time is written with `Z`).
#[verifier::external_body]
pub(crate) fn format_rfc3339(nanos: i128) -> (r: Option<String>)
    ensures
        r is Some <==> rfc3339_renderable(nanos as int),
        r matches Some(text) ==> text@ == rfc3339_text(nanos as int) && rfc3339_parse(text@) == Some((nanos, 0i32)),
        r matches Some(text) ==> text@.len() >= 20,
{
    OffsetDateTime::from_unix_timestamp_nanos(nanos).ok().and_then(|value| value.format(&Rfc3339).ok())
}

/// Parses RFC 3339 text with `OffsetDateTime::parse`; the result, as the UTC
/// instant in nanoseconds and the offset in seconds, is named `rfc3339_parse`.
/// The parser keeps the local date-time within the type's range; so a date-time
/// parsed with offset 0 is an instant the type represents. Of other offsets
/// nothing is claimed: the UTC instant may lie a day beyond that range.
#[verifier::external_body]
pub(crate) fn parse_rfc3339(text: &str) -> (r: Option<(i128, i32)>)
    ensures
        r == rfc3339_parse(text@),
        r matches Some((nanos, offset)) ==> (offset == 0 ==> valid_instant(nanos as int)),
{
    OffsetDateTime::parse(text, &Rfc3339).ok().map(|value| (value.unix_timestamp_nanos(), value.offset().whole_seconds()))
}

/// Reads the system clock with `OffsetDateTime::now_utc`, as nanoseconds since
/// the Unix epoch. The time is whatever the clock says; the contract claims only
/// that the date-time type represents it.
#[verifier::external_body]
pub(crate) fn current_instant() -> (r: i128)
    ensures
        valid_instant(r as int),
{
    OffsetDateTime::now_utc().unix_timestamp_nanos()
}

/// A UTC instant parsed from its text: `None` for text that is not RFC 3339 or not in UTC.
pub open spec fn utc_instant(text: Seq<char>) -> Option<int> {
    match rfc3339_parse(text) {
        Some((nanos, offset)) => if offset == 0 {
            Some(nanos as int)
        } else {
            None
        },
        None => None,
    }
}

/// Parses an RFC 3339 text that is in UTC.
pub fn parse_utc(text: &str) -> (r: Option<i128>)
    ensures
        match utc_instant(text@) {
            Some(n) => r == Some(n as i128) && valid_instant(n),
            None => r is None,
        },
{
    match parse_rfc3339(text) {
        Some((nanos, offset)) => if offset == 0 {
            Some(nanos)
        } else {
            None
        },
        None => None,
    }
}

} // verus!
