//! What the date-time, decimal and JSON crates compute for the converter.
//!
//! Each function here hands plain values to an outside crate and brings plain
//! values back. Nothing in this file is proved: the contracts say what the
//! outside code is taken to do.

use vstd::prelude::*;
use sqlx::types::chrono::{DateTime, NaiveDate, NaiveTime, Utc};
use sqlx::types::Decimal;

verus! {

/// A parsed JSON document of `serde_json`. Its inside is not visible here: the
/// converter carries it through.
#[verifier::external_type_specification]
#[verifier::external_body]
pub struct ExJsonValue(serde_json::Value);

/// The error with which `serde_json` refuses a text.
#[verifier::external_type_specification]
#[verifier::external_body]
pub struct ExJsonError(serde_json::Error);

/// The pattern by which a date-time without zone is written: date and time
/// with `T` between them, and six digits of fraction.
pub const TIMESTAMP_PATTERN: &'static str = "%Y-%m-%dT%H:%M:%S%.6f";

/// The text of the date-time without zone that lies `secs` seconds and `nanos`
/// nanoseconds after 1970-01-01T00:00:00, as `chrono` writes it by
/// [`TIMESTAMP_PATTERN`]: `YYYY-MM-DDTHH:MM:SS.ffffff` for the years 0 to 9999.
/// `None` where `chrono` has no such date-time.
pub uninterp spec fn timestamp_text(secs: i64, nanos: u32) -> Option<Seq<char>>;

/// The RFC 3339 text, at offset `+00:00`, of the instant that lies `secs`
/// seconds and `nanos` nanoseconds after the Unix epoch, as `chrono` writes it;
/// `None` where `chrono` has no such instant.
pub uninterp spec fn timestamptz_text(secs: i64, nanos: u32) -> Option<Seq<char>>;

/// The text of the date that lies `days` days after 1970-01-01, as `chrono`
/// writes it: `YYYY-MM-DD` for the years 0 to 9999. `None` where `chrono` has
/// no such date.
pub uninterp spec fn date_text(days: i32) -> Option<Seq<char>>;

/// The text `HH:MM:SS`, with a fraction where there is one, of the time of day
/// that lies `secs` seconds and `nanos` nanoseconds after midnight, as `chrono`
/// writes it; `None` where `chrono` has no such time.
pub uninterp spec fn time_text(secs: u32, nanos: u32) -> Option<Seq<char>>;

/// The canonical text of the decimal `mantissa / 10^scale`, with exactly
/// `scale` fractional digits, as `rust_decimal` writes it; `None` where
/// `rust_decimal` has no such decimal.
pub uninterp spec fn numeric_text(mantissa: i128, scale: u32) -> Option<Seq<char>>;

/// The document that `serde_json` reads from a text; `None` where the text is
/// not one JSON document.
pub uninterp spec fn json_document(text: Seq<char>) -> Option<serde_json::Value>;

/// The times of day that `chrono` can hold: less than a day after midnight,
/// with a nanosecond part of a second or more only in the last second of a
/// minute (a leap second).
pub open spec fn time_in_range(secs: u32, nanos: u32) -> bool {
    &&& secs < 86_400
    &&& nanos < 2_000_000_000
    &&& (nanos >= 1_000_000_000 ==> secs % 60 == 59)
}

/// The decimals that `rust_decimal` can hold: at most 28 fractional digits and
/// a mantissa of at most 96 bits.
pub open spec fn numeric_in_range(mantissa: i128, scale: u32) -> bool {
    &&& scale <= 28
    &&& -0xFFFF_FFFF_FFFF_FFFF_FFFF_FFFF <= mantissa <= 0xFFFF_FFFF_FFFF_FFFF_FFFF_FFFF
}

/// The characters of a text that may be absent.
pub open spec fn text_view(text: Option<String>) -> Option<Seq<char>> {
    match text {
        Some(s) => Some(s@),
        None => None,
    }
}

/// The document of a parse's outcome.
pub open spec fn document_view(parsed: Result<serde_json::Value, serde_json::Error>) -> Option<
    serde_json::Value,
> {
    match parsed {
        Ok(document) => Some(document),
        Err(_) => None,
    }
}

/// `chrono::NaiveDateTime::format` by [`TIMESTAMP_PATTERN`], on the date-time
/// that `chrono::DateTime::from_timestamp` makes of the arguments. The result
/// is `timestamp_text` of the arguments: `None` where `from_timestamp` returns
/// `None`.
#[verifier::external_body]
pub(crate) fn render_timestamp(secs: i64, nanos: u32) -> (text: Option<String>)
    ensures
        text_view(text) == timestamp_text(secs, nanos),
{
    match DateTime::<Utc>::from_timestamp(secs, nanos) {
        Some(t) => Some(t.naive_utc().format(TIMESTAMP_PATTERN).to_string()),
        None => None,
    }
}

/// `chrono::DateTime::to_rfc3339`, on the instant that
/// `chrono::DateTime::from_timestamp` makes of the arguments. The result is
/// `timestamptz_text` of the arguments: `None` where `from_timestamp` returns
/// `None`.
#[verifier::external_body]
pub(crate) fn render_timestamptz(secs: i64, nanos: u32) -> (text: Option<String>)
    ensures
        text_view(text) == timestamptz_text(secs, nanos),
{
    match DateTime::<Utc>::from_timestamp(secs, nanos) {
        Some(t) => Some(t.to_rfc3339()),
        None => None,
    }
}

/// The `Display` of `chrono::NaiveDate`, on the date that
/// `NaiveDate::from_epoch_days` makes of the argument. The result is
/// `date_text` of the argument: `None` where the constructor returns `None`.
#[verifier::external_body]
pub(crate) fn render_date(days: i32) -> (text: Option<String>)
    ensures
        text_view(text) == date_text(days),
{
    match NaiveDate::from_epoch_days(days) {
        Some(d) => Some(d.to_string()),
        None => None,
    }
}

/// The `Display` of `chrono::NaiveTime`, on the time that
/// `NaiveTime::from_num_seconds_from_midnight_opt` makes of the arguments. The
/// result is `time_text` of the arguments; the constructor returns a time
/// exactly for the arguments that `time_in_range` admits.
#[verifier::external_body]
pub(crate) fn render_time(secs: u32, nanos: u32) -> (text: Option<String>)
    ensures
        text_view(text) == time_text(secs, nanos),
        text is Some <==> time_in_range(secs, nanos),
{
    match NaiveTime::from_num_seconds_from_midnight_opt(secs, nanos) {
        Some(t) => Some(t.to_string()),
        None => None,
    }
}

/// The `Display` of `rust_decimal::Decimal`, on the decimal that
/// `Decimal::try_from_i128_with_scale` makes of the arguments. The result is
/// `numeric_text` of the arguments; the constructor returns a decimal exactly
/// for the arguments that `numeric_in_range` admits.
#[verifier::external_body]
pub(crate) fn render_numeric(mantissa: i128, scale: u32) -> (text: Option<String>)
    ensures
        text_view(text) == numeric_text(mantissa, scale),
        text is Some <==> numeric_in_range(mantissa, scale),
{
    match Decimal::try_from_i128_with_scale(mantissa, scale) {
        Ok(d) => Some(d.to_string()),
        Err(_) => None,
    }
}

/// `serde_json::from_str` at the type `serde_json::Value`. The result is
/// `json_document` of the text: an error where the text is not one JSON
/// document.
#[verifier::external_body]
pub(crate) fn parse_json(text: &str) -> (parsed: Result<serde_json::Value, serde_json::Error>)
    ensures
        document_view(parsed) == json_document(text@),
{
    serde_json::from_str::<serde_json::Value>(text)
}

} // verus!
