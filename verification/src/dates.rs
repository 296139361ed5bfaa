//! Calendar dates of epoch seconds, as the `chrono` crate formats and
//! parses them.

use vstd::prelude::*;

use crate::json::{get, get_at, lenient_i64, lenient_i64_of, opt_string_view, path_view, Json, JsonV};

verus! {

/// Names the UTC date-time of an epoch second formatted with the pattern
/// `fmt`; `None` when the second is out of the calendar's range.
pub uninterp spec fn utc_formatted(secs: i64, fmt: Seq<char>) -> Option<Seq<char>>;

/// Wraps `chrono::DateTime::<Utc>::from_timestamp(secs, 0)` and the
/// formatting of its UTC date-time with `fmt`: `None` when the second is out
/// of range, else the formatted text, both named by [`utc_formatted`]. Only
/// the two patterns the library uses (`%Y-%m-%d` and `%Y-%m-%d %H:%M:%S`),
/// which always format, are admitted.
#[verifier::external_body]
pub(crate) fn format_utc(secs: i64, fmt: &str) -> (r: Option<String>)
    requires
        fmt@ == "%Y-%m-%d"@ || fmt@ == "%Y-%m-%d %H:%M:%S"@,
    ensures
        opt_string_view(r) == utc_formatted(secs, fmt@),
{
    chrono::DateTime::from_timestamp(secs, 0).map(|d| d.naive_utc().format(fmt).to_string())
}

/// Names whether an epoch second has a UTC date-time, that is whether it
/// lies in the calendar's range.
pub uninterp spec fn utc_second_in_range(secs: i64) -> bool;

/// Wraps `chrono::DateTime::<Utc>::from_timestamp(secs, 0).is_some()`:
/// whether the second has a UTC date-time, as named by
/// [`utc_second_in_range`].
#[verifier::external_body]
pub(crate) fn utc_second_valid(secs: i64) -> (r: bool)
    ensures
        r == utc_second_in_range(secs),
{
    chrono::DateTime::from_timestamp(secs, 0).is_some()
}

/// Names the epoch second of midnight UTC of a date written with the
/// pattern `fmt`; `None` when the text is not such a date.
pub uninterp spec fn date_midnight(s: Seq<char>, fmt: Seq<char>) -> Option<i64>;

/// Wraps `chrono::NaiveDate::parse_from_str(s, fmt)`, the date's midnight
/// (`and_hms_opt(0, 0, 0)`) and that date-time's epoch second as UTC: the
/// second, or `None` when the text does not parse, as named by
/// [`date_midnight`].
#[verifier::external_body]
fn parse_date_midnight(s: &str, fmt: &str) -> (r: Option<i64>)
    ensures
        r == date_midnight(s@, fmt@),
{
    chrono::NaiveDate::parse_from_str(s, fmt)
        .ok()
        .and_then(|d| d.and_hms_opt(0, 0, 0))
        .map(|n| n.and_utc().timestamp())
}

/// The epoch second of midnight UTC of a `%Y-%m-%d` date.
pub open spec fn ymd_midnight(s: Seq<char>) -> Option<i64> {
    date_midnight(s, "%Y-%m-%d"@)
}

/// The epoch second of midnight UTC of a `%Y-%m-%d` date; `None` when the
/// text is not such a date.
pub fn ymd_date_secs(s: &str) -> (r: Option<i64>)
    ensures
        r == ymd_midnight(s@),
{
    parse_date_midnight(s, "%Y-%m-%d")
}

/// Names the instant of an RFC 3339 timestamp, as UTC epoch seconds and
/// nanoseconds; `None` when the text is not such a timestamp.
pub uninterp spec fn rfc3339_instant(s: Seq<char>) -> Option<(i64, u32)>;

/// Wraps `chrono::DateTime::parse_from_rfc3339(s)` and the parsed instant's
/// UTC `timestamp()` and `timestamp_subsec_nanos()`, as named by
/// [`rfc3339_instant`].
#[verifier::external_body]
fn parse_rfc3339(s: &str) -> (r: Option<(i64, u32)>)
    ensures
        r == rfc3339_instant(s@),
{
    chrono::DateTime::parse_from_rfc3339(s)
        .ok()
        .map(|d| (d.timestamp(), d.timestamp_subsec_nanos()))
}

/// Names the instant of a date-time without offset written with the
/// pattern `fmt`, taken as UTC, as epoch seconds and nanoseconds; `None`
/// when the text does not parse.
pub uninterp spec fn naive_instant(s: Seq<char>, fmt: Seq<char>) -> Option<(i64, u32)>;

/// Wraps `chrono::NaiveDateTime::parse_from_str(s, fmt)` and the parsed
/// date-time's `and_utc()` `timestamp()` and `timestamp_subsec_nanos()`, as
/// named by [`naive_instant`].
#[verifier::external_body]
fn parse_naive_utc(s: &str, fmt: &str) -> (r: Option<(i64, u32)>)
    ensures
        r == naive_instant(s@, fmt@),
{
    chrono::NaiveDateTime::parse_from_str(s, fmt)
        .ok()
        .map(|n| (n.and_utc().timestamp(), n.and_utc().timestamp_subsec_nanos()))
}

/// The instant of a timestamp: RFC 3339, else `%Y-%m-%dT%H:%M:%S%.f` taken
/// as UTC.
pub open spec fn instant_of(s: Seq<char>) -> Option<(i64, u32)> {
    match rfc3339_instant(s) {
        Some(t) => Some(t),
        None => naive_instant(s, "%Y-%m-%dT%H:%M:%S%.f"@),
    }
}

/// The instant of a timestamp, as UTC epoch seconds and nanoseconds: an
/// RFC 3339 timestamp, else a `%Y-%m-%dT%H:%M:%S%.f` date-time taken as UTC;
/// `None` when it is neither.
pub fn parse_datetime(s: &str) -> (r: Option<(i64, u32)>)
    ensures
        r == instant_of(s@),
{
    match parse_rfc3339(s) {
        Some(t) => Some(t),
        None => parse_naive_utc(s, "%Y-%m-%dT%H:%M:%S%.f"),
    }
}

/// The date at `path` (after `raw` unwrapping), as epoch seconds: a number
/// is the seconds themselves (truncated, saturating), a string a
/// `%Y-%m-%d` date at midnight UTC.
pub open spec fn date_at(v: JsonV, path: Seq<Seq<char>>) -> Option<i64> {
    match get_at(v, path) {
        Some(JsonV::Number(n)) => lenient_i64(JsonV::Number(n)),
        Some(JsonV::Str(s)) => ymd_midnight(s),
        _ => None,
    }
}

/// The date at `path`, as epoch seconds: an epoch number, or a `%Y-%m-%d`
/// string taken at midnight UTC.
pub fn get_date(v: &Json, path: &[&str]) -> (r: Option<i64>)
    ensures
        r == date_at(v@, path_view(path@)),
{
    match get(v, path) {
        Some(n) => match n {
            Json::Number(_) => lenient_i64_of(n),
            Json::Str(s) => ymd_date_secs(s.as_str()),
            _ => None,
        },
        None => None,
    }
}

} // verus!
