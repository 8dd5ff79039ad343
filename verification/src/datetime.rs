//! Reading of points in time from text, in the several notations that
//! clients send.

use vstd::prelude::*;
use crate::models::Timestamp;
use crate::text::{append_str, string_of};

verus! {

/// The point in time that `text` denotes under the format `format` when
/// that format holds an offset from UTC: seconds since the Unix epoch and
/// nanoseconds past them. Stands for what `chrono::DateTime::parse_from_str`
/// computes.
pub uninterp spec fn offset_datetime(text: Seq<char>, format: Seq<char>) -> Option<(i64, u32)>;

/// The point in time that `text` denotes as an RFC 3339 date and time.
/// Stands for what `chrono::DateTime::parse_from_rfc3339` computes.
pub uninterp spec fn rfc3339_datetime(text: Seq<char>) -> Option<(i64, u32)>;

/// The point in time that `text` denotes under the format `format` when
/// read as a date and time in UTC. Stands for what
/// `chrono::NaiveDateTime::parse_from_str` computes.
pub uninterp spec fn naive_datetime(text: Seq<char>, format: Seq<char>) -> Option<(i64, u32)>;

/// The point in time that `text` denotes to `FromStr` of
/// `chrono::DateTime<Utc>`: a relaxed form of RFC 3339.
pub uninterp spec fn utc_datetime(text: Seq<char>) -> Option<(i64, u32)>;

/// A pair of seconds and nanoseconds as a timestamp.
pub open spec fn instant(pair: Option<(i64, u32)>) -> Option<Timestamp> {
    match pair {
        Some((seconds, nanos)) => Some(Timestamp { seconds, nanos }),
        None => None,
    }
}

/// Calls `chrono::DateTime::parse_from_str` and takes seconds and
/// nanoseconds of what it gives. The contract names the outcome.
#[verifier::external_body]
fn parse_with_offset(text: &str, format: &str) -> (r: Option<Timestamp>)
    ensures
        r == instant(offset_datetime(text@, format@)),
{
    match chrono::DateTime::parse_from_str(text, format) {
        Ok(at) => Some(Timestamp { seconds: at.timestamp(), nanos: at.timestamp_subsec_nanos() }),
        Err(_) => None,
    }
}

/// Calls `chrono::DateTime::parse_from_rfc3339` and takes seconds and
/// nanoseconds of what it gives. The contract names the outcome.
#[verifier::external_body]
fn parse_rfc3339(text: &str) -> (r: Option<Timestamp>)
    ensures
        r == instant(rfc3339_datetime(text@)),
{
    match chrono::DateTime::parse_from_rfc3339(text) {
        Ok(at) => Some(Timestamp { seconds: at.timestamp(), nanos: at.timestamp_subsec_nanos() }),
        Err(_) => None,
    }
}

/// Calls `chrono::NaiveDateTime::parse_from_str`, reads what it gives as
/// UTC and takes seconds and nanoseconds. The contract names the outcome.
#[verifier::external_body]
fn parse_naive(text: &str, format: &str) -> (r: Option<Timestamp>)
    ensures
        r == instant(naive_datetime(text@, format@)),
{
    match chrono::NaiveDateTime::parse_from_str(text, format) {
        Ok(naive) => Some(
            Timestamp {
                seconds: naive.and_utc().timestamp(),
                nanos: naive.and_utc().timestamp_subsec_nanos(),
            },
        ),
        Err(_) => None,
    }
}

/// Calls `FromStr` of `chrono::DateTime<Utc>` and takes seconds and
/// nanoseconds of what it gives. The contract names the outcome.
#[verifier::external_body]
pub(crate) fn parse_utc(text: &str) -> (r: Option<Timestamp>)
    ensures
        r == instant(utc_datetime(text@)),
{
    match text.parse::<chrono::DateTime<chrono::Utc>>() {
        Ok(at) => Some(Timestamp { seconds: at.timestamp(), nanos: at.timestamp_subsec_nanos() }),
        Err(_) => None,
    }
}

/// The format with milliseconds: `2025-09-30T07:58:00.000`.
pub open spec fn millis_format() -> Seq<char> {
    "%Y-%m-%dT%H:%M:%S%.3f"@
}

/// The format without milliseconds: `2025-09-30T07:58:00`.
pub open spec fn seconds_format() -> Seq<char> {
    "%Y-%m-%dT%H:%M:%S"@
}

/// The first reading that succeeds, in the order given.
pub open spec fn first_reading(
    with_millis: Option<Timestamp>,
    rfc3339: Option<Timestamp>,
    with_seconds: Option<Timestamp>,
    naive_millis: Option<Timestamp>,
    naive_seconds: Option<Timestamp>,
) -> Option<Timestamp> {
    if with_millis is Some {
        with_millis
    } else if rfc3339 is Some {
        rfc3339
    } else if with_seconds is Some {
        with_seconds
    } else if naive_millis is Some {
        naive_millis
    } else {
        naive_seconds
    }
}

/// The point in time that `text` denotes in any of the accepted
/// notations, tried in this order: with milliseconds and an offset, RFC
/// 3339, with seconds and an offset, with milliseconds in UTC, with seconds
/// in UTC.
pub open spec fn flexible_datetime(text: Seq<char>) -> Option<Timestamp> {
    first_reading(
        instant(offset_datetime(text, millis_format())),
        instant(rfc3339_datetime(text)),
        instant(offset_datetime(text, seconds_format())),
        instant(naive_datetime(text, millis_format())),
        instant(naive_datetime(text, seconds_format())),
    )
}

/// Picks the first reading that succeeded.
pub fn first_success(
    with_millis: Option<Timestamp>,
    rfc3339: Option<Timestamp>,
    with_seconds: Option<Timestamp>,
    naive_millis: Option<Timestamp>,
    naive_seconds: Option<Timestamp>,
) -> (r: Option<Timestamp>)
    ensures
        r == first_reading(with_millis, rfc3339, with_seconds, naive_millis, naive_seconds),
{
    if with_millis.is_some() {
        with_millis
    } else if rfc3339.is_some() {
        rfc3339
    } else if with_seconds.is_some() {
        with_seconds
    } else if naive_millis.is_some() {
        naive_millis
    } else {
        naive_seconds
    }
}

/// Reads a point in time in any of the accepted notations; `None` where
/// none of them fits.
pub fn read_flexible_datetime(text: &str) -> (r: Option<Timestamp>)
    ensures
        r == flexible_datetime(text@),
{
    let with_millis = parse_with_offset(text, "%Y-%m-%dT%H:%M:%S%.3f");
    if with_millis.is_some() {
        return with_millis;
    }
    let rfc3339 = parse_rfc3339(text);
    if rfc3339.is_some() {
        return rfc3339;
    }
    let with_seconds = parse_with_offset(text, "%Y-%m-%dT%H:%M:%S");
    if with_seconds.is_some() {
        return with_seconds;
    }
    let naive_millis = parse_naive(text, "%Y-%m-%dT%H:%M:%S%.3f");
    if naive_millis.is_some() {
        return naive_millis;
    }
    parse_naive(text, "%Y-%m-%dT%H:%M:%S")
}

/// The message for a required point in time that cannot be read.
pub open spec fn unreadable_message(text: Seq<char>) -> Seq<char> {
    "Failed to parse datetime: "@ + text
        + ". Expected format: '2025-09-30T07:58:00.000' or '2025-09-30T07:58:00.000Z'"@
}

/// The message for an optional point in time that cannot be read.
pub open spec fn unreadable_optional_message(text: Seq<char>) -> Seq<char> {
    "Failed to parse datetime: "@ + text
}

/// Reads a required point in time; the error is the message that names
/// the text and the notations expected.
pub fn parse_flexible_datetime(text: &str) -> (r: Result<Timestamp, String>)
    ensures
        match flexible_datetime(text@) {
            Some(at) => r == Ok::<Timestamp, String>(at),
            None => r matches Err(m) && m@ == unreadable_message(text@),
        },
{
    match read_flexible_datetime(text) {
        Some(at) => Ok(at),
        None => {
            let mut out: Vec<char> = Vec::new();
            append_str(&mut out, "Failed to parse datetime: ");
            append_str(&mut out, text);
            append_str(
                &mut out,
                ". Expected format: '2025-09-30T07:58:00.000' or '2025-09-30T07:58:00.000Z'",
            );
            Err(string_of(out.as_slice()))
        },
    }
}

/// Reads an optional point in time: nothing gives nothing; a text must be
/// readable, else the error is the message that names it.
pub fn parse_optional_flexible_datetime(text: Option<&str>) -> (r: Result<
    Option<Timestamp>,
    String,
>)
    ensures
        match text {
            None => r == Ok::<Option<Timestamp>, String>(None),
            Some(t) => match flexible_datetime(t@) {
                Some(at) => r == Ok::<Option<Timestamp>, String>(Some(at)),
                None => r matches Err(m) && m@ == unreadable_optional_message(t@),
            },
        },
{
    match text {
        None => Ok(None),
        Some(t) => match read_flexible_datetime(t) {
            Some(at) => Ok(Some(at)),
            None => {
                let mut out: Vec<char> = Vec::new();
                append_str(&mut out, "Failed to parse datetime: ");
                append_str(&mut out, t);
                Err(string_of(out.as_slice()))
            },
        },
    }
}

} // verus!
