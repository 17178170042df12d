//! Step timestamps and the duration between two of them.

use vstd::prelude::*;
use chrono::NaiveDateTime;
use crate::text::optional_text;

verus! {

/// A date and time of day without a time zone, as `chrono` holds it.
#[verifier::external_type_specification]
#[verifier::external_body]
pub struct ExNaiveDateTime(NaiveDateTime);

/// The form of a step timestamp: `YYYY-MM-DD HH:MM:SS[.fraction]`.
pub const TIMESTAMP_FORMAT: &'static str = "%Y-%m-%d %H:%M:%S%.f";

/// The instant that a text denotes when it is read by a format, or nothing
/// where the text is not of that form.
pub uninterp spec fn timestamp_of(text: Seq<char>, format: Seq<char>) -> Option<NaiveDateTime>;

/// The whole milliseconds from one instant to another; what is left of a
/// millisecond is cut off.
pub uninterp spec fn millis_between(start: NaiveDateTime, end: NaiveDateTime) -> i64;

/// Calls `NaiveDateTime::parse_from_str`, which reads a text by a format
/// and fails where the text is not of that form.
#[verifier::external_body]
pub(crate) fn parse_timestamp(text: &str, format: &str) -> (r: Option<NaiveDateTime>)
    ensures
        r == timestamp_of(text@, format@),
{
    NaiveDateTime::parse_from_str(text, format).ok()
}

/// Calls `NaiveDateTime::signed_duration_since` and reads the difference
/// with `TimeDelta::num_milliseconds`.
#[verifier::external_body]
pub(crate) fn elapsed_millis(start: &NaiveDateTime, end: &NaiveDateTime) -> (r: i64)
    ensures
        r == millis_between(*start, *end),
{
    end.signed_duration_since(*start).num_milliseconds()
}

/// A span of milliseconds in whole seconds, rounded to the nearest second;
/// a half rounds away from zero.
pub open spec fn round_to_seconds(millis: int) -> int {
    if millis >= 0 {
        (millis + 500) / 1000
    } else {
        -((500 - millis) / 1000)
    }
}

/// The instant of an optional timestamp text.
pub open spec fn instant_of(text: Option<Seq<char>>) -> Option<NaiveDateTime> {
    match text {
        Some(t) => timestamp_of(t, TIMESTAMP_FORMAT@),
        None => None,
    }
}

/// The duration of a step whose boundary instants are `start` and `end`,
/// in seconds: absent where either instant is absent.
pub open spec fn duration_between(start: Option<NaiveDateTime>, end: Option<NaiveDateTime>) -> Option<
    i64,
> {
    match (start, end) {
        (Some(s), Some(e)) => Some(round_to_seconds(millis_between(s, e) as int) as i64),
        _ => None,
    }
}

/// A span of milliseconds in whole seconds, rounded to the nearest second.
/// A negative or zero span is reported as it is.
pub fn round_seconds(millis: i64) -> (r: i64)
    ensures
        r == round_to_seconds(millis as int),
{
    let span: i128 = millis as i128;
    let seconds: i128 = if span >= 0 {
        (span + 500) / 1000
    } else {
        -((500 - span) / 1000)
    };
    seconds as i64
}

/// The duration between two optional timestamp texts, in seconds: absent
/// where either is absent or is no timestamp.
pub fn duration_of(started: &Option<String>, finished: &Option<String>) -> (r: Option<i64>)
    ensures
        r == duration_between(
            instant_of(optional_text(*started)),
            instant_of(optional_text(*finished)),
        ),
{
    let start = match started {
        Some(text) => parse_timestamp(text.as_str(), TIMESTAMP_FORMAT),
        None => None,
    };
    let end = match finished {
        Some(text) => parse_timestamp(text.as_str(), TIMESTAMP_FORMAT),
        None => None,
    };
    match (start, end) {
        (Some(s), Some(e)) => Some(round_seconds(elapsed_millis(&s, &e))),
        _ => None,
    }
}

} // verus!
