//! The text of the messages that carry data points to the broker.
//!
//! A message holds the time of publishing, the name of the data point and its
//! value: `201,S,<time>,SF,<name>,<value>,`.

use crate::generator::Reading;
use crate::text::{decimal_text, push_decimal};
use chrono::DateTime;
use vstd::prelude::*;
use vstd::string::*;

verus! {

/// A moment: `nanos` nanoseconds after second number `secs` since the start
/// of 1970 in universal time.
#[derive(Clone, Copy, Debug, PartialEq, Eq, Structural)]
pub struct Timestamp {
    pub secs: i64,
    pub nanos: u32,
}

/// The text that stands for the moment `time`: date, time of day and offset
/// as RFC 3339 writes them, in universal time. `None` for a moment that no
/// date stands for.
pub uninterp spec fn timestamp_text(time: Timestamp) -> Option<Seq<char>>;

/// The moment that `text` stands for where it writes date, time of day and
/// offset as RFC 3339 asks. `None` for any other text.
pub uninterp spec fn rfc3339_time(text: Seq<char>) -> Option<Timestamp>;

/// The view of a text that may be missing.
pub open spec fn text_view(text: Option<String>) -> Option<Seq<char>> {
    match text {
        Some(text) => Some(text@),
        None => None,
    }
}

/// The text of the message that says that the data point called `name` had
/// the value that `value` writes at the time that `time` writes.
pub open spec fn payload_text(time: Seq<char>, name: Seq<char>, value: Seq<char>) -> Seq<char> {
    "201,S,"@ + time + ",SF,"@ + name + ","@ + value + ","@
}

/// The text of a register's value; a sensor's value has none here.
pub open spec fn reading_text(reading: Reading) -> Option<Seq<char>> {
    match reading {
        Reading::Register(value) => Some(decimal_text(value as nat)),
        Reading::Wave { .. } => None,
    }
}

/// Calls `DateTime::from_timestamp` of `chrono`, then `format` with `%+` and
/// `to_string` on the time it gives. Believed: the text depends on `time`
/// alone, and there is none exactly where `from_timestamp` gives no time.
#[verifier::external_body]
fn format_timestamp(time: Timestamp) -> (text: Option<String>)
    ensures
        text_view(text) == timestamp_text(time),
{
    match DateTime::from_timestamp(time.secs, time.nanos) {
        Some(time) => Some(time.format("%+").to_string()),
        None => None,
    }
}

/// Calls `DateTime::parse_from_rfc3339` of `chrono`, then `timestamp` and
/// `timestamp_subsec_nanos` on the time it gives. Believed: the moment
/// depends on `text` alone, and there is none exactly where the text is
/// refused.
#[verifier::external_body]
pub(crate) fn parse_rfc3339(text: &str) -> (time: Option<Timestamp>)
    ensures
        time == rfc3339_time(text@),
{
    match DateTime::parse_from_rfc3339(text) {
        Ok(time) => Some(Timestamp { secs: time.timestamp(), nanos: time.timestamp_subsec_nanos() }),
        Err(_) => None,
    }
}

/// The text of a reading that is a whole number: the value of a register in
/// decimal. A sensor's value is a decimal fraction, which the caller writes.
pub fn value_text(reading: Reading) -> (text: Option<String>)
    ensures
        text_view(text) == reading_text(reading),
{
    match reading {
        Reading::Register(value) => {
            let mut text = String::new();
            push_decimal(&mut text, value as u64);
            Some(text)
        },
        Reading::Wave { .. } => None,
    }
}

/// Frames a message: the data point called `name` had the value that `value`
/// writes at the time that `time` writes.
pub fn payload(time: &str, name: &str, value: &str) -> (text: String)
    ensures
        text@ == payload_text(time@, name@, value@),
{
    let mut text = String::from_str("201,S,");
    text.append(time);
    text.append(",SF,");
    text.append(name);
    text.append(",");
    text.append(value);
    text.append(",");
    text
}

/// The message that says that the data point called `name` had the value
/// that `value` writes, published at the moment `time`. `None` for a moment
/// that no date stands for.
pub fn message(time: Timestamp, name: &str, value: &str) -> (text: Option<String>)
    ensures
        text_view(text) == match timestamp_text(time) {
            Some(time) => Some(payload_text(time, name@, value@)),
            None => None,
        },
{
    match format_timestamp(time) {
        Some(time) => Some(payload(time.as_str(), name, value)),
        None => None,
    }
}

} // verus!
