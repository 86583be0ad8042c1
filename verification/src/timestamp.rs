//! Instants of time, read from date-and-time strings.

use vstd::prelude::*;

use crate::decode::{wrong_kind, FromJson};
use crate::error::{DecodeError, JsonKind};
use crate::json::Json;

verus! {

/// An instant on the UTC time line: the seconds since 1970-01-01T00:00:00Z,
/// leap seconds not counted, and the nanoseconds since the last full second.
/// Within a leap second `nanos` is 1,000,000,000 or more.
#[derive(Clone, Copy, Debug, Default, PartialEq, Eq)]
pub struct Timestamp {
    pub secs: i64,
    pub nanos: u32,
}

/// What `chrono` reads from a date-and-time string: the instant that it
/// names, or nothing where `chrono` does not accept the string.
pub uninterp spec fn parsed_timestamp(text: Seq<char>) -> Option<Timestamp>;

/// `chrono`'s `FromStr` for `DateTime<Utc>`, which reads RFC 3339 in a
/// relaxed form and moves the instant to UTC: the outcome is a function of
/// the string alone. The instant is handed out as what `DateTime::timestamp`
/// and `DateTime::timestamp_subsec_nanos` give.
#[verifier::external_body]
fn read_timestamp(text: &str) -> (r: Option<Timestamp>)
    ensures
        r == parsed_timestamp(text@),
{
    text.parse::<chrono::DateTime<chrono::Utc>>().ok().map(
        |t| Timestamp { secs: t.timestamp(), nanos: t.timestamp_subsec_nanos() },
    )
}

impl Timestamp {
    /// Reads an instant from a date-and-time string.
    pub fn parse(text: &str) -> (r: Option<Timestamp>)
        ensures
            r == parsed_timestamp(text@),
    {
        read_timestamp(text)
    }
}

impl FromJson for Timestamp {
    open spec fn spec_from_json(j: Json) -> Result<Self, DecodeError> {
        match j {
            Json::Str(s) => match parsed_timestamp(s@) {
                Some(t) => Ok(t),
                None => Err(DecodeError::InvalidTimestamp(s)),
            },
            _ => Err(wrong_kind(JsonKind::String, j)),
        }
    }

    fn from_json(j: &Json) -> (r: Result<Self, DecodeError>) {
        match j {
            Json::Str(s) => match read_timestamp(s.as_str()) {
                Some(t) => Ok(t),
                None => Err(DecodeError::InvalidTimestamp(s.clone())),
            },
            _ => Err(DecodeError::InvalidType { expected: JsonKind::String, found: j.kind() }),
        }
    }
}

} // verus!
