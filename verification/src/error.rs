//! Failures of decoding, and the failure that the server itself reports.

use vstd::prelude::*;
use vstd::string::StringExecFns;

use crate::json::Json;

verus! {

/// The six kinds of JSON value.
#[derive(Clone, Copy, Debug, PartialEq, Eq)]
pub enum JsonKind {
    Null,
    Bool,
    Number,
    String,
    Array,
    Object,
}

/// Why a text could not be decoded into the value that was asked for.
///
/// Every variant is a structural failure of the reply: none is ever replaced
/// by a default value.
#[derive(Clone, Debug, PartialEq, Eq)]
pub enum DecodeError {
    /// The text is not a JSON document; holds the parser's message.
    Syntax(String),
    /// An object lacks a member that is required.
    MissingField(&'static str),
    /// A value is of another kind than its place asks for.
    InvalidType { expected: JsonKind, found: JsonKind },
    /// A number is not an integer of 64 bits; holds the number as `serde_json`
    /// renders it, which need not be how the text wrote it.
    InvalidNumber(String),
    /// A string is not a date and time; holds the string.
    InvalidTimestamp(String),
    /// A string is none of the literals of a closed enumeration; holds the
    /// enumeration's name and the string.
    UnknownVariant { enumeration: &'static str, value: String },
}

impl JsonKind {
    /// The kind in words.
    pub open spec fn spec_name(self) -> &'static str {
        match self {
            JsonKind::Null => "null",
            JsonKind::Bool => "a boolean",
            JsonKind::Number => "a number",
            JsonKind::String => "a string",
            JsonKind::Array => "an array",
            JsonKind::Object => "an object",
        }
    }

    /// The kind in words.
    pub fn name(&self) -> (n: &'static str)
        ensures
            n == self.spec_name(),
    {
        match self {
            JsonKind::Null => "null",
            JsonKind::Bool => "a boolean",
            JsonKind::Number => "a number",
            JsonKind::String => "a string",
            JsonKind::Array => "an array",
            JsonKind::Object => "an object",
        }
    }
}

impl DecodeError {
    /// The failure in words.
    pub open spec fn spec_message(self) -> Seq<char> {
        match self {
            DecodeError::Syntax(message) => message@,
            DecodeError::MissingField(name) => "missing field `"@ + name@ + "`"@,
            DecodeError::InvalidType { expected, found } => "invalid type: "@ + found.spec_name()@
                + ", expected "@ + expected.spec_name()@,
            DecodeError::InvalidNumber(text) => "invalid number: "@ + text@,
            DecodeError::InvalidTimestamp(text) => "invalid date and time: "@ + text@,
            DecodeError::UnknownVariant { enumeration, value } => "unknown "@ + enumeration@
                + " variant: "@ + value@,
        }
    }

    /// Says in words what failed.
    pub fn message(&self) -> (text: String)
        ensures
            text@ == self.spec_message(),
    {
        match self {
            DecodeError::Syntax(message) => message.clone(),
            DecodeError::MissingField(name) => {
                let mut text = String::from_str("missing field `");
                text.append(name);
                text.append("`");
                text
            },
            DecodeError::InvalidType { expected, found } => {
                let mut text = String::from_str("invalid type: ");
                text.append(found.name());
                text.append(", expected ");
                text.append(expected.name());
                text
            },
            DecodeError::InvalidNumber(number) => {
                let mut text = String::from_str("invalid number: ");
                text.append(number.as_str());
                text
            },
            DecodeError::InvalidTimestamp(stamp) => {
                let mut text = String::from_str("invalid date and time: ");
                text.append(stamp.as_str());
                text
            },
            DecodeError::UnknownVariant { enumeration, value } => {
                let mut text = String::from_str("unknown ");
                text.append(enumeration);
                text.append(" variant: ");
                text.append(value.as_str());
                text
            },
        }
    }
}

/// One entry of the list of errors that the server sends with a failure. The
/// entry is kept as it came: this library does not read it.
#[derive(Debug, PartialEq, Eq)]
pub struct ApiError {
    pub payload: Json,
}

/// The failures that this library reports.
#[derive(Debug, PartialEq, Eq)]
pub enum PatreonError {
    /// The reply could not be decoded.
    Decode(DecodeError),
    /// The server answered with a failure status: holds the status code and
    /// the errors that the reply lists.
    PatreonApi(u16, Vec<ApiError>),
}

/// The result of reading a reply.
pub type PatreonResult<T> = Result<T, PatreonError>;

impl DecodeError {
    /// Whether two failures are the same: of one variant, with the same names
    /// and the same texts.
    pub open spec fn same(self, other: DecodeError) -> bool {
        match (self, other) {
            (DecodeError::Syntax(a), DecodeError::Syntax(b)) => a@ == b@,
            (DecodeError::InvalidNumber(a), DecodeError::InvalidNumber(b)) => a@ == b@,
            (DecodeError::InvalidTimestamp(a), DecodeError::InvalidTimestamp(b)) => a@ == b@,
            (
                DecodeError::UnknownVariant { enumeration: m, value: a },
                DecodeError::UnknownVariant { enumeration: n, value: b },
            ) => m == n && a@ == b@,
            _ => self == other,
        }
    }
}

impl PatreonError {
    /// Whether two failures are the same: the same failure of decoding, or the
    /// same status with the same payloads in the same order.
    pub open spec fn same(self, other: PatreonError) -> bool {
        match (self, other) {
            (PatreonError::Decode(a), PatreonError::Decode(b)) => a.same(b),
            (PatreonError::PatreonApi(s, a), PatreonError::PatreonApi(t, b)) => s == t
                && payloads(a@) == payloads(b@),
            _ => false,
        }
    }
}

/// The payloads of a list of errors, in the order of the list.
pub open spec fn payloads(errors: Seq<ApiError>) -> Seq<Json> {
    errors.map_values(|e: ApiError| e.payload)
}

} // verus!
