//! JSON values, and the parser that reads them from text.
//!
//! The text is parsed by `serde_json`; what it yields is held in [`Json`], a
//! plain tree that the decoders of this library read.

use vstd::prelude::*;

use crate::error::{DecodeError, JsonKind};
use crate::text::str_eq;

verus! {

/// A JSON number: its value as a 64-bit integer, if it is one, and the number
/// as `serde_json` writes it.
#[derive(Clone, Debug, PartialEq, Eq)]
pub struct JsonNumber {
    pub integer: Option<i64>,
    pub text: String,
}

/// A JSON value. An object holds its members in a list of names and values.
///
/// A value that [`parse`] gives holds no name twice: of the members of one
/// name in a text `serde_json` keeps the last and does not report the others,
/// so a text that repeats a name is read as if it held that last member alone.
/// In a value that is put together by hand and holds a name more than once,
/// the first member of the name counts.
#[derive(Debug, PartialEq, Eq)]
pub enum Json {
    Null,
    Bool(bool),
    Number(JsonNumber),
    Str(String),
    Array(Vec<Json>),
    Object(Vec<(String, Json)>),
}

/// The position of the first member called `name` at or after `from`.
pub open spec fn position_from(fields: Seq<(String, Json)>, name: Seq<char>, from: int) -> Option<
    int,
>
    decreases fields.len() - from,
{
    if from < 0 || from >= fields.len() {
        None
    } else if fields[from].0@ == name {
        Some(from)
    } else {
        position_from(fields, name, from + 1)
    }
}

/// The position of the first member called `name`.
pub open spec fn spec_position(fields: Seq<(String, Json)>, name: Seq<char>) -> Option<int> {
    position_from(fields, name, 0)
}

/// The value of the first member called `name`.
pub open spec fn member(fields: Seq<(String, Json)>, name: Seq<char>) -> Option<Json> {
    match spec_position(fields, name) {
        Some(i) => Some(fields[i].1),
        None => None,
    }
}

/// A position that [`position_from`] gives lies at or after `from` and
/// holds the first member of the name from there on; where it gives none, no
/// member from there on has the name.
pub proof fn lemma_position_from(fields: Seq<(String, Json)>, name: Seq<char>, from: int)
    requires
        0 <= from,
    ensures
        match position_from(fields, name, from) {
            Some(i) => from <= i < fields.len() && fields[i].0@ == name && forall|k: int|
                from <= k < i ==> (#[trigger] fields[k]).0@ != name,
            None => forall|k: int| from <= k < fields.len() ==> (#[trigger] fields[k]).0@ != name,
        },
    decreases fields.len() - from,
{
    if from < fields.len() && fields[from].0@ != name {
        lemma_position_from(fields, name, from + 1);
    }
}

/// Of the members of a name, the first counts: [`member`] gives the value of
/// a member before which no member has the name, and gives none exactly
/// where no member has it.
pub proof fn lemma_member_is_first(fields: Seq<(String, Json)>, name: Seq<char>)
    ensures
        match member(fields, name) {
            Some(value) => exists|i: int|
                0 <= i < fields.len() && (#[trigger] fields[i]).0@ == name && fields[i].1 == value
                    && forall|k: int| 0 <= k < i ==> (#[trigger] fields[k]).0@ != name,
            None => forall|k: int| 0 <= k < fields.len() ==> (#[trigger] fields[k]).0@ != name,
        },
{
    lemma_position_from(fields, name, 0);
}

impl Json {
    /// The kind of a value.
    pub open spec fn spec_kind(self) -> JsonKind {
        match self {
            Json::Null => JsonKind::Null,
            Json::Bool(_) => JsonKind::Bool,
            Json::Number(_) => JsonKind::Number,
            Json::Str(_) => JsonKind::String,
            Json::Array(_) => JsonKind::Array,
            Json::Object(_) => JsonKind::Object,
        }
    }

    /// The kind of this value.
    pub fn kind(&self) -> (k: JsonKind)
        ensures
            k == self.spec_kind(),
    {
        match self {
            Json::Null => JsonKind::Null,
            Json::Bool(_) => JsonKind::Bool,
            Json::Number(_) => JsonKind::Number,
            Json::Str(_) => JsonKind::String,
            Json::Array(_) => JsonKind::Array,
            Json::Object(_) => JsonKind::Object,
        }
    }
}

/// Finds the position of the first member called `name`.
pub fn position(fields: &Vec<(String, Json)>, name: &str) -> (r: Option<usize>)
    ensures
        match r {
            Some(i) => spec_position(fields@, name@) == Some(i as int) && i < fields.len(),
            None => spec_position(fields@, name@) is None,
        },
{
    let mut i: usize = 0;
    while i < fields.len()
        invariant
            i <= fields.len(),
            position_from(fields@, name@, i as int) == spec_position(fields@, name@),
        decreases fields.len() - i,
    {
        if str_eq(fields[i].0.as_str(), name) {
            return Some(i);
        }
        i += 1;
    }
    None
}

/// Finds the value of the first member called `name`.
pub fn find_member<'a>(fields: &'a Vec<(String, Json)>, name: &str) -> (r: Option<&'a Json>)
    ensures
        match r {
            Some(j) => member(fields@, name@) == Some(*j),
            None => member(fields@, name@) is None,
        },
{
    match position(fields, name) {
        Some(i) => Some(&fields[i].1),
        None => None,
    }
}

/// Takes the value of the first member called `name` out of a list.
pub fn take_member(fields: Vec<(String, Json)>, name: &str) -> (r: Option<Json>)
    ensures
        r == member(fields@, name@),
{
    let mut fields = fields;
    match position(&fields, name) {
        Some(i) => {
            let entry = fields.swap_remove(i);
            Some(entry.1)
        },
        None => None,
    }
}

#[verifier::external_type_specification]
#[verifier::external_body]
pub struct ExJsonValue(serde_json::Value);

/// What `serde_json` reads from a text: the value of the JSON document that
/// the text holds, or nothing where the text is no JSON document.
pub uninterp spec fn parsed_json(text: Seq<char>) -> Option<Json>;

/// What `serde_json` says of a text that it does not accept: the message of
/// its error.
pub uninterp spec fn json_failure(text: Seq<char>) -> Seq<char>;

/// `serde_json::from_str` at `serde_json::Value`, its error handed out as the
/// text that the error's `Display` writes: the value and the message are
/// functions of the text alone, and there is a value exactly when the parser
/// accepts the text.
#[verifier::external_body]
fn read_value(text: &str) -> (r: Result<Json, String>)
    ensures
        match r {
            Ok(j) => parsed_json(text@) == Some(j),
            Err(m) => parsed_json(text@) is None && m@ == json_failure(text@),
        },
{
    serde_json::from_str::<serde_json::Value>(text).map(json_of_value).map_err(|e| e.to_string())
}

/// Rewrites a `serde_json::Value` as a [`Json`], variant by variant. A number
/// keeps what `Number::as_i64` and its `Display` give; an object's members
/// come in the order in which `serde_json::Map` hands them out.
#[verifier::external_body]
fn json_of_value(value: serde_json::Value) -> Json {
    match value {
        serde_json::Value::Null => Json::Null,
        serde_json::Value::Bool(b) => Json::Bool(b),
        serde_json::Value::Number(n) => Json::Number(
            JsonNumber { integer: n.as_i64(), text: n.to_string() },
        ),
        serde_json::Value::String(s) => Json::Str(s),
        serde_json::Value::Array(a) => Json::Array(a.into_iter().map(json_of_value).collect()),
        serde_json::Value::Object(m) => Json::Object(
            m.into_iter().map(|(k, v)| (k, json_of_value(v))).collect(),
        ),
    }
}

/// Whether `e` is the failure of the parser on `text`: it holds the parser's
/// message, as it is.
pub open spec fn is_syntax_failure(e: DecodeError, text: Seq<char>) -> bool {
    e matches DecodeError::Syntax(m) && m@ == json_failure(text)
}

/// Parses a text as a JSON document.
///
/// Fails exactly on the texts that `serde_json` does not accept, with the
/// parser's message as it is; no value is made up for them.
///
/// A text that repeats a name within one object is accepted: `serde_json`
/// keeps the last member of the name and reports nothing, so the repetition
/// cannot be told from the value.
pub fn parse(text: &str) -> (r: Result<Json, DecodeError>)
    ensures
        match r {
            Ok(j) => parsed_json(text@) == Some(j),
            Err(e) => parsed_json(text@) is None && is_syntax_failure(e, text@),
        },
{
    match read_value(text) {
        Ok(j) => Ok(j),
        Err(m) => Err(DecodeError::Syntax(m)),
    }
}

} // verus!
