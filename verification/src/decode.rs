//! Decoding of JSON values into typed values.
//!
//! [`FromJson`] says for a type what each JSON value decodes to; the
//! functions of this module decode the members of an object and the items of
//! an array.

use vstd::prelude::*;

use crate::closed_enum::{lookup, spec_decode, ClosedEnum};
use crate::error::{DecodeError, JsonKind};
use crate::json::{find_member, member, Json};

verus! {

/// A type whose values are decoded from JSON values.
pub trait FromJson: Sized {
    /// What a JSON value decodes to: a value of the type, or the reason why
    /// there is none.
    spec fn spec_from_json(j: Json) -> Result<Self, DecodeError>;

    /// Decodes a JSON value.
    fn from_json(j: &Json) -> (r: Result<Self, DecodeError>)
        ensures
            r == Self::spec_from_json(*j),
    ;
}

/// The failure of a value that is of another kind than `expected`.
pub open spec fn wrong_kind(expected: JsonKind, j: Json) -> DecodeError {
    DecodeError::InvalidType { expected, found: j.spec_kind() }
}

impl FromJson for String {
    open spec fn spec_from_json(j: Json) -> Result<Self, DecodeError> {
        match j {
            Json::Str(s) => Ok(s),
            _ => Err(wrong_kind(JsonKind::String, j)),
        }
    }

    fn from_json(j: &Json) -> (r: Result<Self, DecodeError>) {
        match j {
            Json::Str(s) => Ok(s.clone()),
            _ => Err(DecodeError::InvalidType { expected: JsonKind::String, found: j.kind() }),
        }
    }
}

impl FromJson for bool {
    open spec fn spec_from_json(j: Json) -> Result<Self, DecodeError> {
        match j {
            Json::Bool(b) => Ok(b),
            _ => Err(wrong_kind(JsonKind::Bool, j)),
        }
    }

    fn from_json(j: &Json) -> (r: Result<Self, DecodeError>) {
        match j {
            Json::Bool(b) => Ok(*b),
            _ => Err(DecodeError::InvalidType { expected: JsonKind::Bool, found: j.kind() }),
        }
    }
}

impl FromJson for i64 {
    open spec fn spec_from_json(j: Json) -> Result<Self, DecodeError> {
        match j {
            Json::Number(n) => match n.integer {
                Some(v) => Ok(v),
                None => Err(DecodeError::InvalidNumber(n.text)),
            },
            _ => Err(wrong_kind(JsonKind::Number, j)),
        }
    }

    fn from_json(j: &Json) -> (r: Result<Self, DecodeError>) {
        match j {
            Json::Number(n) => match n.integer {
                Some(v) => Ok(v),
                None => Err(DecodeError::InvalidNumber(n.text.clone())),
            },
            _ => Err(DecodeError::InvalidType { expected: JsonKind::Number, found: j.kind() }),
        }
    }
}

/// What a JSON value decodes to as a symbol of the closed enumeration `E`:
/// the symbol whose literal the value is, as a string.
pub open spec fn spec_symbol<E: ClosedEnum>(j: Json) -> Result<E, DecodeError> {
    match j {
        Json::Str(s) => match spec_decode::<E>(s@) {
            Some(v) => Ok(v),
            None => Err(DecodeError::UnknownVariant { enumeration: E::spec_name(), value: s }),
        },
        _ => Err(wrong_kind(JsonKind::String, j)),
    }
}

/// Decodes a JSON value as a symbol of the closed enumeration `E`.
pub fn symbol_from_json<E: ClosedEnum>(j: &Json) -> (r: Result<E, DecodeError>)
    ensures
        r == spec_symbol::<E>(*j),
{
    match j {
        Json::Str(s) => match lookup::<E>(s.as_str()) {
            Some(v) => Ok(v),
            None => Err(DecodeError::UnknownVariant { enumeration: E::name(), value: s.clone() }),
        },
        _ => Err(DecodeError::InvalidType { expected: JsonKind::String, found: j.kind() }),
    }
}

/// What a required member of an object decodes to: absent, it is reported
/// missing.
pub open spec fn spec_required<T: FromJson>(
    fields: Seq<(String, Json)>,
    name: &'static str,
) -> Result<T, DecodeError> {
    match member(fields, name@) {
        Some(j) => T::spec_from_json(j),
        None => Err(DecodeError::MissingField(name)),
    }
}

/// What an optional member of an object decodes to: absent or `null`, it is
/// no value.
pub open spec fn spec_optional<T: FromJson>(
    fields: Seq<(String, Json)>,
    name: &'static str,
) -> Result<Option<T>, DecodeError> {
    match member(fields, name@) {
        None => Ok(None),
        Some(Json::Null) => Ok(None),
        Some(j) => match T::spec_from_json(j) {
            Ok(v) => Ok(Some(v)),
            Err(e) => Err(e),
        },
    }
}

/// Decodes a required member of an object.
pub fn required<T: FromJson>(fields: &Vec<(String, Json)>, name: &'static str) -> (r: Result<
    T,
    DecodeError,
>)
    ensures
        r == spec_required::<T>(fields@, name),
{
    match find_member(fields, name) {
        Some(j) => T::from_json(j),
        None => Err(DecodeError::MissingField(name)),
    }
}

/// Decodes an optional member of an object.
pub fn optional<T: FromJson>(fields: &Vec<(String, Json)>, name: &'static str) -> (r: Result<
    Option<T>,
    DecodeError,
>)
    ensures
        r == spec_optional::<T>(fields@, name),
{
    match find_member(fields, name) {
        None => Ok(None),
        Some(Json::Null) => Ok(None),
        Some(j) => match T::from_json(j) {
            Ok(v) => Ok(Some(v)),
            Err(e) => Err(e),
        },
    }
}

/// The position of the first item at or after `from` that does not decode.
pub open spec fn first_failure<T: FromJson>(items: Seq<Json>, from: int) -> Option<int>
    decreases items.len() - from,
{
    if from < 0 || from >= items.len() {
        None
    } else if T::spec_from_json(items[from]) is Err {
        Some(from)
    } else {
        first_failure::<T>(items, from + 1)
    }
}

/// What the items of an array decode to: each item's value, in the order of
/// the array; or, where an item does not decode, the failure of the first
/// such item.
pub open spec fn spec_list<T: FromJson>(items: Seq<Json>) -> Result<Seq<T>, DecodeError> {
    match first_failure::<T>(items, 0) {
        Some(i) => Err(T::spec_from_json(items[i])->Err_0),
        None => Ok(Seq::new(items.len(), |i: int| T::spec_from_json(items[i])->Ok_0)),
    }
}

/// Where no item fails from `from` on, every item from there on decodes.
pub proof fn lemma_no_failure<T: FromJson>(items: Seq<Json>, from: int, i: int)
    requires
        0 <= from <= i < items.len(),
        first_failure::<T>(items, from) is None,
    ensures
        T::spec_from_json(items[i]) is Ok,
    decreases i - from,
{
    if from < i {
        lemma_no_failure::<T>(items, from + 1, i);
    }
}

/// Decodes the items of an array, keeping their order and their number.
pub fn decode_list<T: FromJson>(items: &Vec<Json>) -> (r: Result<Vec<T>, DecodeError>)
    ensures
        match r {
            Ok(v) => spec_list::<T>(items@) == Ok::<Seq<T>, DecodeError>(v@),
            Err(e) => spec_list::<T>(items@) == Err::<Seq<T>, DecodeError>(e),
        },
        r matches Ok(v) ==> v.len() == items.len() && forall|i: int|
            0 <= i < items.len() ==> T::spec_from_json(#[trigger] items@[i]) == Ok::<
                T,
                DecodeError,
            >(v@[i]),
{
    let mut out: Vec<T> = Vec::new();
    let mut i: usize = 0;
    while i < items.len()
        invariant
            i <= items.len(),
            out.len() == i,
            first_failure::<T>(items@, i as int) == first_failure::<T>(items@, 0),
            forall|k: int|
                0 <= k < i ==> T::spec_from_json(#[trigger] items@[k]) == Ok::<T, DecodeError>(
                    out@[k],
                ),
        decreases items.len() - i,
    {
        match T::from_json(&items[i]) {
            Ok(v) => {
                out.push(v);
            },
            Err(e) => {
                return Err(e);
            },
        }
        i += 1;
    }
    proof {
        assert(out@ =~= Seq::new(items@.len(), |i: int| T::spec_from_json(items@[i])->Ok_0));
    }
    Ok(out)
}

} // verus!
