//! The documents of the API, and the envelopes in which a reply carries them.

use vstd::prelude::*;

use crate::decode::{
    decode_list, lemma_no_failure, required, spec_list, spec_required, wrong_kind, FromJson,
};
use crate::error::{DecodeError, JsonKind};
use crate::json::{find_member, member, Json};

verus! {

/// A resource of the API: its type tag, its identifier and its attributes.
/// Neither the tag nor the identifier is held to a set of known values.
#[derive(Clone, Debug, Default, PartialEq)]
pub struct ApiDocument<A> {
    pub document_type: String,
    pub id: String,
    pub attributes: A,
}

impl<A: FromJson> FromJson for ApiDocument<A> {
    /// An object with the members `type` and `id`, both strings, and
    /// `attributes`; other members are passed over.
    open spec fn spec_from_json(j: Json) -> Result<Self, DecodeError> {
        match j {
            Json::Object(fields) => {
                let document_type = spec_required::<String>(fields@, "type");
                let id = spec_required::<String>(fields@, "id");
                let attributes = spec_required::<A>(fields@, "attributes");
                if document_type is Err {
                    Err(document_type->Err_0)
                } else if id is Err {
                    Err(id->Err_0)
                } else if attributes is Err {
                    Err(attributes->Err_0)
                } else {
                    Ok(
                        ApiDocument {
                            document_type: document_type->Ok_0,
                            id: id->Ok_0,
                            attributes: attributes->Ok_0,
                        },
                    )
                }
            },
            _ => Err(wrong_kind(JsonKind::Object, j)),
        }
    }

    fn from_json(j: &Json) -> (r: Result<Self, DecodeError>) {
        match j {
            Json::Object(fields) => {
                let document_type = required::<String>(fields, "type")?;
                let id = required::<String>(fields, "id")?;
                let attributes = required::<A>(fields, "attributes")?;
                Ok(ApiDocument { document_type, id, attributes })
            },
            _ => Err(DecodeError::InvalidType { expected: JsonKind::Object, found: j.kind() }),
        }
    }
}

/// What the envelope of one resource decodes to: the value of its member
/// `data`, which must be there.
pub open spec fn spec_data<D: FromJson>(j: Json) -> Result<D, DecodeError> {
    match j {
        Json::Object(fields) => spec_required::<D>(fields@, "data"),
        _ => Err(wrong_kind(JsonKind::Object, j)),
    }
}

/// What the member `include` of an envelope decodes to: the items of the
/// array, in its order. The member must be there: without it the envelope
/// does not decode.
pub open spec fn spec_related<I: FromJson>(j: Json) -> Result<Seq<I>, DecodeError> {
    match j {
        Json::Object(fields) => match member(fields@, "include"@) {
            Some(Json::Array(items)) => spec_list::<I>(items@),
            Some(other) => Err(wrong_kind(JsonKind::Array, other)),
            None => Err(DecodeError::MissingField("include")),
        },
        _ => Err(wrong_kind(JsonKind::Object, j)),
    }
}

/// The related resources of an envelope are the values of the items of its
/// member `include`, one for one and in the order of the array.
pub proof fn lemma_related_keep_order<I: FromJson>(j: Json, related: Seq<I>)
    requires
        spec_related::<I>(j) == Ok::<Seq<I>, DecodeError>(related),
    ensures
        j matches Json::Object(fields) && member(fields@, "include"@) matches Some(
            Json::Array(items),
        ) && related.len() == items.len() && forall|i: int|
            0 <= i < items.len() ==> I::spec_from_json(#[trigger] items@[i]) == Ok::<I, DecodeError>(
                related[i],
            ),
{
    match j {
        Json::Object(fields) => match member(fields@, "include"@) {
            Some(Json::Array(items)) => {
                assert forall|i: int| 0 <= i < items.len() implies I::spec_from_json(
                    #[trigger] items@[i],
                ) == Ok::<I, DecodeError>(related[i]) by {
                    lemma_no_failure::<I>(items@, 0, i);
                }
            },
            _ => {},
        },
        _ => {},
    }
}

/// Decodes the envelope of one resource, `{ "data": D }`.
pub fn decode_data<D: FromJson>(j: &Json) -> (r: Result<D, DecodeError>)
    ensures
        r == spec_data::<D>(*j),
{
    match j {
        Json::Object(fields) => required::<D>(fields, "data"),
        _ => Err(DecodeError::InvalidType { expected: JsonKind::Object, found: j.kind() }),
    }
}

/// Decodes the related resources of an envelope, the items of its member
/// `include`, keeping their order and their number.
pub fn decode_related<I: FromJson>(j: &Json) -> (r: Result<Vec<I>, DecodeError>)
    ensures
        match r {
            Ok(v) => spec_related::<I>(*j) == Ok::<Seq<I>, DecodeError>(v@),
            Err(e) => spec_related::<I>(*j) == Err::<Seq<I>, DecodeError>(e),
        },
{
    match j {
        Json::Object(fields) => match find_member(fields, "include") {
            Some(Json::Array(items)) => decode_list::<I>(items),
            Some(other) => Err(
                DecodeError::InvalidType { expected: JsonKind::Array, found: other.kind() },
            ),
            None => Err(DecodeError::MissingField("include")),
        },
        _ => Err(DecodeError::InvalidType { expected: JsonKind::Object, found: j.kind() }),
    }
}

/// Decodes the envelope of a resource with its related resources,
/// `{ "data": D, "include": [I] }`. The primary resource is decoded first: its
/// failure comes before that of the related ones.
pub fn decode_data_and_related<D: FromJson, I: FromJson>(j: &Json) -> (r: Result<
    (D, Vec<I>),
    DecodeError,
>)
    ensures
        match r {
            Ok((data, related)) => spec_data::<D>(*j) == Ok::<D, DecodeError>(data)
                && spec_related::<I>(*j) == Ok::<Seq<I>, DecodeError>(related@),
            Err(e) => if spec_data::<D>(*j) is Err {
                spec_data::<D>(*j) == Err::<D, DecodeError>(e)
            } else {
                spec_related::<I>(*j) == Err::<Seq<I>, DecodeError>(e)
            },
        },
{
    let data = decode_data::<D>(j)?;
    let related = decode_related::<I>(j)?;
    Ok((data, related))
}

} // verus!
