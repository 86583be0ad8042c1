//! The client, without its transport: it says what to request and reads what
//! came back. Sending a request and receiving its reply is left to the caller.

use vstd::prelude::*;

use crate::decode::{wrong_kind, FromJson};
use crate::document::{decode_data, decode_data_and_related, spec_data, spec_related};
use crate::error::{payloads, ApiError, DecodeError, JsonKind, PatreonError, PatreonResult};
use crate::json::{is_syntax_failure, member, parse, parsed_json, take_member, Json};
pub use crate::document::ApiDocument;
pub use crate::records::{Member, MemberAttributes, User, UserAttributes};
use crate::request::{
    bearer, current_user_url, identity_url, spec_current_user_url, spec_identity_url, text_of,
    ApiRequest, USER_AGENT,
};
use crate::status::IdentityIncldue;

verus! {

/// A reply of the server: its status code and its body.
#[derive(Clone, Debug, PartialEq, Eq)]
pub struct ApiReply {
    pub status: u16,
    pub text: String,
}

/// Whether a status code reports success: the codes from 200 to 299 do.
pub open spec fn spec_is_success(status: u16) -> bool {
    200 <= status < 300
}

/// Whether a status code reports success.
pub fn is_success(status: u16) -> (r: bool)
    ensures
        r == spec_is_success(status),
{
    200 <= status && status < 300
}

/// The list of errors that the body of a failure holds, `{ "errors": [..] }`:
/// the items of the array, as they are.
pub open spec fn spec_errors(j: Json) -> Result<Seq<Json>, DecodeError> {
    match j {
        Json::Object(fields) => match member(fields@, "errors"@) {
            Some(Json::Array(items)) => Ok(items@),
            Some(other) => Err(wrong_kind(JsonKind::Array, other)),
            None => Err(DecodeError::MissingField("errors")),
        },
        _ => Err(wrong_kind(JsonKind::Object, j)),
    }
}

/// Takes the list of errors out of the body of a failure, keeping the order
/// and the number of its entries.
pub fn decode_errors(j: Json) -> (r: Result<Vec<ApiError>, DecodeError>)
    ensures
        match r {
            Ok(errors) => spec_errors(j) == Ok::<Seq<Json>, DecodeError>(payloads(errors@)),
            Err(e) => spec_errors(j) == Err::<Seq<Json>, DecodeError>(e),
        },
{
    match j {
        Json::Object(fields) => match take_member(fields, "errors") {
            Some(Json::Array(items)) => {
                let ghost all = items@;
                let mut errors: Vec<ApiError> = Vec::new();
                for item in it: items.into_iter()
                    invariant
                        it.seq() == all,
                        errors@.len() == it.index(),
                        forall|k: int| 0 <= k < it.index() ==> (#[trigger] errors@[k]).payload == all[k],
                {
                    errors.push(ApiError { payload: item });
                }
                proof {
                    assert(payloads(errors@) =~= all);
                }
                Ok(errors)
            },
            Some(other) => Err(
                DecodeError::InvalidType { expected: JsonKind::Array, found: other.kind() },
            ),
            None => Err(DecodeError::MissingField("errors")),
        },
        other => Err(DecodeError::InvalidType { expected: JsonKind::Object, found: other.kind() }),
    }
}

/// Whether `e` is the failure that a reply with a failure status stands for:
/// the status with the errors that the body lists, or, where the body holds no
/// such list, the reason why.
pub open spec fn is_reported_failure(reply: ApiReply, e: PatreonError) -> bool {
    match parsed_json(reply.text@) {
        None => e matches PatreonError::Decode(d) && is_syntax_failure(d, reply.text@),
        Some(j) => match spec_errors(j) {
            Ok(items) => e matches PatreonError::PatreonApi(status, errors) && status
                == reply.status && payloads(errors@) == items,
            Err(d) => e == PatreonError::Decode(d),
        },
    }
}

/// Whether `r` is what a reply is read as: the body of a success, as it is,
/// or the failure that a failure status stands for.
pub open spec fn is_read(reply: ApiReply, r: PatreonResult<String>) -> bool {
    match r {
        Ok(text) => spec_is_success(reply.status) && text == reply.text,
        Err(e) => !spec_is_success(reply.status) && is_reported_failure(reply, e),
    }
}

/// Whether `r` is what the body of a successful reply decodes to as a
/// resource of type `D` with its related resources of type `I`: the related
/// ones in the order and in the number of the body's list, and a failure of
/// the primary resource before one of the related.
pub open spec fn is_decoded_with_related<D: FromJson, I: FromJson>(
    text: Seq<char>,
    r: PatreonResult<(D, Vec<I>)>,
) -> bool {
    match parsed_json(text) {
        None => r matches Err(PatreonError::Decode(d)) && is_syntax_failure(d, text),
        Some(j) => match (spec_data::<D>(j), spec_related::<I>(j)) {
            (Ok(data), Ok(related)) => r matches Ok(pair) && pair.0 == data && pair.1@ == related,
            (Err(d), _) => r == Err::<(D, Vec<I>), PatreonError>(PatreonError::Decode(d)),
            (Ok(_), Err(d)) => r == Err::<(D, Vec<I>), PatreonError>(PatreonError::Decode(d)),
        },
    }
}

/// Whether `r` is what the body of a successful reply decodes to, where
/// `decoded` says what the JSON value of the body decodes to.
pub open spec fn is_decoded<T>(
    text: Seq<char>,
    decoded: spec_fn(Json) -> Result<T, DecodeError>,
    r: PatreonResult<T>,
) -> bool {
    match parsed_json(text) {
        None => r matches Err(PatreonError::Decode(d)) && is_syntax_failure(d, text),
        Some(j) => match decoded(j) {
            Ok(v) => r == Ok::<T, PatreonError>(v),
            Err(d) => r == Err::<T, PatreonError>(PatreonError::Decode(d)),
        },
    }
}

/// A failure status whose body lists errors is reported with that status and
/// those errors, in their order, and not as a failure of decoding.
pub proof fn lemma_failure_is_reported(reply: ApiReply, j: Json, items: Seq<Json>, e: PatreonError)
    requires
        parsed_json(reply.text@) == Some(j),
        spec_errors(j) == Ok::<Seq<Json>, DecodeError>(items),
        is_reported_failure(reply, e),
    ensures
        e matches PatreonError::PatreonApi(status, errors) && status == reply.status && errors.len()
            == items.len() && forall|i: int|
            0 <= i < items.len() ==> (#[trigger] errors@[i]).payload == items[i],
{
    match e {
        PatreonError::PatreonApi(status, errors) => {
            assert forall|i: int| 0 <= i < items.len() implies (#[trigger] errors@[i]).payload
                == items[i] by {
                assert(payloads(errors@)[i] == errors@[i].payload);
            }
        },
        _ => {},
    }
}

/// A body that is no JSON document decodes to no value at all: what comes of
/// it is the failure of the parser, with the parser's message.
pub proof fn lemma_malformed_is_no_value<T>(
    text: Seq<char>,
    decoded: spec_fn(Json) -> Result<T, DecodeError>,
    r: PatreonResult<T>,
)
    requires
        parsed_json(text) is None,
        is_decoded(text, decoded, r),
    ensures
        r matches Err(PatreonError::Decode(d)) && is_syntax_failure(d, text),
{
}

/// A reply with a failure status stands for one failure: any two failures
/// that it is read as are the same.
pub proof fn lemma_reported_failure_is_one(reply: ApiReply, a: PatreonError, b: PatreonError)
    requires
        is_reported_failure(reply, a),
        is_reported_failure(reply, b),
    ensures
        a.same(b),
{
}

/// A reply is read as one result: any two results that it is read as are the
/// same body or the same failure, whatever the client.
pub proof fn lemma_read_is_one(reply: ApiReply, a: PatreonResult<String>, b: PatreonResult<String>)
    requires
        is_read(reply, a),
        is_read(reply, b),
    ensures
        match (a, b) {
            (Ok(x), Ok(y)) => x == y,
            (Err(e), Err(f)) => e.same(f),
            _ => false,
        },
{
}

/// The body of a success decodes to one resource with its related resources:
/// any two results that it is read as are the same resources or the same
/// failure.
pub proof fn lemma_decoded_with_related_is_one<D: FromJson, I: FromJson>(
    text: Seq<char>,
    a: PatreonResult<(D, Vec<I>)>,
    b: PatreonResult<(D, Vec<I>)>,
)
    requires
        is_decoded_with_related::<D, I>(text, a),
        is_decoded_with_related::<D, I>(text, b),
    ensures
        match (a, b) {
            (Ok(x), Ok(y)) => x.0 == y.0 && x.1@ == y.1@,
            (Err(e), Err(f)) => e.same(f),
            _ => false,
        },
{
}

/// The body of a success decodes to one result: any two results that it is
/// read as are the same value or the same failure.
pub proof fn lemma_decoded_is_one<T>(
    text: Seq<char>,
    decoded: spec_fn(Json) -> Result<T, DecodeError>,
    a: PatreonResult<T>,
    b: PatreonResult<T>,
)
    requires
        is_decoded(text, decoded, a),
        is_decoded(text, decoded, b),
    ensures
        match (a, b) {
            (Ok(x), Ok(y)) => x == y,
            (Err(e), Err(f)) => e.same(f),
            _ => false,
        },
{
}

/// The client: it holds the access token of the user on whose behalf it
/// speaks.
#[derive(Clone, Debug, Default, PartialEq, Eq)]
pub struct PatreonApi {
    pub access_token: String,
}

impl PatreonApi {
    /// The address of the request for the current user. It is the same for
    /// every client, and it is lacking only where the `url` crate does not
    /// make it.
    pub fn current_user_request(&self) -> (r: Option<String>)
        ensures
            text_of(r) == spec_current_user_url(),
    {
        current_user_url()
    }

    /// The address of the request for the identity, with the relation that
    /// the server is to embed, if any. It is the same for every client, and it
    /// is lacking only where the `url` crate does not make it.
    pub fn identity_request(&self, related: Option<IdentityIncldue>) -> (r: Option<String>)
        ensures
            text_of(r) == spec_identity_url(related),
    {
        identity_url(related)
    }

    /// The request that is sent to an address: a `GET` of the address with the
    /// two headers of the client.
    pub fn api_request(&self, url: String) -> (r: ApiRequest)
        ensures
            r.url == url,
            r.authorization@ == "Bearer "@ + self.access_token@,
            r.user_agent == USER_AGENT,
    {
        ApiRequest {
            url,
            authorization: bearer(self.access_token.as_str()),
            user_agent: USER_AGENT,
        }
    }

    /// Reads a reply: the body of a success, as it is, or the failure that the
    /// reply stands for.
    pub fn api_call(&self, reply: ApiReply) -> (r: PatreonResult<String>)
        ensures
            is_read(reply, r),
    {
        if is_success(reply.status) {
            Ok(reply.text)
        } else {
            match parse(reply.text.as_str()) {
                Err(e) => Err(PatreonError::Decode(e)),
                Ok(j) => match decode_errors(j) {
                    Ok(errors) => Err(PatreonError::PatreonApi(reply.status, errors)),
                    Err(e) => Err(PatreonError::Decode(e)),
                },
            }
        }
    }

    /// Reads a reply whose body is the envelope of one resource.
    pub fn call_data<T: FromJson>(&self, reply: ApiReply) -> (r: PatreonResult<T>)
        ensures
            if spec_is_success(reply.status) {
                is_decoded(reply.text@, |j: Json| spec_data::<T>(j), r)
            } else {
                r matches Err(e) && is_reported_failure(reply, e)
            },
    {
        let text = self.api_call(reply)?;
        match parse(text.as_str()) {
            Err(e) => Err(PatreonError::Decode(e)),
            Ok(j) => match decode_data::<T>(&j) {
                Ok(data) => Ok(data),
                Err(e) => Err(PatreonError::Decode(e)),
            },
        }
    }

    /// Reads a reply whose body is the envelope of a resource with its related
    /// resources. The related resources come in the order and in the number
    /// in which the body lists them.
    pub fn call_data_and_include<D: FromJson, I: FromJson>(&self, reply: ApiReply) -> (r:
        PatreonResult<(D, Vec<I>)>)
        ensures
            if spec_is_success(reply.status) {
                is_decoded_with_related::<D, I>(reply.text@, r)
            } else {
                r matches Err(e) && is_reported_failure(reply, e)
            },
    {
        let text = self.api_call(reply)?;
        match parse(text.as_str()) {
            Err(e) => Err(PatreonError::Decode(e)),
            Ok(j) => match decode_data_and_related::<D, I>(&j) {
                Ok(pair) => Ok(pair),
                Err(e) => Err(PatreonError::Decode(e)),
            },
        }
    }

    /// Reads the reply to the request for the current user.
    pub fn current_user(&self, reply: ApiReply) -> (r: PatreonResult<User>)
        ensures
            if spec_is_success(reply.status) {
                is_decoded(reply.text@, |j: Json| spec_data::<User>(j), r)
            } else {
                r matches Err(e) && is_reported_failure(reply, e)
            },
    {
        self.call_data::<User>(reply)
    }

    /// Reads the reply to the request for the identity alone.
    pub fn identity(&self, reply: ApiReply) -> (r: PatreonResult<User>)
        ensures
            if spec_is_success(reply.status) {
                is_decoded(reply.text@, |j: Json| spec_data::<User>(j), r)
            } else {
                r matches Err(e) && is_reported_failure(reply, e)
            },
    {
        self.call_data::<User>(reply)
    }

    /// Reads the reply to the request for the identity with its memberships.
    pub fn identity_and_member(&self, reply: ApiReply) -> (r: PatreonResult<(User, Vec<Member>)>)
        ensures
            if spec_is_success(reply.status) {
                is_decoded_with_related::<User, Member>(reply.text@, r)
            } else {
                r matches Err(e) && is_reported_failure(reply, e)
            },
    {
        self.call_data_and_include::<User, Member>(reply)
    }
}

} // verus!
