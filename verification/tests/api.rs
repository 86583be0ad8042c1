use patreon::api::{decode_errors, is_success, ApiReply, PatreonApi};
use patreon::error::{ApiError, DecodeError, JsonKind, PatreonError};
use patreon::json::{parse, Json, JsonNumber};
use patreon::records::{Member, User};
use patreon::status::PatronStatus;
use patreon::timestamp::Timestamp;

const USER_DATA: &str = r#"{"type":"user","id":"42","attributes":{
    "first_name":"Grace","last_name":"Hopper","full_name":"Grace Hopper",
    "email":"grace@example.com","image_url":"i","thumb_url":"t",
    "created":"2001-09-09T01:46:40Z","url":"u"}}"#;

const MEMBER_DATA: &str = r#"{"type":"member","id":"m","attributes":{
    "campaign_lifetime_support_cents":1,"currently_entitled_amount_cents":2,
    "full_name":"Grace Hopper","is_follower":true,
    "last_charge_date":"2001-09-09T01:46:40Z","lifetime_support_cents":3,
    "next_charge_date":"2001-09-09T01:46:41Z","note":"n","patron_status":"declined_patron",
    "pledge_cadence":12,"pledge_relationship_start":"2001-09-09T01:46:42Z",
    "will_pay_amount_cents":4}}"#;

const ERRORS: &str = r#"{"errors":[{"code":1,"code_name":"Unauthorized","detail":"no token","status":"401"},{"code":2}]}"#;

fn api() -> PatreonApi {
    PatreonApi { access_token: "token".to_string() }
}

fn reply(status: u16, text: &str) -> ApiReply {
    ApiReply { status, text: text.to_string() }
}

fn whole(v: i64) -> Json {
    Json::Number(JsonNumber { integer: Some(v), text: v.to_string() })
}

fn listed_errors() -> Vec<ApiError> {
    vec![
        ApiError {
            payload: Json::Object(vec![
                ("code".to_string(), whole(1)),
                ("code_name".to_string(), Json::Str("Unauthorized".to_string())),
                ("detail".to_string(), Json::Str("no token".to_string())),
                ("status".to_string(), Json::Str("401".to_string())),
            ]),
        },
        ApiError { payload: Json::Object(vec![("code".to_string(), whole(2))]) },
    ]
}

fn wrong(expected: JsonKind, found: JsonKind) -> PatreonError {
    PatreonError::Decode(DecodeError::InvalidType { expected, found })
}

#[test]
fn success_is_200_to_299() {
    assert!(!is_success(0));
    assert!(!is_success(100));
    assert!(!is_success(199));
    assert!(is_success(200));
    assert!(is_success(204));
    assert!(is_success(299));
    assert!(!is_success(300));
    assert!(!is_success(404));
    assert!(!is_success(500));
    assert!(!is_success(u16::MAX));
}

#[test]
fn body_of_a_success_is_handed_on_as_it_is() {
    assert_eq!(api().api_call(reply(200, "not even json")), Ok("not even json".to_string()));
    assert_eq!(api().api_call(reply(299, ERRORS)), Ok(ERRORS.to_string()));
    assert_eq!(api().api_call(reply(204, "")), Ok(String::new()));
}

#[test]
fn failure_carries_status_and_listed_errors() {
    assert_eq!(
        api().api_call(reply(401, ERRORS)),
        Err(PatreonError::PatreonApi(401, listed_errors()))
    );
    assert_eq!(
        api().call_data::<User>(reply(500, ERRORS)),
        Err(PatreonError::PatreonApi(500, listed_errors()))
    );
    assert_eq!(
        api().call_data_and_include::<User, Member>(reply(300, ERRORS)),
        Err(PatreonError::PatreonApi(300, listed_errors()))
    );
    assert_eq!(
        api().identity_and_member(reply(199, ERRORS)),
        Err(PatreonError::PatreonApi(199, listed_errors()))
    );
}

#[test]
fn failure_may_list_no_error() {
    assert_eq!(
        api().api_call(reply(404, r#"{"errors":[]}"#)),
        Err(PatreonError::PatreonApi(404, Vec::new()))
    );
}

#[test]
fn failure_with_a_body_that_is_no_json_is_a_decode_error() {
    for body in ["", "<html>", "{\"errors\":[{\"code\":1}"] {
        assert!(matches!(
            api().api_call(reply(502, body)),
            Err(PatreonError::Decode(DecodeError::Syntax(_)))
        ));
    }
}

#[test]
fn one_reply_is_read_as_one_result() {
    let other = PatreonApi { access_token: "another".to_string() };
    for (status, body) in [(200, "x"), (401, ERRORS), (502, ""), (502, "<html>"), (400, "{}")] {
        assert_eq!(api().api_call(reply(status, body)), other.api_call(reply(status, body)));
        assert_eq!(
            api().call_data::<User>(reply(status, body)),
            api().identity(reply(status, body))
        );
        assert_eq!(
            api().call_data::<User>(reply(status, body)),
            other.current_user(reply(status, body))
        );
    }
}

#[test]
fn failure_is_handed_on_unchanged() {
    for (status, body) in [(401, ERRORS), (502, ""), (502, "{\"errors\":[{\"code\":1}"), (400, "{}")] {
        let failed = api().api_call(reply(status, body)).unwrap_err();
        assert_eq!(api().call_data::<User>(reply(status, body)), Err(failed));
        let failed = api().api_call(reply(status, body)).unwrap_err();
        assert_eq!(api().identity_and_member(reply(status, body)), Err(failed));
    }
    assert_eq!(
        api().call_data::<User>(reply(502, "")),
        Err(PatreonError::Decode(DecodeError::Syntax(
            "EOF while parsing a value at line 1 column 0".to_string()
        )))
    );
}

#[test]
fn failure_without_a_list_of_errors_is_a_decode_error() {
    assert_eq!(
        api().api_call(reply(400, "{}")),
        Err(PatreonError::Decode(DecodeError::MissingField("errors")))
    );
    assert_eq!(
        api().api_call(reply(400, r#"{"errors":{}}"#)),
        Err(wrong(JsonKind::Array, JsonKind::Object))
    );
    assert_eq!(api().api_call(reply(400, "[]")), Err(wrong(JsonKind::Object, JsonKind::Array)));
}

#[test]
fn errors_are_taken_out_in_order() {
    assert_eq!(decode_errors(parse(ERRORS).unwrap()), Ok(listed_errors()));
    assert_eq!(
        decode_errors(parse(r#"{"errors":[3,null,"x"]}"#).unwrap()),
        Ok(vec![
            ApiError { payload: whole(3) },
            ApiError { payload: Json::Null },
            ApiError { payload: Json::Str("x".to_string()) },
        ])
    );
    assert_eq!(decode_errors(Json::Null), Err(DecodeError::InvalidType {
        expected: JsonKind::Object,
        found: JsonKind::Null
    }));
}

#[test]
fn current_user_is_read_from_a_success() {
    let body = format!("{{\"data\":{}}}", USER_DATA);
    let user = api().current_user(reply(200, &body)).unwrap();
    assert_eq!(user.document_type, "user");
    assert_eq!(user.id, "42");
    assert_eq!(user.attributes.first_name, "Grace");
    assert_eq!(user.attributes.last_name, "Hopper");
    assert_eq!(user.attributes.full_name, "Grace Hopper");
    assert_eq!(user.attributes.vanity, None);
    assert_eq!(user.attributes.email, "grace@example.com");
    assert_eq!(user.attributes.created, Timestamp { secs: 1_000_000_000, nanos: 0 });
    assert_eq!(api().identity(reply(201, &body)), Ok(user));
}

#[test]
fn identity_with_memberships_is_read_from_a_success() {
    let body = format!("{{\"data\":{},\"include\":[{},{}]}}", USER_DATA, MEMBER_DATA, MEMBER_DATA);
    let (user, members) = api().identity_and_member(reply(200, &body)).unwrap();
    assert_eq!(user.id, "42");
    assert_eq!(members.len(), 2);
    assert_eq!(members[0], members[1]);
    assert_eq!(members[0].id, "m");
    assert_eq!(members[0].attributes.patron_status, Some(PatronStatus::DeclinedPatron));
    assert_eq!(members[0].attributes.last_charge_status, None);
    assert_eq!(members[0].attributes.email, None);
    assert_eq!(members[0].attributes.pledge_cadence, 12);
    assert_eq!(
        members[0].attributes.pledge_relationship_start,
        Timestamp { secs: 1_000_000_002, nanos: 0 }
    );
}

#[test]
fn truncated_success_is_a_decode_error() {
    let body = format!("{{\"data\":{}}}", USER_DATA);
    let cut = &body[..body.len() - 1];
    assert!(matches!(
        api().current_user(reply(200, cut)),
        Err(PatreonError::Decode(DecodeError::Syntax(_)))
    ));
    assert!(matches!(
        api().call_data::<User>(reply(200, &body[..40])),
        Err(PatreonError::Decode(DecodeError::Syntax(_)))
    ));
    assert!(matches!(
        api().identity_and_member(reply(200, cut)),
        Err(PatreonError::Decode(DecodeError::Syntax(_)))
    ));
}

#[test]
fn success_of_another_shape_is_a_decode_error() {
    assert_eq!(
        api().call_data::<User>(reply(200, ERRORS)),
        Err(PatreonError::Decode(DecodeError::MissingField("data")))
    );
    let body = format!("{{\"data\":{}}}", USER_DATA);
    assert_eq!(
        api().identity_and_member(reply(200, &body)),
        Err(PatreonError::Decode(DecodeError::MissingField("include")))
    );
    let body = format!("{{\"data\":{},\"include\":[]}}", MEMBER_DATA.replace("declined_patron", "suspended"));
    assert_eq!(
        api().call_data_and_include::<Member, Member>(reply(200, &body)),
        Err(PatreonError::Decode(DecodeError::UnknownVariant {
            enumeration: "PatronStatus",
            value: "suspended".to_string()
        }))
    );
}
