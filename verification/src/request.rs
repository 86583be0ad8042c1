//! The requests of the API: the address of each endpoint and the two headers
//! that every request carries.
//!
//! Addresses are put together by the `url` crate, one step at a time.

use vstd::prelude::*;
use vstd::string::StringExecFns;
use vstd::utf8::encode_utf8;

use crate::closed_enum::ClosedEnum;
use crate::status::IdentityIncldue;

verus! {

/// Where the API lives.
pub const BASE_URI: &'static str = "https://www.patreon.com";

/// The path of the endpoint of the current user.
pub const CURRENT_USER_PATH: &'static str = "/api/oauth2/api/current_user";

/// The path of the endpoint of the identity.
pub const IDENTITY_PATH: &'static str = "api/oauth2/v2/identity";

/// The attributes of a user that a request for the identity asks for.
pub const USER_FIELDS: &'static str =
    "first_name,last_name,full_name,vanity,email,about,image_url,thumb_url,created,url";

/// The attributes of a membership that a request asks for.
pub const MEMBER_FIELDS: &'static str =
    "campaign_lifetime_support_cents,currently_entitled_amount_cents,email,full_name,is_follower,last_charge_date,last_charge_status,lifetime_support_cents,next_charge_date,note,patron_status,pledge_cadence,pledge_relationship_start,will_pay_amount_cents";

/// The attributes of a campaign that a request asks for.
pub const CAMPAIGN_FIELDS: &'static str =
    "created_at,creation_name,discord_server_id,google_analytics_id,has_rss,has_sent_rss_notify,image_small_url,image_url,is_charged_immediately,is_monthly,is_nsfw,main_video_embed,main_video_url,one_liner,patron_count,pay_per_name,pledge_url,published_at,rss_artwork_url,rss_feed_title,show_earnings,summary,thanks_embed,thanks_msg,thanks_video_url,url,vanity";

/// What every request names as its agent.
pub const USER_AGENT: &'static str = "Patreon-rust";

/// The longest text, in bytes, that is handed to the `url` crate in one piece.
pub const MAX_PART: usize = 0x0400_0000;

/// Whether a text is short enough to be handed to the `url` crate.
pub open spec fn fits(text: Seq<char>) -> bool {
    encode_utf8(text).len() <= MAX_PART
}

/// The address that the `url` crate makes of an address by replacing its
/// path; nothing where it does not accept the address.
pub uninterp spec fn url_with_path(url: Seq<char>, path: Seq<char>) -> Option<Seq<char>>;

/// The address that the `url` crate makes of an address by appending one
/// pair to its query; nothing where it does not accept the address.
pub uninterp spec fn url_with_query_pair(
    url: Seq<char>,
    name: Seq<char>,
    value: Seq<char>,
) -> Option<Seq<char>>;

/// The text of an address that may be lacking.
pub open spec fn text_of(url: Option<String>) -> Option<Seq<char>> {
    match url {
        Some(s) => Some(s@),
        None => None,
    }
}

/// `Url::set_path` on the address that `Url::parse` reads from `url`, handed
/// back as text: the outcome is a function of the two texts alone, and it is
/// lacking exactly where `Url::parse` fails. Texts over the bound are kept
/// out, so that the address stays within the 4 GiB that `Url` can hold.
#[verifier::external_body]
fn replace_path(url: &str, path: &str) -> (r: Option<String>)
    requires
        fits(url@),
        fits(path@),
    ensures
        text_of(r) == url_with_path(url@, path@),
{
    let mut parsed = url::Url::parse(url).ok()?;
    parsed.set_path(path);
    Some(String::from(parsed))
}

/// `Url::query_pairs_mut` and `append_pair` of the serializer that it gives,
/// on the address that `Url::parse` reads from `url`, handed back as text: the
/// outcome is a function of the three texts alone, and it is lacking exactly
/// where `Url::parse` fails. Texts over the bound are kept out, so that the
/// address stays within the 4 GiB that `Url` can hold.
#[verifier::external_body]
fn append_query_pair(url: &str, name: &str, value: &str) -> (r: Option<String>)
    requires
        fits(url@),
        fits(name@),
        fits(value@),
    ensures
        text_of(r) == url_with_query_pair(url@, name@, value@),
{
    let mut parsed = url::Url::parse(url).ok()?;
    parsed.query_pairs_mut().append_pair(name, value);
    Some(String::from(parsed))
}

/// Whether a text is short enough to be handed to the `url` crate.
fn is_short(text: &str) -> (short: bool)
    ensures
        short == fits(text@),
{
    text.as_bytes().len() <= MAX_PART
}

/// An address with its path replaced: what the `url` crate makes of the two
/// texts, and nothing where one of them is over the bound.
pub open spec fn spec_with_path(url: Seq<char>, path: Seq<char>) -> Option<Seq<char>> {
    if fits(url) && fits(path) {
        url_with_path(url, path)
    } else {
        None
    }
}

/// An address with one more pair in its query: what the `url` crate makes of
/// the three texts, and nothing where one of them is over the bound.
pub open spec fn spec_with_query_pair(
    url: Seq<char>,
    name: Seq<char>,
    value: Seq<char>,
) -> Option<Seq<char>> {
    if fits(url) && fits(name) && fits(value) {
        url_with_query_pair(url, name, value)
    } else {
        None
    }
}

/// A further pair in the query of an address that may be lacking.
pub open spec fn and_pair(url: Option<Seq<char>>, name: Seq<char>, value: Seq<char>) -> Option<
    Seq<char>,
> {
    match url {
        Some(u) => spec_with_query_pair(u, name, value),
        None => None,
    }
}

/// Replaces the path of an address.
pub fn with_path(url: &str, path: &str) -> (r: Option<String>)
    ensures
        text_of(r) == spec_with_path(url@, path@),
{
    if is_short(url) && is_short(path) {
        replace_path(url, path)
    } else {
        None
    }
}

/// Appends a pair to the query of an address.
pub fn with_query_pair(url: &str, name: &str, value: &str) -> (r: Option<String>)
    ensures
        text_of(r) == spec_with_query_pair(url@, name@, value@),
{
    if is_short(url) && is_short(name) && is_short(value) {
        append_query_pair(url, name, value)
    } else {
        None
    }
}

/// The address of the endpoint of the current user.
pub open spec fn spec_current_user_url() -> Option<Seq<char>> {
    spec_with_path(BASE_URI@, CURRENT_USER_PATH@)
}

/// The address of the endpoint of the identity: it asks for the attributes
/// of the user and, where a relation is to be embedded, names the relation
/// and asks for the attributes of what it embeds.
pub open spec fn spec_identity_url(related: Option<IdentityIncldue>) -> Option<Seq<char>> {
    let user = and_pair(spec_with_path(BASE_URI@, IDENTITY_PATH@), "fields[user]"@, USER_FIELDS@);
    match related {
        None => user,
        Some(relation) => {
            let named = and_pair(user, "include"@, relation.literal());
            match relation {
                IdentityIncldue::Memberships => and_pair(named, "fields[member]"@, MEMBER_FIELDS@),
                IdentityIncldue::Campaign => and_pair(
                    named,
                    "fields[campaign]"@,
                    CAMPAIGN_FIELDS@,
                ),
            }
        },
    }
}

/// Makes the address of the endpoint of the current user.
pub fn current_user_url() -> (r: Option<String>)
    ensures
        text_of(r) == spec_current_user_url(),
{
    with_path(BASE_URI, CURRENT_USER_PATH)
}

/// Makes the address of the endpoint of the identity.
pub fn identity_url(related: Option<IdentityIncldue>) -> (r: Option<String>)
    ensures
        text_of(r) == spec_identity_url(related),
{
    let url = with_path(BASE_URI, IDENTITY_PATH)?;
    let url = with_query_pair(url.as_str(), "fields[user]", USER_FIELDS)?;
    match related {
        None => Some(url),
        Some(relation) => {
            let url = with_query_pair(url.as_str(), "include", relation.as_str())?;
            match relation {
                IdentityIncldue::Memberships => with_query_pair(
                    url.as_str(),
                    "fields[member]",
                    MEMBER_FIELDS,
                ),
                IdentityIncldue::Campaign => with_query_pair(
                    url.as_str(),
                    "fields[campaign]",
                    CAMPAIGN_FIELDS,
                ),
            }
        },
    }
}

/// A request of the API, as plain values: every request is a `GET` of an
/// address and carries the two headers `Authorization` and `User-Agent`.
#[derive(Clone, Debug, PartialEq, Eq)]
pub struct ApiRequest {
    pub url: String,
    pub authorization: String,
    pub user_agent: &'static str,
}

/// The value of the header `Authorization` for an access token.
pub fn bearer(access_token: &str) -> (value: String)
    ensures
        value@ == "Bearer "@ + access_token@,
{
    let mut value = String::from_str("Bearer ");
    value.append(access_token);
    value
}

} // verus!
