//! The two records of the API: the identity of a user and a membership.

use vstd::prelude::*;

use crate::closed_enum::spec_decode;
use crate::decode::{optional, required, spec_optional, spec_required, wrong_kind, FromJson};
use crate::json::member;
use crate::document::ApiDocument;
use crate::error::{DecodeError, JsonKind};
use crate::json::Json;
use crate::status::{LastChrgeStatus, PatronStatus};
use crate::timestamp::Timestamp;

verus! {

/// The document of a user.
pub type User = ApiDocument<UserAttributes>;

/// The document of a membership.
pub type Member = ApiDocument<MemberAttributes>;

/// The attributes of a user: names, contact, handles on other sites, profile
/// address and time of creation.
#[derive(Clone, Debug, Default, PartialEq)]
pub struct UserAttributes {
    pub first_name: String,
    pub last_name: String,
    pub full_name: String,
    pub vanity: Option<String>,
    pub email: String,
    pub about: Option<String>,
    pub facebook_id: Option<String>,
    pub image_url: String,
    pub thumb_url: String,
    pub youtube: Option<String>,
    pub twitter: Option<String>,
    pub facebook: Option<String>,
    pub created: Timestamp,
    pub url: String,
}

/// The attributes of a membership. Amounts are in the minor unit of the
/// currency.
#[derive(Clone, Debug, Default, PartialEq)]
pub struct MemberAttributes {
    pub campaign_lifetime_support_cents: i64,
    pub currently_entitled_amount_cents: i64,
    pub email: Option<String>,
    pub full_name: String,
    pub is_follower: bool,
    pub last_charge_date: Timestamp,
    pub last_charge_status: Option<LastChrgeStatus>,
    pub lifetime_support_cents: i64,
    pub next_charge_date: Timestamp,
    pub note: String,
    pub patron_status: Option<PatronStatus>,
    pub pledge_cadence: i64,
    pub pledge_relationship_start: Timestamp,
    pub will_pay_amount_cents: i64,
}

impl FromJson for UserAttributes {
    /// An object that holds each member of the record under the name of its
    /// field. The members are read in the order of the fields, and the first
    /// that fails gives the failure; members of other names are passed over.
    open spec fn spec_from_json(j: Json) -> Result<Self, DecodeError> {
        match j {
            Json::Object(fields) => {
                let first_name = spec_required::<String>(fields@, "first_name");
                let last_name = spec_required::<String>(fields@, "last_name");
                let full_name = spec_required::<String>(fields@, "full_name");
                let vanity = spec_optional::<String>(fields@, "vanity");
                let email = spec_required::<String>(fields@, "email");
                let about = spec_optional::<String>(fields@, "about");
                let facebook_id = spec_optional::<String>(fields@, "facebook_id");
                let image_url = spec_required::<String>(fields@, "image_url");
                let thumb_url = spec_required::<String>(fields@, "thumb_url");
                let youtube = spec_optional::<String>(fields@, "youtube");
                let twitter = spec_optional::<String>(fields@, "twitter");
                let facebook = spec_optional::<String>(fields@, "facebook");
                let created = spec_required::<Timestamp>(fields@, "created");
                let url = spec_required::<String>(fields@, "url");
                if first_name is Err {
                    Err(first_name->Err_0)
                } else if last_name is Err {
                    Err(last_name->Err_0)
                } else if full_name is Err {
                    Err(full_name->Err_0)
                } else if vanity is Err {
                    Err(vanity->Err_0)
                } else if email is Err {
                    Err(email->Err_0)
                } else if about is Err {
                    Err(about->Err_0)
                } else if facebook_id is Err {
                    Err(facebook_id->Err_0)
                } else if image_url is Err {
                    Err(image_url->Err_0)
                } else if thumb_url is Err {
                    Err(thumb_url->Err_0)
                } else if youtube is Err {
                    Err(youtube->Err_0)
                } else if twitter is Err {
                    Err(twitter->Err_0)
                } else if facebook is Err {
                    Err(facebook->Err_0)
                } else if created is Err {
                    Err(created->Err_0)
                } else if url is Err {
                    Err(url->Err_0)
                } else {
                    Ok(
                        UserAttributes {
                            first_name: first_name->Ok_0,
                            last_name: last_name->Ok_0,
                            full_name: full_name->Ok_0,
                            vanity: vanity->Ok_0,
                            email: email->Ok_0,
                            about: about->Ok_0,
                            facebook_id: facebook_id->Ok_0,
                            image_url: image_url->Ok_0,
                            thumb_url: thumb_url->Ok_0,
                            youtube: youtube->Ok_0,
                            twitter: twitter->Ok_0,
                            facebook: facebook->Ok_0,
                            created: created->Ok_0,
                            url: url->Ok_0,
                        },
                    )
                }
            },
            _ => Err(wrong_kind(JsonKind::Object, j)),
        }
    }

    fn from_json(j: &Json) -> (r: Result<Self, DecodeError>) {
        match j {
            Json::Object(fields) => {
                let first_name = required::<String>(fields, "first_name")?;
                let last_name = required::<String>(fields, "last_name")?;
                let full_name = required::<String>(fields, "full_name")?;
                let vanity = optional::<String>(fields, "vanity")?;
                let email = required::<String>(fields, "email")?;
                let about = optional::<String>(fields, "about")?;
                let facebook_id = optional::<String>(fields, "facebook_id")?;
                let image_url = required::<String>(fields, "image_url")?;
                let thumb_url = required::<String>(fields, "thumb_url")?;
                let youtube = optional::<String>(fields, "youtube")?;
                let twitter = optional::<String>(fields, "twitter")?;
                let facebook = optional::<String>(fields, "facebook")?;
                let created = required::<Timestamp>(fields, "created")?;
                let url = required::<String>(fields, "url")?;
                Ok(
                    UserAttributes {
                        first_name,
                        last_name,
                        full_name,
                        vanity,
                        email,
                        about,
                        facebook_id,
                        image_url,
                        thumb_url,
                        youtube,
                        twitter,
                        facebook,
                        created,
                        url,
                    },
                )
            },
            _ => Err(DecodeError::InvalidType { expected: JsonKind::Object, found: j.kind() }),
        }
    }
}

impl FromJson for MemberAttributes {
    /// An object that holds each member of the record under the name of its
    /// field. The members are read in the order of the fields, and the first
    /// that fails gives the failure; members of other names are passed over.
    open spec fn spec_from_json(j: Json) -> Result<Self, DecodeError> {
        match j {
            Json::Object(fields) => {
                let campaign_lifetime_support_cents = spec_required::<i64>(fields@, "campaign_lifetime_support_cents");
                let currently_entitled_amount_cents = spec_required::<i64>(fields@, "currently_entitled_amount_cents");
                let email = spec_optional::<String>(fields@, "email");
                let full_name = spec_required::<String>(fields@, "full_name");
                let is_follower = spec_required::<bool>(fields@, "is_follower");
                let last_charge_date = spec_required::<Timestamp>(fields@, "last_charge_date");
                let last_charge_status = spec_optional::<LastChrgeStatus>(fields@, "last_charge_status");
                let lifetime_support_cents = spec_required::<i64>(fields@, "lifetime_support_cents");
                let next_charge_date = spec_required::<Timestamp>(fields@, "next_charge_date");
                let note = spec_required::<String>(fields@, "note");
                let patron_status = spec_optional::<PatronStatus>(fields@, "patron_status");
                let pledge_cadence = spec_required::<i64>(fields@, "pledge_cadence");
                let pledge_relationship_start = spec_required::<Timestamp>(fields@, "pledge_relationship_start");
                let will_pay_amount_cents = spec_required::<i64>(fields@, "will_pay_amount_cents");
                if campaign_lifetime_support_cents is Err {
                    Err(campaign_lifetime_support_cents->Err_0)
                } else if currently_entitled_amount_cents is Err {
                    Err(currently_entitled_amount_cents->Err_0)
                } else if email is Err {
                    Err(email->Err_0)
                } else if full_name is Err {
                    Err(full_name->Err_0)
                } else if is_follower is Err {
                    Err(is_follower->Err_0)
                } else if last_charge_date is Err {
                    Err(last_charge_date->Err_0)
                } else if last_charge_status is Err {
                    Err(last_charge_status->Err_0)
                } else if lifetime_support_cents is Err {
                    Err(lifetime_support_cents->Err_0)
                } else if next_charge_date is Err {
                    Err(next_charge_date->Err_0)
                } else if note is Err {
                    Err(note->Err_0)
                } else if patron_status is Err {
                    Err(patron_status->Err_0)
                } else if pledge_cadence is Err {
                    Err(pledge_cadence->Err_0)
                } else if pledge_relationship_start is Err {
                    Err(pledge_relationship_start->Err_0)
                } else if will_pay_amount_cents is Err {
                    Err(will_pay_amount_cents->Err_0)
                } else {
                    Ok(
                        MemberAttributes {
                            campaign_lifetime_support_cents: campaign_lifetime_support_cents->Ok_0,
                            currently_entitled_amount_cents: currently_entitled_amount_cents->Ok_0,
                            email: email->Ok_0,
                            full_name: full_name->Ok_0,
                            is_follower: is_follower->Ok_0,
                            last_charge_date: last_charge_date->Ok_0,
                            last_charge_status: last_charge_status->Ok_0,
                            lifetime_support_cents: lifetime_support_cents->Ok_0,
                            next_charge_date: next_charge_date->Ok_0,
                            note: note->Ok_0,
                            patron_status: patron_status->Ok_0,
                            pledge_cadence: pledge_cadence->Ok_0,
                            pledge_relationship_start: pledge_relationship_start->Ok_0,
                            will_pay_amount_cents: will_pay_amount_cents->Ok_0,
                        },
                    )
                }
            },
            _ => Err(wrong_kind(JsonKind::Object, j)),
        }
    }

    fn from_json(j: &Json) -> (r: Result<Self, DecodeError>) {
        match j {
            Json::Object(fields) => {
                let campaign_lifetime_support_cents = required::<i64>(fields, "campaign_lifetime_support_cents")?;
                let currently_entitled_amount_cents = required::<i64>(fields, "currently_entitled_amount_cents")?;
                let email = optional::<String>(fields, "email")?;
                let full_name = required::<String>(fields, "full_name")?;
                let is_follower = required::<bool>(fields, "is_follower")?;
                let last_charge_date = required::<Timestamp>(fields, "last_charge_date")?;
                let last_charge_status = optional::<LastChrgeStatus>(fields, "last_charge_status")?;
                let lifetime_support_cents = required::<i64>(fields, "lifetime_support_cents")?;
                let next_charge_date = required::<Timestamp>(fields, "next_charge_date")?;
                let note = required::<String>(fields, "note")?;
                let patron_status = optional::<PatronStatus>(fields, "patron_status")?;
                let pledge_cadence = required::<i64>(fields, "pledge_cadence")?;
                let pledge_relationship_start = required::<Timestamp>(fields, "pledge_relationship_start")?;
                let will_pay_amount_cents = required::<i64>(fields, "will_pay_amount_cents")?;
                Ok(
                    MemberAttributes {
                        campaign_lifetime_support_cents,
                        currently_entitled_amount_cents,
                        email,
                        full_name,
                        is_follower,
                        last_charge_date,
                        last_charge_status,
                        lifetime_support_cents,
                        next_charge_date,
                        note,
                        patron_status,
                        pledge_cadence,
                        pledge_relationship_start,
                        will_pay_amount_cents,
                    },
                )
            },
            _ => Err(DecodeError::InvalidType { expected: JsonKind::Object, found: j.kind() }),
        }
    }
}

/// A membership whose `patron_status` or `last_charge_status` is a string
/// outside the literals of its enumeration does not decode: no symbol stands
/// in for the string.
pub proof fn lemma_unknown_status_fails(j: Json, text: String)
    requires
        j matches Json::Object(fields) && ({
            ||| member(fields@, "patron_status"@) == Some(Json::Str(text)) && spec_decode::<
                PatronStatus,
            >(text@) is None
            ||| member(fields@, "last_charge_status"@) == Some(Json::Str(text)) && spec_decode::<
                LastChrgeStatus,
            >(text@) is None
        }),
    ensures
        MemberAttributes::spec_from_json(j) is Err,
{
}

} // verus!
