use patreon::closed_enum::{decode, lookup, ClosedEnum};
use patreon::error::DecodeError;
use patreon::status::{IdentityIncldue, LastChrgeStatus, PatronStatus};

fn unknown(enumeration: &'static str, value: &str) -> DecodeError {
    DecodeError::UnknownVariant { enumeration, value: value.to_string() }
}

#[test]
fn patron_status_round_trip() {
    for s in [PatronStatus::ActivePatron, PatronStatus::DeclinedPatron, PatronStatus::FormerPatron] {
        assert_eq!(decode::<PatronStatus>(s.as_str()), Ok(s));
    }
}

#[test]
fn last_charge_status_round_trip() {
    for i in 0..LastChrgeStatus::count() {
        let s = LastChrgeStatus::symbol(i);
        assert_eq!(decode::<LastChrgeStatus>(s.as_str()), Ok(s));
    }
}

#[test]
fn identity_relation_round_trip() {
    for s in [IdentityIncldue::Memberships, IdentityIncldue::Campaign] {
        assert_eq!(decode::<IdentityIncldue>(s.as_str()), Ok(s));
    }
}

#[test]
fn patron_status_literals() {
    assert_eq!(PatronStatus::ActivePatron.as_str(), "active_patron");
    assert_eq!(PatronStatus::DeclinedPatron.as_str(), "declined_patron");
    assert_eq!(PatronStatus::FormerPatron.as_str(), "former_patron");
}

#[test]
fn last_charge_status_literals_are_lower_case_names() {
    assert_eq!(LastChrgeStatus::Paid.as_str(), "paid");
    assert_eq!(LastChrgeStatus::Declined.as_str(), "declined");
    assert_eq!(LastChrgeStatus::Deleted.as_str(), "deleted");
    assert_eq!(LastChrgeStatus::Pending.as_str(), "pending");
    assert_eq!(LastChrgeStatus::Refunded.as_str(), "refunded");
    assert_eq!(LastChrgeStatus::Fraud.as_str(), "fraud");
    assert_eq!(LastChrgeStatus::Other.as_str(), "other");
    for i in 0..LastChrgeStatus::count() {
        let s = LastChrgeStatus::symbol(i);
        assert_eq!(s.as_str(), format!("{:?}", s).to_ascii_lowercase());
    }
}

#[test]
fn identity_relation_literals() {
    assert_eq!(IdentityIncldue::Memberships.as_str(), "memberships");
    assert_eq!(IdentityIncldue::Campaign.as_str(), "campaign");
}

#[test]
fn tables_hold_every_symbol_once() {
    assert_eq!(PatronStatus::count(), 3);
    assert_eq!(LastChrgeStatus::count(), 7);
    assert_eq!(IdentityIncldue::count(), 2);
    for i in 0..LastChrgeStatus::count() {
        for k in 0..LastChrgeStatus::count() {
            assert_eq!(LastChrgeStatus::symbol(i) == LastChrgeStatus::symbol(k), i == k);
        }
    }
    assert_eq!(PatronStatus::symbol(0), PatronStatus::ActivePatron);
    assert_eq!(PatronStatus::symbol(1), PatronStatus::DeclinedPatron);
    assert_eq!(PatronStatus::symbol(2), PatronStatus::FormerPatron);
    assert_eq!(IdentityIncldue::symbol(0), IdentityIncldue::Memberships);
    assert_eq!(IdentityIncldue::symbol(1), IdentityIncldue::Campaign);
}

#[test]
fn decoding_is_case_sensitive() {
    assert_eq!(decode::<PatronStatus>("ACTIVE_PATRON"), Err(unknown("PatronStatus", "ACTIVE_PATRON")));
    assert_eq!(decode::<PatronStatus>("Active_Patron"), Err(unknown("PatronStatus", "Active_Patron")));
    assert_eq!(decode::<LastChrgeStatus>("Paid"), Err(unknown("LastChrgeStatus", "Paid")));
}

#[test]
fn decoding_does_not_trim() {
    assert_eq!(decode::<LastChrgeStatus>(" paid"), Err(unknown("LastChrgeStatus", " paid")));
    assert_eq!(decode::<LastChrgeStatus>("paid "), Err(unknown("LastChrgeStatus", "paid ")));
    assert_eq!(decode::<LastChrgeStatus>("paid\n"), Err(unknown("LastChrgeStatus", "paid\n")));
}

#[test]
fn decoding_rejects_what_is_no_literal() {
    assert_eq!(decode::<PatronStatus>(""), Err(unknown("PatronStatus", "")));
    assert_eq!(decode::<PatronStatus>("suspended"), Err(unknown("PatronStatus", "suspended")));
    assert_eq!(decode::<PatronStatus>("active"), Err(unknown("PatronStatus", "active")));
    assert_eq!(decode::<PatronStatus>("active_patrons"), Err(unknown("PatronStatus", "active_patrons")));
    assert_eq!(decode::<IdentityIncldue>("membership"), Err(unknown("IdentityIncldue", "membership")));
    assert_eq!(decode::<LastChrgeStatus>("p\u{e4}id"), Err(unknown("LastChrgeStatus", "p\u{e4}id")));
}

#[test]
fn enumerations_do_not_interfere() {
    assert_eq!(decode::<LastChrgeStatus>("declined"), Ok(LastChrgeStatus::Declined));
    assert_eq!(decode::<PatronStatus>("declined"), Err(unknown("PatronStatus", "declined")));
    assert_eq!(decode::<PatronStatus>("declined_patron"), Ok(PatronStatus::DeclinedPatron));
    assert_eq!(
        decode::<LastChrgeStatus>("declined_patron"),
        Err(unknown("LastChrgeStatus", "declined_patron"))
    );
}

#[test]
fn lookup_finds_exactly_the_literals() {
    assert_eq!(lookup::<LastChrgeStatus>("refunded"), Some(LastChrgeStatus::Refunded));
    assert_eq!(lookup::<LastChrgeStatus>("refund"), None);
    assert_eq!(lookup::<IdentityIncldue>("campaign"), Some(IdentityIncldue::Campaign));
    assert_eq!(lookup::<IdentityIncldue>("Campaign"), None);
}

#[test]
fn unknown_variant_names_enumeration_and_string() {
    let e = decode::<PatronStatus>("suspended").unwrap_err();
    assert_eq!(e.message(), "unknown PatronStatus variant: suspended");
    assert_eq!(PatronStatus::name(), "PatronStatus");
    assert_eq!(LastChrgeStatus::name(), "LastChrgeStatus");
    assert_eq!(IdentityIncldue::name(), "IdentityIncldue");
}
