//! The closed enumerations of the API: the relation that a request may ask to
//! embed, and the two states of a membership.

use vstd::prelude::*;

use crate::closed_enum::{lower_case, ClosedEnum};
use crate::decode::{spec_symbol, symbol_from_json, FromJson};
use crate::error::DecodeError;
use crate::json::Json;

verus! {

/// A relation of the identity that the server embeds when asked to.
#[derive(Clone, Copy, Debug, PartialEq, Eq)]
pub enum IdentityIncldue {
    Memberships,
    Campaign,
}

/// How the last charge of a membership ended. The literals are the symbols'
/// names in lower case.
#[derive(Clone, Copy, Debug, PartialEq, Eq)]
pub enum LastChrgeStatus {
    Paid,
    Declined,
    Deleted,
    Pending,
    Refunded,
    Fraud,
    Other,
}

/// Where a member stands as a patron.
#[derive(Clone, Copy, Debug, PartialEq, Eq)]
pub enum PatronStatus {
    ActivePatron,
    DeclinedPatron,
    FormerPatron,
}

impl ClosedEnum for IdentityIncldue {
    open spec fn spec_name() -> &'static str {
        "IdentityIncldue"
    }

    open spec fn literal(self) -> Seq<char> {
        match self {
            IdentityIncldue::Memberships => "memberships"@,
            IdentityIncldue::Campaign => "campaign"@,
        }
    }

    open spec fn spec_symbols() -> Seq<Self> {
        seq![IdentityIncldue::Memberships, IdentityIncldue::Campaign]
    }

    proof fn lemma_table() {
        reveal_strlit("memberships");
        reveal_strlit("campaign");
        assert forall|s: Self| #[trigger] Self::spec_symbols().contains(s) by {
            match s {
                IdentityIncldue::Memberships => assert(Self::spec_symbols()[0] == s),
                IdentityIncldue::Campaign => assert(Self::spec_symbols()[1] == s),
            }
        }
        assert("memberships"@[0] != "campaign"@[0]);
    }

    fn name() -> &'static str {
        "IdentityIncldue"
    }

    fn count() -> usize {
        2
    }

    fn symbol(i: usize) -> Self {
        if i == 0 {
            IdentityIncldue::Memberships
        } else {
            IdentityIncldue::Campaign
        }
    }

    fn as_str(&self) -> &'static str {
        match self {
            IdentityIncldue::Memberships => "memberships",
            IdentityIncldue::Campaign => "campaign",
        }
    }
}

impl ClosedEnum for LastChrgeStatus {
    open spec fn spec_name() -> &'static str {
        "LastChrgeStatus"
    }

    open spec fn literal(self) -> Seq<char> {
        match self {
            LastChrgeStatus::Paid => "paid"@,
            LastChrgeStatus::Declined => "declined"@,
            LastChrgeStatus::Deleted => "deleted"@,
            LastChrgeStatus::Pending => "pending"@,
            LastChrgeStatus::Refunded => "refunded"@,
            LastChrgeStatus::Fraud => "fraud"@,
            LastChrgeStatus::Other => "other"@,
        }
    }

    open spec fn spec_symbols() -> Seq<Self> {
        seq![
            LastChrgeStatus::Paid,
            LastChrgeStatus::Declined,
            LastChrgeStatus::Deleted,
            LastChrgeStatus::Pending,
            LastChrgeStatus::Refunded,
            LastChrgeStatus::Fraud,
            LastChrgeStatus::Other,
        ]
    }

    proof fn lemma_table() {
        reveal_strlit("paid");
        reveal_strlit("declined");
        reveal_strlit("deleted");
        reveal_strlit("pending");
        reveal_strlit("refunded");
        reveal_strlit("fraud");
        reveal_strlit("other");
        assert forall|s: Self| #[trigger] Self::spec_symbols().contains(s) by {
            match s {
                LastChrgeStatus::Paid => assert(Self::spec_symbols()[0] == s),
                LastChrgeStatus::Declined => assert(Self::spec_symbols()[1] == s),
                LastChrgeStatus::Deleted => assert(Self::spec_symbols()[2] == s),
                LastChrgeStatus::Pending => assert(Self::spec_symbols()[3] == s),
                LastChrgeStatus::Refunded => assert(Self::spec_symbols()[4] == s),
                LastChrgeStatus::Fraud => assert(Self::spec_symbols()[5] == s),
                LastChrgeStatus::Other => assert(Self::spec_symbols()[6] == s),
            }
        }
        assert forall|a: Self, b: Self| #[trigger]
            a.literal() == #[trigger] b.literal() implies a == b by {
            // Literals of one length differ in their first character.
            assert("paid"@.len() == 4 && "fraud"@.len() == 5 && "other"@.len() == 5);
            assert("deleted"@.len() == 7 && "pending"@.len() == 7);
            assert("declined"@.len() == 8 && "refunded"@.len() == 8);
            assert("fraud"@[0] != "other"@[0]);
            assert("deleted"@[0] != "pending"@[0]);
            assert("declined"@[0] != "refunded"@[0]);
        }
    }

    fn name() -> &'static str {
        "LastChrgeStatus"
    }

    fn count() -> usize {
        7
    }

    fn symbol(i: usize) -> Self {
        if i == 0 {
            LastChrgeStatus::Paid
        } else if i == 1 {
            LastChrgeStatus::Declined
        } else if i == 2 {
            LastChrgeStatus::Deleted
        } else if i == 3 {
            LastChrgeStatus::Pending
        } else if i == 4 {
            LastChrgeStatus::Refunded
        } else if i == 5 {
            LastChrgeStatus::Fraud
        } else {
            LastChrgeStatus::Other
        }
    }

    fn as_str(&self) -> &'static str {
        match self {
            LastChrgeStatus::Paid => "paid",
            LastChrgeStatus::Declined => "declined",
            LastChrgeStatus::Deleted => "deleted",
            LastChrgeStatus::Pending => "pending",
            LastChrgeStatus::Refunded => "refunded",
            LastChrgeStatus::Fraud => "fraud",
            LastChrgeStatus::Other => "other",
        }
    }
}

impl LastChrgeStatus {
    /// The name of a symbol.
    pub open spec fn symbol_name(self) -> Seq<char> {
        match self {
            LastChrgeStatus::Paid => "Paid"@,
            LastChrgeStatus::Declined => "Declined"@,
            LastChrgeStatus::Deleted => "Deleted"@,
            LastChrgeStatus::Pending => "Pending"@,
            LastChrgeStatus::Refunded => "Refunded"@,
            LastChrgeStatus::Fraud => "Fraud"@,
            LastChrgeStatus::Other => "Other"@,
        }
    }

    /// The literal of each symbol is the symbol's name in lower case.
    pub proof fn lemma_literal_is_lower_case_name(s: Self)
        ensures
            s.literal() == lower_case(s.symbol_name()),
    {
        reveal_strlit("paid");
        reveal_strlit("declined");
        reveal_strlit("deleted");
        reveal_strlit("pending");
        reveal_strlit("refunded");
        reveal_strlit("fraud");
        reveal_strlit("other");
        reveal_strlit("Paid");
        reveal_strlit("Declined");
        reveal_strlit("Deleted");
        reveal_strlit("Pending");
        reveal_strlit("Refunded");
        reveal_strlit("Fraud");
        reveal_strlit("Other");
        assert(s.literal() =~= lower_case(s.symbol_name()));
    }
}

impl ClosedEnum for PatronStatus {
    open spec fn spec_name() -> &'static str {
        "PatronStatus"
    }

    open spec fn literal(self) -> Seq<char> {
        match self {
            PatronStatus::ActivePatron => "active_patron"@,
            PatronStatus::DeclinedPatron => "declined_patron"@,
            PatronStatus::FormerPatron => "former_patron"@,
        }
    }

    open spec fn spec_symbols() -> Seq<Self> {
        seq![PatronStatus::ActivePatron, PatronStatus::DeclinedPatron, PatronStatus::FormerPatron]
    }

    proof fn lemma_table() {
        reveal_strlit("active_patron");
        reveal_strlit("declined_patron");
        reveal_strlit("former_patron");
        assert forall|s: Self| #[trigger] Self::spec_symbols().contains(s) by {
            match s {
                PatronStatus::ActivePatron => assert(Self::spec_symbols()[0] == s),
                PatronStatus::DeclinedPatron => assert(Self::spec_symbols()[1] == s),
                PatronStatus::FormerPatron => assert(Self::spec_symbols()[2] == s),
            }
        }
        assert("active_patron"@[0] != "former_patron"@[0]);
    }

    fn name() -> &'static str {
        "PatronStatus"
    }

    fn count() -> usize {
        3
    }

    fn symbol(i: usize) -> Self {
        if i == 0 {
            PatronStatus::ActivePatron
        } else if i == 1 {
            PatronStatus::DeclinedPatron
        } else {
            PatronStatus::FormerPatron
        }
    }

    fn as_str(&self) -> &'static str {
        match self {
            PatronStatus::ActivePatron => "active_patron",
            PatronStatus::DeclinedPatron => "declined_patron",
            PatronStatus::FormerPatron => "former_patron",
        }
    }
}

impl FromJson for IdentityIncldue {
    open spec fn spec_from_json(j: Json) -> Result<Self, DecodeError> {
        spec_symbol::<IdentityIncldue>(j)
    }

    fn from_json(j: &Json) -> (r: Result<Self, DecodeError>) {
        symbol_from_json::<IdentityIncldue>(j)
    }
}

impl FromJson for LastChrgeStatus {
    open spec fn spec_from_json(j: Json) -> Result<Self, DecodeError> {
        spec_symbol::<LastChrgeStatus>(j)
    }

    fn from_json(j: &Json) -> (r: Result<Self, DecodeError>) {
        symbol_from_json::<LastChrgeStatus>(j)
    }
}

impl FromJson for PatronStatus {
    open spec fn spec_from_json(j: Json) -> Result<Self, DecodeError> {
        spec_symbol::<PatronStatus>(j)
    }

    fn from_json(j: &Json) -> (r: Result<Self, DecodeError>) {
        symbol_from_json::<PatronStatus>(j)
    }
}

} // verus!
