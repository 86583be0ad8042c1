//! Closed enumerations: a fixed set of symbols, each bound to one literal.
//!
//! An enumeration is declared by implementing [`ClosedEnum`]: a table of its
//! symbols and the literal of each. A literal is either chosen for its
//! symbol, or it is the symbol's name in lower case ([`lower_case`]).
//! [`decode`] then maps a string back to the symbol it names and rejects
//! every other string.

use vstd::prelude::*;

use crate::error::DecodeError;
use crate::text::str_eq;

verus! {

/// A closed enumeration.
pub trait ClosedEnum: Sized + Copy {
    /// The name under which the enumeration is reported in errors.
    spec fn spec_name() -> &'static str;

    /// The literal bound to a symbol.
    spec fn literal(self) -> Seq<char>;

    /// The table of the enumeration's symbols.
    spec fn spec_symbols() -> Seq<Self>;

    /// The table holds every symbol, and no two symbols share a literal.
    proof fn lemma_table()
        ensures
            forall|s: Self| #[trigger] Self::spec_symbols().contains(s),
            forall|a: Self, b: Self| #[trigger] a.literal() == #[trigger] b.literal() ==> a == b,
    ;

    /// The enumeration's name.
    fn name() -> (n: &'static str)
        ensures
            n == Self::spec_name(),
    ;

    /// The number of symbols.
    fn count() -> (n: usize)
        ensures
            n == Self::spec_symbols().len(),
    ;

    /// The symbol at a position of the table.
    fn symbol(i: usize) -> (s: Self)
        requires
            i < Self::spec_symbols().len(),
        ensures
            s == Self::spec_symbols()[i as int],
    ;

    /// Encodes a symbol: its literal.
    fn as_str(&self) -> (s: &'static str)
        ensures
            s@ == self.literal(),
    ;
}

/// A name in lower case: its ASCII capitals made small, all else kept. An
/// enumeration whose literals are not given one by one binds each symbol to
/// its own name in this form.
pub open spec fn lower_case(name: Seq<char>) -> Seq<char> {
    Seq::new(
        name.len(),
        |i: int|
            if 'A' <= name[i] && name[i] <= 'Z' {
                ((name[i] as u8 + 32) as u8) as char
            } else {
                name[i]
            },
    )
}

/// Whether a string is the literal of some symbol of `E`.
pub open spec fn is_literal<E: ClosedEnum>(text: Seq<char>) -> bool {
    exists|s: E| #[trigger] s.literal() == text
}

/// What a string decodes to: the symbol whose literal it is, if there is one.
/// The match is exact: case counts and nothing is trimmed.
pub open spec fn spec_decode<E: ClosedEnum>(text: Seq<char>) -> Option<E> {
    if is_literal::<E>(text) {
        Some(choose|s: E| #[trigger] s.literal() == text)
    } else {
        None
    }
}

/// Whether an error reports that `text` is no literal of the enumeration
/// called `name`.
pub open spec fn is_unknown_variant(e: DecodeError, name: &'static str, text: Seq<char>) -> bool {
    e matches DecodeError::UnknownVariant { enumeration, value } && enumeration == name && value@
        == text
}

/// Looks a string up in the table of `E`.
pub fn lookup<E: ClosedEnum>(text: &str) -> (r: Option<E>)
    ensures
        r == spec_decode::<E>(text@),
{
    let n = E::count();
    let mut i: usize = 0;
    while i < n
        invariant
            i <= n,
            n == E::spec_symbols().len(),
            forall|k: int| 0 <= k < i ==> (#[trigger] E::spec_symbols()[k]).literal() != text@,
        decreases n - i,
    {
        let s = E::symbol(i);
        if str_eq(s.as_str(), text) {
            proof {
                E::lemma_table();
            }
            return Some(s);
        }
        i += 1;
    }
    proof {
        E::lemma_table();
        assert forall|s: E| #[trigger] s.literal() != text@ by {
            assert(E::spec_symbols().contains(s));
        }
    }
    None
}

/// Decodes a string into the symbol of `E` that it names.
///
/// Fails on every string that is not one of the enumeration's literals; the
/// error names the enumeration and holds the string.
pub fn decode<E: ClosedEnum>(text: &str) -> (r: Result<E, DecodeError>)
    ensures
        match r {
            Ok(s) => spec_decode::<E>(text@) == Some(s),
            Err(e) => spec_decode::<E>(text@) is None && is_unknown_variant(
                e,
                E::spec_name(),
                text@,
            ),
        },
{
    match lookup::<E>(text) {
        Some(s) => Ok(s),
        None => Err(DecodeError::UnknownVariant { enumeration: E::name(), value: text.to_owned() }),
    }
}

/// Decoding the literal of a symbol gives that symbol back.
pub proof fn lemma_round_trip<E: ClosedEnum>(s: E)
    ensures
        spec_decode::<E>(s.literal()) == Some(s),
{
    E::lemma_table();
}

/// A string outside the literals of `E` decodes to nothing.
pub proof fn lemma_unknown_rejected<E: ClosedEnum>(text: Seq<char>)
    requires
        forall|s: E| #[trigger] s.literal() != text,
    ensures
        spec_decode::<E>(text) is None,
{
}

/// A string decodes to a symbol exactly when it is that symbol's literal.
pub proof fn lemma_decode_exact<E: ClosedEnum>(text: Seq<char>, s: E)
    ensures
        spec_decode::<E>(text) == Some(s) <==> s.literal() == text,
{
    E::lemma_table();
}

} // verus!
