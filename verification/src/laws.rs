//! What holds of symbols whatever text they were built from, proved from
//! the contracts of the functions involved.

use crate::order::{precedes_asymmetric, precedes_total, precedes_transitive, text_order};
use crate::pattern::matches_pattern;
use crate::symbol::{IntoText, Symbol, SymbolError};
use core::cmp::Ordering;
use vstd::prelude::*;
use vstd::std_specs::cmp::{PartialEqSpec, PartialOrdSpec};

verus! {

/// `Symbol::try_new` accepts a text exactly when `Symbol::is_valid` says
/// that it is valid, and the symbol it builds holds that text unchanged.
pub proof fn construction_agrees_with_validation<S: IntoText>(
    value: S,
    s: &str,
    ok: bool,
    r: Result<Symbol, SymbolError>,
)
    requires
        s@ == value.text(),
        call_ensures(Symbol::is_valid, (s,), ok),
        call_ensures(Symbol::try_new::<S>, (value,), r),
    ensures
        r is Ok <==> ok,
        r matches Ok(symbol) ==> symbol@ == s@,
{
}

/// Reading a symbol gives back the text that it was built from.
pub proof fn construction_round_trips<S: IntoText>(
    value: S,
    r: Result<Symbol, SymbolError>,
    text: &str,
)
    requires
        call_ensures(Symbol::try_new::<S>, (value,), r),
        r is Ok,
        call_ensures(Symbol::as_str, (&r->Ok_0,), text),
    ensures
        text@ == value.text(),
        matches_pattern(text@),
{
}

/// Two rejected texts are rejected with the same error.
pub proof fn rejections_are_alike<S: IntoText, T: IntoText>(
    first: S,
    second: T,
    r1: Result<Symbol, SymbolError>,
    r2: Result<Symbol, SymbolError>,
)
    requires
        !matches_pattern(first.text()),
        !matches_pattern(second.text()),
        call_ensures(Symbol::try_new::<S>, (first,), r1),
        call_ensures(Symbol::try_new::<T>, (second,), r2),
    ensures
        r1 is Err,
        r2 is Err,
        r1->Err_0 == r2->Err_0,
{
}

/// `==` on symbols is equality of their text, and so reflexive, symmetric
/// and transitive.
pub proof fn equality_is_equivalence(a: Symbol, b: Symbol, c: Symbol)
    ensures
        a.eq_spec(&b) <==> a@ == b@,
        a.eq_spec(&a),
        a.eq_spec(&b) ==> b.eq_spec(&a),
        a.eq_spec(&b) && b.eq_spec(&c) ==> a.eq_spec(&c),
{
}

/// A symbol equals a piece of plain text, borrowed or owned, exactly when
/// the text equals the symbol: both hold when the characters are the same.
pub proof fn equality_with_text_is_mutual(symbol: Symbol, text: &str, owned: String)
    ensures
        symbol.eq_spec(&text) <==> symbol@ == text@,
        PartialEqSpec::eq_spec(&text, &symbol) <==> symbol@ == text@,
        symbol.eq_spec(&owned) <==> symbol@ == owned@,
        owned.eq_spec(&symbol) <==> symbol@ == owned@,
{
}

/// Symbols are ordered as their texts are in lexicographic order, and two
/// symbols compare as equal exactly when `==` holds of them.
pub proof fn order_follows_text(a: Symbol, b: Symbol)
    ensures
        a.partial_cmp_spec(&b) == Some(text_order(a@, b@)),
        a.partial_cmp_spec(&b) == Some(Ordering::Equal) <==> a.eq_spec(&b),
{
}

/// Turning a comparison round turns its outcome round.
pub proof fn order_is_antisymmetric(a: Symbol, b: Symbol)
    ensures
        a.partial_cmp_spec(&b) == Some(Ordering::Less) <==> b.partial_cmp_spec(&a) == Some(
            Ordering::Greater,
        ),
        a.partial_cmp_spec(&b) == Some(Ordering::Equal) <==> b.partial_cmp_spec(&a) == Some(
            Ordering::Equal,
        ),
{
    if a@ != b@ {
        precedes_total(a@, b@);
        if text_order(a@, b@) == Ordering::Less {
            precedes_asymmetric(a@, b@);
        }
    }
}

/// What comes before something that comes before a third comes before the
/// third.
pub proof fn order_is_transitive(a: Symbol, b: Symbol, c: Symbol)
    requires
        a.partial_cmp_spec(&b) == Some(Ordering::Less),
        b.partial_cmp_spec(&c) == Some(Ordering::Less),
    ensures
        a.partial_cmp_spec(&c) == Some(Ordering::Less),
{
    precedes_transitive(a@, b@, c@);
    if a@ == c@ {
        precedes_asymmetric(a@, b@);
    }
}

} // verus!
