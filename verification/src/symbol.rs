//! The validated identifier type, its error, and the conversions and
//! comparisons between symbols and plain text.

use crate::order::{compare_text, same_text, text_order};
use crate::pattern::{is_lower, is_tail, matches_pattern};
use core::cmp::Ordering;
use vstd::prelude::*;
use vstd::std_specs::iter::IteratorSpec;

verus! {

/// The one way in which building a [`Symbol`] fails: the text does not
/// match `^[a-z][a-z0-9_]*$`. Every such failure gives the same value.
#[derive(Debug, PartialEq, Eq, Structural)]
pub struct SymbolError;

/// What [`SymbolError::to_string`] says.
pub const INVALID_FORMAT: &'static str = "value must match ^[a-z][a-z0-9_]*$";

impl SymbolError {
    /// The message of the error, the same for every rejected input.
    pub fn to_string(&self) -> (message: String)
        ensures
            message@ == INVALID_FORMAT@,
    {
        INVALID_FORMAT.to_owned()
    }
}

impl Clone for SymbolError {
    fn clone(&self) -> (copy: Self)
        ensures
            copy == *self,
    {
        SymbolError
    }
}

/// Text that can be given away as an owned `String`: what
/// [`Symbol::try_new`] takes.
pub trait IntoText: Sized {
    /// The characters that `into_text` hands over.
    spec fn text(&self) -> Seq<char>;

    /// Gives the text away, with no character changed.
    fn into_text(self) -> (owned: String)
        ensures
            owned@ == self.text(),
    ;
}

impl IntoText for String {
    open spec fn text(&self) -> Seq<char> {
        self@
    }

    fn into_text(self) -> (owned: String) {
        self
    }
}

impl<'a> IntoText for &'a str {
    open spec fn text(&self) -> Seq<char> {
        self@
    }

    fn into_text(self) -> (owned: String) {
        self.to_owned()
    }
}

/// An identifier that matches `^[a-z][a-z0-9_]*$`.
///
/// The view of a symbol is its text. Text becomes a symbol only through
/// [`Symbol::try_new`], and nothing changes a symbol afterwards, so its
/// text always matches the pattern.
#[derive(Debug, Eq, Ord, Hash)]
pub struct Symbol {
    value: String,
}

impl View for Symbol {
    type V = Seq<char>;

    closed spec fn view(&self) -> Seq<char> {
        self.value@
    }
}

impl Symbol {
    /// What holds of every symbol: its text matches the pattern.
    #[verifier::type_invariant]
    pub open spec fn well_formed(self) -> bool {
        matches_pattern(self@)
    }

    /// Builds a symbol that holds the text of `value` when that text
    /// matches the pattern, and fails otherwise.
    pub fn try_new<S: IntoText>(value: S) -> (r: Result<Symbol, SymbolError>)
        ensures
            r is Ok <==> matches_pattern(value.text()),
            r matches Ok(symbol) ==> symbol@ == value.text(),
            r matches Err(e) ==> e == SymbolError,
    {
        let s = value.into_text();
        if Self::is_valid(s.as_str()) {
            Ok(Symbol { value: s })
        } else {
            Err(SymbolError)
        }
    }

    /// The stored text, borrowed.
    pub fn as_str(&self) -> (text: &str)
        ensures
            text@ == self@,
            matches_pattern(text@),
    {
        proof {
            use_type_invariant(self);
        }
        self.value.as_str()
    }

    /// Whether `s` matches `^[a-z][a-z0-9_]*$`, found by one pass over `s`
    /// that stops at the first character out of place.
    pub fn is_valid(s: &str) -> (ok: bool)
        ensures
            ok == matches_pattern(s@),
    {
        broadcast use vstd::string::axiom_spec_iter, vstd::string::next_postcondition;

        let mut chars = s.chars();
        match chars.next() {
            Some(first) if is_lower(first) => {},
            _ => {
                return false;
            },
        }
        let ghost mut seen: int = 1;
        loop
            invariant
                1 <= seen <= s@.len(),
                chars.remaining() == s@.skip(seen),
                is_lower(s@[0]),
                forall|i: int| 1 <= i < seen ==> is_tail(#[trigger] s@[i]),
            decreases s@.len() - seen,
        {
            match chars.next() {
                None => {
                    return true;
                },
                Some(c) => {
                    if !is_tail(c) {
                        return false;
                    }
                    proof {
                        seen = seen + 1;
                    }
                },
            }
        }
    }

    /// The stored text as a new `String`.
    pub fn to_string(&self) -> (text: String)
        ensures
            text@ == self@,
    {
        self.value.clone()
    }
}

impl Clone for Symbol {
    fn clone(&self) -> (copy: Self)
        ensures
            copy@ == self@,
    {
        proof {
            use_type_invariant(self);
        }
        Symbol { value: self.value.clone() }
    }
}

impl core::ops::Deref for Symbol {
    type Target = str;

    fn deref(&self) -> (text: &str)
        ensures
            text@ == self@,
    {
        self.as_str()
    }
}

impl AsRef<str> for Symbol {
    fn as_ref(&self) -> (text: &str)
        ensures
            text@ == self@,
    {
        self.as_str()
    }
}

impl core::borrow::Borrow<str> for Symbol {
    fn borrow(&self) -> (text: &str)
        ensures
            str::view(text) == self@,
    {
        self.as_str()
    }
}

impl core::str::FromStr for Symbol {
    type Err = SymbolError;

    fn from_str(s: &str) -> (r: Result<Self, SymbolError>)
        ensures
            r is Ok <==> matches_pattern(s@),
            r matches Ok(symbol) ==> symbol@ == s@,
    {
        Symbol::try_new(s)
    }
}

impl<'a> TryFrom<&'a str> for Symbol {
    type Error = SymbolError;

    fn try_from(value: &'a str) -> (r: Result<Self, SymbolError>)
        ensures
            r is Ok <==> matches_pattern(value@),
            r matches Ok(symbol) ==> symbol@ == value@,
    {
        Symbol::try_new(value)
    }
}

impl TryFrom<String> for Symbol {
    type Error = SymbolError;

    fn try_from(value: String) -> (r: Result<Self, SymbolError>)
        ensures
            r is Ok <==> matches_pattern(value@),
            r matches Ok(symbol) ==> symbol@ == value@,
    {
        Symbol::try_new(value)
    }
}

/// No spec function names the symbol that comes out, which owns a buffer
/// of its own: what the conversion gives is stated by `try_from` itself,
/// over the text.
impl<'a> vstd::std_specs::convert::TryFromSpecImpl<&'a str> for Symbol {
    open spec fn obeys_try_from_spec() -> bool {
        false
    }

    open spec fn try_from_spec(value: &'a str) -> Result<Self, SymbolError> {
        arbitrary()
    }
}

/// As for `&str`: what the conversion gives is stated by `try_from` itself,
/// over the text.
impl vstd::std_specs::convert::TryFromSpecImpl<String> for Symbol {
    open spec fn obeys_try_from_spec() -> bool {
        false
    }

    open spec fn try_from_spec(value: String) -> Result<Self, SymbolError> {
        arbitrary()
    }
}

impl From<Symbol> for String {
    fn from(symbol: Symbol) -> (text: String)
        ensures
            text@ == symbol@,
    {
        symbol.value
    }
}

impl vstd::std_specs::convert::FromSpecImpl<Symbol> for String {
    open spec fn obeys_from_spec() -> bool {
        true
    }

    closed spec fn from_spec(symbol: Symbol) -> String {
        symbol.value
    }
}

/// `String::into_boxed_str` keeps the characters of the string: the box
/// holds the same text.
pub assume_specification[ String::into_boxed_str ](s: String) -> (boxed: Box<str>)
    ensures
        boxed@ == s@,
;

impl From<Symbol> for Box<str> {
    fn from(symbol: Symbol) -> (text: Box<str>)
        ensures
            text@ == symbol@,
    {
        symbol.value.into_boxed_str()
    }
}

/// No spec function names the box that comes out: what the conversion
/// gives is stated by `from` itself, over the text.
impl vstd::std_specs::convert::FromSpecImpl<Symbol> for Box<str> {
    open spec fn obeys_from_spec() -> bool {
        false
    }

    open spec fn from_spec(symbol: Symbol) -> Box<str> {
        arbitrary()
    }
}

/// `==` on symbols is equality of their text.
impl PartialEq for Symbol {
    fn eq(&self, other: &Self) -> (equal: bool) {
        self.value == other.value
    }
}

impl vstd::std_specs::cmp::PartialEqSpecImpl for Symbol {
    open spec fn obeys_eq_spec() -> bool {
        true
    }

    open spec fn eq_spec(&self, other: &Self) -> bool {
        self@ == other@
    }
}

impl<'a> PartialEq<&'a str> for Symbol {
    fn eq(&self, other: &&'a str) -> (equal: bool) {
        same_text(self.as_str(), *other)
    }
}

impl<'a> vstd::std_specs::cmp::PartialEqSpecImpl<&'a str> for Symbol {
    open spec fn obeys_eq_spec() -> bool {
        true
    }

    open spec fn eq_spec(&self, other: &&'a str) -> bool {
        self@ == other@
    }
}

impl<'a> PartialEq<Symbol> for &'a str {
    fn eq(&self, other: &Symbol) -> (equal: bool) {
        same_text(*self, other.as_str())
    }
}

impl<'a> vstd::std_specs::cmp::PartialEqSpecImpl<Symbol> for &'a str {
    open spec fn obeys_eq_spec() -> bool {
        true
    }

    open spec fn eq_spec(&self, other: &Symbol) -> bool {
        self@ == other@
    }
}

impl PartialEq<String> for Symbol {
    fn eq(&self, other: &String) -> (equal: bool) {
        self.value == *other
    }
}

impl vstd::std_specs::cmp::PartialEqSpecImpl<String> for Symbol {
    open spec fn obeys_eq_spec() -> bool {
        true
    }

    open spec fn eq_spec(&self, other: &String) -> bool {
        self@ == other@
    }
}

impl PartialEq<Symbol> for String {
    fn eq(&self, other: &Symbol) -> (equal: bool) {
        *self == other.value
    }
}

impl vstd::std_specs::cmp::PartialEqSpecImpl<Symbol> for String {
    open spec fn obeys_eq_spec() -> bool {
        true
    }

    open spec fn eq_spec(&self, other: &Symbol) -> bool {
        self@ == other@
    }
}

/// `partial_cmp`, `<` and the like go by the lexicographic order of the
/// text. The derived `Ord` compares the stored strings, which the standard
/// library orders in the same way.
impl PartialOrd for Symbol {
    fn partial_cmp(&self, other: &Self) -> (o: Option<Ordering>) {
        Some(compare_text(self.as_str(), other.as_str()))
    }
}

impl vstd::std_specs::cmp::PartialOrdSpecImpl for Symbol {
    open spec fn obeys_partial_cmp_spec() -> bool {
        true
    }

    open spec fn partial_cmp_spec(&self, other: &Self) -> Option<Ordering> {
        Some(text_order(self@, other@))
    }
}

} // verus!
