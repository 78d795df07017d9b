//! Validated identifier values.
//!
//! A [`Symbol`] is a piece of text that is known to be a lowercase ASCII
//! identifier: one lowercase letter followed by lowercase letters, digits
//! or underscores. It is built by [`Symbol::try_new`], which rejects every
//! other text with a [`SymbolError`], and it compares, orders and hashes as
//! its text does.
//!
//! - [`pattern`] states the pattern and its character classes.
//! - [`symbol`] holds the type, its error and its conversions.
//! - [`order`] states and decides the lexicographic order of text.
//! - [`laws`] proves what holds of every symbol.

pub mod laws;
pub mod order;
pub mod pattern;
pub mod symbol;

pub use symbol::{IntoText, Symbol, SymbolError, INVALID_FORMAT};
