//! The kinds of token.

use vstd::prelude::*;

verus! {

/// What kind of phrase a token is.
#[derive(Debug, Clone, Copy, PartialEq, Eq, Structural)]
pub enum PhraseType {
    Hex,
    Dec,
    Oct,
    Keyword,
    Bool,
    Identifier,
    Operator,
    Separator,
    Unknown,
    String,
    Float,
    Char,
}

} // verus!
