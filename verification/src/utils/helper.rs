//! Questions about token kinds.

use crate::utils::types::PhraseType;
use vstd::prelude::*;

verus! {

/// `symbol` is the kind of a literal.
pub open spec fn literal_kind(symbol: PhraseType) -> bool {
    symbol == PhraseType::Bool || symbol == PhraseType::String || symbol == PhraseType::Hex
        || symbol == PhraseType::Oct || symbol == PhraseType::Dec || symbol == PhraseType::Float
        || symbol == PhraseType::Char
}

/// Whether a primary expression of kind `symbol` is a literal; it is an
/// identifier otherwise. No other kind makes a primary expression.
pub fn symbol_is_literal(symbol: &PhraseType) -> (r: bool)
    requires
        *symbol == PhraseType::Identifier || literal_kind(*symbol),
    ensures
        r == literal_kind(*symbol),
{
    match symbol {
        PhraseType::Identifier => false,
        _ => true,
    }
}

} // verus!
