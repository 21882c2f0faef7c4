//! The entry point for decimal numeric literals.
use vstd::prelude::*;
use crate::lex::error::LexError;
use crate::tokens::number::Number;
use crate::tokens::parsers::suffix::{handle_suffix, numeric_split, split_numeric_and_suffix, suffix_result};
use crate::tokens::parsers::value::result_view;

verus! {

/// Parses a complete decimal numeric literal: its optional suffix is split
/// off and selects the type of the value.
pub fn parse_number(slice: &str) -> (r: Result<Number, LexError>)
    ensures
        result_view(r) == suffix_result(numeric_split(slice@).0, numeric_split(slice@).1),
{
    let (numeric_part, suffix) = split_numeric_and_suffix(slice);
    handle_suffix(numeric_part, suffix)
}

} // verus!
