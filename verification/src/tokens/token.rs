//! A token: its kind and where it stands in the source.
use vstd::prelude::*;
use crate::location::source_span::SourceSpan;
use crate::tokens::token_kind::TokenKind;

verus! {

/// A lexical token with its source span.
#[derive(Debug, PartialEq, Eq)]
pub struct Token {
    pub kind: TokenKind,
    pub span: SourceSpan,
}

} // verus!
