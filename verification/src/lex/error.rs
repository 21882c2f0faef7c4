//! Errors produced directly by the lexical analyzer.
use vstd::prelude::*;

verus! {

/// A lexical problem. Conversion to the compiler-facing error is done by the
/// lexer (see [`crate::lex::lexer::convert_lex_error`]).
#[derive(Debug, Clone, Copy, PartialEq, Eq, Structural, Hash)]
pub enum LexError {
    /// The input does not start with any valid token.
    InvalidToken,
    /// A binary literal is malformed (`#b`, `#b2`, `#b102`, `#b123u`).
    MalformedBinary,
    /// An octal literal is malformed (`#o`, `#o8`, `#o789`).
    MalformedOctal,
    /// A hexadecimal literal is malformed (`#x`, `#xG`, `#xDEADG`).
    MalformedHexadecimal,
    /// A numeric literal has an unsupported suffix (`42i64`, `42u64`, `3.14f32`).
    InvalidNumberSuffix,
    /// A numeric literal cannot be represented by its requested type.
    NumberOverflow,
    /// A string or character literal holds an unsupported escape sequence.
    InvalidEscapeSequence,
    /// A string literal is not terminated.
    UnterminatedString,
    /// A character literal is not terminated.
    UnterminatedChar,
    /// A multi-line comment is not terminated.
    UnterminatedComment,
}

/// The printed form of a lexical error.
pub open spec fn lex_error_text(e: LexError) -> Seq<char> {
    match e {
        LexError::InvalidToken => "invalid token"@,
        LexError::MalformedBinary => "malformed binary number"@,
        LexError::MalformedOctal => "malformed octal number"@,
        LexError::MalformedHexadecimal => "malformed hexadecimal number"@,
        LexError::InvalidNumberSuffix => "invalid number suffix"@,
        LexError::NumberOverflow => "number literal overflow"@,
        LexError::InvalidEscapeSequence => "invalid escape sequence"@,
        LexError::UnterminatedString => "unterminated string literal"@,
        LexError::UnterminatedChar => "unterminated character literal"@,
        LexError::UnterminatedComment => "unterminated multi-line comment"@,
    }
}

impl LexError {
    /// The printed form of the error.
    pub fn to_text(&self) -> (s: &'static str)
        ensures
            s@ == lex_error_text(*self),
    {
        match self {
            LexError::InvalidToken => "invalid token",
            LexError::MalformedBinary => "malformed binary number",
            LexError::MalformedOctal => "malformed octal number",
            LexError::MalformedHexadecimal => "malformed hexadecimal number",
            LexError::InvalidNumberSuffix => "invalid number suffix",
            LexError::NumberOverflow => "number literal overflow",
            LexError::InvalidEscapeSequence => "invalid escape sequence",
            LexError::UnterminatedString => "unterminated string literal",
            LexError::UnterminatedChar => "unterminated character literal",
            LexError::UnterminatedComment => "unterminated multi-line comment",
        }
    }
}

impl Default for LexError {
    /// An input that starts with no valid token.
    fn default() -> (r: Self)
        ensures
            r == LexError::InvalidToken,
    {
        LexError::InvalidToken
    }
}

} // verus!
