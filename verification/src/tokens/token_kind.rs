//! Kinds of lexical tokens.
use vstd::prelude::*;
use crate::tokens::number::{number_text, Number};

verus! {

/// Every lexical token kind of the language, with the value that literal and
/// identifier tokens carry.
#[derive(Debug, PartialEq, Eq)]
pub enum TokenKind {
    AndEqual,
    OrEqual,
    ShiftLeftEqual,
    ShiftRightEqual,
    StarEqual,
    SlashEqual,
    PlusEqual,
    MinusEqual,
    EqualEqual,
    NotEqual,
    LessEqual,
    GreaterEqual,
    PlusPlus,
    MinusMinus,
    OrOr,
    AndAnd,
    ShiftLeft,
    ShiftRight,
    PercentEqual,
    XorEqual,
    BitwiseNot,
    Plus,
    Minus,
    Star,
    Slash,
    Less,
    Greater,
    Not,
    Xor,
    Percent,
    Or,
    And,
    Equal,
    Colon,
    Comma,
    Dot,
    KeywordFun,
    KeywordIf,
    KeywordElse,
    KeywordReturn,
    KeywordWhile,
    KeywordFor,
    KeywordMain,
    KeywordVar,
    KeywordConst,
    KeywordNullptr,
    KeywordBreak,
    KeywordContinue,
    KeywordBool(bool),
    IdentifierAscii(String),
    IdentifierUnicode(String),
    Numeric(Number),
    Binary(Number),
    Octal(Number),
    Hexadecimal(Number),
    InvalidBaseNumber,
    StringLiteral(String),
    UnterminatedString,
    CharLiteral(String),
    UnterminatedChar,
    OpenParen,
    CloseParen,
    OpenBracket,
    CloseBracket,
    OpenBrace,
    CloseBrace,
    Semicolon,
    TypeI8,
    TypeI16,
    TypeI32,
    TypeI64,
    TypeU8,
    TypeU16,
    TypeU32,
    TypeU64,
    TypeF32,
    TypeF64,
    TypeChar,
    TypeString,
    TypeBool,
    Whitespace,
    Comment,
    MultilineComment,
    UnterminatedComment,
    Eof,
}

/// The printed description of a token kind.
pub open spec fn token_text(kind: TokenKind) -> Seq<char> {
    match kind {
        TokenKind::AndEqual => "'&='"@,
        TokenKind::OrEqual => "'|='"@,
        TokenKind::ShiftLeftEqual => "'<<='"@,
        TokenKind::ShiftRightEqual => "'>>='"@,
        TokenKind::StarEqual => "'*='"@,
        TokenKind::SlashEqual => "'/='"@,
        TokenKind::PlusEqual => "'+='"@,
        TokenKind::MinusEqual => "'-='"@,
        TokenKind::EqualEqual => "'=='"@,
        TokenKind::NotEqual => "'!='"@,
        TokenKind::LessEqual => "'<='"@,
        TokenKind::GreaterEqual => "'>='"@,
        TokenKind::PlusPlus => "'++'"@,
        TokenKind::MinusMinus => "'--'"@,
        TokenKind::OrOr => "'||'"@,
        TokenKind::AndAnd => "'&&'"@,
        TokenKind::ShiftLeft => "'<<'"@,
        TokenKind::ShiftRight => "'>>'"@,
        TokenKind::PercentEqual => "'%='"@,
        TokenKind::XorEqual => "'^='"@,
        TokenKind::BitwiseNot => "'~'"@,
        TokenKind::Plus => "'+'"@,
        TokenKind::Minus => "'-'"@,
        TokenKind::Star => "'*'"@,
        TokenKind::Slash => "'/'"@,
        TokenKind::Less => "'<'"@,
        TokenKind::Greater => "'> '"@,
        TokenKind::Not => "'!'"@,
        TokenKind::Xor => "'^'"@,
        TokenKind::Percent => "'%'"@,
        TokenKind::Or => "'|'"@,
        TokenKind::And => "'&'"@,
        TokenKind::Equal => "'='"@,
        TokenKind::Colon => "':'"@,
        TokenKind::Comma => "','"@,
        TokenKind::Dot => "'.'"@,
        TokenKind::KeywordFun => "'fun'"@,
        TokenKind::KeywordIf => "'if'"@,
        TokenKind::KeywordElse => "'else'"@,
        TokenKind::KeywordReturn => "'return'"@,
        TokenKind::KeywordWhile => "'while'"@,
        TokenKind::KeywordFor => "'for'"@,
        TokenKind::KeywordMain => "'main'"@,
        TokenKind::KeywordVar => "'var'"@,
        TokenKind::KeywordConst => "'const'"@,
        TokenKind::KeywordNullptr => "'nullptr'"@,
        TokenKind::KeywordBreak => "'break'"@,
        TokenKind::KeywordContinue => "'continue'"@,
        TokenKind::KeywordBool(v) => "boolean '"@ + (if v { "true"@ } else { "false"@ }) + "'"@,
        TokenKind::IdentifierAscii(v) => "identifier '"@ + v@ + "'"@,
        TokenKind::IdentifierUnicode(v) => "identifier '"@ + v@ + "'"@,
        TokenKind::Numeric(v) => "number '"@ + number_text(v@) + "'"@,
        TokenKind::Binary(v) => "binary '"@ + number_text(v@) + "'"@,
        TokenKind::Octal(v) => "octal '"@ + number_text(v@) + "'"@,
        TokenKind::Hexadecimal(v) => "hexadecimal '"@ + number_text(v@) + "'"@,
        TokenKind::InvalidBaseNumber => "invalid base number"@,
        TokenKind::StringLiteral(v) => "string literal \""@ + v@ + "\""@,
        TokenKind::UnterminatedString => "unterminated string literal"@,
        TokenKind::CharLiteral(v) => "character literal '"@ + v@ + "'"@,
        TokenKind::UnterminatedChar => "unterminated character literal"@,
        TokenKind::OpenParen => "'('"@,
        TokenKind::CloseParen => "')'"@,
        TokenKind::OpenBracket => "'['"@,
        TokenKind::CloseBracket => "']'"@,
        TokenKind::OpenBrace => "'{'"@,
        TokenKind::CloseBrace => "'}'"@,
        TokenKind::Semicolon => "';'"@,
        TokenKind::TypeI8 => "'i8'"@,
        TokenKind::TypeI16 => "'i16'"@,
        TokenKind::TypeI32 => "'i32'"@,
        TokenKind::TypeI64 => "'i64'"@,
        TokenKind::TypeU8 => "'u8'"@,
        TokenKind::TypeU16 => "'u16'"@,
        TokenKind::TypeU32 => "'u32'"@,
        TokenKind::TypeU64 => "'u64'"@,
        TokenKind::TypeF32 => "'f32'"@,
        TokenKind::TypeF64 => "'f64'"@,
        TokenKind::TypeChar => "'char'"@,
        TokenKind::TypeString => "'string'"@,
        TokenKind::TypeBool => "'bool'"@,
        TokenKind::Whitespace => "whitespace"@,
        TokenKind::Comment => "comment"@,
        TokenKind::MultilineComment => "multiline comment"@,
        TokenKind::UnterminatedComment => "unterminated multiline comment"@,
        TokenKind::Eof => "end of file"@,
    }
}

/// Whether the kind is one of the type keywords.
pub open spec fn is_type_kind(kind: TokenKind) -> bool {
    matches!(kind, TokenKind::TypeI8 | TokenKind::TypeI16 | TokenKind::TypeI32 | TokenKind::TypeI64 | TokenKind::TypeU8 | TokenKind::TypeU16 | TokenKind::TypeU32 | TokenKind::TypeU64 | TokenKind::TypeF32 | TokenKind::TypeF64 | TokenKind::TypeChar | TokenKind::TypeString | TokenKind::TypeBool)
}

fn surround(pre: &str, mid: &str, post: &str) -> (s: String)
    ensures
        s@ == pre@ + mid@ + post@,
{
    let mut s = String::from_str(pre);
    s.append(mid);
    s.append(post);
    s
}

impl TokenKind {
    /// Whether the token is one of the type keywords.
    pub fn is_type(&self) -> (r: bool)
        ensures
            r == is_type_kind(*self),
    {
        matches!(self, TokenKind::TypeI8 | TokenKind::TypeI16 | TokenKind::TypeI32 | TokenKind::TypeI64 | TokenKind::TypeU8 | TokenKind::TypeU16 | TokenKind::TypeU32 | TokenKind::TypeU64 | TokenKind::TypeF32 | TokenKind::TypeF64 | TokenKind::TypeChar | TokenKind::TypeString | TokenKind::TypeBool)
    }

    /// The printed description of the token kind.
    pub fn to_text(&self) -> (s: String)
        ensures
            s@ == token_text(*self),
    {
        match self {
            TokenKind::AndEqual => String::from_str("'&='"),
            TokenKind::OrEqual => String::from_str("'|='"),
            TokenKind::ShiftLeftEqual => String::from_str("'<<='"),
            TokenKind::ShiftRightEqual => String::from_str("'>>='"),
            TokenKind::StarEqual => String::from_str("'*='"),
            TokenKind::SlashEqual => String::from_str("'/='"),
            TokenKind::PlusEqual => String::from_str("'+='"),
            TokenKind::MinusEqual => String::from_str("'-='"),
            TokenKind::EqualEqual => String::from_str("'=='"),
            TokenKind::NotEqual => String::from_str("'!='"),
            TokenKind::LessEqual => String::from_str("'<='"),
            TokenKind::GreaterEqual => String::from_str("'>='"),
            TokenKind::PlusPlus => String::from_str("'++'"),
            TokenKind::MinusMinus => String::from_str("'--'"),
            TokenKind::OrOr => String::from_str("'||'"),
            TokenKind::AndAnd => String::from_str("'&&'"),
            TokenKind::ShiftLeft => String::from_str("'<<'"),
            TokenKind::ShiftRight => String::from_str("'>>'"),
            TokenKind::PercentEqual => String::from_str("'%='"),
            TokenKind::XorEqual => String::from_str("'^='"),
            TokenKind::BitwiseNot => String::from_str("'~'"),
            TokenKind::Plus => String::from_str("'+'"),
            TokenKind::Minus => String::from_str("'-'"),
            TokenKind::Star => String::from_str("'*'"),
            TokenKind::Slash => String::from_str("'/'"),
            TokenKind::Less => String::from_str("'<'"),
            TokenKind::Greater => String::from_str("'> '"),
            TokenKind::Not => String::from_str("'!'"),
            TokenKind::Xor => String::from_str("'^'"),
            TokenKind::Percent => String::from_str("'%'"),
            TokenKind::Or => String::from_str("'|'"),
            TokenKind::And => String::from_str("'&'"),
            TokenKind::Equal => String::from_str("'='"),
            TokenKind::Colon => String::from_str("':'"),
            TokenKind::Comma => String::from_str("','"),
            TokenKind::Dot => String::from_str("'.'"),
            TokenKind::KeywordFun => String::from_str("'fun'"),
            TokenKind::KeywordIf => String::from_str("'if'"),
            TokenKind::KeywordElse => String::from_str("'else'"),
            TokenKind::KeywordReturn => String::from_str("'return'"),
            TokenKind::KeywordWhile => String::from_str("'while'"),
            TokenKind::KeywordFor => String::from_str("'for'"),
            TokenKind::KeywordMain => String::from_str("'main'"),
            TokenKind::KeywordVar => String::from_str("'var'"),
            TokenKind::KeywordConst => String::from_str("'const'"),
            TokenKind::KeywordNullptr => String::from_str("'nullptr'"),
            TokenKind::KeywordBreak => String::from_str("'break'"),
            TokenKind::KeywordContinue => String::from_str("'continue'"),
            TokenKind::KeywordBool(v) => surround("boolean '", if *v { "true" } else { "false" }, "'"),
            TokenKind::IdentifierAscii(v) => surround("identifier '", v.as_str(), "'"),
            TokenKind::IdentifierUnicode(v) => surround("identifier '", v.as_str(), "'"),
            TokenKind::Numeric(v) => {
                let t = v.to_text();
                surround("number '", t.as_str(), "'")
            },
            TokenKind::Binary(v) => {
                let t = v.to_text();
                surround("binary '", t.as_str(), "'")
            },
            TokenKind::Octal(v) => {
                let t = v.to_text();
                surround("octal '", t.as_str(), "'")
            },
            TokenKind::Hexadecimal(v) => {
                let t = v.to_text();
                surround("hexadecimal '", t.as_str(), "'")
            },
            TokenKind::InvalidBaseNumber => String::from_str("invalid base number"),
            TokenKind::StringLiteral(v) => surround("string literal \"", v.as_str(), "\""),
            TokenKind::UnterminatedString => String::from_str("unterminated string literal"),
            TokenKind::CharLiteral(v) => surround("character literal '", v.as_str(), "'"),
            TokenKind::UnterminatedChar => String::from_str("unterminated character literal"),
            TokenKind::OpenParen => String::from_str("'('"),
            TokenKind::CloseParen => String::from_str("')'"),
            TokenKind::OpenBracket => String::from_str("'['"),
            TokenKind::CloseBracket => String::from_str("']'"),
            TokenKind::OpenBrace => String::from_str("'{'"),
            TokenKind::CloseBrace => String::from_str("'}'"),
            TokenKind::Semicolon => String::from_str("';'"),
            TokenKind::TypeI8 => String::from_str("'i8'"),
            TokenKind::TypeI16 => String::from_str("'i16'"),
            TokenKind::TypeI32 => String::from_str("'i32'"),
            TokenKind::TypeI64 => String::from_str("'i64'"),
            TokenKind::TypeU8 => String::from_str("'u8'"),
            TokenKind::TypeU16 => String::from_str("'u16'"),
            TokenKind::TypeU32 => String::from_str("'u32'"),
            TokenKind::TypeU64 => String::from_str("'u64'"),
            TokenKind::TypeF32 => String::from_str("'f32'"),
            TokenKind::TypeF64 => String::from_str("'f64'"),
            TokenKind::TypeChar => String::from_str("'char'"),
            TokenKind::TypeString => String::from_str("'string'"),
            TokenKind::TypeBool => String::from_str("'bool'"),
            TokenKind::Whitespace => String::from_str("whitespace"),
            TokenKind::Comment => String::from_str("comment"),
            TokenKind::MultilineComment => String::from_str("multiline comment"),
            TokenKind::UnterminatedComment => String::from_str("unterminated multiline comment"),
            TokenKind::Eof => String::from_str("end of file"),
        }
    }
}

} // verus!
