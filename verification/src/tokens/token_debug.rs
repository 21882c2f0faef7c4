//! The debug form of token kinds, as diagnostics quote a token that is out
//! of place: the kind's name and, in brackets, the value it carries.
use vstd::prelude::*;
use crate::text::{int_text, i64_text, push_char, u64_text};
use crate::tokens::number::{Number, NumberView};
use crate::tokens::token_kind::TokenKind;

verus! {

/// The name of a token kind.
pub open spec fn kind_name(kind: TokenKind) -> Seq<char> {
    match kind {
        TokenKind::AndEqual => "AndEqual"@,
        TokenKind::OrEqual => "OrEqual"@,
        TokenKind::ShiftLeftEqual => "ShiftLeftEqual"@,
        TokenKind::ShiftRightEqual => "ShiftRightEqual"@,
        TokenKind::StarEqual => "StarEqual"@,
        TokenKind::SlashEqual => "SlashEqual"@,
        TokenKind::PlusEqual => "PlusEqual"@,
        TokenKind::MinusEqual => "MinusEqual"@,
        TokenKind::EqualEqual => "EqualEqual"@,
        TokenKind::NotEqual => "NotEqual"@,
        TokenKind::LessEqual => "LessEqual"@,
        TokenKind::GreaterEqual => "GreaterEqual"@,
        TokenKind::PlusPlus => "PlusPlus"@,
        TokenKind::MinusMinus => "MinusMinus"@,
        TokenKind::OrOr => "OrOr"@,
        TokenKind::AndAnd => "AndAnd"@,
        TokenKind::ShiftLeft => "ShiftLeft"@,
        TokenKind::ShiftRight => "ShiftRight"@,
        TokenKind::PercentEqual => "PercentEqual"@,
        TokenKind::XorEqual => "XorEqual"@,
        TokenKind::BitwiseNot => "BitwiseNot"@,
        TokenKind::Plus => "Plus"@,
        TokenKind::Minus => "Minus"@,
        TokenKind::Star => "Star"@,
        TokenKind::Slash => "Slash"@,
        TokenKind::Less => "Less"@,
        TokenKind::Greater => "Greater"@,
        TokenKind::Not => "Not"@,
        TokenKind::Xor => "Xor"@,
        TokenKind::Percent => "Percent"@,
        TokenKind::Or => "Or"@,
        TokenKind::And => "And"@,
        TokenKind::Equal => "Equal"@,
        TokenKind::Colon => "Colon"@,
        TokenKind::Comma => "Comma"@,
        TokenKind::Dot => "Dot"@,
        TokenKind::KeywordFun => "KeywordFun"@,
        TokenKind::KeywordIf => "KeywordIf"@,
        TokenKind::KeywordElse => "KeywordElse"@,
        TokenKind::KeywordReturn => "KeywordReturn"@,
        TokenKind::KeywordWhile => "KeywordWhile"@,
        TokenKind::KeywordFor => "KeywordFor"@,
        TokenKind::KeywordMain => "KeywordMain"@,
        TokenKind::KeywordVar => "KeywordVar"@,
        TokenKind::KeywordConst => "KeywordConst"@,
        TokenKind::KeywordNullptr => "KeywordNullptr"@,
        TokenKind::KeywordBreak => "KeywordBreak"@,
        TokenKind::KeywordContinue => "KeywordContinue"@,
        TokenKind::KeywordBool(..) => "KeywordBool"@,
        TokenKind::IdentifierAscii(..) => "IdentifierAscii"@,
        TokenKind::IdentifierUnicode(..) => "IdentifierUnicode"@,
        TokenKind::Numeric(..) => "Numeric"@,
        TokenKind::Binary(..) => "Binary"@,
        TokenKind::Octal(..) => "Octal"@,
        TokenKind::Hexadecimal(..) => "Hexadecimal"@,
        TokenKind::InvalidBaseNumber => "InvalidBaseNumber"@,
        TokenKind::StringLiteral(..) => "StringLiteral"@,
        TokenKind::UnterminatedString => "UnterminatedString"@,
        TokenKind::CharLiteral(..) => "CharLiteral"@,
        TokenKind::UnterminatedChar => "UnterminatedChar"@,
        TokenKind::OpenParen => "OpenParen"@,
        TokenKind::CloseParen => "CloseParen"@,
        TokenKind::OpenBracket => "OpenBracket"@,
        TokenKind::CloseBracket => "CloseBracket"@,
        TokenKind::OpenBrace => "OpenBrace"@,
        TokenKind::CloseBrace => "CloseBrace"@,
        TokenKind::Semicolon => "Semicolon"@,
        TokenKind::TypeI8 => "TypeI8"@,
        TokenKind::TypeI16 => "TypeI16"@,
        TokenKind::TypeI32 => "TypeI32"@,
        TokenKind::TypeI64 => "TypeI64"@,
        TokenKind::TypeU8 => "TypeU8"@,
        TokenKind::TypeU16 => "TypeU16"@,
        TokenKind::TypeU32 => "TypeU32"@,
        TokenKind::TypeU64 => "TypeU64"@,
        TokenKind::TypeF32 => "TypeF32"@,
        TokenKind::TypeF64 => "TypeF64"@,
        TokenKind::TypeChar => "TypeChar"@,
        TokenKind::TypeString => "TypeString"@,
        TokenKind::TypeBool => "TypeBool"@,
        TokenKind::Whitespace => "Whitespace"@,
        TokenKind::Comment => "Comment"@,
        TokenKind::MultilineComment => "MultilineComment"@,
        TokenKind::UnterminatedComment => "UnterminatedComment"@,
        TokenKind::Eof => "Eof"@,
    }
}

/// The name of a token kind.
fn kind_name_text(kind: &TokenKind) -> (r: &'static str)
    ensures
        r@ == kind_name(*kind),
{
    match kind {
        TokenKind::AndEqual => "AndEqual",
        TokenKind::OrEqual => "OrEqual",
        TokenKind::ShiftLeftEqual => "ShiftLeftEqual",
        TokenKind::ShiftRightEqual => "ShiftRightEqual",
        TokenKind::StarEqual => "StarEqual",
        TokenKind::SlashEqual => "SlashEqual",
        TokenKind::PlusEqual => "PlusEqual",
        TokenKind::MinusEqual => "MinusEqual",
        TokenKind::EqualEqual => "EqualEqual",
        TokenKind::NotEqual => "NotEqual",
        TokenKind::LessEqual => "LessEqual",
        TokenKind::GreaterEqual => "GreaterEqual",
        TokenKind::PlusPlus => "PlusPlus",
        TokenKind::MinusMinus => "MinusMinus",
        TokenKind::OrOr => "OrOr",
        TokenKind::AndAnd => "AndAnd",
        TokenKind::ShiftLeft => "ShiftLeft",
        TokenKind::ShiftRight => "ShiftRight",
        TokenKind::PercentEqual => "PercentEqual",
        TokenKind::XorEqual => "XorEqual",
        TokenKind::BitwiseNot => "BitwiseNot",
        TokenKind::Plus => "Plus",
        TokenKind::Minus => "Minus",
        TokenKind::Star => "Star",
        TokenKind::Slash => "Slash",
        TokenKind::Less => "Less",
        TokenKind::Greater => "Greater",
        TokenKind::Not => "Not",
        TokenKind::Xor => "Xor",
        TokenKind::Percent => "Percent",
        TokenKind::Or => "Or",
        TokenKind::And => "And",
        TokenKind::Equal => "Equal",
        TokenKind::Colon => "Colon",
        TokenKind::Comma => "Comma",
        TokenKind::Dot => "Dot",
        TokenKind::KeywordFun => "KeywordFun",
        TokenKind::KeywordIf => "KeywordIf",
        TokenKind::KeywordElse => "KeywordElse",
        TokenKind::KeywordReturn => "KeywordReturn",
        TokenKind::KeywordWhile => "KeywordWhile",
        TokenKind::KeywordFor => "KeywordFor",
        TokenKind::KeywordMain => "KeywordMain",
        TokenKind::KeywordVar => "KeywordVar",
        TokenKind::KeywordConst => "KeywordConst",
        TokenKind::KeywordNullptr => "KeywordNullptr",
        TokenKind::KeywordBreak => "KeywordBreak",
        TokenKind::KeywordContinue => "KeywordContinue",
        TokenKind::KeywordBool(..) => "KeywordBool",
        TokenKind::IdentifierAscii(..) => "IdentifierAscii",
        TokenKind::IdentifierUnicode(..) => "IdentifierUnicode",
        TokenKind::Numeric(..) => "Numeric",
        TokenKind::Binary(..) => "Binary",
        TokenKind::Octal(..) => "Octal",
        TokenKind::Hexadecimal(..) => "Hexadecimal",
        TokenKind::InvalidBaseNumber => "InvalidBaseNumber",
        TokenKind::StringLiteral(..) => "StringLiteral",
        TokenKind::UnterminatedString => "UnterminatedString",
        TokenKind::CharLiteral(..) => "CharLiteral",
        TokenKind::UnterminatedChar => "UnterminatedChar",
        TokenKind::OpenParen => "OpenParen",
        TokenKind::CloseParen => "CloseParen",
        TokenKind::OpenBracket => "OpenBracket",
        TokenKind::CloseBracket => "CloseBracket",
        TokenKind::OpenBrace => "OpenBrace",
        TokenKind::CloseBrace => "CloseBrace",
        TokenKind::Semicolon => "Semicolon",
        TokenKind::TypeI8 => "TypeI8",
        TokenKind::TypeI16 => "TypeI16",
        TokenKind::TypeI32 => "TypeI32",
        TokenKind::TypeI64 => "TypeI64",
        TokenKind::TypeU8 => "TypeU8",
        TokenKind::TypeU16 => "TypeU16",
        TokenKind::TypeU32 => "TypeU32",
        TokenKind::TypeU64 => "TypeU64",
        TokenKind::TypeF32 => "TypeF32",
        TokenKind::TypeF64 => "TypeF64",
        TokenKind::TypeChar => "TypeChar",
        TokenKind::TypeString => "TypeString",
        TokenKind::TypeBool => "TypeBool",
        TokenKind::Whitespace => "Whitespace",
        TokenKind::Comment => "Comment",
        TokenKind::MultilineComment => "MultilineComment",
        TokenKind::UnterminatedComment => "UnterminatedComment",
        TokenKind::Eof => "Eof",
    }
}

/// A hexadecimal digit, in lower case.
pub open spec fn hex_digit(v: u32) -> char {
    match v {
        0 => '0',
        1 => '1',
        2 => '2',
        3 => '3',
        4 => '4',
        5 => '5',
        6 => '6',
        7 => '7',
        8 => '8',
        9 => '9',
        10 => 'a',
        11 => 'b',
        12 => 'c',
        13 => 'd',
        14 => 'e',
        _ => 'f',
    }
}

/// A character as a quoted text shows it: tab, carriage return, line feed,
/// backslash, double quote and NUL by their escapes, other control
/// characters as `\u{..}` with their code in hexadecimal, every other
/// character as itself.
pub open spec fn escaped_char(c: char) -> Seq<char> {
    if c == '\t' {
        "\\t"@
    } else if c == '\r' {
        "\\r"@
    } else if c == '\n' {
        "\\n"@
    } else if c == '\\' {
        "\\\\"@
    } else if c == '"' {
        "\\\""@
    } else if c == '\0' {
        "\\0"@
    } else if (c as u32) < 0x20 || c == '\x7f' {
        "\\u{"@ + (if (c as u32) < 16 {
            seq![hex_digit(c as u32)]
        } else {
            seq![hex_digit((c as u32) / 16), hex_digit((c as u32) % 16)]
        }) + "}"@
    } else {
        seq![c]
    }
}

/// The characters of `s`, each as a quoted text shows it.
pub open spec fn escaped(s: Seq<char>) -> Seq<char>
    decreases s.len(),
{
    if s.len() == 0 {
        Seq::empty()
    } else {
        escaped(s.drop_last()) + escaped_char(s.last())
    }
}

/// A text in double quotes, its characters escaped.
pub open spec fn quoted(s: Seq<char>) -> Seq<char> {
    "\""@ + escaped(s) + "\""@
}

/// The debug form of a number: its kind and, in brackets, its value; a
/// mantissa and exponent are separated by `, `.
pub open spec fn number_debug(n: NumberView) -> Seq<char> {
    match n {
        NumberView::I8(v) => "I8("@ + int_text(v as int) + ")"@,
        NumberView::I16(v) => "I16("@ + int_text(v as int) + ")"@,
        NumberView::I32(v) => "I32("@ + int_text(v as int) + ")"@,
        NumberView::Integer(v) => "Integer("@ + int_text(v as int) + ")"@,
        NumberView::U8(v) => "U8("@ + int_text(v as int) + ")"@,
        NumberView::U16(v) => "U16("@ + int_text(v as int) + ")"@,
        NumberView::U32(v) => "U32("@ + int_text(v as int) + ")"@,
        NumberView::UnsignedInteger(v) => "UnsignedInteger("@ + int_text(v as int) + ")"@,
        NumberView::Float32(t) => "Float32("@ + t + ")"@,
        NumberView::Float64(t) => "Float64("@ + t + ")"@,
        NumberView::Scientific32(t, e) => "Scientific32("@ + t + ", "@ + int_text(e as int) + ")"@,
        NumberView::Scientific64(t, e) => "Scientific64("@ + t + ", "@ + int_text(e as int) + ")"@,
    }
}

/// The debug form of a token kind: its name, then the value it carries in
/// brackets (a flag as `true` or `false`, a text quoted, a number in its
/// debug form).
pub open spec fn token_debug_text(kind: TokenKind) -> Seq<char> {
    match kind {
        TokenKind::KeywordBool(b) => kind_name(kind) + "("@ + (if b {
            "true"@
        } else {
            "false"@
        }) + ")"@,
        TokenKind::IdentifierAscii(v) => kind_name(kind) + "("@ + quoted(v@) + ")"@,
        TokenKind::IdentifierUnicode(v) => kind_name(kind) + "("@ + quoted(v@) + ")"@,
        TokenKind::StringLiteral(v) => kind_name(kind) + "("@ + quoted(v@) + ")"@,
        TokenKind::CharLiteral(v) => kind_name(kind) + "("@ + quoted(v@) + ")"@,
        TokenKind::Numeric(n) => kind_name(kind) + "("@ + number_debug(n@) + ")"@,
        TokenKind::Binary(n) => kind_name(kind) + "("@ + number_debug(n@) + ")"@,
        TokenKind::Octal(n) => kind_name(kind) + "("@ + number_debug(n@) + ")"@,
        TokenKind::Hexadecimal(n) => kind_name(kind) + "("@ + number_debug(n@) + ")"@,
        _ => kind_name(kind),
    }
}

/// A hexadecimal digit, in lower case.
fn hex_digit_char(v: u32) -> (r: char)
    requires
        v < 16,
    ensures
        r == hex_digit(v),
{
    match v {
        0 => '0',
        1 => '1',
        2 => '2',
        3 => '3',
        4 => '4',
        5 => '5',
        6 => '6',
        7 => '7',
        8 => '8',
        9 => '9',
        10 => 'a',
        11 => 'b',
        12 => 'c',
        13 => 'd',
        14 => 'e',
        _ => 'f',
    }
}

/// Appends the quoted form of `s` to `out`.
fn push_quoted(out: &mut String, s: &str)
    ensures
        final(out)@ == old(out)@ + quoted(s@),
{
    let c = crate::text::chars_of(s);
    out.append("\"");
    let ghost start = out@;
    let mut i: usize = 0;
    while i < c.len()
        invariant
            i <= c@.len(),
            c@ == s@,
            out@ == start + escaped(c@.subrange(0, i as int)),
        decreases c.len() - i,
    {
        let ch = c[i];
        let ghost before = out@;
        if ch == '\t' {
            out.append("\\t");
        } else if ch == '\r' {
            out.append("\\r");
        } else if ch == '\n' {
            out.append("\\n");
        } else if ch == '\\' {
            out.append("\\\\");
        } else if ch == '"' {
            out.append("\\\"");
        } else if ch == '\0' {
            out.append("\\0");
        } else if (ch as u32) < 0x20 || ch == '\x7f' {
            out.append("\\u{");
            let code = ch as u32;
            if code < 16 {
                push_char(out, hex_digit_char(code));
            } else {
                push_char(out, hex_digit_char(code / 16));
                push_char(out, hex_digit_char(code % 16));
            }
            out.append("}");
        } else {
            push_char(out, ch);
        }
        proof {
            assert(out@ =~= before + escaped_char(ch));
            assert(c@.subrange(0, i + 1).drop_last() =~= c@.subrange(0, i as int));
        }
        i = i + 1;
    }
    out.append("\"");
    proof {
        assert(c@.subrange(0, c@.len() as int) =~= c@);
    }
}

/// The debug form of a number.
fn number_debug_text(n: &Number) -> (r: String)
    ensures
        r@ == number_debug(n@),
{
    let (name, value) = match n {
        Number::I8(v) => ("I8(", i64_text(*v as i64)),
        Number::I16(v) => ("I16(", i64_text(*v as i64)),
        Number::I32(v) => ("I32(", i64_text(*v as i64)),
        Number::Integer(v) => ("Integer(", i64_text(*v)),
        Number::U8(v) => ("U8(", u64_text(*v as u64)),
        Number::U16(v) => ("U16(", u64_text(*v as u64)),
        Number::U32(v) => ("U32(", u64_text(*v as u64)),
        Number::UnsignedInteger(v) => ("UnsignedInteger(", u64_text(*v)),
        Number::Float32(t) => ("Float32(", t.clone()),
        Number::Float64(t) => ("Float64(", t.clone()),
        Number::Scientific32(t, e) => {
            let mut v = t.clone();
            v.append(", ");
            let exp = i64_text(*e as i64);
            v.append(exp.as_str());
            ("Scientific32(", v)
        },
        Number::Scientific64(t, e) => {
            let mut v = t.clone();
            v.append(", ");
            let exp = i64_text(*e as i64);
            v.append(exp.as_str());
            ("Scientific64(", v)
        },
    };
    let mut out = String::from_str(name);
    out.append(value.as_str());
    out.append(")");
    out
}

/// Appends a quoted text in brackets.
fn append_quoted_payload(out: &mut String, v: &str)
    ensures
        final(out)@ == old(out)@ + "("@ + quoted(v@) + ")"@,
{
    out.append("(");
    push_quoted(out, v);
    out.append(")");
}

/// Appends the debug form of a number in brackets.
fn append_number_payload(out: &mut String, n: &Number)
    ensures
        final(out)@ == old(out)@ + "("@ + number_debug(n@) + ")"@,
{
    out.append("(");
    let t = number_debug_text(n);
    out.append(t.as_str());
    out.append(")");
}

impl TokenKind {
    /// The debug form of the token kind (see [`token_debug_text`]).
    pub fn debug_text(&self) -> (r: String)
        ensures
            r@ == token_debug_text(*self),
    {
        let mut out = String::from_str(kind_name_text(self));
        match self {
            TokenKind::KeywordBool(b) => {
                out.append("(");
                out.append(
                    if *b {
                        "true"
                    } else {
                        "false"
                    },
                );
                out.append(")");
            },
            TokenKind::IdentifierAscii(v) => append_quoted_payload(&mut out, v.as_str()),
            TokenKind::IdentifierUnicode(v) => append_quoted_payload(&mut out, v.as_str()),
            TokenKind::StringLiteral(v) => append_quoted_payload(&mut out, v.as_str()),
            TokenKind::CharLiteral(v) => append_quoted_payload(&mut out, v.as_str()),
            TokenKind::Numeric(n) => append_number_payload(&mut out, n),
            TokenKind::Binary(n) => append_number_payload(&mut out, n),
            TokenKind::Octal(n) => append_number_payload(&mut out, n),
            TokenKind::Hexadecimal(n) => append_number_payload(&mut out, n),
            _ => {},
        }
        out
    }
}

} // verus!
