use descar_core::error::error_code::{ErrorCode, Severity};
use descar_core::error::errors::CompileError;
use descar_core::lex::error::LexError;
use descar_core::lex::lexer::{convert_lex_error, validate_escapes, LexerState};
use descar_core::location::source_span::SourceSpan;
use descar_core::tokens::number::Number;
use descar_core::tokens::parsers::base::{error_for_radix, parse_base_number, parse_binary, parse_hex, parse_octal};
use descar_core::tokens::parsers::numeric::parse_number;
use descar_core::tokens::parsers::suffix::{handle_suffix, split_numeric_and_suffix, NumericSuffix};
use descar_core::tokens::parsers::value::{
    handle_non_scientific, is_valid_integer_literal, parse_integer, parse_scientific, IntegerType,
};
use descar_core::syntax::ast::BinaryOp;
use descar_core::tokens::token::Token;
use descar_core::tokens::token_kind::TokenKind;

#[test]
fn plain_numbers_take_their_default_types() {
    assert_eq!(parse_number("42"), Ok(Number::Integer(42)));
    assert_eq!(parse_number("3.5"), Ok(Number::Float64("3.5".to_string())));
    assert_eq!(parse_number("1e5"), Ok(Number::Scientific64("1".to_string(), 5)));
    assert_eq!(parse_number("2.5E-3"), Ok(Number::Scientific64("2.5".to_string(), -3)));
    assert_eq!(parse_number("9223372036854775807"), Ok(Number::Integer(i64::MAX)));
    assert_eq!(parse_number("9223372036854775808"), Err(LexError::NumberOverflow));
}

#[test]
fn suffixes_select_the_integer_type() {
    assert_eq!(parse_number("42i8"), Ok(Number::I8(42)));
    assert_eq!(parse_number("42I16"), Ok(Number::I16(42)));
    assert_eq!(parse_number("42i32"), Ok(Number::I32(42)));
    assert_eq!(parse_number("42u8"), Ok(Number::U8(42)));
    assert_eq!(parse_number("42U16"), Ok(Number::U16(42)));
    assert_eq!(parse_number("42u32"), Ok(Number::U32(42)));
    assert_eq!(parse_number("42u"), Ok(Number::UnsignedInteger(42)));
    assert_eq!(parse_number("255u8"), Ok(Number::U8(255)));
    assert_eq!(parse_number("256u8"), Err(LexError::NumberOverflow));
    assert_eq!(parse_number("128i8"), Err(LexError::NumberOverflow));
}

#[test]
fn float_suffixes_keep_the_written_text() {
    assert_eq!(parse_number("2.5f"), Ok(Number::Float32("2.5".to_string())));
    assert_eq!(parse_number("6.02e23f"), Ok(Number::Scientific32("6.02".to_string(), 23)));
    assert_eq!(parse_number("2.5d"), Ok(Number::Float64("2.5".to_string())));
    assert_eq!(parse_number("100d"), Ok(Number::Float64("100".to_string())));
}

#[test]
fn unsupported_suffixes_are_rejected() {
    assert_eq!(parse_number("100i64"), Err(LexError::InvalidNumberSuffix));
    assert_eq!(parse_number("100u64"), Err(LexError::InvalidNumberSuffix));
    assert_eq!(parse_number("3.14f32"), Err(LexError::InvalidNumberSuffix));
    assert_eq!(parse_number("1.5u8"), Err(LexError::InvalidNumberSuffix));
}

#[test]
fn literals_split_into_number_and_suffix() {
    assert_eq!(split_numeric_and_suffix("42"), ("42", None));
    assert_eq!(split_numeric_and_suffix("42u8"), ("42", Some("u8")));
    assert_eq!(split_numeric_and_suffix("42u"), ("42", Some("u")));
    assert_eq!(split_numeric_and_suffix("100i64"), ("100", Some("i64")));
    assert_eq!(split_numeric_and_suffix("1e5"), ("1e5", None));
    assert_eq!(split_numeric_and_suffix("1ex"), ("1", Some("ex")));
    assert_eq!(NumericSuffix::parse("U32"), Some(NumericSuffix::U32));
    assert_eq!(NumericSuffix::parse("d"), Some(NumericSuffix::F64));
    assert_eq!(NumericSuffix::parse("i64"), None);
    assert_eq!(handle_suffix("7", Some("x")), Err(LexError::InvalidNumberSuffix));
    assert_eq!(handle_suffix("7", None), Ok(Number::Integer(7)));
}

#[test]
fn integer_and_scientific_helpers() {
    assert!(is_valid_integer_literal("0123"));
    assert!(!is_valid_integer_literal(""));
    assert!(!is_valid_integer_literal("12a"));
    assert_eq!(parse_integer("x", IntegerType::I8), Err(LexError::InvalidNumberSuffix));
    assert_eq!(parse_integer("65535", IntegerType::U16), Ok(Number::U16(65535)));
    assert_eq!(parse_integer("65536", IntegerType::U16), Err(LexError::NumberOverflow));
    assert_eq!(parse_scientific("12", false), None);
    assert_eq!(parse_scientific("1.5e", false), None);
    assert_eq!(parse_scientific("1.5e7", true), Some(Number::Scientific32("1.5".to_string(), 7)));
    assert_eq!(handle_non_scientific("12"), Ok(Number::Integer(12)));
    assert_eq!(handle_non_scientific("1.25"), Ok(Number::Float64("1.25".to_string())));
}

#[test]
fn base_literals_read_their_digits() {
    assert_eq!(parse_binary("#b101"), Ok(Number::Integer(5)));
    assert_eq!(parse_binary("#b101u"), Ok(Number::UnsignedInteger(5)));
    assert_eq!(parse_octal("#o777"), Ok(Number::Integer(511)));
    assert_eq!(parse_hex("#xFF"), Ok(Number::Integer(255)));
    assert_eq!(parse_hex("#xffU"), Ok(Number::UnsignedInteger(255)));
    assert_eq!(parse_hex("#x7FFFFFFFFFFFFFFF"), Ok(Number::Integer(i64::MAX)));
    assert_eq!(parse_hex("#x8000000000000000"), Err(LexError::NumberOverflow));
    assert_eq!(parse_hex("#xFFFFFFFFFFFFFFFFu"), Ok(Number::UnsignedInteger(u64::MAX)));
}

#[test]
fn malformed_base_literals_name_their_radix() {
    assert_eq!(parse_binary("#b102"), Err(LexError::MalformedBinary));
    assert_eq!(parse_binary("#bu"), Err(LexError::MalformedBinary));
    assert_eq!(parse_octal("#o789"), Err(LexError::MalformedOctal));
    assert_eq!(parse_hex("#xDEADG"), Err(LexError::MalformedHexadecimal));
    assert_eq!(parse_base_number(10, "#d12"), Err(LexError::InvalidToken));
    assert_eq!(error_for_radix(2), LexError::MalformedBinary);
    assert_eq!(error_for_radix(8), LexError::MalformedOctal);
    assert_eq!(error_for_radix(16), LexError::MalformedHexadecimal);
    assert_eq!(error_for_radix(3), LexError::InvalidToken);
}

#[test]
fn escapes_are_validated() {
    assert_eq!(validate_escapes("\"plain\""), Ok(()));
    assert_eq!(validate_escapes("\"a\\nb\\t\\\\\\\"\""), Ok(()));
    assert_eq!(validate_escapes("'\\''"), Ok(()));
    assert_eq!(validate_escapes("\"\\u{1F600}\""), Ok(()));
    assert_eq!(validate_escapes("\"\\q\""), Err(LexError::InvalidEscapeSequence));
    assert_eq!(validate_escapes("\"\\u{}\""), Err(LexError::InvalidEscapeSequence));
    assert_eq!(validate_escapes("\"\\u{1234567}\""), Err(LexError::InvalidEscapeSequence));
    assert_eq!(validate_escapes("no quotes"), Err(LexError::InvalidEscapeSequence));
}

#[test]
fn lexical_errors_become_located_compile_errors() {
    let span = SourceSpan::default();
    let cases = [
        (LexError::InvalidToken, ErrorCode::E0001, "Invalid or unrecognized token: \"$\"", None),
        (LexError::MalformedBinary, ErrorCode::E0002, "Malformed binary number: \"$\"", None),
        (LexError::MalformedOctal, ErrorCode::E0003, "Malformed octal number: \"$\"", None),
        (LexError::MalformedHexadecimal, ErrorCode::E0004, "Malformed hexadecimal number: \"$\"", None),
        (
            LexError::UnterminatedString,
            ErrorCode::E0005,
            "Unterminated string literal: \"$\"",
            Some("Add a closing double quote."),
        ),
        (
            LexError::UnterminatedChar,
            ErrorCode::E0006,
            "Unterminated character literal: \"$\"",
            Some("Add a closing single quote."),
        ),
        (
            LexError::InvalidEscapeSequence,
            ErrorCode::E0007,
            "Invalid escape sequence: \"$\"",
            Some("Use a supported escape sequence."),
        ),
        (
            LexError::UnterminatedComment,
            ErrorCode::E0008,
            "Unterminated multi-line comment: \"$\"",
            Some("Add a closing */ to the comment."),
        ),
        (LexError::InvalidNumberSuffix, ErrorCode::E0009, "Invalid number suffix", Some("Use a supported numeric suffix.")),
        (
            LexError::NumberOverflow,
            ErrorCode::E0010,
            "Number literal overflow: \"$\"",
            Some("Use a smaller value or a compatible type."),
        ),
    ];
    for (error, code, message, help) in cases {
        let converted = convert_lex_error(error, span.clone(), "$");
        assert_eq!(
            converted,
            CompileError::LexerError {
                code: Some(code),
                message: message.to_string(),
                span: span.clone(),
                help: help.map(str::to_string),
            }
        );
        assert_eq!(code.severity(), Severity::Error);
    }
    assert_eq!(ErrorCode::E1013.severity(), Severity::Warning);
    assert_eq!(ErrorCode::E2024.code(), "E2024");
    assert_eq!(LexError::UnterminatedComment.to_text(), "unterminated multi-line comment");
}

#[test]
fn the_lexer_state_steps_through_scanned_tokens() {
    let source = "var x \"\\q\"\n";
    let mut state = LexerState::new("main.dr", source);
    assert!(!state.is_finished());

    let first = state.next_token(Some((Ok(TokenKind::KeywordVar), 0..3)), "var").unwrap().unwrap();
    assert_eq!(first.kind, TokenKind::KeywordVar);
    assert_eq!(first.span.start().line(), 1);
    assert_eq!(first.span.start().column(), 1);
    assert_eq!(first.span.end().column(), 4);

    let error = state.next_token(Some((Err(LexError::InvalidToken), 4..5)), "x").unwrap().unwrap_err();
    assert_eq!(error.error_code(), Some(&ErrorCode::E0001));
    assert_eq!(error.message(), "Invalid or unrecognized token: \"x\"");

    let bad_string = state
        .next_token(Some((Ok(TokenKind::StringLiteral("\\q".to_string())), 6..10)), "\"\\q\"")
        .unwrap()
        .unwrap_err();
    assert_eq!(bad_string.error_code(), Some(&ErrorCode::E0007));

    let eof = state.next_token(None, "").unwrap().unwrap();
    assert_eq!(eof.kind, TokenKind::Eof);
    assert_eq!(eof.span.start().line(), 2);
    assert_eq!(eof.span.start().offset(), 11);
    assert!(state.is_finished());
    assert!(state.next_token(None, "").is_none());
    assert_eq!(state.get_line_tracker().get_line(1), Some("var x \"\\q\""));
}

#[test]
fn token_kinds_print_as_in_diagnostics() {
    assert!(TokenKind::TypeBool.is_type());
    assert!(!TokenKind::KeywordVar.is_type());
    assert_eq!(TokenKind::PlusEqual.to_text(), "'+='");
    assert_eq!(TokenKind::KeywordBool(true).to_text(), "boolean 'true'");
    assert_eq!(TokenKind::Numeric(Number::Integer(7)).to_text(), "number '7'");
    assert_eq!(TokenKind::Eof.to_text(), "end of file");
}

#[test]
fn misplaced_tokens_are_quoted_in_their_debug_form() {
    let token = |kind: TokenKind| Token { kind, span: SourceSpan::default() };
    assert_eq!(BinaryOp::get_op(&token(TokenKind::Plus)), Ok(BinaryOp::Add));
    assert_eq!(BinaryOp::get_op(&token(TokenKind::ShiftRightEqual)), Ok(BinaryOp::ShiftRightEqual));
    let error = BinaryOp::get_op(&token(TokenKind::Semicolon)).unwrap_err();
    assert_eq!(error.error_code(), Some(&ErrorCode::E1005));
    assert_eq!(error.message(), "Invalid binary operator: Semicolon");
    let kinds = [
        TokenKind::KeywordBool(true),
        TokenKind::IdentifierAscii("x_1".to_string()),
        TokenKind::StringLiteral("a\"b\\n\n\t\u{1}\u{7f}é".to_string()),
        TokenKind::CharLiteral("'".to_string()),
        TokenKind::Numeric(Number::Integer(-5)),
        TokenKind::Hexadecimal(Number::UnsignedInteger(255)),
        TokenKind::Eof,
    ];
    for kind in kinds {
        assert_eq!(kind.debug_text(), format!("{kind:?}"));
    }
    assert_eq!(
        TokenKind::Numeric(Number::Scientific64("6.02".to_string(), 23)).debug_text(),
        "Numeric(Scientific64(6.02, 23))"
    );
}
