use descar_core::error::error_code::ErrorCode;
use descar_core::error::errors::CompileError;
use descar_core::lex::lexer::partition_steps;
use descar_core::location::source_location::SourceLocation;
use descar_core::location::source_span::SourceSpan;
use descar_core::location::utf8::{char_utf16_width, char_utf8_width};
use descar_core::printers::ast_printer::{format_binary_op, format_unary_op};
use descar_core::semantic::config::{LanguageVersion, SemanticConfig};
use descar_core::semantic::context::SemanticContext;
use descar_core::semantic::diagnostics::Diagnostic;
use descar_core::semantic::ids::{ScopeId, SymbolId};
use descar_core::semantic::scope::{Scope, SymbolKind, SymbolTable as SymbolArena};
use descar_core::semantic::symbol_table::{FunctionSymbol, SymbolTable};
use descar_core::semantic::type_checker::TypeChecker;
use descar_core::semantic::typed_ast::ResolvedType;
use descar_core::semantic::types::BuiltinType;
use descar_core::syntax::ast::model::{expr_eq, type_eq};
use descar_core::syntax::ast::type_text::type_to_text;
use descar_core::syntax::ast::{BinaryOp, Expr, LiteralValue, Parameter, Stmt, Type, UnaryOp};
use descar_core::tokens::number::Number;
use descar_core::tokens::token::Token;
use descar_core::tokens::token_kind::TokenKind;

fn literal(value: i64) -> Expr {
    Expr::new_number_literal(Number::Integer(value), SourceSpan::default())
}

#[test]
fn configurations_keep_their_settings() {
    let version = LanguageVersion::new(1, 2, 3);
    let config = SemanticConfig::new(version);
    assert_eq!(config.language_version(), version);
    assert_eq!(config.runtime_namespace(), "__descar_builtin");
    let renamed = config.with_runtime_namespace("rt".to_string());
    assert_eq!(renamed.runtime_namespace(), "rt");
    assert_eq!(SemanticConfig::default().language_version(), LanguageVersion::new(0, 1, 0));
}

#[test]
fn a_fresh_context_registers_the_builtin_types() {
    let context = SemanticContext::new(SemanticConfig::default());
    assert!(!context.is_frozen());
    assert_eq!(context.global_scope(), ScopeId(0));
    assert_eq!(context.symbols().symbol_count(), 15);
    assert_eq!(context.builtins().type_symbol(BuiltinType::I8), SymbolId(0));
    let all = context.builtins().type_symbols();
    assert_eq!(all.len(), 15);
    for (k, (builtin, id)) in all.iter().enumerate() {
        assert_eq!(builtin.ordinal(), k);
        assert_eq!(*builtin, BuiltinType::at_ordinal(k));
        assert_eq!(id.index() as usize, k);
    }
    assert_eq!(context.types().len(), 15);
    assert!(context.diagnostics().is_empty());
}

#[test]
fn the_symbol_arena_scopes_builtins() {
    let mut arena = SymbolArena::new();
    assert_eq!(arena.global_scope(), ScopeId(0));
    let id = arena.insert_builtin("int".to_string(), SymbolKind::BuiltinType);
    assert_eq!(id, SymbolId(0));
    assert_eq!(arena.symbol_count(), 1);
    assert!(arena.symbol(id).is_some());
    assert!(arena.symbol(SymbolId(7)).is_none());
    let scope = arena.scope_mut(ScopeId(0)).unwrap();
    assert_eq!(scope.insert("x".to_string(), id), None);
    assert_eq!(scope.insert("x".to_string(), SymbolId(3)), Some(id));
    assert_eq!(arena.scope(ScopeId(0)).unwrap().lookup("x"), Some(SymbolId(3)));
    assert!(arena.scope(ScopeId(1)).is_none());
    let mut fresh = Scope::new(ScopeId(2), Some(ScopeId(0)), None);
    assert!(fresh.is_empty());
    fresh.insert("y".to_string(), SymbolId(1));
    assert_eq!(fresh.lookup("y"), Some(SymbolId(1)));
    assert_eq!(fresh.lookup("z"), None);
}

#[test]
fn the_symbol_table_tracks_the_current_function() {
    let mut table = SymbolTable::new();
    assert!(table.current_function().is_none());
    assert_eq!(table.current_function_return_type(), None);
    table.enter_function(FunctionSymbol {
        name: "f".to_string(),
        parameters: vec![Parameter::new("a".to_string(), Type::I32, SourceSpan::default())],
        return_type: Type::Bool,
        defined_at: SourceSpan::default(),
    });
    assert_eq!(table.current_function().unwrap().name, "f");
    assert_eq!(table.current_function_return_type(), Some(Type::Bool));
    table.exit_function();
    assert!(table.current_function().is_none());
    assert!(table.current_scope().is_some());
    assert!(table.current_symbol("f").is_none());
}

#[test]
fn numbers_have_their_types() {
    let checker = TypeChecker::new();
    assert_eq!(checker.type_of_number(&Number::U16(1)), Type::U16);
    assert_eq!(checker.type_of_number(&Number::Scientific32("1".to_string(), 2)), Type::F32);
    assert_eq!(checker.type_of_number(&Number::Float64("1.5".to_string())), Type::F64);
    assert_eq!(checker.type_of_number(&Number::UnsignedInteger(3)), Type::U64);
}

#[test]
fn expressions_carry_spans_and_types() {
    let mut e = literal(3);
    assert_eq!(e.ty(), None);
    e.set_ty(Type::I64);
    assert_eq!(e.ty(), Some(&Type::I64));
    assert_eq!(e.span(), &SourceSpan::default());
    assert!(matches!(Expr::null_expr(SourceSpan::default()), Expr::Literal { value: LiteralValue::NullPtr, .. }));
    assert!(matches!(
        Expr::new_nullptr_literal(SourceSpan::default()),
        Expr::Literal { value: LiteralValue::NullPtr, .. }
    ));
    assert!(matches!(
        Expr::new_string_literal("s".to_string(), SourceSpan::default()),
        Expr::Literal { value: LiteralValue::StringLit(_), .. }
    ));
    assert!(matches!(
        Expr::new_char_literal("c".to_string(), SourceSpan::default()),
        Expr::Literal { value: LiteralValue::CharLit(_), .. }
    ));
    let stmt = Stmt::Expression { expr: Box::new(literal(1)) };
    assert_eq!(stmt.span(), &SourceSpan::default());
    assert!(expr_eq(&literal(1), &literal(1)));
    assert!(!expr_eq(&literal(1), &literal(2)));
    assert!(type_eq(&Type::Vector { element_type: Box::new(Type::I8) }, &Type::Vector { element_type: Box::new(Type::I8) }));
    assert!(!type_eq(&Type::I8, &Type::U8));
}

#[test]
fn types_print_in_source_form() {
    assert_eq!(type_to_text(&Type::I32), "i32");
    assert_eq!(
        type_to_text(&Type::Array { element_type: Box::new(Type::U8), size: Box::new(literal(4)) }),
        "[u8; 4]"
    );
    assert_eq!(
        type_to_text(&Type::Array { element_type: Box::new(Type::U8), size: Box::new(Expr::Variable {
            name: "n".to_string(),
            span: SourceSpan::default(),
            ty: None,
        }) }),
        "[u8; ?]"
    );
    assert_eq!(
        type_to_text(&Type::Function { parameters: vec![Type::I8, Type::Bool], return_type: Box::new(Type::Void) }),
        "fn(i8, bool) -> void"
    );
    assert_eq!(type_to_text(&Type::Custom { name: "Point".to_string() }), "Point");
    let function = ResolvedType::function(vec![Type::I8], Type::Char);
    assert_eq!(function.return_type(), &Type::Char);
}

#[test]
fn operators_print_in_capitals() {
    assert_eq!(format_binary_op(BinaryOp::BitwiseXorEqual), "BITWISEXOREQUAL");
    assert_eq!(format_unary_op(UnaryOp::BitwiseNot), "BITWISENOT");
    assert_eq!(BinaryOp::ShiftLeft.name(), "ShiftLeft");
}

#[test]
fn character_widths_follow_the_encodings() {
    assert_eq!(char_utf8_width('a'), 1);
    assert_eq!(char_utf8_width('é'), 2);
    assert_eq!(char_utf8_width('€'), 3);
    assert_eq!(char_utf8_width('😀'), 4);
    assert_eq!(char_utf16_width('€'), 1);
    assert_eq!(char_utf16_width('😀'), 2);
}

#[test]
fn lexer_steps_split_into_tokens_and_errors() {
    let token = |kind: TokenKind| Token { kind, span: SourceSpan::default() };
    let steps = vec![
        Ok(token(TokenKind::KeywordVar)),
        Err(CompileError::IoError("first".to_string())),
        Ok(token(TokenKind::Semicolon)),
        Err(CompileError::IoError("second".to_string())),
        Ok(token(TokenKind::Eof)),
    ];
    let (tokens, errors) = partition_steps(steps);
    assert_eq!(
        tokens.iter().map(|t| t.kind.to_text()).collect::<Vec<_>>(),
        vec!["'var'".to_string(), "';'".to_string(), "end of file".to_string()]
    );
    assert_eq!(errors, vec![CompileError::IoError("first".to_string()), CompileError::IoError("second".to_string())]);
    assert_eq!(partition_steps(vec![]), (vec![], vec![]));
}

#[test]
fn diagnostics_keep_the_error_they_report() {
    let error = CompileError::TypeError {
        code: Some(ErrorCode::E2018),
        message: "bad operand".to_string(),
        span: SourceSpan::default(),
        help: None,
    };
    let diagnostic = Diagnostic::error(error);
    assert_eq!(diagnostic.message(), "bad operand");
    assert_eq!(diagnostic.span(), Some(&SourceSpan::default()));
    assert_eq!(diagnostic.reported_error().and_then(CompileError::error_code), Some(&ErrorCode::E2018));
    let internal = Diagnostic::internal("oops".to_string(), None);
    assert!(internal.reported_error().is_none());
    assert!(internal.span().is_none());
}

#[test]
fn spans_compare_by_their_parts() {
    let a = SourceSpan::point("a.dr".to_string(), SourceLocation::create(1, 1, 0).unwrap());
    let b = SourceSpan::point("a.dr".to_string(), SourceLocation::create(1, 1, 0).unwrap());
    let c = SourceSpan::point("b.dr".to_string(), SourceLocation::create(1, 1, 0).unwrap());
    assert!(a.same_as(&b));
    assert!(!a.same_as(&c));
}

#[test]
fn locations_order_by_offset() {
    let early = SourceLocation::create(3, 9, 10).unwrap();
    let late = SourceLocation::create(1, 1, 20).unwrap();
    assert!(early < late);
    assert!(late > early);
    let same_offset = SourceLocation::create_full(2, 2, 10, 10, 10, 10).unwrap();
    assert_eq!(early.partial_cmp(&same_offset), Some(std::cmp::Ordering::Equal));
}

#[test]
fn merged_spans_cover_both() {
    let a = SourceSpan::new(
        "a.dr".to_string(),
        SourceLocation::create(1, 3, 2).unwrap(),
        SourceLocation::create(1, 6, 5).unwrap(),
    );
    let b = SourceSpan::new(
        "b.dr".to_string(),
        SourceLocation::create(1, 1, 0).unwrap(),
        SourceLocation::create(1, 4, 3).unwrap(),
    );
    let m = a.merge(&b);
    assert_eq!(m.file_path(), "a.dr");
    assert_eq!(m.start(), b.start());
    assert_eq!(m.end(), a.end());
}

#[test]
fn type_relations_behave_as_their_laws_say() {
    let checker = TypeChecker::new();
    let types = [Type::I8, Type::U32, Type::F64, Type::Bool, Type::Vector { element_type: Box::new(Type::I8) }];
    for a in &types {
        assert!(checker.is_same_type(a, a));
        for b in &types {
            assert_eq!(checker.is_same_type(a, b), checker.is_same_type(b, a));
        }
    }
    assert!(checker.is_assignable(&Type::I8, &Type::I32));
    assert!(checker.is_assignable(&Type::I32, &Type::I64));
    assert!(checker.is_assignable(&Type::I8, &Type::I64));
    assert!(!checker.is_assignable(&Type::I64, &Type::I8));
}

#[test]
fn spans_order_by_file_then_start_then_end() {
    let span = |file: &str, start: i64, end: i64| {
        SourceSpan::new(
            file.to_string(),
            SourceLocation::create(1, 1, start).unwrap(),
            SourceLocation::create(1, 1, end).unwrap(),
        )
    };
    assert!(span("a.dr", 9, 9) < span("b.dr", 0, 0));
    assert!(span("ab.dr", 0, 0) > span("a", 5, 5));
    assert!(span("z.dr", 0, 0) < span("é.dr", 0, 0));
    assert!(span("a.dr", 1, 9) < span("a.dr", 2, 3));
    assert!(span("a.dr", 1, 2) < span("a.dr", 1, 3));
    assert_eq!(span("a.dr", 1, 2).partial_cmp(&span("a.dr", 1, 2)), Some(std::cmp::Ordering::Equal));
    let texts = ["a", "ab", "b", "é", "z", ""];
    for x in texts {
        for y in texts {
            assert_eq!(span(x, 0, 0).partial_cmp(&span(y, 0, 0)), Some(x.cmp(y)));
        }
    }
}

#[test]
fn identical_types_are_always_assignable() {
    let checker = TypeChecker::new();
    let sized_by_name = Type::Array {
        element_type: Box::new(Type::I32),
        size: Box::new(Expr::Variable { name: "n".to_string(), span: SourceSpan::default(), ty: None }),
    };
    assert!(checker.is_assignable(&sized_by_name, &sized_by_name));
    assert!(checker.is_assignable(&Type::Custom { name: "P".to_string() }, &Type::Custom { name: "P".to_string() }));
    assert!(!checker.is_assignable(&Type::Custom { name: "P".to_string() }, &Type::Custom { name: "Q".to_string() }));
}
