use descar_core::error::error_code::ErrorCode;
use descar_core::error::errors::CompileError;
use descar_core::error::internal::DescarError;
use descar_core::location::source_id::SourceId;
use descar_core::location::source_location::{SourceLocation, UNKNOWN};
use descar_core::location::source_span::SourceSpan;
use descar_core::semantic::type_checker::TypeChecker;
use descar_core::syntax::ast::{BinaryOp, Expr, Stmt, Type, UnaryOp, UnaryOpSide, VarBinding};
use descar_core::tokens::number::Number;
use descar_core::tokens::parsers::value::{
    handle_default_suffix, handle_f64_suffix, handle_float_suffix, parse_integer, IntegerType,
};

fn variable(name: &str, span: SourceSpan) -> Expr {
    Expr::Variable { name: name.into(), span, ty: None }
}

fn number(span: SourceSpan) -> Expr {
    Expr::new_number_literal(Number::Integer(1), span)
}

fn binding(name: &str, initializer: Option<Expr>) -> VarBinding {
    VarBinding { name: name.into(), initializer, ty: None }
}

fn immutable_declarations(span: &SourceSpan) -> Vec<Stmt> {
    let array_type = Type::Array { element_type: Box::new(Type::I64), size: Box::new(number(span.clone())) };

    vec![
        Stmt::VarDeclaration {
            bindings: vec![binding("value", Some(number(span.clone())))],
            type_annotation: Type::I64,
            is_mutable: false,
            span: span.clone(),
        },
        Stmt::VarDeclaration {
            bindings: vec![binding("items", None)],
            type_annotation: array_type,
            is_mutable: false,
            span: span.clone(),
        },
    ]
}

fn unary(op: UnaryOp, side: UnaryOpSide, expr: Expr, span: SourceSpan) -> Stmt {
    Stmt::Expression { expr: Box::new(Expr::Unary { op, side, expr: Box::new(expr), span, ty: None }) }
}

fn count_code(errors: &[CompileError], code: ErrorCode) -> usize {
    errors.iter().filter_map(CompileError::error_code).filter(|c| **c == code).count()
}

fn has_code(errors: &[CompileError], code: ErrorCode) -> bool {
    errors.iter().any(|error| error.error_code() == Some(&code))
}

#[test]
fn formats_unsupported_extension() {
    let error = DescarError::UnsupportedSourceExtension { extension: "txt".into() };

    assert_eq!(error.to_string(), "unsupported source file extension: expected `.dr`, found `txt`");
}

#[test]
fn preserves_source_read_context() {
    let error = DescarError::SourceRead { path: "examples/hello.dr".into(), message: "permission denied".into() };

    assert_eq!(error.to_string(), "failed to read source file `examples/hello.dr`: permission denied");
}

#[test]
fn function_return_inside_while_body_counts_as_return() {
    let span = SourceSpan::default();
    let statements = [Stmt::Function {
        name: "while_return".into(),
        parameters: vec![],
        return_type: Type::I64,
        body: Box::new(Stmt::While {
            condition: Box::new(Expr::new_bool_literal(true, span.clone())),
            body: Box::new(Stmt::Return { value: Some(number(span.clone())), span: span.clone() }),
            span: span.clone(),
        }),
        span: span.clone(),
    }];

    let errors = TypeChecker::new().check(&statements);
    assert!(!has_code(&errors, ErrorCode::E2003), "unexpected missing-return error: {errors:#?}");
}

#[test]
fn function_return_inside_for_body_counts_as_return() {
    let span = SourceSpan::default();
    let statements = [Stmt::Function {
        name: "for_return".into(),
        parameters: vec![],
        return_type: Type::I64,
        body: Box::new(Stmt::For {
            initializer: None,
            condition: Some(Expr::new_bool_literal(true, span.clone())),
            increment: None,
            body: Box::new(Stmt::Return { value: Some(number(span.clone())), span: span.clone() }),
            span: span.clone(),
        }),
        span: span.clone(),
    }];

    let errors = TypeChecker::new().check(&statements);
    assert!(!has_code(&errors, ErrorCode::E2003), "unexpected missing-return error: {errors:#?}");
}

#[test]
fn immutable_increment_and_decrement_reject_prefix_and_postfix_targets() {
    let span = SourceSpan::default();
    let array_access = || Expr::ArrayAccess {
        array: Box::new(variable("items", span.clone())),
        index: Box::new(number(span.clone())),
        span: span.clone(),
        ty: None,
    };

    let cases = [
        (UnaryOp::Increment, UnaryOpSide::Prefix, variable("value", span.clone())),
        (UnaryOp::Increment, UnaryOpSide::Postfix, variable("value", span.clone())),
        (UnaryOp::Decrement, UnaryOpSide::Prefix, variable("value", span.clone())),
        (UnaryOp::Decrement, UnaryOpSide::Postfix, variable("value", span.clone())),
        (UnaryOp::Increment, UnaryOpSide::Prefix, array_access()),
        (UnaryOp::Increment, UnaryOpSide::Postfix, array_access()),
        (
            UnaryOp::Decrement,
            UnaryOpSide::Prefix,
            Expr::Grouping { expr: Box::new(array_access()), span: span.clone(), ty: None },
        ),
        (
            UnaryOp::Decrement,
            UnaryOpSide::Postfix,
            Expr::Grouping { expr: Box::new(array_access()), span: span.clone(), ty: None },
        ),
    ];

    for (op, side, target) in cases {
        let mut statements = immutable_declarations(&span);
        statements.push(unary(op, side, target, span.clone()));

        let errors = TypeChecker::new().check(&statements);

        assert_eq!(count_code(&errors, ErrorCode::E2024), 1, "expected one E2024 for {op:?} {side:?}");
        assert!(
            !has_code(&errors, ErrorCode::E2018),
            "immutable mutation must be rejected with E2024 before numeric validation"
        );
    }
}

const COMPOUND_OPERATORS: [BinaryOp; 10] = [
    BinaryOp::AddEqual,
    BinaryOp::SubtractEqual,
    BinaryOp::MultiplyEqual,
    BinaryOp::DivideEqual,
    BinaryOp::ModuloEqual,
    BinaryOp::BitwiseAndEqual,
    BinaryOp::BitwiseOrEqual,
    BinaryOp::BitwiseXorEqual,
    BinaryOp::ShiftLeftEqual,
    BinaryOp::ShiftRightEqual,
];

fn compound_statements(op: BinaryOp, is_mutable: bool, span: &SourceSpan) -> Vec<Stmt> {
    vec![
        Stmt::VarDeclaration {
            bindings: vec![binding("value", Some(number(span.clone())))],
            type_annotation: Type::I64,
            is_mutable,
            span: span.clone(),
        },
        Stmt::Expression {
            expr: Box::new(Expr::Binary {
                left: Box::new(variable("value", span.clone())),
                op,
                right: Box::new(number(span.clone())),
                span: span.clone(),
                ty: None,
            }),
        },
    ]
}

#[test]
fn compound_operators_accept_mutable_targets() {
    let span = SourceSpan::default();
    for op in COMPOUND_OPERATORS {
        let statements = compound_statements(op, true, &span);
        let errors = TypeChecker::new().check(&statements);
        assert!(errors.is_empty(), "unexpected errors for {op:?}: {errors:#?}");
    }
}

#[test]
fn compound_operators_reject_immutable_targets_with_e2024() {
    let span = SourceSpan::default();
    for op in COMPOUND_OPERATORS {
        let statements = compound_statements(op, false, &span);
        let errors = TypeChecker::new().check(&statements);
        assert_eq!(count_code(&errors, ErrorCode::E2024), 1, "expected one E2024 for {op:?}: {errors:#?}");
    }
}

#[test]
fn compound_arithmetic_and_bitwise_operations_promote_numeric_operands() {
    let span = SourceSpan::default();
    let declarations = [Stmt::VarDeclaration {
        bindings: vec![binding("value", Some(Expr::new_number_literal(Number::I8(1), span.clone())))],
        type_annotation: Type::I8,
        is_mutable: true,
        span: span.clone(),
    }];

    let mut checker = TypeChecker::new();
    checker.visit_statements(&declarations);

    let arithmetic = checker.visit_binary_expr(
        &variable("value", span.clone()),
        BinaryOp::AddEqual,
        &Expr::new_number_literal(Number::Integer(1), span.clone()),
        &span,
    );
    assert_eq!(arithmetic, Some(Type::I64));

    let bitwise = checker.visit_binary_expr(
        &variable("value", span.clone()),
        BinaryOp::BitwiseAndEqual,
        &Expr::new_number_literal(Number::Integer(1), span.clone()),
        &span,
    );
    assert_eq!(bitwise, Some(Type::I64));
    assert!(checker.errors.is_empty(), "unexpected compound operation errors: {:#?}", checker.errors);
}

#[test]
fn mutable_non_numeric_increment_still_uses_e2018() {
    let span = SourceSpan::default();
    let statements = [
        Stmt::VarDeclaration {
            bindings: vec![binding("flag", Some(Expr::new_bool_literal(true, span.clone())))],
            type_annotation: Type::Bool,
            is_mutable: true,
            span: span.clone(),
        },
        unary(UnaryOp::Increment, UnaryOpSide::Prefix, variable("flag", span.clone()), span),
    ];

    let errors = TypeChecker::new().check(&statements);

    assert!(has_code(&errors, ErrorCode::E2018));
    assert!(!has_code(&errors, ErrorCode::E2024));
}

#[test]
fn parses_integer_value() {
    assert_eq!(parse_integer("42", IntegerType::U32).unwrap(), Number::U32(42));
}

#[test]
fn parses_default_integer_and_float_values() {
    assert_eq!(handle_default_suffix("42").unwrap(), Number::Integer(42));
    let float = handle_default_suffix("3.14").unwrap();
    assert_eq!(float, Number::Float64("3.14".to_string()));
    match float {
        Number::Float64(text) => assert_eq!(text.parse::<f64>().unwrap(), 3.14),
        other => panic!("expected a 64-bit float, got {other:?}"),
    }
}

#[test]
fn preserves_scientific_values() {
    assert_eq!(handle_float_suffix("6.02e23").unwrap(), Number::Scientific32("6.02".to_string(), 23));
    assert_eq!(handle_f64_suffix("6.02e23").unwrap(), Number::Scientific64("6.02".to_string(), 23));
}

#[test]
fn representations_are_stable() {
    let values = [
        SourceId::file_path("src/main.dr".to_string()),
        SourceId::virtual_resource("jar:file:///lib/foo.jar!/Foo.dr".to_owned()).unwrap(),
        SourceId::in_memory_module("repl::session_1".to_owned()).unwrap(),
        SourceId::generated("macro expansion #42".to_owned()).unwrap(),
    ];
    let rendered = values
        .iter()
        .map(|id| format!("identifier={}\ndescribe={}\ndisplay={}", id.identifier(), id.describe(), id.describe()))
        .collect::<Vec<_>>()
        .join("\n---\n");
    assert_eq!(
        rendered,
        "identifier=src/main.dr
describe=file: src/main.dr
display=file: src/main.dr
---
identifier=jar:file:///lib/foo.jar!/Foo.dr
describe=virtual: jar:file:///lib/foo.jar!/Foo.dr
display=virtual: jar:file:///lib/foo.jar!/Foo.dr
---
identifier=repl::session_1
describe=in-memory module: repl::session_1
display=in-memory module: repl::session_1
---
identifier=<generated:macro expansion #42>
describe=generated: macro expansion #42
display=generated: macro expansion #42"
    );
}

#[test]
fn representations_and_errors_are_stable() {
    let complete = SourceLocation::create_full(12, 34, 56, 56, 78, 90).unwrap();
    let unknown = SourceLocation::create(1, 1, 0).unwrap();
    let errors = [
        SourceLocation::create(0, 1, 0).unwrap_err(),
        SourceLocation::create(1, 0, 0).unwrap_err(),
        SourceLocation::create(1, 1, -1).unwrap_err(),
        SourceLocation::create_full(1, 1, 0, -1, UNKNOWN, UNKNOWN).unwrap_err(),
        // `UNKNOWN` is -1 and marks an optional offset as not computed, so -1 is
        // accepted there (see `unknown_offsets_are_accepted`); -2 is refused.
        SourceLocation::create_full(1, 1, 0, 0, -2, UNKNOWN).unwrap_err(),
        SourceLocation::create_full(1, 1, 0, 0, UNKNOWN, -2).unwrap_err(),
        SourceLocation::create(1, 1, i32::MAX as i64 + 1).unwrap_err(),
    ];
    let rendered = format!(
        "complete={complete:?}\ndisplay={}\nunknown={unknown:?}\nflags=utf8:{} code_point:{}\nerrors=\n{}",
        complete.to_text(),
        complete.has_utf8_offset(),
        complete.has_code_point_offset(),
        errors.iter().map(|e| e.to_text()).collect::<Vec<_>>().join("\n")
    );
    assert_eq!(
        rendered,
        "complete=SourceLocation { line: 12, column: 34, offset: 56, index: 56, utf8_offset: 78, code_point_offset: 90 }
display=line 12:column 34
unknown=SourceLocation { line: 1, column: 1, offset: 0, index: 0, utf8_offset: -1, code_point_offset: -1 }
flags=utf8:true code_point:true
errors=
line must be >= 1 (1-based), got: 0
column must be >= 1 (1-based), got: 0
offset must be >= 0, got: -1
index must be >= 0, got: -1
utf8Offset must be >= 0 or UNKNOWN, got: -2
codePointOffset must be >= 0 or UNKNOWN, got: -2
offset 2147483648 does not fit into an i32 index"
    );
}

#[test]
fn unknown_offsets_are_accepted() {
    assert!(SourceLocation::create_full(1, 1, 0, 0, UNKNOWN, UNKNOWN).is_ok());
    assert!(SourceLocation::create_full(1, 1, 0, 0, -1, -1).is_ok());
}
