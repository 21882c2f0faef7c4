use std::collections::HashMap;

use descar_core::error::error_code::ErrorCode;
use descar_core::error::errors::CompileError;
use descar_core::location::source_location::SourceLocation;
use descar_core::location::source_span::SourceSpan;
use descar_core::semantic::config::{LanguageVersion, SemanticConfig};
use descar_core::semantic::context::{InitializationStatus, SemanticContext};
use descar_core::semantic::diagnostics::{Diagnostic, DiagnosticEngine, DiagnosticSeverity};
use descar_core::semantic::symbol_table::{FunctionSymbol, ScopeKind, Symbol, SymbolTable, VariableSymbol};
use descar_core::semantic::type_checker::TypeChecker;
use descar_core::semantic::typed_ast::{FullyTypedAst, ResolvedType, TypedExpr, TypedExprKind, TypedStmt};
use descar_core::semantic::types::{BuiltinType, TypeContext};
use descar_core::semantic::validator::{validate_ast_shape, AstValidationError};
use descar_core::syntax::ast::{BinaryOp, Expr, Stmt, Type, VarBinding};
use descar_core::syntax::precedence::Precedence;
use descar_core::tokens::number::Number;
use descar_core::tokens::token::Token;
use descar_core::tokens::token_kind::TokenKind;

fn span_in(file: &str, start: i64, end: i64) -> SourceSpan {
    SourceSpan::new(
        file.to_string(),
        SourceLocation::create(1, (start + 1) as i32, start).unwrap(),
        SourceLocation::create(1, (end + 1) as i32, end).unwrap(),
    )
}

fn integer(value: i64) -> Expr {
    Expr::new_number_literal(Number::Integer(value), SourceSpan::default())
}

fn var(name: &str) -> Expr {
    Expr::Variable { name: name.to_string(), span: SourceSpan::default(), ty: None }
}

fn declare(name: &str, ty: Type, init: Expr, is_mutable: bool) -> Stmt {
    Stmt::VarDeclaration {
        bindings: vec![VarBinding::new(name.to_string(), Some(init))],
        type_annotation: ty,
        is_mutable,
        span: SourceSpan::default(),
    }
}

/// The address of a node, the key of its recorded type.
fn address(expr: &Expr) -> usize {
    let shown = format!("{expr:p}");
    usize::from_str_radix(shown.trim_start_matches("0x"), 16).unwrap()
}

fn codes(errors: &[CompileError]) -> Vec<ErrorCode> {
    errors.iter().filter_map(|e| e.error_code().copied()).collect()
}

#[test]
fn well_typed_programs_have_no_errors() {
    let program = [
        declare("a", Type::I64, integer(1), true),
        Stmt::Expression {
            expr: Box::new(Expr::Binary {
                left: Box::new(var("a")),
                op: BinaryOp::AddEqual,
                right: Box::new(integer(2)),
                span: SourceSpan::default(),
                ty: None,
            }),
        },
    ];
    assert!(TypeChecker::new().check(&program).is_empty());
}

#[test]
fn undeclared_variables_and_redeclarations_are_reported() {
    let undeclared = [Stmt::Expression { expr: Box::new(var("missing")) }];
    assert!(!TypeChecker::new().check(&undeclared).is_empty());

    let twice = [declare("a", Type::I64, integer(1), false), declare("a", Type::I64, integer(2), false)];
    assert_eq!(codes(&TypeChecker::new().check(&twice)), vec![ErrorCode::E2032]);
}

#[test]
fn a_function_without_return_is_reported() {
    let program = [Stmt::Function {
        name: "f".to_string(),
        parameters: vec![],
        return_type: Type::I64,
        body: Box::new(Stmt::Block { statements: vec![], span: SourceSpan::default() }),
        span: SourceSpan::default(),
    }];
    assert!(codes(&TypeChecker::new().check(&program)).contains(&ErrorCode::E2003));
}

#[test]
fn break_outside_a_loop_is_reported() {
    let program = [Stmt::Break { span: SourceSpan::default() }];
    assert_eq!(TypeChecker::new().check(&program).len(), 1);
    let inside = [Stmt::While {
        condition: Box::new(Expr::new_bool_literal(true, SourceSpan::default())),
        body: Box::new(Stmt::Break { span: SourceSpan::default() }),
        span: SourceSpan::default(),
    }];
    assert!(TypeChecker::new().check(&inside).is_empty());
}

#[test]
fn numeric_promotion_and_compatibility() {
    let checker = TypeChecker::new();
    assert_eq!(checker.promote_numeric_types(&Type::I8, &Type::I64), Type::I64);
    assert_eq!(checker.promote_numeric_types(&Type::U32, &Type::U8), Type::U32);
    assert_eq!(checker.promote_numeric_types(&Type::Bool, &Type::I32), Type::I32);
    assert!(checker.is_same_type(&Type::I8, &Type::I8));
    assert!(!checker.is_same_type(&Type::I8, &Type::U8));
    assert!(checker.is_assignable(&Type::I8, &Type::I64));
    assert!(!checker.is_assignable(&Type::Bool, &Type::I64));
    assert_eq!(checker.get_size(&integer(4)), Some(4));
    assert_eq!(checker.get_size(&var("n")), None);
}

#[test]
fn the_symbol_table_scopes_names() {
    let mut table = SymbolTable::new();
    let variable = |name: &str| {
        Symbol::Variable(VariableSymbol {
            name: name.to_string(),
            ty: Type::I32,
            mutable: false,
            defined_at: SourceSpan::default(),
            last_assignment: None,
        })
    };
    assert_eq!(table.scope_count(), 1);
    assert_eq!(table.current_scope_kind(), Some(ScopeKind::Global));
    assert!(table.declare("x", variable("x"), SourceSpan::default()).is_ok());
    assert!(table.lookup("x").is_some());
    let again = table.declare("x", variable("x"), SourceSpan::default()).unwrap_err();
    assert_eq!(again.error_code(), Some(&ErrorCode::E2032));
    assert_eq!(again.message(), "Identifier 'x' already declared in this Global scope");

    table.push_scope(ScopeKind::Block, None);
    assert!(table.declare("x", variable("x"), SourceSpan::default()).is_ok());
    assert!(table.contains_current("x"));
    table.pop_scope();
    assert_eq!(table.scope_count(), 1);
    assert!(table.lookup("x").is_some());
    assert!(table.lookup("y").is_none());
    assert!(table.lookup_variable("x").is_some());
    assert!(table.lookup_function("x").is_none());
}

#[test]
fn interned_types_are_shared() {
    let mut types = TypeContext::new();
    let builtins = types.len();
    assert_eq!(builtins, 15);
    let a = types.intern(Type::Custom { name: "Point".to_string() });
    let b = types.intern(Type::Custom { name: "Point".to_string() });
    assert_eq!(a, b);
    assert_eq!(types.len(), builtins + 1);
    assert_eq!(types.get(a), Some(&Type::Custom { name: "Point".to_string() }));
    assert_eq!(types.intern(Type::I32), types.builtin(BuiltinType::I32));
}

#[test]
fn initialization_checks_the_tree_shape() {
    let config = SemanticConfig::new(LanguageVersion::new(1, 0, 0));
    let good = [Stmt::Break { span: span_in("a.dr", 0, 5) }];
    let ready = SemanticContext::initialize(&good, config.duplicate()).unwrap();
    assert!(ready.is_frozen());
    assert_eq!(ready.status(), InitializationStatus::Ready);

    let mixed = [Stmt::Break { span: span_in("a.dr", 0, 5) }, Stmt::Continue { span: span_in("b.dr", 0, 5) }];
    assert_eq!(
        validate_ast_shape(&mixed),
        Err(AstValidationError::MultipleSourceFiles { first: "a.dr".to_string(), second: "b.dr".to_string() })
    );
    let failed = SemanticContext::initialize(&mixed, config.duplicate()).unwrap_err();
    assert_eq!(failed.status(), InitializationStatus::Failed);
    assert!(!failed.is_frozen());
    let diagnostics = failed.diagnostics().diagnostics();
    assert_eq!(diagnostics.len(), 1);
    assert_eq!(
        diagnostics[0].message(),
        "compilation unit contains spans from multiple source files: a.dr and b.dr"
    );

}

#[test]
fn diagnostics_collect_errors() {
    let mut engine = DiagnosticEngine::new();
    assert!(engine.is_empty());
    engine.emit(Diagnostic::internal("note".to_string(), None));
    assert!(engine.has_errors());
    let error = CompileError::IoError("disk".to_string());
    let diagnostic = Diagnostic::error(error);
    assert_eq!(diagnostic.severity(), DiagnosticSeverity::Error);
    assert_eq!(diagnostic.message(), "disk");
    engine.emit(diagnostic);
    assert_eq!(engine.len(), 2);
}

#[test]
fn precedence_orders_operators() {
    let token = |kind: TokenKind| Token { kind, span: SourceSpan::default() };
    let add = Precedence::binding_power(&token(TokenKind::Plus));
    let mul = Precedence::binding_power(&token(TokenKind::Star));
    let assign = Precedence::binding_power(&token(TokenKind::PlusEqual));
    assert!(mul.left > add.left);
    assert!(add.left > add.right);
    assert_eq!((assign.left, assign.right), (2, 1));
    assert_eq!((Precedence::binding_power(&token(TokenKind::Semicolon)).left), 0);
    let negate = Precedence::unary_binding_power(&token(TokenKind::Minus));
    assert!(negate.left > mul.left);
}

#[test]
fn typed_trees_take_the_recorded_types() {
    let expr = Expr::Binary {
        left: Box::new(integer(1)),
        op: BinaryOp::Add,
        right: Box::new(integer(2)),
        span: SourceSpan::default(),
        ty: None,
    };
    let mut types = HashMap::new();
    let (left, right) = match &expr {
        Expr::Binary { left, right, .. } => (address(left), address(right)),
        _ => unreachable!(),
    };
    types.insert(address(&expr), ResolvedType::value(Type::I64));
    types.insert(left, ResolvedType::value(Type::I64));
    let missing = TypedExpr::from_expr(&expr, &types).unwrap_err();
    assert_eq!(missing, "missing resolved type for expression at :line 1:column 1");

    types.insert(right, ResolvedType::value(Type::I64));
    let typed = TypedExpr::from_expr(&expr, &types).unwrap();
    assert_eq!(typed.ty, ResolvedType::value(Type::I64));
    match typed.kind {
        TypedExprKind::Binary { op, left, .. } => {
            assert_eq!(op, BinaryOp::Add);
            assert_eq!(left.kind, TypedExprKind::Literal { value: descar_core::syntax::ast::LiteralValue::Numeric(Number::Integer(1)) });
        },
        other => panic!("unexpected kind {other:?}"),
    }

    let empty = HashMap::new();
    assert!(TypedExpr::from_expr(&expr, &empty).is_err());
    let program = [Stmt::Break { span: SourceSpan::default() }];
    let typed_program = FullyTypedAst::from_statements(&program, &empty).unwrap();
    assert_eq!(typed_program.statements, vec![TypedStmt::Break { span: SourceSpan::default() }]);
}

#[test]
fn an_inner_binding_hides_an_outer_function_until_its_scope_closes() {
    let mut table = SymbolTable::new();
    let f = FunctionSymbol { name: "g".to_string(), parameters: vec![], return_type: Type::Void, defined_at: SourceSpan::default() };
    assert!(table.declare("g", Symbol::Function(f), SourceSpan::default()).is_ok());
    table.push_scope(ScopeKind::Block, None);
    let v = VariableSymbol {
        name: "g".to_string(),
        ty: Type::I32,
        mutable: false,
        defined_at: SourceSpan::default(),
        last_assignment: None,
    };
    assert!(table.declare("g", Symbol::Variable(v), SourceSpan::default()).is_ok());
    assert!(table.lookup_function("g").is_none());
    assert_eq!(table.lookup_variable("g").map(|v| v.ty), Some(Type::I32));
    table.pop_scope();
    assert_eq!(table.lookup_function("g").map(|f| f.name), Some("g".to_string()));
    assert!(table.lookup_variable("g").is_none());
}

#[test]
fn numeric_binary_operations_promote_or_reject() {
    let span = SourceSpan::default;
    let binary = |op: BinaryOp, right: Number| Stmt::Expression {
        expr: Box::new(Expr::Binary {
            left: Box::new(Expr::new_number_literal(Number::I32(1), span())),
            op,
            right: Box::new(Expr::new_number_literal(right, span())),
            span: span(),
            ty: None,
        }),
    };
    assert!(TypeChecker::new().check(&[binary(BinaryOp::Add, Number::Float64("2.5".to_string()))]).is_empty());
    assert!(TypeChecker::new().check(&[binary(BinaryOp::Less, Number::U8(2))]).is_empty());
    assert!(TypeChecker::new().check(&[binary(BinaryOp::ShiftLeft, Number::Integer(2))]).is_empty());
    assert_eq!(codes(&TypeChecker::new().check(&[binary(BinaryOp::BitwiseAnd, Number::Float64("2.5".to_string()))])), vec![
        ErrorCode::E2011
    ]);
}

#[test]
fn a_repeated_function_name_is_rejected_once() {
    let function = |return_type: Type| Stmt::Function {
        name: "f".to_string(),
        parameters: vec![],
        return_type,
        body: Box::new(Stmt::Block { statements: vec![], span: SourceSpan::default() }),
        span: SourceSpan::default(),
    };
    let program = [function(Type::Void), function(Type::I64)];
    assert_eq!(codes(&TypeChecker::new().check(&program)), vec![ErrorCode::E2032, ErrorCode::E2003]);
}
