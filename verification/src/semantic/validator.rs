//! Structural checks made on a syntax tree before semantic analysis: every
//! span ends no earlier than it starts, and all spans come from one file.
use vstd::prelude::*;
use crate::location::source_span::{SourceSpan, SpanView};
use crate::syntax::ast::{ElseBranch, Expr, Parameter, Stmt, Type, VarBinding};

verus! {

/// A structural fault of a syntax tree.
#[derive(Debug, PartialEq, Eq)]
pub enum AstValidationError {
    /// A span ends before it starts.
    InvalidSpan { file: String },
    /// Spans come from two different files.
    MultipleSourceFiles { first: String, second: String },
}

/// The mathematical value of an [`AstValidationError`].
pub enum ValidationErrorView {
    InvalidSpan { file: Seq<char> },
    MultipleSourceFiles { first: Seq<char>, second: Seq<char> },
}

impl View for AstValidationError {
    type V = ValidationErrorView;

    open spec fn view(&self) -> ValidationErrorView {
        match self {
            AstValidationError::InvalidSpan { file } => ValidationErrorView::InvalidSpan { file: file@ },
            AstValidationError::MultipleSourceFiles { first, second } => ValidationErrorView::MultipleSourceFiles {
                first: first@,
                second: second@,
            },
        }
    }
}

/// The outcome of a check: the file seen so far, or the fault found.
pub type ShapeResult = Result<Option<Seq<char>>, ValidationErrorView>;

/// Checking a span, `seen` being the file of the spans before it.
pub open spec fn check_span(seen: Option<Seq<char>>, span: SpanView) -> ShapeResult {
    if span.end.spec_offset() < span.start.spec_offset() {
        Err(ValidationErrorView::InvalidSpan { file: span.file_path })
    } else {
        match seen {
            Some(first) => if first != span.file_path {
                Err(ValidationErrorView::MultipleSourceFiles { first, second: span.file_path })
            } else {
                Ok(seen)
            },
            None => Ok(Some(span.file_path)),
        }
    }
}

/// Checking an expression: its span, then its subexpressions in order.
pub open spec fn check_expr_shape(seen: Option<Seq<char>>, e: Expr) -> ShapeResult
    decreases e, 0int,
{
    match check_span(seen, e.spec_span()@) {
        Err(err) => Err(err),
        Ok(s) => match e {
            Expr::Binary { left, right, .. } => match check_expr_shape(s, *left) {
                Ok(s2) => check_expr_shape(s2, *right),
                Err(err) => Err(err),
            },
            Expr::Unary { expr, .. } => check_expr_shape(s, *expr),
            Expr::Grouping { expr, .. } => check_expr_shape(s, *expr),
            Expr::Literal { .. } => Ok(s),
            Expr::Variable { .. } => Ok(s),
            Expr::ArrayLiteral { elements, .. } => check_exprs_shape(s, elements@),
            Expr::Assign { target, value, .. } => match check_expr_shape(s, *target) {
                Ok(s2) => check_expr_shape(s2, *value),
                Err(err) => Err(err),
            },
            Expr::Call { callee, arguments, .. } => match check_expr_shape(s, *callee) {
                Ok(s2) => check_exprs_shape(s2, arguments@),
                Err(err) => Err(err),
            },
            Expr::ArrayAccess { array, index, .. } => match check_expr_shape(s, *array) {
                Ok(s2) => check_expr_shape(s2, *index),
                Err(err) => Err(err),
            },
        },
    }
}

/// Checking expressions in order.
pub open spec fn check_exprs_shape(seen: Option<Seq<char>>, es: Seq<Expr>) -> ShapeResult
    decreases es, 0int,
{
    if es.len() == 0 {
        Ok(seen)
    } else {
        match check_expr_shape(seen, es[0]) {
            Ok(s) => check_exprs_shape(s, es.subrange(1, es.len() as int)),
            Err(err) => Err(err),
        }
    }
}

/// Checking a type: the element types and length expressions of arrays and
/// vectors.
pub open spec fn check_type_shape(seen: Option<Seq<char>>, t: Type) -> ShapeResult
    decreases t,
{
    match t {
        Type::Array { element_type, size } => match check_type_shape(seen, *element_type) {
            Ok(s) => check_expr_shape(s, *size),
            Err(err) => Err(err),
        },
        Type::Vector { element_type } => check_type_shape(seen, *element_type),
        _ => Ok(seen),
    }
}

/// Checking the initializers of the variables of a declaration, in order.
pub open spec fn check_bindings_shape(seen: Option<Seq<char>>, bs: Seq<VarBinding>) -> ShapeResult
    decreases bs.len(),
{
    if bs.len() == 0 {
        Ok(seen)
    } else {
        let next = match bs[0].initializer {
            Some(init) => check_expr_shape(seen, init),
            None => Ok(seen),
        };
        match next {
            Ok(s) => check_bindings_shape(s, bs.subrange(1, bs.len() as int)),
            Err(err) => Err(err),
        }
    }
}

/// Checking the parameters of a function, in order: each type, then each span.
pub open spec fn check_params_shape(seen: Option<Seq<char>>, ps: Seq<Parameter>) -> ShapeResult
    decreases ps.len(),
{
    if ps.len() == 0 {
        Ok(seen)
    } else {
        match check_type_shape(seen, ps[0].type_annotation) {
            Ok(s) => match check_span(s, ps[0].span@) {
                Ok(s2) => check_params_shape(s2, ps.subrange(1, ps.len() as int)),
                Err(err) => Err(err),
            },
            Err(err) => Err(err),
        }
    }
}

/// Checking an optional expression.
pub open spec fn check_opt_expr_shape(seen: Option<Seq<char>>, e: Option<Expr>) -> ShapeResult {
    match e {
        Some(x) => check_expr_shape(seen, x),
        None => Ok(seen),
    }
}

/// Checking a statement: its span, then its parts in order.
pub open spec fn check_stmt_shape(seen: Option<Seq<char>>, stmt: Stmt) -> ShapeResult
    decreases stmt, 0int,
{
    match check_span(seen, stmt.spec_span()@) {
        Err(err) => Err(err),
        Ok(s) => match stmt {
            Stmt::Expression { expr } => check_expr_shape(s, *expr),
            Stmt::VarDeclaration { bindings, type_annotation, .. } => match check_type_shape(s, type_annotation) {
                Ok(s2) => check_bindings_shape(s2, bindings@),
                Err(err) => Err(err),
            },
            Stmt::Function { parameters, return_type, body, .. } => match check_params_shape(s, parameters@) {
                Ok(s2) => match check_type_shape(s2, return_type) {
                    Ok(s3) => check_stmt_shape(s3, *body),
                    Err(err) => Err(err),
                },
                Err(err) => Err(err),
            },
            Stmt::If { condition, then_branch, else_branch, .. } => match check_expr_shape(s, *condition) {
                Ok(s2) => match check_stmt_shape(s2, *then_branch) {
                    Ok(s3) => match else_branch {
                        ElseBranch::Absent => Ok(s3),
                        ElseBranch::Block(b) => check_stmt_shape(s3, *b),
                        ElseBranch::ElseIf(b) => check_stmt_shape(s3, *b),
                    },
                    Err(err) => Err(err),
                },
                Err(err) => Err(err),
            },
            Stmt::While { condition, body, .. } => match check_expr_shape(s, *condition) {
                Ok(s2) => check_stmt_shape(s2, *body),
                Err(err) => Err(err),
            },
            Stmt::For { initializer, condition, increment, body, .. } => {
                let s2 = match initializer {
                    Some(init) => check_stmt_shape(s, *init),
                    None => Ok(s),
                };
                match s2 {
                    Ok(s3) => match check_opt_expr_shape(s3, condition) {
                        Ok(s4) => match check_opt_expr_shape(s4, increment) {
                            Ok(s5) => check_stmt_shape(s5, *body),
                            Err(err) => Err(err),
                        },
                        Err(err) => Err(err),
                    },
                    Err(err) => Err(err),
                }
            },
            Stmt::Block { statements, .. } => check_stmts_shape(s, statements@),
            Stmt::Return { value, .. } => check_opt_expr_shape(s, value),
            Stmt::Break { .. } => Ok(s),
            Stmt::Continue { .. } => Ok(s),
            Stmt::MainFunction { body, .. } => check_stmt_shape(s, *body),
        },
    }
}

/// Checking statements in order.
pub open spec fn check_stmts_shape(seen: Option<Seq<char>>, ss: Seq<Stmt>) -> ShapeResult
    decreases ss, 0int,
{
    if ss.len() == 0 {
        Ok(seen)
    } else {
        match check_stmt_shape(seen, ss[0]) {
            Ok(s) => check_stmts_shape(s, ss.subrange(1, ss.len() as int)),
            Err(err) => Err(err),
        }
    }
}

/// The file seen so far, as text.
pub open spec fn seen_view(files: Option<String>) -> Option<Seq<char>> {
    match files {
        Some(f) => Some(f@),
        None => None,
    }
}

/// The outcome of an executable check against the checking rule.
pub open spec fn outcome_matches(r: Result<(), AstValidationError>, files: Option<String>, expected: ShapeResult) -> bool {
    match r {
        Ok(()) => expected == Ok::<Option<Seq<char>>, ValidationErrorView>(seen_view(files)),
        Err(e) => expected == Err::<Option<Seq<char>>, ValidationErrorView>(e@),
    }
}

/// Checks that a syntax tree is well formed before semantic analysis: every
/// span ends no earlier than it starts, and all spans come from one file.
pub fn validate_ast_shape(ast: &[Stmt]) -> (r: Result<(), AstValidationError>)
    ensures
        match r {
            Ok(()) => check_stmts_shape(None, ast@) is Ok,
            Err(e) => check_stmts_shape(None, ast@) == Err::<Option<Seq<char>>, ValidationErrorView>(e@),
        },
{
    let mut files: Option<String> = None;
    let mut i: usize = 0;
    assert(ast@.subrange(0, ast@.len() as int) =~= ast@);
    while i < ast.len()
        invariant
            i <= ast@.len(),
            check_stmts_shape(None, ast@) == check_stmts_shape(
                seen_view(files),
                ast@.subrange(i as int, ast@.len() as int),
            ),
        decreases ast.len() - i,
    {
        proof {
            let rest = ast@.subrange(i as int, ast@.len() as int);
            assert(rest[0] == ast@[i as int]);
            assert(rest.subrange(1, rest.len() as int) =~= ast@.subrange(i + 1, ast@.len() as int));
        }
        match validate_stmt(&ast[i], &mut files) {
            Ok(()) => {},
            Err(e) => {
                return Err(e);
            },
        }
        i = i + 1;
    }
    Ok(())
}

fn validate_span(span: &SourceSpan, files: &mut Option<String>) -> (r: Result<(), AstValidationError>)
    ensures
        outcome_matches(r, *final(files), check_span(seen_view(*old(files)), span@)),
{
    if span.end().offset() < span.start().offset() {
        return Err(AstValidationError::InvalidSpan { file: span.file_path().to_owned() });
    }
    let path = span.file_path().to_owned();
    match files {
        Some(first) => {
            if !(*first == path) {
                return Err(AstValidationError::MultipleSourceFiles { first: first.clone(), second: path });
            }
        },
        None => {},
    }
    *files = Some(path);
    Ok(())
}

fn validate_expr(expr: &Expr, files: &mut Option<String>) -> (r: Result<(), AstValidationError>)
    ensures
        outcome_matches(r, *final(files), check_expr_shape(seen_view(*old(files)), *expr)),
    decreases expr, 0int,
{
    match validate_span(expr.span(), files) {
        Err(e) => {
            return Err(e);
        },
        Ok(()) => {},
    }
    match expr {
        Expr::Binary { left, right, .. } => match validate_expr(left, files) {
            Ok(()) => validate_expr(right, files),
            Err(e) => Err(e),
        },
        Expr::Unary { expr: inner, .. } => validate_expr(inner, files),
        Expr::Grouping { expr: inner, .. } => validate_expr(inner, files),
        Expr::Literal { .. } => Ok(()),
        Expr::Variable { .. } => Ok(()),
        Expr::ArrayLiteral { elements, .. } => validate_exprs(elements, files),
        Expr::Assign { target, value, .. } => match validate_expr(target, files) {
            Ok(()) => validate_expr(value, files),
            Err(e) => Err(e),
        },
        Expr::Call { callee, arguments, .. } => match validate_expr(callee, files) {
            Ok(()) => validate_exprs(arguments, files),
            Err(e) => Err(e),
        },
        Expr::ArrayAccess { array, index, .. } => match validate_expr(array, files) {
            Ok(()) => validate_expr(index, files),
            Err(e) => Err(e),
        },
    }
}

fn validate_exprs(exprs: &Vec<Expr>, files: &mut Option<String>) -> (r: Result<(), AstValidationError>)
    ensures
        outcome_matches(r, *final(files), check_exprs_shape(seen_view(*old(files)), exprs@)),
    decreases exprs, 0int,
{
    let mut i: usize = 0;
    assert(exprs@.subrange(0, exprs@.len() as int) =~= exprs@);
    while i < exprs.len()
        invariant
            i <= exprs@.len(),
            check_exprs_shape(seen_view(*old(files)), exprs@) == check_exprs_shape(
                seen_view(*files),
                exprs@.subrange(i as int, exprs@.len() as int),
            ),
        decreases exprs.len() - i,
    {
        proof {
            let rest = exprs@.subrange(i as int, exprs@.len() as int);
            assert(rest[0] == exprs@[i as int]);
            assert(rest.subrange(1, rest.len() as int) =~= exprs@.subrange(i + 1, exprs@.len() as int));
        }
        match validate_expr(&exprs[i], files) {
            Ok(()) => {},
            Err(e) => {
                return Err(e);
            },
        }
        i = i + 1;
    }
    Ok(())
}

fn validate_type(ty: &Type, files: &mut Option<String>) -> (r: Result<(), AstValidationError>)
    ensures
        outcome_matches(r, *final(files), check_type_shape(seen_view(*old(files)), *ty)),
    decreases ty,
{
    match ty {
        Type::Array { element_type, size } => match validate_type(element_type, files) {
            Ok(()) => validate_expr(size, files),
            Err(e) => Err(e),
        },
        Type::Vector { element_type } => validate_type(element_type, files),
        _ => Ok(()),
    }
}

fn validate_opt_expr(e: &Option<Expr>, files: &mut Option<String>) -> (r: Result<(), AstValidationError>)
    ensures
        outcome_matches(r, *final(files), check_opt_expr_shape(seen_view(*old(files)), *e)),
{
    match e {
        Some(x) => validate_expr(x, files),
        None => Ok(()),
    }
}

#[verifier::loop_isolation(false)]
fn validate_stmt(stmt: &Stmt, files: &mut Option<String>) -> (r: Result<(), AstValidationError>)
    ensures
        outcome_matches(r, *final(files), check_stmt_shape(seen_view(*old(files)), *stmt)),
    decreases stmt, 0int,
{
    match validate_span(stmt.span(), files) {
        Err(e) => {
            return Err(e);
        },
        Ok(()) => {},
    }
    match stmt {
        Stmt::Expression { expr } => validate_expr(expr, files),
        Stmt::VarDeclaration { bindings, type_annotation, .. } => {
            match validate_type(type_annotation, files) {
                Err(e) => {
                    return Err(e);
                },
                Ok(()) => {},
            }
            let mut i: usize = 0;
            let ghost start = seen_view(*files);
            assert(bindings@.subrange(0, bindings@.len() as int) =~= bindings@);
            while i < bindings.len()
                invariant
                    i <= bindings@.len(),
                    check_bindings_shape(start, bindings@) == check_bindings_shape(
                        seen_view(*files),
                        bindings@.subrange(i as int, bindings@.len() as int),
                    ),
                decreases bindings.len() - i,
            {
                proof {
                    let rest = bindings@.subrange(i as int, bindings@.len() as int);
                    assert(rest[0] == bindings@[i as int]);
                    assert(rest.subrange(1, rest.len() as int) =~= bindings@.subrange(
                        i + 1,
                        bindings@.len() as int,
                    ));
                }
                match &bindings[i].initializer {
                    Some(init) => match validate_expr(init, files) {
                        Ok(()) => {},
                        Err(e) => {
                            return Err(e);
                        },
                    },
                    None => {},
                }
                i = i + 1;
            }
            Ok(())
        },
        Stmt::Function { parameters, return_type, body, .. } => {
            let mut i: usize = 0;
            let ghost start = seen_view(*files);
            assert(parameters@.subrange(0, parameters@.len() as int) =~= parameters@);
            while i < parameters.len()
                invariant
                    i <= parameters@.len(),
                    check_params_shape(start, parameters@) == check_params_shape(
                        seen_view(*files),
                        parameters@.subrange(i as int, parameters@.len() as int),
                    ),
                decreases parameters.len() - i,
            {
                proof {
                    let rest = parameters@.subrange(i as int, parameters@.len() as int);
                    assert(rest[0] == parameters@[i as int]);
                    assert(rest.subrange(1, rest.len() as int) =~= parameters@.subrange(
                        i + 1,
                        parameters@.len() as int,
                    ));
                }
                match validate_type(&parameters[i].type_annotation, files) {
                    Ok(()) => {},
                    Err(e) => {
                        return Err(e);
                    },
                }
                match validate_span(&parameters[i].span, files) {
                    Ok(()) => {},
                    Err(e) => {
                        return Err(e);
                    },
                }
                i = i + 1;
            }
            match validate_type(return_type, files) {
                Ok(()) => {},
                Err(e) => {
                    return Err(e);
                },
            }
            validate_stmt(body, files)
        },
        Stmt::If { condition, then_branch, else_branch, .. } => {
            match validate_expr(condition, files) {
                Ok(()) => {},
                Err(e) => {
                    return Err(e);
                },
            }
            match validate_stmt(then_branch, files) {
                Ok(()) => {},
                Err(e) => {
                    return Err(e);
                },
            }
            match else_branch {
                ElseBranch::Absent => Ok(()),
                ElseBranch::Block(b) => validate_stmt(b, files),
                ElseBranch::ElseIf(b) => validate_stmt(b, files),
            }
        },
        Stmt::While { condition, body, .. } => match validate_expr(condition, files) {
            Ok(()) => validate_stmt(body, files),
            Err(e) => Err(e),
        },
        Stmt::For { initializer, condition, increment, body, .. } => {
            match initializer {
                Some(init) => match validate_stmt(init, files) {
                    Ok(()) => {},
                    Err(e) => {
                        return Err(e);
                    },
                },
                None => {},
            }
            match validate_opt_expr(condition, files) {
                Ok(()) => {},
                Err(e) => {
                    return Err(e);
                },
            }
            match validate_opt_expr(increment, files) {
                Ok(()) => {},
                Err(e) => {
                    return Err(e);
                },
            }
            validate_stmt(body, files)
        },
        Stmt::Block { statements, .. } => {
            let mut i: usize = 0;
            let ghost start = seen_view(*files);
            assert(statements@.subrange(0, statements@.len() as int) =~= statements@);
            while i < statements.len()
                invariant
                    i <= statements@.len(),
                    check_stmts_shape(start, statements@) == check_stmts_shape(
                        seen_view(*files),
                        statements@.subrange(i as int, statements@.len() as int),
                    ),
                decreases statements.len() - i,
            {
                proof {
                    let rest = statements@.subrange(i as int, statements@.len() as int);
                    assert(rest[0] == statements@[i as int]);
                    assert(rest.subrange(1, rest.len() as int) =~= statements@.subrange(
                        i + 1,
                        statements@.len() as int,
                    ));
                }
                match validate_stmt(&statements[i], files) {
                    Ok(()) => {},
                    Err(e) => {
                        return Err(e);
                    },
                }
                i = i + 1;
            }
            Ok(())
        },
        Stmt::Return { value, .. } => validate_opt_expr(value, files),
        Stmt::Break { .. } => Ok(()),
        Stmt::Continue { .. } => Ok(()),
        Stmt::MainFunction { body, .. } => validate_stmt(body, files),
    }
}

} // verus!
