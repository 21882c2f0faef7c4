//! The checking rules of statements: the errors each statement records and
//! the scopes, loop context and return types it works in.
use vstd::prelude::*;
use crate::error::error_code::ErrorCode;
use crate::location::source_span::SpanView;
use crate::semantic::checker_state::{
    else_size, init_size, lemma_stmt_size_positive, stmt_size, stmts_size, CheckerView,
};
use crate::semantic::expr_rules::check_expr;
use crate::semantic::symbol_table::{FunctionView, ScopeKind, SymbolView, VariableView};
use crate::semantic::type_rules::assignable;
use crate::syntax::ast::model::TypeView;
use crate::syntax::ast::parameter::params_view;
use crate::syntax::ast::type_text::type_text;
use crate::syntax::ast::{ElseBranch, Expr, Parameter, Stmt, VarBinding};

verus! {

/// A return statement occurs on every path of `stmt` that the rules follow:
/// in a block, in any of its statements; in a loop, in its body; in an `if`,
/// in both branches.
pub open spec fn has_return(stmt: Stmt) -> bool
    decreases stmt, 0int,
{
    match stmt {
        Stmt::Return { .. } => true,
        Stmt::Block { statements, .. } => any_return(statements@),
        Stmt::While { body, .. } => has_return(*body),
        Stmt::For { body, .. } => has_return(*body),
        Stmt::If { then_branch, else_branch, .. } => has_return(*then_branch) && match else_branch {
            ElseBranch::Absent => false,
            ElseBranch::Block(b) => has_return(*b),
            ElseBranch::ElseIf(b) => has_return(*b),
        },
        _ => false,
    }
}

/// Some statement of the list has a return.
pub open spec fn any_return(s: Seq<Stmt>) -> bool
    decreases s, 0int,
{
    if s.len() == 0 {
        false
    } else {
        has_return(s[0]) || any_return(s.subrange(1, s.len() as int))
    }
}

/// A condition of a construct must be `bool` (`E2004`).
pub open spec fn check_condition(s: CheckerView, condition: Expr, construct: Seq<char>) -> CheckerView {
    let (s1, t) = check_expr(s, condition);
    match t {
        Some(ct) => if ct != TypeView::Bool {
            s1.report(
                ErrorCode::E2004,
                "Condition in "@ + construct + " must be boolean, found "@ + type_text(ct),
                condition.spec_span()@,
            )
        } else {
            s1
        },
        None => s1,
    }
}

/// The variables of a declaration, in order: each initializer must be
/// assignable to the declared type (`E2002`), and each name is declared in
/// the innermost scope.
pub open spec fn check_bindings(
    s: CheckerView,
    bindings: Seq<VarBinding>,
    ty: TypeView,
    mutable: bool,
    span: SpanView,
) -> CheckerView
    decreases bindings.len(),
{
    if bindings.len() == 0 {
        s
    } else {
        let b = bindings[0];
        let s1 = match b.initializer {
            Some(init) => {
                let (si, it) = check_expr(s, init);
                match it {
                    Some(t) => if !assignable(t, ty) {
                        si.report(
                            ErrorCode::E2002,
                            "Cannot assign "@ + type_text(t) + " to "@ + type_text(ty) + " for variable '"@ + b.name@
                                + "'"@,
                            init.spec_span()@,
                        )
                    } else {
                        si
                    },
                    None => si,
                }
            },
            None => s,
        };
        let sym = SymbolView::Variable(
            VariableView { name: b.name@, ty, mutable, defined_at: span, last_assignment: None },
        );
        check_bindings(s1.declare(b.name@, sym, span), bindings.subrange(1, bindings.len() as int), ty, mutable, span)
    }
}

/// The parameters of a function declared, in order, as mutable variables.
pub open spec fn declare_params(s: CheckerView, params: Seq<Parameter>) -> CheckerView
    decreases params.len(),
{
    if params.len() == 0 {
        s
    } else {
        let p = params[0];
        let sym = SymbolView::Variable(
            VariableView {
                name: p.name@,
                ty: p.type_annotation@,
                mutable: true,
                defined_at: p.span@,
                last_assignment: None,
            },
        );
        declare_params(s.declare(p.name@, sym, p.span@), params.subrange(1, params.len() as int))
    }
}

/// A return statement: only inside a function body (`E2005`); a value only
/// in a non-void function (`E2006`), assignable to its return type
/// (`E2007`); no value only in a void function (`E2008`).
pub open spec fn check_return(s: CheckerView, value: Option<Expr>, span: SpanView) -> CheckerView {
    if s.returns.len() == 0 {
        s.report(ErrorCode::E2005, "Return statement must be inside function body"@, span)
    } else {
        let expected = s.returns.last();
        match value {
            Some(e) => if expected == TypeView::Void {
                s.report(ErrorCode::E2006, "Cannot return a value from void function"@, e.spec_span()@)
            } else {
                let (s1, t) = check_expr(s, e);
                match t {
                    Some(a) => if !assignable(a, expected) {
                        s1.report(
                            ErrorCode::E2007,
                            "Return type mismatch: expected "@ + type_text(expected) + " found "@ + type_text(a),
                            e.spec_span()@,
                        )
                    } else {
                        s1
                    },
                    None => s1,
                }
            },
            None => if expected == TypeView::Void {
                s
            } else {
                s.report(
                    ErrorCode::E2008,
                    "Return type mismatch, expected "@ + type_text(expected) + " found Void"@,
                    span,
                )
            },
        }
    }
}

/// Checking a statement: the state afterwards.
pub open spec fn check_stmt(s: CheckerView, stmt: Stmt) -> CheckerView
    decreases stmt_size(stmt), 0int,
{
    match stmt {
        Stmt::Expression { expr } => check_expr(s, *expr).0,
        Stmt::VarDeclaration { bindings, type_annotation, is_mutable, span } => check_bindings(
            s,
            bindings@,
            type_annotation@,
            is_mutable,
            span@,
        ),
        Stmt::Function { name, parameters, return_type, body, span } => check_function(
            s,
            name@,
            parameters@,
            return_type@,
            *body,
            span@,
        ),
        Stmt::If { condition, then_branch, else_branch, .. } => check_if(s, *condition, *then_branch, else_branch),
        Stmt::While { condition, body, .. } => check_while(s, *condition, *body),
        Stmt::For { initializer, condition, increment, body, span } => check_for(
            s,
            initializer,
            condition,
            increment,
            *body,
            span@,
        ),
        Stmt::Block { statements, span } => check_block(s, statements@, span@),
        Stmt::Return { value, span } => check_return(s, value, span@),
        Stmt::Break { span } => if !s.in_loop {
            s.report(ErrorCode::E2009, "Break statement outside loop"@, span@)
        } else {
            s
        },
        Stmt::Continue { span } => if !s.in_loop {
            s.report(ErrorCode::E2010, "Continue statement outside loop"@, span@)
        } else {
            s
        },
        Stmt::MainFunction { body, span } => check_function(s, "main"@, Seq::empty(), TypeView::Void, *body, span@),
    }
}

/// Statements checked in order.
pub open spec fn check_stmts(s: CheckerView, stmts: Seq<Stmt>) -> CheckerView
    decreases stmts_size(stmts), 1int,
{
    if stmts.len() == 0 {
        s
    } else {
        proof {
            lemma_stmt_size_positive(stmts[0]);
        }
        check_stmts(check_stmt(s, stmts[0]), stmts.subrange(1, stmts.len() as int))
    }
}

/// A function: its name is declared where it stands, then its parameters
/// and body are checked in a new function scope under its return type; a
/// non-void function whose body may not return is error `E2003`.
pub open spec fn check_function(
    s: CheckerView,
    name: Seq<char>,
    params: Seq<Parameter>,
    return_type: TypeView,
    body: Stmt,
    span: SpanView,
) -> CheckerView
    decreases stmt_size(body), 1int,
{
    let func = FunctionView { name, parameters: params_view(params), return_type, defined_at: span };
    let s1 = s.declare(name, SymbolView::Function(func), span);
    let s2 = CheckerView { returns: s1.returns.push(return_type), ..s1.open_scope(ScopeKind::Function, Some(span)) };
    let s3 = declare_params(s2, params);
    let s4 = match body {
        Stmt::Block { statements, .. } => check_stmts(s3, statements@),
        _ => check_stmt(s3, body),
    };
    let s5 = if return_type != TypeView::Void && !has_return(body) {
        s4.report(
            ErrorCode::E2003,
            "Function '"@ + name + "' may not return value in all code paths (expected return type: "@ + type_text(
                return_type,
            ) + ")"@,
            span,
        )
    } else {
        s4
    };
    s5.pop_return().close_scope()
}

/// An `if` statement: its condition must be `bool`; then its branches.
pub open spec fn check_if(s: CheckerView, condition: Expr, then_branch: Stmt, else_branch: ElseBranch) -> CheckerView
    decreases stmt_size(then_branch) + else_size(else_branch), 1int,
{
    let s1 = check_condition(s, condition, "'if' statement"@);
    let s2 = check_stmt(s1, then_branch);
    match else_branch {
        ElseBranch::Absent => s2,
        ElseBranch::Block(b) => check_stmt(s2, *b),
        ElseBranch::ElseIf(b) => check_stmt(s2, *b),
    }
}

/// A `while` loop: its condition must be `bool`; its body is checked in a
/// new block scope, inside a loop.
pub open spec fn check_while(s: CheckerView, condition: Expr, body: Stmt) -> CheckerView
    decreases stmt_size(body), 1int,
{
    let s1 = check_condition(s, condition, "'while' loop"@);
    let s2 = check_stmt(s1.with_loop(true).open_scope(ScopeKind::Block, Some(condition.spec_span()@)), body);
    s2.close_scope().with_loop(s1.in_loop)
}

/// A `for` loop: in a new block scope, the initializer, the condition (which
/// must be `bool`), the increment, and the body inside a loop.
pub open spec fn check_for(
    s: CheckerView,
    initializer: Option<Box<Stmt>>,
    condition: Option<Expr>,
    increment: Option<Expr>,
    body: Stmt,
    span: SpanView,
) -> CheckerView
    decreases init_size(initializer) + stmt_size(body), 1int,
{
    let s1 = s.open_scope(ScopeKind::Block, Some(span));
    let s2 = match initializer {
        Some(init) => check_stmt(s1, *init),
        None => s1,
    };
    let s3 = match condition {
        Some(c) => check_condition(s2, c, "For loop"@),
        None => s2,
    };
    let s4 = match increment {
        Some(i) => check_expr(s3, i).0,
        None => s3,
    };
    let s5 = check_stmt(s4.with_loop(true), body);
    s5.with_loop(s4.in_loop).close_scope()
}

/// A block: its statements in a new block scope.
pub open spec fn check_block(s: CheckerView, stmts: Seq<Stmt>, span: SpanView) -> CheckerView
    decreases stmts_size(stmts), 2int,
{
    check_stmts(s.open_scope(ScopeKind::Block, Some(span)), stmts).close_scope()
}

} // verus!
