//! What checking keeps: expressions only ever add errors, and statements
//! leave the loop context, the return types and the depth of the scope
//! stack as they found them. Errors once recorded are never dropped.
use vstd::prelude::*;
use crate::location::source_span::SpanView;
use crate::semantic::checker_state::{
    else_size, expr_size, exprs_size, init_size, lemma_expr_size_positive, lemma_stmt_size_positive, stmt_size,
    stmts_size, CheckerView,
};
use crate::error::error_code::ErrorCode;
use crate::semantic::expr_rules::{
    immutable_target, is_arithmetic, is_bitwise, is_comparison, is_compound, check_all, check_arguments, check_array_access, check_array_literal, check_assign, check_binary, check_call,
    check_elements, check_expr, check_unary,
};
use crate::semantic::stmt_rules::{
    check_bindings, check_block, check_condition, check_for, check_function, check_if, check_return, check_stmt,
    check_stmts, check_while, declare_params,
};
use crate::semantic::symbol_table::SymbolView;
use crate::semantic::type_rules::{is_integer, is_numeric, promote};
use crate::syntax::ast::binary_op::binary_op_name;
use crate::syntax::ast::model::TypeView;
use crate::syntax::ast::type_text::type_text;
use crate::syntax::ast::parameter::ParameterView;
use crate::syntax::ast::{BinaryOp, ElseBranch, Expr, Parameter, Stmt, UnaryOp, VarBinding};

verus! {

/// `after` holds every error of `before`, first and in the same order.
pub open spec fn keeps_errors(before: CheckerView, after: CheckerView) -> bool {
    &&& before.errors.len() <= after.errors.len()
    &&& after.errors.subrange(0, before.errors.len() as int) == before.errors
}

/// `after` differs from `before` only by errors added after the old ones.
pub open spec fn only_errors_added(before: CheckerView, after: CheckerView) -> bool {
    &&& keeps_errors(before, after)
    &&& after.table == before.table
    &&& after.in_loop == before.in_loop
    &&& after.returns == before.returns
}

/// `after` is in the same loop context, under the same return types, with
/// as many scopes and the same current function as `before`, every scope but
/// the innermost unchanged, and holds every error of `before`.
pub open spec fn same_frame(before: CheckerView, after: CheckerView) -> bool {
    &&& keeps_errors(before, after)
    &&& after.in_loop == before.in_loop
    &&& after.returns == before.returns
    &&& after.table.scopes.len() == before.table.scopes.len()
    &&& outer_scopes(after) == outer_scopes(before)
    &&& after.table.current_function == before.table.current_function
}

/// The scopes of a state but its innermost one, outermost first.
pub open spec fn outer_scopes(s: CheckerView) -> Seq<crate::semantic::symbol_table::ScopeView> {
    s.table.scopes.subrange(0, s.table.scopes.len() - 1)
}

proof fn lemma_keeps_errors_trans(a: CheckerView, b: CheckerView, c: CheckerView)
    requires
        keeps_errors(a, b),
        keeps_errors(b, c),
    ensures
        keeps_errors(a, c),
{
    assert(c.errors.subrange(0, a.errors.len() as int) =~= c.errors.subrange(0, b.errors.len() as int).subrange(
        0,
        a.errors.len() as int,
    ));
    assert(b.errors.subrange(0, a.errors.len() as int) == a.errors);
}

proof fn lemma_added_trans(a: CheckerView, b: CheckerView, c: CheckerView)
    requires
        only_errors_added(a, b),
        only_errors_added(b, c),
    ensures
        only_errors_added(a, c),
{
    lemma_keeps_errors_trans(a, b, c);
}

proof fn lemma_frame_trans(a: CheckerView, b: CheckerView, c: CheckerView)
    requires
        same_frame(a, b),
        same_frame(b, c),
    ensures
        same_frame(a, c),
{
    lemma_keeps_errors_trans(a, b, c);
}

/// Recording errors on top of a state that only added errors to `base`
/// still only adds errors to `base`.
proof fn lemma_reports_add(base: CheckerView, s: CheckerView)
    requires
        only_errors_added(base, s),
    ensures
        forall|c: crate::error::error_code::ErrorCode, m: Seq<char>, sp: SpanView|
            only_errors_added(base, #[trigger] s.report(c, m, sp)),
{
    assert forall|c: crate::error::error_code::ErrorCode, m: Seq<char>, sp: SpanView|
        only_errors_added(base, #[trigger] s.report(c, m, sp)) by {
        assert(s.report(c, m, sp).errors.subrange(0, s.errors.len() as int) =~= s.errors);
        lemma_added_trans(base, s, s.report(c, m, sp));
    }
}

/// A state in the frame of a newly opened scope gives back, once that scope
/// is closed, the scopes that were there before it was opened.
proof fn lemma_close_restores(s: CheckerView, opened: CheckerView, r: CheckerView)
    requires
        s.table.scopes.len() >= 1,
        opened.table.scopes == s.table.scopes.push(opened.table.scopes.last()),
        same_frame(opened, r),
    ensures
        r.close_scope().table.scopes == s.table.scopes,
{
    assert(outer_scopes(opened) =~= s.table.scopes);
    assert(r.close_scope().table.scopes =~= outer_scopes(r));
}

proof fn lemma_keeps_own(s: CheckerView)
    ensures
        only_errors_added(s, s),
        same_frame(s, s),
{
    assert(s.errors.subrange(0, s.errors.len() as int) =~= s.errors);
}

/// Checking an expression never changes the symbol table, the loop context
/// or the return types; it only appends errors after those already found.
pub proof fn law_expression_only_adds_errors(s: CheckerView, e: Expr)
    ensures
        only_errors_added(s, check_expr(s, e).0),
    decreases expr_size(e), 0int,
{
    lemma_keeps_own(s);
    lemma_reports_add(s, s);
    match e {
        Expr::Binary { left, op, right, span, .. } => lemma_binary(s, *left, op, *right, span@),
        Expr::Unary { op, expr, .. } => lemma_unary(s, op, *expr),
        Expr::Grouping { expr, .. } => law_expression_only_adds_errors(s, *expr),
        Expr::Literal { .. } => {},
        Expr::ArrayLiteral { elements, span, .. } => lemma_array_literal(s, elements@, span@),
        Expr::Variable { .. } => {},
        Expr::Assign { target, value, .. } => lemma_assign(s, *target, *value),
        Expr::Call { callee, arguments, span, .. } => lemma_call(s, *callee, arguments@, span@),
        Expr::ArrayAccess { array, index, span, .. } => lemma_array_access(s, *array, *index, span@),
    }
}

proof fn lemma_binary(s: CheckerView, left: Expr, op: BinaryOp, right: Expr, span: SpanView)
    ensures
        only_errors_added(s, check_binary(s, left, op, right, span).0),
    decreases expr_size(left) + expr_size(right), 1int,
{
    lemma_expr_size_positive(left);
    lemma_expr_size_positive(right);
    law_expression_only_adds_errors(s, left);
    let s1 = check_expr(s, left).0;
    law_expression_only_adds_errors(s1, right);
    let s2 = check_expr(s1, right).0;
    lemma_added_trans(s, s1, s2);
    lemma_reports_add(s, s1);
    lemma_reports_add(s, s2);
}

proof fn lemma_unary(s: CheckerView, op: UnaryOp, operand: Expr)
    ensures
        only_errors_added(s, check_unary(s, op, operand).0),
    decreases expr_size(operand), 1int,
{
    law_expression_only_adds_errors(s, operand);
    let s1 = check_expr(s, operand).0;
    lemma_reports_add(s, s1);
}

proof fn lemma_array_literal(s: CheckerView, elements: Seq<Expr>, span: SpanView)
    ensures
        only_errors_added(s, check_array_literal(s, elements, span).0),
    decreases exprs_size(elements), 2int,
{
    lemma_keeps_own(s);
    lemma_reports_add(s, s);
    if elements.len() > 0 {
        lemma_elements(s, elements, None);
    }
}

proof fn lemma_elements(s: CheckerView, elements: Seq<Expr>, found: Option<TypeView>)
    ensures
        only_errors_added(s, check_elements(s, elements, found).0),
    decreases exprs_size(elements), 1int,
{
    lemma_keeps_own(s);
    if elements.len() > 0 {
        let first = elements[0];
        lemma_expr_size_positive(first);
        law_expression_only_adds_errors(s, first);
        let (s1, t) = check_expr(s, first);
        lemma_reports_add(s, s1);
        let (s2, found2) = match t {
            Some(ty) => match found {
                Some(prev) => if crate::semantic::type_rules::same_type(prev, ty) {
                    (s1, found)
                } else {
                    (
                        s1.report(
                            crate::error::error_code::ErrorCode::E2021,
                            "All array elements must be same type, found mixed types: "@
                                + crate::syntax::ast::type_text::type_text(prev) + " and "@
                                + crate::syntax::ast::type_text::type_text(ty),
                            first.spec_span()@,
                        ),
                        found,
                    )
                },
                None => (s1, Some(ty)),
            },
            None => (s1, found),
        };
        let rest = elements.subrange(1, elements.len() as int);
        lemma_elements(s2, rest, found2);
        lemma_added_trans(s, s2, check_elements(s2, rest, found2).0);
    }
}

proof fn lemma_assign(s: CheckerView, target: Expr, value: Expr)
    ensures
        only_errors_added(s, check_assign(s, target, value).0),
    decreases expr_size(target) + expr_size(value), 1int,
{
    lemma_expr_size_positive(target);
    lemma_expr_size_positive(value);
    lemma_keeps_own(s);
    lemma_reports_add(s, s);
    match target {
        Expr::ArrayAccess { array, index, span, .. } => {
            let sa = match crate::semantic::expr_rules::immutable_target(s.table, *array) {
                Some(n) => s.report(
                    crate::error::error_code::ErrorCode::E2024,
                    crate::semantic::expr_rules::immutable_message(n),
                    span@,
                ),
                None => s,
            };
            lemma_array_access(sa, *array, *index, span@);
            let sb = check_array_access(sa, *array, *index, span@).0;
            lemma_added_trans(s, sa, sb);
            law_expression_only_adds_errors(sb, value);
            let s2 = check_expr(sb, value).0;
            lemma_added_trans(s, sb, s2);
            lemma_reports_add(s, s2);
        },
        Expr::Variable { name, span, .. } => {
            let st = match s.table.lookup_variable(name@) {
                Some(v) => if v.mutable {
                    s
                } else {
                    s.report(
                        crate::error::error_code::ErrorCode::E2024,
                        crate::semantic::expr_rules::immutable_message(name@),
                        span@,
                    )
                },
                None => s.report(crate::error::error_code::ErrorCode::E2025, "Undefined variable '"@ + name@ + "'"@, span@),
            };
            law_expression_only_adds_errors(st, value);
            let s2 = check_expr(st, value).0;
            lemma_added_trans(s, st, s2);
            lemma_reports_add(s, s2);
        },
        _ => {
            law_expression_only_adds_errors(s, value);
            let s2 = check_expr(s, value).0;
            lemma_reports_add(s, s2);
        },
    }
}

proof fn lemma_call(s: CheckerView, callee: Expr, arguments: Seq<Expr>, span: SpanView)
    ensures
        only_errors_added(s, check_call(s, callee, arguments, span).0),
    decreases expr_size(callee) + exprs_size(arguments), 2int,
{
    lemma_expr_size_positive(callee);
    lemma_keeps_own(s);
    lemma_reports_add(s, s);
    match callee {
        Expr::Variable { name, .. } => match s.table.lookup_function(name@) {
            Some(f) => {
                let s1 = if arguments.len() != f.parameters.len() {
                    s.report(
                        crate::error::error_code::ErrorCode::E2028,
                        "Function '"@ + name@ + "' expects "@ + crate::text::nat_text(f.parameters.len())
                            + " arguments, found "@ + crate::text::nat_text(arguments.len()),
                        span,
                    )
                } else {
                    s
                };
                lemma_arguments(s1, arguments, f.parameters, 1);
                lemma_added_trans(s, s1, check_arguments(s1, arguments, f.parameters, 1));
            },
            None => {
                let s1 = s.report(
                    crate::error::error_code::ErrorCode::E2027,
                    "Undefined function: '"@ + name@ + "'"@,
                    callee.spec_span()@,
                );
                lemma_all(s1, arguments);
                lemma_added_trans(s, s1, check_all(s1, arguments));
            },
        },
        _ => {
            let s1 = s.report(
                crate::error::error_code::ErrorCode::E2026,
                "Callee must be a function name"@,
                callee.spec_span()@,
            );
            lemma_all(s1, arguments);
            lemma_added_trans(s, s1, check_all(s1, arguments));
        },
    }
}

proof fn lemma_arguments(s: CheckerView, arguments: Seq<Expr>, parameters: Seq<ParameterView>, position: nat)
    ensures
        only_errors_added(s, check_arguments(s, arguments, parameters, position)),
    decreases exprs_size(arguments), 1int,
{
    lemma_keeps_own(s);
    if arguments.len() > 0 && parameters.len() > 0 {
        let arg = arguments[0];
        let expected = parameters[0].type_annotation;
        lemma_expr_size_positive(arg);
        law_expression_only_adds_errors(s, arg);
        let (s1, t) = check_expr(s, arg);
        lemma_reports_add(s, s1);
        let s2 = match t {
            Some(a) => if !crate::semantic::type_rules::assignable(a, expected) {
                s1.report(
                    crate::error::error_code::ErrorCode::E2029,
                    "Argument "@ + crate::text::nat_text(position) + " type mismatch: expected "@
                        + crate::syntax::ast::type_text::type_text(expected) + ", found "@
                        + crate::syntax::ast::type_text::type_text(a),
                    arg.spec_span()@,
                )
            } else {
                s1
            },
            None => s1,
        };
        let args2 = arguments.subrange(1, arguments.len() as int);
        let params2 = parameters.subrange(1, parameters.len() as int);
        lemma_arguments(s2, args2, params2, position + 1);
        lemma_added_trans(s, s2, check_arguments(s2, args2, params2, position + 1));
    }
}

proof fn lemma_all(s: CheckerView, exprs: Seq<Expr>)
    ensures
        only_errors_added(s, check_all(s, exprs)),
    decreases exprs_size(exprs), 1int,
{
    lemma_keeps_own(s);
    if exprs.len() > 0 {
        lemma_expr_size_positive(exprs[0]);
        law_expression_only_adds_errors(s, exprs[0]);
        let s1 = check_expr(s, exprs[0]).0;
        let rest = exprs.subrange(1, exprs.len() as int);
        lemma_all(s1, rest);
        lemma_added_trans(s, s1, check_all(s1, rest));
    }
}

proof fn lemma_array_access(s: CheckerView, array: Expr, index: Expr, span: SpanView)
    ensures
        only_errors_added(s, check_array_access(s, array, index, span).0),
    decreases expr_size(array) + expr_size(index), 1int,
{
    lemma_expr_size_positive(array);
    lemma_expr_size_positive(index);
    law_expression_only_adds_errors(s, array);
    let s1 = check_expr(s, array).0;
    law_expression_only_adds_errors(s1, index);
    let s2 = check_expr(s1, index).0;
    lemma_added_trans(s, s1, s2);
    lemma_reports_add(s, s2);
}

/// Declaring on top of a state in the same frame as `base` keeps it in that
/// frame.
proof fn lemma_declares_keep_frame(base: CheckerView, s: CheckerView)
    requires
        same_frame(base, s),
        s.table.scopes.len() >= 1,
    ensures
        forall|n: Seq<char>, sym: SymbolView, at: SpanView| same_frame(base, #[trigger] s.declare(n, sym, at)),
{
    assert forall|n: Seq<char>, sym: SymbolView, at: SpanView| same_frame(base, #[trigger] s.declare(n, sym, at)) by {
        let d = s.declare(n, sym, at);
        assert(d.errors.subrange(0, s.errors.len() as int) =~= s.errors);
        assert(outer_scopes(d) =~= outer_scopes(s));
        lemma_keeps_errors_trans(base, s, d);
    }
}

/// Recording errors on top of a state in the same frame as `base` keeps it
/// in that frame.
proof fn lemma_reports_keep_frame(base: CheckerView, s: CheckerView)
    requires
        same_frame(base, s),
    ensures
        forall|c: crate::error::error_code::ErrorCode, m: Seq<char>, sp: SpanView|
            same_frame(base, #[trigger] s.report(c, m, sp)),
{
    assert forall|c: crate::error::error_code::ErrorCode, m: Seq<char>, sp: SpanView|
        same_frame(base, #[trigger] s.report(c, m, sp)) by {
        assert(s.report(c, m, sp).errors.subrange(0, s.errors.len() as int) =~= s.errors);
        lemma_keeps_errors_trans(base, s, s.report(c, m, sp));
    }
}

proof fn lemma_expr_frame(s: CheckerView, e: Expr)
    ensures
        same_frame(s, check_expr(s, e).0),
        check_expr(s, e).0.table == s.table,
{
    law_expression_only_adds_errors(s, e);
}

proof fn lemma_condition(s: CheckerView, condition: Expr, construct: Seq<char>)
    ensures
        same_frame(s, check_condition(s, condition, construct)),
        check_condition(s, condition, construct).table == s.table,
{
    law_expression_only_adds_errors(s, condition);
    lemma_reports_add(s, check_expr(s, condition).0);
}

proof fn lemma_bindings(s: CheckerView, bindings: Seq<VarBinding>, ty: TypeView, mutable: bool, span: SpanView)
    requires
        s.table.scopes.len() >= 1,
    ensures
        same_frame(s, check_bindings(s, bindings, ty, mutable, span)),
    decreases bindings.len(),
{
    lemma_keeps_own(s);
    if bindings.len() > 0 {
        let b = bindings[0];
        let s1 = match b.initializer {
            Some(init) => {
                law_expression_only_adds_errors(s, init);
                let (si, it) = check_expr(s, init);
                lemma_reports_add(s, si);
                match it {
                    Some(t) => if !crate::semantic::type_rules::assignable(t, ty) {
                        si.report(
                            crate::error::error_code::ErrorCode::E2002,
                            "Cannot assign "@ + crate::syntax::ast::type_text::type_text(t) + " to "@
                                + crate::syntax::ast::type_text::type_text(ty) + " for variable '"@ + b.name@ + "'"@,
                            init.spec_span()@,
                        )
                    } else {
                        si
                    },
                    None => si,
                }
            },
            None => s,
        };
        let sym = SymbolView::Variable(
            crate::semantic::symbol_table::VariableView {
                name: b.name@,
                ty,
                mutable,
                defined_at: span,
                last_assignment: None,
            },
        );
        lemma_declares_keep_frame(s, s1);
        let s2 = s1.declare(b.name@, sym, span);
        let rest = bindings.subrange(1, bindings.len() as int);
        lemma_bindings(s2, rest, ty, mutable, span);
        lemma_frame_trans(s, s2, check_bindings(s2, rest, ty, mutable, span));
    }
}

proof fn lemma_params(s: CheckerView, params: Seq<Parameter>)
    requires
        s.table.scopes.len() >= 1,
    ensures
        same_frame(s, declare_params(s, params)),
    decreases params.len(),
{
    lemma_keeps_own(s);
    if params.len() > 0 {
        let p = params[0];
        let sym = SymbolView::Variable(
            crate::semantic::symbol_table::VariableView {
                name: p.name@,
                ty: p.type_annotation@,
                mutable: true,
                defined_at: p.span@,
                last_assignment: None,
            },
        );
        lemma_declares_keep_frame(s, s);
        let s1 = s.declare(p.name@, sym, p.span@);
        let rest = params.subrange(1, params.len() as int);
        lemma_params(s1, rest);
        lemma_frame_trans(s, s1, declare_params(s1, rest));
    }
}

proof fn lemma_return(s: CheckerView, value: Option<Expr>, span: SpanView)
    ensures
        same_frame(s, check_return(s, value, span)),
{
    lemma_keeps_own(s);
    lemma_reports_keep_frame(s, s);
    match value {
        Some(e) => {
            law_expression_only_adds_errors(s, e);
            lemma_reports_keep_frame(s, check_expr(s, e).0);
        },
        None => {},
    }
}

/// Checking a statement leaves the loop context, the return types, the
/// depth of the scope stack and the current function as they were; its own
/// scopes are closed again, and the errors found before are kept, first and
/// in order.
pub proof fn law_statement_keeps_frame(s: CheckerView, stmt: Stmt)
    requires
        s.table.scopes.len() >= 1,
    ensures
        same_frame(s, check_stmt(s, stmt)),
    decreases stmt_size(stmt), 0int,
{
    lemma_keeps_own(s);
    lemma_reports_keep_frame(s, s);
    match stmt {
        Stmt::Expression { expr } => lemma_expr_frame(s, *expr),
        Stmt::VarDeclaration { bindings, type_annotation, is_mutable, span } => lemma_bindings(
            s,
            bindings@,
            type_annotation@,
            is_mutable,
            span@,
        ),
        Stmt::Function { name, parameters, return_type, body, span } => lemma_function(
            s,
            name@,
            parameters@,
            return_type@,
            *body,
            span@,
        ),
        Stmt::If { condition, then_branch, else_branch, .. } => lemma_if(s, *condition, *then_branch, else_branch),
        Stmt::While { condition, body, .. } => lemma_while(s, *condition, *body),
        Stmt::For { initializer, condition, increment, body, span } => lemma_for(
            s,
            initializer,
            condition,
            increment,
            *body,
            span@,
        ),
        Stmt::Block { statements, span } => lemma_block(s, statements@, span@),
        Stmt::Return { value, span } => lemma_return(s, value, span@),
        Stmt::Break { .. } => {},
        Stmt::Continue { .. } => {},
        Stmt::MainFunction { body, span } => lemma_function(s, "main"@, Seq::empty(), TypeView::Void, *body, span@),
    }
}

/// Statements checked in order keep the frame as each one does.
pub proof fn law_statements_keep_frame(s: CheckerView, stmts: Seq<Stmt>)
    requires
        s.table.scopes.len() >= 1,
    ensures
        same_frame(s, check_stmts(s, stmts)),
    decreases stmts_size(stmts), 1int,
{
    lemma_keeps_own(s);
    if stmts.len() > 0 {
        lemma_stmt_size_positive(stmts[0]);
        law_statement_keeps_frame(s, stmts[0]);
        let s1 = check_stmt(s, stmts[0]);
        let rest = stmts.subrange(1, stmts.len() as int);
        law_statements_keep_frame(s1, rest);
        lemma_frame_trans(s, s1, check_stmts(s1, rest));
    }
}

/// The function symbol that a function declaration binds.
pub open spec fn function_view(
    name: Seq<char>,
    params: Seq<Parameter>,
    return_type: TypeView,
    span: SpanView,
) -> crate::semantic::symbol_table::FunctionView {
    crate::semantic::symbol_table::FunctionView {
        name,
        parameters: crate::syntax::ast::parameter::params_view(params),
        return_type,
        defined_at: span,
    }
}

/// The state once a function's name is declared and its body checked in its
/// own scope under its return type, before that scope is closed.
pub open spec fn function_body_checked(
    s: CheckerView,
    name: Seq<char>,
    params: Seq<Parameter>,
    return_type: TypeView,
    body: Stmt,
    span: SpanView,
) -> CheckerView {
    let s1 = s.declare(name, SymbolView::Function(function_view(name, params, return_type, span)), span);
    let s2 = CheckerView {
        returns: s1.returns.push(return_type),
        ..s1.open_scope(crate::semantic::symbol_table::ScopeKind::Function, Some(span))
    };
    let s3 = declare_params(s2, params);
    match body {
        Stmt::Block { statements, .. } => check_stmts(s3, statements@),
        _ => check_stmt(s3, body),
    }
}

/// Checking a function declaration binds its name to the function in the
/// scope innermost before it, where a lookup then finds it, unless that scope
/// already binds the name, which is error `E2032` and binds nothing. Every
/// scope, the loop context, the return types and the current function are
/// afterwards as that declaration left them. The last error recorded is
/// `E2003` at the declaration exactly when the function is not `void` and its
/// body may not return: it comes after the errors of the body, and nothing
/// else follows them.
pub proof fn law_function_declaration(
    s: CheckerView,
    name: Seq<char>,
    params: Seq<Parameter>,
    return_type: TypeView,
    body: Stmt,
    span: SpanView,
)
    requires
        s.table.wf(),
    ensures
        ({
            let func = function_view(name, params, return_type, span);
            let declared = s.declare(name, SymbolView::Function(func), span);
            let checked = function_body_checked(s, name, params, return_type, body, span);
            let r = check_function(s, name, params, return_type, body, span);
            &&& r.table.scopes == declared.table.scopes
            &&& r.in_loop == s.in_loop
            &&& r.returns == s.returns
            &&& r.table.current_function == s.table.current_function
            &&& s.table.current_binding(name) is None ==> declared.errors == s.errors
                && r.table.lookup_function(name) == Some(func)
            &&& s.table.current_binding(name) is Some ==> declared.table == s.table
                && declared.errors.len() == s.errors.len() + 1
                && declared.errors.drop_last() == s.errors
                && declared.errors.last().code() == Some(ErrorCode::E2032)
            &&& keeps_errors(declared, checked)
            &&& r.errors == if return_type != TypeView::Void && !crate::semantic::stmt_rules::has_return(body) {
                checked.errors.push(
                    crate::semantic::checker_state::type_error(
                        ErrorCode::E2003,
                        "Function '"@ + name + "' may not return value in all code paths (expected return type: "@
                            + type_text(return_type) + ")"@,
                        span,
                    ),
                )
            } else {
                checked.errors
            }
        }),
{
    let func = function_view(name, params, return_type, span);
    lemma_function(s, name, params, return_type, body, span);
    let declared = s.declare(name, SymbolView::Function(func), span);
    if s.table.current_binding(name) is None {
        crate::semantic::symbol_table::law_declared_name_is_found(s.table, name, SymbolView::Function(func), span);
        assert(declared.table.lookup(name) == Some(SymbolView::Function(func)));
    } else {
        assert(declared.errors.drop_last() =~= s.errors);
    }
    let s2 = CheckerView {
        returns: declared.returns.push(return_type),
        ..declared.open_scope(crate::semantic::symbol_table::ScopeKind::Function, Some(span))
    };
    lemma_keeps_own(s2);
    lemma_params(s2, params);
    let s3 = declare_params(s2, params);
    match body {
        Stmt::Block { statements, .. } => law_statements_keep_frame(s3, statements@),
        _ => law_statement_keeps_frame(s3, body),
    }
    let checked = function_body_checked(s, name, params, return_type, body, span);
    lemma_keeps_errors_trans(s2, s3, checked);
}

proof fn lemma_function(
    s: CheckerView,
    name: Seq<char>,
    params: Seq<Parameter>,
    return_type: TypeView,
    body: Stmt,
    span: SpanView,
)
    requires
        s.table.scopes.len() >= 1,
    ensures
        same_frame(s, check_function(s, name, params, return_type, body, span)),
        check_function(s, name, params, return_type, body, span).table.scopes == s.declare(
            name,
            SymbolView::Function(function_view(name, params, return_type, span)),
            span,
        ).table.scopes,
    decreases stmt_size(body), 1int,
{
    let func = crate::semantic::symbol_table::FunctionView {
        name,
        parameters: crate::syntax::ast::parameter::params_view(params),
        return_type,
        defined_at: span,
    };
    lemma_keeps_own(s);
    lemma_declares_keep_frame(s, s);
    let s1 = s.declare(name, SymbolView::Function(func), span);
    let s2 = CheckerView {
        returns: s1.returns.push(return_type),
        ..s1.open_scope(crate::semantic::symbol_table::ScopeKind::Function, Some(span))
    };
    lemma_keeps_own(s2);
    lemma_params(s2, params);
    let s3 = declare_params(s2, params);
    let s4 = match body {
        Stmt::Block { statements, .. } => {
            law_statements_keep_frame(s3, statements@);
            check_stmts(s3, statements@)
        },
        _ => {
            law_statement_keeps_frame(s3, body);
            check_stmt(s3, body)
        },
    };
    lemma_frame_trans(s2, s3, s4);
    lemma_reports_keep_frame(s2, s4);
    let s5 = check_function(s, name, params, return_type, body, span);
    assert(s2.returns.drop_last() =~= s.returns);
    lemma_keeps_errors_trans(s, s1, s2);
    let s4b = if return_type != TypeView::Void && !crate::semantic::stmt_rules::has_return(body) {
        s4.report(
            crate::error::error_code::ErrorCode::E2003,
            "Function '"@ + name + "' may not return value in all code paths (expected return type: "@
                + crate::syntax::ast::type_text::type_text(return_type) + ")"@,
            span,
        )
    } else {
        s4
    };
    assert(same_frame(s2, s4b));
    lemma_keeps_errors_trans(s, s2, s4b);
    lemma_close_restores(s1, s2, s4b);
    assert(outer_scopes(s1) =~= outer_scopes(s));
}

proof fn lemma_if(s: CheckerView, condition: Expr, then_branch: Stmt, else_branch: ElseBranch)
    requires
        s.table.scopes.len() >= 1,
    ensures
        same_frame(s, check_if(s, condition, then_branch, else_branch)),
    decreases stmt_size(then_branch) + else_size(else_branch), 1int,
{
    lemma_condition(s, condition, "'if' statement"@);
    let s1 = check_condition(s, condition, "'if' statement"@);
    law_statement_keeps_frame(s1, then_branch);
    let s2 = check_stmt(s1, then_branch);
    lemma_frame_trans(s, s1, s2);
    match else_branch {
        ElseBranch::Absent => {},
        ElseBranch::Block(b) => {
            law_statement_keeps_frame(s2, *b);
            lemma_frame_trans(s, s2, check_stmt(s2, *b));
        },
        ElseBranch::ElseIf(b) => {
            law_statement_keeps_frame(s2, *b);
            lemma_frame_trans(s, s2, check_stmt(s2, *b));
        },
    }
}

proof fn lemma_while(s: CheckerView, condition: Expr, body: Stmt)
    requires
        s.table.scopes.len() >= 1,
    ensures
        same_frame(s, check_while(s, condition, body)),
    decreases stmt_size(body), 1int,
{
    lemma_condition(s, condition, "'while' loop"@);
    let s1 = check_condition(s, condition, "'while' loop"@);
    let inner = s1.with_loop(true).open_scope(crate::semantic::symbol_table::ScopeKind::Block, Some(condition.spec_span()@));
    law_statement_keeps_frame(inner, body);
    let s2 = check_stmt(inner, body);
    lemma_keeps_errors_trans(s, s1, s2);
    lemma_close_restores(s1.with_loop(true), inner, s2);
}

proof fn lemma_for(
    s: CheckerView,
    initializer: Option<Box<Stmt>>,
    condition: Option<Expr>,
    increment: Option<Expr>,
    body: Stmt,
    span: SpanView,
)
    requires
        s.table.scopes.len() >= 1,
    ensures
        same_frame(s, check_for(s, initializer, condition, increment, body, span)),
    decreases init_size(initializer) + stmt_size(body), 1int,
{
    lemma_stmt_size_positive(body);
    let s1 = s.open_scope(crate::semantic::symbol_table::ScopeKind::Block, Some(span));
    lemma_keeps_own(s1);
    let s2 = match initializer {
        Some(init) => {
            law_statement_keeps_frame(s1, *init);
            check_stmt(s1, *init)
        },
        None => s1,
    };
    let s3 = match condition {
        Some(c) => {
            lemma_condition(s2, c, "For loop"@);
            check_condition(s2, c, "For loop"@)
        },
        None => {
            lemma_keeps_own(s2);
            s2
        },
    };
    lemma_frame_trans(s1, s2, s3);
    let s4 = match increment {
        Some(i) => {
            lemma_expr_frame(s3, i);
            check_expr(s3, i).0
        },
        None => {
            lemma_keeps_own(s3);
            s3
        },
    };
    lemma_frame_trans(s1, s3, s4);
    law_statement_keeps_frame(s4.with_loop(true), body);
    let s5 = check_stmt(s4.with_loop(true), body);
    lemma_keeps_errors_trans(s1, s4, s5);
    assert(outer_scopes(s1) =~= s.table.scopes);
    assert(s4.with_loop(true).table.scopes =~= s.table.scopes.push(s4.table.scopes.last()));
    lemma_close_restores(s, s4.with_loop(true), s5);
}

proof fn lemma_block(s: CheckerView, stmts: Seq<Stmt>, span: SpanView)
    requires
        s.table.scopes.len() >= 1,
    ensures
        same_frame(s, check_block(s, stmts, span)),
    decreases stmts_size(stmts), 2int,
{
    let s1 = s.open_scope(crate::semantic::symbol_table::ScopeKind::Block, Some(span));
    law_statements_keep_frame(s1, stmts);
    lemma_close_restores(s, s1, check_stmts(s1, stmts));
}

/// A binary operation whose operands check to numeric types adds no error
/// beyond those of its operands and gives `bool` for a comparison and the
/// promoted type of the operands for arithmetic, plain or compound. A bitwise
/// or shift operator gives the promoted type when both operands are
/// integers; otherwise it gives no type and records exactly one `E2011`
/// error at the operation.
pub proof fn law_numeric_binary_operations(s: CheckerView, left: Expr, op: BinaryOp, right: Expr, span: SpanView)
    requires
        check_expr(s, left).1 matches Some(l) && is_numeric(l),
        !(is_compound(op) && immutable_target(check_expr(s, left).0.table, left) is Some),
        check_expr(check_expr(s, left).0, right).1 matches Some(r) && is_numeric(r),
    ensures
        ({
            let l = check_expr(s, left).1->0;
            let r = check_expr(check_expr(s, left).0, right).1->0;
            let s2 = check_expr(check_expr(s, left).0, right).0;
            let result = check_binary(s, left, op, right, span);
            &&& is_comparison(op) ==> result == (s2, Some(TypeView::Bool))
            &&& is_arithmetic(op) ==> result == (s2, Some(promote(l, r)))
            &&& is_bitwise(op) && is_integer(l) && is_integer(r) ==> result == (s2, Some(promote(l, r)))
            &&& is_bitwise(op) && !(is_integer(l) && is_integer(r)) ==> result == (
                s2.report(
                    ErrorCode::E2011,
                    "Bitwise operator '"@ + binary_op_name(op) + "' require integer operand types, found "@
                        + type_text(l) + " and "@ + type_text(r),
                    span,
                ),
                None::<TypeView>,
            )
        }),
{
    let l = check_expr(s, left).1->0;
    let r = check_expr(check_expr(s, left).0, right).1->0;
    let p = promote(l, r);
    assert(is_numeric(p));
    assert(is_integer(l) && is_integer(r) ==> is_integer(p));
}

/// The fixed-width integer types of the language.
pub open spec fn integer_kind(t: TypeView) -> bool {
    t is I8 || t is I16 || t is I32 || t is I64 || t is U8 || t is U16 || t is U32 || t is U64
}

/// The numeric types of the language: the integer types and both
/// floating-point types.
pub open spec fn numeric_kind(t: TypeView) -> bool {
    integer_kind(t) || t is F32 || t is F64
}

/// On an operand that checks to type `t`: negation accepts every numeric
/// type, floating-point ones included, keeps it and adds no error, and
/// rejects any other type with one `E2018` error and no type; logical not
/// accepts exactly `bool` and gives `bool`; bitwise not accepts exactly the
/// integer types and keeps the type. None of them changes the symbol table.
pub proof fn law_unary_operand_types(s: CheckerView, e: Expr, t: TypeView)
    requires
        check_expr(s, e).1 == Some(t),
    ensures
        numeric_kind(t) ==> check_unary(s, UnaryOp::Negate, e) == (check_expr(s, e).0, Some(t)),
        !numeric_kind(t) ==> check_unary(s, UnaryOp::Negate, e).1 is None
            && check_unary(s, UnaryOp::Negate, e).0.errors.drop_last() == check_expr(s, e).0.errors
            && check_unary(s, UnaryOp::Negate, e).0.errors.len() == check_expr(s, e).0.errors.len() + 1
            && check_unary(s, UnaryOp::Negate, e).0.errors.last().code() == Some(ErrorCode::E2018),
        t == TypeView::Bool ==> check_unary(s, UnaryOp::Not, e) == (check_expr(s, e).0, Some(TypeView::Bool)),
        t != TypeView::Bool ==> check_unary(s, UnaryOp::Not, e).1 is None,
        integer_kind(t) ==> check_unary(s, UnaryOp::BitwiseNot, e) == (check_expr(s, e).0, Some(t)),
        !integer_kind(t) ==> check_unary(s, UnaryOp::BitwiseNot, e).1 is None,
        check_unary(s, UnaryOp::Negate, e).0.table == s.table,
{
    law_expression_only_adds_errors(s, e);
    let s1 = check_expr(s, e).0;
    assert(s1.report(ErrorCode::E2018, "Negation requires numeric type operand, found "@ + type_text(t), e.spec_span()@).errors.drop_last() =~= s1.errors);
}

/// `break` and `continue` belong in loops: outside a loop each records one
/// error (`E2009`, `E2010`) at the statement and changes nothing else; inside
/// a loop each is accepted as it is, and a `while` loop whose body is one of
/// them adds no error beyond those of its condition.
pub proof fn law_jumps_need_a_loop(s: CheckerView, condition: Expr, span: crate::location::source_span::SourceSpan)
    requires
        s.table.scopes.len() >= 1,
    ensures
        !s.in_loop ==> check_stmt(s, Stmt::Break { span }) == s.report(
            ErrorCode::E2009,
            "Break statement outside loop"@,
            span@,
        ),
        !s.in_loop ==> check_stmt(s, Stmt::Continue { span }) == s.report(
            ErrorCode::E2010,
            "Continue statement outside loop"@,
            span@,
        ),
        s.in_loop ==> check_stmt(s, Stmt::Break { span }) == s && check_stmt(s, Stmt::Continue { span }) == s,
        check_while(s, condition, Stmt::Break { span }).errors == check_condition(s, condition, "'while' loop"@).errors,
        check_while(s, condition, Stmt::Continue { span }).errors == check_condition(
            s,
            condition,
            "'while' loop"@,
        ).errors,
        check_while(s, condition, Stmt::Break { span }).in_loop == s.in_loop,
{
    lemma_condition(s, condition, "'while' loop"@);
}

/// A logical connective on two operands that check to `bool` gives `bool`
/// and adds no error beyond those of its operands.
pub proof fn law_logical_operations(s: CheckerView, left: Expr, op: BinaryOp, right: Expr, span: SpanView)
    requires
        op == BinaryOp::And || op == BinaryOp::Or,
        check_expr(s, left).1 == Some(TypeView::Bool),
        check_expr(check_expr(s, left).0, right).1 == Some(TypeView::Bool),
    ensures
        check_binary(s, left, op, right, span) == (check_expr(check_expr(s, left).0, right).0, Some(TypeView::Bool)),
{
}

/// What a `return` records: outside any function, one `E2005` error; in a
/// `void` function, nothing for a bare `return` and one `E2006` error for a
/// value; in any other function, one `E2008` error for a bare `return`, and
/// for a value of exactly the declared type, or of a narrower integer type
/// of the same signedness, nothing beyond the errors of the value.
pub proof fn law_return_rules(s: CheckerView, value: Option<Expr>, span: SpanView)
    ensures
        s.returns.len() == 0 ==> check_return(s, value, span).errors.len() == s.errors.len() + 1
            && check_return(s, value, span).errors.last().code() == Some(ErrorCode::E2005),
        s.returns.len() > 0 && s.returns.last() == TypeView::Void && value is None ==> check_return(s, value, span)
            == s,
        s.returns.len() > 0 && s.returns.last() == TypeView::Void && value is Some ==> check_return(
            s,
            value,
            span,
        ).errors.len() == s.errors.len() + 1 && check_return(s, value, span).errors.last().code() == Some(
            ErrorCode::E2006,
        ),
        s.returns.len() > 0 && s.returns.last() != TypeView::Void && value is None ==> check_return(
            s,
            value,
            span,
        ).errors.len() == s.errors.len() + 1 && check_return(s, value, span).errors.last().code() == Some(
            ErrorCode::E2008,
        ),
        s.returns.len() > 0 && s.returns.last() != TypeView::Void && value is Some && check_expr(s, value->0).1 is Some
            && ({
            let a = check_expr(s, value->0).1->0;
            a == s.returns.last() || (a == TypeView::I32 && s.returns.last() == TypeView::I64) || (a == TypeView::U8
                && s.returns.last() == TypeView::U32)
        }) ==> check_return(s, value, span) == check_expr(s, value->0).0,
{
}

} // verus!
