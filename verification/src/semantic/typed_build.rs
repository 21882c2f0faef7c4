//! Building the fully typed tree from the syntax tree and the types that
//! semantic analysis recorded for its expression nodes.
//!
//! The types are recorded by node address: the key of an expression is the
//! address at which the node lies. Where a node lies is up to the allocator,
//! so which recorded type a node finds cannot be stated; what is stated is
//! that every typed node mirrors its syntax node and carries one of the
//! recorded types, and that a failure names a node of the tree.
use vstd::prelude::*;
use std::collections::HashMap;
use crate::location::source_span::{span_text, SpanView};
use crate::semantic::typed_ast::{
    FullyTypedAst, ResolvedType, TypedElseBranch, TypedExpr, TypedExprKind, TypedStmt, TypedVarBinding,
};
use crate::syntax::ast::model::clone_types;
use crate::syntax::ast::parameter::{clone_params, params_view};
use crate::syntax::ast::{ElseBranch, Expr, Stmt, Type, VarBinding};
use crate::text::cat2;

verus! {

broadcast use vstd::std_specs::hash::group_hash_axioms;

/// The address of an expression node, the key under which its resolved type
/// is recorded. Where the node lies in memory is up to the allocator, so
/// nothing is stated of the result.
#[verifier::external_body]
fn node_address(expr: &Expr) -> (r: usize) {
    std::ptr::from_ref(expr) as usize
}

/// A copy of a resolved type.
fn clone_resolved(t: &ResolvedType) -> (r: ResolvedType)
    ensures
        r@ == t@,
{
    match t {
        ResolvedType::Value(ty) => ResolvedType::Value(ty.clone()),
        ResolvedType::Function { parameters, return_type } => ResolvedType::Function {
            parameters: clone_types(parameters),
            return_type: return_type.clone(),
        },
    }
}

/// `ty` is one of the types recorded in `types`.
pub open spec fn recorded(ty: ResolvedType, types: Map<usize, ResolvedType>) -> bool {
    exists|k: usize| #[trigger] types.contains_key(k) && types[k]@ == ty@
}

/// The message of a node at `span` for which no type was recorded.
pub open spec fn missing_text(span: SpanView) -> Seq<char> {
    "missing resolved type for expression at "@ + span_text(span)
}

/// `t` is `e` with one of the recorded `types` attached to every node:
/// same shape, operators, names, literals and spans.
pub open spec fn typed_expr_of(t: TypedExpr, e: Expr, types: Map<usize, ResolvedType>) -> bool
    decreases e, 0int,
{
    &&& recorded(t.ty, types)
    &&& t.span@ == e.spec_span()@
    &&& match e {
        Expr::Binary { left, op, right, .. } => (t.kind matches TypedExprKind::Binary { left: tl, op: to, right: tr }
            && to == op && typed_expr_of(*tl, *left, types) && typed_expr_of(*tr, *right, types)),
        Expr::Unary { op, side, expr, .. } => (t.kind matches TypedExprKind::Unary { op: to, side: ts, expr: te }
            && to == op && ts == side && typed_expr_of(*te, *expr, types)),
        Expr::Grouping { expr, .. } => (t.kind matches TypedExprKind::Grouping { expr: te } && typed_expr_of(
            *te,
            *expr,
            types,
        )),
        Expr::Literal { value, .. } => (t.kind matches TypedExprKind::Literal { value: tv } && tv@ == value@),
        Expr::ArrayLiteral { elements, .. } => (t.kind matches TypedExprKind::ArrayLiteral { elements: te }
            && typed_exprs_of(te@, elements@, types)),
        Expr::Variable { name, .. } => (t.kind matches TypedExprKind::Variable { name: tn } && tn@ == name@),
        Expr::Assign { target, value, .. } => (t.kind matches TypedExprKind::Assign { target: tt, value: tv }
            && typed_expr_of(*tt, *target, types) && typed_expr_of(*tv, *value, types)),
        Expr::Call { callee, arguments, .. } => (t.kind matches TypedExprKind::Call { callee: tc, arguments: ta }
            && typed_expr_of(*tc, *callee, types) && typed_exprs_of(ta@, arguments@, types)),
        Expr::ArrayAccess { array, index, .. } => (t.kind matches TypedExprKind::ArrayAccess {
            array: ta,
            index: ti,
        } && typed_expr_of(*ta, *array, types) && typed_expr_of(*ti, *index, types)),
    }
}

/// Each of `ts` is the typed form of the expression of `es` at its position.
pub open spec fn typed_exprs_of(ts: Seq<TypedExpr>, es: Seq<Expr>, types: Map<usize, ResolvedType>) -> bool
    decreases es, 0int,
{
    &&& ts.len() == es.len()
    &&& es.len() > 0 ==> typed_expr_of(ts[0], es[0], types) && typed_exprs_of(
        ts.subrange(1, ts.len() as int),
        es.subrange(1, es.len() as int),
        types,
    )
}

/// `m` is the message of a node of `e` without a recorded type.
pub open spec fn missing_in_expr(m: Seq<char>, e: Expr) -> bool
    decreases e, 0int,
{
    ||| m == missing_text(e.spec_span()@)
    ||| match e {
        Expr::Binary { left, right, .. } => missing_in_expr(m, *left) || missing_in_expr(m, *right),
        Expr::Unary { expr, .. } => missing_in_expr(m, *expr),
        Expr::Grouping { expr, .. } => missing_in_expr(m, *expr),
        Expr::Literal { .. } => false,
        Expr::ArrayLiteral { elements, .. } => missing_in_exprs(m, elements@),
        Expr::Variable { .. } => false,
        Expr::Assign { target, value, .. } => missing_in_expr(m, *target) || missing_in_expr(m, *value),
        Expr::Call { callee, arguments, .. } => missing_in_expr(m, *callee) || missing_in_exprs(m, arguments@),
        Expr::ArrayAccess { array, index, .. } => missing_in_expr(m, *array) || missing_in_expr(m, *index),
    }
}

/// `m` is the message of a node of one of `es` without a recorded type.
pub open spec fn missing_in_exprs(m: Seq<char>, es: Seq<Expr>) -> bool
    decreases es, 0int,
{
    es.len() > 0 && (missing_in_expr(m, es[0]) || missing_in_exprs(m, es.subrange(1, es.len() as int)))
}

/// A list of typed expressions is the typed form of a list of expressions
/// exactly when each element is the typed form of the one at its position.
pub proof fn lemma_typed_exprs(ts: Seq<TypedExpr>, es: Seq<Expr>, types: Map<usize, ResolvedType>)
    ensures
        typed_exprs_of(ts, es, types) <==> (ts.len() == es.len() && forall|i: int|
            0 <= i < es.len() ==> #[trigger] typed_expr_of(ts[i], es[i], types)),
    decreases es.len(),
{
    if es.len() > 0 && ts.len() == es.len() {
        let tr = ts.subrange(1, ts.len() as int);
        let er = es.subrange(1, es.len() as int);
        lemma_typed_exprs(tr, er, types);
        if forall|i: int| 0 <= i < es.len() ==> #[trigger] typed_expr_of(ts[i], es[i], types) {
            assert forall|i: int| 0 <= i < er.len() implies #[trigger] typed_expr_of(tr[i], er[i], types) by {
                assert(typed_expr_of(ts[i + 1], es[i + 1], types));
            }
            assert(typed_expr_of(ts[0], es[0], types));
            assert(typed_exprs_of(tr, er, types));
            assert(typed_exprs_of(ts, es, types));
        }
        if typed_exprs_of(ts, es, types) {
            assert forall|i: int| 0 <= i < es.len() implies #[trigger] typed_expr_of(ts[i], es[i], types) by {
                if i > 0 {
                    assert(typed_expr_of(tr[i - 1], er[i - 1], types));
                }
            }
        }
    }
}

/// A failing element makes the list fail with its message.
pub proof fn lemma_missing_in_exprs(m: Seq<char>, es: Seq<Expr>, i: int)
    requires
        0 <= i < es.len(),
        missing_in_expr(m, es[i]),
    ensures
        missing_in_exprs(m, es),
    decreases i,
{
    if i > 0 {
        let rest = es.subrange(1, es.len() as int);
        assert(rest[i - 1] == es[i]);
        lemma_missing_in_exprs(m, rest, i - 1);
    }
}

/// The message for a node without a recorded type.
fn missing_message(expr: &Expr) -> (r: String)
    ensures
        r@ == missing_text(expr.spec_span()@),
{
    let shown = expr.span().to_text();
    cat2("missing resolved type for expression at ", shown.as_str())
}

/// The type recorded under `key` for the node `expr`, copied; without one,
/// the error that names the node.
fn recorded_type(expr: &Expr, key: usize, types: &HashMap<usize, ResolvedType>) -> (r: Result<ResolvedType, String>)
    ensures
        match r {
            Ok(t) => types@.contains_key(key) && t@ == types@[key]@,
            Err(m) => !types@.contains_key(key) && m@ == missing_text(expr.spec_span()@),
        },
{
    match types.get(&key) {
        Some(t) => Ok(clone_resolved(t)),
        None => Err(missing_message(expr)),
    }
}

impl TypedExpr {
    /// The typed form of `expr`, each node carrying the type recorded for
    /// it in `types`; an error naming the first node, in a walk from the
    /// root, for which no type was recorded.
    pub fn from_expr(expr: &Expr, types: &HashMap<usize, ResolvedType>) -> (r: Result<Self, String>)
        ensures
            match r {
                Ok(t) => typed_expr_of(t, *expr, types@),
                Err(m) => missing_in_expr(m@, *expr),
            },
            types@.is_empty() ==> r is Err,
        decreases expr,
    {
        let key = node_address(expr);
        let ty = match recorded_type(expr, key, types) {
            Ok(t) => t,
            Err(m) => {
                return Err(m);
            },
        };
        let kind = match expr {
            Expr::Binary { left, op, right, .. } => {
                let l = match Self::from_expr(left, types) {
                    Ok(t) => t,
                    Err(m) => return Err(m),
                };
                let r = match Self::from_expr(right, types) {
                    Ok(t) => t,
                    Err(m) => return Err(m),
                };
                TypedExprKind::Binary { left: Box::new(l), op: *op, right: Box::new(r) }
            },
            Expr::Unary { op, side, expr: inner, .. } => {
                let e = match Self::from_expr(inner, types) {
                    Ok(t) => t,
                    Err(m) => return Err(m),
                };
                TypedExprKind::Unary { op: *op, side: *side, expr: Box::new(e) }
            },
            Expr::Grouping { expr: inner, .. } => {
                let e = match Self::from_expr(inner, types) {
                    Ok(t) => t,
                    Err(m) => return Err(m),
                };
                TypedExprKind::Grouping { expr: Box::new(e) }
            },
            Expr::Literal { value, .. } => TypedExprKind::Literal { value: value.clone() },
            Expr::ArrayLiteral { elements, .. } => {
                let es = match Self::from_exprs(elements, types) {
                    Ok(v) => v,
                    Err(m) => return Err(m),
                };
                TypedExprKind::ArrayLiteral { elements: es }
            },
            Expr::Variable { name, .. } => TypedExprKind::Variable { name: name.clone() },
            Expr::Assign { target, value, .. } => {
                let t = match Self::from_expr(target, types) {
                    Ok(t) => t,
                    Err(m) => return Err(m),
                };
                let v = match Self::from_expr(value, types) {
                    Ok(t) => t,
                    Err(m) => return Err(m),
                };
                TypedExprKind::Assign { target: Box::new(t), value: Box::new(v) }
            },
            Expr::Call { callee, arguments, .. } => {
                let c = match Self::from_expr(callee, types) {
                    Ok(t) => t,
                    Err(m) => return Err(m),
                };
                let args = match Self::from_exprs(arguments, types) {
                    Ok(v) => v,
                    Err(m) => return Err(m),
                };
                TypedExprKind::Call { callee: Box::new(c), arguments: args }
            },
            Expr::ArrayAccess { array, index, .. } => {
                let a = match Self::from_expr(array, types) {
                    Ok(t) => t,
                    Err(m) => return Err(m),
                };
                let i = match Self::from_expr(index, types) {
                    Ok(t) => t,
                    Err(m) => return Err(m),
                };
                TypedExprKind::ArrayAccess { array: Box::new(a), index: Box::new(i) }
            },
        };
        Ok(Self { kind, ty, span: expr.span().clone() })
    }

    /// The typed forms of `exprs`, in order; the error of the first that fails.
    fn from_exprs(exprs: &Vec<Expr>, types: &HashMap<usize, ResolvedType>) -> (r: Result<Vec<Self>, String>)
        ensures
            match r {
                Ok(ts) => typed_exprs_of(ts@, exprs@, types@),
                Err(m) => missing_in_exprs(m@, exprs@),
            },
        decreases exprs,
    {
        let mut out: Vec<Self> = Vec::new();
        let mut i: usize = 0;
        while i < exprs.len()
            invariant
                i <= exprs@.len(),
                out@.len() == i,
                forall|j: int| 0 <= j < i ==> #[trigger] typed_expr_of(out@[j], exprs@[j], types@),
            decreases exprs.len() - i,
        {
            match Self::from_expr(&exprs[i], types) {
                Ok(t) => out.push(t),
                Err(m) => {
                    proof {
                        lemma_missing_in_exprs(m@, exprs@, i as int);
                    }
                    return Err(m);
                },
            }
            i = i + 1;
        }
        proof {
            lemma_typed_exprs(out@, exprs@, types@);
        }
        Ok(out)
    }
}

/// `t` is the typed form of `e` when there is an expression, and absent otherwise.
pub open spec fn typed_opt_expr_of(t: Option<TypedExpr>, e: Option<Expr>, types: Map<usize, ResolvedType>) -> bool {
    match e {
        Some(x) => (t matches Some(tx) && typed_expr_of(tx, x, types)),
        None => t is None,
    }
}

/// `m` names a node of the expression, if there is one.
pub open spec fn missing_in_opt_expr(m: Seq<char>, e: Option<Expr>) -> bool {
    match e {
        Some(x) => missing_in_expr(m, x),
        None => false,
    }
}

/// `tb` are the bindings `bs` of a declaration of type `ann`, each with its
/// name, the declared type and its typed initializer.
pub open spec fn typed_bindings_of(
    tb: Seq<TypedVarBinding>,
    bs: Seq<VarBinding>,
    ann: Type,
    types: Map<usize, ResolvedType>,
) -> bool {
    &&& tb.len() == bs.len()
    &&& forall|i: int|
        0 <= i < bs.len() ==> {
            &&& (#[trigger] tb[i]).name@ == bs[i].name@
            &&& tb[i].declared_type@ == ann@
            &&& typed_opt_expr_of(tb[i].initializer, bs[i].initializer, types)
        }
}

/// `m` names a node of an initializer among `bs`.
pub open spec fn missing_in_bindings(m: Seq<char>, bs: Seq<VarBinding>) -> bool {
    exists|i: int| 0 <= i < bs.len() && missing_in_opt_expr(m, #[trigger] bs[i].initializer)
}

/// `t` is `s` with every expression typed from the recorded `types`, and
/// everything else (names, parameters, declared types, flags, spans) kept.
pub open spec fn typed_stmt_of(t: TypedStmt, s: Stmt, types: Map<usize, ResolvedType>) -> bool
    decreases s, 0int,
{
    match s {
        Stmt::Expression { expr } => (t matches TypedStmt::Expression { expr: te } && typed_expr_of(te, *expr, types)),
        Stmt::VarDeclaration { bindings, type_annotation, is_mutable, span } => (t matches TypedStmt::VarDeclaration {
            bindings: tb,
            type_annotation: tt,
            is_mutable: tm,
            span: ts,
        } && tt@ == type_annotation@ && tm == is_mutable && ts@ == span@ && typed_bindings_of(
            tb@,
            bindings@,
            type_annotation,
            types,
        )),
        Stmt::Function { name, parameters, return_type, body, span } => (t matches TypedStmt::Function {
            name: tn,
            parameters: tp,
            return_type: tr,
            body: tbody,
            span: ts,
        } && tn@ == name@ && params_view(tp@) == params_view(parameters@) && tr@ == return_type@ && ts@ == span@
            && typed_stmt_of(*tbody, *body, types)),
        Stmt::If { condition, then_branch, else_branch, span } => (t matches TypedStmt::If {
            condition: tc,
            then_branch: tt,
            else_branch: te,
            span: ts,
        } && typed_expr_of(tc, *condition, types) && typed_stmt_of(*tt, *then_branch, types) && typed_else_of(
            te,
            else_branch,
            types,
        ) && ts@ == span@),
        Stmt::While { condition, body, span } => (t matches TypedStmt::While { condition: tc, body: tb, span: ts }
            && typed_expr_of(tc, *condition, types) && typed_stmt_of(*tb, *body, types) && ts@ == span@),
        Stmt::For { initializer, condition, increment, body, span } => (t matches TypedStmt::For {
            initializer: ti,
            condition: tc,
            increment: tinc,
            body: tb,
            span: ts,
        } && (match initializer {
            Some(init) => (ti matches Some(tinit) && typed_stmt_of(*tinit, *init, types)),
            None => ti is None,
        }) && typed_opt_expr_of(tc, condition, types) && typed_opt_expr_of(tinc, increment, types) && typed_stmt_of(
            *tb,
            *body,
            types,
        ) && ts@ == span@),
        Stmt::Block { statements, span } => (t matches TypedStmt::Block { statements: tst, span: ts }
            && typed_stmts_of(tst@, statements@, types) && ts@ == span@),
        Stmt::Return { value, span } => (t matches TypedStmt::Return { value: tv, span: ts } && typed_opt_expr_of(
            tv,
            value,
            types,
        ) && ts@ == span@),
        Stmt::Break { span } => (t matches TypedStmt::Break { span: ts } && ts@ == span@),
        Stmt::Continue { span } => (t matches TypedStmt::Continue { span: ts } && ts@ == span@),
        Stmt::MainFunction { body, span } => (t matches TypedStmt::MainFunction { body: tb, span: ts }
            && typed_stmt_of(*tb, *body, types) && ts@ == span@),
    }
}

/// `t` is the typed form of the `else` branch `b`.
pub open spec fn typed_else_of(t: TypedElseBranch, b: ElseBranch, types: Map<usize, ResolvedType>) -> bool
    decreases b, 0int,
{
    match b {
        ElseBranch::Absent => t is Absent,
        ElseBranch::Block(s) => (t matches TypedElseBranch::Block(ts) && typed_stmt_of(*ts, *s, types)),
        ElseBranch::ElseIf(s) => (t matches TypedElseBranch::ElseIf(ts) && typed_stmt_of(*ts, *s, types)),
    }
}

/// Each of `ts` is the typed form of the statement of `ss` at its position.
pub open spec fn typed_stmts_of(ts: Seq<TypedStmt>, ss: Seq<Stmt>, types: Map<usize, ResolvedType>) -> bool
    decreases ss, 0int,
{
    &&& ts.len() == ss.len()
    &&& ss.len() > 0 ==> typed_stmt_of(ts[0], ss[0], types) && typed_stmts_of(
        ts.subrange(1, ts.len() as int),
        ss.subrange(1, ss.len() as int),
        types,
    )
}

/// `m` is the message of an expression node of `s` without a recorded type.
pub open spec fn missing_in_stmt(m: Seq<char>, s: Stmt) -> bool
    decreases s, 0int,
{
    match s {
        Stmt::Expression { expr } => missing_in_expr(m, *expr),
        Stmt::VarDeclaration { bindings, .. } => missing_in_bindings(m, bindings@),
        Stmt::Function { body, .. } => missing_in_stmt(m, *body),
        Stmt::If { condition, then_branch, else_branch, .. } => missing_in_expr(m, *condition) || missing_in_stmt(
            m,
            *then_branch,
        ) || missing_in_else(m, else_branch),
        Stmt::While { condition, body, .. } => missing_in_expr(m, *condition) || missing_in_stmt(m, *body),
        Stmt::For { initializer, condition, increment, body, .. } => (match initializer {
            Some(init) => missing_in_stmt(m, *init),
            None => false,
        }) || missing_in_opt_expr(m, condition) || missing_in_opt_expr(m, increment) || missing_in_stmt(m, *body),
        Stmt::Block { statements, .. } => missing_in_stmts(m, statements@),
        Stmt::Return { value, .. } => missing_in_opt_expr(m, value),
        Stmt::Break { .. } => false,
        Stmt::Continue { .. } => false,
        Stmt::MainFunction { body, .. } => missing_in_stmt(m, *body),
    }
}

/// `m` names an expression node of the `else` branch `b`.
pub open spec fn missing_in_else(m: Seq<char>, b: ElseBranch) -> bool
    decreases b, 0int,
{
    match b {
        ElseBranch::Absent => false,
        ElseBranch::Block(s) => missing_in_stmt(m, *s),
        ElseBranch::ElseIf(s) => missing_in_stmt(m, *s),
    }
}

/// `m` names an expression node of one of `ss`.
pub open spec fn missing_in_stmts(m: Seq<char>, ss: Seq<Stmt>) -> bool
    decreases ss, 0int,
{
    ss.len() > 0 && (missing_in_stmt(m, ss[0]) || missing_in_stmts(m, ss.subrange(1, ss.len() as int)))
}

/// A list of typed statements is the typed form of a list of statements
/// exactly when each element is the typed form of the one at its position.
pub proof fn lemma_typed_stmts(ts: Seq<TypedStmt>, ss: Seq<Stmt>, types: Map<usize, ResolvedType>)
    ensures
        typed_stmts_of(ts, ss, types) <==> (ts.len() == ss.len() && forall|i: int|
            0 <= i < ss.len() ==> #[trigger] typed_stmt_of(ts[i], ss[i], types)),
    decreases ss.len(),
{
    if ss.len() > 0 && ts.len() == ss.len() {
        let tr = ts.subrange(1, ts.len() as int);
        let sr = ss.subrange(1, ss.len() as int);
        lemma_typed_stmts(tr, sr, types);
        if forall|i: int| 0 <= i < ss.len() ==> #[trigger] typed_stmt_of(ts[i], ss[i], types) {
            assert forall|i: int| 0 <= i < sr.len() implies #[trigger] typed_stmt_of(tr[i], sr[i], types) by {
                assert(typed_stmt_of(ts[i + 1], ss[i + 1], types));
            }
            assert(typed_stmt_of(ts[0], ss[0], types));
            assert(typed_stmts_of(tr, sr, types));
            assert(typed_stmts_of(ts, ss, types));
        }
        if typed_stmts_of(ts, ss, types) {
            assert forall|i: int| 0 <= i < ss.len() implies #[trigger] typed_stmt_of(ts[i], ss[i], types) by {
                if i > 0 {
                    assert(typed_stmt_of(tr[i - 1], sr[i - 1], types));
                }
            }
        }
    }
}

/// A failing statement makes the list fail with its message.
pub proof fn lemma_missing_in_stmts(m: Seq<char>, ss: Seq<Stmt>, i: int)
    requires
        0 <= i < ss.len(),
        missing_in_stmt(m, ss[i]),
    ensures
        missing_in_stmts(m, ss),
    decreases i,
{
    if i > 0 {
        let rest = ss.subrange(1, ss.len() as int);
        assert(rest[i - 1] == ss[i]);
        lemma_missing_in_stmts(m, rest, i - 1);
    }
}

/// The typed form of an optional expression.
fn from_opt_expr(e: &Option<Expr>, types: &HashMap<usize, ResolvedType>) -> (r: Result<Option<TypedExpr>, String>)
    ensures
        match r {
            Ok(t) => typed_opt_expr_of(t, *e, types@),
            Err(m) => missing_in_opt_expr(m@, *e),
        },
{
    match e {
        Some(x) => match TypedExpr::from_expr(x, types) {
            Ok(t) => Ok(Some(t)),
            Err(m) => Err(m),
        },
        None => Ok(None),
    }
}

/// The typed bindings of a declaration of type `ann`.
fn from_bindings(bindings: &Vec<VarBinding>, ann: &Type, types: &HashMap<usize, ResolvedType>) -> (r: Result<
    Vec<TypedVarBinding>,
    String,
>)
    ensures
        match r {
            Ok(tb) => typed_bindings_of(tb@, bindings@, *ann, types@),
            Err(m) => missing_in_bindings(m@, bindings@),
        },
{
    let mut out: Vec<TypedVarBinding> = Vec::new();
    let mut i: usize = 0;
    while i < bindings.len()
        invariant
            i <= bindings@.len(),
            out@.len() == i,
            forall|j: int|
                0 <= j < i ==> {
                    &&& (#[trigger] out@[j]).name@ == bindings@[j].name@
                    &&& out@[j].declared_type@ == ann@
                    &&& typed_opt_expr_of(out@[j].initializer, bindings@[j].initializer, types@)
                },
        decreases bindings.len() - i,
    {
        let b = &bindings[i];
        let initializer = match from_opt_expr(&b.initializer, types) {
            Ok(t) => t,
            Err(m) => {
                assert(missing_in_opt_expr(m@, bindings@[i as int].initializer));
                return Err(m);
            },
        };
        out.push(TypedVarBinding { name: b.name.clone(), initializer, declared_type: ann.clone() });
        i = i + 1;
    }
    Ok(out)
}

impl TypedStmt {
    /// The typed form of `stmt`; an error naming the first expression node,
    /// in a walk of the statement, for which no type was recorded.
    fn from_stmt(stmt: &Stmt, types: &HashMap<usize, ResolvedType>) -> (r: Result<Self, String>)
        ensures
            match r {
                Ok(t) => typed_stmt_of(t, *stmt, types@),
                Err(m) => missing_in_stmt(m@, *stmt),
            },
        decreases stmt,
    {
        match stmt {
            Stmt::Expression { expr } => match TypedExpr::from_expr(expr, types) {
                Ok(t) => Ok(Self::Expression { expr: t }),
                Err(m) => Err(m),
            },
            Stmt::VarDeclaration { bindings, type_annotation, is_mutable, span } => {
                match from_bindings(bindings, type_annotation, types) {
                    Ok(tb) => Ok(
                        Self::VarDeclaration {
                            bindings: tb,
                            type_annotation: type_annotation.clone(),
                            is_mutable: *is_mutable,
                            span: span.clone(),
                        },
                    ),
                    Err(m) => Err(m),
                }
            },
            Stmt::Function { name, parameters, return_type, body, span } => {
                match Self::from_stmt(body, types) {
                    Ok(tb) => Ok(
                        Self::Function {
                            name: name.clone(),
                            parameters: clone_params(parameters),
                            return_type: return_type.clone(),
                            body: Box::new(tb),
                            span: span.clone(),
                        },
                    ),
                    Err(m) => Err(m),
                }
            },
            Stmt::If { condition, then_branch, else_branch, span } => {
                let c = match TypedExpr::from_expr(condition, types) {
                    Ok(t) => t,
                    Err(m) => return Err(m),
                };
                let t = match Self::from_stmt(then_branch, types) {
                    Ok(t) => t,
                    Err(m) => return Err(m),
                };
                let e = match TypedElseBranch::from_else(else_branch, types) {
                    Ok(t) => t,
                    Err(m) => return Err(m),
                };
                Ok(Self::If { condition: c, then_branch: Box::new(t), else_branch: e, span: span.clone() })
            },
            Stmt::While { condition, body, span } => {
                let c = match TypedExpr::from_expr(condition, types) {
                    Ok(t) => t,
                    Err(m) => return Err(m),
                };
                let b = match Self::from_stmt(body, types) {
                    Ok(t) => t,
                    Err(m) => return Err(m),
                };
                Ok(Self::While { condition: c, body: Box::new(b), span: span.clone() })
            },
            Stmt::For { initializer, condition, increment, body, span } => {
                let init = match initializer {
                    Some(s) => match Self::from_stmt(s, types) {
                        Ok(t) => Some(Box::new(t)),
                        Err(m) => return Err(m),
                    },
                    None => None,
                };
                let c = match from_opt_expr(condition, types) {
                    Ok(t) => t,
                    Err(m) => return Err(m),
                };
                let inc = match from_opt_expr(increment, types) {
                    Ok(t) => t,
                    Err(m) => return Err(m),
                };
                let b = match Self::from_stmt(body, types) {
                    Ok(t) => t,
                    Err(m) => return Err(m),
                };
                Ok(
                    Self::For {
                        initializer: init,
                        condition: c,
                        increment: inc,
                        body: Box::new(b),
                        span: span.clone(),
                    },
                )
            },
            Stmt::Block { statements, span } => match Self::from_stmts(statements, types) {
                Ok(ts) => Ok(Self::Block { statements: ts, span: span.clone() }),
                Err(m) => Err(m),
            },
            Stmt::Return { value, span } => match from_opt_expr(value, types) {
                Ok(t) => Ok(Self::Return { value: t, span: span.clone() }),
                Err(m) => Err(m),
            },
            Stmt::Break { span } => Ok(Self::Break { span: span.clone() }),
            Stmt::Continue { span } => Ok(Self::Continue { span: span.clone() }),
            Stmt::MainFunction { body, span } => match Self::from_stmt(body, types) {
                Ok(t) => Ok(Self::MainFunction { body: Box::new(t), span: span.clone() }),
                Err(m) => Err(m),
            },
        }
    }

    /// The typed forms of `statements`, in order; the error of the first that fails.
    fn from_stmts(statements: &Vec<Stmt>, types: &HashMap<usize, ResolvedType>) -> (r: Result<Vec<Self>, String>)
        ensures
            match r {
                Ok(ts) => typed_stmts_of(ts@, statements@, types@),
                Err(m) => missing_in_stmts(m@, statements@),
            },
        decreases statements,
    {
        let mut out: Vec<Self> = Vec::new();
        let mut i: usize = 0;
        while i < statements.len()
            invariant
                i <= statements@.len(),
                out@.len() == i,
                forall|j: int| 0 <= j < i ==> #[trigger] typed_stmt_of(out@[j], statements@[j], types@),
            decreases statements.len() - i,
        {
            match Self::from_stmt(&statements[i], types) {
                Ok(t) => out.push(t),
                Err(m) => {
                    proof {
                        lemma_missing_in_stmts(m@, statements@, i as int);
                    }
                    return Err(m);
                },
            }
            i = i + 1;
        }
        proof {
            lemma_typed_stmts(out@, statements@, types@);
        }
        Ok(out)
    }
}

impl TypedElseBranch {
    /// The typed form of an `else` branch.
    fn from_else(branch: &ElseBranch, types: &HashMap<usize, ResolvedType>) -> (r: Result<Self, String>)
        ensures
            match r {
                Ok(t) => typed_else_of(t, *branch, types@),
                Err(m) => missing_in_else(m@, *branch),
            },
        decreases branch,
    {
        match branch {
            ElseBranch::Absent => Ok(Self::Absent),
            ElseBranch::Block(s) => match TypedStmt::from_stmt(s, types) {
                Ok(t) => Ok(Self::Block(Box::new(t))),
                Err(m) => Err(m),
            },
            ElseBranch::ElseIf(s) => match TypedStmt::from_stmt(s, types) {
                Ok(t) => Ok(Self::ElseIf(Box::new(t))),
                Err(m) => Err(m),
            },
        }
    }
}

impl FullyTypedAst {
    /// The fully typed program: every statement typed from the recorded
    /// `types`; an error naming an expression node for which no type was
    /// recorded.
    pub fn from_statements(statements: &[Stmt], types: &HashMap<usize, ResolvedType>) -> (r: Result<Self, String>)
        ensures
            match r {
                Ok(ast) => typed_stmts_of(ast.statements@, statements@, types@),
                Err(m) => missing_in_stmts(m@, statements@),
            },
    {
        let mut out: Vec<TypedStmt> = Vec::new();
        let mut i: usize = 0;
        while i < statements.len()
            invariant
                i <= statements@.len(),
                out@.len() == i,
                forall|j: int| 0 <= j < i ==> #[trigger] typed_stmt_of(out@[j], statements@[j], types@),
            decreases statements.len() - i,
        {
            match TypedStmt::from_stmt(&statements[i], types) {
                Ok(t) => out.push(t),
                Err(m) => {
                    proof {
                        lemma_missing_in_stmts(m@, statements@, i as int);
                    }
                    return Err(m);
                },
            }
            i = i + 1;
        }
        proof {
            lemma_typed_stmts(out@, statements@, types@);
        }
        Ok(Self { statements: out })
    }
}

} // verus!
