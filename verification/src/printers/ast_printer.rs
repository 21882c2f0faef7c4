//! Pieces of the syntax-tree printer: the printed forms of literals, types
//! and array sizes, operator names, and the node counts that size the
//! printer's output.
use vstd::prelude::*;
use crate::semantic::checker_state::{expr_size, exprs_size};
use crate::syntax::ast::literal_value::LiteralView;
use crate::syntax::ast::type_text::{type_text, type_to_text};
use crate::syntax::ast::{BinaryOp, ElseBranch, Expr, LiteralValue, Stmt, Type, UnaryOp, VarBinding};
use crate::printers::tree::{expr_lines, expr_outline, render_outline, rendered, stmt_lines, stmt_outline, BranchType};
use crate::text::{cat2, cat3};
use crate::tokens::number::number_text;

verus! {

/// The printed form of a literal: numbers as written, strings in double
/// quotes, characters in single quotes, `true`, `false` and `nullptr`.
pub open spec fn literal_print_text(v: LiteralView) -> Seq<char> {
    match v {
        LiteralView::Numeric(n) => number_text(n),
        LiteralView::StringLit(s) => "\""@ + s + "\""@,
        LiteralView::CharLit(s) => "'"@ + s + "'"@,
        LiteralView::Bool(b) => if b {
            "true"@
        } else {
            "false"@
        },
        LiteralView::NullPtr => "nullptr"@,
    }
}

/// The name of a binary operator in capitals.
pub open spec fn binary_op_caps(op: BinaryOp) -> Seq<char> {
    match op {
        BinaryOp::Add => "ADD"@,
        BinaryOp::AddEqual => "ADDEQUAL"@,
        BinaryOp::Subtract => "SUBTRACT"@,
        BinaryOp::SubtractEqual => "SUBTRACTEQUAL"@,
        BinaryOp::Multiply => "MULTIPLY"@,
        BinaryOp::MultiplyEqual => "MULTIPLYEQUAL"@,
        BinaryOp::Divide => "DIVIDE"@,
        BinaryOp::DivideEqual => "DIVIDEEQUAL"@,
        BinaryOp::Modulo => "MODULO"@,
        BinaryOp::ModuloEqual => "MODULOEQUAL"@,
        BinaryOp::Equal => "EQUAL"@,
        BinaryOp::NotEqual => "NOTEQUAL"@,
        BinaryOp::Less => "LESS"@,
        BinaryOp::LessEqual => "LESSEQUAL"@,
        BinaryOp::Greater => "GREATER"@,
        BinaryOp::GreaterEqual => "GREATEREQUAL"@,
        BinaryOp::And => "AND"@,
        BinaryOp::Or => "OR"@,
        BinaryOp::BitwiseAnd => "BITWISEAND"@,
        BinaryOp::BitwiseAndEqual => "BITWISEANDEQUAL"@,
        BinaryOp::BitwiseOr => "BITWISEOR"@,
        BinaryOp::BitwiseOrEqual => "BITWISEOREQUAL"@,
        BinaryOp::BitwiseXor => "BITWISEXOR"@,
        BinaryOp::BitwiseXorEqual => "BITWISEXOREQUAL"@,
        BinaryOp::ShiftLeft => "SHIFTLEFT"@,
        BinaryOp::ShiftLeftEqual => "SHIFTLEFTEQUAL"@,
        BinaryOp::ShiftRight => "SHIFTRIGHT"@,
        BinaryOp::ShiftRightEqual => "SHIFTRIGHTEQUAL"@,
    }
}

/// The name of a unary operator in capitals.
pub open spec fn unary_op_caps(op: UnaryOp) -> Seq<char> {
    match op {
        UnaryOp::Negate => "NEGATE"@,
        UnaryOp::Not => "NOT"@,
        UnaryOp::BitwiseNot => "BITWISENOT"@,
        UnaryOp::Increment => "INCREMENT"@,
        UnaryOp::Decrement => "DECREMENT"@,
    }
}

/// The printed form of an expression standing for an array size: the
/// expression written back in source form, operators by their names.
pub open spec fn size_print_text(e: Expr) -> Seq<char>
    decreases e, 0int,
{
    match e {
        Expr::Literal { value, .. } => literal_print_text(value@),
        Expr::Variable { name, .. } => name@,
        Expr::Grouping { expr, .. } => "("@ + size_print_text(*expr) + ")"@,
        Expr::Binary { left, op, right, .. } => size_print_text(*left) + " "@ + binary_op_caps(op) + " "@
            + size_print_text(*right),
        Expr::Unary { op, expr, .. } => unary_op_caps(op) + size_print_text(*expr),
        Expr::Assign { target, value, .. } => size_print_text(*target) + " = "@ + size_print_text(*value),
        Expr::Call { callee, arguments, .. } => size_print_text(*callee) + "("@ + sizes_print_text(arguments@)
            + ")"@,
        Expr::ArrayAccess { array, index, .. } => size_print_text(*array) + "["@ + size_print_text(*index) + "]"@,
        Expr::ArrayLiteral { elements, .. } => "{"@ + sizes_print_text(elements@) + "}"@,
    }
}

/// The printed forms of a list of expressions, separated by `, `.
pub open spec fn sizes_print_text(es: Seq<Expr>) -> Seq<char>
    decreases es, 0int,
{
    if es.len() == 0 {
        Seq::empty()
    } else if es.len() == 1 {
        size_print_text(es[0])
    } else {
        sizes_print_text(es.drop_last()) + ", "@ + size_print_text(es.last())
    }
}

/// The printed form of a type in a tree: primitive types by their names,
/// arrays as `[element; size]`, vectors as `vector<element>`, and function
/// types in their display form.
pub open spec fn type_print_text(t: Type) -> Seq<char>
    decreases t, 0int,
{
    match t {
        Type::Array { element_type, size } => "["@ + type_print_text(*element_type) + "; "@ + size_print_text(*size)
            + "]"@,
        Type::Vector { element_type } => "vector<"@ + type_print_text(*element_type) + ">"@,
        Type::Custom { name } => name@,
        _ => type_text(t@),
    }
}

/// The printed form of a literal.
pub fn format_literal(value: &LiteralValue) -> (r: String)
    ensures
        r@ == literal_print_text(value@),
{
    match value {
        LiteralValue::Numeric(n) => n.to_text(),
        LiteralValue::StringLit(s) => cat3("\"", s.as_str(), "\""),
        LiteralValue::CharLit(s) => cat3("'", s.as_str(), "'"),
        LiteralValue::Bool(b) => {
            if *b {
                String::from_str("true")
            } else {
                String::from_str("false")
            }
        },
        LiteralValue::NullPtr => String::from_str("nullptr"),
    }
}

/// The name of a binary operator in capitals.
pub fn format_binary_op(op: BinaryOp) -> (r: &'static str)
    ensures
        r@ == binary_op_caps(op),
{
    match op {
        BinaryOp::Add => "ADD",
        BinaryOp::AddEqual => "ADDEQUAL",
        BinaryOp::Subtract => "SUBTRACT",
        BinaryOp::SubtractEqual => "SUBTRACTEQUAL",
        BinaryOp::Multiply => "MULTIPLY",
        BinaryOp::MultiplyEqual => "MULTIPLYEQUAL",
        BinaryOp::Divide => "DIVIDE",
        BinaryOp::DivideEqual => "DIVIDEEQUAL",
        BinaryOp::Modulo => "MODULO",
        BinaryOp::ModuloEqual => "MODULOEQUAL",
        BinaryOp::Equal => "EQUAL",
        BinaryOp::NotEqual => "NOTEQUAL",
        BinaryOp::Less => "LESS",
        BinaryOp::LessEqual => "LESSEQUAL",
        BinaryOp::Greater => "GREATER",
        BinaryOp::GreaterEqual => "GREATEREQUAL",
        BinaryOp::And => "AND",
        BinaryOp::Or => "OR",
        BinaryOp::BitwiseAnd => "BITWISEAND",
        BinaryOp::BitwiseAndEqual => "BITWISEANDEQUAL",
        BinaryOp::BitwiseOr => "BITWISEOR",
        BinaryOp::BitwiseOrEqual => "BITWISEOREQUAL",
        BinaryOp::BitwiseXor => "BITWISEXOR",
        BinaryOp::BitwiseXorEqual => "BITWISEXOREQUAL",
        BinaryOp::ShiftLeft => "SHIFTLEFT",
        BinaryOp::ShiftLeftEqual => "SHIFTLEFTEQUAL",
        BinaryOp::ShiftRight => "SHIFTRIGHT",
        BinaryOp::ShiftRightEqual => "SHIFTRIGHTEQUAL",
    }
}

/// The name of a unary operator in capitals.
pub fn format_unary_op(op: UnaryOp) -> (r: &'static str)
    ensures
        r@ == unary_op_caps(op),
{
    match op {
        UnaryOp::Negate => "NEGATE",
        UnaryOp::Not => "NOT",
        UnaryOp::BitwiseNot => "BITWISENOT",
        UnaryOp::Increment => "INCREMENT",
        UnaryOp::Decrement => "DECREMENT",
    }
}

/// The printed form of an expression standing for an array size.
pub fn format_type_size(expr: &Expr) -> (r: String)
    ensures
        r@ == size_print_text(*expr),
    decreases expr,
{
    match expr {
        Expr::Literal { value, .. } => format_literal(value),
        Expr::Variable { name, .. } => name.clone(),
        Expr::Grouping { expr: inner, .. } => {
            let t = format_type_size(inner);
            cat3("(", t.as_str(), ")")
        },
        Expr::Binary { left, op, right, .. } => {
            let l = format_type_size(left);
            let r = format_type_size(right);
            let mut out = cat3(l.as_str(), " ", format_binary_op(*op));
            out.append(" ");
            out.append(r.as_str());
            out
        },
        Expr::Unary { op, expr: inner, .. } => {
            let t = format_type_size(inner);
            cat2(format_unary_op(*op), t.as_str())
        },
        Expr::Assign { target, value, .. } => {
            let t = format_type_size(target);
            let v = format_type_size(value);
            cat3(t.as_str(), " = ", v.as_str())
        },
        Expr::Call { callee, arguments, .. } => {
            let c = format_type_size(callee);
            let args = format_size_list(arguments);
            let mut out = cat3(c.as_str(), "(", args.as_str());
            out.append(")");
            out
        },
        Expr::ArrayAccess { array, index, .. } => {
            let a = format_type_size(array);
            let i = format_type_size(index);
            let mut out = cat3(a.as_str(), "[", i.as_str());
            out.append("]");
            out
        },
        Expr::ArrayLiteral { elements, .. } => {
            let es = format_size_list(elements);
            cat3("{", es.as_str(), "}")
        },
    }
}

/// The printed forms of a list of expressions, separated by `, `.
fn format_size_list(es: &Vec<Expr>) -> (r: String)
    ensures
        r@ == sizes_print_text(es@),
    decreases es,
{
    let mut out = String::new();
    let mut i: usize = 0;
    while i < es.len()
        invariant
            i <= es@.len(),
            out@ == sizes_print_text(es@.subrange(0, i as int)),
        decreases es.len() - i,
    {
        let t = format_type_size(&es[i]);
        if i > 0 {
            out.append(", ");
        }
        out.append(t.as_str());
        proof {
            let next = es@.subrange(0, i + 1);
            assert(next.drop_last() =~= es@.subrange(0, i as int));
            assert(next.last() == es@[i as int]);
            if i == 0 {
                assert(out@ =~= sizes_print_text(next));
            } else {
                assert(out@ =~= sizes_print_text(next));
            }
        }
        i = i + 1;
    }
    assert(es@.subrange(0, es@.len() as int) =~= es@);
    out
}

/// The printed form of a type in a tree.
pub fn format_type(type_annotation: &Type) -> (r: String)
    ensures
        r@ == type_print_text(*type_annotation),
    decreases type_annotation,
{
    match type_annotation {
        Type::Array { element_type, size } => {
            let e = format_type(element_type);
            let s = format_type_size(size);
            let mut out = cat3("[", e.as_str(), "; ");
            out.append(s.as_str());
            out.append("]");
            out
        },
        Type::Vector { element_type } => {
            let e = format_type(element_type);
            cat3("vector<", e.as_str(), ">")
        },
        Type::Custom { name } => name.clone(),
        _ => type_to_text(type_annotation),
    }
}

/// The number of nodes of a list of expressions, counted from the end.
pub open spec fn stack_size(s: Seq<&Expr>) -> nat
    decreases s.len(),
{
    if s.len() == 0 {
        0
    } else {
        stack_size(s.drop_last()) + expr_size(*s.last())
    }
}

/// Pushing an expression adds its nodes to the stack's count.
proof fn lemma_stack_push<'a>(s: Seq<&'a Expr>, e: &'a Expr)
    ensures
        stack_size(s.push(e)) == stack_size(s) + expr_size(*e),
{
    assert(s.push(e).drop_last() =~= s);
}

/// Counting a list of expressions from either end gives the same number.
proof fn lemma_exprs_size_push(s: Seq<Expr>, e: Expr)
    ensures
        exprs_size(s.push(e)) == exprs_size(s) + expr_size(e),
    decreases s.len(),
{
    let t = s.push(e);
    if s.len() > 0 {
        let rest = s.subrange(1, s.len() as int);
        lemma_exprs_size_push(rest, e);
        assert(t.subrange(1, t.len() as int) =~= rest.push(e));
        assert(t[0] == s[0]);
        assert(exprs_size(t) == expr_size(t[0]) + exprs_size(t.subrange(1, t.len() as int)));
        assert(exprs_size(s) == expr_size(s[0]) + exprs_size(rest));
    } else {
        assert(t.subrange(1, t.len() as int) =~= Seq::<Expr>::empty());
        assert(t[0] == e);
        assert(exprs_size(t) == expr_size(t[0]) + exprs_size(t.subrange(1, t.len() as int)));
        assert(exprs_size(Seq::<Expr>::empty()) == 0);
    }
}

/// Pushes the children `es` of a node onto the work stack.
fn push_all<'a>(stack: &mut Vec<&'a Expr>, es: &'a Vec<Expr>)
    ensures
        stack_size(final(stack)@) == stack_size(old(stack)@) + exprs_size(es@),
{
    let mut i: usize = 0;
    while i < es.len()
        invariant
            i <= es@.len(),
            stack_size(stack@) == stack_size(old(stack)@) + exprs_size(es@.subrange(0, i as int)),
        decreases es.len() - i,
    {
        let ghost before = stack@;
        stack.push(&es[i]);
        proof {
            lemma_stack_push(before, &es[i as int]);
            lemma_exprs_size_push(es@.subrange(0, i as int), es@[i as int]);
            assert(es@.subrange(0, i as int).push(es@[i as int]) =~= es@.subrange(0, i + 1));
        }
        i = i + 1;
    }
    assert(es@.subrange(0, es@.len() as int) =~= es@);
}

/// The number of nodes of an expression, counted with a work stack.
pub fn count_expr_nodes(expr: &Expr) -> (r: usize)
    requires
        expr_size(*expr) <= usize::MAX,
    ensures
        r == expr_size(*expr),
{
    let mut count: usize = 0;
    let mut stack: Vec<&Expr> = Vec::new();
    stack.push(expr);
    proof {
        assert(stack@.drop_last() =~= Seq::<&Expr>::empty());
        assert(stack_size(Seq::<&Expr>::empty()) == 0);
        assert(stack_size(stack@) == expr_size(*expr));
    }
    while stack.len() > 0
        invariant
            count + stack_size(stack@) == expr_size(*expr),
            expr_size(*expr) <= usize::MAX,
        decreases stack_size(stack@),
    {
        let ghost before = stack@;
        let current = stack.pop().unwrap();
        proof {
            assert(stack@ =~= before.drop_last());
            assert(current == before.last());
            assert(stack_size(before) == stack_size(stack@) + expr_size(*current));
            assert(expr_size(*current) >= 1);
        }
        let ghost popped = stack@;
        count = count + 1;
        match current {
            Expr::Binary { left, right, .. } => {
                let ghost s0 = stack@;
                stack.push(left);
                proof {
                    lemma_stack_push(s0, left);
                }
                let ghost s1 = stack@;
                stack.push(right);
                proof {
                    lemma_stack_push(s1, right);
                }
            },
            Expr::Unary { expr: inner, .. } => {
                let ghost s0 = stack@;
                stack.push(inner);
                proof {
                    lemma_stack_push(s0, inner);
                }
            },
            Expr::Grouping { expr: inner, .. } => {
                let ghost s0 = stack@;
                stack.push(inner);
                proof {
                    lemma_stack_push(s0, inner);
                }
            },
            Expr::Assign { target, value, .. } => {
                let ghost s0 = stack@;
                stack.push(target);
                proof {
                    lemma_stack_push(s0, target);
                }
                let ghost s1 = stack@;
                stack.push(value);
                proof {
                    lemma_stack_push(s1, value);
                }
            },
            Expr::Call { callee, arguments, .. } => {
                let ghost s0 = stack@;
                stack.push(callee);
                proof {
                    lemma_stack_push(s0, callee);
                }
                push_all(&mut stack, arguments);
            },
            Expr::ArrayAccess { array, index, .. } => {
                let ghost s0 = stack@;
                stack.push(array);
                proof {
                    lemma_stack_push(s0, array);
                }
                let ghost s1 = stack@;
                stack.push(index);
                proof {
                    lemma_stack_push(s1, index);
                }
            },
            Expr::ArrayLiteral { elements, .. } => {
                push_all(&mut stack, elements);
            },
            Expr::Literal { .. } => {},
            Expr::Variable { .. } => {},
        }
        assert(stack_size(stack@) + 1 == stack_size(popped) + expr_size(*current));
    }
    count
}

/// The number of nodes of an optional expression.
pub open spec fn opt_expr_size(e: Option<Expr>) -> nat {
    match e {
        Some(x) => expr_size(x),
        None => 0,
    }
}

/// The number of expression nodes in the initializers of `bs`.
pub open spec fn initializer_nodes(bs: Seq<VarBinding>) -> nat
    decreases bs.len(),
{
    if bs.len() == 0 {
        0
    } else {
        initializer_nodes(bs.drop_last()) + opt_expr_size(bs.last().initializer)
    }
}

/// The number of nodes a statement contributes to a printed tree: one for
/// the statement, one for each variable of a declaration and each parameter
/// of a function, and the nodes of every expression and statement inside.
pub open spec fn stmt_nodes(s: Stmt) -> nat
    decreases s, 0int,
{
    1 + match s {
        Stmt::Expression { expr } => expr_size(*expr),
        Stmt::VarDeclaration { bindings, .. } => bindings@.len() + initializer_nodes(bindings@),
        Stmt::Function { parameters, body, .. } => parameters@.len() + stmt_nodes(*body),
        Stmt::If { condition, then_branch, else_branch, .. } => expr_size(*condition) + stmt_nodes(*then_branch)
            + else_nodes(else_branch),
        Stmt::MainFunction { body, .. } => stmt_nodes(*body),
        Stmt::Block { statements, .. } => stmt_list_nodes(statements@),
        Stmt::Return { value, .. } => opt_expr_size(value),
        Stmt::While { condition, body, .. } => expr_size(*condition) + stmt_nodes(*body),
        Stmt::For { initializer, condition, increment, body, .. } => (match initializer {
            Some(init) => stmt_nodes(*init),
            None => 0,
        }) + opt_expr_size(condition) + opt_expr_size(increment) + stmt_nodes(*body),
        Stmt::Break { .. } => 0,
        Stmt::Continue { .. } => 0,
    }
}

/// The nodes of an `else` branch.
pub open spec fn else_nodes(b: ElseBranch) -> nat
    decreases b, 0int,
{
    match b {
        ElseBranch::Absent => 0,
        ElseBranch::Block(s) => stmt_nodes(*s),
        ElseBranch::ElseIf(s) => stmt_nodes(*s),
    }
}

/// The nodes of a list of statements.
pub open spec fn stmt_list_nodes(ss: Seq<Stmt>) -> nat
    decreases ss, 0int,
{
    if ss.len() == 0 {
        0
    } else {
        stmt_list_nodes(ss.drop_last()) + stmt_nodes(ss.last())
    }
}

/// A prefix of a list of statements has no more nodes than a longer prefix.
proof fn lemma_stmt_list_prefix(ss: Seq<Stmt>, i: int, j: int)
    requires
        0 <= i <= j <= ss.len(),
    ensures
        stmt_list_nodes(ss.subrange(0, i)) <= stmt_list_nodes(ss.subrange(0, j)),
    decreases j - i,
{
    if i < j {
        assert(ss.subrange(0, j).drop_last() =~= ss.subrange(0, j - 1));
        lemma_stmt_list_prefix(ss, i, j - 1);
    }
}

/// A prefix of a list of bindings has no more initializer nodes than a longer prefix.
proof fn lemma_initializer_prefix(bs: Seq<VarBinding>, i: int, j: int)
    requires
        0 <= i <= j <= bs.len(),
    ensures
        initializer_nodes(bs.subrange(0, i)) <= initializer_nodes(bs.subrange(0, j)),
    decreases j - i,
{
    if i < j {
        assert(bs.subrange(0, j).drop_last() =~= bs.subrange(0, j - 1));
        lemma_initializer_prefix(bs, i, j - 1);
    }
}

/// The number of expression nodes in the initializers of `bindings`.
fn count_initializer_nodes(bindings: &Vec<VarBinding>) -> (r: usize)
    requires
        initializer_nodes(bindings@) <= usize::MAX,
    ensures
        r == initializer_nodes(bindings@),
{
    let mut total: usize = 0;
    let mut i: usize = 0;
    assert(bindings@.subrange(0, bindings@.len() as int) =~= bindings@);
    while i < bindings.len()
        invariant
            i <= bindings@.len(),
            total == initializer_nodes(bindings@.subrange(0, i as int)),
            initializer_nodes(bindings@) <= usize::MAX,
            bindings@.subrange(0, bindings@.len() as int) == bindings@,
        decreases bindings.len() - i,
    {
        proof {
            assert(bindings@.subrange(0, i + 1).drop_last() =~= bindings@.subrange(0, i as int));
            lemma_initializer_prefix(bindings@, i + 1, bindings@.len() as int);
        }
        let n = match &bindings[i].initializer {
            Some(e) => count_expr_nodes(e),
            None => 0,
        };
        total = total + n;
        i = i + 1;
    }
    total
}

/// The number of nodes a statement contributes to a printed tree.
pub fn count_stmt_nodes(stmt: &Stmt) -> (r: usize)
    requires
        stmt_nodes(*stmt) <= usize::MAX,
    ensures
        r == stmt_nodes(*stmt),
    decreases stmt,
{
    let inner: usize = match stmt {
        Stmt::Expression { expr } => count_expr_nodes(expr),
        Stmt::VarDeclaration { bindings, .. } => bindings.len() + count_initializer_nodes(bindings),
        Stmt::Function { parameters, body, .. } => parameters.len() + count_stmt_nodes(body),
        Stmt::If { condition, then_branch, else_branch, .. } => {
            let e = match else_branch {
                ElseBranch::Absent => 0,
                ElseBranch::Block(b) => {
                    assert(else_nodes(*else_branch) == stmt_nodes(**b));
                    count_stmt_nodes(b)
                },
                ElseBranch::ElseIf(b) => {
                    assert(else_nodes(*else_branch) == stmt_nodes(**b));
                    count_stmt_nodes(b)
                },
            };
            assert(e == else_nodes(*else_branch));
            count_expr_nodes(condition) + count_stmt_nodes(then_branch) + e
        },
        Stmt::MainFunction { body, .. } => count_stmt_nodes(body),
        Stmt::Block { statements, .. } => count_stmt_list(statements),
        Stmt::Return { value, .. } => match value {
            Some(e) => count_expr_nodes(e),
            None => 0,
        },
        Stmt::While { condition, body, .. } => count_expr_nodes(condition) + count_stmt_nodes(body),
        Stmt::For { initializer, condition, increment, body, .. } => {
            let i = match initializer {
                Some(s) => count_stmt_nodes(s),
                None => 0,
            };
            assert(i == (match *initializer {
                Some(init) => stmt_nodes(*init),
                None => 0,
            }));
            let c = match condition {
                Some(e) => count_expr_nodes(e),
                None => 0,
            };
            let n = match increment {
                Some(e) => count_expr_nodes(e),
                None => 0,
            };
            i + c + n + count_stmt_nodes(body)
        },
        Stmt::Break { .. } => 0,
        Stmt::Continue { .. } => 0,
    };
    1 + inner
}

/// The nodes of a list of statements.
fn count_stmt_list(statements: &Vec<Stmt>) -> (r: usize)
    requires
        stmt_list_nodes(statements@) <= usize::MAX,
    ensures
        r == stmt_list_nodes(statements@),
    decreases statements,
{
    let mut total: usize = 0;
    let mut i: usize = 0;
    assert(statements@.subrange(0, statements@.len() as int) =~= statements@);
    while i < statements.len()
        invariant
            i <= statements@.len(),
            total == stmt_list_nodes(statements@.subrange(0, i as int)),
            stmt_list_nodes(statements@) <= usize::MAX,
            statements@.subrange(0, statements@.len() as int) == statements@,
        decreases statements.len() - i,
    {
        proof {
            assert(statements@.subrange(0, i + 1).drop_last() =~= statements@.subrange(0, i as int));
            lemma_stmt_list_prefix(statements@, i + 1, statements@.len() as int);
        }
        let n = count_stmt_nodes(&statements[i]);
        total = total + n;
        i = i + 1;
    }
    total
}

/// The outline of an expression drawn line by line, each line ended by a
/// newline and its text painted in the style of what it shows.
pub fn pretty_print(expr: &Expr) -> (r: String)
    ensures
        exists|on: Seq<bool>|
            on.len() == expr_lines(expr@, Seq::empty(), BranchType::Last).len() && r@ == rendered(
                expr_lines(expr@, Seq::empty(), BranchType::Last),
                on,
            ),
{
    let lines = expr_outline(expr);
    render_outline(&lines)
}

/// The outline of a statement drawn line by line, each line ended by a
/// newline and its text painted in the style of what it shows.
pub fn pretty_print_stmt(stmt: &Stmt) -> (r: String)
    ensures
        exists|on: Seq<bool>|
            on.len() == stmt_lines(*stmt, Seq::empty(), BranchType::Last).len() && r@ == rendered(
                stmt_lines(*stmt, Seq::empty(), BranchType::Last),
                on,
            ),
{
    let lines = stmt_outline(stmt);
    render_outline(&lines)
}

} // verus!
