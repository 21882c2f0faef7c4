//! The typing rules of expressions: the type each expression has, and the
//! errors that checking it records, stated as functions of the checker state.
use vstd::prelude::*;
use crate::error::error_code::ErrorCode;
use crate::location::source_span::SpanView;
use crate::semantic::checker_state::{expr_size, exprs_size, lemma_expr_size_positive, CheckerView};
use crate::semantic::symbol_table::SymbolTableView;
use crate::semantic::type_rules::{assignable, compatible, is_integer, is_numeric, literal_type, promote, same_type};
use crate::syntax::ast::binary_op::binary_op_name;
use crate::syntax::ast::literal_value::LiteralView;
use crate::syntax::ast::model::{ExprView, TypeView};
use crate::syntax::ast::parameter::ParameterView;
use crate::syntax::ast::type_text::type_text;
use crate::syntax::ast::{BinaryOp, Expr, UnaryOp};
use crate::text::nat_text;
use crate::tokens::number::NumberView;

verus! {

/// The variable an assignment target stands for: a variable, or the variable
/// under array accesses and parentheses.
pub open spec fn base_name(e: Expr) -> Option<Seq<char>>
    decreases e,
{
    match e {
        Expr::Variable { name, .. } => Some(name@),
        Expr::ArrayAccess { array, .. } => base_name(*array),
        Expr::Grouping { expr, .. } => base_name(*expr),
        _ => None,
    }
}

/// The name of the immutable variable that `e` would modify, if it modifies one.
pub open spec fn immutable_target(t: SymbolTableView, e: Expr) -> Option<Seq<char>> {
    match base_name(e) {
        Some(n) => match t.lookup_variable(n) {
            Some(v) => if v.mutable {
                None
            } else {
                Some(n)
            },
            None => None,
        },
        None => None,
    }
}

/// The message of a write to an immutable variable.
pub open spec fn immutable_message(name: Seq<char>) -> Seq<char> {
    "Cannot assign to immutable variable '"@ + name + "'"@
}

/// Compound assignment operators (`+=` and the like).
pub open spec fn is_compound(op: BinaryOp) -> bool {
    matches!(
        op,
        BinaryOp::AddEqual | BinaryOp::SubtractEqual | BinaryOp::MultiplyEqual | BinaryOp::DivideEqual
            | BinaryOp::ModuloEqual | BinaryOp::BitwiseAndEqual | BinaryOp::BitwiseOrEqual
            | BinaryOp::BitwiseXorEqual | BinaryOp::ShiftLeftEqual | BinaryOp::ShiftRightEqual
    )
}

/// Bitwise and shift operators, plain or compound.
pub open spec fn is_bitwise(op: BinaryOp) -> bool {
    matches!(
        op,
        BinaryOp::BitwiseAnd | BinaryOp::BitwiseAndEqual | BinaryOp::BitwiseOr | BinaryOp::BitwiseOrEqual
            | BinaryOp::BitwiseXor | BinaryOp::BitwiseXorEqual | BinaryOp::ShiftLeft | BinaryOp::ShiftLeftEqual
            | BinaryOp::ShiftRight | BinaryOp::ShiftRightEqual
    )
}

/// Arithmetic operators, plain or compound.
pub open spec fn is_arithmetic(op: BinaryOp) -> bool {
    matches!(
        op,
        BinaryOp::Add | BinaryOp::AddEqual | BinaryOp::Subtract | BinaryOp::SubtractEqual | BinaryOp::Multiply
            | BinaryOp::MultiplyEqual | BinaryOp::Divide | BinaryOp::DivideEqual | BinaryOp::Modulo
            | BinaryOp::ModuloEqual
    )
}

/// Equality and ordering comparisons.
pub open spec fn is_comparison(op: BinaryOp) -> bool {
    matches!(
        op,
        BinaryOp::Equal | BinaryOp::NotEqual | BinaryOp::Less | BinaryOp::LessEqual | BinaryOp::Greater
            | BinaryOp::GreaterEqual
    )
}

/// The logical connectives.
pub open spec fn is_logical(op: BinaryOp) -> bool {
    matches!(op, BinaryOp::And | BinaryOp::Or)
}

/// The error recorded when the operand types of `op` are incompatible.
pub open spec fn mismatch_error(op: BinaryOp, l: TypeView, r: TypeView) -> (ErrorCode, Seq<char>) {
    let found = type_text(l) + " and "@ + type_text(r);
    if is_logical(op) {
        (
            ErrorCode::E2012,
            "Logical operator '"@ + binary_op_name(op) + "' requires boolean operands types, found "@ + found,
        )
    } else if is_arithmetic(op) {
        (ErrorCode::E2013, "Binary operator '"@ + binary_op_name(op) + "' requires numeric operands, found "@ + found)
    } else if is_comparison(op) {
        (
            ErrorCode::E2014,
            "Comparison operator '"@ + binary_op_name(op) + "' requires compatible types, found "@ + found,
        )
    } else {
        (ErrorCode::E2015, "Type mismatch in binary operation: "@ + found)
    }
}

/// The type of a binary operation once its operand types `l` and `r` are
/// settled: incompatible operands are an error; arithmetic keeps the left
/// type (an error when it is not numeric), comparisons give `bool`, logical
/// connectives give `bool` (an error when the left operand is not `bool`),
/// and bitwise operators keep the left type.
pub open spec fn settle_binary(
    s: CheckerView,
    left: Expr,
    op: BinaryOp,
    l: TypeView,
    r: TypeView,
    span: SpanView,
) -> (CheckerView, Option<TypeView>) {
    if !compatible(l, r) {
        let (code, message) = mismatch_error(op, l, r);
        (s.report(code, message, span), None)
    } else if is_arithmetic(op) {
        (
            if !is_numeric(l) {
                s.report(ErrorCode::E2016, "Arithmetic operation not supported for "@ + type_text(l), left.spec_span()@)
            } else {
                s
            },
            Some(l),
        )
    } else if is_comparison(op) {
        (s, Some(TypeView::Bool))
    } else if is_logical(op) {
        (
            if l != TypeView::Bool {
                s.report(ErrorCode::E2017, "Logical operation requires bool, found "@ + type_text(l), left.spec_span()@)
            } else {
                s
            },
            Some(TypeView::Bool),
        )
    } else {
        (s, Some(l))
    }
}

/// Binary operation on operands of types `l` and `r`: bitwise operators need
/// integers, and both they and numeric arithmetic or comparisons promote the
/// operands to their common type.
pub open spec fn operand_types(
    s: CheckerView,
    left: Expr,
    op: BinaryOp,
    l: TypeView,
    r: TypeView,
    span: SpanView,
) -> (CheckerView, Option<TypeView>) {
    if is_bitwise(op) {
        if is_integer(l) && is_integer(r) {
            settle_binary(s, left, op, promote(l, r), promote(l, r), span)
        } else {
            (
                s.report(
                    ErrorCode::E2011,
                    "Bitwise operator '"@ + binary_op_name(op) + "' require integer operand types, found "@
                        + type_text(l) + " and "@ + type_text(r),
                    span,
                ),
                None,
            )
        }
    } else if (is_arithmetic(op) || is_comparison(op)) && is_numeric(l) && is_numeric(r) {
        settle_binary(s, left, op, promote(l, r), promote(l, r), span)
    } else {
        settle_binary(s, left, op, l, r, span)
    }
}

/// Checking an expression: the state afterwards and the type found, if any.
pub open spec fn check_expr(s: CheckerView, e: Expr) -> (CheckerView, Option<TypeView>)
    decreases expr_size(e), 0int,
{
    match e {
        Expr::Binary { left, op, right, span, .. } => check_binary(s, *left, op, *right, span@),
        Expr::Unary { op, expr, .. } => check_unary(s, op, *expr),
        Expr::Grouping { expr, .. } => check_expr(s, *expr),
        Expr::Literal { value, .. } => (s, Some(literal_type(value@))),
        Expr::ArrayLiteral { elements, span, .. } => check_array_literal(s, elements@, span@),
        Expr::Variable { name, span, .. } => check_variable(s, name@, span@),
        Expr::Assign { target, value, .. } => check_assign(s, *target, *value),
        Expr::Call { callee, arguments, span, .. } => check_call(s, *callee, arguments@, span@),
        Expr::ArrayAccess { array, index, span, .. } => check_array_access(s, *array, *index, span@),
    }
}

/// A binary operation: the left operand is checked first; a compound
/// assignment to an immutable variable stops there with `E2024`.
pub open spec fn check_binary(
    s: CheckerView,
    left: Expr,
    op: BinaryOp,
    right: Expr,
    span: SpanView,
) -> (CheckerView, Option<TypeView>)
    decreases expr_size(left) + expr_size(right), 1int,
{
    let (s1, lt) = check_expr(s, left);
    if is_compound(op) && immutable_target(s1.table, left) is Some {
        (s1.report(ErrorCode::E2024, immutable_message(immutable_target(s1.table, left)->0), left.spec_span()@), None)
    } else {
        let (s2, rt) = check_expr(s1, right);
        match (lt, rt) {
            (Some(l), Some(r)) => operand_types(s2, left, op, l, r, span),
            _ => (s2, None),
        }
    }
}

/// A unary operation on `operand`.
pub open spec fn check_unary(s: CheckerView, op: UnaryOp, operand: Expr) -> (CheckerView, Option<TypeView>)
    decreases expr_size(operand), 1int,
{
    let (s1, ot) = check_expr(s, operand);
    let at = operand.spec_span()@;
    match ot {
        None => (s1, None),
        Some(t) => match op {
            UnaryOp::Negate => if is_numeric(t) {
                (s1, Some(t))
            } else {
                (s1.report(ErrorCode::E2018, "Negation requires numeric type operand, found "@ + type_text(t), at), None)
            },
            UnaryOp::Not => if t == TypeView::Bool {
                (s1, Some(TypeView::Bool))
            } else {
                (
                    s1.report(ErrorCode::E2019, "Logical not requires boolean type operand, found "@ + type_text(t), at),
                    None,
                )
            },
            UnaryOp::BitwiseNot => if is_integer(t) {
                (s1, Some(t))
            } else {
                (s1.report(ErrorCode::E2018, "Bitwise not requires integer operand type, found "@ + type_text(t), at), None)
            },
            UnaryOp::Increment | UnaryOp::Decrement => if immutable_target(s1.table, operand) is Some {
                (s1.report(ErrorCode::E2024, immutable_message(immutable_target(s1.table, operand)->0), at), None)
            } else if is_numeric(t) {
                (s1, Some(t))
            } else {
                (
                    s1.report(ErrorCode::E2018, "Increment/decrement requires numeric operand, found "@ + type_text(t), at),
                    None,
                )
            },
        },
    }
}

/// The type of an array literal: an array of the first element type found,
/// sized by the number of elements. An empty literal is error `E2020`.
pub open spec fn check_array_literal(s: CheckerView, elements: Seq<Expr>, span: SpanView) -> (
    CheckerView,
    Option<TypeView>,
)
    decreases exprs_size(elements), 2int,
{
    if elements.len() == 0 {
        (s.report(ErrorCode::E2020, "Array literals must have at least one element for type inference"@, span), None)
    } else {
        let (s1, et) = check_elements(s, elements, None);
        (
            s1,
            match et {
                Some(t) => Some(
                    TypeView::Array {
                        element_type: Box::new(t),
                        size: Box::new(
                            ExprView::Literal {
                                value: LiteralView::Numeric(NumberView::Integer(elements.len() as i64)),
                                span,
                                ty: None,
                            },
                        ),
                    },
                ),
                None => None,
            },
        )
    }
}

/// The elements of an array literal, in order: each one whose type differs
/// from the first type found is error `E2021`.
pub open spec fn check_elements(s: CheckerView, elements: Seq<Expr>, found: Option<TypeView>) -> (
    CheckerView,
    Option<TypeView>,
)
    decreases exprs_size(elements), 1int,
{
    if elements.len() == 0 {
        (s, found)
    } else {
        let first = elements[0];
        let (s1, t) = check_expr(s, first);
        let (s2, found2) = match t {
            Some(ty) => match found {
                Some(prev) => if same_type(prev, ty) {
                    (s1, found)
                } else {
                    (
                        s1.report(
                            ErrorCode::E2021,
                            "All array elements must be same type, found mixed types: "@ + type_text(prev) + " and "@
                                + type_text(ty),
                            first.spec_span()@,
                        ),
                        found,
                    )
                },
                None => (s1, Some(ty)),
            },
            None => (s1, found),
        };
        proof {
            lemma_expr_size_positive(first);
        }
        check_elements(s2, elements.subrange(1, elements.len() as int), found2)
    }
}

/// A variable read: its declared type; a function name is error `E2022`, an
/// unknown name `E2023`.
pub open spec fn check_variable(s: CheckerView, name: Seq<char>, span: SpanView) -> (CheckerView, Option<TypeView>) {
    match s.table.lookup_variable(name) {
        Some(v) => (s, Some(v.ty)),
        None => if s.table.lookup_function(name) is Some {
            (s.report(ErrorCode::E2022, "'"@ + name + "' is a function and cannot be used as variable"@, span), None)
        } else {
            (s.report(ErrorCode::E2023, "Undefined variable '"@ + name + "'"@, span), None)
        },
    }
}

/// An assignment: the target must be a mutable variable or an element of a
/// mutable array, and the value must be assignable to it; the type is the
/// target's.
pub open spec fn check_assign(s: CheckerView, target: Expr, value: Expr) -> (CheckerView, Option<TypeView>)
    decreases expr_size(target) + expr_size(value), 1int,
{
    let (s1, tt) = match target {
        Expr::Variable { name, span, .. } => match s.table.lookup_variable(name@) {
            Some(v) => if v.mutable {
                (s, Some(v.ty))
            } else {
                (s.report(ErrorCode::E2024, immutable_message(name@), span@), None)
            },
            None => (s.report(ErrorCode::E2025, "Undefined variable '"@ + name@ + "'"@, span@), None),
        },
        Expr::ArrayAccess { array, index, span, .. } => {
            let (sa, writable) = match immutable_target(s.table, *array) {
                Some(n) => (s.report(ErrorCode::E2024, immutable_message(n), span@), false),
                None => (s, true),
            };
            let (sb, at) = check_array_access(sa, *array, *index, span@);
            (
                sb,
                if writable {
                    at
                } else {
                    None
                },
            )
        },
        _ => (s, None),
    };
    let (s2, vt) = check_expr(s1, value);
    match (tt, vt) {
        (Some(t), Some(v)) => (
            if !assignable(v, t) {
                s2.report(
                    ErrorCode::E2002,
                    if target is ArrayAccess {
                        "Cannot assign "@ + type_text(v) + " to array element of type "@ + type_text(t)
                    } else {
                        "Cannot assign "@ + type_text(v) + " to "@ + type_text(t)
                    },
                    value.spec_span()@,
                )
            } else {
                s2
            },
            Some(t),
        ),
        _ => (s2, None),
    }
}

/// A call: the callee must name a declared function; the number of
/// arguments must match (`E2028`) and each argument must be assignable to
/// its parameter (`E2029`). The type is the function's return type.
pub open spec fn check_call(s: CheckerView, callee: Expr, arguments: Seq<Expr>, span: SpanView) -> (
    CheckerView,
    Option<TypeView>,
)
    decreases expr_size(callee) + exprs_size(arguments), 2int,
{
    match callee {
        Expr::Variable { name, .. } => match s.table.lookup_function(name@) {
            Some(f) => {
                let s1 = if arguments.len() != f.parameters.len() {
                    s.report(
                        ErrorCode::E2028,
                        "Function '"@ + name@ + "' expects "@ + nat_text(f.parameters.len()) + " arguments, found "@
                            + nat_text(arguments.len()),
                        span,
                    )
                } else {
                    s
                };
                (check_arguments(s1, arguments, f.parameters, 1), Some(f.return_type))
            },
            None => (
                check_all(
                    s.report(ErrorCode::E2027, "Undefined function: '"@ + name@ + "'"@, callee.spec_span()@),
                    arguments,
                ),
                None,
            ),
        },
        _ => (
            check_all(s.report(ErrorCode::E2026, "Callee must be a function name"@, callee.spec_span()@), arguments),
            None,
        ),
    }
}

/// The arguments of a call paired with the parameters, the first numbered
/// `position`: each argument of a type not assignable to its parameter is
/// error `E2029`. Arguments or parameters left unpaired are not checked.
pub open spec fn check_arguments(
    s: CheckerView,
    arguments: Seq<Expr>,
    parameters: Seq<ParameterView>,
    position: nat,
) -> CheckerView
    decreases exprs_size(arguments), 1int,
{
    if arguments.len() == 0 || parameters.len() == 0 {
        s
    } else {
        let arg = arguments[0];
        let expected = parameters[0].type_annotation;
        let (s1, t) = check_expr(s, arg);
        let s2 = match t {
            Some(a) => if !assignable(a, expected) {
                s1.report(
                    ErrorCode::E2029,
                    "Argument "@ + nat_text(position) + " type mismatch: expected "@ + type_text(expected)
                        + ", found "@ + type_text(a),
                    arg.spec_span()@,
                )
            } else {
                s1
            },
            None => s1,
        };
        proof {
            lemma_expr_size_positive(arg);
        }
        check_arguments(
            s2,
            arguments.subrange(1, arguments.len() as int),
            parameters.subrange(1, parameters.len() as int),
            position + 1,
        )
    }
}

/// Each expression checked in order, their types dropped.
pub open spec fn check_all(s: CheckerView, exprs: Seq<Expr>) -> CheckerView
    decreases exprs_size(exprs), 1int,
{
    if exprs.len() == 0 {
        s
    } else {
        proof {
            lemma_expr_size_positive(exprs[0]);
        }
        check_all(check_expr(s, exprs[0]).0, exprs.subrange(1, exprs.len() as int))
    }
}

/// An element access: the index must be an integer (`E2030`) and the
/// indexed value an array or vector (`E2031`); the type is the element type.
pub open spec fn check_array_access(s: CheckerView, array: Expr, index: Expr, span: SpanView) -> (
    CheckerView,
    Option<TypeView>,
)
    decreases expr_size(array) + expr_size(index), 1int,
{
    let (s1, at) = check_expr(s, array);
    let (s2, it) = check_expr(s1, index);
    match (at, it) {
        (Some(a), Some(i)) => if !is_integer(i) {
            (
                s2.report(ErrorCode::E2030, "Array index must be integer type, found "@ + type_text(i), index.spec_span()@),
                None,
            )
        } else {
            match a {
                TypeView::Array { element_type, .. } => (s2, Some(*element_type)),
                TypeView::Vector { element_type } => (s2, Some(*element_type)),
                _ => (
                    s2.report(ErrorCode::E2031, "Cannot index into non-array type "@ + type_text(a), array.spec_span()@),
                    None,
                ),
            }
        },
        _ => (s2, None),
    }
}

} // verus!
