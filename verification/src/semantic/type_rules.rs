//! The typing rules of the language, stated over type values: numeric
//! classes, promotion, assignability and array sizes.
use vstd::prelude::*;
use crate::syntax::ast::literal_value::LiteralView;
use crate::syntax::ast::model::{ExprView, TypeView};
use crate::tokens::number::NumberView;

verus! {

/// Integer types: the signed and unsigned fixed-width integers.
pub open spec fn is_integer(t: TypeView) -> bool {
    matches!(
        t,
        TypeView::I8 | TypeView::I16 | TypeView::I32 | TypeView::I64 | TypeView::U8 | TypeView::U16
            | TypeView::U32 | TypeView::U64
    )
}

/// Numeric types: the integers and the two floating-point types.
pub open spec fn is_numeric(t: TypeView) -> bool {
    is_integer(t) || matches!(t, TypeView::F32 | TypeView::F64)
}

/// Rank in the promotion hierarchy `F64 > F32 > U64 > I64 > U32 > I32 > U16 >
/// I16 > U8 > I8`; non-numeric types have no rank.
pub open spec fn promotion_rank(t: TypeView) -> Option<nat> {
    match t {
        TypeView::F64 => Some(10),
        TypeView::F32 => Some(9),
        TypeView::U64 => Some(8),
        TypeView::I64 => Some(7),
        TypeView::U32 => Some(6),
        TypeView::I32 => Some(5),
        TypeView::U16 => Some(4),
        TypeView::I16 => Some(3),
        TypeView::U8 => Some(2),
        TypeView::I8 => Some(1),
        _ => None,
    }
}

/// The promoted type of a binary operation: the higher-ranked of two numeric
/// types (the first on a tie); the numeric one when only one is numeric; the
/// first otherwise.
pub open spec fn promote(t1: TypeView, t2: TypeView) -> TypeView {
    match (promotion_rank(t1), promotion_rank(t2)) {
        (Some(r1), Some(r2)) => if r1 >= r2 {
            t1
        } else {
            t2
        },
        (Some(_), None) => t1,
        (None, Some(_)) => t2,
        (None, None) => t1,
    }
}

/// The size an array-size expression denotes: a nonnegative integer literal.
pub open spec fn literal_size(e: ExprView) -> Option<u64> {
    match e {
        ExprView::Literal { value: LiteralView::Numeric(n), .. } => match n {
            NumberView::I8(v) => if v >= 0 {
                Some(v as u64)
            } else {
                None
            },
            NumberView::I16(v) => if v >= 0 {
                Some(v as u64)
            } else {
                None
            },
            NumberView::I32(v) => if v >= 0 {
                Some(v as u64)
            } else {
                None
            },
            NumberView::Integer(v) => if v >= 0 {
                Some(v as u64)
            } else {
                None
            },
            NumberView::U8(v) => Some(v as u64),
            NumberView::U16(v) => Some(v as u64),
            NumberView::U32(v) => Some(v as u64),
            NumberView::UnsignedInteger(v) => Some(v),
            _ => None,
        },
        _ => None,
    }
}

/// Whether a value of type `source` may be stored where `target` is expected:
/// identical types; numeric widening; `char` into `string`; `nullptr` into
/// arrays, vectors and custom types; vectors of assignable elements; arrays of
/// assignable elements with equal evaluable sizes.
pub open spec fn assignable(source: TypeView, target: TypeView) -> bool
    decreases source,
{
    source == target || match (source, target) {
        (TypeView::I8, TypeView::I16)
        | (TypeView::I8, TypeView::I32)
        | (TypeView::I8, TypeView::I64)
        | (TypeView::I8, TypeView::F32)
        | (TypeView::I8, TypeView::F64)
        | (TypeView::I16, TypeView::I32)
        | (TypeView::I16, TypeView::I64)
        | (TypeView::I16, TypeView::F32)
        | (TypeView::I16, TypeView::F64)
        | (TypeView::I32, TypeView::I64)
        | (TypeView::I32, TypeView::F32)
        | (TypeView::I32, TypeView::F64)
        | (TypeView::I64, TypeView::F64)
        | (TypeView::U8, TypeView::U16)
        | (TypeView::U8, TypeView::U32)
        | (TypeView::U8, TypeView::U64)
        | (TypeView::U8, TypeView::F32)
        | (TypeView::U8, TypeView::F64)
        | (TypeView::U16, TypeView::U32)
        | (TypeView::U16, TypeView::U64)
        | (TypeView::U16, TypeView::F32)
        | (TypeView::U16, TypeView::F64)
        | (TypeView::U32, TypeView::U64)
        | (TypeView::U32, TypeView::F32)
        | (TypeView::U32, TypeView::F64)
        | (TypeView::U64, TypeView::F64)
        | (TypeView::F32, TypeView::F64)
        | (TypeView::NullPtr, TypeView::Array { .. })
        | (TypeView::NullPtr, TypeView::Vector { .. })
        | (TypeView::NullPtr, TypeView::Custom { .. })
        | (TypeView::Char, TypeView::String) => true,
        (
            TypeView::Array { element_type: se, size: ss },
            TypeView::Array { element_type: te, size: ts },
        ) => assignable(*se, *te) && match (literal_size(*ss), literal_size(*ts)) {
            (Some(a), Some(b)) => a == b,
            _ => false,
        },
        (TypeView::Vector { element_type: se }, TypeView::Vector { element_type: te }) => assignable(*se, *te),
        _ => false,
    }
}

/// Every type is assignable to itself, whatever its array sizes are.
pub proof fn law_identical_types_assignable(t: TypeView)
    ensures
        assignable(t, t),
{
}

/// Either type is assignable to the other.
pub open spec fn compatible(t1: TypeView, t2: TypeView) -> bool {
    assignable(t1, t2) || assignable(t2, t1)
}

/// Identity of types for type checking: arrays compare their element types and
/// their evaluated sizes (their size expressions when neither evaluates);
/// other types compare by value.
pub open spec fn same_type(t1: TypeView, t2: TypeView) -> bool
    decreases t1,
{
    match (t1, t2) {
        (TypeView::Array { element_type: e1, size: s1 }, TypeView::Array { element_type: e2, size: s2 }) => {
            same_type(*e1, *e2) && match (literal_size(*s1), literal_size(*s2)) {
                (Some(a), Some(b)) => a == b,
                (None, None) => *s1 == *s2,
                _ => false,
            }
        },
        _ => t1 == t2,
    }
}

/// The type of a numeric literal.
pub open spec fn number_type(n: NumberView) -> TypeView {
    match n {
        NumberView::I8(_) => TypeView::I8,
        NumberView::I16(_) => TypeView::I16,
        NumberView::I32(_) => TypeView::I32,
        NumberView::Integer(_) => TypeView::I64,
        NumberView::U8(_) => TypeView::U8,
        NumberView::U16(_) => TypeView::U16,
        NumberView::U32(_) => TypeView::U32,
        NumberView::UnsignedInteger(_) => TypeView::U64,
        NumberView::Float32(_) | NumberView::Scientific32(_, _) => TypeView::F32,
        NumberView::Float64(_) | NumberView::Scientific64(_, _) => TypeView::F64,
    }
}

/// The type of a literal.
pub open spec fn literal_type(v: LiteralView) -> TypeView {
    match v {
        LiteralView::Numeric(n) => number_type(n),
        LiteralView::StringLit(_) => TypeView::String,
        LiteralView::CharLit(_) => TypeView::Char,
        LiteralView::Bool(_) => TypeView::Bool,
        LiteralView::NullPtr => TypeView::NullPtr,
    }
}

/// A numeric literal has the type its number names: each fixed-width integer
/// its own type, unsuffixed integers `i64`, `u`-suffixed ones `u64`, and
/// floating-point numbers, plain or scientific, `f32` or `f64`; strings,
/// characters, booleans and `nullptr` have their own types.
pub proof fn law_literal_types(n: NumberView, v: LiteralView)
    ensures
        n is I8 ==> number_type(n) == TypeView::I8,
        n is I16 ==> number_type(n) == TypeView::I16,
        n is I32 ==> number_type(n) == TypeView::I32,
        n is Integer ==> number_type(n) == TypeView::I64,
        n is U8 ==> number_type(n) == TypeView::U8,
        n is U16 ==> number_type(n) == TypeView::U16,
        n is U32 ==> number_type(n) == TypeView::U32,
        n is UnsignedInteger ==> number_type(n) == TypeView::U64,
        n is Float32 || n is Scientific32 ==> number_type(n) == TypeView::F32,
        n is Float64 || n is Scientific64 ==> number_type(n) == TypeView::F64,
        v is StringLit ==> literal_type(v) == TypeView::String,
        v is CharLit ==> literal_type(v) == TypeView::Char,
        v is Bool ==> literal_type(v) == TypeView::Bool,
        v is NullPtr ==> literal_type(v) == TypeView::NullPtr,
        v matches LiteralView::Numeric(m) ==> literal_type(v) == number_type(m),
{
}

/// Every type is the same type as itself.
pub proof fn law_same_type_reflexive(t: TypeView)
    ensures
        same_type(t, t),
    decreases t,
{
    if let TypeView::Array { element_type, .. } = t {
        law_same_type_reflexive(*element_type);
    }
}

/// Sameness of types does not depend on the order of the two types.
pub proof fn law_same_type_symmetric(t1: TypeView, t2: TypeView)
    ensures
        same_type(t1, t2) == same_type(t2, t1),
    decreases t1,
{
    match (t1, t2) {
        (TypeView::Array { element_type: e1, .. }, TypeView::Array { element_type: e2, .. }) => {
            law_same_type_symmetric(*e1, *e2);
        },
        _ => {},
    }
}

/// The promoted type of two numeric types is one of them, of the higher
/// rank, whichever order they come in.
pub proof fn law_promotion_takes_higher_rank(t1: TypeView, t2: TypeView)
    requires
        is_numeric(t1),
        is_numeric(t2),
    ensures
        promote(t1, t2) == promote(t2, t1),
        promote(t1, t2) == t1 || promote(t1, t2) == t2,
        promotion_rank(promote(t1, t2))->0 >= promotion_rank(t1)->0,
        promotion_rank(promote(t1, t2))->0 >= promotion_rank(t2)->0,
{
}

/// Implicit numeric conversions only widen: a numeric type assignable to a
/// different numeric type ranks lower in the promotion hierarchy.
pub proof fn law_numeric_widening_goes_up(source: TypeView, target: TypeView)
    requires
        is_numeric(source),
        is_numeric(target),
        assignable(source, target),
        source != target,
    ensures
        promotion_rank(source)->0 < promotion_rank(target)->0,
{
}

/// Numeric assignability is transitive.
pub proof fn law_numeric_assignability_transitive(a: TypeView, b: TypeView, c: TypeView)
    requires
        is_numeric(a),
        is_numeric(b),
        is_numeric(c),
        assignable(a, b),
        assignable(b, c),
    ensures
        assignable(a, c),
{
}

/// The numeric types from lowest to highest promotion rank: `i8`, `u8`,
/// `i16`, `u16`, `i32`, `u32`, `i64`, `u64`, `f32`, `f64`.
pub open spec fn promotion_order() -> Seq<TypeView> {
    seq![
        TypeView::I8,
        TypeView::U8,
        TypeView::I16,
        TypeView::U16,
        TypeView::I32,
        TypeView::U32,
        TypeView::I64,
        TypeView::U64,
        TypeView::F32,
        TypeView::F64,
    ]
}

/// Two numeric operands are promoted to the later of the two in the order
/// `i8 < u8 < i16 < u16 < i32 < u32 < i64 < u64 < f32 < f64`, whichever
/// side each stands on.
pub proof fn law_promotion_order(i: int, j: int)
    requires
        0 <= i <= j < 10,
    ensures
        promote(promotion_order()[i], promotion_order()[j]) == promotion_order()[j],
        promote(promotion_order()[j], promotion_order()[i]) == promotion_order()[j],
{
}

/// The bit width of a fixed-width integer type.
pub open spec fn integer_width(t: TypeView) -> nat {
    match t {
        TypeView::I8 | TypeView::U8 => 8,
        TypeView::I16 | TypeView::U16 => 16,
        TypeView::I32 | TypeView::U32 => 32,
        TypeView::I64 | TypeView::U64 => 64,
        _ => 0,
    }
}

/// Implicit conversions between different numeric types: an integer type
/// converts to a wider integer type of the same signedness, every integer
/// type narrower than 64 bits converts to both floating-point types, the
/// 64-bit integer types and `f32` convert to `f64`, and no other numeric
/// conversion is implicit.
pub proof fn law_numeric_conversions(a: TypeView, b: TypeView)
    requires
        a != b,
        a is I8 || a is I16 || a is I32 || a is I64 || a is U8 || a is U16 || a is U32 || a is U64 || a is F32
            || a is F64,
        b is I8 || b is I16 || b is I32 || b is I64 || b is U8 || b is U16 || b is U32 || b is U64 || b is F32
            || b is F64,
    ensures
        assignable(a, b) <==> ({
            let signed_a = a is I8 || a is I16 || a is I32 || a is I64;
            let signed_b = b is I8 || b is I16 || b is I32 || b is I64;
            let float_a = a is F32 || a is F64;
            let float_b = b is F32 || b is F64;
            ||| !float_a && !float_b && signed_a == signed_b && integer_width(a) < integer_width(b)
            ||| !float_a && float_b && (integer_width(a) < 64 || b is F64)
            ||| a is F32 && b is F64
        }),
{
}

/// Compatibility of two types does not depend on their order.
pub proof fn law_compatibility_symmetric(t1: TypeView, t2: TypeView)
    ensures
        compatible(t1, t2) == compatible(t2, t1),
{
}

} // verus!
