//! The printed form of types.
use vstd::prelude::*;
use crate::syntax::ast::ast_type::Type;
use crate::syntax::ast::expr::Expr;
use crate::syntax::ast::literal_value::{LiteralValue, LiteralView};
use crate::syntax::ast::model::{lemma_types_view, type_view, types_view, ExprView, TypeView};
use crate::tokens::number::number_text;

verus! {

/// The printed form of an array size: the number of a numeric literal, `?` otherwise.
pub open spec fn array_size_text(e: ExprView) -> Seq<char> {
    match e {
        ExprView::Literal { value: LiteralView::Numeric(n), .. } => number_text(n),
        _ => "?"@,
    }
}

/// The printed form of a type.
pub open spec fn type_text(t: TypeView) -> Seq<char>
    decreases t, 0int,
{
    match t {
        TypeView::I8 => "i8"@,
        TypeView::I16 => "i16"@,
        TypeView::I32 => "i32"@,
        TypeView::I64 => "i64"@,
        TypeView::U8 => "u8"@,
        TypeView::U16 => "u16"@,
        TypeView::U32 => "u32"@,
        TypeView::U64 => "u64"@,
        TypeView::F32 => "f32"@,
        TypeView::F64 => "f64"@,
        TypeView::Char => "char"@,
        TypeView::String => "string"@,
        TypeView::Bool => "bool"@,
        TypeView::Custom { name } => name,
        TypeView::Array { element_type, size } => "["@ + type_text(*element_type) + "; "@ + array_size_text(
            *size,
        ) + "]"@,
        TypeView::Vector { element_type } => "vector<"@ + type_text(*element_type) + ">"@,
        TypeView::Function { parameters, return_type } => "fn("@ + types_text(parameters) + ") -> "@
            + type_text(*return_type),
        TypeView::Void => "void"@,
        TypeView::NullPtr => "nullptr"@,
    }
}

/// The printed forms of a list of types, separated by `, `.
pub open spec fn types_text(s: Seq<TypeView>) -> Seq<char>
    decreases s, 0int,
{
    if s.len() == 0 {
        Seq::empty()
    } else if s.len() == 1 {
        type_text(s[0])
    } else {
        types_text(s.drop_last()) + ", "@ + type_text(s.last())
    }
}

fn array_size_to_text(e: &Expr) -> (s: String)
    ensures
        s@ == array_size_text(e@),
{
    match e {
        Expr::Literal { value: LiteralValue::Numeric(n), .. } => n.to_text(),
        _ => String::from_str("?"),
    }
}

/// The printed form of a type (see [`type_text`]).
pub fn type_to_text(t: &Type) -> (s: String)
    ensures
        s@ == type_text(t@),
    decreases t, 0int,
{
    match t {
        Type::I8 => String::from_str("i8"),
        Type::I16 => String::from_str("i16"),
        Type::I32 => String::from_str("i32"),
        Type::I64 => String::from_str("i64"),
        Type::U8 => String::from_str("u8"),
        Type::U16 => String::from_str("u16"),
        Type::U32 => String::from_str("u32"),
        Type::U64 => String::from_str("u64"),
        Type::F32 => String::from_str("f32"),
        Type::F64 => String::from_str("f64"),
        Type::Char => String::from_str("char"),
        Type::String => String::from_str("string"),
        Type::Bool => String::from_str("bool"),
        Type::Custom { name } => name.clone(),
        Type::Array { element_type, size } => {
            let mut s = String::from_str("[");
            let elem = type_to_text(element_type);
            s.append(elem.as_str());
            s.append("; ");
            let size_text = array_size_to_text(size);
            s.append(size_text.as_str());
            s.append("]");
            s
        },
        Type::Vector { element_type } => {
            let mut s = String::from_str("vector<");
            let elem = type_to_text(element_type);
            s.append(elem.as_str());
            s.append(">");
            s
        },
        Type::Function { parameters, return_type } => {
            let mut s = String::from_str("fn(");
            let params = types_to_text(parameters);
            s.append(params.as_str());
            s.append(") -> ");
            let ret = type_to_text(return_type);
            s.append(ret.as_str());
            s
        },
        Type::Void => String::from_str("void"),
        Type::NullPtr => String::from_str("nullptr"),
    }
}

/// The printed forms of a list of types, separated by `, `.
pub fn types_to_text(v: &Vec<Type>) -> (s: String)
    ensures
        s@ == types_text(types_view(v@)),
    decreases v, 0int,
{
    proof {
        lemma_types_view(v@);
    }
    let ghost tv = types_view(v@);
    let mut s = String::new();
    let mut i: usize = 0;
    while i < v.len()
        invariant
            i <= v.len(),
            tv == types_view(v@),
            tv.len() == v@.len(),
            forall|k: int| 0 <= k < v@.len() ==> #[trigger] tv[k] == type_view(v@[k]),
            s@ == types_text(tv.take(i as int)),
        decreases v.len() - i,
    {
        let item = type_to_text(&v[i]);
        proof {
            assert(tv.take(i + 1).drop_last() =~= tv.take(i as int));
            assert(tv.take(i + 1).last() == tv[i as int]);
        }
        if i > 0 {
            s.append(", ");
        } else {
            assert(tv.take(1) =~= seq![tv[0]]);
            assert(s@ =~= Seq::<char>::empty());
        }
        s.append(item.as_str());
        i = i + 1;
    }
    assert(tv.take(v@.len() as int) =~= tv);
    s
}

} // verus!
