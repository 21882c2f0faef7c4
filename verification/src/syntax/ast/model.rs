//! The mathematical values of types and expressions, and their copying and
//! comparison by value.
use vstd::prelude::*;
use crate::location::source_span::{SourceSpan, SpanView};
use crate::syntax::ast::ast_type::Type;
use crate::syntax::ast::binary_op::BinaryOp;
use crate::syntax::ast::expr::Expr;
use crate::syntax::ast::literal_value::{literal_eq, LiteralView};
use crate::syntax::ast::unary_op::UnaryOp;
use crate::syntax::ast::unary_op_side::UnaryOpSide;

verus! {

/// The mathematical value of a [`Type`].
pub enum TypeView {
    I8,
    I16,
    I32,
    I64,
    U8,
    U16,
    U32,
    U64,
    F32,
    F64,
    Char,
    String,
    Bool,
    Custom { name: Seq<char> },
    Array { element_type: Box<TypeView>, size: Box<ExprView> },
    Vector { element_type: Box<TypeView> },
    Function { parameters: Seq<TypeView>, return_type: Box<TypeView> },
    Void,
    NullPtr,
}

/// The mathematical value of an [`Expr`].
pub enum ExprView {
    Binary {
        left: Box<ExprView>,
        op: BinaryOp,
        right: Box<ExprView>,
        span: SpanView,
        ty: Option<TypeView>,
    },
    Unary { op: UnaryOp, side: UnaryOpSide, expr: Box<ExprView>, span: SpanView, ty: Option<TypeView> },
    Grouping { expr: Box<ExprView>, span: SpanView, ty: Option<TypeView> },
    Literal { value: LiteralView, span: SpanView, ty: Option<TypeView> },
    ArrayLiteral { elements: Seq<ExprView>, span: SpanView, ty: Option<TypeView> },
    Variable { name: Seq<char>, span: SpanView, ty: Option<TypeView> },
    Assign { target: Box<ExprView>, value: Box<ExprView>, span: SpanView, ty: Option<TypeView> },
    Call { callee: Box<ExprView>, arguments: Seq<ExprView>, span: SpanView, ty: Option<TypeView> },
    ArrayAccess { array: Box<ExprView>, index: Box<ExprView>, span: SpanView, ty: Option<TypeView> },
}

pub open spec fn type_view(t: Type) -> TypeView
    decreases t, 0int,
{
    match t {
        Type::I8 => TypeView::I8,
        Type::I16 => TypeView::I16,
        Type::I32 => TypeView::I32,
        Type::I64 => TypeView::I64,
        Type::U8 => TypeView::U8,
        Type::U16 => TypeView::U16,
        Type::U32 => TypeView::U32,
        Type::U64 => TypeView::U64,
        Type::F32 => TypeView::F32,
        Type::F64 => TypeView::F64,
        Type::Char => TypeView::Char,
        Type::String => TypeView::String,
        Type::Bool => TypeView::Bool,
        Type::Custom { name } => TypeView::Custom { name: name@ },
        Type::Array { element_type, size } => TypeView::Array {
            element_type: Box::new(type_view(*element_type)),
            size: Box::new(expr_view(*size)),
        },
        Type::Vector { element_type } => TypeView::Vector {
            element_type: Box::new(type_view(*element_type)),
        },
        Type::Function { parameters, return_type } => TypeView::Function {
            parameters: types_view(parameters@),
            return_type: Box::new(type_view(*return_type)),
        },
        Type::Void => TypeView::Void,
        Type::NullPtr => TypeView::NullPtr,
    }
}

pub open spec fn types_view(s: Seq<Type>) -> Seq<TypeView>
    decreases s, 0int,
{
    if s.len() == 0 {
        Seq::empty()
    } else {
        seq![type_view(s[0])] + types_view(s.subrange(1, s.len() as int))
    }
}

pub open spec fn opt_type_view(o: Option<Type>) -> Option<TypeView>
    decreases o, 0int,
{
    match o {
        Some(t) => Some(type_view(t)),
        None => None,
    }
}

pub open spec fn expr_view(e: Expr) -> ExprView
    decreases e, 0int,
{
    match e {
        Expr::Binary { left, op, right, span, ty } => ExprView::Binary {
            left: Box::new(expr_view(*left)),
            op,
            right: Box::new(expr_view(*right)),
            span: span@,
            ty: opt_type_view(ty),
        },
        Expr::Unary { op, side, expr, span, ty } => ExprView::Unary {
            op,
            side,
            expr: Box::new(expr_view(*expr)),
            span: span@,
            ty: opt_type_view(ty),
        },
        Expr::Grouping { expr, span, ty } => ExprView::Grouping {
            expr: Box::new(expr_view(*expr)),
            span: span@,
            ty: opt_type_view(ty),
        },
        Expr::Literal { value, span, ty } => ExprView::Literal {
            value: value@,
            span: span@,
            ty: opt_type_view(ty),
        },
        Expr::ArrayLiteral { elements, span, ty } => ExprView::ArrayLiteral {
            elements: exprs_view(elements@),
            span: span@,
            ty: opt_type_view(ty),
        },
        Expr::Variable { name, span, ty } => ExprView::Variable {
            name: name@,
            span: span@,
            ty: opt_type_view(ty),
        },
        Expr::Assign { target, value, span, ty } => ExprView::Assign {
            target: Box::new(expr_view(*target)),
            value: Box::new(expr_view(*value)),
            span: span@,
            ty: opt_type_view(ty),
        },
        Expr::Call { callee, arguments, span, ty } => ExprView::Call {
            callee: Box::new(expr_view(*callee)),
            arguments: exprs_view(arguments@),
            span: span@,
            ty: opt_type_view(ty),
        },
        Expr::ArrayAccess { array, index, span, ty } => ExprView::ArrayAccess {
            array: Box::new(expr_view(*array)),
            index: Box::new(expr_view(*index)),
            span: span@,
            ty: opt_type_view(ty),
        },
    }
}

pub open spec fn exprs_view(s: Seq<Expr>) -> Seq<ExprView>
    decreases s, 0int,
{
    if s.len() == 0 {
        Seq::empty()
    } else {
        seq![expr_view(s[0])] + exprs_view(s.subrange(1, s.len() as int))
    }
}

impl View for Type {
    type V = TypeView;

    open spec fn view(&self) -> TypeView {
        type_view(*self)
    }
}

impl View for Expr {
    type V = ExprView;

    open spec fn view(&self) -> ExprView {
        expr_view(*self)
    }
}

/// The view of a sequence of types holds the view of each type, in order.
pub proof fn lemma_types_view(s: Seq<Type>)
    ensures
        types_view(s).len() == s.len(),
        forall|i: int| 0 <= i < s.len() ==> #[trigger] types_view(s)[i] == type_view(s[i]),
    decreases s.len(),
{
    if s.len() > 0 {
        let rest = s.subrange(1, s.len() as int);
        lemma_types_view(rest);
        assert forall|i: int| 0 <= i < s.len() implies #[trigger] types_view(s)[i] == type_view(s[i]) by {
            if i > 0 {
                assert(s[i] == rest[i - 1]);
            }
        }
    }
}

/// The view of a sequence of expressions holds the view of each expression, in order.
pub proof fn lemma_exprs_view(s: Seq<Expr>)
    ensures
        exprs_view(s).len() == s.len(),
        forall|i: int| 0 <= i < s.len() ==> #[trigger] exprs_view(s)[i] == expr_view(s[i]),
    decreases s.len(),
{
    if s.len() > 0 {
        let rest = s.subrange(1, s.len() as int);
        lemma_exprs_view(rest);
        assert forall|i: int| 0 <= i < s.len() implies #[trigger] exprs_view(s)[i] == expr_view(s[i]) by {
            if i > 0 {
                assert(s[i] == rest[i - 1]);
            }
        }
    }
}

/// A copy of a type.
pub fn clone_type(t: &Type) -> (r: Type)
    ensures
        r@ == t@,
    decreases t, 0int,
{
    match t {
        Type::I8 => Type::I8,
        Type::I16 => Type::I16,
        Type::I32 => Type::I32,
        Type::I64 => Type::I64,
        Type::U8 => Type::U8,
        Type::U16 => Type::U16,
        Type::U32 => Type::U32,
        Type::U64 => Type::U64,
        Type::F32 => Type::F32,
        Type::F64 => Type::F64,
        Type::Char => Type::Char,
        Type::String => Type::String,
        Type::Bool => Type::Bool,
        Type::Custom { name } => Type::Custom { name: name.clone() },
        Type::Array { element_type, size } => Type::Array {
            element_type: Box::new(clone_type(element_type)),
            size: Box::new(clone_expr(size)),
        },
        Type::Vector { element_type } => Type::Vector { element_type: Box::new(clone_type(element_type)) },
        Type::Function { parameters, return_type } => Type::Function {
            parameters: clone_types(parameters),
            return_type: Box::new(clone_type(return_type)),
        },
        Type::Void => Type::Void,
        Type::NullPtr => Type::NullPtr,
    }
}

/// A copy of a list of types.
pub fn clone_types(v: &Vec<Type>) -> (r: Vec<Type>)
    ensures
        types_view(r@) == types_view(v@),
    decreases v, 0int,
{
    let mut out: Vec<Type> = Vec::new();
    let mut i: usize = 0;
    while i < v.len()
        invariant
            i <= v.len(),
            out@.len() == i,
            forall|j: int| 0 <= j < i ==> #[trigger] type_view(out@[j]) == type_view(v@[j]),
        decreases v.len() - i,
    {
        out.push(clone_type(&v[i]));
        i = i + 1;
    }
    proof {
        lemma_types_view(out@);
        lemma_types_view(v@);
        assert(types_view(out@) =~= types_view(v@));
    }
    out
}

/// A copy of an optional type.
pub fn clone_opt_type(o: &Option<Type>) -> (r: Option<Type>)
    ensures
        opt_type_view(r) == opt_type_view(*o),
    decreases o, 0int,
{
    match o {
        Some(t) => Some(clone_type(t)),
        None => None,
    }
}

/// A copy of an expression.
pub fn clone_expr(e: &Expr) -> (r: Expr)
    ensures
        r@ == e@,
    decreases e, 0int,
{
    match e {
        Expr::Binary { left, op, right, span, ty } => Expr::Binary {
            left: Box::new(clone_expr(left)),
            op: *op,
            right: Box::new(clone_expr(right)),
            span: span.clone(),
            ty: clone_opt_type(ty),
        },
        Expr::Unary { op, side, expr, span, ty } => Expr::Unary {
            op: *op,
            side: *side,
            expr: Box::new(clone_expr(expr)),
            span: span.clone(),
            ty: clone_opt_type(ty),
        },
        Expr::Grouping { expr, span, ty } => Expr::Grouping {
            expr: Box::new(clone_expr(expr)),
            span: span.clone(),
            ty: clone_opt_type(ty),
        },
        Expr::Literal { value, span, ty } => Expr::Literal {
            value: value.clone(),
            span: span.clone(),
            ty: clone_opt_type(ty),
        },
        Expr::ArrayLiteral { elements, span, ty } => Expr::ArrayLiteral {
            elements: clone_exprs(elements),
            span: span.clone(),
            ty: clone_opt_type(ty),
        },
        Expr::Variable { name, span, ty } => Expr::Variable {
            name: name.clone(),
            span: span.clone(),
            ty: clone_opt_type(ty),
        },
        Expr::Assign { target, value, span, ty } => Expr::Assign {
            target: Box::new(clone_expr(target)),
            value: Box::new(clone_expr(value)),
            span: span.clone(),
            ty: clone_opt_type(ty),
        },
        Expr::Call { callee, arguments, span, ty } => Expr::Call {
            callee: Box::new(clone_expr(callee)),
            arguments: clone_exprs(arguments),
            span: span.clone(),
            ty: clone_opt_type(ty),
        },
        Expr::ArrayAccess { array, index, span, ty } => Expr::ArrayAccess {
            array: Box::new(clone_expr(array)),
            index: Box::new(clone_expr(index)),
            span: span.clone(),
            ty: clone_opt_type(ty),
        },
    }
}

/// A copy of a list of expressions.
pub fn clone_exprs(v: &Vec<Expr>) -> (r: Vec<Expr>)
    ensures
        exprs_view(r@) == exprs_view(v@),
    decreases v, 0int,
{
    let mut out: Vec<Expr> = Vec::new();
    let mut i: usize = 0;
    while i < v.len()
        invariant
            i <= v.len(),
            out@.len() == i,
            forall|j: int| 0 <= j < i ==> #[trigger] expr_view(out@[j]) == expr_view(v@[j]),
        decreases v.len() - i,
    {
        out.push(clone_expr(&v[i]));
        i = i + 1;
    }
    proof {
        lemma_exprs_view(out@);
        lemma_exprs_view(v@);
        assert(exprs_view(out@) =~= exprs_view(v@));
    }
    out
}


/// Equality of two types by value.
pub fn type_eq(a: &Type, b: &Type) -> (r: bool)
    ensures
        r == (a@ == b@),
    decreases a, 0int,
{
    match a {
        Type::I8 => matches!(b, Type::I8),
        Type::I16 => matches!(b, Type::I16),
        Type::I32 => matches!(b, Type::I32),
        Type::I64 => matches!(b, Type::I64),
        Type::U8 => matches!(b, Type::U8),
        Type::U16 => matches!(b, Type::U16),
        Type::U32 => matches!(b, Type::U32),
        Type::U64 => matches!(b, Type::U64),
        Type::F32 => matches!(b, Type::F32),
        Type::F64 => matches!(b, Type::F64),
        Type::Char => matches!(b, Type::Char),
        Type::String => matches!(b, Type::String),
        Type::Bool => matches!(b, Type::Bool),
        Type::Void => matches!(b, Type::Void),
        Type::NullPtr => matches!(b, Type::NullPtr),
        Type::Custom { name: x } => match b {
            Type::Custom { name: y } => *x == *y,
            _ => false,
        },
        Type::Array { element_type: ea, size: sa } => match b {
            Type::Array { element_type: eb, size: sb } => type_eq(ea, eb) && expr_eq(sa, sb),
            _ => false,
        },
        Type::Vector { element_type: ea } => match b {
            Type::Vector { element_type: eb } => type_eq(ea, eb),
            _ => false,
        },
        Type::Function { parameters: pa, return_type: ra } => match b {
            Type::Function { parameters: pb, return_type: rb } => types_eq(pa, pb) && type_eq(ra, rb),
            _ => false,
        },
    }
}

/// Equality of two lists of types by value.
pub fn types_eq(a: &Vec<Type>, b: &Vec<Type>) -> (r: bool)
    ensures
        r == (types_view(a@) == types_view(b@)),
    decreases a, 0int,
{
    proof {
        lemma_types_view(a@);
        lemma_types_view(b@);
    }
    if a.len() != b.len() {
        return false;
    }
    let mut i: usize = 0;
    while i < a.len()
        invariant
            i <= a.len(),
            a@.len() == b@.len(),
            types_view(a@).len() == a@.len(),
            types_view(b@).len() == b@.len(),
            forall|k: int| 0 <= k < a@.len() ==> #[trigger] types_view(a@)[k] == type_view(a@[k]),
            forall|k: int| 0 <= k < b@.len() ==> #[trigger] types_view(b@)[k] == type_view(b@[k]),
            forall|j: int| 0 <= j < i ==> #[trigger] type_view(a@[j]) == type_view(b@[j]),
        decreases a.len() - i,
    {
        if !type_eq(&a[i], &b[i]) {
            assert(types_view(a@)[i as int] != types_view(b@)[i as int]);
            return false;
        }
        i = i + 1;
    }
    assert(types_view(a@) =~= types_view(b@));
    true
}

/// Equality of two optional types by value.
pub fn opt_type_eq(a: &Option<Type>, b: &Option<Type>) -> (r: bool)
    ensures
        r == (opt_type_view(*a) == opt_type_view(*b)),
    decreases a, 0int,
{
    match a {
        Some(x) => match b {
            Some(y) => type_eq(x, y),
            None => false,
        },
        None => b.is_none(),
    }
}

/// Equality of two expressions by value, spans and attached types included.
pub fn expr_eq(a: &Expr, b: &Expr) -> (r: bool)
    ensures
        r == (a@ == b@),
    decreases a, 0int,
{
    match a {
        Expr::Binary { left: l1, op: o1, right: r1, span: s1, ty: t1 } => match b {
            Expr::Binary { left: l2, op: o2, right: r2, span: s2, ty: t2 } => *o1 == *o2 && expr_eq(l1, l2)
                && expr_eq(r1, r2) && s1.same_as(s2) && opt_type_eq(t1, t2),
            _ => false,
        },
        Expr::Unary { op: o1, side: d1, expr: e1, span: s1, ty: t1 } => match b {
            Expr::Unary { op: o2, side: d2, expr: e2, span: s2, ty: t2 } => *o1 == *o2 && *d1 == *d2
                && expr_eq(e1, e2) && s1.same_as(s2) && opt_type_eq(t1, t2),
            _ => false,
        },
        Expr::Grouping { expr: e1, span: s1, ty: t1 } => match b {
            Expr::Grouping { expr: e2, span: s2, ty: t2 } => expr_eq(e1, e2) && s1.same_as(s2)
                && opt_type_eq(t1, t2),
            _ => false,
        },
        Expr::Literal { value: v1, span: s1, ty: t1 } => match b {
            Expr::Literal { value: v2, span: s2, ty: t2 } => literal_eq(v1, v2) && s1.same_as(s2)
                && opt_type_eq(t1, t2),
            _ => false,
        },
        Expr::ArrayLiteral { elements: e1, span: s1, ty: t1 } => match b {
            Expr::ArrayLiteral { elements: e2, span: s2, ty: t2 } => exprs_eq(e1, e2) && s1.same_as(s2)
                && opt_type_eq(t1, t2),
            _ => false,
        },
        Expr::Variable { name: n1, span: s1, ty: t1 } => match b {
            Expr::Variable { name: n2, span: s2, ty: t2 } => *n1 == *n2 && s1.same_as(s2)
                && opt_type_eq(t1, t2),
            _ => false,
        },
        Expr::Assign { target: g1, value: v1, span: s1, ty: t1 } => match b {
            Expr::Assign { target: g2, value: v2, span: s2, ty: t2 } => expr_eq(g1, g2) && expr_eq(v1, v2)
                && s1.same_as(s2) && opt_type_eq(t1, t2),
            _ => false,
        },
        Expr::Call { callee: c1, arguments: a1, span: s1, ty: t1 } => match b {
            Expr::Call { callee: c2, arguments: a2, span: s2, ty: t2 } => expr_eq(c1, c2) && exprs_eq(a1, a2)
                && s1.same_as(s2) && opt_type_eq(t1, t2),
            _ => false,
        },
        Expr::ArrayAccess { array: x1, index: i1, span: s1, ty: t1 } => match b {
            Expr::ArrayAccess { array: x2, index: i2, span: s2, ty: t2 } => expr_eq(x1, x2) && expr_eq(i1, i2)
                && s1.same_as(s2) && opt_type_eq(t1, t2),
            _ => false,
        },
    }
}

/// Equality of two lists of expressions by value.
pub fn exprs_eq(a: &Vec<Expr>, b: &Vec<Expr>) -> (r: bool)
    ensures
        r == (exprs_view(a@) == exprs_view(b@)),
    decreases a, 0int,
{
    proof {
        lemma_exprs_view(a@);
        lemma_exprs_view(b@);
    }
    if a.len() != b.len() {
        return false;
    }
    let mut i: usize = 0;
    while i < a.len()
        invariant
            i <= a.len(),
            a@.len() == b@.len(),
            exprs_view(a@).len() == a@.len(),
            exprs_view(b@).len() == b@.len(),
            forall|k: int| 0 <= k < a@.len() ==> #[trigger] exprs_view(a@)[k] == expr_view(a@[k]),
            forall|k: int| 0 <= k < b@.len() ==> #[trigger] exprs_view(b@)[k] == expr_view(b@[k]),
            forall|j: int| 0 <= j < i ==> #[trigger] expr_view(a@[j]) == expr_view(b@[j]),
        decreases a.len() - i,
    {
        if !expr_eq(&a[i], &b[i]) {
            assert(exprs_view(a@)[i as int] != exprs_view(b@)[i as int]);
            return false;
        }
        i = i + 1;
    }
    assert(exprs_view(a@) =~= exprs_view(b@));
    true
}

impl Clone for Type {
    fn clone(&self) -> (r: Self)
        ensures
            r@ == self@,
    {
        clone_type(self)
    }
}

impl Clone for Expr {
    fn clone(&self) -> (r: Self)
        ensures
            r@ == self@,
    {
        clone_expr(self)
    }
}

} // verus!
