use vstd::prelude::*;
use crate::location::source_span::SourceSpan;
use crate::syntax::ast::ast_type::Type;
use crate::syntax::ast::binary_op::BinaryOp;
use crate::syntax::ast::literal_value::LiteralValue;
use crate::syntax::ast::unary_op::UnaryOp;
use crate::syntax::ast::unary_op_side::UnaryOpSide;

verus! {

/// An expression of the syntax tree, with the type attached to it, if any.
#[derive(Debug, PartialEq, Eq, Hash)]
pub enum Expr {
    Binary { left: Box<Expr>, op: BinaryOp, right: Box<Expr>, span: SourceSpan, ty: Option<Type> },
    Unary { op: UnaryOp, side: UnaryOpSide, expr: Box<Expr>, span: SourceSpan, ty: Option<Type> },
    Grouping { expr: Box<Expr>, span: SourceSpan, ty: Option<Type> },
    Literal { value: LiteralValue, span: SourceSpan, ty: Option<Type> },
    ArrayLiteral { elements: Vec<Expr>, span: SourceSpan, ty: Option<Type> },
    Variable { name: String, span: SourceSpan, ty: Option<Type> },
    Assign { target: Box<Expr>, value: Box<Expr>, span: SourceSpan, ty: Option<Type> },
    Call { callee: Box<Expr>, arguments: Vec<Expr>, span: SourceSpan, ty: Option<Type> },
    ArrayAccess { array: Box<Expr>, index: Box<Expr>, span: SourceSpan, ty: Option<Type> },
}

} // verus!

verus! {

impl Expr {
    /// The span field of the expression.
    pub open spec fn spec_span(self) -> SourceSpan {
        match self {
            Expr::Binary { span, .. }
            | Expr::Unary { span, .. }
            | Expr::Grouping { span, .. }
            | Expr::Literal { span, .. }
            | Expr::ArrayLiteral { span, .. }
            | Expr::Variable { span, .. }
            | Expr::Assign { span, .. }
            | Expr::Call { span, .. }
            | Expr::ArrayAccess { span, .. } => span,
        }
    }

    /// The attached type field of the expression.
    pub open spec fn spec_ty(self) -> Option<Type> {
        match self {
            Expr::Binary { ty, .. }
            | Expr::Unary { ty, .. }
            | Expr::Grouping { ty, .. }
            | Expr::Literal { ty, .. }
            | Expr::ArrayLiteral { ty, .. }
            | Expr::Variable { ty, .. }
            | Expr::Assign { ty, .. }
            | Expr::Call { ty, .. }
            | Expr::ArrayAccess { ty, .. } => ty,
        }
    }

    /// The expression with its type field replaced.
    pub open spec fn spec_with_ty(self, t: Option<Type>) -> Expr {
        match self {
            Expr::Binary { left, op, right, span, .. } => Expr::Binary { left, op, right, span, ty: t },
            Expr::Unary { op, side, expr, span, .. } => Expr::Unary { op, side, expr, span, ty: t },
            Expr::Grouping { expr, span, .. } => Expr::Grouping { expr, span, ty: t },
            Expr::Literal { value, span, .. } => Expr::Literal { value, span, ty: t },
            Expr::ArrayLiteral { elements, span, .. } => Expr::ArrayLiteral { elements, span, ty: t },
            Expr::Variable { name, span, .. } => Expr::Variable { name, span, ty: t },
            Expr::Assign { target, value, span, .. } => Expr::Assign { target, value, span, ty: t },
            Expr::Call { callee, arguments, span, .. } => Expr::Call { callee, arguments, span, ty: t },
            Expr::ArrayAccess { array, index, span, .. } => Expr::ArrayAccess { array, index, span, ty: t },
        }
    }

    /// The source span of the expression.
    pub fn span(&self) -> (r: &SourceSpan)
        ensures
            *r == self.spec_span(),
    {
        match self {
            Expr::Binary { span, .. }
            | Expr::Unary { span, .. }
            | Expr::Grouping { span, .. }
            | Expr::Literal { span, .. }
            | Expr::ArrayLiteral { span, .. }
            | Expr::Variable { span, .. }
            | Expr::Assign { span, .. }
            | Expr::Call { span, .. }
            | Expr::ArrayAccess { span, .. } => span,
        }
    }

    /// The type attached to the expression, if any.
    pub fn ty(&self) -> (r: Option<&Type>)
        ensures
            match r {
                Some(t) => self.spec_ty() == Some(*t),
                None => self.spec_ty() is None,
            },
    {
        match self {
            Expr::Binary { ty, .. }
            | Expr::Unary { ty, .. }
            | Expr::Grouping { ty, .. }
            | Expr::Literal { ty, .. }
            | Expr::ArrayLiteral { ty, .. }
            | Expr::Variable { ty, .. }
            | Expr::Assign { ty, .. }
            | Expr::Call { ty, .. }
            | Expr::ArrayAccess { ty, .. } => match ty {
                Some(t) => Some(t),
                None => None,
            },
        }
    }

    /// Attaches a type to the expression, keeping everything else.
    pub fn set_ty(&mut self, ty: Type)
        ensures
            *final(self) == old(self).spec_with_ty(Some(ty)),
    {
        match self {
            Expr::Binary { ty: slot, .. } => *slot = Some(ty),
            Expr::Unary { ty: slot, .. } => *slot = Some(ty),
            Expr::Grouping { ty: slot, .. } => *slot = Some(ty),
            Expr::Literal { ty: slot, .. } => *slot = Some(ty),
            Expr::ArrayLiteral { ty: slot, .. } => *slot = Some(ty),
            Expr::Variable { ty: slot, .. } => *slot = Some(ty),
            Expr::Assign { ty: slot, .. } => *slot = Some(ty),
            Expr::Call { ty: slot, .. } => *slot = Some(ty),
            Expr::ArrayAccess { ty: slot, .. } => *slot = Some(ty),
        }
    }

    /// The `nullptr` literal at `span`.
    pub fn null_expr(span: SourceSpan) -> (r: Self)
        ensures
            r == (Expr::Literal { value: LiteralValue::NullPtr, span, ty: None }),
    {
        Expr::Literal { value: LiteralValue::NullPtr, span, ty: None }
    }

    /// A numeric literal.
    pub fn new_number_literal(value: crate::tokens::number::Number, span: SourceSpan) -> (r: Self)
        ensures
            r == (Expr::Literal { value: LiteralValue::Numeric(value), span, ty: None }),
    {
        Expr::Literal { value: LiteralValue::Numeric(value), span, ty: None }
    }

    /// A boolean literal.
    pub fn new_bool_literal(value: bool, span: SourceSpan) -> (r: Self)
        ensures
            r == (Expr::Literal { value: LiteralValue::Bool(value), span, ty: None }),
    {
        Expr::Literal { value: LiteralValue::Bool(value), span, ty: None }
    }

    /// The `nullptr` literal (same as [`Expr::null_expr`]).
    pub fn new_nullptr_literal(span: SourceSpan) -> (r: Self)
        ensures
            r == (Expr::Literal { value: LiteralValue::NullPtr, span, ty: None }),
    {
        Self::null_expr(span)
    }

    /// A string literal.
    pub fn new_string_literal(value: String, span: SourceSpan) -> (r: Self)
        ensures
            r == (Expr::Literal { value: LiteralValue::StringLit(value), span, ty: None }),
    {
        Expr::Literal { value: LiteralValue::StringLit(value), span, ty: None }
    }

    /// A character literal.
    pub fn new_char_literal(value: String, span: SourceSpan) -> (r: Self)
        ensures
            r == (Expr::Literal { value: LiteralValue::CharLit(value), span, ty: None }),
    {
        Expr::Literal { value: LiteralValue::CharLit(value), span, ty: None }
    }
}

} // verus!
