use vstd::prelude::*;
use crate::location::source_span::SourceSpan;
use crate::syntax::ast::ast_type::Type;
use crate::syntax::ast::else_branch::ElseBranch;
use crate::syntax::ast::expr::Expr;
use crate::syntax::ast::parameter::Parameter;

verus! {

/// A statement of the syntax tree.
#[derive(Debug, PartialEq, Eq, Hash)]
pub enum Stmt {
    Expression { expr: Box<Expr> },
    VarDeclaration { bindings: Vec<VarBinding>, type_annotation: Type, is_mutable: bool, span: SourceSpan },
    Function { name: String, parameters: Vec<Parameter>, return_type: Type, body: Box<Stmt>, span: SourceSpan },
    If { condition: Box<Expr>, then_branch: Box<Stmt>, else_branch: ElseBranch, span: SourceSpan },
    While { condition: Box<Expr>, body: Box<Stmt>, span: SourceSpan },
    For {
        initializer: Option<Box<Stmt>>,
        condition: Option<Expr>,
        increment: Option<Expr>,
        body: Box<Stmt>,
        span: SourceSpan,
    },
    Block { statements: Vec<Stmt>, span: SourceSpan },
    Return { value: Option<Expr>, span: SourceSpan },
    Break { span: SourceSpan },
    Continue { span: SourceSpan },
    MainFunction { body: Box<Stmt>, span: SourceSpan },
}

/// One variable of a declaration, with its optional initializer.
#[derive(Debug, PartialEq, Eq, Hash)]
pub struct VarBinding {
    pub name: String,
    pub initializer: Option<Expr>,
    pub ty: Option<Type>,
}

impl VarBinding {
    /// A binding without a resolved type.
    pub fn new(name: String, initializer: Option<Expr>) -> (r: Self)
        ensures
            r == (VarBinding { name, initializer, ty: None }),
    {
        Self { name, initializer, ty: None }
    }

    /// The resolved type of the binding, if any.
    pub fn ty(&self) -> (r: Option<&Type>)
        ensures
            match r {
                Some(t) => self.ty == Some(*t),
                None => self.ty is None,
            },
    {
        match &self.ty {
            Some(t) => Some(t),
            None => None,
        }
    }
}

impl Stmt {
    /// The span of the statement; an expression statement has the span of its expression.
    pub open spec fn spec_span(self) -> SourceSpan {
        match self {
            Stmt::Expression { expr } => expr.spec_span(),
            Stmt::VarDeclaration { span, .. }
            | Stmt::Function { span, .. }
            | Stmt::If { span, .. }
            | Stmt::While { span, .. }
            | Stmt::For { span, .. }
            | Stmt::Block { span, .. }
            | Stmt::Return { span, .. }
            | Stmt::Break { span }
            | Stmt::Continue { span }
            | Stmt::MainFunction { span, .. } => span,
        }
    }

    /// The span of the statement.
    pub fn span(&self) -> (r: &SourceSpan)
        ensures
            *r == self.spec_span(),
    {
        match self {
            Stmt::Expression { expr } => expr.span(),
            Stmt::VarDeclaration { span, .. }
            | Stmt::Function { span, .. }
            | Stmt::If { span, .. }
            | Stmt::While { span, .. }
            | Stmt::For { span, .. }
            | Stmt::Block { span, .. }
            | Stmt::Return { span, .. }
            | Stmt::Break { span }
            | Stmt::Continue { span }
            | Stmt::MainFunction { span, .. } => span,
        }
    }
}

} // verus!
