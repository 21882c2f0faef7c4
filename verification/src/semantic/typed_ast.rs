//! The fully typed syntax tree: every expression carries the type that
//! semantic analysis resolved for it.
use vstd::prelude::*;
use crate::location::source_span::SourceSpan;
use crate::syntax::ast::model::{types_view, TypeView};
use crate::syntax::ast::{BinaryOp, LiteralValue, Parameter, Type, UnaryOp, UnaryOpSide};

verus! {

/// The semantic type attached to a node of a fully typed tree.
#[derive(Debug, PartialEq, Eq, Hash)]
pub enum ResolvedType {
    /// A value of one of the language's regular types.
    Value(Type),
    /// A callable function signature.
    Function { parameters: Vec<Type>, return_type: Type },
}

/// The mathematical value of a [`ResolvedType`].
pub enum ResolvedTypeView {
    Value(TypeView),
    Function { parameters: Seq<TypeView>, return_type: TypeView },
}

impl View for ResolvedType {
    type V = ResolvedTypeView;

    open spec fn view(&self) -> ResolvedTypeView {
        match self {
            ResolvedType::Value(t) => ResolvedTypeView::Value(t@),
            ResolvedType::Function { parameters, return_type } => ResolvedTypeView::Function {
                parameters: types_view(parameters@),
                return_type: return_type@,
            },
        }
    }
}

impl ResolvedType {
    /// A value of type `ty`.
    pub fn value(ty: Type) -> (r: Self)
        ensures
            r == ResolvedType::Value(ty),
    {
        ResolvedType::Value(ty)
    }

    /// A function taking `parameters` and returning `return_type`.
    pub fn function(parameters: Vec<Type>, return_type: Type) -> (r: Self)
        ensures
            r == (ResolvedType::Function { parameters, return_type }),
    {
        ResolvedType::Function { parameters, return_type }
    }

    /// The type a use of the node produces: the value's type, or the
    /// function's return type.
    pub fn return_type(&self) -> (r: &Type)
        ensures
            match self {
                ResolvedType::Value(t) => *r == *t,
                ResolvedType::Function { return_type, .. } => *r == *return_type,
            },
    {
        match self {
            ResolvedType::Value(ty) => ty,
            ResolvedType::Function { return_type, .. } => return_type,
        }
    }
}

/// An expression paired with the type resolved for it.
#[derive(Debug, PartialEq, Eq, Hash)]
pub struct TypedExpr {
    pub kind: TypedExprKind,
    pub ty: ResolvedType,
    pub span: SourceSpan,
}

/// The kinds of typed expressions, mirroring the syntax tree.
#[derive(Debug, PartialEq, Eq, Hash)]
pub enum TypedExprKind {
    Binary { left: Box<TypedExpr>, op: BinaryOp, right: Box<TypedExpr> },
    Unary { op: UnaryOp, side: UnaryOpSide, expr: Box<TypedExpr> },
    Grouping { expr: Box<TypedExpr> },
    Literal { value: LiteralValue },
    ArrayLiteral { elements: Vec<TypedExpr> },
    Variable { name: String },
    Assign { target: Box<TypedExpr>, value: Box<TypedExpr> },
    Call { callee: Box<TypedExpr>, arguments: Vec<TypedExpr> },
    ArrayAccess { array: Box<TypedExpr>, index: Box<TypedExpr> },
}

/// A declared variable with its typed initializer and declared type.
#[derive(Debug, PartialEq, Eq, Hash)]
pub struct TypedVarBinding {
    pub name: String,
    pub initializer: Option<TypedExpr>,
    pub declared_type: Type,
}

/// A typed statement, mirroring the syntax tree.
#[derive(Debug, PartialEq, Eq, Hash)]
pub enum TypedStmt {
    Expression { expr: TypedExpr },
    VarDeclaration { bindings: Vec<TypedVarBinding>, type_annotation: Type, is_mutable: bool, span: SourceSpan },
    Function {
        name: String,
        parameters: Vec<Parameter>,
        return_type: Type,
        body: Box<TypedStmt>,
        span: SourceSpan,
    },
    If { condition: TypedExpr, then_branch: Box<TypedStmt>, else_branch: TypedElseBranch, span: SourceSpan },
    While { condition: TypedExpr, body: Box<TypedStmt>, span: SourceSpan },
    For {
        initializer: Option<Box<TypedStmt>>,
        condition: Option<TypedExpr>,
        increment: Option<TypedExpr>,
        body: Box<TypedStmt>,
        span: SourceSpan,
    },
    Block { statements: Vec<TypedStmt>, span: SourceSpan },
    Return { value: Option<TypedExpr>, span: SourceSpan },
    Break { span: SourceSpan },
    Continue { span: SourceSpan },
    MainFunction { body: Box<TypedStmt>, span: SourceSpan },
}

/// The `else` branch of a typed `if`.
#[derive(Debug, PartialEq, Eq, Hash)]
pub enum TypedElseBranch {
    Absent,
    Block(Box<TypedStmt>),
    ElseIf(Box<TypedStmt>),
}

/// The statements of a program, fully typed.
#[derive(Debug, PartialEq, Eq, Hash)]
pub struct FullyTypedAst {
    pub statements: Vec<TypedStmt>,
}

} // verus!
