//! The state of the type checker as a mathematical value, and the sizes by
//! which its traversals of the syntax tree are measured.
use vstd::prelude::*;
use crate::error::error_code::ErrorCode;
use crate::error::errors::{CompileErrorView, ErrorPhase};
use crate::location::source_span::SpanView;
use crate::semantic::symbol_table::{spec_declare, ScopeKind, SymbolTableView, SymbolView};
use crate::syntax::ast::model::TypeView;
use crate::syntax::ast::{ElseBranch, Expr, Stmt};

verus! {

/// What the type checker knows while it walks a program: whether it is
/// inside a loop, the return types of the functions it is inside (innermost
/// last), the errors found so far, and the symbol table.
pub struct CheckerView {
    pub in_loop: bool,
    pub returns: Seq<TypeView>,
    pub errors: Seq<CompileErrorView>,
    pub table: SymbolTableView,
}

/// A type error with a code and no help text.
pub open spec fn type_error(code: ErrorCode, message: Seq<char>, span: SpanView) -> CompileErrorView {
    CompileErrorView::Located { phase: ErrorPhase::Type, code: Some(code), message, span, help: None }
}

impl CheckerView {
    /// The state of a checker that has seen nothing yet.
    pub open spec fn initial(table: SymbolTableView) -> Self {
        CheckerView { in_loop: false, returns: Seq::empty(), errors: Seq::empty(), table }
    }

    /// The state after recording a type error.
    pub open spec fn report(self, code: ErrorCode, message: Seq<char>, span: SpanView) -> Self {
        CheckerView { errors: self.errors.push(type_error(code, message, span)), ..self }
    }

    /// The state after declaring `name` in the innermost scope; a
    /// redeclaration is recorded as an error and leaves the table unchanged.
    pub open spec fn declare(self, name: Seq<char>, sym: SymbolView, at: SpanView) -> Self {
        let (table, err) = spec_declare(self.table, name, sym, at);
        CheckerView {
            table,
            errors: match err {
                Some(e) => self.errors.push(e),
                None => self.errors,
            },
            ..self
        }
    }

    /// The state with a new innermost scope.
    pub open spec fn open_scope(self, kind: ScopeKind, at: Option<SpanView>) -> Self {
        CheckerView { table: self.table.push_scope(kind, at), ..self }
    }

    /// The state without its innermost scope.
    pub open spec fn close_scope(self) -> Self {
        CheckerView { table: self.table.pop_scope(), ..self }
    }

    /// The state with `in_loop` set to `b`.
    pub open spec fn with_loop(self, b: bool) -> Self {
        CheckerView { in_loop: b, ..self }
    }

    /// The state without its innermost return type, if it has one.
    pub open spec fn pop_return(self) -> Self {
        if self.returns.len() > 0 {
            CheckerView { returns: self.returns.drop_last(), ..self }
        } else {
            self
        }
    }
}

/// The number of nodes of an expression.
pub open spec fn expr_size(e: Expr) -> nat
    decreases e, 0int,
{
    match e {
        Expr::Binary { left, right, .. } => 1 + expr_size(*left) + expr_size(*right),
        Expr::Unary { expr, .. } => 1 + expr_size(*expr),
        Expr::Grouping { expr, .. } => 1 + expr_size(*expr),
        Expr::Literal { .. } => 1,
        Expr::ArrayLiteral { elements, .. } => 1 + exprs_size(elements@),
        Expr::Variable { .. } => 1,
        Expr::Assign { target, value, .. } => 1 + expr_size(*target) + expr_size(*value),
        Expr::Call { callee, arguments, .. } => 1 + expr_size(*callee) + exprs_size(arguments@),
        Expr::ArrayAccess { array, index, .. } => 1 + expr_size(*array) + expr_size(*index),
    }
}

/// The number of nodes of a list of expressions.
pub open spec fn exprs_size(s: Seq<Expr>) -> nat
    decreases s, 0int,
{
    if s.len() == 0 {
        0
    } else {
        expr_size(s[0]) + exprs_size(s.subrange(1, s.len() as int))
    }
}

/// The number of statement nodes of a statement.
pub open spec fn stmt_size(s: Stmt) -> nat
    decreases s, 0int,
{
    match s {
        Stmt::Function { body, .. } => 1 + stmt_size(*body),
        Stmt::If { then_branch, else_branch, .. } => 1 + stmt_size(*then_branch) + else_size(else_branch),
        Stmt::While { body, .. } => 1 + stmt_size(*body),
        Stmt::For { initializer, body, .. } => 1 + init_size(initializer) + stmt_size(*body),
        Stmt::Block { statements, .. } => 1 + stmts_size(statements@),
        Stmt::MainFunction { body, .. } => 1 + stmt_size(*body),
        _ => 1,
    }
}

/// The number of statement nodes of an `else` branch.
pub open spec fn else_size(e: ElseBranch) -> nat
    decreases e, 0int,
{
    match e {
        ElseBranch::Absent => 0,
        ElseBranch::Block(b) => stmt_size(*b),
        ElseBranch::ElseIf(b) => stmt_size(*b),
    }
}

/// The number of statement nodes of a `for` initializer.
pub open spec fn init_size(o: Option<Box<Stmt>>) -> nat
    decreases o, 0int,
{
    match o {
        Some(b) => stmt_size(*b),
        None => 0,
    }
}

/// The number of statement nodes of a list of statements.
pub open spec fn stmts_size(s: Seq<Stmt>) -> nat
    decreases s, 0int,
{
    if s.len() == 0 {
        0
    } else {
        stmt_size(s[0]) + stmts_size(s.subrange(1, s.len() as int))
    }
}

/// Every expression has at least one node.
pub proof fn lemma_expr_size_positive(e: Expr)
    ensures
        expr_size(e) >= 1,
{
}

/// Every statement has at least one node.
pub proof fn lemma_stmt_size_positive(s: Stmt)
    ensures
        stmt_size(s) >= 1,
{
}

/// No expression of a list is larger than the list.
pub proof fn lemma_exprs_size(s: Seq<Expr>, i: int)
    requires
        0 <= i < s.len(),
    ensures
        expr_size(s[i]) <= exprs_size(s),
    decreases s.len(),
{
    if i > 0 {
        let rest = s.subrange(1, s.len() as int);
        lemma_exprs_size(rest, i - 1);
        assert(rest[i - 1] == s[i]);
    }
}

/// No statement of a list is larger than the list.
pub proof fn lemma_stmts_size(s: Seq<Stmt>, i: int)
    requires
        0 <= i < s.len(),
    ensures
        stmt_size(s[i]) <= stmts_size(s),
    decreases s.len(),
{
    if i > 0 {
        let rest = s.subrange(1, s.len() as int);
        lemma_stmts_size(rest, i - 1);
        assert(rest[i - 1] == s[i]);
    }
}

} // verus!
