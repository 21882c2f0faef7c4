//! Type checking and semantic analysis for the Descar language.
//!
//! The checker walks the syntax tree depth first, infers the type of every
//! expression, applies the numeric promotion rules
//! (`F64 > F32 > U64 > I64 > U32 > I32 > U16 > I16 > U8 > I8`), keeps a
//! symbol table of lexical scopes, validates `break`, `continue` and
//! `return`, and accumulates every error it finds instead of stopping at the
//! first. What it records for each construct is stated by the rules in
//! [`crate::semantic::expr_rules`] and [`crate::semantic::stmt_rules`].
use vstd::prelude::*;
use crate::error::error_code::ErrorCode;
use crate::error::errors::{CompileError, CompileErrorView};
use crate::location::source_span::SourceSpan;
use crate::semantic::checker_state::{type_error, CheckerView};
use crate::semantic::expr_rules::{base_name, immutable_target};
use crate::semantic::stmt_rules::{any_return, check_stmts, has_return};
use crate::semantic::symbol_table::{Symbol, SymbolTable, SymbolTableView};
use crate::semantic::type_rules::{
    assignable, compatible, is_integer, is_numeric, literal_size, number_type, promote, promotion_rank, same_type,
};
use crate::syntax::ast::model::{expr_eq, type_eq, TypeView};
use crate::syntax::ast::{ElseBranch, Expr, LiteralValue, Stmt, Type};
use crate::tokens::number::Number;

pub mod expressions;
pub mod statements;

verus! {

/// The type checker: whether it is inside a loop, the return types of the
/// functions it is inside, the errors found so far, and the symbol table.
pub struct TypeChecker {
    in_loop: bool,
    return_type_stack: Vec<Type>,
    /// The errors found so far, in the order they were found.
    pub errors: Vec<CompileError>,
    symbol_table: SymbolTable,
}

/// The views of a list of errors.
pub open spec fn errors_view(v: Seq<CompileError>) -> Seq<CompileErrorView> {
    v.map_values(|e: CompileError| e@)
}

impl View for TypeChecker {
    type V = CheckerView;

    closed spec fn view(&self) -> CheckerView {
        CheckerView {
            in_loop: self.in_loop,
            returns: self.return_type_stack@.map_values(|t: Type| t@),
            errors: errors_view(self.errors@),
            table: self.symbol_table@,
        }
    }
}

/// The type of rank `10 - i` in the promotion hierarchy.
pub open spec fn hierarchy_view(i: int) -> TypeView {
    if i == 0 {
        TypeView::F64
    } else if i == 1 {
        TypeView::F32
    } else if i == 2 {
        TypeView::U64
    } else if i == 3 {
        TypeView::I64
    } else if i == 4 {
        TypeView::U32
    } else if i == 5 {
        TypeView::I32
    } else if i == 6 {
        TypeView::U16
    } else if i == 7 {
        TypeView::I16
    } else if i == 8 {
        TypeView::U8
    } else {
        TypeView::I8
    }
}

/// The promotion hierarchy, highest rank first.
fn hierarchy_type(i: usize) -> (t: Type)
    requires
        i < 10,
    ensures
        t@ == hierarchy_view(i as int),
        promotion_rank(t@) == Some((10 - i) as nat),
{
    match i {
        0 => Type::F64,
        1 => Type::F32,
        2 => Type::U64,
        3 => Type::I64,
        4 => Type::U32,
        5 => Type::I32,
        6 => Type::U16,
        7 => Type::I16,
        8 => Type::U8,
        _ => Type::I8,
    }
}

impl TypeChecker {
    /// A checker with a fresh symbol table, outside any loop or function,
    /// with no errors.
    pub fn new() -> (r: Self)
        ensures
            r@ == CheckerView::initial(SymbolTableView::initial()),
            r@.table.wf(),
    {
        let r = Self { symbol_table: SymbolTable::new(), errors: Vec::new(), in_loop: false, return_type_stack: Vec::new() };
        proof {
            assert(r@.returns =~= Seq::<TypeView>::empty());
            assert(r@.errors =~= Seq::<CompileErrorView>::empty());
        }
        r
    }

    /// Records a type error with `code` and no help text.
    fn report(&mut self, code: ErrorCode, message: String, span: &SourceSpan)
        ensures
            final(self)@ == old(self)@.report(code, message@, span@),
    {
        let ghost before = self.errors@;
        let err = CompileError::TypeError { code: Some(code), message, span: span.clone(), help: None };
        self.errors.push(err);
        proof {
            assert(errors_view(self.errors@) =~= errors_view(before).push(type_error(code, message@, span@)));
        }
    }

    /// Type checks `statements` and hands back every error found, in the
    /// order found; an empty list means the program is well typed. The
    /// checker keeps its scopes and forgets the errors it handed back.
    pub fn check(&mut self, statements: &[Stmt]) -> (r: Vec<CompileError>)
        requires
            old(self)@.table.wf(),
        ensures
            errors_view(r@) == check_stmts(old(self)@, statements@).errors,
            final(self)@ == (CheckerView { errors: Seq::empty(), ..check_stmts(old(self)@, statements@) }),
            final(self)@.table.wf(),
    {
        self.visit_statements(statements);
        let mut taken: Vec<CompileError> = Vec::new();
        std::mem::swap(&mut taken, &mut self.errors);
        proof {
            assert(errors_view(self.errors@) =~= Seq::<CompileErrorView>::empty());
        }
        taken
    }

    /// Declares `name` in the innermost scope, recording a redeclaration.
    fn declare_symbol(&mut self, name: &str, symbol: Symbol, declared_at: &SourceSpan)
        requires
            old(self)@.table.wf(),
        ensures
            final(self)@ == old(self)@.declare(name@, symbol@, declared_at@),
            final(self)@.table.wf(),
    {
        let ghost before = self.errors@;
        match self.symbol_table.declare(name, symbol, declared_at.clone()) {
            Ok(()) => {},
            Err(e) => {
                let ghost ev = e@;
                self.errors.push(e);
                proof {
                    assert(errors_view(self.errors@) =~= errors_view(before).push(ev));
                }
            },
        }
    }

    /// The Descar type of a numeric literal.
    pub fn type_of_number(&self, n: &Number) -> (t: Type)
        ensures
            t@ == number_type(n@),
    {
        match n {
            Number::I8(_) => Type::I8,
            Number::I16(_) => Type::I16,
            Number::I32(_) => Type::I32,
            Number::Integer(_) => Type::I64,
            Number::U8(_) => Type::U8,
            Number::U16(_) => Type::U16,
            Number::U32(_) => Type::U32,
            Number::UnsignedInteger(_) => Type::U64,
            Number::Float32(_) | Number::Scientific32(_, _) => Type::F32,
            Number::Float64(_) | Number::Scientific64(_, _) => Type::F64,
        }
    }

    /// The type of a literal.
    fn visit_literal(&self, value: &LiteralValue) -> (r: Option<Type>)
        ensures
            r matches Some(t) && t@ == crate::semantic::type_rules::literal_type(value@),
    {
        Some(
            match value {
                LiteralValue::Numeric(n) => self.type_of_number(n),
                LiteralValue::StringLit(_) => Type::String,
                LiteralValue::CharLit(_) => Type::Char,
                LiteralValue::Bool(_) => Type::Bool,
                LiteralValue::NullPtr => Type::NullPtr,
            },
        )
    }

    /// Whether two types are identical for type checking: arrays compare
    /// their element types and their evaluated lengths (their length
    /// expressions when neither evaluates); other types compare by value.
    pub fn is_same_type(&self, t1: &Type, t2: &Type) -> (r: bool)
        ensures
            r == same_type(t1@, t2@),
        decreases t1,
    {
        match (t1, t2) {
            (Type::Array { element_type: e1, size: s1 }, Type::Array { element_type: e2, size: s2 }) => {
                if !self.is_same_type(e1, e2) {
                    return false;
                }
                match (self.get_size(s1), self.get_size(s2)) {
                    (Some(a), Some(b)) => a == b,
                    (None, None) => expr_eq(s1, s2),
                    _ => false,
                }
            },
            _ => type_eq(t1, t2),
        }
    }

    /// A nonnegative signed value as a size.
    fn signed_to_size(&self, n: i64) -> (r: Option<u64>)
        ensures
            r == (if n >= 0 {
                Some(n as u64)
            } else {
                None::<u64>
            }),
    {
        if n >= 0 {
            Some(n as u64)
        } else {
            None
        }
    }

    /// The length an array-size expression denotes: the value of a
    /// nonnegative integer literal; nothing for negative integers,
    /// floating-point literals and other expressions.
    pub fn get_size(&self, expr: &Expr) -> (r: Option<u64>)
        ensures
            r == literal_size(expr@),
    {
        match expr {
            Expr::Literal { value: LiteralValue::Numeric(n), .. } => match n {
                Number::I8(v) => self.signed_to_size(*v as i64),
                Number::I16(v) => self.signed_to_size(*v as i64),
                Number::I32(v) => self.signed_to_size(*v as i64),
                Number::Integer(v) => self.signed_to_size(*v),
                Number::U8(v) => Some(*v as u64),
                Number::U16(v) => Some(*v as u64),
                Number::U32(v) => Some(*v as u64),
                Number::UnsignedInteger(v) => Some(*v),
                _ => None,
            },
            _ => None,
        }
    }

    /// The promoted type of a binary operation: of two numeric types, the
    /// higher-ranked; of one numeric type, that one; otherwise `t1`.
    pub fn promote_numeric_types(&self, t1: &Type, t2: &Type) -> (r: Type)
        ensures
            r@ == promote(t1@, t2@),
    {
        match (Self::promotion_rank(t1), Self::promotion_rank(t2)) {
            (Some(r1), Some(r2)) => if r1 >= r2 {
                crate::syntax::ast::model::clone_type(t1)
            } else {
                crate::syntax::ast::model::clone_type(t2)
            },
            _ => self.compute_promotion(t1, t2),
        }
    }

    /// The rank of a type in the promotion hierarchy, if it has one.
    fn promotion_rank(ty: &Type) -> (r: Option<usize>)
        ensures
            match r {
                Some(k) => promotion_rank(ty@) == Some(k as nat),
                None => promotion_rank(ty@) is None,
            },
    {
        match ty {
            Type::F64 => Some(10),
            Type::F32 => Some(9),
            Type::U64 => Some(8),
            Type::I64 => Some(7),
            Type::U32 => Some(6),
            Type::I32 => Some(5),
            Type::U16 => Some(4),
            Type::I16 => Some(3),
            Type::U8 => Some(2),
            Type::I8 => Some(1),
            _ => None,
        }
    }

    /// The first type of the hierarchy that is `t1` or `t2`; `t1` when
    /// neither is in it.
    fn compute_promotion(&self, t1: &Type, t2: &Type) -> (r: Type)
        ensures
            r@ == promote(t1@, t2@),
    {
        let mut i: usize = 0;
        while i < 10
            invariant
                i <= 10,
                forall|j: int| 0 <= j < i ==> t1@ != hierarchy_view(j) && t2@ != hierarchy_view(j),
            decreases 10 - i,
        {
            let ty = hierarchy_type(i);
            if type_eq(t1, &ty) {
                proof {
                    lemma_rank_position(t2@, i as int);
                }
                return crate::syntax::ast::model::clone_type(t1);
            }
            if type_eq(t2, &ty) {
                proof {
                    lemma_rank_position(t1@, i as int);
                }
                return crate::syntax::ast::model::clone_type(t2);
            }
            i = i + 1;
        }
        proof {
            lemma_rank_position(t1@, 10);
            lemma_rank_position(t2@, 10);
        }
        crate::syntax::ast::model::clone_type(t1)
    }

    /// Whether a value of type `source` can be stored where `target` is
    /// expected: identical types, numeric widening, `char` into `string`,
    /// `nullptr` into arrays, vectors and custom types, vectors of assignable
    /// elements, and arrays of assignable elements with equal evaluable
    /// lengths.
    pub fn is_assignable(&self, source: &Type, target: &Type) -> (r: bool)
        ensures
            r == assignable(source@, target@),
        decreases source,
    {
        if type_eq(source, target) {
            return true;
        }
        match (source, target) {
            (Type::I8, Type::I16 | Type::I32 | Type::I64 | Type::F32 | Type::F64)
            | (Type::I16, Type::I32 | Type::I64 | Type::F32 | Type::F64)
            | (Type::I32, Type::I64 | Type::F32 | Type::F64)
            | (Type::I64, Type::F64)
            | (Type::U8, Type::U16 | Type::U32 | Type::U64 | Type::F32 | Type::F64)
            | (Type::U16, Type::U32 | Type::U64 | Type::F32 | Type::F64)
            | (Type::U32, Type::U64 | Type::F32 | Type::F64)
            | (Type::U64, Type::F64)
            | (Type::F32, Type::F64)
            | (Type::NullPtr, Type::Array { .. } | Type::Vector { .. } | Type::Custom { .. })
            | (Type::Char, Type::String) => true,
            (Type::Array { element_type: se, size: ss }, Type::Array { element_type: te, size: ts }) => {
                if !self.is_assignable(se, te) {
                    return false;
                }
                match (self.get_size(ss), self.get_size(ts)) {
                    (Some(a), Some(b)) => a == b,
                    _ => false,
                }
            },
            (Type::Vector { element_type: se }, Type::Vector { element_type: te }) => self.is_assignable(se, te),
            _ => false,
        }
    }

    /// Whether a type is one of the fixed-width integers.
    fn is_integer_type(ty: &Type) -> (r: bool)
        ensures
            r == is_integer(ty@),
    {
        matches!(ty, Type::I8 | Type::I16 | Type::I32 | Type::I64 | Type::U8 | Type::U16 | Type::U32 | Type::U64)
    }

    /// Whether either type is assignable to the other.
    fn are_compatible(&self, t1: &Type, t2: &Type) -> (r: bool)
        ensures
            r == compatible(t1@, t2@),
    {
        self.is_assignable(t1, t2) || self.is_assignable(t2, t1)
    }

    /// Whether a type is an integer or a floating-point type.
    fn is_numeric(ty: &Type) -> (r: bool)
        ensures
            r == is_numeric(ty@),
    {
        Self::is_integer_type(ty) || matches!(ty, Type::F32 | Type::F64)
    }

    /// Whether a return occurs in `body`, both branches of a conditional
    /// being required to return.
    #[verifier::loop_isolation(false)]
    fn function_has_return(&self, body: &Stmt) -> (r: bool)
        ensures
            r == has_return(*body),
        decreases body,
    {
        match body {
            Stmt::Return { .. } => true,
            Stmt::Block { statements, .. } => {
                let mut i: usize = 0;
                assert(statements@.subrange(0, statements@.len() as int) =~= statements@);
                while i < statements.len()
                    invariant
                        i <= statements@.len(),
                        any_return(statements@) == any_return(statements@.subrange(i as int, statements@.len() as int)),
                    decreases statements.len() - i,
                {
                    proof {
                        let rest = statements@.subrange(i as int, statements@.len() as int);
                        assert(rest[0] == statements@[i as int]);
                        assert(rest.subrange(1, rest.len() as int) =~= statements@.subrange(
                            i + 1,
                            statements@.len() as int,
                        ));
                    }
                    if self.function_has_return(&statements[i]) {
                        return true;
                    }
                    i = i + 1;
                }
                assert(statements@.subrange(i as int, statements@.len() as int).len() == 0);
                false
            },
            Stmt::While { body, .. } | Stmt::For { body, .. } => self.function_has_return(body),
            Stmt::If { then_branch, else_branch, .. } => {
                let then_has_return = self.function_has_return(then_branch);
                let else_has_return = match else_branch {
                    ElseBranch::Absent => false,
                    ElseBranch::Block(stmt) | ElseBranch::ElseIf(stmt) => self.function_has_return(stmt),
                };
                then_has_return && else_has_return
            },
            _ => false,
        }
    }

    /// The variable that an assignment target stands for.
    fn base_variable_name(expr: &Expr) -> (r: Option<&str>)
        ensures
            match r {
                Some(n) => base_name(*expr) == Some(n@),
                None => base_name(*expr) is None,
            },
        decreases expr,
    {
        match expr {
            Expr::Variable { name, .. } => Some(name.as_str()),
            Expr::ArrayAccess { array, .. } => Self::base_variable_name(array),
            Expr::Grouping { expr: inner, .. } => Self::base_variable_name(inner),
            _ => None,
        }
    }

    /// The name of the immutable variable that writing through `expr` would
    /// modify, if any.
    fn immutable_target<'a>(&self, expr: &'a Expr) -> (r: Option<&'a str>)
        ensures
            match r {
                Some(n) => immutable_target(self@.table, *expr) == Some(n@),
                None => immutable_target(self@.table, *expr) is None,
            },
    {
        match Self::base_variable_name(expr) {
            Some(name) => match self.symbol_table.lookup_variable(name) {
                Some(var) => if !var.mutable {
                    Some(name)
                } else {
                    None
                },
                None => None,
            },
            None => None,
        }
    }
}

/// A type of rank `k` stands at position `10 - k` of the hierarchy; a type
/// that is none of the first `i` positions has no rank above `10 - i`.
proof fn lemma_rank_position(t: TypeView, i: int)
    requires
        0 <= i <= 10,
        forall|j: int| 0 <= j < i ==> t != hierarchy_view(j),
    ensures
        promotion_rank(t) matches Some(k) ==> k <= 10 - i && t == hierarchy_view(10 - k),
{
}

impl Default for TypeChecker {
    fn default() -> (r: Self)
        ensures
            r@ == CheckerView::initial(SymbolTableView::initial()),
    {
        Self::new()
    }
}

} // verus!
