//! Type checking of expressions.
use vstd::prelude::*;
use crate::error::error_code::ErrorCode;
use crate::location::source_span::SourceSpan;
use crate::semantic::checker_state::{expr_size, exprs_size, lemma_exprs_size};
use crate::semantic::expr_rules::{
    check_all, check_arguments, check_array_access, check_array_literal, check_assign, check_binary, check_call,
    check_elements, check_expr, check_unary, check_variable, immutable_message, is_arithmetic, is_bitwise,
    is_comparison, is_compound, is_logical,
};
use crate::semantic::type_checker::TypeChecker;
use crate::syntax::ast::model::opt_type_view;
use crate::syntax::ast::type_text::type_to_text;
use crate::syntax::ast::{BinaryOp, Expr, LiteralValue, Type, UnaryOp};
use crate::text::{cat2, cat3, cat4, cat6, u64_text};
use crate::tokens::number::Number;

verus! {

/// The message of a write to an immutable variable.
fn immutable_text(name: &str) -> (s: String)
    ensures
        s@ == immutable_message(name@),
{
    cat3("Cannot assign to immutable variable '", name, "'")
}

impl TypeChecker {
    /// Checks an expression and returns its type, if it has one.
    pub(crate) fn visit_expr(&mut self, expr: &Expr) -> (r: Option<Type>)
        requires
            old(self)@.table.wf(),
        ensures
            (final(self)@, opt_type_view(r)) == check_expr(old(self)@, *expr),
            final(self)@.table.wf(),
        decreases expr_size(*expr), 0int,
    {
        match expr {
            Expr::Binary { left, op, right, span, .. } => self.visit_binary_expr(left, *op, right, span),
            Expr::Unary { op, expr: operand, span, .. } => self.visit_unary_expr(*op, operand, span),
            Expr::Grouping { expr: inner, .. } => self.visit_expr(inner),
            Expr::Literal { value, span, .. } => self.visit_literal(value),
            Expr::ArrayLiteral { elements, span, .. } => self.visit_array_literal(elements, span),
            Expr::Variable { name, span, .. } => self.visit_variable(name.as_str(), span),
            Expr::Assign { target, value, span, .. } => self.visit_assign(target, value, span),
            Expr::Call { callee, arguments, span, .. } => self.visit_call(callee, arguments, span),
            Expr::ArrayAccess { array, index, span, .. } => self.visit_array_access(array, index, span),
        }
    }

    /// Checks a binary operation and returns its type, if it has one.
    pub fn visit_binary_expr(&mut self, left: &Expr, op: BinaryOp, right: &Expr, span: &SourceSpan) -> (r: Option<
        Type,
    >)
        requires
            old(self)@.table.wf(),
        ensures
            (final(self)@, opt_type_view(r)) == check_binary(old(self)@, *left, op, *right, span@),
            final(self)@.table.wf(),
        decreases expr_size(*left) + expr_size(*right), 1int,
    {
        let left_type = self.visit_expr(left);
        let compound = matches!(
            op,
            BinaryOp::AddEqual | BinaryOp::SubtractEqual | BinaryOp::MultiplyEqual | BinaryOp::DivideEqual
                | BinaryOp::ModuloEqual | BinaryOp::BitwiseAndEqual | BinaryOp::BitwiseOrEqual
                | BinaryOp::BitwiseXorEqual | BinaryOp::ShiftLeftEqual | BinaryOp::ShiftRightEqual
        );
        assert(compound == is_compound(op));
        if compound {
            match self.immutable_target(left) {
                Some(name) => {
                    let message = immutable_text(name);
                    self.report(ErrorCode::E2024, message, left.span());
                    return None;
                },
                None => {},
            }
        }
        let right_type = self.visit_expr(right);
        let (lt, rt) = match (left_type, right_type) {
            (Some(l), Some(r)) => (l, r),
            _ => {
                return None;
            },
        };
        let bitwise = matches!(
            op,
            BinaryOp::BitwiseAnd | BinaryOp::BitwiseAndEqual | BinaryOp::BitwiseOr | BinaryOp::BitwiseOrEqual
                | BinaryOp::BitwiseXor | BinaryOp::BitwiseXorEqual | BinaryOp::ShiftLeft | BinaryOp::ShiftLeftEqual
                | BinaryOp::ShiftRight | BinaryOp::ShiftRightEqual
        );
        let arithmetic = matches!(
            op,
            BinaryOp::Add | BinaryOp::AddEqual | BinaryOp::Subtract | BinaryOp::SubtractEqual | BinaryOp::Multiply
                | BinaryOp::MultiplyEqual | BinaryOp::Divide | BinaryOp::DivideEqual | BinaryOp::Modulo
                | BinaryOp::ModuloEqual
        );
        let comparison = matches!(
            op,
            BinaryOp::Equal | BinaryOp::NotEqual | BinaryOp::Less | BinaryOp::LessEqual | BinaryOp::Greater
                | BinaryOp::GreaterEqual
        );
        let logical = matches!(op, BinaryOp::And | BinaryOp::Or);
        assert(bitwise == is_bitwise(op) && arithmetic == is_arithmetic(op) && comparison == is_comparison(op)
            && logical == is_logical(op));
        let (left_type, right_type) = if bitwise {
            if Self::is_integer_type(&lt) && Self::is_integer_type(&rt) {
                let common = self.promote_numeric_types(&lt, &rt);
                let common2 = self.promote_numeric_types(&lt, &rt);
                (common, common2)
            } else {
                let message = cat6(
                    "Bitwise operator '",
                    op.name(),
                    "' require integer operand types, found ",
                    type_to_text(&lt).as_str(),
                    " and ",
                    type_to_text(&rt).as_str(),
                );
                self.report(ErrorCode::E2011, message, span);
                return None;
            }
        } else if (arithmetic || comparison) && Self::is_numeric(&lt) && Self::is_numeric(&rt) {
            let common = self.promote_numeric_types(&lt, &rt);
            let common2 = self.promote_numeric_types(&lt, &rt);
            (common, common2)
        } else {
            (lt, rt)
        };
        if !self.are_compatible(&left_type, &right_type) {
            let found = cat3(type_to_text(&left_type).as_str(), " and ", type_to_text(&right_type).as_str());
            let (code, message) = if logical {
                (
                    ErrorCode::E2012,
                    cat4(
                        "Logical operator '",
                        op.name(),
                        "' requires boolean operands types, found ",
                        found.as_str(),
                    ),
                )
            } else if arithmetic {
                (
                    ErrorCode::E2013,
                    cat4("Binary operator '", op.name(), "' requires numeric operands, found ", found.as_str()),
                )
            } else if comparison {
                (
                    ErrorCode::E2014,
                    cat4("Comparison operator '", op.name(), "' requires compatible types, found ", found.as_str()),
                )
            } else {
                (ErrorCode::E2015, cat2("Type mismatch in binary operation: ", found.as_str()))
            };
            self.report(code, message, span);
            return None;
        }
        if arithmetic {
            if !Self::is_numeric(&left_type) {
                let message = cat2("Arithmetic operation not supported for ", type_to_text(&left_type).as_str());
                self.report(ErrorCode::E2016, message, left.span());
            }
            Some(left_type)
        } else if comparison {
            Some(Type::Bool)
        } else if logical {
            if !matches!(left_type, Type::Bool) {
                let message = cat2("Logical operation requires bool, found ", type_to_text(&left_type).as_str());
                self.report(ErrorCode::E2017, message, left.span());
            }
            Some(Type::Bool)
        } else {
            Some(left_type)
        }
    }

    /// Checks a unary operation and returns its type, if it has one.
    pub(crate) fn visit_unary_expr(&mut self, op: UnaryOp, expr: &Expr, _span: &SourceSpan) -> (r: Option<Type>)
        requires
            old(self)@.table.wf(),
        ensures
            (final(self)@, opt_type_view(r)) == check_unary(old(self)@, op, *expr),
            final(self)@.table.wf(),
        decreases expr_size(*expr), 1int,
    {
        let expr_type = match self.visit_expr(expr) {
            Some(t) => t,
            None => {
                return None;
            },
        };
        match op {
            UnaryOp::Negate => {
                if Self::is_numeric(&expr_type) {
                    Some(expr_type)
                } else {
                    let message = cat2("Negation requires numeric type operand, found ", type_to_text(&expr_type).as_str());
                    self.report(ErrorCode::E2018, message, expr.span());
                    None
                }
            },
            UnaryOp::Not => {
                if matches!(expr_type, Type::Bool) {
                    Some(Type::Bool)
                } else {
                    let message = cat2(
                        "Logical not requires boolean type operand, found ",
                        type_to_text(&expr_type).as_str(),
                    );
                    self.report(ErrorCode::E2019, message, expr.span());
                    None
                }
            },
            UnaryOp::BitwiseNot => {
                if Self::is_integer_type(&expr_type) {
                    Some(expr_type)
                } else {
                    let message = cat2("Bitwise not requires integer operand type, found ", type_to_text(&expr_type).as_str());
                    self.report(ErrorCode::E2018, message, expr.span());
                    None
                }
            },
            UnaryOp::Increment | UnaryOp::Decrement => {
                match self.immutable_target(expr) {
                    Some(name) => {
                        let message = immutable_text(name);
                        self.report(ErrorCode::E2024, message, expr.span());
                        return None;
                    },
                    None => {},
                }
                if Self::is_numeric(&expr_type) {
                    Some(expr_type)
                } else {
                    let message = cat2(
                        "Increment/decrement requires numeric operand, found ",
                        type_to_text(&expr_type).as_str(),
                    );
                    self.report(ErrorCode::E2018, message, expr.span());
                    None
                }
            },
        }
    }

    /// Checks an array literal and returns its type, if it has one.
    pub(crate) fn visit_array_literal(&mut self, elements: &Vec<Expr>, span: &SourceSpan) -> (r: Option<Type>)
        requires
            old(self)@.table.wf(),
        ensures
            (final(self)@, opt_type_view(r)) == check_array_literal(old(self)@, elements@, span@),
            final(self)@.table.wf(),
        decreases exprs_size(elements@), 1int,
    {
        if elements.len() == 0 {
            let message = String::from_str("Array literals must have at least one element for type inference");
            self.report(ErrorCode::E2020, message, span);
            return None;
        }
        let len = elements.len();
        let mut element_type: Option<Type> = None;
        let mut i: usize = 0;
        assert(elements@.subrange(0, len as int) =~= elements@);
        while i < len
            invariant
                i <= len == elements@.len(),
                self@.table.wf(),
                check_elements(old(self)@, elements@, None) == check_elements(
                    self@,
                    elements@.subrange(i as int, len as int),
                    opt_type_view(element_type),
                ),
            decreases len - i,
        {
            proof {
                lemma_exprs_size(elements@, i as int);
                let rest = elements@.subrange(i as int, len as int);
                assert(rest[0] == elements@[i as int]);
                assert(rest.subrange(1, rest.len() as int) =~= elements@.subrange(i + 1, len as int));
            }
            let element = &elements[i];
            match self.visit_expr(element) {
                Some(ty) => {
                    match &element_type {
                        Some(prev) => {
                            if !self.is_same_type(prev, &ty) {
                                let message = cat4(
                                    "All array elements must be same type, found mixed types: ",
                                    type_to_text(prev).as_str(),
                                    " and ",
                                    type_to_text(&ty).as_str(),
                                );
                                self.report(ErrorCode::E2021, message, element.span());
                            }
                        },
                        None => {
                            element_type = Some(ty);
                        },
                    }
                },
                None => {},
            }
            i = i + 1;
        }
        proof {
            assert(elements@.subrange(len as int, len as int).len() == 0);
        }
        match element_type {
            Some(ty) => {
                let size = Expr::Literal {
                    value: LiteralValue::Numeric(Number::Integer(len as i64)),
                    span: span.clone(),
                    ty: None,
                };
                Some(Type::Array { element_type: Box::new(ty), size: Box::new(size) })
            },
            None => None,
        }
    }

    /// Checks a variable read and returns the variable's type.
    pub(crate) fn visit_variable(&mut self, name: &str, span: &SourceSpan) -> (r: Option<Type>)
        ensures
            (final(self)@, opt_type_view(r)) == check_variable(old(self)@, name@, span@),
    {
        match self.symbol_table.lookup_variable(name) {
            Some(var) => Some(var.ty),
            None => {
                if self.symbol_table.lookup_function(name).is_some() {
                    let message = cat3("'", name, "' is a function and cannot be used as variable");
                    self.report(ErrorCode::E2022, message, span);
                } else {
                    let message = cat3("Undefined variable '", name, "'");
                    self.report(ErrorCode::E2023, message, span);
                }
                None
            },
        }
    }

    /// Checks an assignment and returns the target's type, if it has one.
    pub(crate) fn visit_assign(&mut self, target: &Expr, value: &Expr, _span: &SourceSpan) -> (r: Option<Type>)
        requires
            old(self)@.table.wf(),
        ensures
            (final(self)@, opt_type_view(r)) == check_assign(old(self)@, *target, *value),
            final(self)@.table.wf(),
        decreases expr_size(*target) + expr_size(*value), 1int,
    {
        let target_type = match target {
            Expr::Variable { name, span, .. } => match self.symbol_table.lookup_variable(name.as_str()) {
                Some(var) => {
                    if var.mutable {
                        Some(var.ty)
                    } else {
                        let message = immutable_text(name.as_str());
                        self.report(ErrorCode::E2024, message, span);
                        None
                    }
                },
                None => {
                    let message = cat3("Undefined variable '", name.as_str(), "'");
                    self.report(ErrorCode::E2025, message, span);
                    None
                },
            },
            Expr::ArrayAccess { array, index, span, .. } => {
                let mut writable = true;
                match self.immutable_target(array) {
                    Some(name) => {
                        let message = immutable_text(name);
                        self.report(ErrorCode::E2024, message, span);
                        writable = false;
                    },
                    None => {},
                }
                let access_type = self.visit_array_access(array, index, span);
                if writable {
                    access_type
                } else {
                    None
                }
            },
            _ => None,
        };
        let value_type = self.visit_expr(value);
        let (t, v) = match (target_type, value_type) {
            (Some(t), Some(v)) => (t, v),
            _ => {
                return None;
            },
        };
        if !self.is_assignable(&v, &t) {
            let message = match target {
                Expr::ArrayAccess { .. } => cat4(
                    "Cannot assign ",
                    type_to_text(&v).as_str(),
                    " to array element of type ",
                    type_to_text(&t).as_str(),
                ),
                _ => cat4("Cannot assign ", type_to_text(&v).as_str(), " to ", type_to_text(&t).as_str()),
            };
            self.report(ErrorCode::E2002, message, value.span());
        }
        Some(t)
    }

    /// Checks each expression in order, dropping the types.
    pub(crate) fn visit_all(&mut self, exprs: &Vec<Expr>)
        requires
            old(self)@.table.wf(),
        ensures
            final(self)@ == check_all(old(self)@, exprs@),
            final(self)@.table.wf(),
        decreases exprs_size(exprs@), 1int,
    {
        let mut i: usize = 0;
        assert(exprs@.subrange(0, exprs@.len() as int) =~= exprs@);
        while i < exprs.len()
            invariant
                i <= exprs@.len(),
                self@.table.wf(),
                check_all(old(self)@, exprs@) == check_all(self@, exprs@.subrange(i as int, exprs@.len() as int)),
            decreases exprs.len() - i,
        {
            proof {
                lemma_exprs_size(exprs@, i as int);
                let rest = exprs@.subrange(i as int, exprs@.len() as int);
                assert(rest[0] == exprs@[i as int]);
                assert(rest.subrange(1, rest.len() as int) =~= exprs@.subrange(i + 1, exprs@.len() as int));
            }
            self.visit_expr(&exprs[i]);
            i = i + 1;
        }
    }

    /// Checks a call and returns the called function's return type.
    pub(crate) fn visit_call(&mut self, callee: &Expr, arguments: &Vec<Expr>, span: &SourceSpan) -> (r: Option<Type>)
        requires
            old(self)@.table.wf(),
        ensures
            (final(self)@, opt_type_view(r)) == check_call(old(self)@, *callee, arguments@, span@),
            final(self)@.table.wf(),
        decreases expr_size(*callee) + exprs_size(arguments@), 1int,
    {
        let callee_name = match callee {
            Expr::Variable { name, .. } => name,
            _ => {
                let message = String::from_str("Callee must be a function name");
                self.report(ErrorCode::E2026, message, callee.span());
                self.visit_all(arguments);
                return None;
            },
        };
        let func = match self.symbol_table.lookup_function(callee_name.as_str()) {
            Some(f) => f,
            None => {
                let message = cat3("Undefined function: '", callee_name.as_str(), "'");
                self.report(ErrorCode::E2027, message, callee.span());
                self.visit_all(arguments);
                return None;
            },
        };
        if arguments.len() != func.parameters.len() {
            let message = cat6(
                "Function '",
                callee_name.as_str(),
                "' expects ",
                u64_text(func.parameters.len() as u64).as_str(),
                " arguments, found ",
                u64_text(arguments.len() as u64).as_str(),
            );
            self.report(ErrorCode::E2028, message, span);
        }
        let ghost params = func@.parameters;
        let n = if arguments.len() < func.parameters.len() {
            arguments.len()
        } else {
            func.parameters.len()
        };
        let mut i: usize = 0;
        assert(arguments@.subrange(0, arguments@.len() as int) =~= arguments@);
        assert(params.subrange(0, params.len() as int) =~= params);
        while i < n
            invariant
                i <= n,
                n == arguments@.len() || n == func.parameters@.len(),
                n <= arguments@.len() && n <= func.parameters@.len(),
                params == func@.parameters,
                self@.table.wf(),
                check_call(old(self)@, *callee, arguments@, span@).0 == check_arguments(
                    self@,
                    arguments@.subrange(i as int, arguments@.len() as int),
                    params.subrange(i as int, params.len() as int),
                    (i + 1) as nat,
                ),
            decreases n - i,
        {
            proof {
                lemma_exprs_size(arguments@, i as int);
                let rest = arguments@.subrange(i as int, arguments@.len() as int);
                let prest = params.subrange(i as int, params.len() as int);
                assert(rest[0] == arguments@[i as int]);
                assert(prest[0] == func.parameters@[i as int]@);
                assert(rest.subrange(1, rest.len() as int) =~= arguments@.subrange(i + 1, arguments@.len() as int));
                assert(prest.subrange(1, prest.len() as int) =~= params.subrange(i + 1, params.len() as int));
            }
            let arg = &arguments[i];
            match self.visit_expr(arg) {
                Some(arg_type) => {
                    let expected = &func.parameters[i].type_annotation;
                    if !self.is_assignable(&arg_type, expected) {
                        let message = cat6(
                            "Argument ",
                            u64_text((i + 1) as u64).as_str(),
                            " type mismatch: expected ",
                            type_to_text(expected).as_str(),
                            ", found ",
                            type_to_text(&arg_type).as_str(),
                        );
                        self.report(ErrorCode::E2029, message, arg.span());
                    }
                },
                None => {},
            }
            i = i + 1;
        }
        proof {
            assert(arguments@.subrange(i as int, arguments@.len() as int).len() == 0 || params.subrange(
                i as int,
                params.len() as int,
            ).len() == 0);
        }
        Some(func.return_type)
    }

    /// Checks an element access and returns the element type, if it has one.
    pub(crate) fn visit_array_access(&mut self, array: &Expr, index: &Expr, span: &SourceSpan) -> (r: Option<Type>)
        requires
            old(self)@.table.wf(),
        ensures
            (final(self)@, opt_type_view(r)) == check_array_access(old(self)@, *array, *index, span@),
            final(self)@.table.wf(),
        decreases expr_size(*array) + expr_size(*index), 1int,
    {
        let array_type = self.visit_expr(array);
        let index_type = self.visit_expr(index);
        let (at, it) = match (array_type, index_type) {
            (Some(a), Some(i)) => (a, i),
            _ => {
                return None;
            },
        };
        if !Self::is_integer_type(&it) {
            let message = cat2("Array index must be integer type, found ", type_to_text(&it).as_str());
            self.report(ErrorCode::E2030, message, index.span());
            return None;
        }
        match at {
            Type::Array { element_type, .. } | Type::Vector { element_type } => Some(*element_type),
            other => {
                let message = cat2("Cannot index into non-array type ", type_to_text(&other).as_str());
                self.report(ErrorCode::E2031, message, array.span());
                None
            },
        }
    }
}

} // verus!
