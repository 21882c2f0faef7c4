//! Type checking of statements.
use vstd::prelude::*;
use crate::error::error_code::ErrorCode;
use crate::location::source_span::SourceSpan;
use crate::semantic::checker_state::{else_size, init_size, lemma_stmts_size, stmt_size, stmts_size};
use crate::semantic::stmt_rules::{
    check_bindings, check_block, check_condition, check_for, check_function, check_if, check_return, check_stmt,
    check_stmts, check_while, declare_params,
};
use crate::semantic::symbol_table::{FunctionSymbol, ScopeKind, Symbol, VariableSymbol};
use crate::semantic::type_checker::TypeChecker;
use crate::syntax::ast::model::{clone_type, TypeView};
use crate::syntax::ast::parameter::clone_params;
use crate::syntax::ast::type_text::type_to_text;
use crate::syntax::ast::{ElseBranch, Expr, Parameter, Stmt, Type, VarBinding};
use crate::text::{cat2, cat4, cat5};

verus! {

impl TypeChecker {
    /// Checks statements in order.
    pub fn visit_statements(&mut self, statements: &[Stmt])
        requires
            old(self)@.table.wf(),
        ensures
            final(self)@ == check_stmts(old(self)@, statements@),
            final(self)@.table.wf(),
        decreases stmts_size(statements@), 1int,
    {
        let mut i: usize = 0;
        assert(statements@.subrange(0, statements@.len() as int) =~= statements@);
        while i < statements.len()
            invariant
                i <= statements@.len(),
                self@.table.wf(),
                check_stmts(old(self)@, statements@) == check_stmts(
                    self@,
                    statements@.subrange(i as int, statements@.len() as int),
                ),
            decreases statements.len() - i,
        {
            proof {
                lemma_stmts_size(statements@, i as int);
                let rest = statements@.subrange(i as int, statements@.len() as int);
                assert(rest[0] == statements@[i as int]);
                assert(rest.subrange(1, rest.len() as int) =~= statements@.subrange(
                    i + 1,
                    statements@.len() as int,
                ));
            }
            self.visit_stmt(&statements[i]);
            i = i + 1;
        }
    }

    /// Checks one statement.
    fn visit_stmt(&mut self, stmt: &Stmt)
        requires
            old(self)@.table.wf(),
        ensures
            final(self)@ == check_stmt(old(self)@, *stmt),
            final(self)@.table.wf(),
        decreases stmt_size(*stmt), 0int,
    {
        match stmt {
            Stmt::Expression { expr } => {
                self.visit_expr(expr);
            },
            Stmt::VarDeclaration { bindings, type_annotation, is_mutable, span } => {
                self.visit_var_declaration(bindings, type_annotation, *is_mutable, span);
            },
            Stmt::Function { name, parameters, return_type, body, span } => {
                self.visit_function(name.as_str(), parameters, return_type, body, span);
            },
            Stmt::If { condition, then_branch, else_branch, span } => {
                self.visit_if(condition, then_branch, else_branch, span);
            },
            Stmt::While { condition, body, span } => {
                self.visit_while(condition, body, span);
            },
            Stmt::For { initializer, condition, increment, body, span } => {
                self.visit_for(initializer, condition, increment, body, span);
            },
            Stmt::Block { statements, span } => self.visit_block(statements, span),
            Stmt::Return { value, span } => self.visit_return(value, span),
            Stmt::Break { span } => self.visit_break(span),
            Stmt::Continue { span } => self.visit_continue(span),
            Stmt::MainFunction { body, span } => {
                self.visit_main_function(body, span);
            },
        }
    }

    /// Checks the variables of a declaration and declares them.
    fn visit_var_declaration(
        &mut self,
        bindings: &Vec<VarBinding>,
        type_annotation: &Type,
        is_mutable: bool,
        span: &SourceSpan,
    )
        requires
            old(self)@.table.wf(),
        ensures
            final(self)@ == check_bindings(old(self)@, bindings@, type_annotation@, is_mutable, span@),
            final(self)@.table.wf(),
    {
        let mut i: usize = 0;
        assert(bindings@.subrange(0, bindings@.len() as int) =~= bindings@);
        while i < bindings.len()
            invariant
                i <= bindings@.len(),
                self@.table.wf(),
                check_bindings(old(self)@, bindings@, type_annotation@, is_mutable, span@) == check_bindings(
                    self@,
                    bindings@.subrange(i as int, bindings@.len() as int),
                    type_annotation@,
                    is_mutable,
                    span@,
                ),
            decreases bindings.len() - i,
        {
            proof {
                let rest = bindings@.subrange(i as int, bindings@.len() as int);
                assert(rest[0] == bindings@[i as int]);
                assert(rest.subrange(1, rest.len() as int) =~= bindings@.subrange(i + 1, bindings@.len() as int));
            }
            let binding = &bindings[i];
            match &binding.initializer {
                Some(init_expr) => {
                    match self.visit_expr(init_expr) {
                        Some(init_type) => {
                            if !self.is_assignable(&init_type, type_annotation) {
                                let message = cat5(
                                    "Cannot assign ",
                                    type_to_text(&init_type).as_str(),
                                    " to ",
                                    type_to_text(type_annotation).as_str(),
                                    " for variable '",
                                );
                                let message = cat2(message.as_str(), binding.name.as_str());
                                let message = cat2(message.as_str(), "'");
                                self.report(ErrorCode::E2002, message, init_expr.span());
                            }
                        },
                        None => {},
                    }
                },
                None => {},
            }
            let symbol = Symbol::Variable(
                VariableSymbol {
                    name: binding.name.clone(),
                    ty: clone_type(type_annotation),
                    mutable: is_mutable,
                    defined_at: span.clone(),
                    last_assignment: None,
                },
            );
            self.declare_symbol(binding.name.as_str(), symbol, span);
            i = i + 1;
        }
    }

    /// Checks a function: declares it, then checks its parameters and body
    /// in a function scope under its return type.
    fn visit_function(
        &mut self,
        name: &str,
        parameters: &Vec<Parameter>,
        return_type: &Type,
        body: &Stmt,
        span: &SourceSpan,
    )
        requires
            old(self)@.table.wf(),
        ensures
            final(self)@ == check_function(old(self)@, name@, parameters@, return_type@, *body, span@),
            final(self)@.table.wf(),
        decreases stmt_size(*body), 1int,
    {
        let func_symbol = FunctionSymbol {
            name: String::from_str(name),
            parameters: clone_params(parameters),
            return_type: clone_type(return_type),
            defined_at: span.clone(),
        };
        self.declare_symbol(name, Symbol::Function(func_symbol), span);
        self.symbol_table.push_scope(ScopeKind::Function, Some(span.clone()));
        let ghost returns_before = self@.returns;
        self.return_type_stack.push(clone_type(return_type));
        proof {
            assert(self@.returns =~= returns_before.push(return_type@));
        }
        let ghost s2 = self@;
        let mut i: usize = 0;
        assert(parameters@.subrange(0, parameters@.len() as int) =~= parameters@);
        while i < parameters.len()
            invariant
                i <= parameters@.len(),
                self@.table.wf(),
                declare_params(s2, parameters@) == declare_params(
                    self@,
                    parameters@.subrange(i as int, parameters@.len() as int),
                ),
            decreases parameters.len() - i,
        {
            proof {
                let rest = parameters@.subrange(i as int, parameters@.len() as int);
                assert(rest[0] == parameters@[i as int]);
                assert(rest.subrange(1, rest.len() as int) =~= parameters@.subrange(
                    i + 1,
                    parameters@.len() as int,
                ));
            }
            let param = &parameters[i];
            let symbol = Symbol::Variable(
                VariableSymbol {
                    name: param.name.clone(),
                    ty: clone_type(&param.type_annotation),
                    mutable: true,
                    defined_at: param.span.clone(),
                    last_assignment: None,
                },
            );
            self.declare_symbol(param.name.as_str(), symbol, &param.span);
            i = i + 1;
        }
        match body {
            Stmt::Block { statements, .. } => self.visit_statements(statements.as_slice()),
            _ => self.visit_stmt(body),
        }
        if !matches!(return_type, Type::Void) && !self.function_has_return(body) {
            let message = cat5(
                "Function '",
                name,
                "' may not return value in all code paths (expected return type: ",
                type_to_text(return_type).as_str(),
                ")",
            );
            self.report(ErrorCode::E2003, message, span);
        }
        let ghost returns_after = self@.returns;
        self.return_type_stack.pop();
        proof {
            if returns_after.len() > 0 {
                assert(self@.returns =~= returns_after.drop_last());
            } else {
                assert(self@.returns =~= returns_after);
            }
        }
        self.symbol_table.pop_scope();
    }

    /// Checks the program entry point: a function `main` without parameters
    /// returning `void`.
    fn visit_main_function(&mut self, body: &Stmt, span: &SourceSpan)
        requires
            old(self)@.table.wf(),
        ensures
            final(self)@ == check_function(old(self)@, "main"@, Seq::empty(), TypeView::Void, *body, span@),
            final(self)@.table.wf(),
        decreases stmt_size(*body), 2int,
    {
        let no_parameters: Vec<Parameter> = Vec::new();
        self.visit_function("main", &no_parameters, &Type::Void, body, span);
    }

    /// Checks that a condition of `construct` is boolean.
    fn check_condition(&mut self, condition: &Expr, construct: &str)
        requires
            old(self)@.table.wf(),
        ensures
            final(self)@ == check_condition(old(self)@, *condition, construct@),
            final(self)@.table.wf(),
    {
        match self.visit_expr(condition) {
            Some(cond_type) => {
                if !matches!(cond_type, Type::Bool) {
                    let message = cat4(
                        "Condition in ",
                        construct,
                        " must be boolean, found ",
                        type_to_text(&cond_type).as_str(),
                    );
                    self.report(ErrorCode::E2004, message, condition.span());
                }
            },
            None => {},
        }
    }

    /// Checks an `if` statement.
    fn visit_if(&mut self, condition: &Expr, then_branch: &Stmt, else_branch: &ElseBranch, _span: &SourceSpan)
        requires
            old(self)@.table.wf(),
        ensures
            final(self)@ == check_if(old(self)@, *condition, *then_branch, *else_branch),
            final(self)@.table.wf(),
        decreases stmt_size(*then_branch) + else_size(*else_branch), 1int,
    {
        self.check_condition(condition, "'if' statement");
        self.visit_stmt(then_branch);
        match else_branch {
            ElseBranch::Absent => {},
            ElseBranch::Block(stmt) | ElseBranch::ElseIf(stmt) => {
                self.visit_stmt(stmt);
            },
        }
    }

    /// Checks a `while` loop.
    fn visit_while(&mut self, condition: &Expr, body: &Stmt, _span: &SourceSpan)
        requires
            old(self)@.table.wf(),
        ensures
            final(self)@ == check_while(old(self)@, *condition, *body),
            final(self)@.table.wf(),
        decreases stmt_size(*body), 1int,
    {
        self.check_condition(condition, "'while' loop");
        let was_in_loop = self.in_loop;
        self.in_loop = true;
        self.symbol_table.push_scope(ScopeKind::Block, Some(condition.span().clone()));
        self.visit_stmt(body);
        self.symbol_table.pop_scope();
        self.in_loop = was_in_loop;
    }

    /// Checks a `for` loop.
    fn visit_for(
        &mut self,
        initializer: &Option<Box<Stmt>>,
        condition: &Option<Expr>,
        increment: &Option<Expr>,
        body: &Stmt,
        span: &SourceSpan,
    )
        requires
            old(self)@.table.wf(),
        ensures
            final(self)@ == check_for(old(self)@, *initializer, *condition, *increment, *body, span@),
            final(self)@.table.wf(),
        decreases init_size(*initializer) + stmt_size(*body), 1int,
    {
        self.symbol_table.push_scope(ScopeKind::Block, Some(span.clone()));
        match initializer {
            Some(init) => self.visit_stmt(init),
            None => {},
        }
        match condition {
            Some(cond) => self.check_condition(cond, "For loop"),
            None => {},
        }
        match increment {
            Some(inc) => {
                self.visit_expr(inc);
            },
            None => {},
        }
        let was_in_loop = self.in_loop;
        self.in_loop = true;
        self.visit_stmt(body);
        self.in_loop = was_in_loop;
        self.symbol_table.pop_scope();
    }

    /// Checks a block in a new block scope.
    fn visit_block(&mut self, statements: &Vec<Stmt>, span: &SourceSpan)
        requires
            old(self)@.table.wf(),
        ensures
            final(self)@ == check_block(old(self)@, statements@, span@),
            final(self)@.table.wf(),
        decreases stmts_size(statements@), 2int,
    {
        self.symbol_table.push_scope(ScopeKind::Block, Some(span.clone()));
        self.visit_statements(statements.as_slice());
        self.symbol_table.pop_scope();
    }

    /// Checks a return statement against the innermost function.
    fn visit_return(&mut self, value: &Option<Expr>, span: &SourceSpan)
        requires
            old(self)@.table.wf(),
        ensures
            final(self)@ == check_return(old(self)@, *value, span@),
            final(self)@.table.wf(),
    {
        let depth = self.return_type_stack.len();
        if depth == 0 {
            let message = String::from_str("Return statement must be inside function body");
            self.report(ErrorCode::E2005, message, span);
            return;
        }
        let expected_type = clone_type(&self.return_type_stack[depth - 1]);
        proof {
            assert(expected_type@ == self@.returns.last());
        }
        match value {
            Some(expr) => {
                if matches!(expected_type, Type::Void) {
                    let message = String::from_str("Cannot return a value from void function");
                    self.report(ErrorCode::E2006, message, expr.span());
                } else {
                    match self.visit_expr(expr) {
                        Some(actual_type) => {
                            if !self.is_assignable(&actual_type, &expected_type) {
                                let message = cat4(
                                    "Return type mismatch: expected ",
                                    type_to_text(&expected_type).as_str(),
                                    " found ",
                                    type_to_text(&actual_type).as_str(),
                                );
                                self.report(ErrorCode::E2007, message, expr.span());
                            }
                        },
                        None => {},
                    }
                }
            },
            None => {
                if !matches!(expected_type, Type::Void) {
                    let message = cat2(
                        "Return type mismatch, expected ",
                        type_to_text(&expected_type).as_str(),
                    );
                    let message = cat2(message.as_str(), " found Void");
                    self.report(ErrorCode::E2008, message, span);
                }
            },
        }
    }

    /// Checks that a `break` is inside a loop.
    fn visit_break(&mut self, span: &SourceSpan)
        ensures
            final(self)@ == check_stmt(old(self)@, Stmt::Break { span: *span }),
    {
        if !self.in_loop {
            let message = String::from_str("Break statement outside loop");
            self.report(ErrorCode::E2009, message, span);
        }
    }

    /// Checks that a `continue` is inside a loop.
    fn visit_continue(&mut self, span: &SourceSpan)
        ensures
            final(self)@ == check_stmt(old(self)@, Stmt::Continue { span: *span }),
    {
        if !self.in_loop {
            let message = String::from_str("Continue statement outside loop");
            self.report(ErrorCode::E2010, message, span);
        }
    }
}

} // verus!
