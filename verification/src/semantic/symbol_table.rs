//! Lexically scoped symbol table used by the type checker.
use vstd::prelude::*;
use crate::error::error_code::ErrorCode;
use crate::error::errors::{CompileError, CompileErrorView, ErrorPhase};
use crate::location::source_span::{span_text, SourceSpan, SpanView};
use crate::syntax::ast::model::{clone_type, TypeView};
use crate::syntax::ast::parameter::{clone_params, params_view, ParameterView};
use crate::syntax::ast::{Parameter, Type};

verus! {

/// A symbol: a variable, a function, or a type alias.
#[derive(Debug, PartialEq, Eq)]
pub enum Symbol {
    /// A variable symbol with associated metadata.
    Variable(VariableSymbol),
    /// A function symbol with signature information.
    Function(FunctionSymbol),
    /// A type alias mapping to an underlying type.
    TypeAlias(Type),
}

/// Metadata for a variable symbol.
#[derive(Debug, PartialEq, Eq)]
pub struct VariableSymbol {
    /// The name of the variable.
    pub name: String,
    /// The type of the variable.
    pub ty: Type,
    /// Whether the variable is mutable.
    pub mutable: bool,
    /// Source location where the variable was defined.
    pub defined_at: SourceSpan,
    /// Source location of the last assignment (if any).
    pub last_assignment: Option<SourceSpan>,
}

/// Metadata for a function symbol.
#[derive(Debug, PartialEq, Eq)]
pub struct FunctionSymbol {
    /// The name of the function.
    pub name: String,
    /// The function's parameters with their types.
    pub parameters: Vec<Parameter>,
    /// The return type of the function.
    pub return_type: Type,
    /// Source location where the function was defined.
    pub defined_at: SourceSpan,
}

/// The different kinds of scopes in the program.
#[derive(Debug, Clone, Copy, PartialEq, Eq, Structural)]
pub enum ScopeKind {
    /// The global scope containing top-level declarations.
    Global,
    /// A function scope containing parameters and local variables.
    Function,
    /// A block scope (inside if, while, for, or explicit blocks).
    Block,
}

/// The name of a scope kind, as it is printed in diagnostics.
pub open spec fn scope_kind_name(k: ScopeKind) -> Seq<char> {
    match k {
        ScopeKind::Global => "Global"@,
        ScopeKind::Function => "Function"@,
        ScopeKind::Block => "Block"@,
    }
}

/// The mathematical value of a [`VariableSymbol`].
pub struct VariableView {
    pub name: Seq<char>,
    pub ty: TypeView,
    pub mutable: bool,
    pub defined_at: SpanView,
    pub last_assignment: Option<SpanView>,
}

/// The mathematical value of a [`FunctionSymbol`].
pub struct FunctionView {
    pub name: Seq<char>,
    pub parameters: Seq<ParameterView>,
    pub return_type: TypeView,
    pub defined_at: SpanView,
}

/// The mathematical value of a [`Symbol`].
pub enum SymbolView {
    Variable(VariableView),
    Function(FunctionView),
    TypeAlias(TypeView),
}

pub open spec fn opt_span_view(o: Option<SourceSpan>) -> Option<SpanView> {
    match o {
        Some(s) => Some(s@),
        None => None,
    }
}

impl View for VariableSymbol {
    type V = VariableView;

    open spec fn view(&self) -> VariableView {
        VariableView {
            name: self.name@,
            ty: self.ty@,
            mutable: self.mutable,
            defined_at: self.defined_at@,
            last_assignment: opt_span_view(self.last_assignment),
        }
    }
}

impl View for FunctionSymbol {
    type V = FunctionView;

    open spec fn view(&self) -> FunctionView {
        FunctionView {
            name: self.name@,
            parameters: params_view(self.parameters@),
            return_type: self.return_type@,
            defined_at: self.defined_at@,
        }
    }
}

impl View for Symbol {
    type V = SymbolView;

    open spec fn view(&self) -> SymbolView {
        match self {
            Symbol::Variable(v) => SymbolView::Variable(v@),
            Symbol::Function(f) => SymbolView::Function(f@),
            Symbol::TypeAlias(t) => SymbolView::TypeAlias(t@),
        }
    }
}

fn clone_opt_span(o: &Option<SourceSpan>) -> (r: Option<SourceSpan>)
    ensures
        opt_span_view(r) == opt_span_view(*o),
{
    match o {
        Some(s) => Some(s.clone()),
        None => None,
    }
}

impl Clone for VariableSymbol {
    fn clone(&self) -> (r: Self)
        ensures
            r@ == self@,
    {
        VariableSymbol {
            name: self.name.clone(),
            ty: clone_type(&self.ty),
            mutable: self.mutable,
            defined_at: self.defined_at.clone(),
            last_assignment: clone_opt_span(&self.last_assignment),
        }
    }
}

impl Clone for FunctionSymbol {
    fn clone(&self) -> (r: Self)
        ensures
            r@ == self@,
    {
        FunctionSymbol {
            name: self.name.clone(),
            parameters: clone_params(&self.parameters),
            return_type: clone_type(&self.return_type),
            defined_at: self.defined_at.clone(),
        }
    }
}

impl Clone for Symbol {
    fn clone(&self) -> (r: Self)
        ensures
            r@ == self@,
    {
        match self {
            Symbol::Variable(v) => Symbol::Variable(v.clone()),
            Symbol::Function(f) => Symbol::Function(f.clone()),
            Symbol::TypeAlias(t) => Symbol::TypeAlias(clone_type(t)),
        }
    }
}

/// The symbol bound to `name` among `entries`, searching from the most recent binding.
pub open spec fn entries_lookup(entries: Seq<(Seq<char>, SymbolView)>, name: Seq<char>) -> Option<SymbolView>
    decreases entries.len(),
{
    if entries.len() == 0 {
        None
    } else if entries.last().0 == name {
        Some(entries.last().1)
    } else {
        entries_lookup(entries.drop_last(), name)
    }
}

/// No name is bound twice.
pub open spec fn entries_distinct(entries: Seq<(Seq<char>, SymbolView)>) -> bool {
    forall|i: int, j: int| 0 <= i < j < entries.len() ==> entries[i].0 != entries[j].0
}

/// The mathematical value of a [`Scope`]: its kind, its bindings in
/// declaration order, and where it was opened.
pub struct ScopeView {
    pub kind: ScopeKind,
    pub entries: Seq<(Seq<char>, SymbolView)>,
    pub defined_at: Option<SpanView>,
}

/// A single scope of the symbol table.
#[derive(Debug, PartialEq, Eq)]
pub struct Scope {
    kind: ScopeKind,
    symbols: Vec<(String, Symbol)>,
    defined_at: Option<SourceSpan>,
}

pub open spec fn entries_view(s: Seq<(String, Symbol)>) -> Seq<(Seq<char>, SymbolView)> {
    s.map_values(|e: (String, Symbol)| (e.0@, e.1@))
}

impl View for Scope {
    type V = ScopeView;

    closed spec fn view(&self) -> ScopeView {
        ScopeView {
            kind: self.kind,
            entries: entries_view(self.symbols@),
            defined_at: opt_span_view(self.defined_at),
        }
    }
}

impl Scope {
    /// An empty scope.
    fn new(kind: ScopeKind, defined_at: Option<SourceSpan>) -> (r: Self)
        ensures
            r@ == (ScopeView { kind, entries: Seq::empty(), defined_at: opt_span_view(defined_at) }),
    {
        let r = Self { kind, symbols: Vec::new(), defined_at };
        assert(r@.entries =~= Seq::<(Seq<char>, SymbolView)>::empty());
        r
    }

    /// The kind of this scope.
    pub fn kind(&self) -> (r: ScopeKind)
        ensures
            r == self@.kind,
    {
        self.kind
    }

    /// Where this scope was opened.
    pub fn defined_at(&self) -> (r: Option<&SourceSpan>)
        ensures
            match r {
                Some(s) => self@.defined_at == Some(s@),
                None => self@.defined_at is None,
            },
    {
        match &self.defined_at {
            Some(s) => Some(s),
            None => None,
        }
    }

    /// The symbol bound to `name` in this scope only.
    pub fn symbol(&self, name: &str) -> (r: Option<&Symbol>)
        ensures
            match r {
                Some(s) => entries_lookup(self@.entries, name@) == Some(s@),
                None => entries_lookup(self@.entries, name@) is None,
            },
    {
        let key = name.to_owned();
        let mut i = self.symbols.len();
        let ghost all = self@.entries;
        assert(all.take(i as int) =~= all);
        while i > 0
            invariant
                i <= self.symbols@.len(),
                all == entries_view(self.symbols@),
                key@ == name@,
                entries_lookup(all.take(i as int), name@) == entries_lookup(all, name@),
            decreases i,
        {
            proof {
                assert(all.take(i as int).drop_last() =~= all.take(i - 1));
                assert(all.take(i as int).last() == all[i - 1]);
            }
            if self.symbols[i - 1].0 == key {
                return Some(&self.symbols[i - 1].1);
            }
            i = i - 1;
        }
        None
    }

    /// Whether `name` is bound in this scope only.
    pub fn contains(&self, name: &str) -> (r: bool)
        ensures
            r == (entries_lookup(self@.entries, name@) is Some),
    {
        self.symbol(name).is_some()
    }

    /// Number of symbols declared directly in this scope.
    pub fn symbol_count(&self) -> (r: usize)
        ensures
            r == self@.entries.len(),
    {
        self.symbols.len()
    }

    /// Whether this scope has no symbols.
    pub fn is_empty(&self) -> (r: bool)
        ensures
            r == (self@.entries.len() == 0),
    {
        self.symbols.len() == 0
    }
}

/// The symbol bound to `name` in the innermost scope that binds it.
pub open spec fn scopes_lookup(scopes: Seq<ScopeView>, name: Seq<char>) -> Option<SymbolView>
    decreases scopes.len(),
{
    if scopes.len() == 0 {
        None
    } else {
        match entries_lookup(scopes.last().entries, name) {
            Some(s) => Some(s),
            None => scopes_lookup(scopes.drop_last(), name),
        }
    }
}

/// The mathematical value of a [`SymbolTable`].
pub struct SymbolTableView {
    pub scopes: Seq<ScopeView>,
    pub current_function: Option<FunctionView>,
}

impl SymbolTableView {
    /// A table holding only the empty global scope, outside any function.
    pub open spec fn initial() -> Self {
        SymbolTableView {
            scopes: seq![ScopeView { kind: ScopeKind::Global, entries: Seq::empty(), defined_at: None }],
            current_function: None,
        }
    }

    /// At least one scope exists and no scope binds a name twice.
    pub open spec fn wf(self) -> bool {
        &&& self.scopes.len() >= 1
        &&& forall|i: int| 0 <= i < self.scopes.len() ==> #[trigger] entries_distinct(self.scopes[i].entries)
    }

    pub open spec fn lookup(self, name: Seq<char>) -> Option<SymbolView> {
        scopes_lookup(self.scopes, name)
    }

    pub open spec fn lookup_variable(self, name: Seq<char>) -> Option<VariableView> {
        match self.lookup(name) {
            Some(SymbolView::Variable(v)) => Some(v),
            _ => None,
        }
    }

    pub open spec fn lookup_function(self, name: Seq<char>) -> Option<FunctionView> {
        match self.lookup(name) {
            Some(SymbolView::Function(f)) => Some(f),
            _ => None,
        }
    }

    /// The table with a new innermost scope.
    pub open spec fn push_scope(self, kind: ScopeKind, defined_at: Option<SpanView>) -> Self {
        SymbolTableView {
            scopes: self.scopes.push(ScopeView { kind, entries: Seq::empty(), defined_at }),
            ..self
        }
    }

    /// The table without its innermost scope; the global scope is never removed.
    pub open spec fn pop_scope(self) -> Self {
        if self.scopes.len() > 1 {
            SymbolTableView { scopes: self.scopes.drop_last(), ..self }
        } else {
            self
        }
    }

    /// The table after a successful declaration in the innermost scope.
    pub open spec fn bind(self, name: Seq<char>, sym: SymbolView) -> Self {
        let last = self.scopes.last();
        SymbolTableView {
            scopes: self.scopes.update(
                self.scopes.len() - 1,
                ScopeView { entries: last.entries.push((name, sym)), ..last },
            ),
            ..self
        }
    }

    /// The symbol already bound to `name` in the innermost scope, if any.
    pub open spec fn current_binding(self, name: Seq<char>) -> Option<SymbolView> {
        entries_lookup(self.scopes.last().entries, name)
    }
}

/// The error of declaring `name` twice in a scope of kind `kind`; the help
/// text points at the earlier declaration of a variable or function.
pub open spec fn redeclaration_error(
    name: Seq<char>,
    kind: ScopeKind,
    existing: SymbolView,
    declared_at: SpanView,
) -> CompileErrorView {
    CompileErrorView::Located {
        phase: ErrorPhase::Type,
        code: Some(ErrorCode::E2032),
        message: "Identifier '"@ + name + "' already declared in this "@ + scope_kind_name(kind) + " scope"@,
        span: declared_at,
        help: match existing {
            SymbolView::Variable(v) => Some("Previous declaration at "@ + span_text(v.defined_at)),
            SymbolView::Function(f) => Some("Previous declaration at "@ + span_text(f.defined_at)),
            SymbolView::TypeAlias(_) => None,
        },
    }
}

/// The outcome of a declaration: the new table and the error, if any.
pub open spec fn spec_declare(
    t: SymbolTableView,
    name: Seq<char>,
    sym: SymbolView,
    declared_at: SpanView,
) -> (SymbolTableView, Option<CompileErrorView>) {
    match t.current_binding(name) {
        Some(existing) => (t, Some(redeclaration_error(name, t.scopes.last().kind, existing, declared_at))),
        None => (t.bind(name, sym), None),
    }
}

/// The symbol table: a stack of scopes, innermost last, and the function
/// whose body is being analyzed, if any.
#[derive(Debug, PartialEq, Eq)]
pub struct SymbolTable {
    scopes: Vec<Scope>,
    current_function: Option<FunctionSymbol>,
}

pub open spec fn opt_function_view(o: Option<FunctionSymbol>) -> Option<FunctionView> {
    match o {
        Some(f) => Some(f@),
        None => None,
    }
}

impl View for SymbolTable {
    type V = SymbolTableView;

    closed spec fn view(&self) -> SymbolTableView {
        SymbolTableView {
            scopes: self.scopes@.map_values(|s: Scope| s@),
            current_function: opt_function_view(self.current_function),
        }
    }
}

impl SymbolTable {
    /// A table holding only the empty global scope, outside any function.
    pub fn new() -> (r: Self)
        ensures
            r@ == SymbolTableView::initial(),
            r@.wf(),
    {
        let mut scopes = Vec::new();
        scopes.push(Scope::new(ScopeKind::Global, None));
        let r = Self { scopes, current_function: None };
        assert(r@.scopes =~= seq![
            ScopeView { kind: ScopeKind::Global, entries: Seq::empty(), defined_at: None },
        ]);
        r
    }

    /// Opens a new innermost scope.
    pub fn push_scope(&mut self, kind: ScopeKind, defined_at: Option<SourceSpan>)
        requires
            old(self)@.wf(),
        ensures
            final(self)@ == old(self)@.push_scope(kind, opt_span_view(defined_at)),
            final(self)@.wf(),
    {
        let ghost before = self@;
        self.scopes.push(Scope::new(kind, defined_at));
        proof {
            assert(self@.scopes =~= before.push_scope(kind, opt_span_view(defined_at)).scopes);
            assert(entries_distinct(self@.scopes.last().entries));
            assert forall|i: int| 0 <= i < self@.scopes.len() implies #[trigger] entries_distinct(
                self@.scopes[i].entries,
            ) by {
                if i < before.scopes.len() {
                    assert(self@.scopes[i] == before.scopes[i]);
                }
            }
        }
    }

    /// Closes the innermost scope; the global scope is never closed.
    pub fn pop_scope(&mut self)
        requires
            old(self)@.wf(),
        ensures
            final(self)@ == old(self)@.pop_scope(),
            final(self)@.wf(),
    {
        let ghost before = self@;
        if self.scopes.len() > 1 {
            self.scopes.pop();
            proof {
                assert(self@.scopes =~= before.scopes.drop_last());
                assert forall|i: int| 0 <= i < self@.scopes.len() implies #[trigger] entries_distinct(
                    self@.scopes[i].entries,
                ) by {
                    assert(self@.scopes[i] == before.scopes[i]);
                }
            }
        }
    }

    /// Number of open scopes.
    pub fn scope_count(&self) -> (r: usize)
        ensures
            r == self@.scopes.len(),
    {
        self.scopes.len()
    }

    /// The innermost scope.
    pub fn current_scope(&self) -> (r: Option<&Scope>)
        ensures
            match r {
                Some(s) => self@.scopes.len() > 0 && s@ == self@.scopes.last(),
                None => self@.scopes.len() == 0,
            },
    {
        if self.scopes.len() == 0 {
            None
        } else {
            Some(&self.scopes[self.scopes.len() - 1])
        }
    }

    /// The kind of the innermost scope.
    pub fn current_scope_kind(&self) -> (r: Option<ScopeKind>)
        ensures
            match r {
                Some(k) => self@.scopes.len() > 0 && k == self@.scopes.last().kind,
                None => self@.scopes.len() == 0,
            },
    {
        match self.current_scope() {
            Some(s) => Some(s.kind()),
            None => None,
        }
    }

    /// The symbol bound to `name` in the innermost scope only.
    pub fn current_symbol(&self, name: &str) -> (r: Option<&Symbol>)
        ensures
            match r {
                Some(s) => self@.scopes.len() > 0 && self@.current_binding(name@) == Some(s@),
                None => self@.scopes.len() == 0 || self@.current_binding(name@) is None,
            },
    {
        match self.current_scope() {
            Some(s) => s.symbol(name),
            None => None,
        }
    }

    /// Whether the innermost scope binds `name`.
    pub fn contains_current(&self, name: &str) -> (r: bool)
        ensures
            r == (self@.scopes.len() > 0 && self@.current_binding(name@) is Some),
    {
        self.current_symbol(name).is_some()
    }

    /// Declares `name` in the innermost scope. A name already bound there is
    /// rejected with error `E2032` at `declared_at`, and the table is unchanged.
    pub fn declare(&mut self, name: &str, symbol: Symbol, declared_at: SourceSpan) -> (res: Result<(), CompileError>)
        requires
            old(self)@.wf(),
        ensures
            final(self)@.wf(),
            final(self)@ == spec_declare(old(self)@, name@, symbol@, declared_at@).0,
            match res {
                Ok(()) => spec_declare(old(self)@, name@, symbol@, declared_at@).1 is None,
                Err(e) => spec_declare(old(self)@, name@, symbol@, declared_at@).1 == Some(e@),
            },
    {
        let ghost before = self@;
        let last = self.scopes.len() - 1;
        let kind = self.scopes[last].kind;
        match self.scopes[last].symbol(name) {
            Some(existing) => {
                let help = match existing {
                    Symbol::Variable(v) => {
                        let mut h = String::from_str("Previous declaration at ");
                        let at = v.defined_at.to_text();
                        h.append(at.as_str());
                        Some(h)
                    },
                    Symbol::Function(f) => {
                        let mut h = String::from_str("Previous declaration at ");
                        let at = f.defined_at.to_text();
                        h.append(at.as_str());
                        Some(h)
                    },
                    Symbol::TypeAlias(_) => None,
                };
                let mut message = String::from_str("Identifier '");
                message.append(name);
                message.append("' already declared in this ");
                message.append(
                    match kind {
                        ScopeKind::Global => "Global",
                        ScopeKind::Function => "Function",
                        ScopeKind::Block => "Block",
                    },
                );
                message.append(" scope");
                Err(CompileError::TypeError { code: Some(ErrorCode::E2032), message, span: declared_at, help })
            },
            None => {
                let ghost added = (name@, symbol@);
                let ghost old_scopes = self.scopes@;
                let mut scope = self.scopes.remove(last);
                let ghost old_symbols = scope.symbols@;
                let owned = name.to_owned();
                scope.symbols.push((owned, symbol));
                proof {
                    assert(entries_view(scope.symbols@) =~= entries_view(old_symbols).push((name@, symbol@)));
                }
                self.scopes.push(scope);
                proof {
                    let after = before.bind(name@, symbol@);
                    assert(self.scopes@ =~= old_scopes.drop_last().push(scope));
                    assert forall|i: int| 0 <= i < self@.scopes.len() implies #[trigger] self@.scopes[i] == after.scopes[i] by {
                        if i < last {
                            assert(self.scopes@[i] == old_scopes[i]);
                        }
                    }
                    assert(self@.scopes =~= after.scopes);
                    let old_entries = before.scopes.last().entries;
                    assert(entries_lookup(old_entries, name@) is None);
                    lemma_lookup_none_not_bound(old_entries, name@);
                    assert forall|i: int| 0 <= i < self@.scopes.len() implies #[trigger] entries_distinct(
                        self@.scopes[i].entries,
                    ) by {
                        if i < last {
                            assert(self@.scopes[i] == before.scopes[i]);
                        } else {
                            assert(entries_distinct(before.scopes[last as int].entries));
                        }
                    }
                }
                Ok(())
            },
        }
    }

    /// The symbol bound to `name` in the innermost scope that binds it.
    pub fn lookup(&self, name: &str) -> (r: Option<Symbol>)
        ensures
            match r {
                Some(s) => self@.lookup(name@) == Some(s@),
                None => self@.lookup(name@) is None,
            },
    {
        match self.find_symbol(name) {
            Some(s) => Some(s.clone()),
            None => None,
        }
    }

    /// The innermost binding of `name`, as a reference.
    fn find_symbol(&self, name: &str) -> (r: Option<&Symbol>)
        ensures
            match r {
                Some(s) => self@.lookup(name@) == Some(s@),
                None => self@.lookup(name@) is None,
            },
    {
        let mut i = self.scopes.len();
        let ghost all = self@.scopes;
        assert(all.take(i as int) =~= all);
        while i > 0
            invariant
                i <= self.scopes@.len(),
                all == self@.scopes,
                scopes_lookup(all.take(i as int), name@) == scopes_lookup(all, name@),
            decreases i,
        {
            proof {
                assert(all.take(i as int).drop_last() =~= all.take(i - 1));
                assert(all.take(i as int).last() == all[i - 1]);
                assert(self.scopes@[i - 1]@ == all[i - 1]);
            }
            match self.scopes[i - 1].symbol(name) {
                Some(s) => {
                    return Some(s);
                },
                None => {},
            }
            i = i - 1;
        }
        None
    }

    /// The innermost binding of `name`, when it is a function.
    pub fn lookup_function(&self, name: &str) -> (r: Option<FunctionSymbol>)
        ensures
            match r {
                Some(f) => self@.lookup_function(name@) == Some(f@),
                None => self@.lookup_function(name@) is None,
            },
    {
        match self.find_symbol(name) {
            Some(Symbol::Function(f)) => Some(f.clone()),
            _ => None,
        }
    }

    /// The innermost binding of `name`, when it is a variable.
    pub fn lookup_variable(&self, name: &str) -> (r: Option<VariableSymbol>)
        ensures
            match r {
                Some(v) => self@.lookup_variable(name@) == Some(v@),
                None => self@.lookup_variable(name@) is None,
            },
    {
        match self.find_symbol(name) {
            Some(Symbol::Variable(v)) => Some(v.clone()),
            _ => None,
        }
    }

    /// Records the function whose body is being analyzed.
    pub fn enter_function(&mut self, func: FunctionSymbol)
        ensures
            final(self)@ == (SymbolTableView { current_function: Some(func@), ..old(self)@ }),
    {
        self.current_function = Some(func);
    }

    /// Leaves the function context.
    pub fn exit_function(&mut self)
        ensures
            final(self)@ == (SymbolTableView { current_function: None, ..old(self)@ }),
    {
        self.current_function = None;
    }

    /// The function whose body is being analyzed, if any.
    pub fn current_function(&self) -> (r: Option<&FunctionSymbol>)
        ensures
            match r {
                Some(f) => self@.current_function == Some(f@),
                None => self@.current_function is None,
            },
    {
        match &self.current_function {
            Some(f) => Some(f),
            None => None,
        }
    }

    /// The return type of the function being analyzed, if any.
    pub fn current_function_return_type(&self) -> (r: Option<Type>)
        ensures
            match r {
                Some(t) => self@.current_function matches Some(f) && f.return_type == t@,
                None => self@.current_function is None,
            },
    {
        match &self.current_function {
            Some(f) => Some(clone_type(&f.return_type)),
            None => None,
        }
    }
}

/// A name that `entries_lookup` does not find is bound by no entry.
pub proof fn lemma_lookup_none_not_bound(entries: Seq<(Seq<char>, SymbolView)>, name: Seq<char>)
    requires
        entries_lookup(entries, name) is None,
    ensures
        forall|i: int| 0 <= i < entries.len() ==> entries[i].0 != name,
    decreases entries.len(),
{
    if entries.len() > 0 {
        lemma_lookup_none_not_bound(entries.drop_last(), name);
        assert forall|i: int| 0 <= i < entries.len() implies entries[i].0 != name by {
            if i < entries.len() - 1 {
                assert(entries[i] == entries.drop_last()[i]);
            }
        }
    }
}

/// A name declared where the innermost scope does not bind it is found by
/// a lookup right after, and the declaration reports no error.
pub proof fn law_declared_name_is_found(t: SymbolTableView, name: Seq<char>, sym: SymbolView, at: SpanView)
    requires
        t.wf(),
        t.current_binding(name) is None,
    ensures
        spec_declare(t, name, sym, at).1 is None,
        spec_declare(t, name, sym, at).0.lookup(name) == Some(sym),
{
    let t2 = spec_declare(t, name, sym, at).0;
    assert(t2.scopes.last().entries.last() == (name, sym));
}

/// Declaring a name leaves the lookup of every other name unchanged.
pub proof fn law_declare_keeps_other_names(
    t: SymbolTableView,
    name: Seq<char>,
    sym: SymbolView,
    at: SpanView,
    other: Seq<char>,
)
    requires
        t.wf(),
        other != name,
    ensures
        spec_declare(t, name, sym, at).0.lookup(other) == t.lookup(other),
{
    if t.current_binding(name) is None {
        let t2 = spec_declare(t, name, sym, at).0;
        let last = t.scopes.last();
        let entries2 = last.entries.push((name, sym));
        assert(entries2.drop_last() =~= last.entries);
        assert(entries_lookup(entries2, other) == entries_lookup(last.entries, other));
        assert(t2.scopes.drop_last() =~= t.scopes.drop_last());
        assert(t2.scopes.last() == ScopeView { entries: entries2, ..last });
    }
}

/// A name already bound in the innermost scope cannot be declared again
/// there: the table is unchanged and the error is `E2032` at the new
/// declaration.
pub proof fn law_redeclaration_is_rejected(t: SymbolTableView, name: Seq<char>, sym: SymbolView, at: SpanView)
    requires
        t.current_binding(name) is Some,
    ensures
        spec_declare(t, name, sym, at).0 == t,
        spec_declare(t, name, sym, at).1 matches Some(e) && e.code() == Some(ErrorCode::E2032)
            && (e matches CompileErrorView::Located { span, .. } && span == at),
{
}

/// A name of an outer scope may be declared again in a new inner scope,
/// where it then hides the outer one.
pub proof fn law_inner_scope_may_shadow(
    t: SymbolTableView,
    kind: ScopeKind,
    opened_at: Option<SpanView>,
    name: Seq<char>,
    sym: SymbolView,
    at: SpanView,
)
    requires
        t.wf(),
    ensures
        spec_declare(t.push_scope(kind, opened_at), name, sym, at).1 is None,
        spec_declare(t.push_scope(kind, opened_at), name, sym, at).0.lookup(name) == Some(sym),
{
    let inner = t.push_scope(kind, opened_at);
    assert(inner.scopes.last().entries.len() == 0);
    assert(inner.wf()) by {
        assert forall|i: int| 0 <= i < inner.scopes.len() implies #[trigger] entries_distinct(inner.scopes[i].entries) by {
            if i < t.scopes.len() {
                assert(inner.scopes[i] == t.scopes[i]);
            }
        }
    }
    law_declared_name_is_found(inner, name, sym, at);
}

/// Closing a scope right after opening it gives back the same table.
pub proof fn law_pop_undoes_push(t: SymbolTableView, kind: ScopeKind, opened_at: Option<SpanView>)
    requires
        t.wf(),
    ensures
        t.push_scope(kind, opened_at).pop_scope() == t,
{
    assert(t.push_scope(kind, opened_at).scopes.drop_last() =~= t.scopes);
}

/// A binding made in a new inner scope hides any outer binding of the same
/// name while that scope is open, whatever kind of symbol either is; closing
/// the scope gives back the table as it was before the scope was opened, so
/// the outer binding is found again.
pub proof fn law_shadowing_ends_with_scope(
    t: SymbolTableView,
    kind: ScopeKind,
    opened_at: Option<SpanView>,
    name: Seq<char>,
    sym: SymbolView,
    at: SpanView,
)
    requires
        t.wf(),
    ensures
        spec_declare(t.push_scope(kind, opened_at), name, sym, at).0.lookup_function(name) == (match sym {
            SymbolView::Function(f) => Some(f),
            _ => None::<FunctionView>,
        }),
        spec_declare(t.push_scope(kind, opened_at), name, sym, at).0.lookup_variable(name) == (match sym {
            SymbolView::Variable(v) => Some(v),
            _ => None::<VariableView>,
        }),
        spec_declare(t.push_scope(kind, opened_at), name, sym, at).0.pop_scope() == t,
        spec_declare(t.push_scope(kind, opened_at), name, sym, at).0.pop_scope().lookup(name) == t.lookup(name),
{
    law_inner_scope_may_shadow(t, kind, opened_at, name, sym, at);
    let inner = t.push_scope(kind, opened_at);
    assert(inner.current_binding(name) is None);
    let t2 = spec_declare(inner, name, sym, at).0;
    assert(t2.scopes.drop_last() =~= t.scopes);
}

} // verus!
