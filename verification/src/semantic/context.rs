//! The semantic state shared by an analysis: configuration, interned types,
//! the symbol arena with the builtins registered, and the diagnostics.
use vstd::prelude::*;
use crate::semantic::config::SemanticConfig;
use crate::semantic::diagnostics::{Diagnostic, DiagnosticEngine, DiagnosticSeverity, DiagnosticView};
use crate::semantic::ids::{GlobalScopeId, ScopeId, SymbolId};
use crate::semantic::scope::{SymbolEntry, SymbolKind, SymbolTable};
use crate::semantic::types::{builtin_at_ordinal, builtin_ordinal, BuiltinType, TypeContext};
use crate::semantic::validator::{
    check_stmts_shape, validate_ast_shape, AstValidationError, ShapeResult, ValidationErrorView,
};
use crate::syntax::ast::Stmt;
use crate::text::{cat2, cat4};

verus! {

/// The state an initialization ended in.
#[derive(Debug, Clone, Copy, PartialEq, Eq, Structural)]
pub enum InitializationStatus {
    Ready,
    Recovery,
    Failed,
}

/// The name under which a builtin type is registered.
pub open spec fn builtin_name_text(b: BuiltinType) -> Seq<char> {
    match b {
        BuiltinType::I8 => "i8"@,
        BuiltinType::I16 => "i16"@,
        BuiltinType::I32 => "i32"@,
        BuiltinType::I64 => "i64"@,
        BuiltinType::U8 => "u8"@,
        BuiltinType::U16 => "u16"@,
        BuiltinType::U32 => "u32"@,
        BuiltinType::U64 => "u64"@,
        BuiltinType::F32 => "f32"@,
        BuiltinType::F64 => "f64"@,
        BuiltinType::Char => "char"@,
        BuiltinType::String => "string"@,
        BuiltinType::Bool => "bool"@,
        BuiltinType::Void => "void"@,
        BuiltinType::NullPtr => "nullptr"@,
    }
}

/// The name under which a builtin type is registered.
fn builtin_name(b: BuiltinType) -> (r: &'static str)
    ensures
        r@ == builtin_name_text(b),
{
    match b {
        BuiltinType::I8 => "i8",
        BuiltinType::I16 => "i16",
        BuiltinType::I32 => "i32",
        BuiltinType::I64 => "i64",
        BuiltinType::U8 => "u8",
        BuiltinType::U16 => "u16",
        BuiltinType::U32 => "u32",
        BuiltinType::U64 => "u64",
        BuiltinType::F32 => "f32",
        BuiltinType::F64 => "f64",
        BuiltinType::Char => "char",
        BuiltinType::String => "string",
        BuiltinType::Bool => "bool",
        BuiltinType::Void => "void",
        BuiltinType::NullPtr => "nullptr",
    }
}

/// The message of a structural fault of a syntax tree.
pub open spec fn ast_error_text(e: ValidationErrorView) -> Seq<char> {
    match e {
        ValidationErrorView::InvalidSpan { file } => "invalid AST source span in "@ + file,
        ValidationErrorView::MultipleSourceFiles { first, second } =>
            "compilation unit contains spans from multiple source files: "@ + first + " and "@ + second,
    }
}

/// The message of a structural fault of a syntax tree.
fn format_ast_error(error: &AstValidationError) -> (r: String)
    ensures
        r@ == ast_error_text(error@),
{
    match error {
        AstValidationError::InvalidSpan { file } => cat2("invalid AST source span in ", file.as_str()),
        AstValidationError::MultipleSourceFiles { first, second } => cat4(
            "compilation unit contains spans from multiple source files: ",
            first.as_str(),
            " and ",
            second.as_str(),
        ),
    }
}

/// The symbols of the builtin types, by the fixed order of the builtins.
#[derive(Debug)]
pub struct BuiltinRegistry {
    type_symbols: Vec<SymbolId>,
}

/// The symbol arena holds the builtin types first, each named by its
/// builtin name, and the `k`-th builtin has symbol `k`.
pub open spec fn builtins_registered(symbols: Seq<SymbolEntry>) -> bool {
    &&& symbols.len() == 15
    &&& forall|k: int|
        0 <= k < 15 ==> #[trigger] symbols[k] == (SymbolEntry {
            id: SymbolId(k as u32),
            name: builtin_name_text(builtin_at_ordinal(k)),
            kind: SymbolKind::BuiltinType,
        })
}

impl BuiltinRegistry {
    /// Each builtin type's symbol is its position in the fixed order.
    #[verifier::type_invariant]
    spec fn symbols_in_order(&self) -> bool {
        &&& self.type_symbols@.len() == 15
        &&& forall|k: int| 0 <= k < 15 ==> #[trigger] self.type_symbols@[k] == SymbolId(k as u32)
    }

    /// Registers every builtin type, in the fixed order, in an arena without
    /// symbols.
    fn new(symbols: &mut SymbolTable) -> (r: Self)
        requires
            old(symbols)@.symbols.len() == 0,
        ensures
            builtins_registered(final(symbols)@.symbols),
            final(symbols)@.scopes == old(symbols)@.scopes,
    {
        let mut type_symbols: Vec<SymbolId> = Vec::new();
        let mut i: usize = 0;
        while i < 15
            invariant
                i <= 15,
                symbols@.symbols.len() == i,
                symbols@.scopes == old(symbols)@.scopes,
                type_symbols@.len() == i,
                forall|k: int| 0 <= k < i ==> #[trigger] type_symbols@[k] == SymbolId(k as u32),
                forall|k: int|
                    0 <= k < i ==> #[trigger] symbols@.symbols[k] == (SymbolEntry {
                        id: SymbolId(k as u32),
                        name: builtin_name_text(builtin_at_ordinal(k)),
                        kind: SymbolKind::BuiltinType,
                    }),
            decreases 15 - i,
        {
            let builtin = BuiltinType::at_ordinal(i);
            let name = String::from_str(builtin_name(builtin));
            let symbol = symbols.insert_builtin(name, SymbolKind::BuiltinType);
            type_symbols.push(symbol);
            i = i + 1;
        }
        Self { type_symbols }
    }

    /// The symbol of a builtin type: its position in the fixed order.
    pub fn type_symbol(&self, builtin: BuiltinType) -> (r: SymbolId)
        ensures
            r == SymbolId(builtin_ordinal(builtin) as u32),
    {
        proof {
            use_type_invariant(self);
        }
        self.type_symbols[builtin.ordinal()]
    }

    /// Every builtin type with its symbol, in the fixed order.
    pub fn type_symbols(&self) -> (r: Vec<(BuiltinType, SymbolId)>)
        ensures
            r@.len() == 15,
            forall|k: int| 0 <= k < 15 ==> #[trigger] r@[k] == (builtin_at_ordinal(k), SymbolId(k as u32)),
    {
        proof {
            use_type_invariant(self);
        }
        let mut out: Vec<(BuiltinType, SymbolId)> = Vec::new();
        let mut i: usize = 0;
        while i < 15
            invariant
                i <= 15,
                self.type_symbols@.len() == 15,
                forall|k: int| 0 <= k < 15 ==> #[trigger] self.type_symbols@[k] == SymbolId(k as u32),
                out@.len() == i,
                forall|k: int| 0 <= k < i ==> #[trigger] out@[k] == (builtin_at_ordinal(k), SymbolId(k as u32)),
            decreases 15 - i,
        {
            out.push((BuiltinType::at_ordinal(i), self.type_symbols[i]));
            i = i + 1;
        }
        out
    }
}

/// The semantic state of an analysis.
#[derive(Debug)]
pub struct SemanticContext {
    config: SemanticConfig,
    types: TypeContext,
    symbols: SymbolTable,
    builtins: BuiltinRegistry,
    diagnostics: DiagnosticEngine,
    status: InitializationStatus,
    frozen: bool,
}

impl SemanticContext {
    /// The configuration.
    pub closed spec fn spec_config(&self) -> &SemanticConfig {
        &self.config
    }

    /// The interned types.
    pub closed spec fn spec_types(&self) -> Seq<crate::syntax::ast::model::TypeView> {
        self.types@
    }

    /// The builtin registry.
    pub closed spec fn spec_builtins(&self) -> BuiltinRegistry {
        self.builtins
    }

    /// The symbol arena.
    pub closed spec fn spec_symbols(&self) -> crate::semantic::scope::ArenaState {
        self.symbols@
    }

    /// The diagnostics.
    pub closed spec fn spec_diagnostics(&self) -> Seq<DiagnosticView> {
        self.diagnostics@
    }

    /// The status of the initialization.
    pub closed spec fn spec_status(&self) -> InitializationStatus {
        self.status
    }

    /// Whether a successful initialization froze the context.
    pub closed spec fn spec_frozen(&self) -> bool {
        self.frozen
    }

    /// A fresh context: the builtin types interned and registered, no
    /// diagnostics, ready and not frozen.
    pub open spec fn fresh(&self, config: &SemanticConfig) -> bool {
        &&& self.spec_config().version() == config.version()
        &&& self.spec_config().namespace() == config.namespace()
        &&& self.spec_types().len() == 15
        &&& forall|i: int|
            0 <= i < 15 ==> #[trigger] self.spec_types()[i] == crate::semantic::types::builtin_type_view(
                builtin_at_ordinal(i),
            )
        &&& builtins_registered(self.spec_symbols().symbols)
        &&& self.spec_symbols().scopes.len() == 1
    }

    /// Validates the shape of `ast` and freezes a context for it; a fault
    /// gives back an unfrozen context that failed, with the fault as its one
    /// internal diagnostic.
    pub fn initialize(ast: &[Stmt], config: SemanticConfig) -> (r: Result<Self, Self>)
        ensures
            match r {
                Ok(c) => check_stmts_shape(None, ast@) is Ok && c.fresh(&config) && c.spec_frozen()
                    && c.spec_status() == InitializationStatus::Ready && c.spec_diagnostics().len() == 0,
                Err(c) => check_stmts_shape(None, ast@) matches Err(e) && c.fresh(&config) && !c.spec_frozen()
                    && c.spec_status() == InitializationStatus::Failed && c.spec_diagnostics() == seq![
                    DiagnosticView {
                        severity: DiagnosticSeverity::Internal,
                        error: None,
                        message: ast_error_text(e),
                        span: None,
                    },
                ],
            },
    {
        let mut context = Self::new(config);
        match validate_ast_shape(ast) {
            Err(error) => {
                let message = format_ast_error(&error);
                context.diagnostics.emit(Diagnostic::internal(message, None));
                context.status = InitializationStatus::Failed;
                Err(context)
            },
            Ok(()) => {
                context.frozen = true;
                Ok(context)
            },
        }
    }

    /// A context for `config`: the builtin types interned and registered,
    /// no diagnostics, ready and not frozen.
    pub fn new(config: SemanticConfig) -> (r: Self)
        ensures
            r.fresh(&config),
            !r.spec_frozen(),
            r.spec_status() == InitializationStatus::Ready,
            r.spec_diagnostics().len() == 0,
    {
        let types = TypeContext::new();
        let mut symbols = SymbolTable::new();
        let builtins = BuiltinRegistry::new(&mut symbols);
        Self {
            config,
            types,
            symbols,
            builtins,
            diagnostics: DiagnosticEngine::new(),
            status: InitializationStatus::Ready,
            frozen: false,
        }
    }

    /// The configuration.
    pub fn config(&self) -> (r: &SemanticConfig)
        ensures
            r == self.spec_config(),
    {
        &self.config
    }

    /// The identifier of the global scope.
    pub fn global_scope(&self) -> (r: GlobalScopeId)
        ensures
            r == ScopeId(0),
    {
        self.symbols.global_scope()
    }

    /// The interned types.
    pub fn types(&self) -> (r: &TypeContext)
        ensures
            r@ == self.spec_types(),
    {
        &self.types
    }

    /// The builtin registry.
    pub fn builtins(&self) -> (r: &BuiltinRegistry)
        ensures
            *r == self.spec_builtins(),
    {
        &self.builtins
    }

    /// The symbol arena.
    pub fn symbols(&self) -> (r: &SymbolTable)
        ensures
            r@ == self.spec_symbols(),
    {
        &self.symbols
    }

    /// The diagnostics collected during initialization.
    pub fn diagnostics(&self) -> (r: &DiagnosticEngine)
        ensures
            r@ == self.spec_diagnostics(),
    {
        &self.diagnostics
    }

    /// The status of the initialization.
    pub fn status(&self) -> (r: InitializationStatus)
        ensures
            r == self.spec_status(),
    {
        self.status
    }

    /// Whether a successful initialization froze the context.
    pub fn is_frozen(&self) -> (r: bool)
        ensures
            r == self.spec_frozen(),
    {
        self.frozen
    }
}

} // verus!
