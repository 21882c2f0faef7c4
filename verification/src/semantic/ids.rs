//! Stable arena indices naming semantic entities.
use vstd::prelude::*;

verus! {

/// Identifier of a symbol: its index in the symbol arena.
#[derive(Debug, Clone, Copy, PartialEq, Eq, Structural, Hash, PartialOrd, Ord)]
pub struct SymbolId(pub u32);

/// Identifier of a scope: its index in the scope arena.
#[derive(Debug, Clone, Copy, PartialEq, Eq, Structural, Hash, PartialOrd, Ord)]
pub struct ScopeId(pub u32);

/// Identifier of a type: its index in the type arena.
#[derive(Debug, Clone, Copy, PartialEq, Eq, Structural, Hash, PartialOrd, Ord)]
pub struct TypeId(pub u32);

/// Identifier of a syntax tree node: its index in the node arena.
#[derive(Debug, Clone, Copy, PartialEq, Eq, Structural, Hash, PartialOrd, Ord)]
pub struct AstNodeId(pub u32);

/// Identifier of the canonical global scope.
pub type GlobalScopeId = ScopeId;

impl SymbolId {
    /// The identifier of arena index `index`.
    pub fn new(index: u32) -> (r: Self)
        ensures
            r.0 == index,
    {
        Self(index)
    }

    /// The arena index of the identifier.
    pub fn index(self) -> (r: u32)
        ensures
            r == self.0,
    {
        self.0
    }
}

impl ScopeId {
    /// The identifier of arena index `index`.
    pub fn new(index: u32) -> (r: Self)
        ensures
            r.0 == index,
    {
        Self(index)
    }

    /// The arena index of the identifier.
    pub fn index(self) -> (r: u32)
        ensures
            r == self.0,
    {
        self.0
    }
}

impl TypeId {
    /// The identifier of arena index `index`.
    pub fn new(index: u32) -> (r: Self)
        ensures
            r.0 == index,
    {
        Self(index)
    }

    /// The arena index of the identifier.
    pub fn index(self) -> (r: u32)
        ensures
            r == self.0,
    {
        self.0
    }
}

impl AstNodeId {
    /// The identifier of arena index `index`.
    pub fn new(index: u32) -> (r: Self)
        ensures
            r.0 == index,
    {
        Self(index)
    }

    /// The arena index of the identifier.
    pub fn index(self) -> (r: u32)
        ensures
            r == self.0,
    {
        self.0
    }
}

} // verus!
