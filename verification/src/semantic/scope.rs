//! The arena of semantic symbols and scopes: symbols are named by their
//! index in the symbol arena, scopes by their index in the scope arena.
use vstd::prelude::*;
use crate::semantic::ids::{GlobalScopeId, ScopeId, SymbolId};

verus! {

/// Category of a symbol of the arena.
#[derive(Debug, Clone, Copy, PartialEq, Eq, Structural, Hash)]
pub enum SymbolKind {
    BuiltinType,
    BuiltinFunction,
}

/// A symbol of the arena: its identifier, name and kind.
#[derive(Debug)]
pub struct Symbol {
    pub id: SymbolId,
    pub name: String,
    pub kind: SymbolKind,
}

/// The mathematical value of a [`Symbol`].
pub struct SymbolEntry {
    pub id: SymbolId,
    pub name: Seq<char>,
    pub kind: SymbolKind,
}

impl View for Symbol {
    type V = SymbolEntry;

    open spec fn view(&self) -> SymbolEntry {
        SymbolEntry { id: self.id, name: self.name@, kind: self.kind }
    }
}

/// The symbol most recently bound to `name` among `entries`.
pub open spec fn latest_binding(entries: Seq<(Seq<char>, SymbolId)>, name: Seq<char>) -> Option<SymbolId>
    decreases entries.len(),
{
    if entries.len() == 0 {
        None
    } else if entries.last().0 == name {
        Some(entries.last().1)
    } else {
        latest_binding(entries.drop_last(), name)
    }
}

/// A scope of the arena: its identifier, parent and owner, and the names
/// bound in it.
#[derive(Debug)]
pub struct Scope {
    pub id: ScopeId,
    pub parent: Option<ScopeId>,
    pub owner: Option<SymbolId>,
    symbols: Vec<(String, SymbolId)>,
}

/// The mathematical value of a [`Scope`].
pub struct ScopeState {
    pub id: ScopeId,
    pub parent: Option<ScopeId>,
    pub owner: Option<SymbolId>,
    pub entries: Seq<(Seq<char>, SymbolId)>,
}

impl ScopeState {
    /// The symbol bound to `name` in the scope.
    pub open spec fn binding(self, name: Seq<char>) -> Option<SymbolId> {
        latest_binding(self.entries, name)
    }
}

/// The views of the bindings of a scope.
pub open spec fn entries_state(s: Seq<(String, SymbolId)>) -> Seq<(Seq<char>, SymbolId)> {
    s.map_values(|e: (String, SymbolId)| (e.0@, e.1))
}

impl View for Scope {
    type V = ScopeState;

    closed spec fn view(&self) -> ScopeState {
        ScopeState { id: self.id, parent: self.parent, owner: self.owner, entries: entries_state(self.symbols@) }
    }
}

/// The last entry binding `name` among the first `k`, if any.
proof fn lemma_latest_binding_at(entries: Seq<(Seq<char>, SymbolId)>, name: Seq<char>, k: int, i: int)
    requires
        0 <= i < k <= entries.len(),
        entries[i].0 == name,
        forall|j: int| i < j < k ==> #[trigger] entries[j].0 != name,
    ensures
        latest_binding(entries.subrange(0, k), name) == Some(entries[i].1),
    decreases k - i,
{
    let p = entries.subrange(0, k);
    if i < k - 1 {
        assert(p.drop_last() =~= entries.subrange(0, k - 1));
        lemma_latest_binding_at(entries, name, k - 1, i);
    }
}

impl Scope {
    /// A scope without bindings.
    pub fn new(id: ScopeId, parent: Option<ScopeId>, owner: Option<SymbolId>) -> (r: Self)
        ensures
            r@ == (ScopeState { id, parent, owner, entries: Seq::empty() }),
    {
        let r = Self { id, parent, owner, symbols: Vec::new() };
        assert(r@.entries =~= Seq::<(Seq<char>, SymbolId)>::empty());
        r
    }

    /// The symbol bound to `name` in this scope.
    pub fn lookup(&self, name: &str) -> (r: Option<SymbolId>)
        ensures
            r == self@.binding(name@),
    {
        let ghost all = self@.entries;
        let mut i = self.symbols.len();
        assert(all.subrange(0, i as int) =~= all);
        while i > 0
            invariant
                i <= self.symbols@.len(),
                all == entries_state(self.symbols@),
                latest_binding(all.subrange(0, i as int), name@) == latest_binding(all, name@),
            decreases i,
        {
            proof {
                assert(all.subrange(0, i as int).drop_last() =~= all.subrange(0, i - 1));
                assert(all.subrange(0, i as int).last() == all[i - 1]);
            }
            let entry = &self.symbols[i - 1];
            if text_matches(entry.0.as_str(), name) {
                return Some(entry.1);
            }
            i = i - 1;
        }
        assert(all.subrange(0, 0).len() == 0);
        None
    }

    /// Binds `name` to `symbol`, replacing its binding if it has one, and
    /// returns the binding replaced.
    pub fn insert(&mut self, name: String, symbol: SymbolId) -> (r: Option<SymbolId>)
        ensures
            r == old(self)@.binding(name@),
            final(self)@.binding(name@) == Some(symbol),
            forall|other: Seq<char>| other != name@ ==> final(self)@.binding(other) == old(self)@.binding(other),
            final(self)@.id == old(self)@.id,
            final(self)@.parent == old(self)@.parent,
            final(self)@.owner == old(self)@.owner,
            final(self)@.entries.len() > 0,
    {
        let ghost before = self@.entries;
        let mut i = self.symbols.len();
        while i > 0
            invariant
                i <= self.symbols@.len(),
                before == entries_state(self.symbols@),
                self.symbols@ == old(self).symbols@,
                self.id == old(self).id,
                self.parent == old(self).parent,
                self.owner == old(self).owner,
                forall|j: int| i <= j < before.len() ==> #[trigger] before[j].0 != name@,
            decreases i,
        {
            if text_matches(self.symbols[i - 1].0.as_str(), name.as_str()) {
                let previous = self.symbols[i - 1].1;
                let ghost k = (i - 1) as int;
                proof {
                    lemma_latest_binding_at(before, name@, before.len() as int, k);
                    assert(before.subrange(0, before.len() as int) =~= before);
                }
                let old_name = self.symbols[i - 1].0.clone();
                self.symbols.set(i - 1, (old_name, symbol));
                proof {
                    let after = self@.entries;
                    assert(after =~= before.update(k, (name@, symbol)));
                    lemma_latest_binding_at(after, name@, after.len() as int, k);
                    assert(after.subrange(0, after.len() as int) =~= after);
                    assert forall|other: Seq<char>| other != name@ implies latest_binding(after, other)
                        == latest_binding(before, other) by {
                        lemma_update_other(before, k, (name@, symbol), other);
                    }
                }
                return Some(previous);
            }
            i = i - 1;
        }
        proof {
            lemma_unbound(before, name@);
        }
        self.symbols.push((name, symbol));
        proof {
            let after = self@.entries;
            assert(after =~= before.push((name@, symbol)));
            assert(after.drop_last() =~= before);
        }
        None
    }

    /// Whether no name is bound in this scope.
    pub fn is_empty(&self) -> (r: bool)
        ensures
            r == (self@.entries.len() == 0),
    {
        self.symbols.len() == 0
    }
}

/// No entry names `name`: nothing is bound to it.
proof fn lemma_unbound(entries: Seq<(Seq<char>, SymbolId)>, name: Seq<char>)
    requires
        forall|j: int| 0 <= j < entries.len() ==> #[trigger] entries[j].0 != name,
    ensures
        latest_binding(entries, name) is None,
    decreases entries.len(),
{
    if entries.len() > 0 {
        assert forall|j: int| 0 <= j < entries.drop_last().len() implies #[trigger] entries.drop_last()[j].0
            != name by {
            assert(entries.drop_last()[j] == entries[j]);
        }
        lemma_unbound(entries.drop_last(), name);
    }
}

/// Rebinding the entry at `k` to a name leaves the bindings of other names as
/// they were.
proof fn lemma_update_other(
    entries: Seq<(Seq<char>, SymbolId)>,
    k: int,
    e: (Seq<char>, SymbolId),
    other: Seq<char>,
)
    requires
        0 <= k < entries.len(),
        entries[k].0 == e.0,
        other != e.0,
    ensures
        latest_binding(entries.update(k, e), other) == latest_binding(entries, other),
    decreases entries.len(),
{
    let u = entries.update(k, e);
    if k < entries.len() - 1 {
        assert(u.drop_last() =~= entries.drop_last().update(k, e));
        lemma_update_other(entries.drop_last(), k, e, other);
    } else {
        assert(u.drop_last() =~= entries.drop_last());
    }
}

/// Whether two texts are the same.
fn text_matches(a: &str, b: &str) -> (r: bool)
    ensures
        r == (a@ == b@),
{
    let ca = crate::text::chars_of(a);
    let cb = crate::text::chars_of(b);
    if ca.len() != cb.len() {
        return false;
    }
    let mut i: usize = 0;
    while i < ca.len()
        invariant
            i <= ca@.len() == cb@.len(),
            ca@ == a@,
            cb@ == b@,
            forall|k: int| 0 <= k < i ==> ca@[k] == cb@[k],
        decreases ca.len() - i,
    {
        if ca[i] != cb[i] {
            return false;
        }
        i = i + 1;
    }
    assert(ca@ =~= cb@);
    true
}

/// The mathematical value of a [`SymbolTable`] of the arena.
pub struct ArenaState {
    pub symbols: Seq<SymbolEntry>,
    pub scopes: Seq<ScopeState>,
}

/// The arena of symbols and scopes; scope 0 is the global scope.
#[derive(Debug)]
pub struct SymbolTable {
    symbols: Vec<Symbol>,
    scopes: Vec<Scope>,
}

/// The views of a list of scopes.
pub open spec fn scopes_state(s: Seq<Scope>) -> Seq<ScopeState> {
    s.map_values(|x: Scope| x@)
}

/// Replacing a scope replaces its view.
pub broadcast proof fn lemma_scopes_state_update(s: Seq<Scope>, i: int, x: Scope)
    requires
        0 <= i < s.len(),
    ensures
        #[trigger] scopes_state(s.update(i, x)) == scopes_state(s).update(i, x@),
{
    assert(scopes_state(s.update(i, x)) =~= scopes_state(s).update(i, x@));
}

impl View for SymbolTable {
    type V = ArenaState;

    closed spec fn view(&self) -> ArenaState {
        ArenaState { symbols: self.symbols@.map_values(|s: Symbol| s@), scopes: scopes_state(self.scopes@) }
    }
}

impl SymbolTable {
    /// An arena with no symbols and the empty global scope.
    pub fn new() -> (r: Self)
        ensures
            r@.symbols.len() == 0,
            r@.scopes == seq![ScopeState { id: ScopeId(0), parent: None, owner: None, entries: Seq::empty() }],
    {
        let mut scopes: Vec<Scope> = Vec::new();
        scopes.push(Scope::new(ScopeId::new(0), None, None));
        let r = Self { symbols: Vec::new(), scopes };
        assert(r@.scopes =~= seq![ScopeState { id: ScopeId(0), parent: None, owner: None, entries: Seq::empty() }]);
        r
    }

    /// The identifier of the global scope.
    pub fn global_scope(&self) -> (r: GlobalScopeId)
        ensures
            r == ScopeId(0),
    {
        ScopeId::new(0)
    }

    /// The scope `id`, if the arena has it.
    pub fn scope(&self, id: ScopeId) -> (r: Option<&Scope>)
        ensures
            match r {
                Some(s) => (id.0 as int) < self@.scopes.len() && s@ == self@.scopes[id.0 as int],
                None => id.0 as int >= self@.scopes.len(),
            },
    {
        let i = id.index() as usize;
        if i < self.scopes.len() {
            Some(&self.scopes[i])
        } else {
            None
        }
    }

    /// The scope `id` for modification, if the arena has it; the arena then
    /// holds the scope as modified.
    pub fn scope_mut(&mut self, id: ScopeId) -> (r: Option<&mut Scope>)
        ensures
            (id.0 as int) < old(self)@.scopes.len() <==> r is Some,
            r is None ==> final(self)@ == old(self)@,
            match r {
                Some(s) => s@ == old(self)@.scopes[id.0 as int] && final(self)@ == (ArenaState {
                    scopes: old(self)@.scopes.update(id.0 as int, final(s)@),
                    ..old(self)@
                }),
                None => true,
            },
    {
        broadcast use lemma_scopes_state_update;

        let i = id.index() as usize;
        if i < self.scopes.len() {
            Some(&mut self.scopes[i])
        } else {
            None
        }
    }

    /// The symbol `id`, if the arena has it.
    pub fn symbol(&self, id: SymbolId) -> (r: Option<&Symbol>)
        ensures
            match r {
                Some(s) => (id.0 as int) < self@.symbols.len() && s@ == self@.symbols[id.0 as int],
                None => id.0 as int >= self@.symbols.len(),
            },
    {
        let i = id.index() as usize;
        if i < self.symbols.len() {
            Some(&self.symbols[i])
        } else {
            None
        }
    }

    /// Registers a compiler-provided symbol, in no scope, under the next
    /// free identifier, and returns that identifier.
    pub fn insert_builtin(&mut self, name: String, kind: SymbolKind) -> (r: SymbolId)
        requires
            old(self)@.symbols.len() <= u32::MAX,
        ensures
            r.0 == old(self)@.symbols.len(),
            final(self)@.symbols == old(self)@.symbols.push(SymbolEntry { id: r, name: name@, kind }),
            final(self)@.scopes == old(self)@.scopes,
    {
        let ghost before = self@;
        let id = SymbolId::new(self.symbols.len() as u32);
        let ghost entry = SymbolEntry { id, name: name@, kind };
        self.symbols.push(Symbol { id, name, kind });
        assert(self@.symbols =~= before.symbols.push(entry));
        id
    }

    /// The number of symbols.
    pub fn symbol_count(&self) -> (r: usize)
        ensures
            r == self@.symbols.len(),
    {
        self.symbols.len()
    }
}

impl Default for SymbolTable {
    fn default() -> (r: Self)
        ensures
            r@.symbols.len() == 0,
            r@.scopes == seq![ScopeState { id: ScopeId(0), parent: None, owner: None, entries: Seq::empty() }],
    {
        Self::new()
    }
}

} // verus!
