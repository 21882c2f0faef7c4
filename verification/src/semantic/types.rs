//! Interned semantic types: each distinct type gets one stable identifier,
//! and the builtin types hold the first fifteen slots in a fixed order.
use vstd::prelude::*;
use crate::semantic::ids::TypeId;
use crate::syntax::ast::model::{type_eq, TypeView};
use crate::syntax::ast::Type;

verus! {

/// The builtin types of the language.
#[derive(Debug, Clone, Copy, PartialEq, Eq, Structural, Hash, PartialOrd, Ord)]
pub enum BuiltinType {
    I8,
    I16,
    I32,
    I64,
    U8,
    U16,
    U32,
    U64,
    F32,
    F64,
    Char,
    String,
    Bool,
    Void,
    NullPtr,
}

/// The position of a builtin type in the fixed order of the builtins.
pub open spec fn builtin_ordinal(b: BuiltinType) -> nat {
    match b {
        BuiltinType::I8 => 0,
        BuiltinType::I16 => 1,
        BuiltinType::I32 => 2,
        BuiltinType::I64 => 3,
        BuiltinType::U8 => 4,
        BuiltinType::U16 => 5,
        BuiltinType::U32 => 6,
        BuiltinType::U64 => 7,
        BuiltinType::F32 => 8,
        BuiltinType::F64 => 9,
        BuiltinType::Char => 10,
        BuiltinType::String => 11,
        BuiltinType::Bool => 12,
        BuiltinType::Void => 13,
        BuiltinType::NullPtr => 14,
    }
}

/// The builtin type at position `i` of the fixed order.
pub open spec fn builtin_at_ordinal(i: int) -> BuiltinType {
    if i == 0 {
        BuiltinType::I8
    } else if i == 1 {
        BuiltinType::I16
    } else if i == 2 {
        BuiltinType::I32
    } else if i == 3 {
        BuiltinType::I64
    } else if i == 4 {
        BuiltinType::U8
    } else if i == 5 {
        BuiltinType::U16
    } else if i == 6 {
        BuiltinType::U32
    } else if i == 7 {
        BuiltinType::U64
    } else if i == 8 {
        BuiltinType::F32
    } else if i == 9 {
        BuiltinType::F64
    } else if i == 10 {
        BuiltinType::Char
    } else if i == 11 {
        BuiltinType::String
    } else if i == 12 {
        BuiltinType::Bool
    } else if i == 13 {
        BuiltinType::Void
    } else {
        BuiltinType::NullPtr
    }
}

/// The syntax-level type of a builtin type.
pub open spec fn builtin_type_view(b: BuiltinType) -> TypeView {
    match b {
        BuiltinType::I8 => TypeView::I8,
        BuiltinType::I16 => TypeView::I16,
        BuiltinType::I32 => TypeView::I32,
        BuiltinType::I64 => TypeView::I64,
        BuiltinType::U8 => TypeView::U8,
        BuiltinType::U16 => TypeView::U16,
        BuiltinType::U32 => TypeView::U32,
        BuiltinType::U64 => TypeView::U64,
        BuiltinType::F32 => TypeView::F32,
        BuiltinType::F64 => TypeView::F64,
        BuiltinType::Char => TypeView::Char,
        BuiltinType::String => TypeView::String,
        BuiltinType::Bool => TypeView::Bool,
        BuiltinType::Void => TypeView::Void,
        BuiltinType::NullPtr => TypeView::NullPtr,
    }
}

impl BuiltinType {
    /// The builtin type at position `i` of the fixed order.
    pub fn at_ordinal(i: usize) -> (r: Self)
        requires
            i < 15,
        ensures
            r == builtin_at_ordinal(i as int),
            builtin_ordinal(r) == i,
    {
        match i {
            0 => BuiltinType::I8,
            1 => BuiltinType::I16,
            2 => BuiltinType::I32,
            3 => BuiltinType::I64,
            4 => BuiltinType::U8,
            5 => BuiltinType::U16,
            6 => BuiltinType::U32,
            7 => BuiltinType::U64,
            8 => BuiltinType::F32,
            9 => BuiltinType::F64,
            10 => BuiltinType::Char,
            11 => BuiltinType::String,
            12 => BuiltinType::Bool,
            13 => BuiltinType::Void,
            _ => BuiltinType::NullPtr,
        }
    }

    /// The position of the builtin type in the fixed order.
    pub fn ordinal(self) -> (r: usize)
        ensures
            r == builtin_ordinal(self),
    {
        match self {
            BuiltinType::I8 => 0,
            BuiltinType::I16 => 1,
            BuiltinType::I32 => 2,
            BuiltinType::I64 => 3,
            BuiltinType::U8 => 4,
            BuiltinType::U16 => 5,
            BuiltinType::U32 => 6,
            BuiltinType::U64 => 7,
            BuiltinType::F32 => 8,
            BuiltinType::F64 => 9,
            BuiltinType::Char => 10,
            BuiltinType::String => 11,
            BuiltinType::Bool => 12,
            BuiltinType::Void => 13,
            BuiltinType::NullPtr => 14,
        }
    }

    /// The corresponding syntax-level type.
    pub fn syntax(self) -> (r: Type)
        ensures
            r@ == builtin_type_view(self),
    {
        match self {
            BuiltinType::I8 => Type::I8,
            BuiltinType::I16 => Type::I16,
            BuiltinType::I32 => Type::I32,
            BuiltinType::I64 => Type::I64,
            BuiltinType::U8 => Type::U8,
            BuiltinType::U16 => Type::U16,
            BuiltinType::U32 => Type::U32,
            BuiltinType::U64 => Type::U64,
            BuiltinType::F32 => Type::F32,
            BuiltinType::F64 => Type::F64,
            BuiltinType::Char => Type::Char,
            BuiltinType::String => Type::String,
            BuiltinType::Bool => Type::Bool,
            BuiltinType::Void => Type::Void,
            BuiltinType::NullPtr => Type::NullPtr,
        }
    }
}

/// No type occurs twice.
pub open spec fn all_distinct(s: Seq<TypeView>) -> bool {
    forall|i: int, j: int| 0 <= i < j < s.len() ==> s[i] != s[j]
}

/// Interning `ty` among `types`: the types are unchanged and the identifier
/// is the position of `ty` when it is there; otherwise `ty` is added and
/// takes the next position.
pub open spec fn interned(types: Seq<TypeView>, ty: TypeView) -> (Seq<TypeView>, nat) {
    if types.contains(ty) {
        (types, (choose|i: int| 0 <= i < types.len() && types[i] == ty) as nat)
    } else {
        (types.push(ty), types.len())
    }
}

/// The interned types: each type at most once, in the order interned, the
/// builtins first.
#[derive(Debug)]
pub struct TypeContext {
    types: Vec<Type>,
}

impl View for TypeContext {
    type V = Seq<TypeView>;

    closed spec fn view(&self) -> Seq<TypeView> {
        self.types@.map_values(|t: Type| t@)
    }
}

impl TypeContext {
    /// The builtins hold the first slots, in their fixed order, and no type
    /// is interned twice.
    pub closed spec fn wf(&self) -> bool {
        &&& self@.len() >= 15
        &&& forall|i: int| 0 <= i < 15 ==> #[trigger] self@[i] == builtin_type_view(builtin_at_ordinal(i))
        &&& all_distinct(self@)
    }

    /// A context holding exactly the builtin types, interned in their fixed
    /// order.
    pub fn new() -> (r: Self)
        ensures
            r.wf(),
            r@.len() == 15,
            forall|i: int| 0 <= i < 15 ==> #[trigger] r@[i] == builtin_type_view(builtin_at_ordinal(i)),
    {
        let mut types: Vec<Type> = Vec::new();
        let mut i: usize = 0;
        while i < 15
            invariant
                i <= 15,
                types@.len() == i,
                forall|k: int| 0 <= k < i ==> #[trigger] types@[k]@ == builtin_type_view(builtin_at_ordinal(k)),
            decreases 15 - i,
        {
            let builtin = BuiltinType::at_ordinal(i);
            types.push(builtin.syntax());
            i = i + 1;
        }
        let r = Self { types };
        proof {
            assert forall|a: int, b: int| 0 <= a < b < r@.len() implies r@[a] != r@[b] by {
                assert(r@[a] == builtin_type_view(builtin_at_ordinal(a)));
                assert(r@[b] == builtin_type_view(builtin_at_ordinal(b)));
            }
        }
        r
    }

    /// The identifier of `ty`: the one it already has, or the next free one,
    /// under which it is then interned.
    pub fn intern(&mut self, ty: Type) -> (r: TypeId)
        requires
            old(self).wf(),
            old(self)@.len() <= u32::MAX,
        ensures
            final(self).wf(),
            (final(self)@, r.0 as nat) == interned(old(self)@, ty@),
    {
        let mut i: usize = 0;
        while i < self.types.len()
            invariant
                i <= self.types@.len(),
                forall|k: int| 0 <= k < i ==> #[trigger] self.types@[k]@ != ty@,
                all_distinct(self@),
                self.wf(),
                self@ == old(self)@,
                self@.len() <= u32::MAX,
                self@ == self.types@.map_values(|t: Type| t@),
            decreases self.types.len() - i,
        {
            if type_eq(&self.types[i], &ty) {
                proof {
                    assert(self@[i as int] == ty@);
                    let j = choose|j: int| 0 <= j < self@.len() && self@[j] == ty@;
                    assert(self@.contains(ty@));
                    assert(0 <= j < self@.len() && self@[j] == ty@);
                    if j != i {
                        assert(all_distinct(self@));
                    }
                }
                return TypeId::new(i as u32);
            }
            i = i + 1;
        }
        let id = TypeId::new(self.types.len() as u32);
        let ghost before = self@;
        proof {
            assert(!before.contains(ty@));
            assert(all_distinct(before.push(ty@)));
            assert(before.push(ty@).len() >= 15);
        }
        self.types.push(ty);
        assert(self@ =~= before.push(ty@));
        id
    }

    /// The identifier of a builtin type: its position in the fixed order.
    pub fn builtin(&self, builtin: BuiltinType) -> (r: TypeId)
        requires
            self.wf(),
        ensures
            r.0 == builtin_ordinal(builtin),
            self@[r.0 as int] == builtin_type_view(builtin),
    {
        proof {
            assert(builtin_at_ordinal(builtin_ordinal(builtin) as int) == builtin);
            assert(self@[builtin_ordinal(builtin) as int] == builtin_type_view(builtin_at_ordinal(builtin_ordinal(builtin) as int)));
        }
        TypeId::new(builtin.ordinal() as u32)
    }

    /// The type of identifier `id`, if it names one.
    pub fn get(&self, id: TypeId) -> (r: Option<&Type>)
        ensures
            match r {
                Some(t) => (id.0 as int) < self@.len() && t@ == self@[id.0 as int],
                None => id.0 as int >= self@.len(),
            },
    {
        let i = id.index() as usize;
        if i < self.types.len() {
            Some(&self.types[i])
        } else {
            None
        }
    }

    /// The number of interned types.
    pub fn len(&self) -> (r: usize)
        ensures
            r == self@.len(),
    {
        self.types.len()
    }

    /// Whether no type is interned.
    pub fn is_empty(&self) -> (r: bool)
        ensures
            r == (self@.len() == 0),
    {
        self.types.len() == 0
    }
}

impl Default for TypeContext {
    fn default() -> (r: Self)
        ensures
            r.wf(),
            r@.len() == 15,
            forall|i: int| 0 <= i < 15 ==> #[trigger] r@[i] == builtin_type_view(builtin_at_ordinal(i)),
    {
        Self::new()
    }
}

/// Interning a type a second time gives the identifier of the first time
/// and interns nothing new.
pub proof fn law_interning_is_idempotent(types: Seq<TypeView>, ty: TypeView)
    requires
        all_distinct(types),
    ensures
        all_distinct(interned(types, ty).0),
        interned(interned(types, ty).0, ty) == interned(types, ty),
{
    let (t1, id1) = interned(types, ty);
    if !types.contains(ty) {
        assert(t1[types.len() as int] == ty);
        assert(t1.contains(ty));
        let j = choose|i: int| 0 <= i < t1.len() && t1[i] == ty;
        if j != types.len() {
            assert(types[j] == ty);
        }
    }
}

/// Interning a type into a well-formed context gives an identifier under
/// which the context then holds that type; the context grows by the type
/// exactly when it did not hold it, the new identifier being the old length;
/// and interning the same type again gives the same identifier and leaves the
/// context as it is.
pub proof fn law_context_interning_is_idempotent(c: TypeContext, ty: TypeView)
    requires
        c.wf(),
    ensures
        interned(c@, ty).0[interned(c@, ty).1 as int] == ty,
        interned(c@, ty).1 < interned(c@, ty).0.len(),
        c@.contains(ty) ==> interned(c@, ty).0 == c@,
        !c@.contains(ty) ==> interned(c@, ty).0 == c@.push(ty) && interned(c@, ty).1 == c@.len(),
        interned(interned(c@, ty).0, ty) == interned(c@, ty),
{
    law_interning_is_idempotent(c@, ty);
    if c@.contains(ty) {
        let j = choose|i: int| 0 <= i < c@.len() && c@[i] == ty;
        assert(0 <= j < c@.len() && c@[j] == ty);
    }
}

} // verus!
