use crate::comp::CompInfo;
use crate::context::TypeResolver;
use crate::enum_ty::Enum;
use crate::function::FunctionSig;
use crate::int_kind::IntKind;
use crate::item::ItemId;
use crate::layout::Layout;
use vstd::prelude::*;

verus! {

/// The different kinds of floating point types.
#[derive(Clone, Copy, Debug, PartialEq, Eq, Structural)]
pub enum FloatKind {
    /// A single-precision float.
    Float,
    /// A double-precision float.
    Double,
    /// An extended-precision float.
    LongDouble,
}

/// The structural payload of a [`Type`]: the closed set of IR type variants.
///
/// Nested types are referred to by [`ItemId`], never owned directly, so that
/// self-referential aggregates stay representable.
#[derive(Clone, Debug)]
pub enum TypeKind {
    /// The void type.
    Void,
    /// The type of the null pointer constant.
    NullPtr,
    /// A compound type: a class, struct, or union.
    Comp(CompInfo),
    /// An integer type of a given kind; booleans and characters count as
    /// integers.
    Int(IntKind),
    /// A floating point type of a given kind.
    Float(FloatKind),
    /// A named alias (typedef) pointing at another IR type.
    Alias(String, ItemId),
    /// A fixed-length array of another IR type; the length is an element
    /// count, not a byte size.
    Array(ItemId, usize),
    /// A function type with a given signature.
    Function(FunctionSig),
    /// An enum type.
    Enum(Enum),
    /// A pointer to another IR type.
    Pointer(ItemId),
    /// A reference to another IR type; unlike a pointer it is never null and
    /// never rebound.
    Reference(ItemId),
    /// An unresolved template parameter, known only by name; structurally
    /// opaque.
    Named(String),
}

/// One distinct foreign type, translated into the IR.
#[derive(Clone, Debug)]
pub struct Type {
    /// The display name, or `None` for an unnamed struct or union.
    pub name: Option<String>,
    /// The layout, when one is known.
    pub layout: Option<Layout>,
    /// Whether the type must be treated as an uninspectable blob: no
    /// structural analysis is attempted on an opaque type.
    pub opaque: bool,
    /// Whether automatic code generation is suppressed for this type, leaving
    /// it to be emitted by whatever declared it.
    pub hidden: bool,
    /// The structural payload.
    pub kind: TypeKind,
    /// Whether the type was declared at module scope rather than nested
    /// inside another aggregate; a nested type is generated by its declaring
    /// aggregate, not independently.
    pub is_toplevel: bool,
}

/// The largest element count for which a fixed-length array may still derive
/// the copy and debug capabilities. Deriving them for an array enumerates
/// behavior per element in the target language, which is disallowed above a
/// bounded arity; the bound is a fixed policy constant.
pub const RUST_DERIVE_IN_ARRAY_LIMIT: usize = 32;

/// Whether every [`ItemId`] inside `k` resolves inside a registry of `n`
/// types. A kind with no nested ids trivially qualifies.
pub open spec fn kind_refs_ok(k: TypeKind, n: int) -> bool {
    match k {
        TypeKind::Alias(_, t) => t.0 < n,
        TypeKind::Array(t, _) => t.0 < n,
        TypeKind::Pointer(t) => t.0 < n,
        TypeKind::Reference(t) => t.0 < n,
        _ => true,
    }
}

/// Well-formedness of the kind stored at arena index `i` of a registry of
/// `n` types: every nested id resolves, and the ids the analysis recurses
/// through (alias target, array element) point strictly backwards in the
/// arena. Ingestion resolves a nested type before the type that contains it,
/// so construction order yields this for free; pointer and reference targets
/// only need to resolve, which keeps self-referential aggregates
/// representable.
pub open spec fn kind_wf_at(k: TypeKind, i: int, n: int) -> bool {
    match k {
        TypeKind::Alias(_, t) => t.0 < i,
        TypeKind::Array(t, _) => t.0 < i,
        TypeKind::Pointer(t) => t.0 < n,
        TypeKind::Reference(t) => t.0 < n,
        _ => true,
    }
}

/// Well-formedness of a whole registry arena: every type stored in it
/// satisfies [`kind_wf_at`] at its own index. This is the invariant that
/// makes the recursive analysis terminate: following an alias target or an
/// array element strictly decreases the arena index.
pub open spec fn registry_wf(ts: Seq<Type>) -> bool {
    forall|i: int| 0 <= i < ts.len() ==> kind_wf_at((#[trigger] ts[i]).kind, i, ts.len() as int)
}

/// The termination measure for the recursive analysis: one more than the
/// arena index a kind recurses into, or zero for a kind the analysis never
/// recurses into. In a well-formed registry the measure strictly decreases
/// along alias and array edges.
pub open spec fn rank(k: TypeKind) -> int {
    match k {
        TypeKind::Alias(_, t) => t.0 + 1,
        TypeKind::Array(t, _) => t.0 + 1,
        _ => 0,
    }
}

/// The layout [`Type::layout`] reports: the explicitly recorded layout when
/// one is present, otherwise the layout a compound type computes for itself,
/// otherwise unknown.
pub open spec fn spec_layout(t: Type) -> Option<Layout> {
    if t.layout is Some {
        t.layout
    } else {
        match t.kind {
            TypeKind::Comp(ci) => ci.layout,
            _ => None,
        }
    }
}

/// What [`Type::can_derive_debug`] decides: an opaque type never derives
/// debug; an array does iff it has at most [`RUST_DERIVE_IN_ARRAY_LIMIT`]
/// elements of a type that does; an alias does iff its target does; a
/// compound type follows its own rule; every other kind does.
pub open spec fn spec_can_derive_debug(ts: Seq<Type>, t: Type) -> bool
    decreases rank(t.kind),
        when registry_wf(ts) && kind_refs_ok(t.kind, ts.len() as int)
{
    !t.opaque && match t.kind {
        TypeKind::Array(e, len) => len <= RUST_DERIVE_IN_ARRAY_LIMIT
            && spec_can_derive_debug(ts, ts[e.0 as int]),
        TypeKind::Alias(_, e) => spec_can_derive_debug(ts, ts[e.0 as int]),
        TypeKind::Comp(ci) => ci.derive_debug,
        _ => true,
    }
}

/// What [`Type::can_derive_copy`] decides: the same shape as
/// [`spec_can_derive_debug`], with the copy verdict on compound types.
pub open spec fn spec_can_derive_copy(ts: Seq<Type>, t: Type) -> bool
    decreases rank(t.kind),
        when registry_wf(ts) && kind_refs_ok(t.kind, ts.len() as int)
{
    !t.opaque && match t.kind {
        TypeKind::Array(e, len) => len <= RUST_DERIVE_IN_ARRAY_LIMIT
            && spec_can_derive_copy(ts, ts[e.0 as int]),
        TypeKind::Alias(_, e) => spec_can_derive_copy(ts, ts[e.0 as int]),
        TypeKind::Comp(ci) => ci.derive_copy,
        _ => true,
    }
}

/// What [`Type::can_derive_copy_in_array`] decides: aliases and arrays
/// recurse with this same stricter predicate, an unresolved template
/// parameter is never eligible inside an array, and every other kind defers
/// to [`spec_can_derive_copy`].
pub open spec fn spec_can_derive_copy_in_array(ts: Seq<Type>, t: Type) -> bool
    decreases rank(t.kind),
        when registry_wf(ts) && kind_refs_ok(t.kind, ts.len() as int)
{
    match t.kind {
        TypeKind::Alias(_, e) => spec_can_derive_copy_in_array(ts, ts[e.0 as int]),
        TypeKind::Array(e, _) => spec_can_derive_copy_in_array(ts, ts[e.0 as int]),
        TypeKind::Named(_) => false,
        _ => spec_can_derive_copy(ts, t),
    }
}

/// What [`Type::has_destructor`] decides: an opaque type is conservatively
/// assumed to have a destructor; aliases and arrays follow their target and
/// element; a compound type follows its own rule; every other kind has none.
pub open spec fn spec_has_destructor(ts: Seq<Type>, t: Type) -> bool
    decreases rank(t.kind),
        when registry_wf(ts) && kind_refs_ok(t.kind, ts.len() as int)
{
    t.opaque || match t.kind {
        TypeKind::Alias(_, e) => spec_has_destructor(ts, ts[e.0 as int]),
        TypeKind::Array(e, _) => spec_has_destructor(ts, ts[e.0 as int]),
        TypeKind::Comp(ci) => ci.destructor,
        _ => false,
    }
}

/// The type an alias chain ultimately points at: the first type reached from
/// `t` along alias edges whose kind is not itself an alias. A type that is no
/// alias is its own root.
pub open spec fn alias_root(ts: Seq<Type>, t: Type) -> Type
    decreases rank(t.kind),
        when registry_wf(ts) && kind_refs_ok(t.kind, ts.len() as int)
{
    match t.kind {
        TypeKind::Alias(_, e) => alias_root(ts, ts[e.0 as int]),
        _ => t,
    }
}

/// Whether no alias along the chain from `t` to its root is marked opaque.
/// An opaque alias cuts the chain: the analysis stops at it instead of
/// looking through it.
pub open spec fn alias_chain_transparent(ts: Seq<Type>, t: Type) -> bool
    decreases rank(t.kind),
        when registry_wf(ts) && kind_refs_ok(t.kind, ts.len() as int)
{
    match t.kind {
        TypeKind::Alias(_, e) => !t.opaque && alias_chain_transparent(ts, ts[e.0 as int]),
        _ => true,
    }
}

/// Law: an opaque type derives neither debug-printing nor value-copy, and is
/// conservatively assumed to have a destructor, whatever its kind.
pub proof fn lemma_opaque_derives_nothing(ts: Seq<Type>, t: Type)
    requires
        registry_wf(ts),
        kind_refs_ok(t.kind, ts.len() as int),
        t.opaque,
    ensures
        !spec_can_derive_debug(ts, t),
        !spec_can_derive_copy(ts, t),
        spec_has_destructor(ts, t),
{
}

/// Law: on every kind other than aliases, arrays and unresolved template
/// parameters, the array-element copy predicate and the plain copy predicate
/// agree; they share the same base case.
pub proof fn lemma_copy_in_array_base_agrees(ts: Seq<Type>, t: Type)
    requires
        registry_wf(ts),
        kind_refs_ok(t.kind, ts.len() as int),
        !(t.kind is Alias),
        !(t.kind is Array),
        !(t.kind is Named),
    ensures
        spec_can_derive_copy_in_array(ts, t) == spec_can_derive_copy(ts, t),
{
}

/// Law: a fixed-length array derives debug-printing or value-copy exactly
/// when it is not opaque, has at most [`RUST_DERIVE_IN_ARRAY_LIMIT`] elements
/// and its element type derives the same capability; above the threshold it
/// derives neither, no matter the element type.
pub proof fn lemma_array_threshold(ts: Seq<Type>, t: Type, e: ItemId, len: usize)
    requires
        registry_wf(ts),
        kind_refs_ok(t.kind, ts.len() as int),
        t.kind == TypeKind::Array(e, len),
    ensures
        spec_can_derive_debug(ts, t) <==> (!t.opaque && len <= RUST_DERIVE_IN_ARRAY_LIMIT
            && spec_can_derive_debug(ts, ts[e.0 as int])),
        spec_can_derive_copy(ts, t) <==> (!t.opaque && len <= RUST_DERIVE_IN_ARRAY_LIMIT
            && spec_can_derive_copy(ts, ts[e.0 as int])),
        len > RUST_DERIVE_IN_ARRAY_LIMIT ==> !spec_can_derive_debug(ts, t)
            && !spec_can_derive_copy(ts, t),
{
}

/// Law, one alias step: a transparent (non-opaque) alias derives a capability
/// exactly when its target does, and has a destructor exactly when its target
/// has; the array-element copy predicate follows the target even through an
/// opaque alias, since its base case is where opacity is consulted.
pub proof fn lemma_alias_follows_target(ts: Seq<Type>, t: Type, name: String, e: ItemId)
    requires
        registry_wf(ts),
        kind_refs_ok(t.kind, ts.len() as int),
        t.kind == TypeKind::Alias(name, e),
    ensures
        !t.opaque ==> spec_can_derive_debug(ts, t) == spec_can_derive_debug(
            ts,
            ts[e.0 as int],
        ),
        !t.opaque ==> spec_can_derive_copy(ts, t) == spec_can_derive_copy(ts, ts[e.0 as int]),
        !t.opaque ==> spec_has_destructor(ts, t) == spec_has_destructor(ts, ts[e.0 as int]),
        spec_can_derive_copy_in_array(ts, t) == spec_can_derive_copy_in_array(
            ts,
            ts[e.0 as int],
        ),
{
}

/// Law, whole alias chains: through any chain of transparent aliases, a type
/// derives a capability exactly when the chain's root does; the array-element
/// copy predicate follows the chain unconditionally.
pub proof fn lemma_alias_chain(ts: Seq<Type>, t: Type)
    requires
        registry_wf(ts),
        kind_refs_ok(t.kind, ts.len() as int),
    ensures
        alias_chain_transparent(ts, t) ==> spec_can_derive_debug(ts, t)
            == spec_can_derive_debug(ts, alias_root(ts, t)),
        alias_chain_transparent(ts, t) ==> spec_can_derive_copy(ts, t)
            == spec_can_derive_copy(ts, alias_root(ts, t)),
        alias_chain_transparent(ts, t) ==> spec_has_destructor(ts, t)
            == spec_has_destructor(ts, alias_root(ts, t)),
        spec_can_derive_copy_in_array(ts, t) == spec_can_derive_copy_in_array(
            ts,
            alias_root(ts, t),
        ),
    decreases rank(t.kind),
{
    match t.kind {
        TypeKind::Alias(_, e) => {
            lemma_alias_chain(ts, ts[e.0 as int]);
        },
        _ => {},
    }
}

/// Law: an unresolved template parameter is never eligible as an array
/// element, even though, not being opaque, it derives value-copy as a
/// directly-nested field; and an array over such an element is itself never
/// eligible.
pub proof fn lemma_named_never_copies_in_array(ts: Seq<Type>, t: Type)
    requires
        registry_wf(ts),
        kind_refs_ok(t.kind, ts.len() as int),
        t.kind is Named,
    ensures
        !spec_can_derive_copy_in_array(ts, t),
        !t.opaque ==> spec_can_derive_copy(ts, t),
{
}

/// Law: an array whose element type is an unresolved template parameter is
/// not eligible as an array element either, however short it is.
pub proof fn lemma_named_element_blocks_array(ts: Seq<Type>, t: Type, e: ItemId, len: usize)
    requires
        registry_wf(ts),
        kind_refs_ok(t.kind, ts.len() as int),
        t.kind == TypeKind::Array(e, len),
        ts[e.0 as int].kind is Named,
    ensures
        !spec_can_derive_copy_in_array(ts, t),
{
    assert(!spec_can_derive_copy_in_array(ts, ts[e.0 as int]));
}

/// Law: the analysis never recurses through a pointer or a reference — their
/// verdicts depend only on the opacity flag, never on the pointee. This is
/// what keeps the predicates total on self-referential aggregates such as a
/// struct holding a pointer to itself.
pub proof fn lemma_pointer_never_recurses(ts: Seq<Type>, t: Type)
    requires
        registry_wf(ts),
        kind_refs_ok(t.kind, ts.len() as int),
        t.kind is Pointer || t.kind is Reference,
    ensures
        spec_can_derive_debug(ts, t) == !t.opaque,
        spec_can_derive_copy(ts, t) == !t.opaque,
        spec_can_derive_copy_in_array(ts, t) == !t.opaque,
        spec_has_destructor(ts, t) == t.opaque,
{
}

impl Type {
    /// Builds a type from an optional display name, an optional layout and a
    /// structural payload, with all flags defaulted off.
    pub fn new(name: Option<String>, layout: Option<Layout>, kind: TypeKind) -> (t: Self)
        ensures
            t == (Type {
                name,
                layout,
                opaque: false,
                hidden: false,
                kind,
                is_toplevel: false,
            }),
    {
        Type { name, layout, opaque: false, hidden: false, kind, is_toplevel: false }
    }

    /// The display name, or `None` for an unnamed struct or union.
    pub fn name(&self) -> (r: Option<&str>)
        ensures
            r is Some <==> self.name is Some,
            r is Some ==> r->0@ == self.name->0@,
    {
        match &self.name {
            Some(n) => Some(n.as_str()),
            None => None,
        }
    }

    /// The layout of the type, if known: the recorded layout when present,
    /// with a compound type otherwise falling back to the layout it computes
    /// for itself.
    pub fn layout(&self, type_resolver: &TypeResolver) -> (l: Option<Layout>)
        ensures
            l == spec_layout(*self),
    {
        match self.layout {
            Some(layout) => Some(layout),
            None => match &self.kind {
                TypeKind::Comp(ci) => ci.layout(type_resolver),
                _ => None,
            },
        }
    }

    /// Whether this type is marked as opaque: an uninspectable blob that no
    /// structural analysis is attempted on.
    pub fn is_opaque(&self, _type_resolver: &TypeResolver) -> (r: bool)
        ensures
            r == self.opaque,
    {
        self.opaque
    }

    /// Marks this type as opaque. The flag is set after construction by the
    /// logic of the declaring context.
    pub fn set_opaque(&mut self)
        ensures
            *final(self) == (Type { opaque: true, ..*old(self) }),
    {
        self.opaque = true;
    }

    /// Whether generated code may derive debug-printing for this type.
    pub fn can_derive_debug(&self, type_resolver: &TypeResolver) -> (r: bool)
        requires
            type_resolver.wf(),
            kind_refs_ok(self.kind, type_resolver@.len() as int),
        ensures
            r == spec_can_derive_debug(type_resolver@, *self),
        decreases rank(self.kind),
    {
        !self.is_opaque(type_resolver) && (match &self.kind {
            TypeKind::Array(t, len) => *len <= RUST_DERIVE_IN_ARRAY_LIMIT
                && type_resolver.resolve_type(*t).can_derive_debug(type_resolver),
            TypeKind::Alias(_, t) => type_resolver.resolve_type(*t).can_derive_debug(
                type_resolver,
            ),
            TypeKind::Comp(info) => info.can_derive_debug(type_resolver),
            _ => true,
        })
    }

    /// Whether this type is eligible as the element type of an array embedded
    /// in a type that itself derives value-copy. Stricter than
    /// [`Type::can_derive_copy`]: an unresolved template parameter is a
    /// perfectly fine directly-nested field of a copyable type, but never a
    /// safe array element, since its concrete instantiation is unknown.
    pub fn can_derive_copy_in_array(&self, type_resolver: &TypeResolver) -> (r: bool)
        requires
            type_resolver.wf(),
            kind_refs_ok(self.kind, type_resolver@.len() as int),
        ensures
            r == spec_can_derive_copy_in_array(type_resolver@, *self),
        decreases rank(self.kind),
    {
        match &self.kind {
            TypeKind::Alias(_, t) => type_resolver.resolve_type(*t).can_derive_copy_in_array(
                type_resolver,
            ),
            TypeKind::Array(t, _) => type_resolver.resolve_type(*t).can_derive_copy_in_array(
                type_resolver,
            ),
            TypeKind::Named(_) => false,
            _ => self.can_derive_copy(type_resolver),
        }
    }

    /// Whether generated code may derive value-copy for this type.
    pub fn can_derive_copy(&self, type_resolver: &TypeResolver) -> (r: bool)
        requires
            type_resolver.wf(),
            kind_refs_ok(self.kind, type_resolver@.len() as int),
        ensures
            r == spec_can_derive_copy(type_resolver@, *self),
        decreases rank(self.kind),
    {
        !self.is_opaque(type_resolver) && (match &self.kind {
            TypeKind::Array(t, len) => *len <= RUST_DERIVE_IN_ARRAY_LIMIT
                && type_resolver.resolve_type(*t).can_derive_copy(type_resolver),
            TypeKind::Alias(_, t) => type_resolver.resolve_type(*t).can_derive_copy(
                type_resolver,
            ),
            TypeKind::Comp(info) => info.can_derive_copy(type_resolver),
            _ => true,
        })
    }

    /// Whether this type has a destructor. An opaque type is conservatively
    /// assumed to have one.
    pub fn has_destructor(&self, type_resolver: &TypeResolver) -> (r: bool)
        requires
            type_resolver.wf(),
            kind_refs_ok(self.kind, type_resolver@.len() as int),
        ensures
            r == spec_has_destructor(type_resolver@, *self),
        decreases rank(self.kind),
    {
        self.is_opaque(type_resolver) || (match &self.kind {
            TypeKind::Alias(_, t) => type_resolver.resolve_type(*t).has_destructor(
                type_resolver,
            ),
            TypeKind::Array(t, _) => type_resolver.resolve_type(*t).has_destructor(
                type_resolver,
            ),
            TypeKind::Comp(info) => info.has_destructor(type_resolver),
            _ => false,
        })
    }
}

} // verus!
