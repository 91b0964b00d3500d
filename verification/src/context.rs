use crate::clang;
use crate::item::ItemId;
use crate::layout::Layout;
use crate::parse::ParseError;
use crate::ty::Type;
use crate::ty::TypeKind;
use crate::ty::kind_refs_ok;
use crate::ty::registry_wf;
use vstd::prelude::*;

verus! {

/// The lookup capability the registry exposes: given an [`ItemId`], return
/// the IR type it denotes. The analysis code depends on this capability and
/// never on the registry's storage; the arena is an append-only vector whose
/// indices are the ids.
pub struct TypeResolver {
    /// The arena of every IR type built so far, indexed by id.
    types: Vec<Type>,
}

impl View for TypeResolver {
    type V = Seq<Type>;

    closed spec fn view(&self) -> Seq<Type> {
        self.types@
    }
}

impl TypeResolver {
    /// Well-formedness: see [`registry_wf`]. Every id stored inside a type
    /// resolves, and the ids the analysis recurses through point strictly
    /// backwards in the arena.
    pub open spec fn wf(&self) -> bool {
        registry_wf(self@)
    }

    /// How many types the registry holds; ids below this count resolve.
    pub fn len(&self) -> (n: usize)
        ensures
            n == self@.len(),
    {
        self.types.len()
    }

    /// Returns the type a previously issued id denotes.
    pub fn resolve_type(&self, id: ItemId) -> (r: &Type)
        requires
            id.0 < self@.len(),
        ensures
            *r == self@[id.0 as int],
    {
        &self.types[id.0]
    }
}

/// The spec-level image of a [`BuildContext`]: the arena of IR types, the
/// table mapping already-ingested foreign identity handles to ids, and the
/// table mapping foreign declaration handles to the ids resolved for them.
#[verifier::ext_equal]
pub ghost struct ContextView {
    /// The arena of IR types, in construction order.
    pub types: Seq<Type>,
    /// The dedup table: foreign identity handle to the id it resolved to.
    pub resolved: Seq<(u64, ItemId)>,
    /// The declaration table: foreign declaration handle to the id of the
    /// item resolved through that declaration.
    pub decls: Seq<(u64, ItemId)>,
}

/// First match in an association table, scanning the most recent entry
/// first.
pub open spec fn assoc(s: Seq<(u64, ItemId)>, key: u64) -> Option<ItemId>
    decreases s.len(),
{
    if s.len() == 0 {
        None
    } else if s.last().0 == key {
        Some(s.last().1)
    } else {
        assoc(s.drop_last(), key)
    }
}

/// Every id an association table maps to resolves inside a registry of `n`
/// types.
pub open spec fn assoc_ids_ok(s: Seq<(u64, ItemId)>, n: int) -> bool {
    forall|j: int| 0 <= j < s.len() ==> (#[trigger] s[j]).1.0 < n
}

/// Well-formedness of a whole build context: the arena is well-formed and
/// both tables map only to ids that resolve in it.
pub open spec fn ctx_wf(c: ContextView) -> bool {
    &&& registry_wf(c.types)
    &&& assoc_ids_ok(c.resolved, c.types.len() as int)
    &&& assoc_ids_ok(c.decls, c.types.len() as int)
}

/// The mutable state one build threads through every ingestion call: the
/// registry of IR nodes plus the dedup and declaration tables. Construction
/// is single-threaded; once ingestion is done the context is only read.
pub struct BuildContext {
    /// The registry arena, behind the resolver capability.
    resolver: TypeResolver,
    /// The dedup table: foreign identity handles already ingested, with the
    /// id each resolved to.
    resolved: Vec<(u64, ItemId)>,
    /// The declaration table: foreign declaration handles the walker has
    /// resolved, with the id of the item each produced.
    decls: Vec<(u64, ItemId)>,
}

impl View for BuildContext {
    type V = ContextView;

    closed spec fn view(&self) -> ContextView {
        ContextView { types: self.resolver@, resolved: self.resolved@, decls: self.decls@ }
    }
}

/// Scans an association table for a key, most recent entry first.
fn assoc_lookup(entries: &Vec<(u64, ItemId)>, key: u64) -> (r: Option<ItemId>)
    ensures
        r == assoc(entries@, key),
{
    let ghost full = entries@;
    let mut i: usize = entries.len();
    proof {
        assert(full.take(i as int) =~= full);
    }
    while i > 0
        invariant
            i <= entries.len(),
            entries@ == full,
            assoc(full, key) == assoc(full.take(i as int), key),
        decreases i,
    {
        let entry = entries[i - 1];
        proof {
            assert(full.take(i as int).last() == full[i - 1]);
            assert(full.take(i as int).drop_last() =~= full.take(i - 1));
        }
        if entry.0 == key {
            return Some(entry.1);
        }
        i = i - 1;
    }
    proof {
        assert(full.take(0) =~= Seq::<(u64, ItemId)>::empty());
    }
    None
}

impl BuildContext {
    /// Builds an empty, trivially well-formed context: no types, nothing
    /// resolved, no declarations.
    pub fn new() -> (c: Self)
        ensures
            c@.types =~= Seq::<Type>::empty(),
            c@.resolved =~= Seq::<(u64, ItemId)>::empty(),
            c@.decls =~= Seq::<(u64, ItemId)>::empty(),
            ctx_wf(c@),
    {
        BuildContext { resolver: TypeResolver { types: Vec::new() }, resolved: Vec::new(), decls: Vec::new() }
    }

    /// The resolver capability over everything registered so far.
    pub fn type_resolver(&self) -> (r: &TypeResolver)
        ensures
            r@ == self@.types,
    {
        &self.resolver
    }

    /// The dedup check: the id a foreign type description already resolved
    /// to, if it was ingested before.
    pub fn builtin_or_resolved_ty(&self, ty: &clang::Type) -> (r: Option<ItemId>)
        ensures
            r == assoc(self@.resolved, ty.uid),
    {
        assoc_lookup(&self.resolved, ty.uid)
    }

    /// Registers the type resolved for a foreign declaration, issuing a fresh
    /// id for it and recording it in the declaration table. This is the entry
    /// point the external walker uses when it resolves a record, typedef or
    /// enum through its declaration; ingestion then finds the id here when a
    /// nested type carries that declaration handle.
    pub fn register_decl(&mut self, decl: u64, t: Type) -> (id: ItemId)
        requires
            kind_refs_ok(t.kind, old(self)@.types.len() as int),
        ensures
            id.0 == old(self)@.types.len(),
            final(self)@.types == old(self)@.types.push(t),
            final(self)@.resolved == old(self)@.resolved,
            final(self)@.decls == old(self)@.decls.push((decl, id)),
            ctx_wf(old(self)@) ==> ctx_wf(final(self)@),
    {
        let id = ItemId(self.resolver.types.len());
        self.resolver.types.push(t);
        self.decls.push((decl, id));
        proof {
            let c = old(self)@;
            if ctx_wf(c) {
                lemma_push_type_keeps_wf(c.types, t);
                lemma_table_push_ids_ok(
                    c.decls,
                    c.types.len() as int,
                    c.types.len() as int + 1,
                    (decl, id),
                );
                lemma_table_push_ids_ok(
                    c.resolved,
                    c.types.len() as int,
                    c.types.len() as int + 1,
                    (decl, id),
                );
            }
        }
        id
    }

    /// Registers a type directly under a foreign identity handle: the path
    /// the registry takes for builtin scalar types (integers, floats and the
    /// like), which the per-kind ingestion rules never construct themselves.
    /// The dedup check then answers for that handle, so a description of a
    /// registered builtin resolves without building anything.
    pub fn register_builtin(&mut self, uid: u64, t: Type) -> (id: ItemId)
        requires
            kind_refs_ok(t.kind, old(self)@.types.len() as int),
        ensures
            id.0 == old(self)@.types.len(),
            final(self)@.types == old(self)@.types.push(t),
            final(self)@.resolved == old(self)@.resolved.push((uid, id)),
            final(self)@.decls == old(self)@.decls,
            ctx_wf(old(self)@) ==> ctx_wf(final(self)@),
    {
        proof {
            if ctx_wf(old(self)@) {
                lemma_register_keeps_wf(old(self)@, uid, t);
            }
        }
        self.register(uid, t)
    }

    /// Registers a freshly built type under the foreign identity handle it
    /// was ingested from, issuing a fresh id for it.
    fn register(&mut self, uid: u64, t: Type) -> (id: ItemId)
        ensures
            id.0 == old(self)@.types.len(),
            final(self)@.types == old(self)@.types.push(t),
            final(self)@.resolved == old(self)@.resolved.push((uid, id)),
            final(self)@.decls == old(self)@.decls,
    {
        let id = ItemId(self.resolver.types.len());
        self.resolver.types.push(t);
        self.resolved.push((uid, id));
        id
    }

    /// The id the declaration table holds for a foreign declaration handle,
    /// if the walker has resolved that declaration.
    fn resolved_decl(&self, decl: u64) -> (r: Option<ItemId>)
        ensures
            r == assoc(self@.decls, decl),
    {
        assoc_lookup(&self.decls, decl)
    }
}

/// What one successful ingestion call produces.
#[derive(Debug)]
pub enum TypeResult {
    /// The foreign type was already mapped to an existing IR node; nothing
    /// new was constructed.
    AlreadyResolved(ItemId),
    /// A freshly built type, together with the handle of the foreign
    /// declaration it originated from, for the caller to register under a
    /// fresh id.
    New(Type, u64),
}

/// The type ingestion builds around a structural payload: anonymous, with the
/// opportunistically computed layout attached and all flags defaulted off.
pub open spec fn built_type(layout: Option<Layout>, kind: TypeKind) -> Type {
    Type { name: None, layout, opaque: false, hidden: false, kind, is_toplevel: false }
}

/// What [`Type::from_clang_ty`] returns and how it changes the context, as a
/// function of the context it starts from.
///
/// The dedup check comes first, unconditionally, for every foreign kind.
/// Then: an invalid type is fatal for this call; pointers and references
/// ingest their pointee; the array flavors without a known element count
/// degrade to a pointer to their element; a constant-size array keeps its
/// count; a function prototype carries its externally parsed signature; a
/// record, typedef, unexposed type or enum asks the caller to retry through
/// its declaration; elaborated sugar is unwrapped transparently; every other
/// kind is skipped. A failure to ingest the nested type of a pointer,
/// reference or array is fatal for the containing call.
pub open spec fn spec_from_clang_ty(c: ContextView, ty: clang::Type) -> (
    Result<TypeResult, ParseError>,
    ContextView,
)
    decreases clang::height(ty), 0int,
{
    if assoc(c.resolved, ty.uid) is Some {
        (Ok(TypeResult::AlreadyResolved(assoc(c.resolved, ty.uid)->0)), c)
    } else {
        match ty.kind {
            clang::TypeKind::Invalid => (Err(ParseError::Invalid), c),
            clang::TypeKind::Pointer(inner) => {
                let (r, c2) = spec_from_ty(c, *inner);
                match r {
                    Ok(id) => (
                        Ok(TypeResult::New(built_type(ty.layout, TypeKind::Pointer(id)), ty.decl)),
                        c2,
                    ),
                    Err(_) => (Err(ParseError::Invalid), c2),
                }
            },
            clang::TypeKind::LValueReference(inner) => {
                let (r, c2) = spec_from_ty(c, *inner);
                match r {
                    Ok(id) => (
                        Ok(
                            TypeResult::New(
                                built_type(ty.layout, TypeKind::Reference(id)),
                                ty.decl,
                            ),
                        ),
                        c2,
                    ),
                    Err(_) => (Err(ParseError::Invalid), c2),
                }
            },
            clang::TypeKind::VariableArray(inner) => {
                let (r, c2) = spec_from_ty(c, *inner);
                match r {
                    Ok(id) => (
                        Ok(TypeResult::New(built_type(ty.layout, TypeKind::Pointer(id)), ty.decl)),
                        c2,
                    ),
                    Err(_) => (Err(ParseError::Invalid), c2),
                }
            },
            clang::TypeKind::DependentSizedArray(inner) => {
                let (r, c2) = spec_from_ty(c, *inner);
                match r {
                    Ok(id) => (
                        Ok(TypeResult::New(built_type(ty.layout, TypeKind::Pointer(id)), ty.decl)),
                        c2,
                    ),
                    Err(_) => (Err(ParseError::Invalid), c2),
                }
            },
            clang::TypeKind::IncompleteArray(inner) => {
                let (r, c2) = spec_from_ty(c, *inner);
                match r {
                    Ok(id) => (
                        Ok(TypeResult::New(built_type(ty.layout, TypeKind::Pointer(id)), ty.decl)),
                        c2,
                    ),
                    Err(_) => (Err(ParseError::Invalid), c2),
                }
            },
            clang::TypeKind::ConstantArray(inner, n) => {
                let (r, c2) = spec_from_ty(c, *inner);
                match r {
                    Ok(id) => (
                        Ok(TypeResult::New(built_type(ty.layout, TypeKind::Array(id, n)), ty.decl)),
                        c2,
                    ),
                    Err(_) => (Err(ParseError::Invalid), c2),
                }
            },
            clang::TypeKind::FunctionProto => (
                Ok(
                    TypeResult::New(
                        built_type(ty.layout, TypeKind::Function(crate::function::FunctionSig {})),
                        ty.decl,
                    ),
                ),
                c,
            ),
            clang::TypeKind::Record => (Err(ParseError::Recurse), c),
            clang::TypeKind::Typedef => (Err(ParseError::Recurse), c),
            clang::TypeKind::Unexposed => (Err(ParseError::Recurse), c),
            clang::TypeKind::Enum => (Err(ParseError::Recurse), c),
            clang::TypeKind::Elaborated(inner) => spec_from_clang_ty(c, *inner),
            clang::TypeKind::Other => (Err(ParseError::Continue), c),
        }
    }
}

/// What [`BuildContext::from_ty`] returns and how it changes the context:
/// ingest the description, then register a fresh type under the
/// description's identity handle, pass an already known id through, or — when
/// ingestion asks to recurse — look the declaration up in the declaration
/// table, propagating the request when the walker has not resolved that
/// declaration yet.
pub open spec fn spec_from_ty(c: ContextView, ty: clang::Type) -> (
    Result<ItemId, ParseError>,
    ContextView,
)
    decreases clang::height(ty), 1int,
{
    let (r, c2) = spec_from_clang_ty(c, ty);
    match r {
        Ok(TypeResult::AlreadyResolved(id)) => (Ok(id), c2),
        Ok(TypeResult::New(t, _decl)) => {
            let id = ItemId(c2.types.len() as usize);
            (
                Ok(id),
                ContextView {
                    types: c2.types.push(t),
                    resolved: c2.resolved.push((ty.uid, id)),
                    decls: c2.decls,
                },
            )
        },
        Err(ParseError::Recurse) => match assoc(c2.decls, ty.decl) {
            Some(id) => (Ok(id), c2),
            None => (Err(ParseError::Recurse), c2),
        },
        Err(e) => (Err(e), c2),
    }
}

impl Type {
    /// Translates one foreign type description into an IR node, threading the
    /// build context through nested ingestions. Returns the id the
    /// description already resolved to, a fresh type for the caller to
    /// register, or one of the three failure signals; see
    /// [`spec_from_clang_ty`] for the per-kind rules.
    pub fn from_clang_ty(ty: &clang::Type, ctx: &mut BuildContext) -> (r: Result<
        TypeResult,
        ParseError,
    >)
        ensures
            r == spec_from_clang_ty(old(ctx)@, *ty).0,
            final(ctx)@ == spec_from_clang_ty(old(ctx)@, *ty).1,
        decreases clang::height(*ty), 0int,
    {
        if let Some(id) = ctx.builtin_or_resolved_ty(ty) {
            return Ok(TypeResult::AlreadyResolved(id));
        }

        let layout = ty.layout;
        let decl = ty.decl;
        let kind = match &ty.kind {
            clang::TypeKind::Invalid => {
                return Err(ParseError::Invalid);
            },
            clang::TypeKind::Pointer(inner) => {
                match ctx.from_ty(inner) {
                    Ok(id) => TypeKind::Pointer(id),
                    Err(_) => {
                        return Err(ParseError::Invalid);
                    },
                }
            },
            clang::TypeKind::LValueReference(inner) => {
                match ctx.from_ty(inner) {
                    Ok(id) => TypeKind::Reference(id),
                    Err(_) => {
                        return Err(ParseError::Invalid);
                    },
                }
            },
            clang::TypeKind::VariableArray(inner) => {
                match ctx.from_ty(inner) {
                    Ok(id) => TypeKind::Pointer(id),
                    Err(_) => {
                        return Err(ParseError::Invalid);
                    },
                }
            },
            clang::TypeKind::DependentSizedArray(inner) => {
                match ctx.from_ty(inner) {
                    Ok(id) => TypeKind::Pointer(id),
                    Err(_) => {
                        return Err(ParseError::Invalid);
                    },
                }
            },
            clang::TypeKind::IncompleteArray(inner) => {
                match ctx.from_ty(inner) {
                    Ok(id) => TypeKind::Pointer(id),
                    Err(_) => {
                        return Err(ParseError::Invalid);
                    },
                }
            },
            clang::TypeKind::ConstantArray(inner, n) => {
                match ctx.from_ty(inner) {
                    Ok(id) => TypeKind::Array(id, *n),
                    Err(_) => {
                        return Err(ParseError::Invalid);
                    },
                }
            },
            clang::TypeKind::FunctionProto => TypeKind::Function(ty.signature()),
            clang::TypeKind::Record => {
                return Err(ParseError::Recurse);
            },
            clang::TypeKind::Typedef => {
                return Err(ParseError::Recurse);
            },
            clang::TypeKind::Unexposed => {
                return Err(ParseError::Recurse);
            },
            clang::TypeKind::Enum => {
                return Err(ParseError::Recurse);
            },
            clang::TypeKind::Elaborated(inner) => {
                return Self::from_clang_ty(inner, ctx);
            },
            clang::TypeKind::Other => {
                return Err(ParseError::Continue);
            },
        };

        Ok(TypeResult::New(Type::new(None, layout, kind), decl))
    }

    /// Parses the type at a declaration: the hook the foreign-AST walker
    /// calls on each declaration it visits. Hands back the freshly built type
    /// when ingestion constructed one, and nothing when the type was invalid,
    /// already resolved, or signalled a recoverable failure.
    pub fn parse(cursor: clang::Cursor, ctx: &mut BuildContext) -> (r: Option<Type>)
        ensures
            r == spec_parse(old(ctx)@, cursor).0,
            final(ctx)@ == spec_parse(old(ctx)@, cursor).1,
    {
        if matches!(cursor.cur_type.kind, clang::TypeKind::Invalid) {
            return None;
        }

        match Type::from_clang_ty(&cursor.cur_type, ctx) {
            Ok(TypeResult::New(item, _decl)) => Some(item),
            _ => None,
        }
    }
}

/// What [`Type::parse`] returns and how it changes the context: nothing for
/// an invalid type, otherwise the freshly built type when ingestion
/// constructed one.
pub open spec fn spec_parse(c: ContextView, cursor: clang::Cursor) -> (Option<Type>, ContextView) {
    if cursor.cur_type.kind is Invalid {
        (None, c)
    } else {
        let (r, c2) = spec_from_clang_ty(c, cursor.cur_type);
        match r {
            Ok(TypeResult::New(t, _decl)) => (Some(t), c2),
            _ => (None, c2),
        }
    }
}

impl BuildContext {
    /// Resolves a foreign type description to an id: the dedup table first,
    /// then ingestion, registering a freshly built type; when the type
    /// carries its identity through its declaration, the declaration table
    /// answers, or the request to resolve the declaration is handed back to
    /// the caller.
    pub fn from_ty(&mut self, ty: &clang::Type) -> (r: Result<ItemId, ParseError>)
        ensures
            r == spec_from_ty(old(self)@, *ty).0,
            final(self)@ == spec_from_ty(old(self)@, *ty).1,
            ctx_wf(old(self)@) ==> {
                &&& ctx_wf(final(self)@)
                &&& (r matches Ok(id) ==> id.0 < final(self)@.types.len())
            },
        decreases clang::height(*ty), 1int,
    {
        proof {
            if ctx_wf(old(self)@) {
                lemma_ingest_preserves_wf(old(self)@, *ty);
            }
        }
        match Type::from_clang_ty(ty, self) {
            Ok(TypeResult::AlreadyResolved(id)) => Ok(id),
            Ok(TypeResult::New(t, _decl)) => {
                let id = self.register(ty.uid, t);
                Ok(id)
            },
            Err(ParseError::Recurse) => match self.resolved_decl(ty.decl) {
                Some(id) => Ok(id),
                None => Err(ParseError::Recurse),
            },
            Err(e) => Err(e),
        }
    }
}

/// An association table that only maps into a registry of `n` types answers
/// every lookup with an id below `n`.
proof fn lemma_assoc_ids_ok(s: Seq<(u64, ItemId)>, key: u64, n: int)
    requires
        assoc_ids_ok(s, n),
        assoc(s, key) is Some,
    ensures
        (assoc(s, key)->0).0 < n,
    decreases s.len(),
{
    if s.len() > 0 && s.last().0 != key {
        assert forall|j: int| 0 <= j < s.drop_last().len() implies (#[trigger] s.drop_last()[j]).1.0
            < n by {
            assert(s.drop_last()[j] == s[j]);
        }
        lemma_assoc_ids_ok(s.drop_last(), key, n);
    }
}

/// Law: only the construction of a fresh type ever changes the context. A
/// failed ingestion call — whichever of the three failure signals came back —
/// and a call answered from the dedup table both leave the context exactly
/// as they found it: no type registered, no table entry written.
pub proof fn lemma_ingest_error_leaves_context(c: ContextView, ty: clang::Type)
    ensures
        !(spec_from_clang_ty(c, ty).0 matches Ok(TypeResult::New(_, _)))
            ==> spec_from_clang_ty(c, ty).1 == c,
        spec_from_ty(c, ty).0 is Err ==> spec_from_ty(c, ty).1 == c,
    decreases clang::height(ty), 2int,
{
    if assoc(c.resolved, ty.uid) is None {
        match ty.kind {
            clang::TypeKind::Pointer(inner) => lemma_ingest_error_leaves_context(c, *inner),
            clang::TypeKind::LValueReference(inner) => lemma_ingest_error_leaves_context(
                c,
                *inner,
            ),
            clang::TypeKind::VariableArray(inner) => lemma_ingest_error_leaves_context(c, *inner),
            clang::TypeKind::DependentSizedArray(inner) => lemma_ingest_error_leaves_context(
                c,
                *inner,
            ),
            clang::TypeKind::IncompleteArray(inner) => lemma_ingest_error_leaves_context(
                c,
                *inner,
            ),
            clang::TypeKind::ConstantArray(inner, _) => lemma_ingest_error_leaves_context(
                c,
                *inner,
            ),
            clang::TypeKind::Elaborated(inner) => lemma_ingest_error_leaves_context(c, *inner),
            _ => {},
        }
    }
}

/// Law: ingestion keeps the context well formed and append-only. Every type
/// already registered stays at its index untouched, the declaration table is
/// never written by ingestion, every id handed out resolves, and a freshly
/// built type only refers to ids that resolve — so the registry invariant
/// (no dangling id, analysis edges pointing strictly backwards) is preserved
/// by every ingestion call.
pub proof fn lemma_ingest_preserves_wf(c: ContextView, ty: clang::Type)
    requires
        ctx_wf(c),
    ensures
        ({
            let (r, c2) = spec_from_clang_ty(c, ty);
            &&& ctx_wf(c2)
            &&& c2.types.len() >= c.types.len()
            &&& c2.types.subrange(0, c.types.len() as int) == c.types
            &&& c2.decls == c.decls
            &&& (r matches Ok(TypeResult::AlreadyResolved(id)) ==> id.0 < c2.types.len())
            &&& (r matches Ok(TypeResult::New(t, _d)) ==> kind_refs_ok(
                t.kind,
                c2.types.len() as int,
            ))
        }),
        ({
            let (r, c1) = spec_from_ty(c, ty);
            &&& ctx_wf(c1)
            &&& c1.types.len() >= c.types.len()
            &&& c1.types.subrange(0, c.types.len() as int) == c.types
            &&& c1.decls == c.decls
            &&& (r matches Ok(id) ==> id.0 < c1.types.len())
        }),
    decreases clang::height(ty), 2int,
{
    assert(c.types.subrange(0, c.types.len() as int) =~= c.types);
    if assoc(c.resolved, ty.uid) is Some {
        lemma_assoc_ids_ok(c.resolved, ty.uid, c.types.len() as int);
    } else {
        match ty.kind {
            clang::TypeKind::Pointer(inner) => lemma_ingest_preserves_wf(c, *inner),
            clang::TypeKind::LValueReference(inner) => lemma_ingest_preserves_wf(c, *inner),
            clang::TypeKind::VariableArray(inner) => lemma_ingest_preserves_wf(c, *inner),
            clang::TypeKind::DependentSizedArray(inner) => lemma_ingest_preserves_wf(c, *inner),
            clang::TypeKind::IncompleteArray(inner) => lemma_ingest_preserves_wf(c, *inner),
            clang::TypeKind::ConstantArray(inner, _) => lemma_ingest_preserves_wf(c, *inner),
            clang::TypeKind::Elaborated(inner) => lemma_ingest_preserves_wf(c, *inner),
            _ => {},
        }
    }

    let (r0, c2) = spec_from_clang_ty(c, ty);
    match r0 {
        Ok(TypeResult::New(t, _d)) => {
            lemma_register_keeps_wf(c2, ty.uid, t);
        },
        Err(ParseError::Recurse) => {
            if assoc(c2.decls, ty.decl) is Some {
                lemma_assoc_ids_ok(c2.decls, ty.decl, c2.types.len() as int);
            }
        },
        _ => {},
    }
}

/// Appending one type whose every reference already resolves keeps the
/// arena well formed.
proof fn lemma_push_type_keeps_wf(types: Seq<Type>, t: Type)
    requires
        registry_wf(types),
        kind_refs_ok(t.kind, types.len() as int),
    ensures
        registry_wf(types.push(t)),
{
    let n = types.len() as int;
    let new_types = types.push(t);
    assert forall|i: int| 0 <= i < new_types.len() implies crate::ty::kind_wf_at(
        (#[trigger] new_types[i]).kind,
        i,
        new_types.len() as int,
    ) by {
        if i < n {
            assert(crate::ty::kind_wf_at(types[i].kind, i, n));
            assert(new_types[i] == types[i]);
        } else {
            assert(new_types[i] == t);
        }
    }
}

/// An association table stays within bounds when the registry only grows and
/// any appended entry is within the new bound.
proof fn lemma_table_push_ids_ok(s: Seq<(u64, ItemId)>, n: int, m: int, e: (u64, ItemId))
    requires
        assoc_ids_ok(s, n),
        n <= m,
        e.1.0 < m,
    ensures
        assoc_ids_ok(s.push(e), m),
        assoc_ids_ok(s, m),
{
    assert forall|j: int| 0 <= j < s.push(e).len() implies (#[trigger] s.push(e)[j]).1.0 < m by {
        if j < s.len() {
            assert(s.push(e)[j] == s[j]);
            assert(s[j].1.0 < n);
        } else {
            assert(s.push(e)[j] == e);
        }
    }
    assert forall|j: int| 0 <= j < s.len() implies (#[trigger] s[j]).1.0 < m by {
        assert(s[j].1.0 < n);
    }
}

/// Registering one freshly built type under a fresh id keeps the context
/// well formed, provided everything the type refers to already resolves.
proof fn lemma_register_keeps_wf(c: ContextView, uid: u64, t: Type)
    requires
        ctx_wf(c),
        kind_refs_ok(t.kind, c.types.len() as int),
    ensures
        ({
            let id = ItemId(c.types.len() as usize);
            let c1 = ContextView {
                types: c.types.push(t),
                resolved: c.resolved.push((uid, id)),
                decls: c.decls,
            };
            &&& ctx_wf(c1)
            &&& id.0 < c1.types.len()
        }),
{
    let n = c.types.len() as int;
    let id = ItemId(c.types.len() as usize);
    assert(id.0 <= n);
    lemma_push_type_keeps_wf(c.types, t);
    lemma_table_push_ids_ok(c.resolved, n, n + 1, (uid, id));
    lemma_table_push_ids_ok(c.decls, n, n + 1, (uid, id));
}

/// Law: ingestion deduplicates. Running one and the same foreign type
/// description through [`BuildContext::from_ty`] twice in a row gives the
/// second run the very outcome of the first, on an unchanged context: the
/// identical id when the first run succeeded, and never a duplicate type.
pub proof fn lemma_ingest_dedup(c: ContextView, ty: clang::Type)
    ensures
        ({
            let (r, c1) = spec_from_ty(c, ty);
            spec_from_ty(c1, ty) == (r, c1)
        }),
{
    lemma_ingest_error_leaves_context(c, ty);
    let (r0, c2) = spec_from_clang_ty(c, ty);
    let (r, c1) = spec_from_ty(c, ty);
    match r0 {
        Ok(TypeResult::New(t, _d)) => {
            let id = ItemId(c2.types.len() as usize);
            assert(c1.resolved.last() == (ty.uid, id));
            assert(assoc(c1.resolved, ty.uid) == Some(id));
            assert(spec_from_clang_ty(c1, ty) == (
                Ok::<TypeResult, ParseError>(TypeResult::AlreadyResolved(id)),
                c1,
            ));
        },
        _ => {},
    }
}

/// Law: ingesting elaborated sugar is ingesting the named type under it. The
/// dedup check on the sugar's own identity still comes first; past it, the
/// run is the run on the underlying type.
pub proof fn lemma_elaborated_unwraps(c: ContextView, ty: clang::Type, inner: clang::Type)
    requires
        ty.kind == clang::TypeKind::Elaborated(Box::new(inner)),
        assoc(c.resolved, ty.uid) is None,
    ensures
        spec_from_clang_ty(c, ty) == spec_from_clang_ty(c, inner),
{
}

/// Law: an elaborated spelling and the bare named type under it resolve to
/// the same IR type: the same id comes back, the same types are registered,
/// and the declaration table ends the same — provided both descriptions
/// carry the same declaration handle and neither was ingested before.
pub proof fn lemma_elaborated_resolves_like_named(
    c: ContextView,
    ty: clang::Type,
    inner: clang::Type,
)
    requires
        ty.kind == clang::TypeKind::Elaborated(Box::new(inner)),
        ty.decl == inner.decl,
        assoc(c.resolved, ty.uid) is None,
        assoc(c.resolved, inner.uid) is None,
    ensures
        spec_from_ty(c, ty).0 == spec_from_ty(c, inner).0,
        spec_from_ty(c, ty).1.types == spec_from_ty(c, inner).1.types,
        spec_from_ty(c, ty).1.decls == spec_from_ty(c, inner).1.decls,
{
    lemma_elaborated_unwraps(c, ty, inner);
}

/// Law: a foreign kind outside the supported set is skipped, not fatal, and
/// ingesting it does not touch the registry: the caller can carry on with
/// sibling types against an unchanged context.
pub proof fn lemma_unsupported_skips(c: ContextView, ty: clang::Type)
    requires
        ty.kind is Other,
        assoc(c.resolved, ty.uid) is None,
    ensures
        spec_from_ty(c, ty) == (Err::<ItemId, ParseError>(ParseError::Continue), c),
        spec_from_clang_ty(c, ty) == (Err::<TypeResult, ParseError>(ParseError::Continue), c),
{
}

} // verus!
