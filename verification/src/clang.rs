use crate::function::FunctionSig;
use crate::layout::Layout;
use vstd::prelude::*;

verus! {

/// The kinds of foreign type the ingestion protocol understands, as a closed
/// tagged variant set. The foreign parser's own kind enumeration is open
/// ended; everything outside this set is translated to [`TypeKind::Other`]
/// at the boundary, so the unbounded enumeration never leaks further in.
///
/// Kinds with a nested type carry the nested description directly: a foreign
/// description is a finite tree handed over by the parser. Kinds that carry
/// their identity through a declaration (records, typedefs, enums, unexposed
/// types) carry no payload here; they are resolved through the declaration
/// handle on the enclosing [`Type`].
#[derive(Debug)]
pub enum TypeKind {
    /// An invalid type: the parser could not make sense of it.
    Invalid,
    /// A pointer, with its pointee.
    Pointer(Box<Type>),
    /// An lvalue reference, with its pointee.
    LValueReference(Box<Type>),
    /// A variable-length array, with its element type; the element count is
    /// unknown in this model.
    VariableArray(Box<Type>),
    /// An array whose length depends on an unresolved template parameter,
    /// with its element type.
    DependentSizedArray(Box<Type>),
    /// An array of unknown length, with its element type.
    IncompleteArray(Box<Type>),
    /// An array with a known, constant element count, with its element type.
    ConstantArray(Box<Type>, usize),
    /// A function prototype. The signature itself is parsed by a collaborator
    /// outside this crate.
    FunctionProto,
    /// A struct, class, or union.
    Record,
    /// A typedef.
    Typedef,
    /// A type the parser exposes no structure for.
    Unexposed,
    /// An enum.
    Enum,
    /// Sugar spelling a named type with an explicit keyword (`struct Foo`);
    /// carries the underlying named type, which ingestion unwraps to.
    Elaborated(Box<Type>),
    /// Any foreign kind outside the supported set.
    Other,
}

/// One foreign type description, as handed over by the external parser.
#[derive(Debug)]
pub struct Type {
    /// The parser's stable identity handle for this type: two descriptions
    /// carry the same `uid` exactly when they describe the same foreign type.
    pub uid: u64,
    /// The handle of the declaration this type originates from.
    pub decl: u64,
    /// The layout the parser could compute for the type, if any; absence is
    /// recorded, never escalated.
    pub layout: Option<Layout>,
    /// The kind of the type, with nested descriptions where the kind has
    /// them.
    pub kind: TypeKind,
}

/// A handle on one foreign declaration, carrying the type declared there.
#[derive(Debug)]
pub struct Cursor {
    /// The type at this declaration.
    pub cur_type: Type,
}

impl Type {
    /// Builds a foreign type description.
    pub fn new(uid: u64, decl: u64, layout: Option<Layout>, kind: TypeKind) -> (t: Self)
        ensures
            t == (Type { uid, decl, layout, kind }),
    {
        Type { uid, decl, layout, kind }
    }

    /// The signature of a function prototype. Signature parsing belongs to a
    /// collaborator outside this crate, so the model is empty.
    pub fn signature(&self) -> (s: FunctionSig)
        ensures
            s == (FunctionSig {}),
    {
        FunctionSig::new()
    }
}

/// The height of a foreign description tree: zero for a leaf kind, one more
/// than the nested description's height otherwise. Ingestion recurses along
/// nested descriptions, so its termination measure is this height.
pub open spec fn height(t: Type) -> nat
    decreases t,
{
    match t.kind {
        TypeKind::Pointer(inner) => height(*inner) + 1,
        TypeKind::LValueReference(inner) => height(*inner) + 1,
        TypeKind::VariableArray(inner) => height(*inner) + 1,
        TypeKind::DependentSizedArray(inner) => height(*inner) + 1,
        TypeKind::IncompleteArray(inner) => height(*inner) + 1,
        TypeKind::ConstantArray(inner, _) => height(*inner) + 1,
        TypeKind::Elaborated(inner) => height(*inner) + 1,
        _ => 0,
    }
}

/// Every identity handle occurring in a foreign description tree: the
/// description's own and, recursively, those of its nested descriptions.
pub open spec fn tree_uids(t: Type) -> Set<u64>
    decreases t,
{
    match t.kind {
        TypeKind::Pointer(inner) => tree_uids(*inner).insert(t.uid),
        TypeKind::LValueReference(inner) => tree_uids(*inner).insert(t.uid),
        TypeKind::VariableArray(inner) => tree_uids(*inner).insert(t.uid),
        TypeKind::DependentSizedArray(inner) => tree_uids(*inner).insert(t.uid),
        TypeKind::IncompleteArray(inner) => tree_uids(*inner).insert(t.uid),
        TypeKind::ConstantArray(inner, _) => tree_uids(*inner).insert(t.uid),
        TypeKind::Elaborated(inner) => tree_uids(*inner).insert(t.uid),
        _ => set![t.uid],
    }
}

} // verus!
