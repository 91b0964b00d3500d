use crate::context::TypeResolver;
use crate::layout::Layout;
use vstd::prelude::*;

verus! {

/// A compound type: a class, struct, or union.
///
/// Member enumeration and field layout belong to a collaborator outside this
/// crate. That collaborator settles, per compound type, whether the type
/// supports the copy and debug capabilities and whether it has a destructor;
/// this model records those verdicts, together with the layout the compound
/// computes for itself, as plain values. The analysis in this crate delegates
/// to them and never walks the members.
#[derive(Clone, Debug)]
pub struct CompInfo {
    /// The layout the compound type computes for itself from its members,
    /// if it could compute one.
    pub layout: Option<Layout>,
    /// Whether the compound type's own rule allows deriving debug-printing.
    pub derive_debug: bool,
    /// Whether the compound type's own rule allows deriving value-copy.
    pub derive_copy: bool,
    /// Whether the compound type has a destructor.
    pub destructor: bool,
}

impl CompInfo {
    /// Builds a compound-type model from the verdicts of the member-layout
    /// collaborator.
    pub fn new(
        layout: Option<Layout>,
        derive_debug: bool,
        derive_copy: bool,
        destructor: bool,
    ) -> (c: CompInfo)
        ensures
            c == (CompInfo { layout, derive_debug, derive_copy, destructor }),
    {
        CompInfo { layout, derive_debug, derive_copy, destructor }
    }

    /// The layout this compound type computes for itself, if any.
    pub fn layout(&self, _type_resolver: &TypeResolver) -> (l: Option<Layout>)
        ensures
            l == self.layout,
    {
        self.layout
    }

    /// Whether this compound type's own rule allows deriving debug-printing.
    pub fn can_derive_debug(&self, _type_resolver: &TypeResolver) -> (r: bool)
        ensures
            r == self.derive_debug,
    {
        self.derive_debug
    }

    /// Whether this compound type's own rule allows deriving value-copy.
    pub fn can_derive_copy(&self, _type_resolver: &TypeResolver) -> (r: bool)
        ensures
            r == self.derive_copy,
    {
        self.derive_copy
    }

    /// Whether this compound type has a destructor.
    pub fn has_destructor(&self, _type_resolver: &TypeResolver) -> (r: bool)
        ensures
            r == self.destructor,
    {
        self.destructor
    }
}

} // verus!
