use vstd::prelude::*;

verus! {

/// A stable handle identifying one IR node inside the registry.
///
/// IR nodes refer to each other exclusively through `ItemId`s resolved via
/// [`crate::context::TypeResolver`], never through direct ownership edges;
/// that indirection is what makes self-referential aggregates representable.
/// The handle is the node's index in the registry's arena.
#[derive(Clone, Copy, Debug, PartialEq, Eq, Structural)]
pub struct ItemId(pub usize);

} // verus!
