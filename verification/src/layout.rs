use vstd::prelude::*;

verus! {

/// The in-memory footprint of a type: its size and alignment, in bytes.
///
/// A layout is a plain value supplied by (or computed from) the foreign type
/// description; when none could be computed the surrounding code records the
/// layout as unknown (`None`) rather than failing.
#[derive(Clone, Copy, Debug, PartialEq, Eq, Structural)]
pub struct Layout {
    /// The size of the type, in bytes.
    pub size: usize,
    /// The alignment of the type, in bytes.
    pub align: usize,
}

impl Layout {
    /// Builds a layout from a size and an alignment, both in bytes.
    pub fn new(size: usize, align: usize) -> (l: Layout)
        ensures
            l == (Layout { size, align }),
    {
        Layout { size, align }
    }
}

} // verus!
