use vstd::prelude::*;

verus! {

/// An enum type.
///
/// Variant enumeration and representation selection belong to a collaborator
/// outside this crate; the structural analysis here never looks inside an
/// enum (every enum trivially supports copy and debug capabilities and has
/// no destructor), so the model carries no payload.
#[derive(Clone, Debug)]
pub struct Enum {}

impl Enum {
    /// Builds the (empty) enum model.
    pub fn new() -> (e: Enum)
        ensures
            e == (Enum {}),
    {
        Enum {}
    }
}

} // verus!
