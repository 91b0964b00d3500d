use vstd::prelude::*;

verus! {

/// A function signature.
///
/// Parsing return and parameter types belongs to a collaborator outside this
/// crate; the structural analysis here never looks inside a signature (a
/// function type trivially supports copy and debug capabilities and has no
/// destructor), so the model carries no payload.
#[derive(Clone, Debug)]
pub struct FunctionSig {}

impl FunctionSig {
    /// Builds the (empty) signature model.
    pub fn new() -> (s: FunctionSig)
        ensures
            s == (FunctionSig {}),
    {
        FunctionSig {}
    }
}

} // verus!
