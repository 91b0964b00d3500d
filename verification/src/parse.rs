use vstd::prelude::*;

verus! {

/// Why one ingestion call produced no IR node.
///
/// The three variants are deliberately distinct signals, and callers must
/// handle each: only `Invalid` is final for the foreign type at hand.
#[derive(Clone, Copy, Debug, PartialEq, Eq, Structural)]
pub enum ParseError {
    /// Recoverable: the foreign type carries its identity through its
    /// declaration, so the caller should retry by resolving the declaration
    /// instead of the bare type description.
    Recurse,
    /// Recoverable: the foreign kind is outside the supported set; the caller
    /// should skip this type and continue with its siblings.
    Continue,
    /// Fatal for this call: the foreign type is invalid, or a nested type it
    /// cannot exist without could not be resolved; the caller must not retry.
    Invalid,
}

} // verus!
