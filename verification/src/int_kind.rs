use vstd::prelude::*;

verus! {

/// The different kinds of integer-like foreign types.
///
/// Booleans and character types count as integers in this IR; none of the
/// distinctions below matter to the structural analysis in this crate, which
/// treats every integer type alike.
#[derive(Clone, Copy, Debug, PartialEq, Eq, Structural)]
pub enum IntKind {
    /// The boolean type.
    Bool,
    /// A plain character type.
    Char,
    /// An explicitly unsigned character type.
    UChar,
    /// An explicitly signed character type.
    SChar,
    /// A short signed integer.
    Short,
    /// A short unsigned integer.
    UShort,
    /// A signed integer.
    Int,
    /// An unsigned integer.
    UInt,
    /// A long signed integer.
    Long,
    /// A long unsigned integer.
    ULong,
    /// A long long signed integer.
    LongLong,
    /// A long long unsigned integer.
    ULongLong,
}

} // verus!
