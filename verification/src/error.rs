use vstd::prelude::*;

verus! {

/// A fatal decoding failure. Binary level files have no soft-failure mode:
/// any of these aborts the whole decode and no partial value is surfaced.
#[derive(Clone, Copy, Debug, PartialEq, Eq, Structural)]
pub enum DecodeError {
    /// Fewer bytes remain than a primitive, collection, or compressed block
    /// requires.
    UnexpectedEof,
    /// A compressed section's bytes do not form valid zlib data.
    DecompressionError,
    /// Reserved for strict enumeration fields; no field of the current schema
    /// can produce it.
    InvalidDiscriminant,
}

} // verus!
