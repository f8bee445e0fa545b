use vstd::prelude::*;

verus! {

/// What can go wrong in this layer. Every failure is local and is handed
/// back to the caller.
#[derive(PartialEq, Eq, Clone, Copy, Debug, Structural)]
pub enum DbError {
    /// Bytes that are too short, too long or malformed for the value asked for.
    DecodeError,
    /// A column index beyond what a row can take.
    IndexError,
    /// Two values of different variants met, or a column is missing.
    TypeMismatch,
    /// A schema was asked for with a different number of types and names.
    ConstructionError,
}

} // verus!
