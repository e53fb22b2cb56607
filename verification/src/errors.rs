use vstd::prelude::*;

verus! {

/// Rejection of malformed input while an entity is being constructed,
/// before any storage is touched.
#[derive(Clone, Copy, Debug, PartialEq, Eq)]
pub enum ValidationError {
    /// A required field was supplied empty.
    EmptyField,
    /// A patch was aimed at a non-positive contact id.
    NonPositiveId,
}

/// Failure of a repository operation.
#[derive(Clone, Copy, Debug, PartialEq, Eq)]
pub enum RepoError {
    /// The operation targeted an id that no stored row has.
    NotFound,
    /// The underlying store refused the operation: connectivity loss,
    /// a constraint violation, or exhaustion of its id space.
    Backend,
    /// A multi-step operation succeeded only partially; the caller must
    /// inspect which step failed and may need to reconcile by hand.
    Partial,
}

} // verus!
