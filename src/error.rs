use vstd::prelude::*;

verus! {

/// The ways a store operation can fail.
#[derive(Clone, Copy, Debug, PartialEq, Eq)]
pub enum PersonError {
    /// The id, or the edge, that the operation needs does not exist.
    NotFound,
    /// The external identifier is already held by another person.
    UniqueViolation,
    /// A local person already holds the name, compared case-insensitively.
    UsernameAlreadyExists,
    /// A profile URL could not be built from the name.
    ConstructionError,
}

} // verus!
