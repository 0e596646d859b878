//! Why an operation on the registry was rejected.

use vstd::prelude::*;

verus! {

/// The reasons for which the registry rejects a call. A rejected call
/// changes nothing.
#[derive(Clone, Copy, Debug, PartialEq, Eq, Structural)]
pub enum RegistryError {
    /// The caller is not the identity that the operation is reserved for.
    PermissionDenied,
    /// No record carries the requested id.
    NotFound,
    /// The record is not in the status that the transition starts from.
    InvalidState,
    /// A record with the same id is already stored.
    DuplicateId,
}

} // verus!
