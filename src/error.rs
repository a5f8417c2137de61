use vstd::prelude::*;

verus! {

/// The ways in which an operation on the registry can fail. A failed
/// operation leaves the registry as it was.
#[derive(Clone, Copy, Debug, PartialEq, Eq, Structural)]
pub enum ContractError {
    /// An operation that needs the owner ran before the owner was recorded.
    Uninitialized,
    /// The caller of a write is not the recorded owner.
    Unauthorized,
    /// No score is stored for the queried identifier.
    AddressNotFound,
    /// The backing store refused a read or a write.
    StorageFailure,
}

} // verus!
