use vstd::prelude::*;

verus! {

/// Failure outcomes reported to the caller. Every failure aborts the whole
/// call with no partial state change; nothing is retried internally.
#[derive(Clone, Copy, Debug, PartialEq, Eq, Structural)]
pub enum ErrorCode {
    /// Owners must be unique.
    UniqueOwners,
    /// The given transaction has already been executed.
    AlreadyExecuted,
    /// Threshold must be non-zero and at most the number of owners.
    InvalidThreshold,
    /// The multisig has already been created.
    MultisigAlreadyInitialized,
    /// The given owner is not part of this multisig.
    InvalidOwner,
    /// The owner list must be non-empty.
    InvalidOwnersLen,
    /// Only the recorded client may call this function.
    ClientOnly,
    /// The given owner list is empty.
    InvalidOwnerLength,
    /// Not enough owners signed this transaction.
    NotEnoughSigners,
    /// Cannot delete a transaction that has been signed by an owner.
    TransactionAlreadySigned,
    /// Arithmetic overflow or underflow in a fund or counter computation.
    Overflow,
    /// Cannot delete a transaction the owner did not create.
    UnableToDelete,
    /// Malformed parameter or length mismatch.
    ParamLength,
    /// The project is in a status incompatible with the requested action.
    InvalidStatus,
}

} // verus!
