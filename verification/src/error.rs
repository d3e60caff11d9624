//! Failure taxonomy of the sale vault. Every operation fails fast with one of
//! these; no partial state change accompanies an error.

use vstd::prelude::*;

verus! {

/// Why an operation on the sale vault was rejected.
#[derive(Clone, Copy, Debug, PartialEq, Eq, Structural)]
pub enum SaleError {
    /// Malformed or unknown instruction tag, or an undersized argument buffer.
    InvalidInstruction,
    /// A zero price was supplied, or no delegated authority exists for the
    /// program identity.
    InvalidArgument,
    /// A required principal did not sign the operation.
    MissingSignature,
    /// A referenced account identifier does not match the stored field.
    AccountMismatch,
    /// The record must be initialized for this operation, and is not.
    UninitializedState,
    /// The record is already initialized and cannot be initialized again.
    AlreadyInitialized,
    /// The record storage does not meet the external storage-cost exemption
    /// rule.
    StorageNotExempt,
    /// The persisted record bytes (or a referenced token account's bytes) are
    /// corrupt or of the wrong length.
    InvalidData,
    /// Reclaiming the storage balance would overflow the recipient's balance.
    InsufficientFunds,
    /// The external transfer substrate rejected a requested transfer.
    TransferFailed,
    /// Too few account references were supplied for the operation.
    MissingAccount,
    /// A payment or goods amount does not fit in 64 bits.
    ArithmeticOverflow,
}

} // verus!
