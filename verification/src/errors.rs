//! The error taxonomy of the escrow core. Every error aborts the enclosing
//! operation with no partial mutation; nothing is retried internally.

use vstd::prelude::*;

verus! {

/// Why an escrow operation was rejected.
#[derive(Clone, Copy, PartialEq, Eq, Structural, Debug)]
pub enum EscrowError {
    /// The transaction does not carry a valid signature from the expected
    /// principal, or the presented authority proof does not govern the
    /// account to be debited.
    Unauthorized,
    /// The operation was attempted against a record whose status does not
    /// match the operation's precondition.
    InvalidState,
    /// A supplied account does not match the address re-derived from the
    /// record's seed fields, or no vault address can be derived at all.
    AccountMismatch,
    /// The account to be debited holds less than the requested amount.
    InsufficientFunds,
    /// The token-transfer service rejected the instruction for another
    /// reason: the two accounts hold different assets, or the credit would
    /// overflow the receiving balance.
    TransferFailed,
    /// Initialize found the derived vault address already occupied.
    AlreadyExists,
}

impl EscrowError {
    /// A short stable name for the error, for callers that print it.
    pub fn describe(&self) -> (r: &'static str)
        ensures
            *self == EscrowError::Unauthorized ==> r@ == "unauthorized"@,
            *self == EscrowError::InvalidState ==> r@ == "invalid state"@,
            *self == EscrowError::AccountMismatch ==> r@ == "account mismatch"@,
            *self == EscrowError::InsufficientFunds ==> r@ == "insufficient funds"@,
            *self == EscrowError::TransferFailed ==> r@ == "transfer failed"@,
            *self == EscrowError::AlreadyExists ==> r@ == "already exists"@,
    {
        match self {
            EscrowError::Unauthorized => "unauthorized",
            EscrowError::InvalidState => "invalid state",
            EscrowError::AccountMismatch => "account mismatch",
            EscrowError::InsufficientFunds => "insufficient funds",
            EscrowError::TransferFailed => "transfer failed",
            EscrowError::AlreadyExists => "already exists",
        }
    }
}

} // verus!
