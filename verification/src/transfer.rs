//! The cross-program transfer adapter.
//!
//! All asset movement goes through `transfer(from, to, authority, amount)`.
//! The authority is either a user signature over the transaction — a
//! client-initiated debit — or the program's derived vault authority: the
//! seed fields that re-derive the vault address, presented in place of a
//! signature, since the vault has no private key. A rejected transfer leaves
//! both balances exactly as they were.

use vstd::prelude::*;

use crate::errors::EscrowError;
use crate::keys::AccountKey;
use crate::keys::SignerAccount;
use crate::vault::derive_vault_address;
use crate::vault::vault_derivation;

verus! {

/// One balance-holding account of the token-transfer service: its address on
/// the ledger, the principal that may authorize debits, the asset it holds
/// and how much of it.
#[derive(Clone, Copy, PartialEq, Eq, Structural, Debug)]
pub struct TokenAccount {
    pub address: AccountKey,
    pub owner: AccountKey,
    pub asset_id: AccountKey,
    pub amount: u64,
}

/// The credential presented to the transfer service for a debit.
#[derive(Clone, Copy, PartialEq, Eq, Structural, Debug)]
pub enum AuthorityProof {
    /// A valid signature of the debited account's owner.
    Signature(SignerAccount),
    /// The program's derived authority over a vault: the seed fields whose
    /// derivation must re-produce the debited account's address.
    VaultSeeds { program_id: AccountKey, maker: AccountKey, nonce: u64, bump: u8 },
}

/// Whether an authority proof governs the account to be debited: a signature
/// must be valid and come from the account's owner; vault seeds must
/// re-derive exactly the account's address and bump.
pub open spec fn authority_valid(auth: AuthorityProof, from: TokenAccount) -> bool {
    match auth {
        AuthorityProof::Signature(s) => s.is_signer && s.key == from.owner,
        AuthorityProof::VaultSeeds { program_id, maker, nonce, bump } => vault_derivation(
            program_id,
            maker,
            nonce,
        ) == Some((from.address, bump)),
    }
}

/// What one transfer instruction does, in order of the checks the service
/// makes: an invalid authority is rejected as Unauthorized; accounts holding
/// different assets cannot trade, and a credit that would overflow the
/// receiving balance is refused, both as TransferFailed; a short balance is
/// InsufficientFunds. Otherwise the amount moves from `from` to `to`.
pub open spec fn transfer_outcome(
    from: TokenAccount,
    to: TokenAccount,
    auth: AuthorityProof,
    amount: u64,
) -> Result<(TokenAccount, TokenAccount), EscrowError> {
    if !authority_valid(auth, from) {
        Err(EscrowError::Unauthorized)
    } else if from.asset_id != to.asset_id {
        Err(EscrowError::TransferFailed)
    } else if from.amount < amount {
        Err(EscrowError::InsufficientFunds)
    } else if to.amount + amount > u64::MAX {
        Err(EscrowError::TransferFailed)
    } else {
        Ok(
            (
                TokenAccount { amount: (from.amount - amount) as u64, ..from },
                TokenAccount { amount: (to.amount + amount) as u64, ..to },
            ),
        )
    }
}

/// Decides whether a transfer would be accepted, without moving anything:
/// returns exactly the error the transfer would be rejected with.
pub(crate) fn check_transfer(
    from: &TokenAccount,
    to: &TokenAccount,
    auth: &AuthorityProof,
    amount: u64,
) -> (r: Result<(), EscrowError>)
    ensures
        match transfer_outcome(*from, *to, *auth, amount) {
            Ok(_) => r == Ok::<(), EscrowError>(()),
            Err(e) => r == Err::<(), EscrowError>(e),
        },
{
    let authorized: bool = match auth {
        AuthorityProof::Signature(s) => s.is_signer && s.key == from.owner,
        AuthorityProof::VaultSeeds { program_id, maker, nonce, bump } => {
            match derive_vault_address(program_id, maker, *nonce) {
                Some((address, derived_bump)) => address == from.address && derived_bump == *bump,
                None => false,
            }
        },
    };
    if !authorized {
        Err(EscrowError::Unauthorized)
    } else if from.asset_id != to.asset_id {
        Err(EscrowError::TransferFailed)
    } else if from.amount < amount {
        Err(EscrowError::InsufficientFunds)
    } else if amount > u64::MAX - to.amount {
        Err(EscrowError::TransferFailed)
    } else {
        Ok(())
    }
}

/// Moves a transfer that `check_transfer` has already accepted.
pub(crate) fn apply_transfer(
    from: &mut TokenAccount,
    to: &mut TokenAccount,
    auth: &AuthorityProof,
    amount: u64,
)
    requires
        transfer_outcome(*old(from), *old(to), *auth, amount) is Ok,
    ensures
        transfer_outcome(*old(from), *old(to), *auth, amount) == Ok::<
            (TokenAccount, TokenAccount),
            EscrowError,
        >((*final(from), *final(to))),
{
    from.amount = from.amount - amount;
    to.amount = to.amount + amount;
}

/// The transfer adapter: presents `auth` to the token-transfer service and
/// moves `amount` from `from` to `to`, or rejects the instruction and leaves
/// both balances unchanged.
pub fn transfer(
    from: &mut TokenAccount,
    to: &mut TokenAccount,
    auth: &AuthorityProof,
    amount: u64,
) -> (r: Result<(), EscrowError>)
    ensures
        match transfer_outcome(*old(from), *old(to), *auth, amount) {
            Ok(moved) => r == Ok::<(), EscrowError>(()) && *final(from) == moved.0 && *final(to)
                == moved.1,
            Err(e) => r == Err::<(), EscrowError>(e) && *final(from) == *old(from) && *final(to)
                == *old(to),
        },
{
    match check_transfer(from, to, auth, amount) {
        Ok(()) => {
            apply_transfer(from, to, auth, amount);
            Ok(())
        },
        Err(e) => Err(e),
    }
}

} // verus!
