//! The escrow state machine: Initialize, Deposit, Exchange, Cancel.
//!
//! Each operation validates the signer, the record's status and the supplied
//! accounts — in that order, and always before any transfer is attempted —
//! then moves funds through the transfer adapter and advances the record.
//! Every operation is all-or-nothing: on any error the record and every
//! balance are left exactly as they were.
//!
//! Exchange is deliberately open-taker: any counterparty with a valid
//! signature who supplies the requested amount may fill an open offer, so the
//! guard checks only that the taker signed, not that it equals a
//! pre-registered identity.

use vstd::prelude::*;

use crate::errors::EscrowError;
use crate::keys::AccountKey;
use crate::keys::SignerAccount;
use crate::state::status_can_advance;
use crate::state::EscrowRecord;
use crate::state::EscrowStatus;
use crate::transfer::transfer;
use crate::transfer::transfer_outcome;
use crate::transfer::AuthorityProof;
use crate::transfer::TokenAccount;
use crate::vault::derive_vault_address;
use crate::vault::vault_derivation;

verus! {

/// Whether the transaction carries a valid signature from exactly the
/// expected principal. Exact identity equality; no wildcard or prefix match.
pub open spec fn signer_authorizes(signer: SignerAccount, expected: AccountKey) -> bool {
    signer.is_signer && signer.key == expected
}

/// The authorization guard: rejects the operation unless the transaction
/// carries a valid signature from exactly `expected`. Pure check, no side
/// effects.
pub fn require_signer(signer: &SignerAccount, expected: &AccountKey) -> (r: Result<
    (),
    EscrowError,
>)
    ensures
        r matches Ok(()) <==> signer_authorizes(*signer, *expected),
        r matches Err(e) ==> e == EscrowError::Unauthorized,
{
    if signer.is_signer && signer.key == *expected {
        Ok(())
    } else {
        Err(EscrowError::Unauthorized)
    }
}

/// Whether a supplied vault account is the one the record speaks of:
/// re-deriving the vault address from the record's stored seed fields must
/// give exactly the supplied account's address and the stored bump, the
/// address must equal the recorded one, and the account must hold the
/// offered asset.
pub open spec fn vault_account_matches(
    program_id: AccountKey,
    record: EscrowRecord,
    vault: TokenAccount,
) -> bool {
    &&& vault_derivation(program_id, record.maker, record.nonce) == Some(
        (vault.address, record.bump),
    )
    &&& vault.address == record.vault_address
    &&& vault.asset_id == record.offered_asset_id
}

/// Re-derives the vault address from the record's seed fields and checks the
/// supplied vault account against it; the authenticity check of every
/// operation that touches the vault.
pub fn check_vault_account(
    program_id: &AccountKey,
    record: &EscrowRecord,
    vault: &TokenAccount,
) -> (r: bool)
    ensures
        r == vault_account_matches(*program_id, *record, *vault),
{
    let derived = derive_vault_address(program_id, &record.maker, record.nonce);
    match derived {
        Some((address, bump)) => address == vault.address && bump == record.bump && vault.address
            == record.vault_address && vault.asset_id == record.offered_asset_id,
        None => false,
    }
}

/// What Initialize returns: the guard first — the maker must have signed —
/// then the vault address is derived from `(program_id, maker, nonce)`; a
/// seed tuple from which no address can be derived is rejected as
/// AccountMismatch, an already occupied derived address as AlreadyExists.
/// Otherwise the new record, keyed by `(maker, nonce)`, awaiting funding.
pub open spec fn initialize_outcome(
    program_id: AccountKey,
    maker: SignerAccount,
    offered_asset_id: AccountKey,
    offered_amount: u64,
    requested_asset_id: AccountKey,
    requested_amount: u64,
    nonce: u64,
    vault_occupied: bool,
) -> Result<EscrowRecord, EscrowError> {
    if !maker.is_signer {
        Err(EscrowError::Unauthorized)
    } else {
        match vault_derivation(program_id, maker.key, nonce) {
            None => Err(EscrowError::AccountMismatch),
            Some((vault_address, bump)) => if vault_occupied {
                Err(EscrowError::AlreadyExists)
            } else {
                Ok(
                    EscrowRecord {
                        maker: maker.key,
                        taker: None,
                        offered_asset_id,
                        offered_amount,
                        requested_asset_id,
                        requested_amount,
                        vault_address,
                        status: EscrowStatus::Uninitialized,
                        bump,
                        nonce,
                    },
                )
            },
        }
    }
}

/// Allocates the record for a new swap. `vault_occupied` is the ledger's
/// answer — within this same transaction — to whether the derived vault
/// address already carries an account.
pub fn initialize(
    program_id: &AccountKey,
    maker: &SignerAccount,
    offered_asset_id: AccountKey,
    offered_amount: u64,
    requested_asset_id: AccountKey,
    requested_amount: u64,
    nonce: u64,
    vault_occupied: bool,
) -> (r: Result<EscrowRecord, EscrowError>)
    ensures
        r == initialize_outcome(
            *program_id,
            *maker,
            offered_asset_id,
            offered_amount,
            requested_asset_id,
            requested_amount,
            nonce,
            vault_occupied,
        ),
        r matches Ok(record) ==> record.status == EscrowStatus::Uninitialized && record.maker
            == maker.key && record.taker is None,
{
    if !maker.is_signer {
        return Err(EscrowError::Unauthorized);
    }
    match derive_vault_address(program_id, &maker.key, nonce) {
        None => Err(EscrowError::AccountMismatch),
        Some((vault_address, bump)) => {
            if vault_occupied {
                Err(EscrowError::AlreadyExists)
            } else {
                Ok(
                    EscrowRecord {
                        maker: maker.key,
                        taker: None,
                        offered_asset_id,
                        offered_amount,
                        requested_asset_id,
                        requested_amount,
                        vault_address,
                        status: EscrowStatus::Uninitialized,
                        bump,
                        nonce,
                    },
                )
            }
        },
    }
}

/// What Deposit does. In order: the guard — only the maker may fund the
/// record; the status — only an Uninitialized record accepts funding; the
/// supplied vault account's authenticity; then one transfer of the offered
/// amount from the maker's holding account into the vault, under the maker's
/// signature. Only when the transfer is accepted does the record become
/// Funded; on any error nothing changes.
pub open spec fn deposit_outcome(
    program_id: AccountKey,
    signer: SignerAccount,
    record: EscrowRecord,
    maker_holding: TokenAccount,
    vault: TokenAccount,
) -> (Result<(), EscrowError>, EscrowRecord, TokenAccount, TokenAccount) {
    if !signer_authorizes(signer, record.maker) {
        (Err(EscrowError::Unauthorized), record, maker_holding, vault)
    } else if record.status != EscrowStatus::Uninitialized {
        (Err(EscrowError::InvalidState), record, maker_holding, vault)
    } else if !vault_account_matches(program_id, record, vault) {
        (Err(EscrowError::AccountMismatch), record, maker_holding, vault)
    } else {
        match transfer_outcome(
            maker_holding,
            vault,
            AuthorityProof::Signature(signer),
            record.offered_amount,
        ) {
            Err(e) => (Err(e), record, maker_holding, vault),
            Ok(moved) => (
                Ok(()),
                EscrowRecord { status: EscrowStatus::Funded, ..record },
                moved.0,
                moved.1,
            ),
        }
    }
}

/// Funds the vault with the offered amount from the maker's holding account
/// and advances the record from Uninitialized to Funded.
pub fn deposit(
    program_id: &AccountKey,
    signer: &SignerAccount,
    record: &mut EscrowRecord,
    maker_holding: &mut TokenAccount,
    vault: &mut TokenAccount,
) -> (r: Result<(), EscrowError>)
    ensures
        (r, *final(record), *final(maker_holding), *final(vault)) == deposit_outcome(
            *program_id,
            *signer,
            *old(record),
            *old(maker_holding),
            *old(vault),
        ),
        r matches Err(_) ==> *final(record) == *old(record) && *final(maker_holding)
            == *old(maker_holding) && *final(vault) == *old(vault),
        r matches Ok(()) ==> final(record).status == EscrowStatus::Funded && final(vault).amount
            == old(vault).amount + old(record).offered_amount && final(maker_holding).amount
            + old(record).offered_amount == old(maker_holding).amount,
        status_can_advance(old(record).status, final(record).status),
{
    match require_signer(signer, &record.maker) {
        Err(e) => return Err(e),
        Ok(()) => (),
    }
    if record.status != EscrowStatus::Uninitialized {
        return Err(EscrowError::InvalidState);
    }
    if !check_vault_account(program_id, record, vault) {
        return Err(EscrowError::AccountMismatch);
    }
    let auth = AuthorityProof::Signature(*signer);
    match transfer(maker_holding, vault, &auth, record.offered_amount) {
        Err(e) => Err(e),
        Ok(()) => {
            record.status = EscrowStatus::Funded;
            Ok(())
        },
    }
}

/// The supplied-account validation of Exchange, beyond the vault itself: the
/// maker's receiving account must belong to the maker and hold the requested
/// asset, and the taker's receiving account must belong to the taker.
pub open spec fn exchange_accounts_match(
    taker: SignerAccount,
    record: EscrowRecord,
    maker_receiving: TokenAccount,
    taker_receiving: TokenAccount,
) -> bool {
    &&& maker_receiving.owner == record.maker
    &&& maker_receiving.asset_id == record.requested_asset_id
    &&& taker_receiving.owner == taker.key
}

/// What Exchange does. In order: the guard — any valid signer may fill an
/// open offer (open-taker by design); the status — only a Funded record can
/// be exchanged; the supplied accounts' authenticity; then the two legs,
/// decided together on the balances as they stand: the requested amount from
/// the taker to the maker under the taker's signature, and the offered
/// amount from the vault to the taker under the program's derived authority.
/// Either both legs move and the record is Completed with the taker
/// recorded, or — when either leg is rejected, the first leg's error named
/// first — no balance changes and the record stays Funded.
pub open spec fn exchange_outcome(
    program_id: AccountKey,
    taker: SignerAccount,
    record: EscrowRecord,
    taker_paying: TokenAccount,
    maker_receiving: TokenAccount,
    vault: TokenAccount,
    taker_receiving: TokenAccount,
) -> (Result<(), EscrowError>, EscrowRecord, TokenAccount, TokenAccount, TokenAccount, TokenAccount)
{
    if !taker.is_signer {
        (Err(EscrowError::Unauthorized), record, taker_paying, maker_receiving, vault, taker_receiving)
    } else if record.status != EscrowStatus::Funded {
        (Err(EscrowError::InvalidState), record, taker_paying, maker_receiving, vault, taker_receiving)
    } else if !vault_account_matches(program_id, record, vault) || !exchange_accounts_match(
        taker,
        record,
        maker_receiving,
        taker_receiving,
    ) {
        (Err(EscrowError::AccountMismatch), record, taker_paying, maker_receiving, vault, taker_receiving)
    } else {
        let leg_in = transfer_outcome(
            taker_paying,
            maker_receiving,
            AuthorityProof::Signature(taker),
            record.requested_amount,
        );
        let leg_out = transfer_outcome(
            vault,
            taker_receiving,
            AuthorityProof::VaultSeeds {
                program_id,
                maker: record.maker,
                nonce: record.nonce,
                bump: record.bump,
            },
            record.offered_amount,
        );
        match (leg_in, leg_out) {
            (Ok(moved_in), Ok(moved_out)) => (
                Ok(()),
                EscrowRecord {
                    status: EscrowStatus::Completed,
                    taker: Some(taker.key),
                    ..record
                },
                moved_in.0,
                moved_in.1,
                moved_out.0,
                moved_out.1,
            ),
            (Err(e), _) => (
                Err(e),
                record,
                taker_paying,
                maker_receiving,
                vault,
                taker_receiving,
            ),
            (Ok(_), Err(e)) => (
                Err(e),
                record,
                taker_paying,
                maker_receiving,
                vault,
                taker_receiving,
            ),
        }
    }
}

/// Fills a Funded offer atomically: the requested amount moves from the
/// taker to the maker and the offered amount moves from the vault to the
/// taker, or neither moves.
pub fn exchange(
    program_id: &AccountKey,
    taker: &SignerAccount,
    record: &mut EscrowRecord,
    taker_paying: &mut TokenAccount,
    maker_receiving: &mut TokenAccount,
    vault: &mut TokenAccount,
    taker_receiving: &mut TokenAccount,
) -> (r: Result<(), EscrowError>)
    ensures
        (
            r,
            *final(record),
            *final(taker_paying),
            *final(maker_receiving),
            *final(vault),
            *final(taker_receiving),
        ) == exchange_outcome(
            *program_id,
            *taker,
            *old(record),
            *old(taker_paying),
            *old(maker_receiving),
            *old(vault),
            *old(taker_receiving),
        ),
        r matches Err(_) ==> *final(record) == *old(record) && *final(taker_paying)
            == *old(taker_paying) && *final(maker_receiving) == *old(maker_receiving)
            && *final(vault) == *old(vault) && *final(taker_receiving) == *old(taker_receiving),
        r matches Ok(()) ==> final(record).status == EscrowStatus::Completed
            && final(record).taker == Some(taker.key),
        status_can_advance(old(record).status, final(record).status),
{
    if !taker.is_signer {
        return Err(EscrowError::Unauthorized);
    }
    if record.status != EscrowStatus::Funded {
        return Err(EscrowError::InvalidState);
    }
    let accounts_ok = maker_receiving.owner == record.maker && maker_receiving.asset_id
        == record.requested_asset_id && taker_receiving.owner == taker.key;
    if !check_vault_account(program_id, record, vault) || !accounts_ok {
        return Err(EscrowError::AccountMismatch);
    }
    let auth_in = AuthorityProof::Signature(*taker);
    let auth_out = AuthorityProof::VaultSeeds {
        program_id: *program_id,
        maker: record.maker,
        nonce: record.nonce,
        bump: record.bump,
    };
    match crate::transfer::check_transfer(
        taker_paying,
        maker_receiving,
        &auth_in,
        record.requested_amount,
    ) {
        Err(e) => return Err(e),
        Ok(()) => (),
    }
    match crate::transfer::check_transfer(vault, taker_receiving, &auth_out, record.offered_amount)
    {
        Err(e) => return Err(e),
        Ok(()) => (),
    }
    crate::transfer::apply_transfer(taker_paying, maker_receiving, &auth_in, record.requested_amount);
    crate::transfer::apply_transfer(vault, taker_receiving, &auth_out, record.offered_amount);
    record.status = EscrowStatus::Completed;
    record.taker = Some(taker.key);
    Ok(())
}

/// What Cancel does. In order: the guard — only the maker may withdraw the
/// offer; the status — only a Funded record can be cancelled; the supplied
/// accounts' authenticity, the maker's receiving account included; then one
/// transfer of the offered amount from the vault back to the maker under the
/// program's derived authority, after which the record is Cancelled. On any
/// error nothing changes.
pub open spec fn cancel_outcome(
    program_id: AccountKey,
    signer: SignerAccount,
    record: EscrowRecord,
    vault: TokenAccount,
    maker_receiving: TokenAccount,
) -> (Result<(), EscrowError>, EscrowRecord, TokenAccount, TokenAccount) {
    if !signer_authorizes(signer, record.maker) {
        (Err(EscrowError::Unauthorized), record, vault, maker_receiving)
    } else if record.status != EscrowStatus::Funded {
        (Err(EscrowError::InvalidState), record, vault, maker_receiving)
    } else if !vault_account_matches(program_id, record, vault) || maker_receiving.owner
        != record.maker {
        (Err(EscrowError::AccountMismatch), record, vault, maker_receiving)
    } else {
        match transfer_outcome(
            vault,
            maker_receiving,
            AuthorityProof::VaultSeeds {
                program_id,
                maker: record.maker,
                nonce: record.nonce,
                bump: record.bump,
            },
            record.offered_amount,
        ) {
            Err(e) => (Err(e), record, vault, maker_receiving),
            Ok(moved) => (
                Ok(()),
                EscrowRecord { status: EscrowStatus::Cancelled, ..record },
                moved.0,
                moved.1,
            ),
        }
    }
}

/// Withdraws an open offer: returns the vault's held asset to the maker and
/// advances the record from Funded to Cancelled.
pub fn cancel(
    program_id: &AccountKey,
    signer: &SignerAccount,
    record: &mut EscrowRecord,
    vault: &mut TokenAccount,
    maker_receiving: &mut TokenAccount,
) -> (r: Result<(), EscrowError>)
    ensures
        (r, *final(record), *final(vault), *final(maker_receiving)) == cancel_outcome(
            *program_id,
            *signer,
            *old(record),
            *old(vault),
            *old(maker_receiving),
        ),
        r matches Err(_) ==> *final(record) == *old(record) && *final(vault) == *old(vault)
            && *final(maker_receiving) == *old(maker_receiving),
        r matches Ok(()) ==> final(record).status == EscrowStatus::Cancelled
            && final(maker_receiving).amount == old(maker_receiving).amount
            + old(record).offered_amount && final(vault).amount + old(record).offered_amount
            == old(vault).amount,
        status_can_advance(old(record).status, final(record).status),
{
    match require_signer(signer, &record.maker) {
        Err(e) => return Err(e),
        Ok(()) => (),
    }
    if record.status != EscrowStatus::Funded {
        return Err(EscrowError::InvalidState);
    }
    if !check_vault_account(program_id, record, vault) || maker_receiving.owner != record.maker {
        return Err(EscrowError::AccountMismatch);
    }
    let auth = AuthorityProof::VaultSeeds {
        program_id: *program_id,
        maker: record.maker,
        nonce: record.nonce,
        bump: record.bump,
    };
    match transfer(vault, maker_receiving, &auth, record.offered_amount) {
        Err(e) => Err(e),
        Ok(()) => {
            record.status = EscrowStatus::Cancelled;
            Ok(())
        },
    }
}

} // verus!
