//! The guarantees the escrow core exists for, stated and proved over the
//! operations' outcome functions: forward-only status motion, atomicity of
//! the exchange, fund safety of the vault, and the authorization guard's
//! effect on Cancel.

use vstd::prelude::*;

use crate::errors::EscrowError;
use crate::keys::AccountKey;
use crate::keys::SignerAccount;
use crate::ops::cancel_outcome;
use crate::ops::deposit_outcome;
use crate::ops::exchange_outcome;
use crate::ops::initialize_outcome;
use crate::ops::signer_authorizes;
use crate::state::status_can_advance;
use crate::state::status_rank;
use crate::state::vault_consistent;
use crate::state::EscrowRecord;
use crate::state::EscrowStatus;
use crate::transfer::TokenAccount;

verus! {

/// The allowed transitions only ever move a status forward: its rank never
/// decreases, a strict move strictly increases it, the two terminal states
/// are never left, and nothing re-enters Funded from later in the lifecycle.
pub proof fn lemma_advance_is_forward(a: EscrowStatus, b: EscrowStatus)
    requires
        status_can_advance(a, b),
    ensures
        status_rank(a) <= status_rank(b),
        a != b ==> status_rank(a) < status_rank(b),
        a == EscrowStatus::Completed ==> b == EscrowStatus::Completed,
        a == EscrowStatus::Cancelled ==> b == EscrowStatus::Cancelled,
        b == EscrowStatus::Funded ==> a == EscrowStatus::Uninitialized || a
            == EscrowStatus::Funded,
{
}

/// Deposit moves the status only along the allowed transitions: it either
/// leaves it unchanged or advances Uninitialized to Funded.
pub proof fn lemma_deposit_status_monotonic(
    program_id: AccountKey,
    signer: SignerAccount,
    record: EscrowRecord,
    maker_holding: TokenAccount,
    vault: TokenAccount,
)
    ensures
        status_can_advance(
            record.status,
            deposit_outcome(program_id, signer, record, maker_holding, vault).1.status,
        ),
        status_rank(record.status) <= status_rank(
            deposit_outcome(program_id, signer, record, maker_holding, vault).1.status,
        ),
{
}

/// Exchange moves the status only along the allowed transitions: it either
/// leaves it unchanged or advances Funded to Completed.
pub proof fn lemma_exchange_status_monotonic(
    program_id: AccountKey,
    taker: SignerAccount,
    record: EscrowRecord,
    taker_paying: TokenAccount,
    maker_receiving: TokenAccount,
    vault: TokenAccount,
    taker_receiving: TokenAccount,
)
    ensures
        status_can_advance(
            record.status,
            exchange_outcome(
                program_id,
                taker,
                record,
                taker_paying,
                maker_receiving,
                vault,
                taker_receiving,
            ).1.status,
        ),
        status_rank(record.status) <= status_rank(
            exchange_outcome(
                program_id,
                taker,
                record,
                taker_paying,
                maker_receiving,
                vault,
                taker_receiving,
            ).1.status,
        ),
{
}

/// Cancel moves the status only along the allowed transitions: it either
/// leaves it unchanged or advances Funded to Cancelled.
pub proof fn lemma_cancel_status_monotonic(
    program_id: AccountKey,
    signer: SignerAccount,
    record: EscrowRecord,
    vault: TokenAccount,
    maker_receiving: TokenAccount,
)
    ensures
        status_can_advance(
            record.status,
            cancel_outcome(program_id, signer, record, vault, maker_receiving).1.status,
        ),
        status_rank(record.status) <= status_rank(
            cancel_outcome(program_id, signer, record, vault, maker_receiving).1.status,
        ),
{
}

/// Fund safety of the funding path: in every Initialize followed by a Deposit
/// that succeeds, on a vault that satisfies the custody invariant, the vault
/// balance equals the offered amount immediately after the Deposit — and the
/// custody invariant holds again.
pub proof fn lemma_initialize_deposit_funds_vault(
    program_id: AccountKey,
    maker: SignerAccount,
    offered_asset_id: AccountKey,
    offered_amount: u64,
    requested_asset_id: AccountKey,
    requested_amount: u64,
    nonce: u64,
    vault_occupied: bool,
    record: EscrowRecord,
    maker_holding: TokenAccount,
    vault: TokenAccount,
)
    requires
        initialize_outcome(
            program_id,
            maker,
            offered_asset_id,
            offered_amount,
            requested_asset_id,
            requested_amount,
            nonce,
            vault_occupied,
        ) == Ok::<EscrowRecord, EscrowError>(record),
        vault_consistent(record, vault.amount),
        deposit_outcome(program_id, maker, record, maker_holding, vault).0 is Ok,
    ensures
        deposit_outcome(program_id, maker, record, maker_holding, vault).3.amount
            == offered_amount,
        vault_consistent(
            deposit_outcome(program_id, maker, record, maker_holding, vault).1,
            deposit_outcome(program_id, maker, record, maker_holding, vault).3.amount,
        ),
{
}

/// Deposit preserves the custody invariant: if the vault balance matched the
/// record's status before the call, it does after, whether or not the
/// deposit was accepted.
pub proof fn lemma_deposit_preserves_custody(
    program_id: AccountKey,
    signer: SignerAccount,
    record: EscrowRecord,
    maker_holding: TokenAccount,
    vault: TokenAccount,
)
    requires
        vault_consistent(record, vault.amount),
    ensures
        vault_consistent(
            deposit_outcome(program_id, signer, record, maker_holding, vault).1,
            deposit_outcome(program_id, signer, record, maker_holding, vault).3.amount,
        ),
{
}

/// Exchange preserves the custody invariant.
pub proof fn lemma_exchange_preserves_custody(
    program_id: AccountKey,
    taker: SignerAccount,
    record: EscrowRecord,
    taker_paying: TokenAccount,
    maker_receiving: TokenAccount,
    vault: TokenAccount,
    taker_receiving: TokenAccount,
)
    requires
        vault_consistent(record, vault.amount),
    ensures
        vault_consistent(
            exchange_outcome(
                program_id,
                taker,
                record,
                taker_paying,
                maker_receiving,
                vault,
                taker_receiving,
            ).1,
            exchange_outcome(
                program_id,
                taker,
                record,
                taker_paying,
                maker_receiving,
                vault,
                taker_receiving,
            ).4.amount,
        ),
{
}

/// Cancel preserves the custody invariant.
pub proof fn lemma_cancel_preserves_custody(
    program_id: AccountKey,
    signer: SignerAccount,
    record: EscrowRecord,
    vault: TokenAccount,
    maker_receiving: TokenAccount,
)
    requires
        vault_consistent(record, vault.amount),
    ensures
        vault_consistent(
            cancel_outcome(program_id, signer, record, vault, maker_receiving).1,
            cancel_outcome(program_id, signer, record, vault, maker_receiving).2.amount,
        ),
{
}

/// Exchange is atomic: either it succeeds, both legs move in full — the
/// requested amount from the taker to the maker, the offered amount from the
/// vault to the taker — and the record is Completed with the taker recorded;
/// or it fails and neither leg's balance nor the record changes at all.
pub proof fn lemma_exchange_atomic(
    program_id: AccountKey,
    taker: SignerAccount,
    record: EscrowRecord,
    taker_paying: TokenAccount,
    maker_receiving: TokenAccount,
    vault: TokenAccount,
    taker_receiving: TokenAccount,
)
    ensures
        ({
            let o = exchange_outcome(
                program_id,
                taker,
                record,
                taker_paying,
                maker_receiving,
                vault,
                taker_receiving,
            );
            if o.0 is Ok {
                &&& o.1 == (EscrowRecord {
                    status: EscrowStatus::Completed,
                    taker: Some(taker.key),
                    ..record
                })
                &&& o.2.amount + record.requested_amount == taker_paying.amount
                &&& o.3.amount == maker_receiving.amount + record.requested_amount
                &&& o.4.amount + record.offered_amount == vault.amount
                &&& o.5.amount == taker_receiving.amount + record.offered_amount
            } else {
                &&& o.1 == record
                &&& o.2 == taker_paying
                &&& o.3 == maker_receiving
                &&& o.4 == vault
                &&& o.5 == taker_receiving
                &&& o.1.status == record.status
            }
        }),
{
}

/// Cancel after Funded returns exactly the offered amount to the maker and
/// zeroes the vault: under the custody invariant a successful Cancel credits
/// the maker's receiving account with the offered amount and leaves the
/// vault empty, and the record Cancelled.
pub proof fn lemma_cancel_returns_offered(
    program_id: AccountKey,
    signer: SignerAccount,
    record: EscrowRecord,
    vault: TokenAccount,
    maker_receiving: TokenAccount,
)
    requires
        vault_consistent(record, vault.amount),
        cancel_outcome(program_id, signer, record, vault, maker_receiving).0 is Ok,
    ensures
        ({
            let o = cancel_outcome(program_id, signer, record, vault, maker_receiving);
            &&& o.3.amount == maker_receiving.amount + record.offered_amount
            &&& o.2.amount == 0
            &&& o.1.status == EscrowStatus::Cancelled
        }),
{
}

/// Two takers racing for the same offer cannot both win: once a record has
/// left Funded — filled or withdrawn — any further Exchange is rejected as
/// InvalidState and changes nothing, before any transfer is attempted.
pub proof fn lemma_closed_offer_cannot_be_filled(
    program_id: AccountKey,
    taker: SignerAccount,
    record: EscrowRecord,
    taker_paying: TokenAccount,
    maker_receiving: TokenAccount,
    vault: TokenAccount,
    taker_receiving: TokenAccount,
)
    requires
        record.status == EscrowStatus::Completed || record.status == EscrowStatus::Cancelled,
        taker.is_signer,
    ensures
        exchange_outcome(
            program_id,
            taker,
            record,
            taker_paying,
            maker_receiving,
            vault,
            taker_receiving,
        ) == (
            Err::<(), EscrowError>(EscrowError::InvalidState),
            record,
            taker_paying,
            maker_receiving,
            vault,
            taker_receiving,
        ),
{
}

/// An unauthorized Cancel attempt — no valid signature from the maker —
/// returns Unauthorized and leaves the record, the vault and every balance
/// unchanged.
pub proof fn lemma_unauthorized_cancel_changes_nothing(
    program_id: AccountKey,
    signer: SignerAccount,
    record: EscrowRecord,
    vault: TokenAccount,
    maker_receiving: TokenAccount,
)
    requires
        !signer_authorizes(signer, record.maker),
    ensures
        cancel_outcome(program_id, signer, record, vault, maker_receiving) == (
            Err::<(), EscrowError>(EscrowError::Unauthorized),
            record,
            vault,
            maker_receiving,
        ),
{
}

} // verus!
