//! The escrow record and its status machine.
//!
//! One `EscrowRecord` describes one pending swap. Its status only ever moves
//! forward: Uninitialized to Funded, and Funded to one of the two terminal
//! states, Completed or Cancelled. While the record is Funded the vault holds
//! exactly the offered amount; in every other state the vault is empty.

use vstd::prelude::*;

use crate::keys::AccountKey;

verus! {

/// Where one swap stands in its lifecycle.
#[derive(Clone, Copy, PartialEq, Eq, Structural, Debug)]
pub enum EscrowStatus {
    /// The record exists and awaits funding of its vault.
    Uninitialized,
    /// The vault holds the offered amount; the swap is open.
    Funded,
    /// The swap was filled; terminal.
    Completed,
    /// The maker withdrew the offer; terminal.
    Cancelled,
}

/// The persistent state of one pending swap.
#[derive(Clone, Copy, PartialEq, Eq, Structural, Debug)]
pub struct EscrowRecord {
    /// The party that opened the swap; immutable after creation.
    pub maker: AccountKey,
    /// The counterparty, recorded when the swap is filled.
    pub taker: Option<AccountKey>,
    /// The asset the maker deposited.
    pub offered_asset_id: AccountKey,
    /// How much of the offered asset the maker deposited.
    pub offered_amount: u64,
    /// The asset the maker wants in return.
    pub requested_asset_id: AccountKey,
    /// How much of the requested asset the maker wants.
    pub requested_amount: u64,
    /// The program-owned custody address, derived from
    /// `(program id, maker, nonce)`; never a freestanding pointer.
    pub vault_address: AccountKey,
    /// Where the swap stands.
    pub status: EscrowStatus,
    /// The collision-avoidance adjustment chosen at derivation, stored so the
    /// vault address can be re-derived and authorized without a private key.
    pub bump: u8,
    /// The maker-chosen derivation seed that keys the record.
    pub nonce: u64,
}

/// How far along its lifecycle a status is. Both terminal states rank alike:
/// nothing distinguishes them for the purpose of forward motion.
pub open spec fn status_rank(s: EscrowStatus) -> nat {
    match s {
        EscrowStatus::Uninitialized => 0,
        EscrowStatus::Funded => 1,
        EscrowStatus::Completed => 2,
        EscrowStatus::Cancelled => 2,
    }
}

/// The transitions the state machine allows, reflexively: a status may stay
/// put, advance from Uninitialized to Funded, or leave Funded for a terminal
/// state. Nothing re-enters Funded and nothing leaves a terminal state.
pub open spec fn status_can_advance(a: EscrowStatus, b: EscrowStatus) -> bool {
    ||| a == b
    ||| (a == EscrowStatus::Uninitialized && b == EscrowStatus::Funded)
    ||| (a == EscrowStatus::Funded && (b == EscrowStatus::Completed || b
        == EscrowStatus::Cancelled))
}

/// The custody invariant: the vault balance equals the offered amount exactly
/// while the record is Funded, and is zero in every other state.
pub open spec fn vault_consistent(record: EscrowRecord, vault_amount: u64) -> bool {
    if record.status == EscrowStatus::Funded {
        vault_amount == record.offered_amount
    } else {
        vault_amount == 0
    }
}

} // verus!
