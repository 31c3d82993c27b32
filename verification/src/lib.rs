//! Core of an escrow program: a custodial state machine that lets two parties
//! swap assets atomically without trusting each other. An `EscrowRecord`
//! tracks one pending swap; a program-owned vault account, whose address is
//! derived deterministically from the record's seed fields, holds the offered
//! asset while the swap is pending. The four operations — initialize, deposit,
//! exchange, cancel — are verified to move funds atomically, to keep the
//! record's status moving only forward, and to keep the vault balance equal to
//! the offered amount exactly while the record is funded.

mod codec;
mod errors;
mod keys;
mod laws;
mod ops;
mod state;
mod transfer;
mod vault;

pub use codec::decode_record;
pub use codec::encode_record;
pub use codec::key_bytes;
pub use codec::key_from_bytes;
pub use codec::key_to_bytes;
pub use codec::lemma_key_bytes_injective;
pub use codec::lemma_record_bytes_injective;
pub use codec::lemma_record_bytes_parts;
pub use codec::lemma_record_bytes_well_formed;
pub use codec::lemma_taker_bytes_injective;
pub use codec::lemma_u64_le_injective;
pub use codec::push_key;
pub use codec::push_u64_le;
pub use codec::read_key;
pub use codec::read_u64_le;
pub use codec::record_bytes;
pub use codec::status_byte;
pub use codec::status_code;
pub use codec::taker_bytes;
pub use codec::u64_le;
pub use codec::well_formed_record_bytes;
pub use codec::zero_key;
pub use codec::RECORD_BYTE_LEN;
pub use errors::EscrowError;
pub use keys::AccountKey;
pub use keys::SignerAccount;
pub use laws::lemma_advance_is_forward;
pub use laws::lemma_cancel_preserves_custody;
pub use laws::lemma_cancel_returns_offered;
pub use laws::lemma_cancel_status_monotonic;
pub use laws::lemma_closed_offer_cannot_be_filled;
pub use laws::lemma_deposit_preserves_custody;
pub use laws::lemma_deposit_status_monotonic;
pub use laws::lemma_exchange_atomic;
pub use laws::lemma_exchange_preserves_custody;
pub use laws::lemma_exchange_status_monotonic;
pub use laws::lemma_initialize_deposit_funds_vault;
pub use laws::lemma_unauthorized_cancel_changes_nothing;
pub use ops::cancel;
pub use ops::cancel_outcome;
pub use ops::check_vault_account;
pub use ops::deposit;
pub use ops::deposit_outcome;
pub use ops::exchange;
pub use ops::exchange_accounts_match;
pub use ops::exchange_outcome;
pub use ops::initialize;
pub use ops::initialize_outcome;
pub use ops::require_signer;
pub use ops::signer_authorizes;
pub use ops::vault_account_matches;
pub use state::status_can_advance;
pub use state::status_rank;
pub use state::vault_consistent;
pub use state::EscrowRecord;
pub use state::EscrowStatus;
pub use transfer::authority_valid;
pub use transfer::transfer;
pub use transfer::transfer_outcome;
pub use transfer::AuthorityProof;
pub use transfer::TokenAccount;
pub use vault::vault_derivation;
