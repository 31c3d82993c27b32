//! Vault address derivation.
//!
//! The vault that holds the offered asset is never referenced by a
//! freestanding pointer: its address is recomputed from the record's seed
//! fields — the program id, the maker and the maker-chosen nonce — by the
//! ledger's one-way derivation, together with a collision-avoidance bump
//! chosen so that the derived address has no private key and is controllable
//! only by the program.

use vstd::prelude::*;

use crate::codec::key_from_bytes;
use crate::codec::key_to_bytes;
use crate::keys::AccountKey;

verus! {

/// What the ledger's deterministic address derivation yields for the seeds
/// `(maker, nonce)` under `program_id`: the derived vault address and its
/// bump, or nothing in the statistically improbable event that no bump gives
/// a valid off-curve address. The result is a function of the three arguments
/// alone.
pub uninterp spec fn vault_derivation(program_id: AccountKey, maker: AccountKey, nonce: u64) -> Option<(AccountKey, u8)>;

/// Relies on solana_program's `Pubkey::try_find_program_address`: off-chain
/// it computes the derived address and bump inline from the seed slices and
/// the program id alone, deterministically, and returns `None` only when no
/// bump seed yields a valid program-derived address.
#[verifier::external_body]
pub(crate) fn derive_vault_address(program_id: &AccountKey, maker: &AccountKey, nonce: u64) -> (r:
    Option<(AccountKey, u8)>)
    ensures
        r == vault_derivation(*program_id, *maker, nonce),
{
    let pid = solana_program::pubkey::Pubkey::try_from(key_to_bytes(program_id).as_slice())
        .unwrap();
    let maker_bytes = key_to_bytes(maker);
    let nonce_bytes = nonce.to_le_bytes();
    let seeds: [&[u8]; 3] = [b"vault", maker_bytes.as_slice(), &nonce_bytes];
    match solana_program::pubkey::Pubkey::try_find_program_address(&seeds, &pid) {
        Some((address, bump)) => Some((key_from_bytes(&address.to_bytes()), bump)),
        None => None,
    }
}

} // verus!
