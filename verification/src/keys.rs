//! Account identities. An address on the ledger is 32 bytes; the library
//! holds it as four 64-bit little-endian words so that equality of keys is
//! plain field equality in contracts and in executable code alike.

use vstd::prelude::*;

verus! {

/// A 32-byte ledger address, stored as four little-endian 64-bit words
/// (`w0` holds bytes 0..8 of the address, `w3` bytes 24..32).
#[derive(Clone, Copy, PartialEq, Eq, Structural, Debug, Hash)]
pub struct AccountKey {
    pub w0: u64,
    pub w1: u64,
    pub w2: u64,
    pub w3: u64,
}

impl AccountKey {
    /// Builds a key from its four little-endian words.
    pub fn new(w0: u64, w1: u64, w2: u64, w3: u64) -> (r: AccountKey)
        ensures
            r == (AccountKey { w0, w1, w2, w3 }),
    {
        AccountKey { w0, w1, w2, w3 }
    }
}

/// One account named by a transaction, together with whether the transaction
/// carries a valid signature from it. The host verifies signatures; the
/// library only reads the verdict.
#[derive(Clone, Copy, PartialEq, Eq, Structural, Debug)]
pub struct SignerAccount {
    pub key: AccountKey,
    pub is_signer: bool,
}

} // verus!
