//! Fixed-width binary layout.
//!
//! Integers are little-endian; a key is its four words in order; the encoding
//! of a record is the concatenation of its fields in their declared order.
//! Encoding is deterministic and injective, so decoding is deterministic too.

use vstd::prelude::*;
use vstd::assert_seqs_equal;

use crate::keys::AccountKey;
use crate::state::EscrowRecord;
use crate::state::EscrowStatus;

verus! {

/// How many bytes the fixed-width encoding of a record takes.
pub const RECORD_BYTE_LEN: usize = 187;

/// The eight little-endian bytes of a 64-bit word.
pub open spec fn u64_le(x: u64) -> Seq<u8> {
    seq![
        (x & 0xff) as u8,
        ((x >> 8) & 0xff) as u8,
        ((x >> 16) & 0xff) as u8,
        ((x >> 24) & 0xff) as u8,
        ((x >> 32) & 0xff) as u8,
        ((x >> 40) & 0xff) as u8,
        ((x >> 48) & 0xff) as u8,
        ((x >> 56) & 0xff) as u8,
    ]
}

/// The 32 bytes of a key: its four words, each little-endian, in order.
pub open spec fn key_bytes(k: AccountKey) -> Seq<u8> {
    u64_le(k.w0) + u64_le(k.w1) + u64_le(k.w2) + u64_le(k.w3)
}

/// The low byte of a word.
fn low_byte(x: u64) -> (r: u8)
    ensures
        r == (x & 0xff) as u8,
{
    proof {
        assert(x & 0xff < 256) by (bit_vector);
    }
    (x & 0xff) as u8
}

/// Appends the eight little-endian bytes of `x`.
pub fn push_u64_le(out: &mut Vec<u8>, x: u64)
    ensures
        final(out)@ == old(out)@ + u64_le(x),
{
    out.push(low_byte(x));
    out.push(low_byte(x >> 8));
    out.push(low_byte(x >> 16));
    out.push(low_byte(x >> 24));
    out.push(low_byte(x >> 32));
    out.push(low_byte(x >> 40));
    out.push(low_byte(x >> 48));
    out.push(low_byte(x >> 56));
    proof {
        assert_seqs_equal!(out@ == old(out)@ + u64_le(x));
    }
}

/// Reads the word whose eight little-endian bytes sit at `off`.
pub fn read_u64_le(b: &[u8], off: usize) -> (r: u64)
    requires
        off + 8 <= b@.len(),
    ensures
        u64_le(r) == b@.subrange(off as int, off + 8),
{
    let n = b.len();
    let b0 = b[off];
    let b1 = b[off + 1];
    let b2 = b[off + 2];
    let b3 = b[off + 3];
    let b4 = b[off + 4];
    let b5 = b[off + 5];
    let b6 = b[off + 6];
    let b7 = b[off + 7];
    let r: u64 = (b0 as u64) | ((b1 as u64) << 8) | ((b2 as u64) << 16) | ((b3 as u64) << 24)
        | ((b4 as u64) << 32) | ((b5 as u64) << 40) | ((b6 as u64) << 48) | ((b7 as u64) << 56);
    proof {
        assert((r & 0xff) as u8 == b0 && ((r >> 8) & 0xff) as u8 == b1 && ((r >> 16) & 0xff) as u8
            == b2 && ((r >> 24) & 0xff) as u8 == b3 && ((r >> 32) & 0xff) as u8 == b4 && ((r >> 40)
            & 0xff) as u8 == b5 && ((r >> 48) & 0xff) as u8 == b6 && ((r >> 56) & 0xff) as u8 == b7)
            by (bit_vector)
            requires
                r == (b0 as u64) | ((b1 as u64) << 8) | ((b2 as u64) << 16) | ((b3 as u64) << 24)
                    | ((b4 as u64) << 32) | ((b5 as u64) << 40) | ((b6 as u64) << 48) | ((b7
                    as u64) << 56),
        ;
        assert_seqs_equal!(u64_le(r) == b@.subrange(off as int, off + 8));
    }
    r
}

/// Two words with the same little-endian bytes are the same word.
pub proof fn lemma_u64_le_injective(x: u64, y: u64)
    requires
        u64_le(x) == u64_le(y),
    ensures
        x == y,
{
    assert(u64_le(x)[0] == u64_le(y)[0]);
    assert(u64_le(x)[1] == u64_le(y)[1]);
    assert(u64_le(x)[2] == u64_le(y)[2]);
    assert(u64_le(x)[3] == u64_le(y)[3]);
    assert(u64_le(x)[4] == u64_le(y)[4]);
    assert(u64_le(x)[5] == u64_le(y)[5]);
    assert(u64_le(x)[6] == u64_le(y)[6]);
    assert(u64_le(x)[7] == u64_le(y)[7]);
    assert((x & 0xff) as u8 == (y & 0xff) as u8 && ((x >> 8) & 0xff) as u8 == ((y >> 8) & 0xff)
        as u8 && ((x >> 16) & 0xff) as u8 == ((y >> 16) & 0xff) as u8 && ((x >> 24) & 0xff) as u8
        == ((y >> 24) & 0xff) as u8 && ((x >> 32) & 0xff) as u8 == ((y >> 32) & 0xff) as u8 && ((x
        >> 40) & 0xff) as u8 == ((y >> 40) & 0xff) as u8 && ((x >> 48) & 0xff) as u8 == ((y >> 48)
        & 0xff) as u8 && ((x >> 56) & 0xff) as u8 == ((y >> 56) & 0xff) as u8 ==> x == y)
        by (bit_vector);
}

/// Appends the 32 bytes of a key.
pub fn push_key(out: &mut Vec<u8>, k: &AccountKey)
    ensures
        final(out)@ == old(out)@ + key_bytes(*k),
{
    push_u64_le(out, k.w0);
    push_u64_le(out, k.w1);
    push_u64_le(out, k.w2);
    push_u64_le(out, k.w3);
    proof {
        assert_seqs_equal!(out@ == old(out)@ + key_bytes(*k));
    }
}

/// Reads the key whose 32 bytes sit at `off`.
pub fn read_key(b: &[u8], off: usize) -> (r: AccountKey)
    requires
        off + 32 <= b@.len(),
    ensures
        key_bytes(r) == b@.subrange(off as int, off + 32),
{
    let n = b.len();
    let r = AccountKey {
        w0: read_u64_le(b, off),
        w1: read_u64_le(b, off + 8),
        w2: read_u64_le(b, off + 16),
        w3: read_u64_le(b, off + 24),
    };
    proof {
        assert_seqs_equal!(key_bytes(r) == b@.subrange(off as int, off + 32));
    }
    r
}

/// A key encodes to 32 bytes.
pub proof fn lemma_key_bytes_len(k: AccountKey)
    ensures
        key_bytes(k).len() == 32,
{
    assert(u64_le(k.w0).len() == 8 && u64_le(k.w1).len() == 8 && u64_le(k.w2).len() == 8 && u64_le(
        k.w3,
    ).len() == 8);
}

/// Two keys with the same bytes are the same key.
pub proof fn lemma_key_bytes_injective(a: AccountKey, b: AccountKey)
    requires
        key_bytes(a) == key_bytes(b),
    ensures
        a == b,
{
    assert(u64_le(a.w0).len() == 8 && u64_le(a.w1).len() == 8 && u64_le(a.w2).len() == 8 && u64_le(
        a.w3,
    ).len() == 8);
    assert(u64_le(b.w0).len() == 8 && u64_le(b.w1).len() == 8 && u64_le(b.w2).len() == 8 && u64_le(
        b.w3,
    ).len() == 8);
    assert_seqs_equal!(u64_le(a.w0) == u64_le(b.w0), i => {
        assert(key_bytes(a)[i] == u64_le(a.w0)[i]);
        assert(key_bytes(b)[i] == u64_le(b.w0)[i]);
    });
    assert_seqs_equal!(u64_le(a.w1) == u64_le(b.w1), i => {
        assert(key_bytes(a)[i + 8] == u64_le(a.w1)[i]);
        assert(key_bytes(b)[i + 8] == u64_le(b.w1)[i]);
    });
    assert_seqs_equal!(u64_le(a.w2) == u64_le(b.w2), i => {
        assert(key_bytes(a)[i + 16] == u64_le(a.w2)[i]);
        assert(key_bytes(b)[i + 16] == u64_le(b.w2)[i]);
    });
    assert_seqs_equal!(u64_le(a.w3) == u64_le(b.w3), i => {
        assert(key_bytes(a)[i + 24] == u64_le(a.w3)[i]);
        assert(key_bytes(b)[i + 24] == u64_le(b.w3)[i]);
    });
    lemma_u64_le_injective(a.w0, b.w0);
    lemma_u64_le_injective(a.w1, b.w1);
    lemma_u64_le_injective(a.w2, b.w2);
    lemma_u64_le_injective(a.w3, b.w3);
}

/// The 32 bytes of a key, as a vector.
pub fn key_to_bytes(k: &AccountKey) -> (r: Vec<u8>)
    ensures
        r@ == key_bytes(*k),
{
    let mut out: Vec<u8> = Vec::new();
    push_key(&mut out, k);
    out
}

/// The key whose 32 bytes these are.
pub fn key_from_bytes(b: &[u8]) -> (r: AccountKey)
    requires
        b@.len() == 32,
    ensures
        key_bytes(r) == b@,
{
    let r = read_key(b, 0);
    proof {
        assert(b@.subrange(0, 32) == b@) by {
            assert_seqs_equal!(b@.subrange(0, 32) == b@);
        }
    }
    r
}

/// The all-zero key, standing where an absent taker would be.
pub open spec fn zero_key() -> AccountKey {
    AccountKey { w0: 0, w1: 0, w2: 0, w3: 0 }
}

/// The byte that stands for a status.
pub open spec fn status_byte(s: EscrowStatus) -> u8 {
    match s {
        EscrowStatus::Uninitialized => 0,
        EscrowStatus::Funded => 1,
        EscrowStatus::Completed => 2,
        EscrowStatus::Cancelled => 3,
    }
}

/// The 33 fixed bytes of the optional taker: a presence tag, then the key,
/// with the all-zero key standing where there is none.
pub open spec fn taker_bytes(t: Option<AccountKey>) -> Seq<u8> {
    match t {
        None => seq![0u8] + key_bytes(zero_key()),
        Some(k) => seq![1u8] + key_bytes(k),
    }
}

/// The fixed-width encoding of a record: every field in its declared order.
pub open spec fn record_bytes(r: EscrowRecord) -> Seq<u8> {
    key_bytes(r.maker) + taker_bytes(r.taker) + key_bytes(r.offered_asset_id) + u64_le(
        r.offered_amount,
    ) + key_bytes(r.requested_asset_id) + u64_le(r.requested_amount) + key_bytes(r.vault_address)
        + seq![status_byte(r.status)] + seq![r.bump] + u64_le(r.nonce)
}

/// The bytes that decode to some record: the right length, a valid presence
/// tag — backed by the all-zero key when the taker is absent — and a valid
/// status byte.
pub open spec fn well_formed_record_bytes(b: Seq<u8>) -> bool {
    &&& b.len() == 187
    &&& (b[32] == 0 || b[32] == 1)
    &&& (b[32] == 0 ==> b.subrange(33, 65) == key_bytes(zero_key()))
    &&& b[177] < 4
}

/// Where each field sits in the encoding.
pub proof fn lemma_record_bytes_parts(r: EscrowRecord)
    ensures
        record_bytes(r).len() == 187,
        record_bytes(r).subrange(0, 32) == key_bytes(r.maker),
        record_bytes(r).subrange(32, 65) == taker_bytes(r.taker),
        record_bytes(r).subrange(65, 97) == key_bytes(r.offered_asset_id),
        record_bytes(r).subrange(97, 105) == u64_le(r.offered_amount),
        record_bytes(r).subrange(105, 137) == key_bytes(r.requested_asset_id),
        record_bytes(r).subrange(137, 145) == u64_le(r.requested_amount),
        record_bytes(r).subrange(145, 177) == key_bytes(r.vault_address),
        record_bytes(r)[177] == status_byte(r.status),
        record_bytes(r)[178] == r.bump,
        record_bytes(r).subrange(179, 187) == u64_le(r.nonce),
{
    assert(key_bytes(r.maker).len() == 32 && key_bytes(r.offered_asset_id).len() == 32 && key_bytes(
        r.requested_asset_id,
    ).len() == 32 && key_bytes(r.vault_address).len() == 32);
    assert(taker_bytes(r.taker).len() == 33);
    assert(u64_le(r.offered_amount).len() == 8 && u64_le(r.requested_amount).len() == 8 && u64_le(
        r.nonce,
    ).len() == 8);
    assert_seqs_equal!(record_bytes(r).subrange(0, 32) == key_bytes(r.maker));
    assert_seqs_equal!(record_bytes(r).subrange(32, 65) == taker_bytes(r.taker));
    assert_seqs_equal!(record_bytes(r).subrange(65, 97) == key_bytes(r.offered_asset_id));
    assert_seqs_equal!(record_bytes(r).subrange(97, 105) == u64_le(r.offered_amount));
    assert_seqs_equal!(record_bytes(r).subrange(105, 137) == key_bytes(r.requested_asset_id));
    assert_seqs_equal!(record_bytes(r).subrange(137, 145) == u64_le(r.requested_amount));
    assert_seqs_equal!(record_bytes(r).subrange(145, 177) == key_bytes(r.vault_address));
    assert_seqs_equal!(record_bytes(r).subrange(179, 187) == u64_le(r.nonce));
}

/// Two optional takers with the same 33 bytes are the same.
pub proof fn lemma_taker_bytes_injective(x: Option<AccountKey>, y: Option<AccountKey>)
    requires
        taker_bytes(x) == taker_bytes(y),
    ensures
        x == y,
{
    assert(taker_bytes(x)[0] == taker_bytes(y)[0]);
    match (x, y) {
        (Some(kx), Some(ky)) => {
            lemma_key_bytes_len(kx);
            lemma_key_bytes_len(ky);
            assert(taker_bytes(x) == seq![1u8] + key_bytes(kx));
            assert(taker_bytes(y) == seq![1u8] + key_bytes(ky));
            assert_seqs_equal!(key_bytes(kx) == key_bytes(ky), i => {
                assert(taker_bytes(x)[i + 1] == taker_bytes(y)[i + 1]);
                assert((seq![1u8] + key_bytes(kx))[i + 1] == key_bytes(kx)[i]);
                assert((seq![1u8] + key_bytes(ky))[i + 1] == key_bytes(ky)[i]);
            });
            lemma_key_bytes_injective(kx, ky);
        },
        (None, None) => {},
        (Some(kx), None) => {
            assert(taker_bytes(x)[0] == 1 && taker_bytes(y)[0] == 0);
        },
        (None, Some(ky)) => {
            assert(taker_bytes(x)[0] == 0 && taker_bytes(y)[0] == 1);
        },
    }
}

/// The encoding is injective: two records with the same bytes are the same
/// record. Together with `lemma_record_bytes_well_formed` this is the
/// round trip: decoding what a record encodes to gives that record back.
pub proof fn lemma_record_bytes_injective(a: EscrowRecord, b: EscrowRecord)
    requires
        record_bytes(a) == record_bytes(b),
    ensures
        a == b,
{
    lemma_record_bytes_parts(a);
    lemma_record_bytes_parts(b);
    lemma_key_bytes_injective(a.maker, b.maker);
    lemma_taker_bytes_injective(a.taker, b.taker);
    lemma_key_bytes_injective(a.offered_asset_id, b.offered_asset_id);
    lemma_u64_le_injective(a.offered_amount, b.offered_amount);
    lemma_key_bytes_injective(a.requested_asset_id, b.requested_asset_id);
    lemma_u64_le_injective(a.requested_amount, b.requested_amount);
    lemma_key_bytes_injective(a.vault_address, b.vault_address);
    lemma_u64_le_injective(a.nonce, b.nonce);
    assert(status_byte(a.status) == status_byte(b.status));
}

/// What a record encodes to is well formed, so it decodes.
pub proof fn lemma_record_bytes_well_formed(r: EscrowRecord)
    ensures
        well_formed_record_bytes(record_bytes(r)),
{
    lemma_record_bytes_parts(r);
    assert(record_bytes(r)[32] == taker_bytes(r.taker)[0]);
    assert(record_bytes(r)[32] == 0 ==> record_bytes(r).subrange(33, 65) == key_bytes(zero_key()))
        by {
        if taker_bytes(r.taker)[0] == 0 {
            assert(r.taker is None);
            assert_seqs_equal!(record_bytes(r).subrange(33, 65) == key_bytes(zero_key()), i => {
                assert(record_bytes(r).subrange(33, 65)[i] == taker_bytes(r.taker)[i + 1]);
            });
        }
    }
}

/// The byte that stands for a status, as executable code.
pub fn status_code(s: &EscrowStatus) -> (r: u8)
    ensures
        r == status_byte(*s),
{
    match s {
        EscrowStatus::Uninitialized => 0,
        EscrowStatus::Funded => 1,
        EscrowStatus::Completed => 2,
        EscrowStatus::Cancelled => 3,
    }
}

/// Encodes a record into its fixed-width byte layout.
pub fn encode_record(r: &EscrowRecord) -> (out: Vec<u8>)
    ensures
        out@ == record_bytes(*r),
        out@.len() == 187,
{
    let mut out: Vec<u8> = Vec::new();
    push_key(&mut out, &r.maker);
    match &r.taker {
        None => {
            out.push(0u8);
            push_key(&mut out, &AccountKey { w0: 0, w1: 0, w2: 0, w3: 0 });
        },
        Some(k) => {
            out.push(1u8);
            push_key(&mut out, k);
        },
    }
    push_key(&mut out, &r.offered_asset_id);
    push_u64_le(&mut out, r.offered_amount);
    push_key(&mut out, &r.requested_asset_id);
    push_u64_le(&mut out, r.requested_amount);
    push_key(&mut out, &r.vault_address);
    out.push(status_code(&r.status));
    out.push(r.bump);
    push_u64_le(&mut out, r.nonce);
    proof {
        assert_seqs_equal!(out@ == record_bytes(*r));
    }
    out
}

/// Decodes a record from its fixed-width byte layout; rejects anything no
/// record encodes to.
pub fn decode_record(b: &[u8]) -> (r: Option<EscrowRecord>)
    ensures
        r matches Some(record) ==> b@ == record_bytes(record),
        r is Some <==> well_formed_record_bytes(b@),
{
    let n = b.len();
    if n != 187 {
        return None;
    }
    let maker = read_key(b, 0);
    let tag = b[32];
    if tag > 1 {
        return None;
    }
    let taker_key = read_key(b, 33);
    let taker: Option<AccountKey> = if tag == 0 {
        if !(taker_key.w0 == 0 && taker_key.w1 == 0 && taker_key.w2 == 0 && taker_key.w3 == 0) {
            proof {
                if b@.subrange(33, 65) == key_bytes(zero_key()) {
                    lemma_key_bytes_injective(taker_key, zero_key());
                }
            }
            return None;
        }
        None
    } else {
        Some(taker_key)
    };
    let offered_asset_id = read_key(b, 65);
    let offered_amount = read_u64_le(b, 97);
    let requested_asset_id = read_key(b, 105);
    let requested_amount = read_u64_le(b, 137);
    let vault_address = read_key(b, 145);
    let status_value = b[177];
    let status = if status_value == 0 {
        EscrowStatus::Uninitialized
    } else if status_value == 1 {
        EscrowStatus::Funded
    } else if status_value == 2 {
        EscrowStatus::Completed
    } else if status_value == 3 {
        EscrowStatus::Cancelled
    } else {
        return None;
    };
    let bump = b[178];
    let nonce = read_u64_le(b, 179);
    let record = EscrowRecord {
        maker,
        taker,
        offered_asset_id,
        offered_amount,
        requested_asset_id,
        requested_amount,
        vault_address,
        status,
        bump,
        nonce,
    };
    proof {
        assert(taker_bytes(record.taker) == b@.subrange(32, 65)) by {
            assert(key_bytes(taker_key) == b@.subrange(33, 65));
            assert_seqs_equal!(taker_bytes(record.taker) == b@.subrange(32, 65));
        }
        assert_seqs_equal!(b@ == record_bytes(record));
    }
    Some(record)
}

} // verus!

