use escrow_core::cancel;
use escrow_core::deposit;
use escrow_core::exchange;
use escrow_core::initialize;
use escrow_core::require_signer;
use escrow_core::transfer;
use escrow_core::AccountKey;
use escrow_core::AuthorityProof;
use escrow_core::EscrowError;
use escrow_core::EscrowStatus;
use escrow_core::SignerAccount;
use escrow_core::TokenAccount;

fn key(tag: u64) -> AccountKey {
    AccountKey::new(tag, tag.wrapping_mul(31), tag.wrapping_mul(997), tag ^ 0xabcd)
}

const PROGRAM: u64 = 7;
const MAKER: u64 = 100;
const TAKER: u64 = 200;
const ASSET_A: u64 = 1;
const ASSET_B: u64 = 2;

struct Setup {
    program_id: AccountKey,
    maker: SignerAccount,
    taker: SignerAccount,
    record: escrow_core::EscrowRecord,
    maker_holding: TokenAccount,
    vault: TokenAccount,
}

/// Initialize(maker=M, offered=100 unit A, requested=50 unit B, nonce=1),
/// then Deposit 100 A from M into the vault.
fn funded_setup() -> Setup {
    let program_id = key(PROGRAM);
    let maker = SignerAccount { key: key(MAKER), is_signer: true };
    let taker = SignerAccount { key: key(TAKER), is_signer: true };
    let mut record = initialize(&program_id, &maker, key(ASSET_A), 100, key(ASSET_B), 50, 1, false)
        .expect("initialize must succeed for a signing maker and a free vault");
    assert_eq!(record.status, EscrowStatus::Uninitialized);
    assert_eq!(record.maker, maker.key);
    assert_eq!(record.taker, None);
    let mut maker_holding = TokenAccount {
        address: key(300),
        owner: maker.key,
        asset_id: key(ASSET_A),
        amount: 100,
    };
    let mut vault = TokenAccount {
        address: record.vault_address,
        owner: program_id,
        asset_id: key(ASSET_A),
        amount: 0,
    };
    let deposited = deposit(&program_id, &maker, &mut record, &mut maker_holding, &mut vault);
    assert_eq!(deposited, Ok(()));
    Setup { program_id, maker, taker, record, maker_holding, vault }
}

#[test]
fn deposit_funds_vault_with_offered_amount() {
    let s = funded_setup();
    assert_eq!(s.vault.amount, 100);
    assert_eq!(s.maker_holding.amount, 0);
    assert_eq!(s.record.status, EscrowStatus::Funded);
}

#[test]
fn full_exchange_moves_both_legs() {
    let mut s = funded_setup();
    let mut taker_paying = TokenAccount {
        address: key(400),
        owner: s.taker.key,
        asset_id: key(ASSET_B),
        amount: 50,
    };
    let mut maker_receiving = TokenAccount {
        address: key(500),
        owner: s.maker.key,
        asset_id: key(ASSET_B),
        amount: 0,
    };
    let mut taker_receiving = TokenAccount {
        address: key(600),
        owner: s.taker.key,
        asset_id: key(ASSET_A),
        amount: 0,
    };
    let r = exchange(
        &s.program_id,
        &s.taker,
        &mut s.record,
        &mut taker_paying,
        &mut maker_receiving,
        &mut s.vault,
        &mut taker_receiving,
    );
    assert_eq!(r, Ok(()));
    assert_eq!(maker_receiving.amount, 50);
    assert_eq!(taker_paying.amount, 0);
    assert_eq!(taker_receiving.amount, 100);
    assert_eq!(s.vault.amount, 0);
    assert_eq!(s.record.status, EscrowStatus::Completed);
    assert_eq!(s.record.taker, Some(s.taker.key));
}

/// Open-taker semantics, deliberately: the offer names no counterparty, and
/// any party with a valid signature who supplies the requested amount may
/// fill it — here one the maker has never seen. Only the signature itself is
/// checked.
#[test]
fn any_valid_signer_may_fill_an_open_offer() {
    let mut s = funded_setup();
    let stranger = SignerAccount { key: key(999_999), is_signer: true };
    let mut stranger_paying = TokenAccount {
        address: key(401),
        owner: stranger.key,
        asset_id: key(ASSET_B),
        amount: 50,
    };
    let mut maker_receiving = TokenAccount {
        address: key(500),
        owner: s.maker.key,
        asset_id: key(ASSET_B),
        amount: 0,
    };
    let mut stranger_receiving = TokenAccount {
        address: key(601),
        owner: stranger.key,
        asset_id: key(ASSET_A),
        amount: 0,
    };
    let r = exchange(
        &s.program_id,
        &stranger,
        &mut s.record,
        &mut stranger_paying,
        &mut maker_receiving,
        &mut s.vault,
        &mut stranger_receiving,
    );
    assert_eq!(r, Ok(()));
    assert_eq!(s.record.taker, Some(stranger.key));

    let unsigned = SignerAccount { key: key(999_999), is_signer: false };
    let mut s2 = funded_setup();
    let r = exchange(
        &s2.program_id,
        &unsigned,
        &mut s2.record,
        &mut stranger_paying,
        &mut maker_receiving,
        &mut s2.vault,
        &mut stranger_receiving,
    );
    assert_eq!(r, Err(EscrowError::Unauthorized));
}

#[test]
fn cancel_returns_offered_amount_and_blocks_exchange() {
    let mut s = funded_setup();
    let mut maker_receiving = TokenAccount {
        address: key(700),
        owner: s.maker.key,
        asset_id: key(ASSET_A),
        amount: 0,
    };
    let r = cancel(&s.program_id, &s.maker, &mut s.record, &mut s.vault, &mut maker_receiving);
    assert_eq!(r, Ok(()));
    assert_eq!(maker_receiving.amount, 100);
    assert_eq!(s.vault.amount, 0);
    assert_eq!(s.record.status, EscrowStatus::Cancelled);

    let mut taker_paying = TokenAccount {
        address: key(400),
        owner: s.taker.key,
        asset_id: key(ASSET_B),
        amount: 50,
    };
    let mut taker_receiving = TokenAccount {
        address: key(600),
        owner: s.taker.key,
        asset_id: key(ASSET_A),
        amount: 0,
    };
    let mut maker_receiving_b = TokenAccount {
        address: key(500),
        owner: s.maker.key,
        asset_id: key(ASSET_B),
        amount: 0,
    };
    let r = exchange(
        &s.program_id,
        &s.taker,
        &mut s.record,
        &mut taker_paying,
        &mut maker_receiving_b,
        &mut s.vault,
        &mut taker_receiving,
    );
    assert_eq!(r, Err(EscrowError::InvalidState));
    assert_eq!(taker_paying.amount, 50);
    assert_eq!(s.vault.amount, 0);
    assert_eq!(s.record.status, EscrowStatus::Cancelled);
}

#[test]
fn unauthorized_cancel_changes_nothing() {
    let mut s = funded_setup();
    let mut maker_receiving = TokenAccount {
        address: key(700),
        owner: s.maker.key,
        asset_id: key(ASSET_A),
        amount: 0,
    };
    let record_before = s.record;
    let vault_before = s.vault;
    let r = cancel(&s.program_id, &s.taker, &mut s.record, &mut s.vault, &mut maker_receiving);
    assert_eq!(r, Err(EscrowError::Unauthorized));
    assert_eq!(s.record, record_before);
    assert_eq!(s.vault, vault_before);
    assert_eq!(maker_receiving.amount, 0);

    let unsigned_maker = SignerAccount { key: s.maker.key, is_signer: false };
    let r = cancel(&s.program_id, &unsigned_maker, &mut s.record, &mut s.vault, &mut maker_receiving);
    assert_eq!(r, Err(EscrowError::Unauthorized));
    assert_eq!(s.record, record_before);
}

#[test]
fn initialize_rejects_occupied_vault_and_missing_signature() {
    let program_id = key(PROGRAM);
    let maker = SignerAccount { key: key(MAKER), is_signer: true };
    let r = initialize(&program_id, &maker, key(ASSET_A), 100, key(ASSET_B), 50, 1, true);
    assert_eq!(r, Err(EscrowError::AlreadyExists));
    let unsigned = SignerAccount { key: key(MAKER), is_signer: false };
    let r = initialize(&program_id, &unsigned, key(ASSET_A), 100, key(ASSET_B), 50, 1, false);
    assert_eq!(r, Err(EscrowError::Unauthorized));
}

#[test]
fn deposit_rejects_wrong_state_signer_and_funds() {
    let mut s = funded_setup();
    let mut maker_holding = TokenAccount {
        address: key(300),
        owner: s.maker.key,
        asset_id: key(ASSET_A),
        amount: 100,
    };
    let r = deposit(&s.program_id, &s.maker, &mut s.record, &mut maker_holding, &mut s.vault);
    assert_eq!(r, Err(EscrowError::InvalidState));
    assert_eq!(s.vault.amount, 100);

    let program_id = key(PROGRAM);
    let maker = SignerAccount { key: key(MAKER), is_signer: true };
    let mut record = initialize(&program_id, &maker, key(ASSET_A), 100, key(ASSET_B), 50, 2, false)
        .expect("initialize must succeed");
    let mut short_holding = TokenAccount {
        address: key(300),
        owner: maker.key,
        asset_id: key(ASSET_A),
        amount: 99,
    };
    let mut vault = TokenAccount {
        address: record.vault_address,
        owner: program_id,
        asset_id: key(ASSET_A),
        amount: 0,
    };
    let r = deposit(&program_id, &maker, &mut record, &mut short_holding, &mut vault);
    assert_eq!(r, Err(EscrowError::InsufficientFunds));
    assert_eq!(record.status, EscrowStatus::Uninitialized);
    assert_eq!(short_holding.amount, 99);
    assert_eq!(vault.amount, 0);

    let taker = SignerAccount { key: key(TAKER), is_signer: true };
    let mut holding = TokenAccount {
        address: key(300),
        owner: maker.key,
        asset_id: key(ASSET_A),
        amount: 100,
    };
    let r = deposit(&program_id, &taker, &mut record, &mut holding, &mut vault);
    assert_eq!(r, Err(EscrowError::Unauthorized));
}

#[test]
fn deposit_rejects_tampered_vault_account() {
    let program_id = key(PROGRAM);
    let maker = SignerAccount { key: key(MAKER), is_signer: true };
    let mut record = initialize(&program_id, &maker, key(ASSET_A), 100, key(ASSET_B), 50, 3, false)
        .expect("initialize must succeed");
    let mut holding = TokenAccount {
        address: key(300),
        owner: maker.key,
        asset_id: key(ASSET_A),
        amount: 100,
    };
    let mut wrong_vault = TokenAccount {
        address: key(999),
        owner: program_id,
        asset_id: key(ASSET_A),
        amount: 0,
    };
    let r = deposit(&program_id, &maker, &mut record, &mut holding, &mut wrong_vault);
    assert_eq!(r, Err(EscrowError::AccountMismatch));
    assert_eq!(record.status, EscrowStatus::Uninitialized);
    assert_eq!(holding.amount, 100);
}

#[test]
fn deposit_rejects_vault_holding_the_wrong_asset() {
    let program_id = key(PROGRAM);
    let maker = SignerAccount { key: key(MAKER), is_signer: true };
    let mut record = initialize(&program_id, &maker, key(ASSET_A), 100, key(ASSET_B), 50, 4, false)
        .expect("initialize must succeed");
    let mut holding = TokenAccount {
        address: key(300),
        owner: maker.key,
        asset_id: key(ASSET_A),
        amount: 100,
    };
    let mut vault_wrong_asset = TokenAccount {
        address: record.vault_address,
        owner: program_id,
        asset_id: key(ASSET_B),
        amount: 0,
    };
    let r = deposit(&program_id, &maker, &mut record, &mut holding, &mut vault_wrong_asset);
    assert_eq!(r, Err(EscrowError::AccountMismatch));
    assert_eq!(record.status, EscrowStatus::Uninitialized);
}

#[test]
fn exchange_rejects_receiving_accounts_of_the_wrong_party() {
    let mut s = funded_setup();
    let mut taker_paying = TokenAccount {
        address: key(400),
        owner: s.taker.key,
        asset_id: key(ASSET_B),
        amount: 50,
    };
    let mut not_the_makers = TokenAccount {
        address: key(500),
        owner: s.taker.key,
        asset_id: key(ASSET_B),
        amount: 0,
    };
    let mut taker_receiving = TokenAccount {
        address: key(600),
        owner: s.taker.key,
        asset_id: key(ASSET_A),
        amount: 0,
    };
    let r = exchange(
        &s.program_id,
        &s.taker,
        &mut s.record,
        &mut taker_paying,
        &mut not_the_makers,
        &mut s.vault,
        &mut taker_receiving,
    );
    assert_eq!(r, Err(EscrowError::AccountMismatch));
    assert_eq!(s.record.status, EscrowStatus::Funded);
    assert_eq!(s.vault.amount, 100);
    assert_eq!(taker_paying.amount, 50);
}

#[test]
fn exchange_fails_atomically_on_short_taker() {
    let mut s = funded_setup();
    let mut taker_paying = TokenAccount {
        address: key(400),
        owner: s.taker.key,
        asset_id: key(ASSET_B),
        amount: 49,
    };
    let mut maker_receiving = TokenAccount {
        address: key(500),
        owner: s.maker.key,
        asset_id: key(ASSET_B),
        amount: 0,
    };
    let mut taker_receiving = TokenAccount {
        address: key(600),
        owner: s.taker.key,
        asset_id: key(ASSET_A),
        amount: 0,
    };
    let r = exchange(
        &s.program_id,
        &s.taker,
        &mut s.record,
        &mut taker_paying,
        &mut maker_receiving,
        &mut s.vault,
        &mut taker_receiving,
    );
    assert_eq!(r, Err(EscrowError::InsufficientFunds));
    assert_eq!(taker_paying.amount, 49);
    assert_eq!(maker_receiving.amount, 0);
    assert_eq!(taker_receiving.amount, 0);
    assert_eq!(s.vault.amount, 100);
    assert_eq!(s.record.status, EscrowStatus::Funded);
    assert_eq!(s.record.taker, None);
}

#[test]
fn transfer_rejects_asset_mismatch_overflow_and_bad_authority() {
    let owner = key(10);
    let mut from = TokenAccount { address: key(11), owner, asset_id: key(ASSET_A), amount: 10 };
    let mut to = TokenAccount {
        address: key(12),
        owner: key(13),
        asset_id: key(ASSET_B),
        amount: 0,
    };
    let auth = AuthorityProof::Signature(SignerAccount { key: owner, is_signer: true });
    assert_eq!(transfer(&mut from, &mut to, &auth, 5), Err(EscrowError::TransferFailed));

    let mut to_same = TokenAccount {
        address: key(12),
        owner: key(13),
        asset_id: key(ASSET_A),
        amount: u64::MAX,
    };
    assert_eq!(transfer(&mut from, &mut to_same, &auth, 5), Err(EscrowError::TransferFailed));
    assert_eq!(from.amount, 10);
    assert_eq!(to_same.amount, u64::MAX);

    let stranger = AuthorityProof::Signature(SignerAccount { key: key(14), is_signer: true });
    assert_eq!(transfer(&mut from, &mut to_same, &stranger, 1), Err(EscrowError::Unauthorized));

    to_same.amount = 0;
    assert_eq!(transfer(&mut from, &mut to_same, &auth, 4), Ok(()));
    assert_eq!(from.amount, 6);
    assert_eq!(to_same.amount, 4);
}

#[test]
fn require_signer_demands_exact_identity() {
    let expected = key(MAKER);
    let good = SignerAccount { key: expected, is_signer: true };
    let unsigned = SignerAccount { key: expected, is_signer: false };
    let other = SignerAccount { key: key(TAKER), is_signer: true };
    assert_eq!(require_signer(&good, &expected), Ok(()));
    assert_eq!(require_signer(&unsigned, &expected), Err(EscrowError::Unauthorized));
    assert_eq!(require_signer(&other, &expected), Err(EscrowError::Unauthorized));
}

#[test]
fn errors_describe_themselves() {
    assert_eq!(EscrowError::Unauthorized.describe(), "unauthorized");
    assert_eq!(EscrowError::InvalidState.describe(), "invalid state");
    assert_eq!(EscrowError::AccountMismatch.describe(), "account mismatch");
    assert_eq!(EscrowError::InsufficientFunds.describe(), "insufficient funds");
    assert_eq!(EscrowError::TransferFailed.describe(), "transfer failed");
    assert_eq!(EscrowError::AlreadyExists.describe(), "already exists");
}
