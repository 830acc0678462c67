use std::str::FromStr;

use anchor_lang::prelude::Pubkey;
use example_store::error::StoreError;
use example_store::ixs::{reset_store, reset_store_at, set_store, ResetStore, SetStore};
use example_store::layout::{
    decode_store, encode_store, event_data, reset_discriminator, store_discriminator,
};
use example_store::ledger::Ledger;
use example_store::state::{seed_bytes, Address, ExampleStore, StoreReset, STORE_SPACE};

const RENT: u64 = 1_002_240;
const STORE_DISC: [u8; 8] = [47, 165, 99, 162, 180, 239, 153, 133];
const RESET_DISC: [u8; 8] = [166, 9, 94, 179, 168, 201, 79, 214];

fn program() -> Address {
    let key = Pubkey::from_str("6mSByxsNqCRHXHuPmJdsgArE9uESE98YR6fREFomvJrv").unwrap();
    Address { bytes: key.to_bytes() }
}

fn payer() -> Address {
    Address { bytes: [9u8; 32] }
}

fn fresh() -> (Ledger, Address) {
    let ledger = Ledger::new(program());
    let store = ledger.store_address().unwrap();
    (ledger, store)
}

fn reset_ctx(store: Address) -> ResetStore {
    ResetStore { store, payer: payer(), payer_is_signer: true, payer_lamports: 5_000_000 }
}

fn set_ctx(store: Address) -> SetStore {
    SetStore { store, payer: payer(), payer_is_signer: true }
}

fn read(ledger: &Ledger, store: &Address) -> Option<i64> {
    ledger.record_at(store).map(|s| s.timestamp)
}

#[test]
fn store_address_matches_pda_derivation() {
    let (ledger, store) = fresh();
    let (expected, _) = Pubkey::find_program_address(&[b"store"], &Pubkey::new_from_array(program().bytes));
    assert_eq!(store.bytes, expected.to_bytes());
    assert_ne!(store, ledger.program_id);
    assert_eq!(seed_bytes(), *b"store");
    assert_eq!(STORE_SPACE, 16);
}

#[test]
fn end_to_end_scenario() {
    let (mut ledger, store) = fresh();
    assert_eq!(reset_store_at(&mut ledger, &reset_ctx(store), 1000), Ok(()));
    assert_eq!(read(&ledger, &store), Some(1000));
    assert_eq!(ledger.events, vec![StoreReset { timestamp: 1000 }]);

    assert_eq!(set_store(&mut ledger, &set_ctx(store), 2000), Ok(()));
    assert_eq!(read(&ledger, &store), Some(2000));
    assert_eq!(ledger.events.len(), 1);

    assert_eq!(set_store(&mut ledger, &set_ctx(store), -5), Err(StoreError::InvalidTimestamp));
    assert_eq!(read(&ledger, &store), Some(2000));

    assert_eq!(
        reset_store_at(&mut ledger, &reset_ctx(store), 3000),
        Err(StoreError::AccountAlreadyInUse)
    );
    assert_eq!(read(&ledger, &store), Some(2000));
    assert_eq!(ledger.events.len(), 1);
}

#[test]
fn set_store_keeps_exact_value() {
    let (mut ledger, store) = fresh();
    reset_store_at(&mut ledger, &reset_ctx(store), 1).unwrap();
    for t in [1i64, 7, 1_700_000_000, i64::MAX] {
        assert_eq!(set_store(&mut ledger, &set_ctx(store), t), Ok(()));
        assert_eq!(read(&ledger, &store), Some(t));
    }
}

#[test]
fn set_store_rejects_zero_and_negative() {
    let (mut ledger, store) = fresh();
    reset_store_at(&mut ledger, &reset_ctx(store), 42).unwrap();
    for t in [0i64, -1, -5, i64::MIN] {
        assert_eq!(set_store(&mut ledger, &set_ctx(store), t), Err(StoreError::InvalidTimestamp));
        assert_eq!(read(&ledger, &store), Some(42));
    }
}

#[test]
fn set_store_without_record_is_not_found() {
    let (mut ledger, store) = fresh();
    assert_eq!(set_store(&mut ledger, &set_ctx(store), 10), Err(StoreError::AccountNotFound));
    assert_eq!(read(&ledger, &store), None);
    assert!(ledger.accounts.is_empty());
    assert!(ledger.events.is_empty());
}

#[test]
fn set_store_at_other_address_is_not_found() {
    let (mut ledger, store) = fresh();
    reset_store_at(&mut ledger, &reset_ctx(store), 5).unwrap();
    assert_eq!(set_store(&mut ledger, &set_ctx(payer()), 10), Err(StoreError::AccountNotFound));
    assert_eq!(read(&ledger, &store), Some(5));
}

#[test]
fn set_store_needs_signer() {
    let (mut ledger, store) = fresh();
    reset_store_at(&mut ledger, &reset_ctx(store), 5).unwrap();
    let ctx = SetStore { store, payer: payer(), payer_is_signer: false };
    assert_eq!(set_store(&mut ledger, &ctx, 10), Err(StoreError::MissingSignature));
    assert_eq!(read(&ledger, &store), Some(5));
}

#[test]
fn reset_store_needs_signer() {
    let (mut ledger, store) = fresh();
    let ctx = ResetStore { payer_is_signer: false, ..reset_ctx(store) };
    assert_eq!(reset_store_at(&mut ledger, &ctx, 5), Err(StoreError::MissingSignature));
    assert_eq!(read(&ledger, &store), None);
}

#[test]
fn reset_store_at_wrong_address_is_refused() {
    let (mut ledger, store) = fresh();
    assert_eq!(reset_store_at(&mut ledger, &reset_ctx(payer()), 5), Err(StoreError::AddressMismatch));
    assert_eq!(read(&ledger, &store), None);
    assert_eq!(read(&ledger, &payer()), None);
}

#[test]
fn reset_store_needs_rent_exempt_funding() {
    let (mut ledger, store) = fresh();
    let poor = ResetStore { payer_lamports: RENT - 1, ..reset_ctx(store) };
    assert_eq!(reset_store_at(&mut ledger, &poor, 5), Err(StoreError::InsufficientFunds));
    assert_eq!(read(&ledger, &store), None);
    let exact = ResetStore { payer_lamports: RENT, ..reset_ctx(store) };
    assert_eq!(reset_store_at(&mut ledger, &exact, 5), Ok(()));
    assert_eq!(read(&ledger, &store), Some(5));
}

#[test]
fn reset_store_event_carries_stored_value() {
    let (mut ledger, store) = fresh();
    reset_store_at(&mut ledger, &reset_ctx(store), -77).unwrap();
    assert_eq!(read(&ledger, &store), Some(-77));
    assert_eq!(ledger.events, vec![StoreReset { timestamp: -77 }]);
}

#[test]
fn reset_store_without_clock_leaves_ledger() {
    let (mut ledger, store) = fresh();
    assert_eq!(
        reset_store(&mut ledger, &reset_ctx(store)),
        Err(StoreError::ClockUnavailable(17u64 << 32))
    );
    assert_eq!(read(&ledger, &store), None);
    assert!(ledger.events.is_empty());
}

#[test]
fn discriminators_are_digest_prefixes() {
    assert_eq!(store_discriminator(), STORE_DISC.to_vec());
    assert_eq!(reset_discriminator(), RESET_DISC.to_vec());
}

#[test]
fn encode_store_layout() {
    let bytes = encode_store(&ExampleStore { timestamp: 0x0102030405060708 });
    let mut expected = STORE_DISC.to_vec();
    expected.extend_from_slice(&[8, 7, 6, 5, 4, 3, 2, 1]);
    assert_eq!(bytes, expected);
    let neg = encode_store(&ExampleStore { timestamp: -1 });
    assert_eq!(&neg[8..], &[255u8; 8]);
}

#[test]
fn event_data_layout() {
    let bytes = event_data(&StoreReset { timestamp: 1000 });
    let mut expected = RESET_DISC.to_vec();
    expected.extend_from_slice(&1000i64.to_le_bytes());
    assert_eq!(bytes, expected);
}

#[test]
fn decode_round_trip() {
    for t in [0i64, 1, -5, 1000, i64::MAX, i64::MIN] {
        let s = ExampleStore { timestamp: t };
        assert_eq!(decode_store(&encode_store(&s)), Ok(s));
    }
}

#[test]
fn decode_ignores_trailing_bytes() {
    let mut bytes = encode_store(&ExampleStore { timestamp: 2000 });
    bytes.extend_from_slice(&[1, 2, 3]);
    assert_eq!(decode_store(&bytes), Ok(ExampleStore { timestamp: 2000 }));
}

#[test]
fn decode_errors() {
    assert_eq!(decode_store(&[]), Err(StoreError::DiscriminatorNotFound));
    assert_eq!(decode_store(&STORE_DISC[..7]), Err(StoreError::DiscriminatorNotFound));
    let mut wrong = encode_store(&ExampleStore { timestamp: 3 });
    wrong[0] ^= 1;
    assert_eq!(decode_store(&wrong), Err(StoreError::DiscriminatorMismatch));
    let short = encode_store(&ExampleStore { timestamp: 3 });
    assert_eq!(decode_store(&short[..12]), Err(StoreError::DidNotDeserialize));
    assert_eq!(decode_store(&RESET_DISC), Err(StoreError::DiscriminatorMismatch));
}

#[test]
fn reset_store_collision_reported_before_clock() {
    let (mut ledger, store) = fresh();
    reset_store_at(&mut ledger, &reset_ctx(store), 1000).unwrap();
    assert_eq!(reset_store(&mut ledger, &reset_ctx(store)), Err(StoreError::AccountAlreadyInUse));
    assert_eq!(read(&ledger, &store), Some(1000));
}

#[test]
fn account_data_is_persisted_layout() {
    let (mut ledger, store) = fresh();
    assert_eq!(ledger.account_data(&store), None);
    reset_store_at(&mut ledger, &reset_ctx(store), 1000).unwrap();
    let data = ledger.account_data(&store).unwrap();
    assert_eq!(data.len(), STORE_SPACE);
    assert_eq!(&data[..8], &STORE_DISC);
    assert_eq!(&data[8..], &1000i64.to_le_bytes());
    assert_eq!(decode_store(&data), Ok(ExampleStore { timestamp: 1000 }));
}

#[test]
fn distinct_address_check() {
    let (mut ledger, store) = fresh();
    assert!(ledger.has_distinct_addresses());
    reset_store_at(&mut ledger, &reset_ctx(store), 1).unwrap();
    assert!(ledger.has_distinct_addresses());
    let dup = ledger.accounts[0];
    ledger.accounts.push(dup);
    assert!(!ledger.has_distinct_addresses());
}
