use vstd::prelude::*;

use crate::error::StoreError;
use crate::host::rent_exempt_minimum;
use crate::ixs::{outcome_matches, reset_store_result, set_store_result};
use crate::ledger::{store_address_of, Ledger};
use crate::state::STORE_SPACE;

verus! {

/// A signed conditional-update with a positive timestamp on an existing store
/// succeeds, and the store then holds exactly that timestamp; nothing else in
/// the ledger changes.
pub proof fn set_store_stores_value(
    before: Ledger,
    after: Ledger,
    r: Result<(), StoreError>,
    store: Seq<u8>,
    timestamp: i64,
)
    requires
        timestamp > 0,
        store_address_of(before@.program_id) == Some(store),
        before@.records.contains_key(store),
        outcome_matches(set_store_result(before@, store, true, timestamp), r, before, after),
    ensures
        r is Ok,
        after@.records.contains_key(store),
        after@.records[store] == timestamp,
        after@.records == before@.records.insert(store, timestamp),
        after@.events == before@.events,
{
}

/// A conditional-update with a timestamp of zero or below, on an existing
/// store and signed, fails with `InvalidTimestamp` and leaves the ledger as it
/// was.
pub proof fn set_store_rejects_non_positive(
    before: Ledger,
    after: Ledger,
    r: Result<(), StoreError>,
    store: Seq<u8>,
    signed: bool,
    timestamp: i64,
)
    requires
        timestamp <= 0,
        signed,
        store_address_of(before@.program_id) == Some(store),
        before@.records.contains_key(store),
        outcome_matches(set_store_result(before@, store, signed, timestamp), r, before, after),
    ensures
        r == Err::<(), StoreError>(StoreError::InvalidTimestamp),
        after == before,
{
}

/// A conditional-update at an address that holds no store record fails with
/// `AccountNotFound` and leaves the ledger as it was.
pub proof fn set_store_requires_existing(
    before: Ledger,
    after: Ledger,
    r: Result<(), StoreError>,
    store: Seq<u8>,
    signed: bool,
    timestamp: i64,
)
    requires
        !before@.records.contains_key(store),
        outcome_matches(set_store_result(before@, store, signed, timestamp), r, before, after),
    ensures
        r == Err::<(), StoreError>(StoreError::AccountNotFound),
        after == before,
{
}

/// Initialize-and-reset at the derived address succeeds once when no record is
/// there (signed and funded); any second attempt at that address fails with
/// `AccountAlreadyInUse` and keeps the first record's timestamp.
pub proof fn reset_store_succeeds_once(
    before: Ledger,
    mid: Ledger,
    after: Ledger,
    r1: Result<(), StoreError>,
    r2: Result<(), StoreError>,
    store: Seq<u8>,
    lamports: u64,
    now: i64,
    signed2: bool,
    lamports2: u64,
    now2: i64,
)
    requires
        store_address_of(before@.program_id) == Some(store),
        !before@.records.contains_key(store),
        lamports >= rent_exempt_minimum(STORE_SPACE as nat),
        outcome_matches(reset_store_result(before@, store, true, lamports, now), r1, before, mid),
        outcome_matches(reset_store_result(mid@, store, signed2, lamports2, now2), r2, mid, after),
    ensures
        r1 is Ok,
        mid@.records[store] == now,
        r2 == Err::<(), StoreError>(StoreError::AccountAlreadyInUse),
        after == mid,
        after@.records[store] == now,
{
}

/// After a successful initialize-and-reset at time `now`, the store holds
/// `now`, and exactly one notification was logged, carrying the stored value.
pub proof fn reset_store_stamps_and_notifies(
    before: Ledger,
    after: Ledger,
    r: Result<(), StoreError>,
    store: Seq<u8>,
    signed: bool,
    lamports: u64,
    now: i64,
)
    requires
        outcome_matches(reset_store_result(before@, store, signed, lamports, now), r, before, after),
        r is Ok,
    ensures
        after@.records.contains_key(store),
        after@.records[store] == now,
        after@.events == before@.events.push(now),
        after@.events.last() == after@.records[store],
{
}

} // verus!
