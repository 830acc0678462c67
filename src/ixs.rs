use vstd::prelude::*;

use crate::error::StoreError;
use crate::host::{clock_unix_timestamp, minimum_balance, rent_exempt_minimum};
use crate::ledger::{store_address_of, Ledger, LedgerModel};
use crate::state::{Address, STORE_SPACE};

verus! {

/// The accounts that initialize-and-reset is invoked with: the address where
/// the store is to be created, and the funding party.
#[derive(Clone, Copy, Debug)]
pub struct ResetStore {
    pub store: Address,
    pub payer: Address,
    pub payer_is_signer: bool,
    pub payer_lamports: u64,
}

/// The accounts that conditional-update is invoked with: the address of the
/// store, and the authorizing party.
#[derive(Clone, Copy, Debug)]
pub struct SetStore {
    pub store: Address,
    pub payer: Address,
    pub payer_is_signer: bool,
}

/// Whether initialize-and-reset may create the store record: the supplied
/// address must be the derived one and hold no record, the funding party must
/// sign and afford a rent-exempt record. The clock plays no part.
pub open spec fn reset_store_check(m: LedgerModel, store: Seq<u8>, signed: bool, lamports: u64)
    -> Result<(), StoreError>
{
    match store_address_of(m.program_id) {
        None => Err(StoreError::NoProgramAddress),
        Some(a) => if a != store {
            Err(StoreError::AddressMismatch)
        } else if m.records.contains_key(store) {
            Err(StoreError::AccountAlreadyInUse)
        } else if !signed {
            Err(StoreError::MissingSignature)
        } else if lamports < rent_exempt_minimum(STORE_SPACE as nat) {
            Err(StoreError::InsufficientFunds)
        } else {
            Ok(())
        },
    }
}

/// What initialize-and-reset at time `now` does to the ledger `m`.
pub open spec fn reset_store_result(m: LedgerModel, store: Seq<u8>, signed: bool, lamports: u64, now: i64)
    -> Result<LedgerModel, StoreError>
{
    match reset_store_check(m, store, signed, lamports) {
        Err(e) => Err(e),
        Ok(()) => Ok(LedgerModel {
            records: m.records.insert(store, now),
            events: m.events.push(now),
            ..m
        }),
    }
}

/// What conditional-update with `timestamp` does to the ledger `m`.
pub open spec fn set_store_result(m: LedgerModel, store: Seq<u8>, signed: bool, timestamp: i64)
    -> Result<LedgerModel, StoreError>
{
    if store_address_of(m.program_id) != Some(store) || !m.records.contains_key(store) {
        Err(StoreError::AccountNotFound)
    } else if !signed {
        Err(StoreError::MissingSignature)
    } else if timestamp <= 0 {
        Err(StoreError::InvalidTimestamp)
    } else {
        Ok(LedgerModel { records: m.records.insert(store, timestamp), ..m })
    }
}

/// `r` and `after` are what a transition with outcome `expected` gives from
/// `before`: on success the ledger becomes the new model, on failure the error
/// is returned and the ledger is left as it was.
pub open spec fn outcome_matches(
    expected: Result<LedgerModel, StoreError>,
    r: Result<(), StoreError>,
    before: Ledger,
    after: Ledger,
) -> bool {
    match expected {
        Ok(m) => r is Ok && after@ == m,
        Err(e) => r == Err::<(), StoreError>(e) && after == before,
    }
}

/// Decides whether initialize-and-reset may create the store record.
pub fn check_reset(ledger: &Ledger, ctx: &ResetStore) -> (r: Result<(), StoreError>)
    requires
        ledger.wf(),
    ensures
        r == reset_store_check(ledger@, ctx.store@, ctx.payer_is_signer, ctx.payer_lamports),
{
    let canonical = match ledger.store_address() {
        Some(a) => a,
        None => return Err(StoreError::NoProgramAddress),
    };
    if !canonical.same_as(&ctx.store) {
        return Err(StoreError::AddressMismatch);
    }
    if ledger.record_at(&ctx.store).is_some() {
        return Err(StoreError::AccountAlreadyInUse);
    }
    if !ctx.payer_is_signer {
        return Err(StoreError::MissingSignature);
    }
    if ctx.payer_lamports < minimum_balance(STORE_SPACE) {
        return Err(StoreError::InsufficientFunds);
    }
    Ok(())
}

/// Creates the store record at its derived address with timestamp `now`, and
/// logs a reset notification carrying `now`.
pub fn reset_store_at(ledger: &mut Ledger, ctx: &ResetStore, now: i64) -> (r: Result<(), StoreError>)
    requires
        old(ledger).wf(),
    ensures
        final(ledger).wf(),
        outcome_matches(
            reset_store_result(old(ledger)@, ctx.store@, ctx.payer_is_signer, ctx.payer_lamports, now),
            r,
            *old(ledger),
            *final(ledger),
        ),
{
    match check_reset(ledger, ctx) {
        Err(e) => Err(e),
        Ok(()) => {
            ledger.create(ctx.store, now);
            Ok(())
        },
    }
}

/// Initialize-and-reset: once the accounts pass [`check_reset`], reads the
/// ledger clock, then creates the store record at its derived address stamped
/// with that time and logs a reset notification. When the clock cannot be read
/// the ledger is left as it was.
pub fn reset_store(ledger: &mut Ledger, ctx: &ResetStore) -> (r: Result<(), StoreError>)
    requires
        old(ledger).wf(),
    ensures
        final(ledger).wf(),
        match reset_store_check(old(ledger)@, ctx.store@, ctx.payer_is_signer, ctx.payer_lamports) {
            Err(e) => r == Err::<(), StoreError>(e) && *final(ledger) == *old(ledger),
            Ok(()) => match r {
                Err(StoreError::ClockUnavailable(_)) => *final(ledger) == *old(ledger),
                _ => exists|now: i64|
                    outcome_matches(
                        #[trigger] reset_store_result(old(ledger)@, ctx.store@, ctx.payer_is_signer, ctx.payer_lamports, now),
                        r,
                        *old(ledger),
                        *final(ledger),
                    ),
            },
        },
{
    if let Err(e) = check_reset(ledger, ctx) {
        return Err(e);
    }
    match clock_unix_timestamp() {
        Ok(now) => reset_store_at(ledger, ctx, now),
        Err(code) => Err(StoreError::ClockUnavailable(code)),
    }
}

/// Conditional-update: overwrites the store's timestamp with `timestamp`, which
/// must be strictly positive.
pub fn set_store(ledger: &mut Ledger, ctx: &SetStore, timestamp: i64) -> (r: Result<(), StoreError>)
    requires
        old(ledger).wf(),
    ensures
        final(ledger).wf(),
        outcome_matches(
            set_store_result(old(ledger)@, ctx.store@, ctx.payer_is_signer, timestamp),
            r,
            *old(ledger),
            *final(ledger),
        ),
{
    let found = match ledger.store_address() {
        Some(a) => a.same_as(&ctx.store),
        None => false,
    };
    if !found {
        return Err(StoreError::AccountNotFound);
    }
    let i = match ledger.find(&ctx.store) {
        Some(i) => i,
        None => return Err(StoreError::AccountNotFound),
    };
    if !ctx.payer_is_signer {
        return Err(StoreError::MissingSignature);
    }
    if timestamp <= 0 {
        return Err(StoreError::InvalidTimestamp);
    }
    ledger.overwrite(i, timestamp);
    Ok(())
}

} // verus!
