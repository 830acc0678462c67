use vstd::prelude::*;

use anchor_lang::prelude::{Clock, Pubkey, Rent};
use anchor_lang::solana_program::hash::hash;
use anchor_lang::solana_program::sysvar::Sysvar;

use crate::state::Address;

verus! {

/// The program-derived address and bump that the ledger's derivation gives for
/// one seed and a program identity, or `None` when no bump yields an address
/// off the curve.
pub uninterp spec fn program_address_of(seed: Seq<u8>, program_id: Seq<u8>) -> Option<(Seq<u8>, u8)>;

/// Relies on `Pubkey::try_find_program_address`: a deterministic function of
/// the seeds and the program id, `None` when no bump seed gives a valid address
/// or when a seed is longer than 32 bytes.
#[verifier::external_body]
pub(crate) fn find_program_address(seed: &[u8], program_id: &Address) -> (r: Option<(Address, u8)>)
    ensures
        match r {
            Some((a, bump)) => program_address_of(seed@, program_id@) == Some((a@, bump)),
            None => program_address_of(seed@, program_id@) is None,
        },
{
    let id = Pubkey::new_from_array(program_id.bytes);
    Pubkey::try_find_program_address(&[seed], &id).map(|(k, bump)| (Address { bytes: k.to_bytes() }, bump))
}

/// Largest account data length that the ledger permits.
pub const MAX_DATA_LEN: usize = 10485760;

/// Lamports that make an account of `data_len` data bytes rent-exempt at the
/// default rent: 3480 lamports per byte-year over the data and a 128-byte
/// overhead, for two years.
pub open spec fn rent_exempt_minimum(data_len: nat) -> nat {
    (128 + data_len) * 3480 * 2
}

/// Relies on `Rent::minimum_balance` of `Rent::default()`:
/// `((128 + data_len) * 3480) as f64 * 2.0`, exact in `f64` below the bound.
#[verifier::external_body]
pub(crate) fn minimum_balance(data_len: usize) -> (r: u64)
    requires
        data_len <= MAX_DATA_LEN,
    ensures
        r == rent_exempt_minimum(data_len as nat),
{
    Rent::default().minimum_balance(data_len)
}

/// Relies on `Clock::get`: the ledger's current Unix time, or the numeric code
/// of the `ProgramError` when the clock sysvar cannot be read.
#[verifier::external_body]
pub(crate) fn clock_unix_timestamp() -> (r: Result<i64, u64>) {
    Clock::get().map(|c| c.unix_timestamp).map_err(u64::from)
}

/// The SHA-256 digest of `data`.
pub uninterp spec fn sha256_of(data: Seq<u8>) -> Seq<u8>;

/// Relies on `solana_program::hash::hash`: the SHA-256 digest of `data`, the
/// hash from which account and event discriminators are taken.
#[verifier::external_body]
pub(crate) fn sha256(data: &[u8]) -> (r: [u8; 32])
    ensures
        r@ == sha256_of(data@),
{
    hash(data).to_bytes()
}

} // verus!
