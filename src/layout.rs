use vstd::bytes::{
    lemma_auto_spec_u64_to_from_le_bytes, spec_u64_from_le_bytes, spec_u64_to_le_bytes,
    u64_from_le_bytes, u64_to_le_bytes,
};
use vstd::prelude::*;
use vstd::slice::slice_subrange;
use vstd::string::StringSliceAdditionalSpecFns;

use crate::error::StoreError;
use crate::host::{sha256, sha256_of};
use crate::state::{ExampleStore, StoreReset};

verus! {

/// The 8-byte tag that identifies a kind of account or event: the first eight
/// bytes of the SHA-256 digest of its name, namespaced as `account:<Name>` or
/// `event:<Name>`.
pub open spec fn discriminator_of(preimage: Seq<u8>) -> Seq<u8> {
    Seq::new(8, |i: int| sha256_of(preimage)[i])
}

/// The name from which the store record's discriminator is taken.
pub open spec fn store_preimage() -> Seq<u8> {
    "account:ExampleStore".spec_bytes()
}

/// The name from which the reset notification's discriminator is taken.
pub open spec fn reset_preimage() -> Seq<u8> {
    "event:StoreReset".spec_bytes()
}

/// The little-endian bytes of a signed 64-bit value.
pub open spec fn i64_le_bytes(v: i64) -> Seq<u8> {
    spec_u64_to_le_bytes(#[verifier::truncate] (v as u64))
}

/// The signed 64-bit value whose little-endian bytes are `b` (eight of them).
pub open spec fn i64_from_le(b: Seq<u8>) -> i64 {
    #[verifier::truncate] (spec_u64_from_le_bytes(b) as i64)
}

/// The persisted bytes of a store record: its discriminator, then the
/// timestamp.
pub open spec fn store_bytes(s: ExampleStore) -> Seq<u8> {
    discriminator_of(store_preimage()) + i64_le_bytes(s.timestamp)
}

/// The logged bytes of a reset notification: its discriminator, then the
/// timestamp.
pub open spec fn reset_bytes(e: StoreReset) -> Seq<u8> {
    discriminator_of(reset_preimage()) + i64_le_bytes(e.timestamp)
}

/// What reading a store record from account data gives: the data must start
/// with the record's discriminator and hold at least the eight bytes of the
/// timestamp after it; bytes beyond those are ignored.
pub open spec fn decode_result(data: Seq<u8>) -> Result<ExampleStore, StoreError> {
    if data.len() < 8 {
        Err(StoreError::DiscriminatorNotFound)
    } else if data.subrange(0, 8) != discriminator_of(store_preimage()) {
        Err(StoreError::DiscriminatorMismatch)
    } else if data.len() < 16 {
        Err(StoreError::DidNotDeserialize)
    } else {
        Ok(ExampleStore { timestamp: i64_from_le(data.subrange(8, 16)) })
    }
}

/// The discriminator of the kind named by `preimage`.
fn discriminator(preimage: &[u8]) -> (r: Vec<u8>)
    ensures
        r@ == discriminator_of(preimage@),
{
    let digest = sha256(preimage);
    let mut r: Vec<u8> = Vec::new();
    let mut i: usize = 0;
    while i < 8
        invariant
            i <= 8,
            digest@.len() == 32,
            r@ == digest@.subrange(0, i as int),
        decreases 8 - i,
    {
        r.push(digest[i]);
        i = i + 1;
        assert(r@ =~= digest@.subrange(0, i as int));
    }
    assert(r@ =~= discriminator_of(preimage@));
    r
}

/// The discriminator of the store record.
pub fn store_discriminator() -> (r: Vec<u8>)
    ensures
        r@ == discriminator_of(store_preimage()),
{
    discriminator("account:ExampleStore".as_bytes())
}

/// The discriminator of the reset notification.
pub fn reset_discriminator() -> (r: Vec<u8>)
    ensures
        r@ == discriminator_of(reset_preimage()),
{
    discriminator("event:StoreReset".as_bytes())
}

/// Appends the little-endian bytes of `v` to `out`.
fn push_i64_le(out: &mut Vec<u8>, v: i64)
    ensures
        final(out)@ == old(out)@ + i64_le_bytes(v),
{
    let bytes = u64_to_le_bytes(#[verifier::truncate] (v as u64));
    let mut i: usize = 0;
    while i < 8
        invariant
            i <= 8,
            bytes@ == i64_le_bytes(v),
            bytes@.len() == 8,
            out@ == old(out)@ + bytes@.subrange(0, i as int),
        decreases 8 - i,
    {
        out.push(bytes[i]);
        i = i + 1;
        assert(out@ =~= old(out)@ + bytes@.subrange(0, i as int));
    }
    assert(bytes@.subrange(0, 8) =~= bytes@);
}

/// The persisted bytes of a store record.
pub fn encode_store(s: &ExampleStore) -> (r: Vec<u8>)
    ensures
        r@ == store_bytes(*s),
{
    let mut r = store_discriminator();
    push_i64_le(&mut r, s.timestamp);
    r
}

/// The bytes that a reset notification is logged as.
pub fn event_data(e: &StoreReset) -> (r: Vec<u8>)
    ensures
        r@ == reset_bytes(*e),
{
    let mut r = reset_discriminator();
    push_i64_le(&mut r, e.timestamp);
    r
}

/// Reads a store record from account data.
pub fn decode_store(data: &[u8]) -> (r: Result<ExampleStore, StoreError>)
    ensures
        r == decode_result(data@),
{
    if data.len() < 8 {
        return Err(StoreError::DiscriminatorNotFound);
    }
    let expected = store_discriminator();
    let mut i: usize = 0;
    while i < 8
        invariant
            i <= 8,
            data@.len() >= 8,
            expected@ == discriminator_of(store_preimage()),
            forall|j: int| 0 <= j < i ==> data@[j] == expected@[j],
        decreases 8 - i,
    {
        if data[i] != expected[i] {
            assert(data@.subrange(0, 8)[i as int] != expected@[i as int]);
            assert(data@.subrange(0, 8) != discriminator_of(store_preimage()));
            return Err(StoreError::DiscriminatorMismatch);
        }
        i = i + 1;
    }
    assert(data@.subrange(0, 8) =~= expected@);
    if data.len() < 16 {
        return Err(StoreError::DidNotDeserialize);
    }
    let v = u64_from_le_bytes(slice_subrange(data, 8, 16));
    Ok(ExampleStore { timestamp: #[verifier::truncate] (v as i64) })
}

/// Reading back the persisted bytes of a record gives the record.
pub proof fn decode_encode_store(s: ExampleStore)
    ensures
        decode_result(store_bytes(s)) == Ok::<ExampleStore, StoreError>(s),
{
    lemma_auto_spec_u64_to_from_le_bytes();
    let b = store_bytes(s);
    let v = s.timestamp;
    let u = #[verifier::truncate] (v as u64);
    assert(spec_u64_to_le_bytes(u).len() == 8);
    assert(b.subrange(0, 8) =~= discriminator_of(store_preimage()));
    assert(b.subrange(8, 16) =~= i64_le_bytes(v));
    assert((#[verifier::truncate] (u as i64)) == v) by (bit_vector)
        requires
            u == #[verifier::truncate] (v as u64),
    ;
}

} // verus!
