use vstd::prelude::*;

verus! {

/// A 32-byte account address (a public key or a program-derived address).
#[derive(Clone, Copy, Debug, PartialEq, Eq)]
pub struct Address {
    pub bytes: [u8; 32],
}

impl View for Address {
    type V = Seq<u8>;

    open spec fn view(&self) -> Seq<u8> {
        self.bytes@
    }
}

impl Address {
    /// Compares two addresses byte by byte.
    pub fn same_as(&self, other: &Address) -> (r: bool)
        ensures
            r == (self@ == other@),
    {
        let mut i: usize = 0;
        while i < 32
            invariant
                i <= 32,
                self@.len() == 32,
                other@.len() == 32,
                forall|j: int| 0 <= j < i ==> self@[j] == other@[j],
            decreases 32 - i,
        {
            if self.bytes[i] != other.bytes[i] {
                return false;
            }
            i = i + 1;
        }
        assert(self@ =~= other@);
        true
    }
}

/// The persistent store record: the time it was last set, in Unix seconds.
#[derive(Clone, Copy, Debug, PartialEq, Eq, Structural)]
pub struct ExampleStore {
    pub timestamp: i64,
}

/// The notification emitted when the store is (re)initialized.
#[derive(Clone, Copy, Debug, PartialEq, Eq, Structural)]
pub struct StoreReset {
    pub timestamp: i64,
}

/// The seed from which the store's address is derived: the ASCII text `store`.
pub open spec fn store_seed() -> Seq<u8> {
    seq![115u8, 116u8, 111u8, 114u8, 101u8]
}

/// The bytes of the seed `store`.
pub fn seed_bytes() -> (r: [u8; 5])
    ensures
        r@ == store_seed(),
{
    // ASCII codes of 's', 't', 'o', 'r', 'e'
    let r: [u8; 5] = [115u8, 116u8, 111u8, 114u8, 101u8];
    assert(r@ =~= store_seed());
    r
}

/// Bytes that an account holding a store record occupies: an 8-byte
/// discriminator followed by the 8-byte little-endian timestamp.
pub const STORE_SPACE: usize = 16;

} // verus!
