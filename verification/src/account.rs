//! Account identities: 256-bit keys held as four 64-bit words.

use vstd::prelude::*;
use vstd::bytes::{spec_u64_to_le_bytes, u64_from_le_bytes, u64_to_le_bytes};
use vstd::slice::slice_subrange;

verus! {

/// A 256-bit account identity, held as four 64-bit words in little-endian
/// order: `w0` covers the first eight bytes of the key, `w3` the last eight.
#[derive(Clone, Copy, Debug, PartialEq, Eq, Structural)]
pub struct AccountId {
    pub w0: u64,
    pub w1: u64,
    pub w2: u64,
    pub w3: u64,
}

/// The 32-byte little-endian encoding of an identity.
pub open spec fn id_le_bytes(a: AccountId) -> Seq<u8> {
    spec_u64_to_le_bytes(a.w0) + spec_u64_to_le_bytes(a.w1) + spec_u64_to_le_bytes(a.w2)
        + spec_u64_to_le_bytes(a.w3)
}

impl AccountId {
    /// The null identity (all bytes zero); never accepted as a caller.
    pub fn zero() -> (r: AccountId)
        ensures
            r == (AccountId { w0: 0, w1: 0, w2: 0, w3: 0 }),
    {
        AccountId { w0: 0, w1: 0, w2: 0, w3: 0 }
    }

    pub open spec fn is_zero(self) -> bool {
        self == (AccountId { w0: 0, w1: 0, w2: 0, w3: 0 })
    }

    /// Whether this identity is the null identity.
    pub fn eq_zero(&self) -> (r: bool)
        ensures
            r == self.is_zero(),
    {
        self.w0 == 0 && self.w1 == 0 && self.w2 == 0 && self.w3 == 0
    }

    /// The 32-byte little-endian encoding of this identity.
    pub fn to_le_bytes(&self) -> (r: Vec<u8>)
        ensures
            r@ == id_le_bytes(*self),
            r@.len() == 32,
    {
        let mut r = u64_to_le_bytes(self.w0);
        let mut p1 = u64_to_le_bytes(self.w1);
        let mut p2 = u64_to_le_bytes(self.w2);
        let mut p3 = u64_to_le_bytes(self.w3);
        r.append(&mut p1);
        r.append(&mut p2);
        r.append(&mut p3);
        r
    }

    /// Reads an identity back from its 32-byte little-endian encoding.
    pub fn from_le_bytes(bytes: &[u8]) -> (r: AccountId)
        requires
            bytes@.len() == 32,
        ensures
            id_le_bytes(r) == bytes@,
    {
        let r = AccountId {
            w0: u64_from_le_bytes(slice_subrange(bytes, 0, 8)),
            w1: u64_from_le_bytes(slice_subrange(bytes, 8, 16)),
            w2: u64_from_le_bytes(slice_subrange(bytes, 16, 24)),
            w3: u64_from_le_bytes(slice_subrange(bytes, 24, 32)),
        };
        proof {
            vstd::bytes::lemma_auto_spec_u64_to_from_le_bytes();
            assert(id_le_bytes(r) =~= bytes@);
        }
        r
    }
}

} // verus!
