//! The 256-bit value that the tree hashes and that hashing produces.

use vstd::prelude::*;

verus! {

/// A fixed-width 32-byte value, taken as raw bytes with no interpretation.
#[derive(Clone, Copy, Debug, PartialEq, Eq, Hash, Default)]
pub struct H256 {
    bytes: [u8; 32],
}

impl View for H256 {
    type V = Seq<u8>;

    closed spec fn view(&self) -> Seq<u8> {
        self.bytes@
    }
}

impl H256 {
    /// The value whose 32 bytes are all zero.
    pub fn zero() -> (r: H256)
        ensures
            r@ == Seq::new(32, |_i: int| 0u8),
    {
        let r = H256 { bytes: [0u8; 32] };
        assert(r@ =~= Seq::new(32, |_i: int| 0u8));
        r
    }

    /// Wraps 32 bytes as they stand.
    pub fn from_bytes(bytes: [u8; 32]) -> (r: H256)
        ensures
            r@ == bytes@,
    {
        H256 { bytes }
    }

    /// The 32 bytes, in order.
    pub fn as_slice(&self) -> (r: &[u8])
        ensures
            r@ == self@,
            r@.len() == 32,
    {
        self.bytes.as_slice()
    }

    /// A copy of the 32 bytes.
    pub fn to_bytes(&self) -> (r: [u8; 32])
        ensures
            r@ == self@,
    {
        self.bytes
    }
}

} // verus!
