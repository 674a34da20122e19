//! The incremental hashing capability that a sparse Merkle tree consumes.

use vstd::prelude::*;

use crate::h256::H256;

verus! {

/// An incremental hasher: values and bytes are fed in order, then `finish`
/// consumes the hasher and yields the 256-bit digest.
pub trait Hasher: Sized {
    /// Feeds the 32 bytes of `h`.
    fn write_h256(&mut self, h: &H256);

    /// Feeds the single byte `b`.
    fn write_byte(&mut self, b: u8);

    /// Consumes the hasher and yields the digest of everything fed.
    fn finish(self) -> H256;
}

} // verus!
