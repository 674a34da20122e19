//! A BLAKE2b-backed, personalised node hasher for sparse Merkle trees.

pub mod blake2b;
pub mod engine;
pub mod h256;
pub mod traits;

pub use blake2b::Blake2bHasher;
pub use h256::H256;
pub use traits::Hasher;
