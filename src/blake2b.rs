//! A personalised BLAKE2b hasher behind a shared, lockable handle.

use vstd::prelude::*;

use blake2b_rs::Blake2b;
use std::sync::{Arc, Mutex};

use crate::engine::{
    blake2b_digest, build_engine, cell_replace, cell_setup, cell_update, clone_handle,
    engine_absorbed, engine_finalize, engine_setup, engine_update, new_cell, same_handle,
};
use crate::h256::H256;
use crate::traits::Hasher;

verus! {

/// Digest length in bytes.
pub const BLAKE2B_LEN: usize = 32;

/// The secret key: none, so the engine runs unkeyed.
pub const BLAKE2B_KEY: [u8; 0] = [];

/// The personalisation tag that sets this hashing apart from other uses of
/// BLAKE2b: the ASCII text `sparsemerkletree`.
pub const PERSONALIZATION: [u8; 16] = [
    0x73, 0x70, 0x61, 0x72, 0x73, 0x65, 0x6d, 0x65, 0x72, 0x6b, 0x6c, 0x65, 0x74, 0x72, 0x65, 0x65,
];

/// The BLAKE2b parameters of a default hasher: a 32-byte digest, no key, no
/// salt, and the personalisation tag.
pub open spec fn default_setup() -> (nat, Seq<u8>, Seq<u8>, Seq<u8>) {
    (BLAKE2B_LEN as nat, BLAKE2B_KEY@, Seq::<u8>::empty(), PERSONALIZATION@)
}

/// The 32-byte digest of `input` under the default parameters.
pub open spec fn default_digest(input: Seq<u8>) -> Seq<u8> {
    blake2b_digest(BLAKE2B_LEN as nat, BLAKE2B_KEY@, Seq::<u8>::empty(), PERSONALIZATION@, input)
}

/// The digest that finalising `e` yields.
pub open spec fn engine_digest(e: Blake2b) -> Seq<u8> {
    blake2b_digest(
        engine_setup(e).0,
        engine_setup(e).1,
        engine_setup(e).2,
        engine_setup(e).3,
        engine_absorbed(e),
    )
}

/// A fresh engine with the default parameters, having absorbed nothing.
pub fn default_engine() -> (r: Blake2b)
    ensures
        engine_setup(r) == default_setup(),
        engine_absorbed(r) == Seq::<u8>::empty(),
        engine_digest(r) == default_digest(Seq::<u8>::empty()),
{
    let key = BLAKE2B_KEY;
    let personal = PERSONALIZATION;
    build_engine(BLAKE2B_LEN, key.as_slice(), personal.as_slice())
}

/// Appends the 32 bytes of `h` to what `e` has absorbed.
pub fn absorb_h256(e: &mut Blake2b, h: &H256)
    ensures
        engine_setup(*final(e)) == engine_setup(*old(e)),
        engine_absorbed(*final(e)) == engine_absorbed(*old(e)) + h@,
{
    engine_update(e, h.as_slice());
}

/// Appends the byte `b` to what `e` has absorbed.
pub fn absorb_byte(e: &mut Blake2b, b: u8)
    ensures
        engine_setup(*final(e)) == engine_setup(*old(e)),
        engine_absorbed(*final(e)) == engine_absorbed(*old(e)).push(b),
{
    let one: [u8; 1] = [b];
    assert(one@ =~= seq![b]);
    engine_update(e, one.as_slice());
    assert(engine_absorbed(*old(e)) + seq![b] =~= engine_absorbed(*old(e)).push(b));
}

/// Finalises `e` into a 256-bit value: for an engine with a 32-byte digest
/// length, the digest of all it has absorbed.
pub fn digest_h256(e: Blake2b) -> (r: H256)
    ensures
        engine_setup(e).0 == 32 ==> r@ == engine_digest(e),
{
    H256::from_bytes(engine_finalize(e))
}

/// Finalising is deterministic: two engines built with the same parameters
/// that have absorbed the same bytes, in the same order, give the same digest;
/// under the default parameters it is the default digest of those bytes.
pub proof fn lemma_same_input_same_digest(e1: Blake2b, e2: Blake2b)
    requires
        engine_setup(e1) == engine_setup(e2),
        engine_absorbed(e1) == engine_absorbed(e2),
    ensures
        engine_digest(e1) == engine_digest(e2),
        engine_setup(e1) == default_setup() ==> engine_digest(e1) == default_digest(
            engine_absorbed(e1),
        ),
{
}

/// `bytes` fed one at a time after `prefix`, as single-byte writes feed them.
pub open spec fn pushed_one_by_one(prefix: Seq<u8>, bytes: Seq<u8>) -> Seq<u8>
    decreases bytes.len(),
{
    if bytes.len() == 0 {
        prefix
    } else {
        pushed_one_by_one(prefix, bytes.drop_last()).push(bytes.last())
    }
}

/// A 256-bit value is absorbed exactly as its 32 bytes in order, with no
/// framing: feeding its bytes one at a time leaves the same input as feeding
/// the value at once.
pub proof fn lemma_value_is_its_bytes(prefix: Seq<u8>, h: H256)
    ensures
        pushed_one_by_one(prefix, h@) == prefix + h@,
{
    lemma_pushed_is_concat(prefix, h@);
}

/// Feeding any bytes one at a time appends them in order.
pub proof fn lemma_pushed_is_concat(prefix: Seq<u8>, bytes: Seq<u8>)
    ensures
        pushed_one_by_one(prefix, bytes) == prefix + bytes,
    decreases bytes.len(),
{
    if bytes.len() == 0 {
        assert(prefix + bytes =~= prefix);
    } else {
        lemma_pushed_is_concat(prefix, bytes.drop_last());
        assert((prefix + bytes.drop_last()).push(bytes.last()) =~= prefix + bytes);
    }
}

/// A hashing session over a BLAKE2b engine shared by every clone of the
/// handle. Each write and the final digest take the engine's lock, so writes
/// through different clones are serialised in the order they take it.
pub struct Blake2bHasher {
    inner: Arc<Mutex<Blake2b>>,
}

impl Blake2bHasher {
    /// The shared cell that holds the engine; clones share it.
    pub closed spec fn cell(&self) -> Mutex<Blake2b> {
        *self.inner
    }

    /// The parameters of the engine that the shared cell was made with.
    pub closed spec fn setup(&self) -> (nat, Seq<u8>, Seq<u8>, Seq<u8>) {
        cell_setup(*self.inner)
    }

    /// Wraps an engine built elsewhere, as it stands, for parameters other
    /// than the default ones.
    pub fn new(blake2b: Blake2b) -> (r: Self)
        ensures
            r.setup() == engine_setup(blake2b),
    {
        Blake2bHasher { inner: Arc::new(new_cell(blake2b)) }
    }

    /// Whether `self` and `other` are handles to one shared engine.
    pub fn same_engine(&self, other: &Self) -> (r: bool)
        ensures
            r == (self.cell() == other.cell()),
    {
        same_handle(&self.inner, &other.inner)
    }

    /// A text for diagnostics that leaves the engine's state out.
    pub fn debug_text(&self) -> (r: String)
        ensures
            r@ == "Blake2bHasher { inner: \"Blake2b instance\" }"@,
    {
        String::from_str("Blake2bHasher { inner: \"Blake2b instance\" }")
    }
}

impl Default for Blake2bHasher {
    /// A hasher with a 32-byte digest, no key and the personalisation tag.
    fn default() -> (r: Self)
        ensures
            r.setup() == default_setup(),
    {
        Blake2bHasher::new(default_engine())
    }
}

impl Clone for Blake2bHasher {
    /// A second handle to the same engine, not a copy of its state.
    fn clone(&self) -> (r: Self)
        ensures
            r.cell() == self.cell(),
            r.setup() == self.setup(),
    {
        Blake2bHasher { inner: clone_handle(&self.inner) }
    }
}

impl PartialEq for Blake2bHasher {
    /// Identity: equal exactly when both handles share one engine.
    fn eq(&self, other: &Self) -> (r: bool)
        ensures
            r == (self.cell() == other.cell()),
    {
        self.same_engine(other)
    }
}

impl vstd::std_specs::cmp::PartialEqSpecImpl for Blake2bHasher {
    open spec fn obeys_eq_spec() -> bool {
        true
    }

    open spec fn eq_spec(&self, other: &Self) -> bool {
        self.cell() == other.cell()
    }
}

impl Eq for Blake2bHasher {

}

impl Hasher for Blake2bHasher {
    /// Appends the 32 bytes of `h` to the shared engine's input.
    fn write_h256(&mut self, h: &H256)
        ensures
            final(self).cell() == old(self).cell(),
            final(self).setup() == old(self).setup(),
    {
        cell_update(&*self.inner, h.as_slice());
    }

    /// Appends the byte `b` to the shared engine's input.
    fn write_byte(&mut self, b: u8)
        ensures
            final(self).cell() == old(self).cell(),
            final(self).setup() == old(self).setup(),
    {
        let one: [u8; 1] = [b];
        cell_update(&*self.inner, one.as_slice());
    }

    /// Takes the engine out of the shared cell, leaving a fresh default one
    /// behind, and finalises it. For a hasher with the default parameters the
    /// result is the default digest of what the engine absorbed.
    fn finish(self) -> (r: H256)
        ensures
            self.setup() == default_setup() ==> exists|input: Seq<u8>| r@ == default_digest(input),
    {
        let taken = cell_replace(&*self.inner, default_engine());
        let r = digest_h256(taken);
        assert(self.setup() == default_setup() ==> r@ == default_digest(engine_absorbed(taken)));
        r
    }
}

} // verus!
