//! The BLAKE2b engine of `blake2b_rs`, as Verus sees it.
//!
//! An engine is modelled by the parameters it was built with and the bytes it
//! has absorbed since; the digest is a function of those two alone.

use vstd::prelude::*;

use blake2b_rs::Blake2b;
use std::sync::{Arc, Mutex};

use crate::blake2b::default_setup;

verus! {

/// The incremental BLAKE2b state of `blake2b_rs`.
#[verifier::external_type_specification]
#[verifier::external_body]
pub struct ExBlake2b(Blake2b);

/// `std::sync::Mutex`. Its value stands for the cell itself, not for what
/// the cell holds at a given moment.
#[verifier::external_type_specification]
#[verifier::external_body]
#[verifier::reject_recursive_types(T)]
pub struct ExMutex<T: ?Sized>(Mutex<T>);

/// What an engine was built with: digest length in bytes, key, salt and
/// personalisation, as handed to `Blake2bBuilder`.
pub uninterp spec fn engine_setup(e: Blake2b) -> (nat, Seq<u8>, Seq<u8>, Seq<u8>);

/// The parameters of the engine that a cell was made with. Updates keep them,
/// and only an engine with the default parameters is ever put in its place.
pub uninterp spec fn cell_setup(m: Mutex<Blake2b>) -> (nat, Seq<u8>, Seq<u8>, Seq<u8>);

/// The bytes an engine has absorbed since it was built, in order.
pub uninterp spec fn engine_absorbed(e: Blake2b) -> Seq<u8>;

/// The BLAKE2b digest of `input` under the given digest length, key, salt and
/// personalisation.
pub uninterp spec fn blake2b_digest(
    out_len: nat,
    key: Seq<u8>,
    salt: Seq<u8>,
    personal: Seq<u8>,
    input: Seq<u8>,
) -> Seq<u8>;


/// Relies on `Blake2bBuilder::new`, `key`, `personal` and `build`: the builder
/// asserts `1 <= out_len <= 64`, a key of at most 64 bytes and a
/// personalisation of at most 16; the engine it builds has absorbed nothing.
#[verifier::external_body]
pub(crate) fn build_engine(out_len: usize, key: &[u8], personal: &[u8]) -> (r: Blake2b)
    requires
        1 <= out_len <= 64,
        key@.len() <= 64,
        personal@.len() <= 16,
    ensures
        engine_setup(r) == (out_len as nat, key@, Seq::<u8>::empty(), personal@),
        engine_absorbed(r) == Seq::<u8>::empty(),
{
    blake2b_rs::Blake2bBuilder::new(out_len).key(key).personal(personal).build()
}

/// Relies on `Blake2b::update`: the data is appended to the absorbed input and
/// the parameters stay as they were.
#[verifier::external_body]
pub(crate) fn engine_update(e: &mut Blake2b, data: &[u8])
    ensures
        engine_setup(*final(e)) == engine_setup(*old(e)),
        engine_absorbed(*final(e)) == engine_absorbed(*old(e)) + data@,
{
    e.update(data)
}

/// Relies on `Blake2b::finalize` into a zeroed 32-byte buffer: for a 32-byte
/// digest length the buffer receives the digest of all absorbed bytes.
#[verifier::external_body]
pub(crate) fn engine_finalize(e: Blake2b) -> (r: [u8; 32])
    ensures
        engine_setup(e).0 == 32 ==> r@ == blake2b_digest(
            engine_setup(e).0,
            engine_setup(e).1,
            engine_setup(e).2,
            engine_setup(e).3,
            engine_absorbed(e),
        ),
{
    let mut out = [0u8; 32];
    e.finalize(&mut out);
    out
}

/// Relies on `Mutex::new`: an unlocked cell holding `e`.
#[verifier::external_body]
pub(crate) fn new_cell(e: Blake2b) -> (r: Mutex<Blake2b>)
    ensures
        cell_setup(r) == engine_setup(e),
{
    Mutex::new(e)
}

/// Relies on `Arc::clone`: a second handle to the same allocation.
#[verifier::external_body]
pub(crate) fn clone_handle(a: &Arc<Mutex<Blake2b>>) -> (r: Arc<Mutex<Blake2b>>)
    ensures
        r == *a,
{
    Arc::clone(a)
}

/// Relies on `Arc::ptr_eq`: true exactly for two handles to one allocation.
#[verifier::external_body]
pub(crate) fn same_handle(a: &Arc<Mutex<Blake2b>>, b: &Arc<Mutex<Blake2b>>) -> (r: bool)
    ensures
        r == (*a == *b),
{
    Arc::ptr_eq(a, b)
}

/// Relies on `Mutex::lock` and `Blake2b::update`: under the lock, the engine
/// in the cell absorbs `data`. A lock poisoned by an earlier panic is a fatal
/// fault and panics again here.
#[verifier::external_body]
pub(crate) fn cell_update(m: &Mutex<Blake2b>, data: &[u8]) {
    m.lock().unwrap().update(data)
}

/// Relies on `Mutex::lock` and `std::mem::replace`: under the lock, the engine
/// in the cell is handed out and `fresh`, with the default parameters, takes
/// its place. A lock poisoned by an earlier panic panics again here.
#[verifier::external_body]
pub(crate) fn cell_replace(m: &Mutex<Blake2b>, fresh: Blake2b) -> (r: Blake2b)
    requires
        engine_setup(fresh) == default_setup(),
    ensures
        cell_setup(*m) == engine_setup(fresh) ==> engine_setup(r) == cell_setup(*m),
{
    std::mem::replace(&mut *m.lock().unwrap(), fresh)
}

} // verus!
