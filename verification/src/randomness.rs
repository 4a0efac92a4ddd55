use vstd::prelude::*;

use rand::rngs::ThreadRng;
use rand::Rng;

verus! {

/// The thread-local random number generator of `rand`; opaque here.
#[verifier::external_type_specification]
#[verifier::external_body]
pub struct ExThreadRng(ThreadRng);

/// Calls `rand::thread_rng`, which hands out a handle to the generator of
/// the current thread. Nothing is claimed of the handle.
#[verifier::external_body]
pub(crate) fn thread_rng() -> ThreadRng {
    rand::thread_rng()
}

/// Calls `Rng::gen_range::<i32>` of `rand` on the thread generator. Its
/// documentation promises a value in `low..high` and a panic when
/// `low >= high`, which the precondition rules out; which value comes is
/// left to chance and is not stated.
#[verifier::external_body]
pub(crate) fn gen_range_i32(rng: &mut ThreadRng, low: i32, high: i32) -> (r: i32)
    requires
        low < high,
    ensures
        low <= r < high,
{
    rng.gen_range(low, high)
}

} // verus!
