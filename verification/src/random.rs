//! The random number source behind sign-in codes and session tokens.
use vstd::prelude::*;
use rand::rngs::ThreadRng;
use rand::Rng;

verus! {

#[verifier::external_type_specification]
#[verifier::external_body]
pub struct ExThreadRng(ThreadRng);

/// The thread-local generator that `rand::thread_rng` hands out, seeded by the system.
/// Nothing is stated of it: its output is random.
#[verifier::external_body]
pub(crate) fn thread_rng() -> ThreadRng {
    rand::thread_rng()
}

/// A uniformly drawn number below `bound`, from `Rng::gen_range(0..bound)`.
/// The only fact stated is the range, which `gen_range` guarantees for a non-empty range;
/// the value itself is random.
#[verifier::external_body]
pub(crate) fn gen_below(rng: &mut ThreadRng, bound: usize) -> (r: usize)
    requires
        bound > 0,
    ensures
        r < bound,
{
    rng.gen_range(0..bound)
}

} // verus!
