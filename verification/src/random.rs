//! Drawing the index of the next word at random.

use vstd::prelude::*;
use rand::Rng;

verus! {

/// The generator that `rand::thread_rng` hands out.
#[verifier::external_type_specification]
#[verifier::external_body]
pub struct ExThreadRng(rand::rngs::ThreadRng);

/// `rand::thread_rng` returns the generator of the current thread. Nothing is
/// claimed of it. At its first use in a thread it gives up with a panic where
/// the operating system's random source fails; no argument can cause or
/// prevent that.
pub assume_specification[ rand::thread_rng ]() -> (rng: rand::rngs::ThreadRng);

/// Calls `Rng::gen_range` with the range from zero up to, not including,
/// `bound`. The call panics on an empty range, so `bound` must be positive;
/// the value drawn lies in the range, and nothing more is known of it. The
/// generator seeds itself anew from time to time, and gives up with a panic
/// where the operating system's random source fails then; no argument can
/// cause or prevent that.
#[verifier::external_body]
fn gen_below(rng: &mut rand::rngs::ThreadRng, bound: usize) -> (index: usize)
    requires
        bound > 0,
    ensures
        index < bound,
{
    rng.gen_range(0..bound)
}

/// An index below `bound` drawn at random, or nothing when there is no such
/// index.
pub fn random_index(bound: usize) -> (index: Option<usize>)
    ensures
        bound == 0 <==> index.is_none(),
        index.is_some() ==> index.unwrap() < bound,
{
    if bound == 0 {
        None
    } else {
        let mut rng = rand::thread_rng();
        Some(gen_below(&mut rng, bound))
    }
}

} // verus!
