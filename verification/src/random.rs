//! The random draws the dice rules consume, each behind the rand call that
//! produces it. Nothing is promised of a draw beyond its range.

use vstd::prelude::*;
use rand::Rng;
use rand::seq::SliceRandom;

verus! {

#[verifier::external_type_specification]
#[verifier::external_body]
pub struct ExStdRng(rand::rngs::StdRng);

/// rand's `thread_rng().gen_range(0..n)`: a uniformly drawn number below
/// `n`. The range must not be empty (rand panics on an empty range).
#[verifier::external_body]
pub fn random_below(n: u64) -> (r: u64)
    requires
        n > 0,
    ensures
        r < n,
{
    rand::thread_rng().gen_range(0..n)
}

/// rand's `StdRng::gen_range(1..=10)` on the given generator: one ten-sided
/// die, 1 through 10. Which face comes up depends on the generator's state.
#[verifier::external_body]
pub fn roll_die_with(rng: &mut rand::rngs::StdRng) -> (r: u8)
    ensures
        1 <= r <= 10,
{
    rng.gen_range(1..=10)
}

/// rand's `SliceRandom::choose` with `thread_rng()`: one element of the
/// slice, or `None` exactly when the slice is empty. Which element comes
/// out is left to chance.
#[verifier::external_body]
pub fn choose_one<T>(items: &[T]) -> (r: Option<&T>)
    ensures
        r is None <==> items@.len() == 0,
        r matches Some(x) ==> items@.contains(*x),
{
    items.choose(&mut rand::thread_rng())
}

} // verus!
