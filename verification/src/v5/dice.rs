//! Rolling an assembled pool.

use vstd::prelude::*;
use crate::random::roll_die_with;
use crate::v5::types::{Die, DieKind, PoolSpec, RollResult, copy_parts};

verus! {

/// Rolls every die of the pool with the given generator: the regular dice
/// first, then the hunger dice, each showing 1–10. The pool's parts are
/// copied into the result. The total die count must fit in a `u8`, the
/// type the count is kept in.
pub fn roll_pool(spec: &PoolSpec, rng: &mut rand::rngs::StdRng) -> (r: RollResult)
    requires
        spec.regular_count + spec.hunger_count <= 255,
    ensures
        r.parts@ == spec.parts@,
        r.dice@.len() == spec.regular_count + spec.hunger_count,
        forall|i: int| 0 <= i < r.dice@.len() ==> 1 <= #[trigger] r.dice@[i].value <= 10,
        forall|i: int| 0 <= i < spec.regular_count ==> #[trigger] r.dice@[i].kind == DieKind::Regular,
        forall|i: int| spec.regular_count <= i < r.dice@.len() ==> #[trigger] r.dice@[i].kind == DieKind::Hunger,
{
    let mut dice: Vec<Die> = Vec::new();
    let mut k: u8 = 0;
    while k < spec.regular_count
        invariant
            k <= spec.regular_count,
            dice@.len() == k,
            forall|i: int| 0 <= i < dice@.len() ==> 1 <= #[trigger] dice@[i].value <= 10,
            forall|i: int| 0 <= i < dice@.len() ==> #[trigger] dice@[i].kind == DieKind::Regular,
        decreases spec.regular_count - k,
    {
        let value = roll_die_with(rng);
        dice.push(Die { kind: DieKind::Regular, value });
        k += 1;
    }
    let mut h: u8 = 0;
    while h < spec.hunger_count
        invariant
            h <= spec.hunger_count,
            dice@.len() == spec.regular_count + h,
            forall|i: int| 0 <= i < dice@.len() ==> 1 <= #[trigger] dice@[i].value <= 10,
            forall|i: int| 0 <= i < spec.regular_count ==> #[trigger] dice@[i].kind == DieKind::Regular,
            forall|i: int| spec.regular_count <= i < dice@.len() ==> #[trigger] dice@[i].kind == DieKind::Hunger,
        decreases spec.hunger_count - h,
    {
        let value = roll_die_with(rng);
        dice.push(Die { kind: DieKind::Hunger, value });
        h += 1;
    }
    RollResult { parts: copy_parts(&spec.parts), dice }
}

} // verus!
