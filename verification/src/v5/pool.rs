//! V5 dice pool assembly.

use vstd::prelude::*;
use crate::text::{owned, append_str};
use crate::v5::types::{PoolPart, PoolSpec, SkillCheckInput, copy_part};

verus! {

/// Dice in the pool: attribute plus skill, plus one for a specialty.
pub open spec fn pool_size(input: SkillCheckInput) -> nat {
    (input.attribute.level + input.skill.level + (if input.specialty is Some { 1int } else { 0int })) as nat
}

/// Builds the pool: the attribute and skill parts, a one-die
/// "Specialty: <name>" part when a specialty is named; hunger dice replace
/// regular dice one for one, capped at the pool size. The pool must fit in
/// a `u8`, the type the level sum is kept in.
pub fn build_pool(input: &SkillCheckInput) -> (spec: PoolSpec)
    requires
        pool_size(*input) <= 255,
    ensures
        spec.parts@.len() == if input.specialty is Some { 3int } else { 2int },
        spec.parts@[0] == input.attribute,
        spec.parts@[1] == input.skill,
        input.specialty matches Some(name) ==> spec.parts@[2].name@ == "Specialty: "@ + name@
            && spec.parts@[2].level == 1,
        spec.hunger_count == if input.hunger <= pool_size(*input) { input.hunger as nat } else { pool_size(*input) },
        spec.regular_count + spec.hunger_count == pool_size(*input),
{
    let mut parts: Vec<PoolPart> = Vec::new();
    parts.push(copy_part(&input.attribute));
    parts.push(copy_part(&input.skill));
    let mut pool_size: u8 = input.attribute.level + input.skill.level;
    match &input.specialty {
        Some(name) => {
            let mut label = owned("Specialty: ");
            append_str(&mut label, name.as_str());
            parts.push(PoolPart { name: label, level: 1 });
            pool_size = pool_size + 1;
        },
        None => {},
    }
    let hunger_count = if input.hunger < pool_size { input.hunger } else { pool_size };
    let regular_count = pool_size - hunger_count;
    PoolSpec { parts, regular_count, hunger_count }
}

} // verus!
