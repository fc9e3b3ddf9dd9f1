//! The skill-check pipeline: assemble, roll, interpret, compare, format.

use vstd::prelude::*;
use crate::v5::pool::{build_pool, pool_size};
use crate::v5::dice::roll_pool;
use crate::v5::interpret::{interpret, tally_fits, count_dice, tens, hunger_tens, hunger_ones,
    plain_successes, total_successes, is_ten, is_hunger_one};
use crate::v5::difficulty::compare;
use crate::v5::message::{format_skill_check, skill_check_message};
use crate::v5::types::{Die, PoolSpec, RollResult, SkillCheckInput, SkillCheckResult};

verus! {

proof fn lemma_count_le_len(s: Seq<Die>, p: spec_fn(Die) -> bool)
    ensures
        count_dice(s, p) <= s.len(),
    decreases s.len(),
{
    if s.len() > 0 {
        lemma_count_le_len(s.drop_last(), p);
    }
}

proof fn lemma_disjoint_le_len(s: Seq<Die>)
    ensures
        plain_successes(s) + tens(s) <= s.len(),
    decreases s.len(),
{
    if s.len() > 0 {
        lemma_disjoint_le_len(s.drop_last());
    }
}

/// A roll of at most 127 dice always fits the tally's counters.
pub proof fn lemma_small_roll_fits(s: Seq<Die>)
    requires
        s.len() <= 127,
    ensures
        tally_fits(s),
{
    lemma_count_le_len(s, |d: Die| is_ten(d));
    lemma_count_le_len(s, |d: Die| is_hunger_one(d));
    lemma_disjoint_le_len(s);
}

/// Finishes a check whose dice are known: tally, compare against the
/// input's difficulty, format the message.
pub fn conclude_skill_check(input: &SkillCheckInput, spec: PoolSpec, roll: RollResult) -> (r: SkillCheckResult)
    requires
        tally_fits(roll.dice@),
    ensures
        r.spec == spec,
        r.roll == roll,
        r.tally.successes == total_successes(roll.dice@),
        r.tally.crit_pairs == tens(roll.dice@) / 2,
        r.tally.is_critical == (tens(roll.dice@) >= 2),
        r.tally.is_messy_critical == (tens(roll.dice@) >= 2 && hunger_tens(roll.dice@) >= 1),
        r.tally.has_hunger_one == (hunger_ones(roll.dice@) > 0),
        r.outcome.successes == r.tally.successes,
        r.outcome.difficulty == input.difficulty,
        r.outcome.margin == r.tally.successes - input.difficulty,
        r.outcome.passed == (r.tally.successes >= input.difficulty),
        r.outcome.flags.critical == r.tally.is_critical,
        r.outcome.flags.messy == r.tally.is_messy_critical,
        r.outcome.flags.bestial_failure == (r.tally.successes < input.difficulty && r.tally.has_hunger_one),
        r.outcome.flags.total_failure == (r.tally.successes == 0),
        r.message@ == skill_check_message(*input, r.outcome),
{
    let tally = interpret(&roll);
    let outcome = compare(&tally, input.difficulty);
    let message = format_skill_check(input, &roll, &outcome);
    SkillCheckResult { spec, roll, tally, outcome, message }
}

/// Runs a full skill check with the given generator: builds the pool,
/// rolls it, reads the dice, compares against the difficulty and formats
/// the message. The pool is limited to 127 dice so that every possible
/// roll fits the tally's counters.
pub fn skill_check(input: &SkillCheckInput, rng: &mut rand::rngs::StdRng) -> (r: SkillCheckResult)
    requires
        pool_size(*input) <= 127,
    ensures
        r.spec.parts@.len() == if input.specialty is Some { 3int } else { 2int },
        r.spec.parts@[0] == input.attribute,
        r.spec.parts@[1] == input.skill,
        input.specialty matches Some(name) ==> r.spec.parts@[2].name@ == "Specialty: "@ + name@
            && r.spec.parts@[2].level == 1,
        r.spec.hunger_count == if input.hunger <= pool_size(*input) { input.hunger as nat } else { pool_size(*input) },
        r.spec.regular_count + r.spec.hunger_count == pool_size(*input),
        r.roll.parts@ == r.spec.parts@,
        r.roll.dice@.len() == pool_size(*input),
        forall|i: int| 0 <= i < r.roll.dice@.len() ==> 1 <= #[trigger] r.roll.dice@[i].value <= 10,
        forall|i: int| 0 <= i < r.spec.regular_count ==> #[trigger] r.roll.dice@[i].kind == crate::v5::types::DieKind::Regular,
        forall|i: int| r.spec.regular_count <= i < r.roll.dice@.len() ==> #[trigger] r.roll.dice@[i].kind == crate::v5::types::DieKind::Hunger,
        r.tally.successes == total_successes(r.roll.dice@),
        r.tally.crit_pairs == tens(r.roll.dice@) / 2,
        r.tally.is_critical == (tens(r.roll.dice@) >= 2),
        r.tally.is_messy_critical == (tens(r.roll.dice@) >= 2 && hunger_tens(r.roll.dice@) >= 1),
        r.tally.has_hunger_one == (hunger_ones(r.roll.dice@) > 0),
        r.outcome.successes == r.tally.successes,
        r.outcome.difficulty == input.difficulty,
        r.outcome.margin == r.tally.successes - input.difficulty,
        r.outcome.passed == (r.tally.successes >= input.difficulty),
        r.outcome.flags.critical == r.tally.is_critical,
        r.outcome.flags.messy == r.tally.is_messy_critical,
        r.outcome.flags.bestial_failure == (r.tally.successes < input.difficulty && r.tally.has_hunger_one),
        r.outcome.flags.total_failure == (r.tally.successes == 0),
        r.message@ == skill_check_message(*input, r.outcome),
{
    let spec = build_pool(input);
    let roll = roll_pool(&spec, rng);
    proof {
        lemma_small_roll_fits(roll.dice@);
    }
    conclude_skill_check(input, spec, roll)
}

} // verus!
