//! Comparing a tally against a difficulty.

use vstd::prelude::*;
use crate::v5::types::{Outcome, OutcomeFlags, Tally};

verus! {

/// Compares a tally against a difficulty: the margin is successes minus
/// difficulty, the check passes when the margin is not negative, a failure
/// with a hunger one is bestial, and no successes at all is a total
/// failure. The critical and messy flags carry over from the tally.
pub fn compare(tally: &Tally, difficulty: u8) -> (o: Outcome)
    ensures
        o.successes == tally.successes,
        o.difficulty == difficulty,
        o.margin == tally.successes - difficulty,
        o.passed == (tally.successes >= difficulty),
        o.flags.critical == tally.is_critical,
        o.flags.messy == tally.is_messy_critical,
        o.flags.bestial_failure == (tally.successes < difficulty && tally.has_hunger_one),
        o.flags.total_failure == (tally.successes == 0),
{
    let margin: i32 = (tally.successes as i32) - (difficulty as i32);
    let passed = margin >= 0;
    let total_failure = tally.successes == 0;
    let bestial_failure = !passed && tally.has_hunger_one;
    Outcome {
        successes: tally.successes,
        difficulty,
        margin,
        passed,
        flags: OutcomeFlags {
            critical: tally.is_critical,
            messy: tally.is_messy_critical,
            bestial_failure,
            total_failure,
        },
    }
}

} // verus!
