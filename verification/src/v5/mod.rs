//! V5 skill checks: assemble the pool, roll it, tally the dice, compare
//! against a difficulty and describe the outcome.

pub mod types;
pub mod pool;
pub mod dice;
pub mod interpret;
pub mod difficulty;
pub mod message;
pub mod skill_check;
