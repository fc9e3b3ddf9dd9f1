//! Shapes shared by the V5 skill-check steps.

use vstd::prelude::*;

verus! {

/// One named contributor to a dice pool: an Attribute, a Skill, or the
/// synthetic one-die "Specialty: <name>" part.
#[derive(Debug, Clone)]
pub struct PoolPart {
    pub name: String,
    /// 0..=5 in V5; a specialty always contributes 1.
    pub level: u8,
}

#[derive(Debug, Clone, Copy, PartialEq, Eq, Structural)]
pub enum DieKind {
    Regular,
    Hunger,
}

#[derive(Debug, Clone, Copy)]
pub struct Die {
    pub kind: DieKind,
    /// 1..=10
    pub value: u8,
}

#[derive(Debug, Clone)]
pub struct PoolSpec {
    pub parts: Vec<PoolPart>,
    pub regular_count: u8,
    pub hunger_count: u8,
}

#[derive(Debug, Clone)]
pub struct RollResult {
    pub parts: Vec<PoolPart>,
    /// Pool order: regular dice first, then hunger dice.
    pub dice: Vec<Die>,
}

#[derive(Debug, Clone, Copy)]
pub struct Tally {
    /// Dice of 6 or more, plus two per pair of tens.
    pub successes: u8,
    /// Tens divided by two.
    pub crit_pairs: u8,
    /// At least one pair of tens.
    pub is_critical: bool,
    /// Critical with at least one hunger ten.
    pub is_messy_critical: bool,
    /// At least one hunger die showing 1.
    pub has_hunger_one: bool,
}

#[derive(Debug, Clone, Copy)]
pub struct OutcomeFlags {
    pub critical: bool,
    pub messy: bool,
    /// Failed with a hunger one.
    pub bestial_failure: bool,
    /// No successes at all.
    pub total_failure: bool,
}

#[derive(Debug, Clone, Copy)]
pub struct Outcome {
    pub successes: u8,
    pub difficulty: u8,
    /// successes - difficulty
    pub margin: i32,
    pub passed: bool,
    pub flags: OutcomeFlags,
}

#[derive(Debug, Clone)]
pub struct SkillCheckInput {
    /// Used for message formatting.
    pub character_name: Option<String>,
    pub attribute: PoolPart,
    pub skill: PoolPart,
    /// 0..=5; 0 for mortals.
    pub hunger: u8,
    /// Some(name) adds one die.
    pub specialty: Option<String>,
    pub difficulty: u8,
}

#[derive(Debug, Clone)]
pub struct SkillCheckResult {
    pub spec: PoolSpec,
    pub roll: RollResult,
    pub tally: Tally,
    pub outcome: Outcome,
    pub message: String,
}

/// A copy of a pool part.
pub fn copy_part(p: &PoolPart) -> (r: PoolPart)
    ensures
        r == *p,
{
    PoolPart { name: p.name.clone(), level: p.level }
}

/// A copy of a list of pool parts.
pub fn copy_parts(v: &Vec<PoolPart>) -> (r: Vec<PoolPart>)
    ensures
        r@ == v@,
{
    let mut out: Vec<PoolPart> = Vec::new();
    let mut i: usize = 0;
    while i < v.len()
        invariant
            i <= v@.len(),
            out@ == v@.take(i as int),
        decreases v.len() - i,
    {
        out.push(copy_part(&v[i]));
        assert(out@ =~= v@.take(i + 1));
        i += 1;
    }
    assert(v@.take(v@.len() as int) =~= v@);
    out
}

} // verus!
