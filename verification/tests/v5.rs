use rand::rngs::StdRng;
use rand::SeedableRng;
use vtmtools::v5::difficulty::compare;
use vtmtools::v5::dice::roll_pool;
use vtmtools::v5::interpret::interpret;
use vtmtools::v5::message::format_skill_check;
use vtmtools::v5::pool::build_pool;
use vtmtools::v5::skill_check::skill_check;
use vtmtools::v5::types::{
    Die, DieKind, Outcome, OutcomeFlags, PoolPart, PoolSpec, RollResult, SkillCheckInput, Tally,
};

fn tally(successes: u8, hunger_one: bool, critical: bool, messy: bool) -> Tally {
    Tally {
        successes,
        crit_pairs: if critical { 1 } else { 0 },
        is_critical: critical,
        is_messy_critical: messy,
        has_hunger_one: hunger_one,
    }
}

#[test]
fn passed_with_positive_margin() {
    let o = compare(&tally(5, false, false, false), 2);
    assert!(o.passed);
    assert_eq!(o.margin, 3);
    assert!(!o.flags.bestial_failure);
    assert!(!o.flags.total_failure);
}

#[test]
fn exactly_meeting_difficulty_passes() {
    let o = compare(&tally(2, false, false, false), 2);
    assert!(o.passed);
    assert_eq!(o.margin, 0);
}

#[test]
fn below_difficulty_fails() {
    let o = compare(&tally(1, false, false, false), 3);
    assert!(!o.passed);
    assert_eq!(o.margin, -2);
}

#[test]
fn zero_successes_is_total_failure() {
    let o = compare(&tally(0, false, false, false), 1);
    assert!(o.flags.total_failure);
}

#[test]
fn failure_with_hunger_one_is_bestial() {
    let o = compare(&tally(1, true, false, false), 3);
    assert!(o.flags.bestial_failure);
}

#[test]
fn pass_with_hunger_one_is_not_bestial() {
    let o = compare(&tally(3, true, false, false), 1);
    assert!(o.passed);
    assert!(!o.flags.bestial_failure);
}

#[test]
fn total_failure_with_hunger_one_sets_both_flags() {
    let o = compare(&tally(0, true, false, false), 1);
    assert!(o.flags.total_failure);
    assert!(o.flags.bestial_failure);
}

#[test]
fn critical_flag_propagates_to_outcome_flags() {
    let o = compare(&tally(4, false, true, false), 1);
    assert!(o.passed);
    assert!(o.flags.critical);
}

#[test]
fn messy_flag_propagates() {
    let o = compare(&tally(4, false, true, true), 1);
    assert!(o.flags.messy);
}

fn die(kind: DieKind, value: u8) -> Die {
    Die { kind, value }
}

fn result_from(values: &[(DieKind, u8)]) -> RollResult {
    RollResult {
        parts: vec![PoolPart { name: "X".into(), level: values.len() as u8 }],
        dice: values.iter().map(|(k, v)| die(*k, *v)).collect(),
    }
}

#[test]
fn no_dice_no_successes() {
    let r = result_from(&[]);
    let t = interpret(&r);
    assert_eq!(t.successes, 0);
    assert_eq!(t.crit_pairs, 0);
    assert!(!t.is_critical);
}

#[test]
fn dice_six_through_nine_each_count_one_success() {
    let r = result_from(&[
        (DieKind::Regular, 6),
        (DieKind::Regular, 7),
        (DieKind::Regular, 8),
        (DieKind::Regular, 9),
        (DieKind::Regular, 5),
        (DieKind::Regular, 1),
    ]);
    let t = interpret(&r);
    assert_eq!(t.successes, 4);
    assert_eq!(t.crit_pairs, 0);
    assert!(!t.is_critical);
}

#[test]
fn two_tens_yield_four_successes_one_crit_pair() {
    let r = result_from(&[(DieKind::Regular, 10), (DieKind::Regular, 10)]);
    let t = interpret(&r);
    assert_eq!(t.successes, 4);
    assert_eq!(t.crit_pairs, 1);
    assert!(t.is_critical);
    assert!(!t.is_messy_critical);
}

#[test]
fn four_tens_yield_eight_successes_two_crit_pairs() {
    let r = result_from(&[
        (DieKind::Regular, 10),
        (DieKind::Regular, 10),
        (DieKind::Regular, 10),
        (DieKind::Regular, 10),
    ]);
    let t = interpret(&r);
    assert_eq!(t.successes, 8);
    assert_eq!(t.crit_pairs, 2);
}

#[test]
fn three_tens_yield_five_successes_one_pair_plus_lone() {
    let r = result_from(&[(DieKind::Regular, 10), (DieKind::Regular, 10), (DieKind::Regular, 10)]);
    let t = interpret(&r);
    assert_eq!(t.successes, 5);
    assert_eq!(t.crit_pairs, 1);
}

#[test]
fn hunger_ten_in_pair_marks_messy() {
    let r = result_from(&[(DieKind::Hunger, 10), (DieKind::Regular, 10)]);
    let t = interpret(&r);
    assert!(t.is_critical);
    assert!(t.is_messy_critical);
}

#[test]
fn hunger_ten_alone_is_not_messy_without_pair() {
    let r = result_from(&[(DieKind::Hunger, 10), (DieKind::Regular, 7)]);
    let t = interpret(&r);
    assert!(!t.is_critical);
    assert!(!t.is_messy_critical);
    assert_eq!(t.successes, 2);
}

#[test]
fn hunger_one_recorded_in_tally() {
    let r = result_from(&[(DieKind::Hunger, 1), (DieKind::Regular, 7)]);
    let t = interpret(&r);
    assert!(t.has_hunger_one);
}

#[test]
fn regular_one_does_not_set_hunger_one() {
    let r = result_from(&[(DieKind::Regular, 1), (DieKind::Hunger, 5)]);
    let t = interpret(&r);
    assert!(!t.has_hunger_one);
}

fn input(attr: u8, skill: u8, hunger: u8, specialty: Option<&str>) -> SkillCheckInput {
    SkillCheckInput {
        character_name: None,
        attribute: PoolPart { name: "Strength".into(), level: attr },
        skill: PoolPart { name: "Brawl".into(), level: skill },
        hunger,
        specialty: specialty.map(String::from),
        difficulty: 0,
    }
}

#[test]
fn pool_size_is_attribute_plus_skill() {
    let spec = build_pool(&input(3, 4, 0, None));
    assert_eq!(spec.regular_count + spec.hunger_count, 7);
    assert_eq!(spec.parts.len(), 2);
}

#[test]
fn specialty_adds_one_die_with_labeled_part() {
    let spec = build_pool(&input(3, 4, 0, Some("bare-knuckle")));
    assert_eq!(spec.regular_count + spec.hunger_count, 8);
    assert_eq!(spec.parts.len(), 3);
    assert!(spec.parts[2].name.contains("bare-knuckle"));
    assert_eq!(spec.parts[2].level, 1);
}

#[test]
fn hunger_replaces_regular_dice_one_for_one() {
    let spec = build_pool(&input(3, 4, 2, None));
    assert_eq!(spec.regular_count, 5);
    assert_eq!(spec.hunger_count, 2);
}

#[test]
fn hunger_capped_at_pool_size() {
    let spec = build_pool(&input(2, 1, 5, None));
    assert_eq!(spec.regular_count, 0);
    assert_eq!(spec.hunger_count, 3);
}

#[test]
fn zero_pool_is_zero_dice() {
    let spec = build_pool(&input(0, 0, 0, None));
    assert_eq!(spec.regular_count + spec.hunger_count, 0);
}

fn input_with(name: Option<&str>) -> SkillCheckInput {
    SkillCheckInput {
        character_name: name.map(String::from),
        attribute: PoolPart { name: "Strength".into(), level: 4 },
        skill: PoolPart { name: "Brawl".into(), level: 3 },
        hunger: 2,
        specialty: None,
        difficulty: 2,
    }
}

fn empty_result() -> RollResult {
    RollResult { parts: vec![], dice: vec![] }
}

fn outcome(successes: u8, difficulty: u8, passed: bool, flags: OutcomeFlags) -> Outcome {
    Outcome { successes, difficulty, margin: (successes as i32) - (difficulty as i32), passed, flags }
}

fn flags(critical: bool, messy: bool, bestial: bool, total: bool) -> OutcomeFlags {
    OutcomeFlags { critical, messy, bestial_failure: bestial, total_failure: total }
}

#[test]
fn includes_character_name_when_set() {
    let i = input_with(Some("Charlotte"));
    let o = outcome(5, 2, true, flags(false, false, false, false));
    let s = format_skill_check(&i, &empty_result(), &o);
    assert!(s.contains("Charlotte"), "expected Charlotte in: {s}");
}

#[test]
fn omits_owner_when_name_is_none() {
    let i = input_with(None);
    let o = outcome(5, 2, true, flags(false, false, false, false));
    let s = format_skill_check(&i, &empty_result(), &o);
    assert!(!s.starts_with("'s"));
    assert!(s.starts_with("Strength + Brawl"));
}

#[test]
fn marks_messy_critical() {
    let i = input_with(Some("Charlotte"));
    let o = outcome(5, 2, true, flags(true, true, false, false));
    let s = format_skill_check(&i, &empty_result(), &o);
    assert!(s.contains("Messy Critical"));
}

#[test]
fn marks_bestial_failure() {
    let i = input_with(Some("Tessa"));
    let o = outcome(1, 3, false, flags(false, false, true, false));
    let s = format_skill_check(&i, &empty_result(), &o);
    assert!(s.contains("Bestial Failure"));
}

#[test]
fn shows_margin_and_dv() {
    let i = input_with(None);
    let o = outcome(5, 2, true, flags(false, false, false, false));
    let s = format_skill_check(&i, &empty_result(), &o);
    assert!(s.contains("+3"), "expected +3 in: {s}");
    assert!(s.contains("DV 2"), "expected DV 2 in: {s}");
}

#[test]
fn shows_negative_margin_for_failure() {
    let i = input_with(None);
    let o = outcome(1, 3, false, flags(false, false, false, false));
    let s = format_skill_check(&i, &empty_result(), &o);
    assert!(s.contains("-2"), "expected -2 in: {s}");
}

fn spec(reg: u8, hung: u8) -> PoolSpec {
    PoolSpec { parts: vec![PoolPart { name: "X".into(), level: reg + hung }], regular_count: reg, hunger_count: hung }
}

#[test]
fn roll_count_matches_spec() {
    let mut rng = StdRng::seed_from_u64(42);
    let r = roll_pool(&spec(5, 2), &mut rng);
    assert_eq!(r.dice.len(), 7);
}

#[test]
fn regulars_first_then_hunger_in_pool_order() {
    let mut rng = StdRng::seed_from_u64(42);
    let r = roll_pool(&spec(3, 2), &mut rng);
    assert_eq!(r.dice.len(), 5);
    assert_eq!(r.dice[0].kind, DieKind::Regular);
    assert_eq!(r.dice[1].kind, DieKind::Regular);
    assert_eq!(r.dice[2].kind, DieKind::Regular);
    assert_eq!(r.dice[3].kind, DieKind::Hunger);
    assert_eq!(r.dice[4].kind, DieKind::Hunger);
}

#[test]
fn dice_values_are_one_through_ten() {
    let mut rng = StdRng::seed_from_u64(42);
    let r = roll_pool(&spec(10, 0), &mut rng);
    for d in &r.dice {
        assert!(d.value >= 1 && d.value <= 10, "die value out of range: {}", d.value);
    }
}

#[test]
fn deterministic_with_same_seed() {
    let mut rng_a = StdRng::seed_from_u64(123);
    let mut rng_b = StdRng::seed_from_u64(123);
    let a = roll_pool(&spec(5, 2), &mut rng_a);
    let b = roll_pool(&spec(5, 2), &mut rng_b);
    let av: Vec<_> = a.dice.iter().map(|d| d.value).collect();
    let bv: Vec<_> = b.dice.iter().map(|d| d.value).collect();
    assert_eq!(av, bv);
}

#[test]
fn parts_are_copied_into_result() {
    let s = spec(3, 0);
    let parts_in = s.parts.clone();
    let mut rng = StdRng::seed_from_u64(1);
    let r = roll_pool(&s, &mut rng);
    assert_eq!(r.parts.len(), parts_in.len());
    assert_eq!(r.parts[0].name, parts_in[0].name);
}

fn sample_input() -> SkillCheckInput {
    SkillCheckInput {
        character_name: Some("Charlotte".into()),
        attribute: PoolPart { name: "Strength".into(), level: 4 },
        skill: PoolPart { name: "Brawl".into(), level: 3 },
        hunger: 2,
        specialty: None,
        difficulty: 2,
    }
}

#[test]
fn deterministic_with_seed() {
    let mut rng_a = StdRng::seed_from_u64(42);
    let mut rng_b = StdRng::seed_from_u64(42);
    let a = skill_check(&sample_input(), &mut rng_a);
    let b = skill_check(&sample_input(), &mut rng_b);
    assert_eq!(a.outcome.successes, b.outcome.successes);
    assert_eq!(a.outcome.margin, b.outcome.margin);
    assert_eq!(a.message, b.message);
}

#[test]
fn pipeline_produces_message_referencing_character() {
    let mut rng = StdRng::seed_from_u64(7);
    let r = skill_check(&sample_input(), &mut rng);
    assert!(r.message.contains("Charlotte"));
    assert!(r.message.contains("Strength"));
    assert!(r.message.contains("Brawl"));
}

#[test]
fn pool_size_matches_attribute_plus_skill_plus_hunger_clamp() {
    let mut rng = StdRng::seed_from_u64(7);
    let r = skill_check(&sample_input(), &mut rng);
    assert_eq!(r.spec.regular_count, 5);
    assert_eq!(r.spec.hunger_count, 2);
    assert_eq!(r.roll.dice.len(), 7);
}

// ── own tests ──────────────────────────────────────────────────────────

#[test]
fn full_message_text_for_messy_critical() {
    let i = input_with(Some("Charlotte"));
    let o = outcome(6, 2, true, flags(true, true, false, false));
    let s = format_skill_check(&i, &empty_result(), &o);
    assert!(s.starts_with("Charlotte's Strength + Brawl"), "got: {s}");
    assert!(s.contains("+4"), "got: {s}");
}

#[test]
fn five_tens_with_hunger_ten_outside_pairs_still_messy() {
    // Any hunger ten counts once a critical pair exists.
    let r = result_from(&[
        (DieKind::Regular, 10),
        (DieKind::Regular, 10),
        (DieKind::Hunger, 10),
    ]);
    let t = interpret(&r);
    assert!(t.is_critical);
    assert!(t.is_messy_critical);
    assert_eq!(t.successes, 5);
}

#[test]
fn specialty_part_is_named() {
    let spec = build_pool(&input(1, 1, 0, Some("knives")));
    assert_eq!(spec.parts[2].name, "Specialty: knives");
}

#[test]
fn tally_ignores_dice_order() {
    let a = result_from(&[(DieKind::Regular, 10), (DieKind::Hunger, 1), (DieKind::Hunger, 10), (DieKind::Regular, 7)]);
    let b = result_from(&[(DieKind::Regular, 7), (DieKind::Hunger, 10), (DieKind::Hunger, 1), (DieKind::Regular, 10)]);
    let (ta, tb) = (interpret(&a), interpret(&b));
    assert_eq!(ta.successes, tb.successes);
    assert_eq!(ta.successes, 5);
    assert_eq!(ta.crit_pairs, tb.crit_pairs);
    assert_eq!(ta.is_critical, tb.is_critical);
    assert_eq!(ta.is_messy_critical, tb.is_messy_critical);
    assert!(ta.is_messy_critical);
    assert_eq!(ta.has_hunger_one, tb.has_hunger_one);
}
