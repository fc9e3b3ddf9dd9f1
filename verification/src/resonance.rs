//! The resonance roll sequence: temperament, then (unless Negligible) the
//! resonance type, then (if Intense) the Acute check.

use vstd::prelude::*;
use crate::dice::{advantage_roll, roll_d10, weighted_resonance_pick, clamp_count, is_selected,
    guaranteed_type, total_weight, pick_by_draw, type_at};
use crate::types::{ResonanceRollResult, ResonanceType, ResonanceWeights, RollConfig, Temperament,
    TemperamentConfig};

verus! {

/// Temperament of a die against the config's thresholds: Negligible up to
/// `negligible_max`, Fleeting up to `fleeting_max`, Intense above.
pub open spec fn temperament_of(die: u8, config: TemperamentConfig) -> Temperament {
    if die <= config.negligible_max {
        Temperament::Negligible
    } else if die <= config.fleeting_max {
        Temperament::Fleeting
    } else {
        Temperament::Intense
    }
}

/// What every weighted pick satisfies: a `Guaranteed` slider wins;
/// otherwise, while some weight is positive, the type is the one some draw
/// below the total weight lands on, and with every weight zero it is the
/// type at some position of the four.
pub open spec fn is_weighted_pick(w: ResonanceWeights, r: ResonanceType) -> bool {
    &&& guaranteed_type(w) matches Some(t) ==> r == t
    &&& guaranteed_type(w) is None && total_weight(w) > 0 ==> exists|draw: int|
        0 <= draw < total_weight(w) && r == #[trigger] pick_by_draw(w, draw)
    &&& guaranteed_type(w) is None && total_weight(w) == 0 ==> exists|i: int|
        0 <= i < 4 && r == #[trigger] type_at(i)
}

/// Classifies a temperament die against the config's thresholds.
pub fn classify_temperament(die: u8, config: &TemperamentConfig) -> (t: Temperament)
    ensures
        t == temperament_of(die, *config),
{
    if die <= config.negligible_max {
        Temperament::Negligible
    } else if die <= config.fleeting_max {
        Temperament::Fleeting
    } else {
        Temperament::Intense
    }
}

/// Rolls temperament according to config. Returns (selected die, all dice,
/// temperament). The thresholds must be ordered (`negligible_max <
/// fleeting_max`), as the config's invariant demands.
pub fn roll_temperament(config: &TemperamentConfig) -> (r: (u8, Vec<u8>, Temperament))
    requires
        config.negligible_max < config.fleeting_max,
    ensures
        r.1@.len() == clamp_count(config.dice_count),
        forall|i: int| 0 <= i < r.1@.len() ==> 1 <= #[trigger] r.1@[i] <= 10,
        is_selected(r.0, r.1@, config.take_highest),
        1 <= r.0 <= 10,
        r.2 == temperament_of(r.0, *config),
{
    let (die, all_rolls) = advantage_roll(config.dice_count, config.take_highest);
    let temperament = classify_temperament(die, config);
    (die, all_rolls, temperament)
}

/// Rolls the resonance type: a display die (flavour only) and the weighted
/// pick that decides.
pub fn roll_resonance_type(weights: &ResonanceWeights) -> (r: (u8, ResonanceType))
    ensures
        1 <= r.0 <= 10,
        is_weighted_pick(*weights, r.1),
{
    let display_die = roll_d10();
    let resonance_type = weighted_resonance_pick(weights);
    (display_die, resonance_type)
}

/// A die of 9 or 10 makes the resonance Acute.
pub fn is_acute_die(die: u8) -> (r: bool)
    ensures
        r == (die >= 9),
{
    die >= 9
}

/// Rolls the Acute check: (die, is_acute), Acute on 9–10.
pub fn check_acute() -> (r: (u8, bool))
    ensures
        1 <= r.0 <= 10,
        r.1 == (r.0 >= 9),
{
    let die = roll_d10();
    (die, is_acute_die(die))
}

/// Executes the full roll sequence from a config. The dyscrasia is never
/// filled in here; the GM rolls or picks it separately.
pub fn execute_roll(config: &RollConfig) -> (r: ResonanceRollResult)
    requires
        config.temperament.negligible_max < config.temperament.fleeting_max,
    ensures
        r.temperament_dice@.len() == clamp_count(config.temperament.dice_count),
        forall|i: int|
            0 <= i < r.temperament_dice@.len() ==> 1 <= #[trigger] r.temperament_dice@[i] <= 10,
        is_selected(r.temperament_die, r.temperament_dice@, config.temperament.take_highest),
        r.temperament == temperament_of(r.temperament_die, config.temperament),
        r.dyscrasia is None,
        r.temperament == Temperament::Negligible ==> {
            &&& r.resonance_type is None
            &&& r.resonance_die is None
            &&& r.acute_die is None
            &&& !r.is_acute
        },
        r.temperament != Temperament::Negligible ==> {
            &&& r.resonance_type matches Some(t) && is_weighted_pick(config.weights, t)
            &&& r.resonance_die matches Some(d) && 1 <= d <= 10
        },
        r.temperament == Temperament::Fleeting ==> r.acute_die is None && !r.is_acute,
        r.temperament == Temperament::Intense ==> (r.acute_die matches Some(a) && 1 <= a <= 10
            && r.is_acute == (a >= 9)),
{
    let (temperament_die, temperament_dice, temperament) = roll_temperament(&config.temperament);
    match temperament {
        Temperament::Negligible => ResonanceRollResult {
            temperament_dice,
            temperament_die,
            temperament: Temperament::Negligible,
            resonance_type: None,
            resonance_die: None,
            acute_die: None,
            is_acute: false,
            dyscrasia: None,
        },
        Temperament::Fleeting => {
            let (res_die, res_type) = roll_resonance_type(&config.weights);
            ResonanceRollResult {
                temperament_dice,
                temperament_die,
                temperament: Temperament::Fleeting,
                resonance_type: Some(res_type),
                resonance_die: Some(res_die),
                acute_die: None,
                is_acute: false,
                dyscrasia: None,
            }
        },
        Temperament::Intense => {
            let (res_die, res_type) = roll_resonance_type(&config.weights);
            let (acute_die, is_acute) = check_acute();
            ResonanceRollResult {
                temperament_dice,
                temperament_die,
                temperament: Temperament::Intense,
                resonance_type: Some(res_type),
                resonance_die: Some(res_die),
                acute_die: Some(acute_die),
                is_acute,
                dyscrasia: None,
            }
        },
    }
}

} // verus!
