//! Shared domain types: resonance rolls, the dyscrasia and advantage
//! libraries, and the chronicle graph.

use vstd::prelude::*;

verus! {

#[derive(Debug, Clone, Copy, PartialEq, Eq, Structural)]
pub enum Temperament {
    Negligible,
    Fleeting,
    Intense,
}

#[derive(Debug, Clone, Copy, PartialEq, Eq, Structural)]
pub enum ResonanceType {
    Phlegmatic,
    Melancholy,
    Choleric,
    Sanguine,
}

/// Seven-step slider level for resonance type weighting.
#[derive(Debug, Clone, Copy, PartialEq, Eq, Structural)]
pub enum SliderLevel {
    Impossible,
    ExtremelyUnlikely,
    Unlikely,
    Neutral,
    Likely,
    ExtremelyLikely,
    Guaranteed,
}

/// The slider's multiplier on the base probability, in tenths: 0, 0.1,
/// 0.5, 1, 2 and 4 become 0, 1, 5, 10, 20 and 40. `Guaranteed` bypasses
/// weighting altogether and has no weight.
pub open spec fn slider_weight(l: SliderLevel) -> nat {
    match l {
        SliderLevel::Impossible => 0,
        SliderLevel::ExtremelyUnlikely => 1,
        SliderLevel::Unlikely => 5,
        SliderLevel::Neutral => 10,
        SliderLevel::Likely => 20,
        SliderLevel::ExtremelyLikely => 40,
        SliderLevel::Guaranteed => 0,
    }
}

impl SliderLevel {
    /// The weight multiplier of this level in tenths (see `slider_weight`).
    pub fn weight_tenths(&self) -> (w: u64)
        ensures
            w == slider_weight(*self),
    {
        match self {
            SliderLevel::Impossible => 0,
            SliderLevel::ExtremelyUnlikely => 1,
            SliderLevel::Unlikely => 5,
            SliderLevel::Neutral => 10,
            SliderLevel::Likely => 20,
            SliderLevel::ExtremelyLikely => 40,
            SliderLevel::Guaranteed => 0,
        }
    }

    pub fn is_guaranteed(&self) -> (r: bool)
        ensures
            r == (*self == SliderLevel::Guaranteed),
    {
        match self {
            SliderLevel::Guaranteed => true,
            _ => false,
        }
    }
}

/// GM-configurable temperament roll options.
#[derive(Debug, Clone, Copy)]
pub struct TemperamentConfig {
    /// How many d10s to roll (clamped to 1–5). Result is best or worst of the pool.
    pub dice_count: u8,
    /// true = take highest die (biases toward Intense), false = take lowest.
    pub take_highest: bool,
    /// Upper bound (inclusive) for Negligible. Default 5.
    pub negligible_max: u8,
    /// Upper bound (inclusive) for Fleeting. Default 8. Intense is above this.
    pub fleeting_max: u8,
}

impl Default for TemperamentConfig {
    fn default() -> (r: Self)
        ensures
            r.dice_count == 1,
            r.take_highest,
            r.negligible_max == 5,
            r.fleeting_max == 8,
    {
        TemperamentConfig { dice_count: 1, take_highest: true, negligible_max: 5, fleeting_max: 8 }
    }
}

/// GM-configurable weighting for resonance type selection.
#[derive(Debug, Clone, Copy)]
pub struct ResonanceWeights {
    pub phlegmatic: SliderLevel,
    pub melancholy: SliderLevel,
    pub choleric: SliderLevel,
    pub sanguine: SliderLevel,
}

impl Default for ResonanceWeights {
    fn default() -> (r: Self)
        ensures
            r.phlegmatic == SliderLevel::Neutral,
            r.melancholy == SliderLevel::Neutral,
            r.choleric == SliderLevel::Neutral,
            r.sanguine == SliderLevel::Neutral,
    {
        ResonanceWeights {
            phlegmatic: SliderLevel::Neutral,
            melancholy: SliderLevel::Neutral,
            choleric: SliderLevel::Neutral,
            sanguine: SliderLevel::Neutral,
        }
    }
}

/// Full GM config passed to a roll.
#[derive(Debug, Clone, Copy)]
pub struct RollConfig {
    pub temperament: TemperamentConfig,
    pub weights: ResonanceWeights,
}

impl Default for RollConfig {
    fn default() -> (r: Self)
        ensures
            r.temperament.dice_count == 1,
            r.temperament.take_highest,
            r.temperament.negligible_max == 5,
            r.temperament.fleeting_max == 8,
            r.weights.phlegmatic == SliderLevel::Neutral,
            r.weights.melancholy == SliderLevel::Neutral,
            r.weights.choleric == SliderLevel::Neutral,
            r.weights.sanguine == SliderLevel::Neutral,
    {
        RollConfig { temperament: TemperamentConfig::default(), weights: ResonanceWeights::default() }
    }
}

/// A Dyscrasia entry from the library.
#[derive(Debug, Clone)]
pub struct DyscrasiaEntry {
    pub id: i64,
    pub resonance_type: ResonanceType,
    pub name: String,
    pub description: String,
    pub bonus: String,
    pub is_custom: bool,
}

/// Kind discriminator for the advantages library: the four kinds share one
/// row shape and one push contract.
#[derive(Debug, Clone, Copy, PartialEq, Eq, Structural)]
pub enum AdvantageKind {
    Merit,
    Flaw,
    Background,
    Boon,
}

/// Outcome of one import attempt for a single world item.
#[derive(Debug, Clone)]
pub enum ImportOutcome {
    /// Row did not exist locally and was inserted.
    Inserted { id: i64, name: String, kind: AdvantageKind },
    /// The same world item was imported before; its row was refreshed.
    Updated { id: i64, name: String, kind: AdvantageKind },
    /// Filtered out (not a feature item, or an unrecognized feature type).
    Skipped { reason: String, name: String },
}

/// Full result of one resonance roll sequence.
#[derive(Debug, Clone)]
pub struct ResonanceRollResult {
    /// All dice rolled for temperament (for display).
    pub temperament_dice: Vec<u8>,
    /// The die value that determined temperament.
    pub temperament_die: u8,
    pub temperament: Temperament,
    /// Set if temperament is Fleeting or Intense.
    pub resonance_type: Option<ResonanceType>,
    /// d10 rolled for resonance (display only; the weighted pick decides).
    pub resonance_die: Option<u8>,
    /// Set if temperament is Intense.
    pub acute_die: Option<u8>,
    pub is_acute: bool,
    /// Filled in after the GM rolls or picks a Dyscrasia; never by the roll.
    pub dyscrasia: Option<DyscrasiaEntry>,
}

/// A running game. Contains nodes and edges.
#[derive(Debug, Clone)]
pub struct Chronicle {
    pub id: i64,
    pub name: String,
    pub description: String,
    pub created_at: String,
    pub updated_at: String,
}

/// Single-or-multi string value.
#[derive(Debug, Clone)]
pub enum StringFieldValue {
    Single(String),
    Multi(Vec<String>),
}

/// Which edges of a node to list.
#[derive(Debug, Clone, Copy, PartialEq, Eq, Structural)]
pub enum EdgeDirection {
    In,
    Out,
    Both,
}

} // verus!
