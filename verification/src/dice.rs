//! d10 rolls, best-or-worst-of pools and the weighted resonance pick.

use vstd::prelude::*;
use crate::random::random_below;
use crate::types::{ResonanceType, ResonanceWeights, SliderLevel, slider_weight};

verus! {

/// The face a ten-sided die shows for a draw in `0..10`: the draw itself,
/// except that 0 reads as 10.
pub open spec fn d10_face_spec(n: int) -> int {
    if n == 0 {
        10
    } else {
        n
    }
}

/// The face of a d10 draw (0 reads as 10).
pub fn d10_face(n: u64) -> (r: u8)
    requires
        n < 10,
    ensures
        r == d10_face_spec(n as int),
{
    if n == 0 {
        10
    } else {
        n as u8
    }
}

/// Rolls a single d10: a uniform draw in `0..10` read as a face, so 1–10
/// (0 on the die reads as 10).
pub fn roll_d10() -> (r: u8)
    ensures
        exists|n: int| 0 <= n < 10 && r == #[trigger] d10_face_spec(n),
        1 <= r <= 10,
{
    let n = random_below(10);
    let r = d10_face(n);
    assert(r == d10_face_spec(n as int));
    r
}

/// The number of dice an advantage roll throws: `count` clamped to 1..=5.
pub open spec fn clamp_count(count: u8) -> nat {
    if count < 1 {
        1
    } else if count > 5 {
        5
    } else {
        count as nat
    }
}

/// The die a pool keeps: its highest value when `take_highest`, else its
/// lowest.
pub open spec fn is_selected(sel: u8, rolls: Seq<u8>, take_highest: bool) -> bool {
    &&& rolls.contains(sel)
    &&& take_highest ==> (forall|i: int| 0 <= i < rolls.len() ==> rolls[i] <= sel)
    &&& !take_highest ==> (forall|i: int| 0 <= i < rolls.len() ==> sel <= rolls[i])
}

/// Picks the highest (or lowest) die of a non-empty pool.
pub fn select_die(rolls: &Vec<u8>, take_highest: bool) -> (sel: u8)
    requires
        rolls@.len() > 0,
    ensures
        is_selected(sel, rolls@, take_highest),
{
    let mut sel = rolls[0];
    let mut at: usize = 0;
    let mut i: usize = 1;
    while i < rolls.len()
        invariant
            1 <= i <= rolls@.len(),
            at < i,
            sel == rolls@[at as int],
            take_highest ==> (forall|k: int| 0 <= k < i ==> rolls@[k] <= sel),
            !take_highest ==> (forall|k: int| 0 <= k < i ==> sel <= rolls@[k]),
        decreases rolls.len() - i,
    {
        if (take_highest && rolls[i] > sel) || (!take_highest && rolls[i] < sel) {
            sel = rolls[i];
            at = i;
        }
        i += 1;
    }
    assert(rolls@[at as int] == sel);
    sel
}

/// Rolls `count` d10s (clamped to 1..=5) and keeps the highest when
/// `take_highest`, else the lowest. Returns (kept die, all dice).
pub fn advantage_roll(count: u8, take_highest: bool) -> (r: (u8, Vec<u8>))
    ensures
        r.1@.len() == clamp_count(count),
        forall|i: int| 0 <= i < r.1@.len() ==> 1 <= #[trigger] r.1@[i] <= 10,
        is_selected(r.0, r.1@, take_highest),
        1 <= r.0 <= 10,
{
    let n: u8 = if count < 1 {
        1
    } else if count > 5 {
        5
    } else {
        count
    };
    let mut rolls: Vec<u8> = Vec::new();
    let mut k: u8 = 0;
    while k < n
        invariant
            k <= n,
            n == clamp_count(count),
            rolls@.len() == k,
            forall|i: int| 0 <= i < rolls@.len() ==> 1 <= #[trigger] rolls@[i] <= 10,
        decreases n - k,
    {
        rolls.push(roll_d10());
        k += 1;
    }
    let sel = select_die(&rolls, take_highest);
    (sel, rolls)
}

/// The four resonance types in the order the pick walks them.
pub open spec fn type_at(i: int) -> ResonanceType {
    if i == 0 {
        ResonanceType::Phlegmatic
    } else if i == 1 {
        ResonanceType::Melancholy
    } else if i == 2 {
        ResonanceType::Choleric
    } else {
        ResonanceType::Sanguine
    }
}

/// The slider set for a resonance type.
pub open spec fn level_of(w: ResonanceWeights, t: ResonanceType) -> SliderLevel {
    match t {
        ResonanceType::Phlegmatic => w.phlegmatic,
        ResonanceType::Melancholy => w.melancholy,
        ResonanceType::Choleric => w.choleric,
        ResonanceType::Sanguine => w.sanguine,
    }
}

/// The base odds of a resonance type, in tenths: Phlegmatic 30%,
/// Melancholy 30%, Choleric 20%, Sanguine 20%.
pub open spec fn base_weight(t: ResonanceType) -> nat {
    match t {
        ResonanceType::Phlegmatic => 3,
        ResonanceType::Melancholy => 3,
        ResonanceType::Choleric => 2,
        ResonanceType::Sanguine => 2,
    }
}

/// A type's weight: its base odds scaled by its slider.
pub open spec fn type_weight(w: ResonanceWeights, t: ResonanceType) -> nat {
    base_weight(t) * slider_weight(level_of(w, t))
}

/// The first type whose slider is `Guaranteed`, if any.
pub open spec fn guaranteed_type(w: ResonanceWeights) -> Option<ResonanceType> {
    if w.phlegmatic == SliderLevel::Guaranteed {
        Some(ResonanceType::Phlegmatic)
    } else if w.melancholy == SliderLevel::Guaranteed {
        Some(ResonanceType::Melancholy)
    } else if w.choleric == SliderLevel::Guaranteed {
        Some(ResonanceType::Choleric)
    } else if w.sanguine == SliderLevel::Guaranteed {
        Some(ResonanceType::Sanguine)
    } else {
        None
    }
}

/// Sum of the four weights.
pub open spec fn total_weight(w: ResonanceWeights) -> nat {
    type_weight(w, ResonanceType::Phlegmatic) + type_weight(w, ResonanceType::Melancholy)
        + type_weight(w, ResonanceType::Choleric) + type_weight(w, ResonanceType::Sanguine)
}

/// The type a draw in `0..total_weight` lands on: the weights are laid
/// end to end in the order Phlegmatic, Melancholy, Choleric, Sanguine and
/// the draw picks the interval it falls in (Sanguine past the end).
pub open spec fn pick_by_draw(w: ResonanceWeights, draw: int) -> ResonanceType {
    let a = type_weight(w, ResonanceType::Phlegmatic);
    let b = type_weight(w, ResonanceType::Melancholy);
    let c = type_weight(w, ResonanceType::Choleric);
    if draw < a {
        ResonanceType::Phlegmatic
    } else if draw < a + b {
        ResonanceType::Melancholy
    } else if draw < a + b + c {
        ResonanceType::Choleric
    } else {
        ResonanceType::Sanguine
    }
}

/// The type a weighted draw selects (see `pick_by_draw`).
pub fn resonance_from_draw(weights: &ResonanceWeights, draw: u64) -> (r: ResonanceType)
    ensures
        r == pick_by_draw(*weights, draw as int),
{
    let a = 3 * weights.phlegmatic.weight_tenths();
    let b = 3 * weights.melancholy.weight_tenths();
    let c = 2 * weights.choleric.weight_tenths();
    if draw < a {
        ResonanceType::Phlegmatic
    } else if draw < a + b {
        ResonanceType::Melancholy
    } else if draw < a + b + c {
        ResonanceType::Choleric
    } else {
        ResonanceType::Sanguine
    }
}

/// The type at a position in the order Phlegmatic, Melancholy, Choleric,
/// Sanguine (see `type_at`).
pub fn type_from_index(i: u64) -> (r: ResonanceType)
    requires
        i < 4,
    ensures
        r == type_at(i as int),
{
    if i == 0 {
        ResonanceType::Phlegmatic
    } else if i == 1 {
        ResonanceType::Melancholy
    } else if i == 2 {
        ResonanceType::Choleric
    } else {
        ResonanceType::Sanguine
    }
}

/// Selects a resonance type by weighted chance. Each type's base
/// probability (Phlegmatic 30%, Melancholy 30%, Choleric 20%, Sanguine
/// 20%) is scaled by its slider and the result normalised; a `Guaranteed`
/// slider wins outright (the first such type in the order Phlegmatic,
/// Melancholy, Choleric, Sanguine), and when every weight is zero the four
/// types are equally likely.
pub fn weighted_resonance_pick(weights: &ResonanceWeights) -> (r: ResonanceType)
    ensures
        guaranteed_type(*weights) matches Some(t) ==> r == t,
        guaranteed_type(*weights) is None && total_weight(*weights) > 0 ==> exists|draw: int|
            0 <= draw < total_weight(*weights) && r == #[trigger] pick_by_draw(*weights, draw),
        guaranteed_type(*weights) is None && total_weight(*weights) == 0 ==> exists|i: int|
            0 <= i < 4 && r == #[trigger] type_at(i),
{
    if weights.phlegmatic.is_guaranteed() {
        return ResonanceType::Phlegmatic;
    }
    if weights.melancholy.is_guaranteed() {
        return ResonanceType::Melancholy;
    }
    if weights.choleric.is_guaranteed() {
        return ResonanceType::Choleric;
    }
    if weights.sanguine.is_guaranteed() {
        return ResonanceType::Sanguine;
    }
    let total = 3 * weights.phlegmatic.weight_tenths() + 3 * weights.melancholy.weight_tenths()
        + 2 * weights.choleric.weight_tenths() + 2 * weights.sanguine.weight_tenths();
    if total == 0 {
        let i = random_below(4);
        let r = type_from_index(i);
        assert(r == type_at(i as int));
        return r;
    }
    let draw = random_below(total);
    let r = resonance_from_draw(weights, draw);
    assert(r == pick_by_draw(*weights, draw as int));
    r
}

/// A weighted draw never lands on a type whose slider weighs nothing:
/// `Impossible` types are never picked while some other type has weight.
pub proof fn lemma_pick_has_weight(w: ResonanceWeights, draw: int)
    requires
        0 <= draw < total_weight(w),
    ensures
        slider_weight(level_of(w, pick_by_draw(w, draw))) > 0,
        type_weight(w, pick_by_draw(w, draw)) > 0,
{
}

} // verus!
