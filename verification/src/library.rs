//! The advantage and dyscrasia libraries: the string forms their kinds are
//! stored under, the random picks, and the built-in rows they are seeded
//! with.

use vstd::prelude::*;
use crate::text::{append_str, owned, str_eq};
use crate::types::{AdvantageKind, ResonanceType};
use crate::random::{choose_one, random_below};
use crate::bridge::foundry_actions::is_feature_type;

verus! {

pub open spec fn kind_name(k: AdvantageKind) -> Seq<char> {
    match k {
        AdvantageKind::Merit => "merit"@,
        AdvantageKind::Flaw => "flaw"@,
        AdvantageKind::Background => "background"@,
        AdvantageKind::Boon => "boon"@,
    }
}

pub open spec fn kind_of_name(s: Seq<char>) -> Option<AdvantageKind> {
    if s == "merit"@ {
        Some(AdvantageKind::Merit)
    } else if s == "flaw"@ {
        Some(AdvantageKind::Flaw)
    } else if s == "background"@ {
        Some(AdvantageKind::Background)
    } else if s == "boon"@ {
        Some(AdvantageKind::Boon)
    } else {
        None
    }
}

/// The string an advantage kind is stored under.
pub fn kind_to_str(k: AdvantageKind) -> (r: &'static str)
    ensures
        r@ == kind_name(k),
{
    match k {
        AdvantageKind::Merit => "merit",
        AdvantageKind::Flaw => "flaw",
        AdvantageKind::Background => "background",
        AdvantageKind::Boon => "boon",
    }
}

/// The advantage kind a stored string names.
pub fn str_to_kind(s: &str) -> (r: Result<AdvantageKind, String>)
    ensures
        kind_of_name(s@) matches Some(k) ==> r == Ok::<AdvantageKind, String>(k),
        kind_of_name(s@) is None ==> (r matches Err(e) && e@ == "db/advantage: unknown kind: "@ + s@),
{
    if str_eq(s, "merit") {
        Ok(AdvantageKind::Merit)
    } else if str_eq(s, "flaw") {
        Ok(AdvantageKind::Flaw)
    } else if str_eq(s, "background") {
        Ok(AdvantageKind::Background)
    } else if str_eq(s, "boon") {
        Ok(AdvantageKind::Boon)
    } else {
        let mut e = owned("db/advantage: unknown kind: ");
        append_str(&mut e, s);
        Err(e)
    }
}

proof fn lemma_kind_names_distinct()
    ensures
        "merit"@ != "flaw"@,
        "merit"@ != "background"@,
        "merit"@ != "boon"@,
        "flaw"@ != "background"@,
        "flaw"@ != "boon"@,
        "background"@ != "boon"@,
{
    reveal_strlit("merit");
    reveal_strlit("flaw");
    reveal_strlit("background");
    reveal_strlit("boon");
    assert("merit"@.len() != "flaw"@.len());
    assert("merit"@.len() != "background"@.len());
    assert("flaw"@.len() != "background"@.len());
    assert("background"@.len() != "boon"@.len());
    assert("merit"@[0] != "boon"@[1]);
    assert("flaw"@[0] != "boon"@[0]);
    assert("merit"@[0] != "boon"@[0]);
}

/// Law: a stored kind reads back as itself, and a string that reads as a
/// kind is that kind's stored string.
pub proof fn lemma_kind_round_trip(k: AdvantageKind, s: Seq<char>)
    ensures
        kind_of_name(kind_name(k)) == Some(k),
        kind_of_name(s) matches Some(k2) ==> kind_name(k2) == s,
{
    lemma_kind_names_distinct();
}

/// The feature type a library advantage is pushed to Foundry as.
pub fn kind_to_featuretype(k: AdvantageKind) -> (r: &'static str)
    ensures
        r@ == kind_name(k),
        is_feature_type(r@),
{
    kind_to_str(k)
}

/// Law: distinct advantage kinds are pushed as distinct feature types.
pub proof fn lemma_featuretype_one_to_one(a: AdvantageKind, b: AdvantageKind)
    ensures
        kind_name(a) == kind_name(b) ==> a == b,
{
    lemma_kind_names_distinct();
}

/// A numeric property named `key`.
pub open spec fn numeric_named(f: (Seq<char>, bool), key: Seq<char>) -> bool {
    f.1 && f.0 == key
}

/// The first numeric property named `key` sits at `i`.
pub open spec fn first_numeric_at(f: Seq<(Seq<char>, bool)>, key: Seq<char>, i: int) -> bool {
    &&& 0 <= i < f.len()
    &&& numeric_named(f[i], key)
    &&& forall|j: int| 0 <= j < i ==> !numeric_named(#[trigger] f[j], key)
}

/// Some numeric property is named `key`.
pub open spec fn has_numeric(f: Seq<(Seq<char>, bool)>, key: Seq<char>) -> bool {
    exists|j: int| 0 <= j < f.len() && numeric_named(#[trigger] f[j], key)
}

/// The property a library advantage's points are read from: the first
/// numeric `level`, preferred, else the first numeric `min_level`.
pub open spec fn is_points_field(f: Seq<(Seq<char>, bool)>, i: int) -> bool {
    if has_numeric(f, "level"@) {
        first_numeric_at(f, "level"@, i)
    } else {
        first_numeric_at(f, "min_level"@, i)
    }
}

/// The first numeric property named `key`, if any.
fn first_numeric(fields: &Vec<(String, bool)>, key: &str) -> (r: Option<usize>)
    ensures
        r is None <==> !has_numeric(props_view(fields@), key@),
        r matches Some(i) ==> first_numeric_at(props_view(fields@), key@, i as int),
{
    let ghost f = props_view(fields@);
    let mut i: usize = 0;
    while i < fields.len()
        invariant
            i <= fields@.len(),
            f == props_view(fields@),
            forall|j: int| 0 <= j < i ==> !numeric_named(#[trigger] f[j], key@),
        decreases fields.len() - i,
    {
        if fields[i].1 && str_eq(fields[i].0.as_str(), key) {
            assert(numeric_named(f[i as int], key@));
            return Some(i);
        }
        i += 1;
    }
    None
}

/// Names and "is a number" flags of a list of properties.
pub open spec fn props_view(fields: Seq<(String, bool)>) -> Seq<(Seq<char>, bool)> {
    fields.map_values(|p: (String, bool)| (p.0@, p.1))
}

/// Which property a library advantage's points come from, given each
/// property's name and whether it holds a number: the first numeric
/// `level` (preferred), else the first numeric `min_level`; `None` when
/// there is neither (the points are then 0).
pub fn points_field(fields: &Vec<(String, bool)>) -> (r: Option<usize>)
    ensures
        r is None <==> !has_numeric(props_view(fields@), "level"@) && !has_numeric(
            props_view(fields@),
            "min_level"@,
        ),
        r matches Some(i) ==> is_points_field(props_view(fields@), i as int),
{
    match first_numeric(fields, "level") {
        Some(i) => Some(i),
        None => first_numeric(fields, "min_level"),
    }
}

pub open spec fn rtype_name(r: ResonanceType) -> Seq<char> {
    match r {
        ResonanceType::Phlegmatic => "Phlegmatic"@,
        ResonanceType::Melancholy => "Melancholy"@,
        ResonanceType::Choleric => "Choleric"@,
        ResonanceType::Sanguine => "Sanguine"@,
    }
}

/// The resonance type a stored string names; any unknown string reads as
/// Sanguine.
pub open spec fn rtype_of_name(s: Seq<char>) -> ResonanceType {
    if s == "Phlegmatic"@ {
        ResonanceType::Phlegmatic
    } else if s == "Melancholy"@ {
        ResonanceType::Melancholy
    } else if s == "Choleric"@ {
        ResonanceType::Choleric
    } else {
        ResonanceType::Sanguine
    }
}

/// The string a resonance type is stored under.
pub fn rtype_to_str(r: ResonanceType) -> (s: &'static str)
    ensures
        s@ == rtype_name(r),
{
    match r {
        ResonanceType::Phlegmatic => "Phlegmatic",
        ResonanceType::Melancholy => "Melancholy",
        ResonanceType::Choleric => "Choleric",
        ResonanceType::Sanguine => "Sanguine",
    }
}

/// The resonance type a stored string names (see `rtype_of_name`).
pub fn str_to_rtype(s: &str) -> (r: ResonanceType)
    ensures
        r == rtype_of_name(s@),
{
    if str_eq(s, "Phlegmatic") {
        ResonanceType::Phlegmatic
    } else if str_eq(s, "Melancholy") {
        ResonanceType::Melancholy
    } else if str_eq(s, "Choleric") {
        ResonanceType::Choleric
    } else {
        ResonanceType::Sanguine
    }
}

/// Law: a stored resonance type reads back as itself.
pub proof fn lemma_rtype_round_trip(r: ResonanceType)
    ensures
        rtype_of_name(rtype_name(r)) == r,
{
    reveal_strlit("Phlegmatic");
    reveal_strlit("Melancholy");
    reveal_strlit("Choleric");
    reveal_strlit("Sanguine");
    assert("Phlegmatic"@[0] != "Melancholy"@[0]);
    assert("Phlegmatic"@.len() != "Choleric"@.len());
    assert("Melancholy"@.len() != "Choleric"@.len());
    assert("Phlegmatic"@.len() != "Sanguine"@.len());
    assert("Melancholy"@.len() != "Sanguine"@.len());
    assert("Choleric"@[0] != "Sanguine"@[0]);
}

/// A row whose tags share one with `tags`; every row matches no tags.
pub open spec fn tags_match(row: Seq<String>, tags: Seq<String>) -> bool {
    tags.len() == 0 || exists|i: int, j: int| 0 <= i < row.len() && 0 <= j < tags.len() && row[i]@ == tags[j]@
}

fn row_matches(row: &Vec<String>, tags: &Vec<String>) -> (r: bool)
    ensures
        r == tags_match(row@, tags@),
{
    if tags.len() == 0 {
        return true;
    }
    let mut i: usize = 0;
    while i < row.len()
        invariant
            i <= row@.len(),
            tags@.len() > 0,
            forall|a: int, b: int| 0 <= a < i && 0 <= b < tags@.len() ==> row@[a]@ != tags@[b]@,
        decreases row.len() - i,
    {
        let mut j: usize = 0;
        while j < tags.len()
            invariant
                i < row@.len(),
                j <= tags@.len(),
                forall|b: int| 0 <= b < j ==> row@[i as int]@ != tags@[b]@,
            decreases tags.len() - j,
        {
            if str_eq(row[i].as_str(), tags[j].as_str()) {
                return true;
            }
            j += 1;
        }
        i += 1;
    }
    false
}

/// The indices of the rows whose tags match `tags`, in order.
pub fn matching_rows(row_tags: &Vec<Vec<String>>, tags: &Vec<String>) -> (r: Vec<usize>)
    ensures
        forall|k: int| 0 <= k < r@.len() ==> r@[k] < row_tags@.len() && tags_match(row_tags@[r@[k] as int]@, tags@),
        forall|i: int| 0 <= i < row_tags@.len() && tags_match(row_tags@[i]@, tags@) ==> r@.contains(i as usize),
        forall|a: int, b: int| 0 <= a < b < r@.len() ==> r@[a] < r@[b],
{
    let mut out: Vec<usize> = Vec::new();
    let mut i: usize = 0;
    while i < row_tags.len()
        invariant
            i <= row_tags@.len(),
            forall|k: int| 0 <= k < out@.len() ==> out@[k] < i && tags_match(row_tags@[out@[k] as int]@, tags@),
            forall|a: int| 0 <= a < i && tags_match(row_tags@[a]@, tags@) ==> out@.contains(a as usize),
            forall|a: int, b: int| 0 <= a < b < out@.len() ==> out@[a] < out@[b],
        decreases row_tags.len() - i,
    {
        let ghost before = out@;
        if row_matches(&row_tags[i], tags) {
            out.push(i);
            assert(out@[out@.len() - 1] == i);
            assert forall|a: int| 0 <= a < i && tags_match(row_tags@[a]@, tags@) implies out@.contains(a as usize) by {
                let k = choose|k: int| 0 <= k < before.len() && before[k] == a as usize;
                assert(out@[k] == a as usize);
            }
        }
        i += 1;
    }
    out
}

/// Picks one row at random among those whose tags match `tags` (any row
/// when `tags` is empty); `None` exactly when no row matches.
pub fn roll_random_row(row_tags: &Vec<Vec<String>>, tags: &Vec<String>) -> (r: Option<usize>)
    ensures
        r is None <==> forall|i: int| 0 <= i < row_tags@.len() ==> !tags_match(#[trigger] row_tags@[i]@, tags@),
        r matches Some(i) ==> i < row_tags@.len() && tags_match(row_tags@[i as int]@, tags@),
{
    let rows = matching_rows(row_tags, tags);
    match choose_one(rows.as_slice()) {
        Some(i) => {
            let i = *i;
            Some(i)
        },
        None => {
            assert forall|i: int| 0 <= i < row_tags@.len() implies !tags_match(#[trigger] row_tags@[i]@, tags@) by {
                if tags_match(row_tags@[i]@, tags@) {
                    assert(rows@.contains(i as usize));
                }
            }
            None
        },
    }
}

/// Picks one of `len` entries at random; `None` when there are none.
pub fn roll_random_entry(len: usize) -> (r: Option<usize>)
    ensures
        r is None <==> len == 0,
        r matches Some(i) ==> i < len,
{
    if len == 0 {
        None
    } else {
        let i = random_below(len as u64);
        Some(i as usize)
    }
}

/// One built-in dyscrasia row.
#[derive(Debug, Clone, Copy)]
pub struct DyscrasiaSeed {
    pub resonance_type: ResonanceType,
    pub name: &'static str,
    pub description: &'static str,
    pub bonus: &'static str,
}

/// One built-in advantage row. `level` and `level_max` become number
/// fields of the stored properties.
#[derive(Debug, Clone, Copy)]
pub struct SeedRow {
    pub name: &'static str,
    pub description: &'static str,
    pub tags: &'static [&'static str],
    pub level: Option<i64>,
    pub level_max: Option<i64>,
    pub source: &'static str,
}

/// The number fields a seeded advantage stores: a ranged row (one with a
/// maximum) stores `min_level` (its level, 1 when absent) and `max_level`;
/// otherwise a row with a level stores `level`; a row with neither stores
/// none. A fixed level and a range are never stored together.
pub open spec fn level_fields(level: Option<i64>, level_max: Option<i64>) -> Seq<(Seq<char>, i64)> {
    match level_max {
        Some(max) => seq![
            ("min_level"@, match level {
                Some(l) => l,
                None => 1i64,
            }),
            ("max_level"@, max),
        ],
        None => match level {
            Some(l) => seq![("level"@, l)],
            None => Seq::empty(),
        },
    }
}

/// The number fields of a seeded advantage (see `level_fields`).
pub fn seed_level_fields(level: Option<i64>, level_max: Option<i64>) -> (r: Vec<(&'static str, i64)>)
    ensures
        r@.len() == level_fields(level, level_max).len(),
        forall|i: int| 0 <= i < r@.len() ==> (r@[i].0@, r@[i].1) == #[trigger] level_fields(level, level_max)[i],
{
    let mut out: Vec<(&'static str, i64)> = Vec::new();
    match level_max {
        Some(max) => {
            let min = match level {
                Some(l) => l,
                None => 1,
            };
            out.push(("min_level", min));
            out.push(("max_level", max));
        },
        None => match level {
            Some(l) => {
                out.push(("level", l));
            },
            None => {},
        },
    }
    out
}

/// The view of a built-in dyscrasia row: its type and texts.
pub struct DyscrasiaSeedV {
    pub resonance_type: ResonanceType,
    pub name: Seq<char>,
    pub description: Seq<char>,
    pub bonus: Seq<char>,
}

impl View for DyscrasiaSeed {
    type V = DyscrasiaSeedV;

    open spec fn view(&self) -> DyscrasiaSeedV {
        DyscrasiaSeedV {
            resonance_type: self.resonance_type,
            name: self.name@,
            description: self.description@,
            bonus: self.bonus@,
        }
    }
}

/// A dyscrasia row's view from its parts.
pub open spec fn dyscrasia_v(t: ResonanceType, name: Seq<char>, description: Seq<char>, bonus: Seq<char>) -> DyscrasiaSeedV {
    DyscrasiaSeedV { resonance_type: t, name, description, bonus }
}

/// The VTM 5e corebook dyscrasias, in seeding order: position `i` of the
/// table (0 through 25).
pub open spec fn corebook_dyscrasia(i: int) -> DyscrasiaSeedV {
    if i == 0 {
        dyscrasia_v(ResonanceType::Phlegmatic, "Chill"@, "Add two dice to pools to resist frenzy."@, "+2 dice to resist frenzy"@)
    } else if i == 1 {
        dyscrasia_v(ResonanceType::Phlegmatic, "Comfortably Numb"@, "Feel no pain: receive no penalties or other negative effects from pain, both physical and social."@, "Negate pain penalties"@)
    } else if i == 2 {
        dyscrasia_v(ResonanceType::Phlegmatic, "Eating Your Emotions"@, "Eat and digest food without becoming nauseous (or slaking Hunger, of course)."@, "Can eat and digest food"@)
    } else if i == 3 {
        dyscrasia_v(ResonanceType::Phlegmatic, "Given Up"@, "Next feeding on Phlegmatic blood slakes 1 additional Hunger; other blood slakes one fewer."@, "+1 Hunger slaked from Phlegmatic blood"@)
    } else if i == 4 {
        dyscrasia_v(ResonanceType::Phlegmatic, "Lone Wolf"@, "Add one die to your tests when alone; subtract one die from tests to assist others or use teamwork. Lasts only one scene."@, "+1 die alone / \u{2212}1 die teamwork (one scene)"@)
    } else if i == 5 {
        dyscrasia_v(ResonanceType::Phlegmatic, "Procrastinate"@, "Regain 1 point of Willpower if you delay something important by a day or more. Can only be used once per session."@, "+1 Willpower for delaying (once per session)"@)
    } else if i == 6 {
        dyscrasia_v(ResonanceType::Phlegmatic, "Reflection"@, "Gain 1 free experience point toward Auspex or Dominate purchase."@, "+1 XP toward Auspex or Dominate"@)
    } else if i == 7 {
        dyscrasia_v(ResonanceType::Melancholy, "In Mourning"@, "Add one die to Remorse tests."@, "+1 die to Remorse tests"@)
    } else if i == 8 {
        dyscrasia_v(ResonanceType::Melancholy, "Lost Love"@, "Add one die to all pools to resist seduction attempts, including Presence."@, "+1 die to resist seduction"@)
    } else if i == 9 {
        dyscrasia_v(ResonanceType::Melancholy, "Lost Relative"@, "Slake 1 additional Hunger when feeding from remaining members of your family."@, "+1 Hunger slaked from family"@)
    } else if i == 10 {
        dyscrasia_v(ResonanceType::Melancholy, "Massive Failure"@, "Reroll tests reminiscent of the vessel's failure, excluding Hunger dice showing 1s."@, "Reroll tests tied to vessel's failure"@)
    } else if i == 11 {
        dyscrasia_v(ResonanceType::Melancholy, "Nostalgic"@, "Add one die to rolls connecting to a specific nostalgic decade, art form, or social group."@, "+1 die to nostalgic connections"@)
    } else if i == 12 {
        dyscrasia_v(ResonanceType::Melancholy, "Recalling"@, "Gain 1 free experience point toward Fortitude or Obfuscate purchase."@, "+1 XP toward Fortitude or Obfuscate"@)
    } else if i == 13 {
        dyscrasia_v(ResonanceType::Choleric, "Bully"@, "+1 damage against weaker foes or bullying targets in social and physical combat."@, "+1 damage vs. weaker targets"@)
    } else if i == 14 {
        dyscrasia_v(ResonanceType::Choleric, "Cycle of Violence"@, "Next Choleric feeding slakes one additional Hunger; other blood slakes one fewer."@, "+1 Hunger slaked from Choleric blood"@)
    } else if i == 15 {
        dyscrasia_v(ResonanceType::Choleric, "Envy"@, "+1 damage against superior foes (more attractive, talented, wealthy, or higher-status)."@, "+1 damage vs. superior targets"@)
    } else if i == 16 {
        dyscrasia_v(ResonanceType::Choleric, "Principled"@, "Reroll one roll against perceived ideological enemies, excluding Hunger dice showing 1s."@, "Reroll vs. ideological enemies"@)
    } else if i == 17 {
        dyscrasia_v(ResonanceType::Choleric, "Vengeful"@, "Add two dice to one test against the type of target on which the vessel wished revenge."@, "+2 dice to revenge tests"@)
    } else if i == 18 {
        dyscrasia_v(ResonanceType::Choleric, "Vicious"@, "Reroll Intimidation Skill rolls, excluding Hunger dice showing 1s."@, "Reroll Intimidation rolls"@)
    } else if i == 19 {
        dyscrasia_v(ResonanceType::Choleric, "Driving"@, "Gain 1 free experience point toward Celerity or Potence purchase."@, "+1 XP toward Celerity or Potence"@)
    } else if i == 20 {
        dyscrasia_v(ResonanceType::Sanguine, "Contagious Enthusiasm"@, "Add three dice to one test to convince a target via skin-to-skin contact."@, "+3 dice to convince via touch (once)"@)
    } else if i == 21 {
        dyscrasia_v(ResonanceType::Sanguine, "Smell Game"@, "Add three dice to all rolls to detect other Sanguine vessels."@, "+3 dice to detect Sanguine vessels"@)
    } else if i == 22 {
        dyscrasia_v(ResonanceType::Sanguine, "High on Life"@, "Use Blush of Life without making a Rouse Check."@, "Blush of Life without Rouse Check"@)
    } else if i == 23 {
        dyscrasia_v(ResonanceType::Sanguine, "Manic High"@, "Add one die to all tests until failure; then subtract two dice."@, "+1 die until failure, then \u{2212}2 dice"@)
    } else if i == 24 {
        dyscrasia_v(ResonanceType::Sanguine, "True Love"@, "Slake 1 additional Hunger when feeding from the vessel's true love."@, "+1 Hunger slaked from true love"@)
    } else {
        dyscrasia_v(ResonanceType::Sanguine, "Stirring"@, "Gain 1 free experience point toward Blood Sorcery or Presence purchase."@, "+1 XP toward Blood Sorcery or Presence"@)
    }
}

fn dys(resonance_type: ResonanceType, name: &'static str, description: &'static str, bonus: &'static str) -> (r: DyscrasiaSeed)
    ensures
        r@ == dyscrasia_v(resonance_type, name@, description@, bonus@),
{
    DyscrasiaSeed { resonance_type, name, description, bonus }
}

/// Row `i` of the corebook dyscrasia table (see `corebook_dyscrasia`).
fn dyscrasia_row(i: usize) -> (r: DyscrasiaSeed)
    requires
        i < 26,
    ensures
        r@ == corebook_dyscrasia(i as int),
{
    match i {
        0 => dys(ResonanceType::Phlegmatic, "Chill", "Add two dice to pools to resist frenzy.", "+2 dice to resist frenzy"),
        1 => dys(ResonanceType::Phlegmatic, "Comfortably Numb",
            "Feel no pain: receive no penalties or other negative effects from pain, both physical and social.",
            "Negate pain penalties"),
        2 => dys(ResonanceType::Phlegmatic, "Eating Your Emotions",
            "Eat and digest food without becoming nauseous (or slaking Hunger, of course).",
            "Can eat and digest food"),
        3 => dys(ResonanceType::Phlegmatic, "Given Up",
            "Next feeding on Phlegmatic blood slakes 1 additional Hunger; other blood slakes one fewer.",
            "+1 Hunger slaked from Phlegmatic blood"),
        4 => dys(ResonanceType::Phlegmatic, "Lone Wolf",
            "Add one die to your tests when alone; subtract one die from tests to assist others or use teamwork. Lasts only one scene.",
            "+1 die alone / \u{2212}1 die teamwork (one scene)"),
        5 => dys(ResonanceType::Phlegmatic, "Procrastinate",
            "Regain 1 point of Willpower if you delay something important by a day or more. Can only be used once per session.",
            "+1 Willpower for delaying (once per session)"),
        6 => dys(ResonanceType::Phlegmatic, "Reflection", "Gain 1 free experience point toward Auspex or Dominate purchase.",
            "+1 XP toward Auspex or Dominate"),
        7 => dys(ResonanceType::Melancholy, "In Mourning", "Add one die to Remorse tests.", "+1 die to Remorse tests"),
        8 => dys(ResonanceType::Melancholy, "Lost Love", "Add one die to all pools to resist seduction attempts, including Presence.",
            "+1 die to resist seduction"),
        9 => dys(ResonanceType::Melancholy, "Lost Relative", "Slake 1 additional Hunger when feeding from remaining members of your family.",
            "+1 Hunger slaked from family"),
        10 => dys(ResonanceType::Melancholy, "Massive Failure",
            "Reroll tests reminiscent of the vessel's failure, excluding Hunger dice showing 1s.",
            "Reroll tests tied to vessel's failure"),
        11 => dys(ResonanceType::Melancholy, "Nostalgic",
            "Add one die to rolls connecting to a specific nostalgic decade, art form, or social group.",
            "+1 die to nostalgic connections"),
        12 => dys(ResonanceType::Melancholy, "Recalling", "Gain 1 free experience point toward Fortitude or Obfuscate purchase.",
            "+1 XP toward Fortitude or Obfuscate"),
        13 => dys(ResonanceType::Choleric, "Bully", "+1 damage against weaker foes or bullying targets in social and physical combat.",
            "+1 damage vs. weaker targets"),
        14 => dys(ResonanceType::Choleric, "Cycle of Violence",
            "Next Choleric feeding slakes one additional Hunger; other blood slakes one fewer.",
            "+1 Hunger slaked from Choleric blood"),
        15 => dys(ResonanceType::Choleric, "Envy",
            "+1 damage against superior foes (more attractive, talented, wealthy, or higher-status).",
            "+1 damage vs. superior targets"),
        16 => dys(ResonanceType::Choleric, "Principled",
            "Reroll one roll against perceived ideological enemies, excluding Hunger dice showing 1s.",
            "Reroll vs. ideological enemies"),
        17 => dys(ResonanceType::Choleric, "Vengeful",
            "Add two dice to one test against the type of target on which the vessel wished revenge.",
            "+2 dice to revenge tests"),
        18 => dys(ResonanceType::Choleric, "Vicious", "Reroll Intimidation Skill rolls, excluding Hunger dice showing 1s.",
            "Reroll Intimidation rolls"),
        19 => dys(ResonanceType::Choleric, "Driving", "Gain 1 free experience point toward Celerity or Potence purchase.",
            "+1 XP toward Celerity or Potence"),
        20 => dys(ResonanceType::Sanguine, "Contagious Enthusiasm",
            "Add three dice to one test to convince a target via skin-to-skin contact.",
            "+3 dice to convince via touch (once)"),
        21 => dys(ResonanceType::Sanguine, "Smell Game", "Add three dice to all rolls to detect other Sanguine vessels.",
            "+3 dice to detect Sanguine vessels"),
        22 => dys(ResonanceType::Sanguine, "High on Life", "Use Blush of Life without making a Rouse Check.",
            "Blush of Life without Rouse Check"),
        23 => dys(ResonanceType::Sanguine, "Manic High", "Add one die to all tests until failure; then subtract two dice.",
            "+1 die until failure, then \u{2212}2 dice"),
        24 => dys(ResonanceType::Sanguine, "True Love", "Slake 1 additional Hunger when feeding from the vessel's true love.",
            "+1 Hunger slaked from true love"),
        _ => dys(ResonanceType::Sanguine, "Stirring", "Gain 1 free experience point toward Blood Sorcery or Presence purchase.",
            "+1 XP toward Blood Sorcery or Presence"),
    }
}

/// The canonical VTM 5e corebook dyscrasias: seven Phlegmatic, six
/// Melancholy, seven Choleric and six Sanguine, grouped in that order.
pub fn dyscrasia_seed() -> (r: Vec<DyscrasiaSeed>)
    ensures
        r@.len() == 26,
        forall|i: int| 0 <= i < 26 ==> (#[trigger] r@[i])@ == corebook_dyscrasia(i),
        forall|i: int| 0 <= i < 7 ==> (#[trigger] r@[i]).resonance_type == ResonanceType::Phlegmatic,
        forall|i: int| 7 <= i < 13 ==> (#[trigger] r@[i]).resonance_type == ResonanceType::Melancholy,
        forall|i: int| 13 <= i < 20 ==> (#[trigger] r@[i]).resonance_type == ResonanceType::Choleric,
        forall|i: int| 20 <= i < 26 ==> (#[trigger] r@[i]).resonance_type == ResonanceType::Sanguine,
{
    let mut v: Vec<DyscrasiaSeed> = Vec::new();
    let mut i: usize = 0;
    while i < 26
        invariant
            i <= 26,
            v@.len() == i,
            forall|j: int| 0 <= j < i ==> (#[trigger] v@[j])@ == corebook_dyscrasia(j),
        decreases 26 - i,
    {
        v.push(dyscrasia_row(i));
        i += 1;
    }
    v
}

/// The view of a built-in advantage row.
pub struct SeedRowV {
    pub name: Seq<char>,
    pub description: Seq<char>,
    pub tags: Seq<Seq<char>>,
    pub level: Option<i64>,
    pub level_max: Option<i64>,
    pub source: Seq<char>,
}

impl View for SeedRow {
    type V = SeedRowV;

    open spec fn view(&self) -> SeedRowV {
        SeedRowV {
            name: self.name@,
            description: self.description@,
            tags: Seq::new(self.tags@.len(), |k: int| self.tags@[k]@),
            level: self.level,
            level_max: self.level_max,
            source: self.source@,
        }
    }
}

/// A corebook advantage row's view from its parts.
pub open spec fn corebook_row(
    name: Seq<char>,
    description: Seq<char>,
    tags: Seq<Seq<char>>,
    level: i64,
    level_max: Option<i64>,
) -> SeedRowV {
    SeedRowV { name, description, tags, level: Some(level), level_max, source: "V5 Corebook"@ }
}

/// The built-in VTM 5e corebook advantages, in seeding order: position `i`
/// of the table (0 through 9).
pub open spec fn corebook_advantage(i: int) -> SeedRowV {
    if i == 0 {
        corebook_row("Iron Gullet"@, "Your character can digest rancid, defiled, or otherwise corrupted blood without issue."@, seq!["VTM 5e"@, "Merit"@, "Feeding"@], 3, None)
    } else if i == 1 {
        corebook_row("Eat Food"@, "Your character can still consume and enjoy food like a mortal would, though it does not nourish them."@, seq!["VTM 5e"@, "Merit"@, "Feeding"@], 2, None)
    } else if i == 2 {
        corebook_row("Bloodhound"@, "Your character can sniff out distinct Resonances in a blood vessel simply by being near them."@, seq!["VTM 5e"@, "Merit"@, "Supernatural"@], 1, None)
    } else if i == 3 {
        corebook_row("Beautiful"@, "Add one die to related Social pools."@, seq!["VTM 5e"@, "Merit"@, "Social"@], 2, None)
    } else if i == 4 {
        corebook_row("Allies"@, "Mortal friends or family who stand with your character, specified at purchase. Rated by Effectiveness (dots) and Reliability (further dots)."@, seq!["VTM 5e"@, "Background"@, "Social"@], 1, Some(5i64))
    } else if i == 5 {
        corebook_row("Contacts"@, "Mortal sources of information or goods. Rated by usefulness and influence."@, seq!["VTM 5e"@, "Background"@, "Social"@], 1, Some(5i64))
    } else if i == 6 {
        corebook_row("Haven"@, "A refuge your character can use as a base. Rated from a squat (1) to a fortress (5)."@, seq!["VTM 5e"@, "Background"@, "Territorial"@], 1, Some(5i64))
    } else if i == 7 {
        corebook_row("Resources"@, "Financial stability ranging from beggary (1) to millionaire (5). Does not represent liquid cash."@, seq!["VTM 5e"@, "Background"@, "Material"@], 1, Some(5i64))
    } else if i == 8 {
        corebook_row("Prey Exclusion"@, "Your character cannot feed from a specific class of mortals (children, the elderly, etc.). Suffer one-point stains if they do."@, seq!["VTM 5e"@, "Flaw"@, "Feeding"@], 1, None)
    } else {
        corebook_row("Enemy"@, "A mortal or ghoul who actively works against your character. The player and Storyteller define the threat."@, seq!["VTM 5e"@, "Flaw"@, "Social"@], 1, Some(2i64))
    }
}

/// A corebook advantage row with its three tags.
fn row(
    name: &'static str,
    description: &'static str,
    tags: &'static [&'static str],
    level: i64,
    level_max: Option<i64>,
) -> (r: SeedRow)
    requires
        tags@.len() == 3,
    ensures
        r@ == corebook_row(name@, description@, seq![tags@[0]@, tags@[1]@, tags@[2]@], level, level_max),
{
    assert(Seq::new(tags@.len(), |k: int| tags@[k]@) =~= seq![tags@[0]@, tags@[1]@, tags@[2]@]);
    SeedRow { name, description, tags, level: Some(level), level_max, source: "V5 Corebook" }
}

/// Row `i` of the corebook advantage table (see `corebook_advantage`).
fn advantage_row(i: usize) -> (r: SeedRow)
    requires
        i < 10,
    ensures
        r@ == corebook_advantage(i as int),
{
    match i {
        0 => row("Iron Gullet",
            "Your character can digest rancid, defiled, or otherwise corrupted blood without issue.",
            &["VTM 5e", "Merit", "Feeding"], 3, None),
        1 => row("Eat Food",
            "Your character can still consume and enjoy food like a mortal would, though it does not nourish them.",
            &["VTM 5e", "Merit", "Feeding"], 2, None),
        2 => row("Bloodhound",
            "Your character can sniff out distinct Resonances in a blood vessel simply by being near them.",
            &["VTM 5e", "Merit", "Supernatural"], 1, None),
        3 => row("Beautiful", "Add one die to related Social pools.", &["VTM 5e", "Merit", "Social"], 2, None),
        4 => row("Allies",
            "Mortal friends or family who stand with your character, specified at purchase. Rated by Effectiveness (dots) and Reliability (further dots).",
            &["VTM 5e", "Background", "Social"], 1, Some(5)),
        5 => row("Contacts", "Mortal sources of information or goods. Rated by usefulness and influence.",
            &["VTM 5e", "Background", "Social"], 1, Some(5)),
        6 => row("Haven",
            "A refuge your character can use as a base. Rated from a squat (1) to a fortress (5).",
            &["VTM 5e", "Background", "Territorial"], 1, Some(5)),
        7 => row("Resources",
            "Financial stability ranging from beggary (1) to millionaire (5). Does not represent liquid cash.",
            &["VTM 5e", "Background", "Material"], 1, Some(5)),
        8 => row("Prey Exclusion",
            "Your character cannot feed from a specific class of mortals (children, the elderly, etc.). Suffer one-point stains if they do.",
            &["VTM 5e", "Flaw", "Feeding"], 1, None),
        _ => row("Enemy",
            "A mortal or ghoul who actively works against your character. The player and Storyteller define the threat.",
            &["VTM 5e", "Flaw", "Social"], 1, Some(2)),
    }
}

/// The built-in advantages: four merits, four backgrounds and two flaws
/// from the V5 corebook, each with a level, and a maximum above it for
/// the ranged ones.
pub fn seed_rows() -> (r: Vec<SeedRow>)
    ensures
        r@.len() == 10,
        forall|i: int| 0 <= i < 10 ==> (#[trigger] r@[i])@ == corebook_advantage(i),
        forall|i: int|
            0 <= i < 10 ==> {
                let row = #[trigger] r@[i];
                &&& row.level is Some
                &&& row.source@ == "V5 Corebook"@
                &&& (row.level_max matches Some(m) ==> row.level->Some_0 <= m)
            },
{
    let mut v: Vec<SeedRow> = Vec::new();
    let mut i: usize = 0;
    while i < 10
        invariant
            i <= 10,
            v@.len() == i,
            forall|j: int| 0 <= j < i ==> (#[trigger] v@[j])@ == corebook_advantage(j),
        decreases 10 - i,
    {
        v.push(advantage_row(i));
        i += 1;
    }
    v
}

/// The error for a library push of an advantage that does not exist.
pub fn advantage_not_found(id: i64) -> (r: String)
    ensures
        r@ == "tools/library_push: advantage "@ + crate::text::signed_decimal(id as int) + " not found"@,
{
    let mut e = owned("tools/library_push: advantage ");
    let d = crate::text::i64_decimal(id);
    append_str(&mut e, d.as_str());
    append_str(&mut e, " not found");
    e
}

} // verus!
