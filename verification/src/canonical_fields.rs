//! Canonical-name namespace for character field updates: the names a
//! field write accepts, how each is range-checked and applied to a
//! canonical character, and where each lives on the VTT side.

use vstd::prelude::*;
use crate::bridge::types::{CanonicalCharacter, CanonicalCharacterV, HealthTrack};
use crate::json::{Json, JsonV, PathWrite, as_u64_spec, set_path, set_path_exec, strings_view,
    lemma_fresh_path_written, lemma_set_path_object, lemma_set_path_twice};
use crate::text::{append_str, decimal, ends_with, has_suffix, is_one_of, owned, starts_with,
    str_eq, strip_prefix, u64_decimal};

verus! {

/// The legacy flat canonical names.
pub const ALLOWED_NAMES: [&'static str; 8] = [
    "hunger",
    "humanity",
    "humanity_stains",
    "blood_potency",
    "health_superficial",
    "health_aggravated",
    "willpower_superficial",
    "willpower_aggravated",
];

/// The same eight flat names under the name that sits beside the attribute
/// and skill lists.
pub const FLAT_NAMES: [&'static str; 8] = ALLOWED_NAMES;

/// WoD5e attribute keys (`system.attributes.<key>.value`).
pub const ATTRIBUTE_NAMES: [&'static str; 9] = [
    "charisma",
    "composure",
    "dexterity",
    "intelligence",
    "manipulation",
    "resolve",
    "stamina",
    "strength",
    "wits",
];

/// WoD5e skill keys (`system.skills.<key>.value`).
pub const SKILL_NAMES: [&'static str; 27] = [
    "academics",
    "animalken",
    "athletics",
    "awareness",
    "brawl",
    "craft",
    "drive",
    "etiquette",
    "finance",
    "firearms",
    "insight",
    "intimidation",
    "investigation",
    "larceny",
    "leadership",
    "medicine",
    "melee",
    "occult",
    "performance",
    "persuasion",
    "politics",
    "science",
    "stealth",
    "streetwise",
    "subterfuge",
    "survival",
    "technology",
];

/// `s` is one of the strings of `names`.
pub open spec fn listed(names: Seq<&'static str>, s: Seq<char>) -> bool {
    exists|i: int| 0 <= i < names.len() && names[i]@ == s
}

/// The full canonical-name surface: a flat name, `attribute.<key>` with a
/// known attribute key, or `skill.<key>` with a known skill key.
pub open spec fn is_allowed_spec(name: Seq<char>) -> bool {
    if listed(FLAT_NAMES@, name) {
        true
    } else if starts_with(name, "attribute."@) {
        listed(ATTRIBUTE_NAMES@, name.skip("attribute."@.len() as int))
    } else if starts_with(name, "skill."@) {
        listed(SKILL_NAMES@, name.skip("skill."@.len() as int))
    } else {
        false
    }
}

/// True if `name` is in the canonical-name surface (see `is_allowed_spec`).
pub fn is_allowed_name(name: &str) -> (r: bool)
    ensures
        r == is_allowed_spec(name@),
{
    if is_one_of(name, &FLAT_NAMES) {
        return true;
    }
    match strip_prefix(name, "attribute.") {
        Some(rest) => {
            return is_one_of(rest.as_str(), &ATTRIBUTE_NAMES);
        },
        None => {},
    }
    match strip_prefix(name, "skill.") {
        Some(rest) => {
            return is_one_of(rest.as_str(), &SKILL_NAMES);
        },
        None => {},
    }
    false
}

/// The JSON type name used in error messages.
pub open spec fn type_label_spec(v: JsonV) -> Seq<char> {
    match v {
        JsonV::Null => "null"@,
        JsonV::Bool(_) => "bool"@,
        JsonV::PosInt(_) | JsonV::NegInt(_) | JsonV::Float(_) => "number"@,
        JsonV::Str(_) => "string"@,
        JsonV::Array(_) => "array"@,
        JsonV::Object(_) => "object"@,
    }
}

pub open spec fn prefix_msg() -> Seq<char> {
    "character/set_field: "@
}

pub open spec fn range_head(name: Seq<char>, lo: u8, hi: u8) -> Seq<char> {
    prefix_msg() + "'"@ + name + "' expects integer "@ + decimal(lo as nat) + "..="@
        + decimal(hi as nat) + ", got "@
}

/// Reads an integer in `lo..=hi`: a value that is not a non-negative
/// integer names its JSON type, an out-of-range one its value.
pub open spec fn expect_u8_spec(v: JsonV, name: Seq<char>, lo: u8, hi: u8) -> Result<u8, Seq<char>> {
    match as_u64_spec(v) {
        None => Err(range_head(name, lo, hi) + type_label_spec(v)),
        Some(n) => if n > hi || n < lo {
            Err(range_head(name, lo, hi) + decimal(n as nat))
        } else {
            Ok(n as u8)
        },
    }
}

/// A health or willpower track after writing one of its damage kinds: a
/// missing track starts at max 0 with no damage.
pub open spec fn track_after(t: Option<HealthTrack>, name: Seq<char>, n: u8) -> HealthTrack {
    let base = match t {
        Some(x) => x,
        None => HealthTrack { max: 0, superficial: 0, aggravated: 0 },
    };
    if ends_with(name, "_superficial"@) {
        HealthTrack { superficial: n, ..base }
    } else if ends_with(name, "_aggravated"@) {
        HealthTrack { aggravated: n, ..base }
    } else {
        base
    }
}

/// The JSON-pointer text of a raw write, used in error messages.
pub open spec fn raw_pointer(group: Seq<char>, key: Seq<char>) -> Seq<char> {
    "/system/"@ + group + "/"@ + key + "/value"@
}

/// Writes a dot rating into the raw blob at `system.<group>.<key>.value`:
/// a raw blob that is not an object is replaced by an empty one first.
pub open spec fn raw_write(raw: JsonV, group: Seq<char>, key: Seq<char>, n: u8) -> Result<JsonV, Seq<char>> {
    let base = if raw is Object {
        raw
    } else {
        JsonV::Object(Seq::empty())
    };
    match set_path(base, seq!["system"@, group, key, "value"@], JsonV::PosInt(n as nat)) {
        PathWrite::Written(v) => Ok(v),
        PathWrite::NonObject => Err(prefix_msg() + "pointer '"@ + raw_pointer(group, key)
            + "' walks into non-object"@),
        PathWrite::LeafParentNonObject => Err(prefix_msg() + "pointer '"@ + raw_pointer(group, key)
            + "' walks into non-object at leaf parent"@),
    }
}

/// A namespaced write (`attribute.<key>` or `skill.<key>`): the key must
/// be listed, the value a rating 0..=5, and the rating lands in the raw
/// blob.
pub open spec fn apply_namespaced(
    c: CanonicalCharacterV,
    names: Seq<&'static str>,
    kind: Seq<char>,
    group: Seq<char>,
    prefix: Seq<char>,
    key: Seq<char>,
    value: JsonV,
) -> Result<CanonicalCharacterV, Seq<char>> {
    if !listed(names, key) {
        Err(prefix_msg() + "unknown "@ + kind + " '"@ + key + "'"@)
    } else {
        match expect_u8_spec(value, prefix + key, 0, 5) {
            Err(e) => Err(e),
            Ok(n) => match raw_write(c.raw, group, key, n) {
                Ok(raw) => Ok(CanonicalCharacterV { raw, ..c }),
                Err(e) => Err(e),
            },
        }
    }
}

/// Applies a canonical-named field to a character: the flat names set
/// their typed field (hunger 0..=5, humanity, stains and blood potency
/// 0..=10, track damage 0..=20), `attribute.<key>` and `skill.<key>`
/// write a 0..=5 rating into the raw blob; anything else is an error.
pub open spec fn apply_field_spec(c: CanonicalCharacterV, name: Seq<char>, value: JsonV) -> Result<
    CanonicalCharacterV,
    Seq<char>,
> {
    if name == "hunger"@ {
        match expect_u8_spec(value, name, 0, 5) {
            Ok(n) => Ok(CanonicalCharacterV { hunger: Some(n), ..c }),
            Err(e) => Err(e),
        }
    } else if name == "humanity"@ {
        match expect_u8_spec(value, name, 0, 10) {
            Ok(n) => Ok(CanonicalCharacterV { humanity: Some(n), ..c }),
            Err(e) => Err(e),
        }
    } else if name == "humanity_stains"@ {
        match expect_u8_spec(value, name, 0, 10) {
            Ok(n) => Ok(CanonicalCharacterV { humanity_stains: Some(n), ..c }),
            Err(e) => Err(e),
        }
    } else if name == "blood_potency"@ {
        match expect_u8_spec(value, name, 0, 10) {
            Ok(n) => Ok(CanonicalCharacterV { blood_potency: Some(n), ..c }),
            Err(e) => Err(e),
        }
    } else if name == "health_superficial"@ || name == "health_aggravated"@ {
        match expect_u8_spec(value, name, 0, 20) {
            Ok(n) => Ok(CanonicalCharacterV { health: Some(track_after(c.health, name, n)), ..c }),
            Err(e) => Err(e),
        }
    } else if name == "willpower_superficial"@ || name == "willpower_aggravated"@ {
        match expect_u8_spec(value, name, 0, 20) {
            Ok(n) => Ok(
                CanonicalCharacterV { willpower: Some(track_after(c.willpower, name, n)), ..c },
            ),
            Err(e) => Err(e),
        }
    } else if starts_with(name, "attribute."@) {
        apply_namespaced(
            c,
            ATTRIBUTE_NAMES@,
            "attribute"@,
            "attributes"@,
            "attribute."@,
            name.skip("attribute."@.len() as int),
            value,
        )
    } else if starts_with(name, "skill."@) {
        apply_namespaced(
            c,
            SKILL_NAMES@,
            "skill"@,
            "skills"@,
            "skill."@,
            name.skip("skill."@.len() as int),
            value,
        )
    } else {
        Err(prefix_msg() + "unknown field '"@ + name + "'"@)
    }
}

fn type_label(v: &Json) -> (r: &'static str)
    ensures
        r@ == type_label_spec(v@),
{
    match v {
        Json::Null => "null",
        Json::Bool(_) => "bool",
        Json::Number(_) => "number",
        Json::Str(_) => "string",
        Json::Array(_) => "array",
        Json::Object(_) => "object",
    }
}

fn range_head_text(name: &str, lo: u8, hi: u8) -> (s: String)
    ensures
        s@ == range_head(name@, lo, hi),
{
    let mut s = owned("character/set_field: ");
    append_str(&mut s, "'");
    append_str(&mut s, name);
    append_str(&mut s, "' expects integer ");
    let l = u64_decimal(lo as u64);
    append_str(&mut s, l.as_str());
    append_str(&mut s, "..=");
    let h = u64_decimal(hi as u64);
    append_str(&mut s, h.as_str());
    append_str(&mut s, ", got ");
    assert(s@ =~= range_head(name@, lo, hi));
    s
}

fn expect_u8_in_range(v: &Json, name: &str, lo: u8, hi: u8) -> (r: Result<u8, String>)
    ensures
        match expect_u8_spec(v@, name@, lo, hi) {
            Ok(n) => r == Ok::<u8, String>(n),
            Err(e) => r matches Err(m) && m@ == e,
        },
{
    match v.as_u64() {
        None => {
            let mut s = range_head_text(name, lo, hi);
            append_str(&mut s, type_label(v));
            Err(s)
        },
        Some(n) => {
            if n > hi as u64 || n < lo as u64 {
                let mut s = range_head_text(name, lo, hi);
                let d = u64_decimal(n);
                append_str(&mut s, d.as_str());
                Err(s)
            } else {
                Ok(n as u8)
            }
        },
    }
}

fn apply_track_field(track: &mut Option<HealthTrack>, name: &str, n: u8)
    ensures
        *final(track) == Some(track_after(*old(track), name@, n)),
{
    let mut t = match *track {
        Some(x) => x,
        None => HealthTrack { max: 0, superficial: 0, aggravated: 0 },
    };
    if has_suffix(name, "_superficial") {
        t.superficial = n;
    } else if has_suffix(name, "_aggravated") {
        t.aggravated = n;
    }
    *track = Some(t);
}

fn pointer_text(group: &str, key: &str) -> (s: String)
    ensures
        s@ == raw_pointer(group@, key@),
{
    let mut s = owned("/system/");
    append_str(&mut s, group);
    append_str(&mut s, "/");
    append_str(&mut s, key);
    append_str(&mut s, "/value");
    s
}

/// Writes `n` into the raw blob at `system.<group>.<key>.value`, creating
/// missing intermediate objects (see `raw_write`); the blob is left as it
/// was when the walk meets a value that is not an object.
fn set_raw_u8(raw: &mut Json, group: &str, key: &str, n: u8) -> (r: Result<(), String>)
    ensures
        match raw_write(old(raw)@, group@, key@, n) {
            Ok(v) => r is Ok && final(raw)@ == v,
            Err(e) => (r matches Err(m) && m@ == e) && final(raw)@ == old(raw)@,
        },
{
    let mut segs: Vec<String> = Vec::new();
    segs.push(owned("system"));
    segs.push(owned(group));
    segs.push(owned(key));
    segs.push(owned("value"));
    assert(strings_view(segs@).skip(0) =~= seq!["system"@, group@, key@, "value"@]);
    let mut cur = Json::Null;
    std::mem::swap(raw, &mut cur);
    let was_object = cur.is_object();
    let base = if was_object {
        cur
    } else {
        let empty: Vec<(String, Json)> = Vec::new();
        assert(crate::json::entries_view(empty@) =~= Seq::<(Seq<char>, JsonV)>::empty());
        Json::object(empty)
    };
    proof {
        lemma_fresh_path_written(seq!["system"@, group@, key@, "value"@], JsonV::PosInt(n as nat));
    }
    let (res, code) = set_path_exec(base, &segs, 0, Json::from_u64(n as u64));
    *raw = res;
    if code == 0 {
        Ok(())
    } else {
        let mut s = owned("character/set_field: ");
        append_str(&mut s, "pointer '");
        let p = pointer_text(group, key);
        append_str(&mut s, p.as_str());
        if code == 1 {
            append_str(&mut s, "' walks into non-object");
        } else {
            append_str(&mut s, "' walks into non-object at leaf parent");
        }
        Err(s)
    }
}

fn apply_namespaced_exec(
    c: &mut CanonicalCharacter,
    names: &[&'static str],
    kind: &str,
    group: &str,
    prefix: &str,
    key: &str,
    value: &Json,
) -> (r: Result<(), String>)
    ensures
        match apply_namespaced(old(c)@, names@, kind@, group@, prefix@, key@, value@) {
            Ok(v) => r is Ok && final(c)@ == v,
            Err(e) => (r matches Err(m) && m@ == e) && final(c)@ == old(c)@,
        },
{
    if !is_one_of(key, names) {
        let mut s = owned("character/set_field: ");
        append_str(&mut s, "unknown ");
        append_str(&mut s, kind);
        append_str(&mut s, " '");
        append_str(&mut s, key);
        append_str(&mut s, "'");
        return Err(s);
    }
    let mut display_name = owned(prefix);
    append_str(&mut display_name, key);
    let n = match expect_u8_in_range(value, display_name.as_str(), 0, 5) {
        Ok(n) => n,
        Err(e) => {
            return Err(e);
        },
    };
    set_raw_u8(&mut c.raw, group, key, n)
}

/// Applies a canonical-named field to a character (see
/// `apply_field_spec`). On error the character is left as it was.
pub fn apply_canonical_field(c: &mut CanonicalCharacter, name: &str, value: &Json) -> (r: Result<(), String>)
    ensures
        match apply_field_spec(old(c)@, name@, value@) {
            Ok(v) => r is Ok && final(c)@ == v,
            Err(e) => (r matches Err(m) && m@ == e) && final(c)@ == old(c)@,
        },
{
    if str_eq(name, "hunger") {
        let n = expect_u8_in_range(value, name, 0, 5)?;
        c.hunger = Some(n);
        return Ok(());
    }
    if str_eq(name, "humanity") {
        let n = expect_u8_in_range(value, name, 0, 10)?;
        c.humanity = Some(n);
        return Ok(());
    }
    if str_eq(name, "humanity_stains") {
        let n = expect_u8_in_range(value, name, 0, 10)?;
        c.humanity_stains = Some(n);
        return Ok(());
    }
    if str_eq(name, "blood_potency") {
        let n = expect_u8_in_range(value, name, 0, 10)?;
        c.blood_potency = Some(n);
        return Ok(());
    }
    if str_eq(name, "health_superficial") || str_eq(name, "health_aggravated") {
        let n = expect_u8_in_range(value, name, 0, 20)?;
        apply_track_field(&mut c.health, name, n);
        return Ok(());
    }
    if str_eq(name, "willpower_superficial") || str_eq(name, "willpower_aggravated") {
        let n = expect_u8_in_range(value, name, 0, 20)?;
        apply_track_field(&mut c.willpower, name, n);
        return Ok(());
    }
    match strip_prefix(name, "attribute.") {
        Some(key) => {
            return apply_namespaced_exec(
                c,
                &ATTRIBUTE_NAMES,
                "attribute",
                "attributes",
                "attribute.",
                key.as_str(),
                value,
            );
        },
        None => {},
    }
    match strip_prefix(name, "skill.") {
        Some(key) => {
            return apply_namespaced_exec(
                c,
                &SKILL_NAMES,
                "skill",
                "skills",
                "skill.",
                key.as_str(),
                value,
            );
        },
        None => {},
    }
    let mut s = owned("character/set_field: ");
    append_str(&mut s, "unknown field '");
    append_str(&mut s, name);
    append_str(&mut s, "'");
    Err(s)
}

/// The Foundry system path of a flat canonical name.
pub open spec fn foundry_path_spec(name: Seq<char>) -> Option<Seq<char>> {
    if name == "hunger"@ {
        Some("system.hunger.value"@)
    } else if name == "humanity"@ {
        Some("system.humanity.value"@)
    } else if name == "humanity_stains"@ {
        Some("system.humanity.stains"@)
    } else if name == "blood_potency"@ {
        Some("system.blood.potency"@)
    } else if name == "health_superficial"@ {
        Some("system.health.superficial"@)
    } else if name == "health_aggravated"@ {
        Some("system.health.aggravated"@)
    } else if name == "willpower_superficial"@ {
        Some("system.willpower.superficial"@)
    } else if name == "willpower_aggravated"@ {
        Some("system.willpower.aggravated"@)
    } else {
        None
    }
}

/// Law: each flat track-damage name `<track>_<kind>` (track health or
/// willpower, kind superficial or aggravated) lives on the Foundry sheet
/// at `system.<track>.<kind>`, the same track and the same kind of damage.
pub proof fn lemma_track_damage_paths(track: Seq<char>, kind: Seq<char>)
    requires
        track == "health"@ || track == "willpower"@,
        kind == "superficial"@ || kind == "aggravated"@,
    ensures
        foundry_path_spec(track + "_"@ + kind) == Some("system."@ + track + "."@ + kind),
{
    reveal_strlit("health");
    reveal_strlit("willpower");
    reveal_strlit("superficial");
    reveal_strlit("aggravated");
    reveal_strlit("_");
    reveal_strlit(".");
    reveal_strlit("system.");
    reveal_strlit("hunger");
    reveal_strlit("humanity");
    reveal_strlit("humanity_stains");
    reveal_strlit("blood_potency");
    reveal_strlit("health_superficial");
    reveal_strlit("health_aggravated");
    reveal_strlit("willpower_superficial");
    reveal_strlit("willpower_aggravated");
    reveal_strlit("system.health.superficial");
    reveal_strlit("system.health.aggravated");
    reveal_strlit("system.willpower.superficial");
    reveal_strlit("system.willpower.aggravated");
    let name = track + "_"@ + kind;
    let path = "system."@ + track + "."@ + kind;
    if track == "health"@ && kind == "superficial"@ {
        assert(name =~= "health_superficial"@);
        assert(path =~= "system.health.superficial"@);
    } else if track == "health"@ {
        assert(name =~= "health_aggravated"@);
        assert(path =~= "system.health.aggravated"@);
    } else if kind == "superficial"@ {
        assert(name =~= "willpower_superficial"@);
        assert(path =~= "system.willpower.superficial"@);
    } else {
        assert(name =~= "willpower_aggravated"@);
        assert(path =~= "system.willpower.aggravated"@);
    }
}

/// Foundry system-path mapping of the flat canonical names.
pub fn canonical_to_foundry_path(name: &str) -> (r: Option<&'static str>)
    ensures
        r is Some <==> foundry_path_spec(name@) is Some,
        r matches Some(p) ==> Some(p@) == foundry_path_spec(name@),
{
    if str_eq(name, "hunger") {
        Some("system.hunger.value")
    } else if str_eq(name, "humanity") {
        Some("system.humanity.value")
    } else if str_eq(name, "humanity_stains") {
        Some("system.humanity.stains")
    } else if str_eq(name, "blood_potency") {
        Some("system.blood.potency")
    } else if str_eq(name, "health_superficial") {
        Some("system.health.superficial")
    } else if str_eq(name, "health_aggravated") {
        Some("system.health.aggravated")
    } else if str_eq(name, "willpower_superficial") {
        Some("system.willpower.superficial")
    } else if str_eq(name, "willpower_aggravated") {
        Some("system.willpower.aggravated")
    } else {
        None
    }
}

/// Roll20 attribute mapping: no canonical name has a live Roll20
/// attribute yet, so every name maps to `None`.
pub fn canonical_to_roll20_attr(_name: &str) -> (r: Option<&'static str>)
    ensures
        r is None,
{
    None
}

/// Law: applying the same field twice equals applying it once: when the
/// first write succeeds, the second succeeds too and leaves the character
/// as the first left it.
pub proof fn lemma_apply_field_twice(c: CanonicalCharacterV, name: Seq<char>, value: JsonV)
    requires
        apply_field_spec(c, name, value) is Ok,
    ensures
        apply_field_spec(apply_field_spec(c, name, value)->Ok_0, name, value) == apply_field_spec(c, name, value),
{
    if name == "hunger"@ || name == "humanity"@ || name == "humanity_stains"@ || name == "blood_potency"@
        || name == "health_superficial"@ || name == "health_aggravated"@ || name == "willpower_superficial"@
        || name == "willpower_aggravated"@ {
    } else if starts_with(name, "attribute."@) {
        lemma_raw_write_twice(c, "attributes"@, "attribute."@, name.skip("attribute."@.len() as int), value);
    } else if starts_with(name, "skill."@) {
        lemma_raw_write_twice(c, "skills"@, "skill."@, name.skip("skill."@.len() as int), value);
    }
}

/// A rating written into the raw blob, written again, changes nothing.
proof fn lemma_raw_write_twice(c: CanonicalCharacterV, group: Seq<char>, prefix: Seq<char>, key: Seq<char>, value: JsonV)
    requires
        expect_u8_spec(value, prefix + key, 0, 5) is Ok,
        raw_write(c.raw, group, key, expect_u8_spec(value, prefix + key, 0, 5)->Ok_0) is Ok,
    ensures
        ({
            let n = expect_u8_spec(value, prefix + key, 0, 5)->Ok_0;
            let w = raw_write(c.raw, group, key, n)->Ok_0;
            raw_write(w, group, key, n) == Ok::<JsonV, Seq<char>>(w)
        }),
{
    let n = expect_u8_spec(value, prefix + key, 0, 5)->Ok_0;
    let base = if c.raw is Object { c.raw } else { JsonV::Object(Seq::empty()) };
    let segs = seq!["system"@, group, key, "value"@];
    let leaf = JsonV::PosInt(n as nat);
    lemma_set_path_object(base, segs, leaf);
    lemma_set_path_twice(base, segs, leaf);
}

/// Every flat canonical name has a Foundry system path.
pub proof fn lemma_flat_names_have_foundry_paths()
    ensures
        forall|i: int| 0 <= i < FLAT_NAMES@.len() ==> #[trigger] foundry_path_spec(FLAT_NAMES@[i]@) is Some,
{
    assert forall|i: int| 0 <= i < FLAT_NAMES@.len() implies #[trigger] foundry_path_spec(FLAT_NAMES@[i]@) is Some by {
        if i == 0 {} else if i == 1 {} else if i == 2 {} else if i == 3 {} else if i == 4 {} else if i == 5 {} else if i == 6 {} else {}
    }
}

/// Every flat canonical name is accepted by the name check.
pub proof fn lemma_flat_names_allowed(name: Seq<char>)
    requires
        listed(FLAT_NAMES@, name),
    ensures
        is_allowed_spec(name),
{
}

} // verus!
