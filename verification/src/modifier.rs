//! Character modifiers and status templates: their shapes, the rules the
//! store applies when one is added or patched, and the string forms their
//! source kind is stored under.

use vstd::prelude::*;
use crate::bridge::types::{SourceKind, source_name};
use crate::text::{is_blank, is_blank_spec, owned, str_eq};

verus! {

/// What a modifier is bound to.
#[derive(Debug, Clone, PartialEq)]
pub enum ModifierBinding {
    Free,
    Advantage { item_id: String },
}

#[derive(Debug, Clone, Copy, PartialEq, Eq, Structural)]
pub enum ModifierKind {
    Pool,
    Difficulty,
    Note,
    /// Render-time visual stat delta on the character card.
    Stat,
}

#[derive(Debug, Clone, PartialEq)]
pub struct ModifierEffect {
    pub kind: ModifierKind,
    pub scope: Option<String>,
    pub delta: Option<i32>,
    pub note: Option<String>,
    /// Foundry-bonus dot-paths (e.g. "attributes.strength"); empty means
    /// pathless. Only read when a pool effect is pushed to Foundry.
    pub paths: Vec<String>,
}

/// One stored character modifier.
#[derive(Debug, Clone)]
pub struct CharacterModifier {
    pub id: i64,
    pub source: SourceKind,
    pub source_id: String,
    pub name: String,
    pub description: String,
    pub effects: Vec<ModifierEffect>,
    pub binding: ModifierBinding,
    pub tags: Vec<String>,
    pub is_active: bool,
    pub is_hidden: bool,
    pub origin_template_id: Option<i64>,
    /// Bonus source labels captured when the row was saved as a local
    /// override of Foundry bonuses; empty for hand-made modifiers.
    pub foundry_captured_labels: Vec<String>,
    pub created_at: String,
    pub updated_at: String,
}

/// Input of a new character modifier.
#[derive(Debug)]
pub struct NewCharacterModifier {
    pub source: SourceKind,
    pub source_id: String,
    pub name: String,
    pub description: String,
    pub effects: Vec<ModifierEffect>,
    pub binding: ModifierBinding,
    pub tags: Vec<String>,
    pub origin_template_id: Option<i64>,
    pub foundry_captured_labels: Vec<String>,
}

/// A partial update of a modifier: each present field replaces the stored
/// one. Active and hidden flags have their own setters; the binding never
/// changes.
#[derive(Debug)]
pub struct ModifierPatch {
    pub name: Option<String>,
    pub description: Option<String>,
    pub effects: Option<Vec<ModifierEffect>>,
    pub tags: Option<Vec<String>>,
}

/// A GM-authored reusable bundle of effects and tags.
#[derive(Debug, Clone)]
pub struct StatusTemplate {
    pub id: i64,
    pub name: String,
    pub description: String,
    pub effects: Vec<ModifierEffect>,
    pub tags: Vec<String>,
    pub created_at: String,
    pub updated_at: String,
}

#[derive(Debug)]
pub struct NewStatusTemplate {
    pub name: String,
    pub description: String,
    pub effects: Vec<ModifierEffect>,
    pub tags: Vec<String>,
}

#[derive(Debug)]
pub struct StatusTemplatePatch {
    pub name: Option<String>,
    pub description: Option<String>,
    pub effects: Option<Vec<ModifierEffect>>,
    pub tags: Option<Vec<String>>,
}

/// The source kind named by a stored string.
pub open spec fn source_of_name(s: Seq<char>) -> Option<SourceKind> {
    if s == "roll20"@ {
        Some(SourceKind::Roll20)
    } else if s == "foundry"@ {
        Some(SourceKind::Foundry)
    } else {
        None
    }
}

/// The string a source kind is stored under.
pub fn source_to_str(s: SourceKind) -> (r: &'static str)
    ensures
        r@ == source_name(s),
{
    s.as_str()
}

/// The source kind a stored string names, if any.
pub fn str_to_source(s: &str) -> (r: Option<SourceKind>)
    ensures
        r == source_of_name(s@),
{
    if str_eq(s, "roll20") {
        Some(SourceKind::Roll20)
    } else if str_eq(s, "foundry") {
        Some(SourceKind::Foundry)
    } else {
        None
    }
}

/// Law: reading back the stored name of a source kind gives that kind, and
/// a string that names a kind is that kind's stored name.
pub proof fn lemma_source_round_trip(k: SourceKind, s: Seq<char>)
    ensures
        source_of_name(source_name(k)) == Some(k),
        source_of_name(s) matches Some(k2) ==> source_name(k2) == s,
{
    reveal_strlit("roll20");
    reveal_strlit("foundry");
    assert("roll20"@.len() != "foundry"@.len());
}

/// Refuses a new modifier whose name is blank.
pub fn check_new_modifier(input: &NewCharacterModifier) -> (r: Result<(), String>)
    ensures
        r is Ok <==> !is_blank_spec(input.name@),
        r matches Err(e) ==> e@ == "db/modifier.add: empty name"@,
{
    if is_blank(input.name.as_str()) {
        Err(owned("db/modifier.add: empty name"))
    } else {
        Ok(())
    }
}

/// Refuses to materialize an advantage modifier under a blank name.
pub fn check_materialize_name(name: &str) -> (r: Result<(), String>)
    ensures
        r is Ok <==> !is_blank_spec(name@),
        r matches Err(e) ==> e@ == "db/modifier.materialize: empty name"@,
{
    if is_blank(name) {
        Err(owned("db/modifier.materialize: empty name"))
    } else {
        Ok(())
    }
}

/// Refuses a new status template whose name is blank.
pub fn check_new_template(input: &NewStatusTemplate) -> (r: Result<(), String>)
    ensures
        r is Ok <==> !is_blank_spec(input.name@),
        r matches Err(e) ==> e@ == "db/status_template.add: empty name"@,
{
    if is_blank(input.name.as_str()) {
        Err(owned("db/status_template.add: empty name"))
    } else {
        Ok(())
    }
}

/// A patch whose new name is blank is refused.
pub open spec fn patch_name_blank(name: Option<String>) -> bool {
    name matches Some(n) && is_blank_spec(n@)
}

/// The field a patch leaves: the new value when present, else the old one.
pub open spec fn patched_field<T>(new: Option<T>, old: T) -> T {
    match new {
        Some(v) => v,
        None => old,
    }
}

/// A modifier with a patch applied.
pub open spec fn modifier_patched(m: CharacterModifier, p: ModifierPatch) -> CharacterModifier {
    CharacterModifier {
        name: patched_field(p.name, m.name),
        description: patched_field(p.description, m.description),
        effects: patched_field(p.effects, m.effects),
        tags: patched_field(p.tags, m.tags),
        ..m
    }
}

/// A status template with a patch applied.
pub open spec fn template_patched(t: StatusTemplate, p: StatusTemplatePatch) -> StatusTemplate {
    StatusTemplate {
        name: patched_field(p.name, t.name),
        description: patched_field(p.description, t.description),
        effects: patched_field(p.effects, t.effects),
        tags: patched_field(p.tags, t.tags),
        ..t
    }
}

/// Applies a patch to a stored modifier. A blank new name is refused and
/// leaves the modifier as it was; otherwise each present field replaces
/// the stored one and every other field keeps its value.
pub fn apply_modifier_patch(current: &mut CharacterModifier, patch: ModifierPatch) -> (r: Result<(), String>)
    ensures
        r is Err <==> patch_name_blank(patch.name),
        r matches Err(e) ==> e@ == "db/modifier.update: empty name"@ && *final(current) == *old(current),
        r is Ok ==> *final(current) == modifier_patched(*old(current), patch),
{
    if let Some(n) = &patch.name {
        if is_blank(n.as_str()) {
            return Err(owned("db/modifier.update: empty name"));
        }
    }
    let ghost p = patch;
    let ModifierPatch { name, description, effects, tags } = patch;
    if let Some(n) = name {
        current.name = n;
    }
    if let Some(d) = description {
        current.description = d;
    }
    if let Some(e) = effects {
        current.effects = e;
    }
    if let Some(t) = tags {
        current.tags = t;
    }
    Ok(())
}

/// Applies a patch to a stored status template, with the same rules as a
/// modifier patch.
pub fn apply_template_patch(current: &mut StatusTemplate, patch: StatusTemplatePatch) -> (r: Result<(), String>)
    ensures
        r is Err <==> patch_name_blank(patch.name),
        r matches Err(e) ==> e@ == "db/status_template.update: empty name"@ && *final(current) == *old(current),
        r is Ok ==> *final(current) == template_patched(*old(current), patch),
{
    if let Some(n) = &patch.name {
        if is_blank(n.as_str()) {
            return Err(owned("db/status_template.update: empty name"));
        }
    }
    let StatusTemplatePatch { name, description, effects, tags } = patch;
    if let Some(n) = name {
        current.name = n;
    }
    if let Some(d) = description {
        current.description = d;
    }
    if let Some(e) = effects {
        current.effects = e;
    }
    if let Some(t) = tags {
        current.tags = t;
    }
    Ok(())
}

/// Law: a patch with no fields is accepted and leaves a modifier as it was.
pub proof fn lemma_empty_patch_is_identity(m: CharacterModifier)
    ensures
        !patch_name_blank(None),
        modifier_patched(m, ModifierPatch { name: None, description: None, effects: None, tags: None })
            == m,
{
}

/// Law: applying the same patch twice is applying it once.
pub proof fn lemma_patch_idempotent(m: CharacterModifier, p: ModifierPatch)
    ensures
        modifier_patched(modifier_patched(m, p), p) == modifier_patched(m, p),
{
}

} // verus!
