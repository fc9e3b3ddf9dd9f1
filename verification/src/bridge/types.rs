//! Source-agnostic shapes of bridged characters and rolls.

use vstd::prelude::*;
use crate::json::{Json, JsonV};
use crate::text::{owned, append_str};

verus! {

#[derive(Debug, Clone, Copy, PartialEq, Eq, Structural, Hash)]
pub enum SourceKind {
    Roll20,
    Foundry,
}

/// The wire name of a source.
pub open spec fn source_name(s: SourceKind) -> Seq<char> {
    match s {
        SourceKind::Roll20 => "roll20"@,
        SourceKind::Foundry => "foundry"@,
    }
}

impl SourceKind {
    pub fn as_str(&self) -> (r: &'static str)
        ensures
            r@ == source_name(*self),
    {
        match self {
            SourceKind::Roll20 => "roll20",
            SourceKind::Foundry => "foundry",
        }
    }
}

#[derive(Debug, Clone, Copy)]
pub struct HealthTrack {
    pub max: u8,
    pub superficial: u8,
    pub aggravated: u8,
}

#[derive(Debug)]
pub struct CanonicalCharacter {
    pub source: SourceKind,
    pub source_id: String,
    pub name: String,
    pub controlled_by: Option<String>,
    pub hunger: Option<u8>,
    pub health: Option<HealthTrack>,
    pub willpower: Option<HealthTrack>,
    pub humanity: Option<u8>,
    pub humanity_stains: Option<u8>,
    pub blood_potency: Option<u8>,
    pub raw: Json,
}

/// The mathematical view of a character: strings as character sequences
/// and the raw blob as a JSON view.
pub struct CanonicalCharacterV {
    pub source: SourceKind,
    pub source_id: Seq<char>,
    pub name: Seq<char>,
    pub controlled_by: Option<Seq<char>>,
    pub hunger: Option<u8>,
    pub health: Option<HealthTrack>,
    pub willpower: Option<HealthTrack>,
    pub humanity: Option<u8>,
    pub humanity_stains: Option<u8>,
    pub blood_potency: Option<u8>,
    pub raw: JsonV,
}

pub open spec fn opt_view(o: Option<String>) -> Option<Seq<char>> {
    match o {
        Some(s) => Some(s@),
        None => None,
    }
}

impl View for CanonicalCharacter {
    type V = CanonicalCharacterV;

    open spec fn view(&self) -> CanonicalCharacterV {
        CanonicalCharacterV {
            source: self.source,
            source_id: self.source_id@,
            name: self.name@,
            controlled_by: opt_view(self.controlled_by),
            hunger: self.hunger,
            health: self.health,
            willpower: self.willpower,
            humanity: self.humanity,
            humanity_stains: self.humanity_stains,
            blood_potency: self.blood_potency,
            raw: self.raw@,
        }
    }
}

/// The cache key of a character: "<source>:<source_id>".
pub open spec fn character_key(source: SourceKind, source_id: Seq<char>) -> Seq<char> {
    source_name(source) + ":"@ + source_id
}

impl CanonicalCharacter {
    /// A copy of the character.
    pub fn copy(&self) -> (r: CanonicalCharacter)
        ensures
            r@ == self@,
    {
        CanonicalCharacter {
            source: self.source,
            source_id: self.source_id.clone(),
            name: self.name.clone(),
            controlled_by: copy_opt_string(&self.controlled_by),
            hunger: self.hunger,
            health: self.health,
            willpower: self.willpower,
            humanity: self.humanity,
            humanity_stains: self.humanity_stains,
            blood_potency: self.blood_potency,
            raw: self.raw.deep_copy(),
        }
    }

    pub fn key(&self) -> (k: String)
        ensures
            k@ == character_key(self.source, self.source_id@),
    {
        let mut k = owned(self.source.as_str());
        append_str(&mut k, ":");
        append_str(&mut k, self.source_id.as_str());
        k
    }
}

/// Per-source connection metadata captured from the source's Hello frame.
#[derive(Debug, Clone, PartialEq, Eq, Default)]
pub struct SourceInfo {
    pub world_id: Option<String>,
    pub world_title: Option<String>,
    pub system_id: Option<String>,
    pub system_version: Option<String>,
    pub protocol_version: u32,
    pub capabilities: Vec<String>,
}

#[derive(Debug, Clone, Copy, PartialEq, Eq, Structural, Hash)]
pub enum RollSplat {
    Mortal,
    Vampire,
    Werewolf,
    Hunter,
    Unknown,
}

/// A source-agnostic roll result. The messy / bestial / brutal flags and
/// the critical count are computed by the translator from the dice.
#[derive(Debug)]
pub struct CanonicalRoll {
    pub source: SourceKind,
    pub source_id: String,
    pub actor_id: Option<String>,
    pub actor_name: Option<String>,
    /// ISO-8601, when the source's frame carried a timestamp.
    pub timestamp: Option<String>,
    pub splat: RollSplat,
    pub flavor: String,
    pub formula: String,
    pub basic_results: Vec<u8>,
    pub advanced_results: Vec<u8>,
    pub total: u32,
    pub difficulty: Option<u32>,
    pub criticals: u32,
    pub messy: bool,
    pub bestial: bool,
    pub brutal: bool,
    pub raw: Json,
}

/// The mathematical view of a roll.
pub struct CanonicalRollV {
    pub source: SourceKind,
    pub source_id: Seq<char>,
    pub actor_id: Option<Seq<char>>,
    pub actor_name: Option<Seq<char>>,
    pub timestamp: Option<Seq<char>>,
    pub splat: RollSplat,
    pub flavor: Seq<char>,
    pub formula: Seq<char>,
    pub basic_results: Seq<u8>,
    pub advanced_results: Seq<u8>,
    pub total: u32,
    pub difficulty: Option<u32>,
    pub criticals: u32,
    pub messy: bool,
    pub bestial: bool,
    pub brutal: bool,
    pub raw: JsonV,
}

impl View for CanonicalRoll {
    type V = CanonicalRollV;

    open spec fn view(&self) -> CanonicalRollV {
        CanonicalRollV {
            source: self.source,
            source_id: self.source_id@,
            actor_id: opt_view(self.actor_id),
            actor_name: opt_view(self.actor_name),
            timestamp: opt_view(self.timestamp),
            splat: self.splat,
            flavor: self.flavor@,
            formula: self.formula@,
            basic_results: self.basic_results@,
            advanced_results: self.advanced_results@,
            total: self.total,
            difficulty: self.difficulty,
            criticals: self.criticals,
            messy: self.messy,
            bestial: self.bestial,
            brutal: self.brutal,
            raw: self.raw@,
        }
    }
}

/// A copy of a byte vector.
pub fn copy_bytes(v: &Vec<u8>) -> (r: Vec<u8>)
    ensures
        r@ == v@,
{
    let mut out: Vec<u8> = Vec::new();
    let mut i: usize = 0;
    while i < v.len()
        invariant
            i <= v@.len(),
            out@ == v@.take(i as int),
        decreases v.len() - i,
    {
        out.push(v[i]);
        assert(v@.take(i + 1) =~= v@.take(i as int).push(v@[i as int]));
        i += 1;
    }
    assert(v@.take(v@.len() as int) =~= v@);
    out
}

impl CanonicalRoll {
    /// A copy of the roll.
    pub fn copy(&self) -> (r: CanonicalRoll)
        ensures
            r@ == self@,
    {
        CanonicalRoll {
            source: self.source,
            source_id: self.source_id.clone(),
            actor_id: copy_opt_string(&self.actor_id),
            actor_name: copy_opt_string(&self.actor_name),
            timestamp: copy_opt_string(&self.timestamp),
            splat: self.splat,
            flavor: self.flavor.clone(),
            formula: self.formula.clone(),
            basic_results: copy_bytes(&self.basic_results),
            advanced_results: copy_bytes(&self.advanced_results),
            total: self.total,
            difficulty: self.difficulty,
            criticals: self.criticals,
            messy: self.messy,
            bestial: self.bestial,
            brutal: self.brutal,
            raw: self.raw.deep_copy(),
        }
    }
}

/// A copy of an optional string.
pub fn copy_opt_string(o: &Option<String>) -> (r: Option<String>)
    ensures
        r == *o,
{
    match o {
        Some(s) => Some(s.clone()),
        None => None,
    }
}

} // verus!
