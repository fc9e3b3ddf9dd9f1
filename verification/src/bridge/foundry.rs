//! Foundry WoD5e actors → canonical characters, and the shapes of the
//! Foundry module's inbound frames and outbound payloads.

use vstd::prelude::*;
use crate::json::{Json, JsonV, get_spec, obj_push, entries_view};
use crate::text::{parse_u8, parse_u8_spec};
use crate::bridge::types::{CanonicalCharacter, CanonicalCharacterV, HealthTrack, SourceKind, copy_opt_string, opt_view};
use crate::bridge::translate_roll::FoundryRollMessage;

verus! {

/// A Foundry actor as the module reports it.
#[derive(Debug)]
pub struct FoundryActor {
    pub id: String,
    pub name: String,
    pub owner: Option<String>,
    /// Raw `actor.system` blob.
    pub system: Json,
}

/// Inbound frames from the Foundry module. Hello fields are all optional
/// for backward compatibility with modules that send a bare hello.
#[derive(Debug)]
#[allow(inconsistent_fields)]
pub enum FoundryInbound {
    Actors { actors: Vec<FoundryActor> },
    ActorUpdate { actor: FoundryActor },
    Hello {
        protocol_version: Option<u32>,
        world_id: Option<String>,
        world_title: Option<String>,
        system_id: Option<String>,
        system_version: Option<String>,
        capabilities: Option<Vec<String>>,
    },
    /// Module-side handler threw; surfaced to the GM.
    Error { refers_to: String, request_id: Option<String>, code: String, message: String },
    RollResult { message: FoundryRollMessage },
}

/// Frontend payload for applying a dyscrasia to a Foundry actor.
#[derive(Debug, Clone)]
pub struct ApplyDyscrasiaPayload {
    pub dyscrasia_name: String,
    pub resonance_type: String,
    pub description: String,
    pub bonus: String,
}

/// Payload for the `actor.append_private_notes_line` message.
#[derive(Debug, Clone)]
pub struct AppendPrivateNotesLinePayload {
    pub line: String,
}

/// Payload for the `actor.replace_private_notes` message.
#[derive(Debug, Clone)]
pub struct ReplacePrivateNotesPayload {
    pub full_text: String,
}

/// Payload for the `actor.create_feature` message; the feature type is
/// one of "merit", "flaw", "background", "boon".
#[derive(Debug, Clone)]
pub struct CreateFeaturePayload {
    pub featuretype: String,
    pub name: String,
    pub description: String,
    pub points: i32,
}

/// Payload for the `actor.delete_items_by_prefix` message.
#[derive(Debug, Clone)]
pub struct DeleteItemsByPrefixPayload {
    pub item_type: String,
    pub featuretype: Option<String>,
    pub name_prefix: String,
}

/// Payload for the `actor.delete_item_by_id` message.
#[derive(Debug, Clone)]
pub struct DeleteItemByIdPayload {
    pub item_id: String,
}

/// Input of a `game.roll_v5_pool` request. Empty `value_paths` is allowed:
/// no paths and one advanced die is a rouse check.
#[derive(Debug, Clone)]
pub struct RollV5PoolInput {
    pub actor_id: String,
    pub value_paths: Vec<String>,
    pub difficulty: u8,
    pub flavor: Option<String>,
    pub advanced_dice: Option<u8>,
    pub selectors: Option<Vec<String>>,
}

/// Input of a `game.post_chat_as_actor` request.
#[derive(Debug, Clone)]
pub struct PostChatAsActorInput {
    pub actor_id: String,
    pub content: String,
    pub flavor: Option<String>,
    pub roll_mode: Option<String>,
}

/// A Foundry number or numeric string read as a `u8`: an integer up to
/// 255, or decimal text of one.
pub open spec fn value_to_u8_spec(v: JsonV) -> Option<u8> {
    match v {
        JsonV::PosInt(n) => if n <= 255 {
            Some(n as u8)
        } else {
            None
        },
        JsonV::Str(s) => parse_u8_spec(s),
        _ => None,
    }
}

/// The value reached by following `path` through nested objects.
pub open spec fn path_get(j: JsonV, path: Seq<Seq<char>>) -> Option<JsonV>
    decreases path.len(),
{
    if path.len() == 0 {
        Some(j)
    } else {
        match get_spec(j, path[0]) {
            Some(c) => path_get(c, path.drop_first()),
            None => None,
        }
    }
}

pub open spec fn get_u8_spec(sys: JsonV, path: Seq<Seq<char>>) -> Option<u8> {
    match path_get(sys, path) {
        Some(v) => value_to_u8_spec(v),
        None => None,
    }
}

/// The field `key` of an object read as a `u8`, or `default`.
pub open spec fn u8_field_or(e: Seq<(Seq<char>, JsonV)>, key: Seq<char>, default: u8) -> u8 {
    match crate::json::field(e, key) {
        Some(v) => match value_to_u8_spec(v) {
            Some(n) => n,
            None => default,
        },
        None => default,
    }
}

/// A health or willpower track from `system.<base>`: present only when
/// that value is an object; `max` defaults to 5, damage to 0.
pub open spec fn foundry_track(sys: JsonV, base: Seq<char>) -> Option<HealthTrack> {
    match get_spec(sys, base) {
        Some(JsonV::Object(e)) => Some(
            HealthTrack {
                max: u8_field_or(e, "max"@, 5),
                superficial: u8_field_or(e, "superficial"@, 0),
                aggravated: u8_field_or(e, "aggravated"@, 0),
            },
        ),
        _ => None,
    }
}

/// The JSON shape of an actor: `{"id", "name", "owner", "system"}`.
pub open spec fn actor_json(a: FoundryActor) -> JsonV {
    JsonV::Object(
        seq![
            ("id"@, JsonV::Str(a.id@)),
            ("name"@, JsonV::Str(a.name@)),
            ("owner"@, match a.owner {
                Some(o) => JsonV::Str(o@),
                None => JsonV::Null,
            }),
            ("system"@, a.system@),
        ],
    )
}

/// The canonical view of a Foundry actor (see `to_canonical`).
pub open spec fn foundry_canonical(raw: FoundryActor) -> CanonicalCharacterV {
    CanonicalCharacterV {
        source: SourceKind::Foundry,
        source_id: raw.id@,
        name: raw.name@,
        controlled_by: opt_view(raw.owner),
        hunger: get_u8_spec(raw.system@, seq!["hunger"@, "value"@]),
        health: foundry_track(raw.system@, "health"@),
        willpower: foundry_track(raw.system@, "willpower"@),
        humanity: get_u8_spec(raw.system@, seq!["humanity"@, "value"@]),
        humanity_stains: get_u8_spec(raw.system@, seq!["humanity"@, "stains"@]),
        blood_potency: get_u8_spec(raw.system@, seq!["blood"@, "potency"@]),
        raw: actor_json(raw),
    }
}

/// Reads a number or numeric string as a `u8`.
pub fn value_to_u8(v: &Json) -> (r: Option<u8>)
    ensures
        r == value_to_u8_spec(v@),
{
    match v {
        Json::Number(_) => match v.as_u64() {
            Some(x) => if x <= 255 {
                Some(x as u8)
            } else {
                None
            },
            None => None,
        },
        Json::Str(s) => parse_u8(s.as_str()),
        _ => None,
    }
}

/// Follows `path` through nested objects and reads the value there as a `u8`.
pub fn get_u8(sys: &Json, path: &[&str]) -> (r: Option<u8>)
    ensures
        r == get_u8_spec(sys@, Seq::new(path@.len(), |i: int| path@[i]@)),
{
    let ghost p = Seq::new(path@.len(), |i: int| path@[i]@);
    let mut cur = sys;
    let mut i: usize = 0;
    assert(p.skip(0) =~= p);
    while i < path.len()
        invariant
            i <= path@.len(),
            p == Seq::new(path@.len(), |k: int| path@[k]@),
            path_get(sys@, p) == path_get(cur@, p.skip(i as int)),
        decreases path.len() - i,
    {
        assert(p.skip(i as int)[0] == path@[i as int]@);
        assert(p.skip(i as int).drop_first() =~= p.skip(i + 1));
        match cur.get(path[i]) {
            Some(next) => {
                cur = next;
            },
            None => {
                return None;
            },
        }
        i += 1;
    }
    assert(p.skip(i as int) =~= Seq::<Seq<char>>::empty());
    value_to_u8(cur)
}

fn u8_field(track: &Json, key: &str, default: u8) -> (r: u8)
    requires
        track@ is Object,
    ensures
        r == u8_field_or(track@->Object_0, key@, default),
{
    match track.get(key) {
        Some(v) => match value_to_u8(v) {
            Some(n) => n,
            None => default,
        },
        None => default,
    }
}

/// The track at `system.<base>` (see `foundry_track`).
pub fn build_health_track(sys: &Json, base: &str) -> (r: Option<HealthTrack>)
    ensures
        r == foundry_track(sys@, base@),
{
    let track = match sys.get(base) {
        Some(t) => t,
        None => {
            return None;
        },
    };
    if !track.is_object() {
        return None;
    }
    Some(
        HealthTrack {
            max: u8_field(track, "max", 5),
            superficial: u8_field(track, "superficial", 0),
            aggravated: u8_field(track, "aggravated", 0),
        },
    )
}

/// The actor as a JSON document (see `actor_json`).
pub fn actor_to_json(a: &FoundryActor) -> (r: Json)
    ensures
        r@ == actor_json(*a),
{
    let mut o: Vec<(String, Json)> = Vec::new();
    obj_push(&mut o, "id", Json::text(a.id.as_str()));
    obj_push(&mut o, "name", Json::text(a.name.as_str()));
    let owner = match &a.owner {
        Some(s) => Json::text(s.as_str()),
        None => Json::Null,
    };
    obj_push(&mut o, "owner", owner);
    obj_push(&mut o, "system", a.system.deep_copy());
    let r = Json::object(o);
    assert(entries_view(o@) =~= actor_json(*a)->Object_0);
    r
}

/// Translates a Foundry actor: identity, owner as controller, hunger from
/// `system.hunger.value`, humanity and stains from `system.humanity`,
/// blood potency from `system.blood.potency`, the health and willpower
/// tracks, and the actor itself as the raw blob.
pub fn to_canonical(raw: &FoundryActor) -> (c: CanonicalCharacter)
    ensures
        c.source == SourceKind::Foundry,
        c.source_id == raw.id,
        c.name == raw.name,
        c.controlled_by == raw.owner,
        c.hunger == get_u8_spec(raw.system@, seq!["hunger"@, "value"@]),
        c.health == foundry_track(raw.system@, "health"@),
        c.willpower == foundry_track(raw.system@, "willpower"@),
        c.humanity == get_u8_spec(raw.system@, seq!["humanity"@, "value"@]),
        c.humanity_stains == get_u8_spec(raw.system@, seq!["humanity"@, "stains"@]),
        c.blood_potency == get_u8_spec(raw.system@, seq!["blood"@, "potency"@]),
        c.raw@ == actor_json(*raw),
        c@ == foundry_canonical(*raw),
{
    let sys = &raw.system;
    let hunger_path = ["hunger", "value"];
    assert(Seq::new(2, |i: int| hunger_path@[i]@) =~= seq!["hunger"@, "value"@]);
    let humanity_path = ["humanity", "value"];
    assert(Seq::new(2, |i: int| humanity_path@[i]@) =~= seq!["humanity"@, "value"@]);
    let stains_path = ["humanity", "stains"];
    assert(Seq::new(2, |i: int| stains_path@[i]@) =~= seq!["humanity"@, "stains"@]);
    let potency_path = ["blood", "potency"];
    assert(Seq::new(2, |i: int| potency_path@[i]@) =~= seq!["blood"@, "potency"@]);
    CanonicalCharacter {
        source: SourceKind::Foundry,
        source_id: raw.id.clone(),
        name: raw.name.clone(),
        controlled_by: copy_opt_string(&raw.owner),
        hunger: get_u8(sys, &hunger_path),
        health: build_health_track(sys, "health"),
        willpower: build_health_track(sys, "willpower"),
        humanity: get_u8(sys, &humanity_path),
        humanity_stains: get_u8(sys, &stains_path),
        blood_potency: get_u8(sys, &potency_path),
        raw: actor_to_json(raw),
    }
}

} // verus!
