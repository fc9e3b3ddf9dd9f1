//! The bridge's decisions between the sockets: what an inbound frame
//! means (events), where an attribute write goes, and how the shared
//! state — the merged character cache, the roll history and each source's
//! Hello metadata — moves when events arrive.

use vstd::prelude::*;
use crate::json::{Json, JsonV, entries_view, obj_push};
use crate::text::{append_str, owned, starts_with, str_eq, strip_prefix};
use crate::bridge::types::{CanonicalCharacter, CanonicalCharacterV, CanonicalRoll, CanonicalRollV, SourceInfo,
    SourceKind, copy_opt_string, source_name};
use crate::bridge::foundry::{FoundryInbound, foundry_canonical, to_canonical};
use crate::bridge::roll20::{InboundMsg, Roll20Source, roll20_canonical};
use crate::bridge::translate_roll::{canonical_roll_of, to_canonical_roll};
use crate::bridge::foundry_actions::{build_create_item_simple, create_item_simple_json};
use crate::canonical_fields::{canonical_to_foundry_path, foundry_path_spec, lemma_track_damage_paths};

verus! {

/// One event drawn from an inbound frame; a frame yields zero or more.
#[derive(Debug)]
pub enum InboundEvent {
    /// Characters added or changed; each overwrites the cached character
    /// with the same source and id.
    CharactersUpdated(Vec<CanonicalCharacter>),
    /// A roll result.
    RollReceived(CanonicalRoll),
    /// A Foundry item was deleted: the modifier rows bound to it must go.
    ItemDeleted { source: SourceKind, source_id: String, item_id: String },
}

pub enum InboundEventV {
    CharactersUpdated(Seq<CanonicalCharacterV>),
    RollReceived(CanonicalRollV),
    ItemDeleted(SourceKind, Seq<char>, Seq<char>),
}

pub open spec fn chars_view(v: Seq<CanonicalCharacter>) -> Seq<CanonicalCharacterV> {
    Seq::new(v.len(), |i: int| v[i]@)
}

impl View for InboundEvent {
    type V = InboundEventV;

    open spec fn view(&self) -> InboundEventV {
        match self {
            InboundEvent::CharactersUpdated(v) => InboundEventV::CharactersUpdated(chars_view(v@)),
            InboundEvent::RollReceived(r) => InboundEventV::RollReceived(r@),
            InboundEvent::ItemDeleted { source, source_id, item_id } => InboundEventV::ItemDeleted(
                *source,
                source_id@,
                item_id@,
            ),
        }
    }
}

/// The roll lengths of a roll frame fit the counters.
pub open spec fn roll_fits(msg: FoundryInbound) -> bool {
    msg matches FoundryInbound::RollResult { message } ==> message.basic_results@.len()
        + message.advanced_results@.len() <= u32::MAX
}

/// The events a Foundry frame yields: the translated actors of an actor
/// list or update, the translated roll of a roll result, and nothing for
/// Hello and Error frames (the bridge handles those before dispatch).
pub open spec fn foundry_events(msg: FoundryInbound) -> Seq<InboundEventV> {
    match msg {
        FoundryInbound::Actors { actors } => seq![
            InboundEventV::CharactersUpdated(Seq::new(actors@.len(), |i: int| foundry_canonical(actors@[i]))),
        ],
        FoundryInbound::ActorUpdate { actor } => seq![InboundEventV::CharactersUpdated(seq![foundry_canonical(actor)])],
        FoundryInbound::RollResult { message } => seq![InboundEventV::RollReceived(canonical_roll_of(message))],
        _ => Seq::empty(),
    }
}

pub open spec fn events_view(v: Seq<InboundEvent>) -> Seq<InboundEventV> {
    Seq::new(v.len(), |i: int| v[i]@)
}

/// How an attribute write to Foundry is carried out.
#[derive(Debug)]
pub enum SetAttributeRoute {
    /// Send this envelope as it is.
    Envelope(Json),
    /// The value is a dyscrasia payload to parse and apply.
    ApplyDyscrasia,
    /// Parse the value and write it at this actor path.
    UpdateField { path: String },
}

/// The actor path a canonical name writes to: its Foundry system path for
/// a flat name, `system.attributes.<key>.value` for `attribute.<key>`,
/// `system.skills.<key>.value` for `skill.<key>`, or the name itself (a raw
/// path such as "system.x.y").
pub open spec fn foundry_write_path(name: Seq<char>) -> Seq<char> {
    match foundry_path_spec(name) {
        Some(p) => p,
        None => if starts_with(name, "attribute."@) {
            "system.attributes."@ + name.skip("attribute."@.len() as int) + ".value"@
        } else if starts_with(name, "skill."@) {
            "system.skills."@ + name.skip("skill."@.len() as int) + ".value"@
        } else {
            name
        },
    }
}

/// Law: a bridge write of a flat track-damage name `<track>_<kind>` goes
/// to the actor path `system.<track>.<kind>`.
pub proof fn lemma_track_damage_write_path(track: Seq<char>, kind: Seq<char>)
    requires
        track == "health"@ || track == "willpower"@,
        kind == "superficial"@ || kind == "aggravated"@,
    ensures
        foundry_write_path(track + "_"@ + kind) == "system."@ + track + "."@ + kind,
{
    lemma_track_damage_paths(track, kind);
}

/// The actor path of a canonical name (see `foundry_write_path`).
pub fn canonical_to_path(name: &str) -> (r: String)
    ensures
        r@ == foundry_write_path(name@),
{
    match canonical_to_foundry_path(name) {
        Some(p) => {
            return owned(p);
        },
        None => {},
    }
    match strip_prefix(name, "attribute.") {
        Some(key) => {
            let mut s = owned("system.attributes.");
            append_str(&mut s, key.as_str());
            append_str(&mut s, ".value");
            return s;
        },
        None => {},
    }
    match strip_prefix(name, "skill.") {
        Some(key) => {
            let mut s = owned("system.skills.");
            append_str(&mut s, key.as_str());
            append_str(&mut s, ".value");
            return s;
        },
        None => {},
    }
    owned(name)
}

/// Stateless adapter for the Foundry WoD5e module.
pub struct FoundrySource;

impl FoundrySource {
    pub fn kind(&self) -> (k: SourceKind)
        ensures
            k == SourceKind::Foundry,
    {
        SourceKind::Foundry
    }

    /// The events of one parsed inbound frame (see `foundry_events`).
    pub fn handle_inbound(&self, msg: FoundryInbound) -> (r: Vec<InboundEvent>)
        requires
            roll_fits(msg),
        ensures
            events_view(r@) == foundry_events(msg),
    {
        let ghost m = msg;
        let mut out: Vec<InboundEvent> = Vec::new();
        match msg {
            FoundryInbound::Actors { actors } => {
                let mut chars: Vec<CanonicalCharacter> = Vec::new();
                let mut i: usize = 0;
                while i < actors.len()
                    invariant
                        i <= actors@.len(),
                        chars@.len() == i,
                        forall|k: int| 0 <= k < i ==> (#[trigger] chars@[k])@ == foundry_canonical(actors@[k]),
                    decreases actors.len() - i,
                {
                    chars.push(to_canonical(&actors[i]));
                    i += 1;
                }
                let ghost cv = chars_view(chars@);
                assert(cv =~= Seq::new(actors@.len(), |k: int| foundry_canonical(actors@[k])));
                out.push(InboundEvent::CharactersUpdated(chars));
                assert(events_view(out@) =~= foundry_events(m));
            },
            FoundryInbound::ActorUpdate { actor } => {
                let mut chars: Vec<CanonicalCharacter> = Vec::new();
                chars.push(to_canonical(&actor));
                assert(chars_view(chars@) =~= seq![foundry_canonical(actor)]);
                out.push(InboundEvent::CharactersUpdated(chars));
                assert(events_view(out@) =~= foundry_events(m));
            },
            FoundryInbound::RollResult { message } => {
                let roll = to_canonical_roll(&message);
                out.push(InboundEvent::RollReceived(roll));
                assert(events_view(out@) =~= foundry_events(m));
            },
            _ => {
                assert(events_view(out@) =~= foundry_events(m));
            },
        }
        out
    }

    /// Where a write of `name` = `value` goes: a resonance becomes a
    /// resonance item, a dyscrasia is applied from its payload, and any
    /// other name is written at its actor path.
    pub fn route_set_attribute(&self, source_id: &str, name: &str, value: &str) -> (r: SetAttributeRoute)
        ensures
            name@ == "resonance"@ ==> (r matches SetAttributeRoute::Envelope(j) && j@ == create_item_simple_json(
                source_id@,
                "resonance"@,
                value@,
            )),
            name@ == "dyscrasia"@ ==> r is ApplyDyscrasia,
            name@ != "resonance"@ && name@ != "dyscrasia"@ ==> (r matches SetAttributeRoute::UpdateField { path }
                && path@ == foundry_write_path(name@)),
    {
        proof {
            reveal_strlit("resonance");
            reveal_strlit("dyscrasia");
            assert("resonance"@[0] != "dyscrasia"@[0]);
        }
        if str_eq(name, "resonance") {
            SetAttributeRoute::Envelope(build_create_item_simple(source_id, "resonance", value))
        } else if str_eq(name, "dyscrasia") {
            SetAttributeRoute::ApplyDyscrasia
        } else {
            SetAttributeRoute::UpdateField { path: canonical_to_path(name) }
        }
    }

    /// `{"type": "refresh"}`.
    pub fn build_refresh(&self) -> (r: Json)
        ensures
            r@ == JsonV::Object(seq![("type"@, JsonV::Str("refresh"@))]),
    {
        let mut o: Vec<(String, Json)> = Vec::new();
        obj_push(&mut o, "type", Json::text("refresh"));
        assert(entries_view(o@) =~= seq![("type"@, JsonV::Str("refresh"@))]);
        Json::object(o)
    }
}

/// The events of a Roll20 frame: its translated characters.
pub fn roll20_events(src: &Roll20Source, msg: InboundMsg) -> (r: Vec<InboundEvent>)
    ensures
        r@.len() == 1,
        r@[0] is CharactersUpdated,
        events_view(r@) == seq![InboundEventV::CharactersUpdated(match msg {
            InboundMsg::Characters { characters } => Seq::new(
                characters@.len(),
                |i: int| roll20_canonical(characters@[i]),
            ),
            InboundMsg::CharacterUpdate { character } => seq![roll20_canonical(character)],
        })],
{
    let ghost m = msg;
    let chars = src.handle_inbound(msg);
    let ghost cv = chars_view(chars@);
    assert(cv =~= match m {
        InboundMsg::Characters { characters } => Seq::new(characters@.len(), |i: int| roll20_canonical(characters@[i])),
        InboundMsg::CharacterUpdate { character } => seq![roll20_canonical(character)],
    });
    let mut out: Vec<InboundEvent> = Vec::new();
    out.push(InboundEvent::CharactersUpdated(chars));
    assert(events_view(out@) =~= seq![InboundEventV::CharactersUpdated(cv)]);
    out
}

/// What the bridge does with a Foundry frame before dispatching it.
#[derive(Debug)]
pub enum FramePlan {
    /// Record this Hello metadata for the source, then dispatch the frame.
    StoreInfoThenDispatch(SourceInfo),
    /// Report this module-side error to the GM; do not dispatch the frame.
    ReportError(Json),
    /// Dispatch the frame.
    Dispatch,
}

pub open spec fn error_report_json(refers_to: Seq<char>, code: Seq<char>, message: Seq<char>) -> JsonV {
    JsonV::Object(
        seq![
            ("refers_to"@, JsonV::Str(refers_to)),
            ("code"@, JsonV::Str(code)),
            ("message"@, JsonV::Str(message)),
        ],
    )
}

fn copy_strings(v: &Vec<String>) -> (r: Vec<String>)
    ensures
        r@ == v@,
{
    let mut out: Vec<String> = Vec::new();
    let mut i: usize = 0;
    while i < v.len()
        invariant
            i <= v@.len(),
            out@ == v@.take(i as int),
        decreases v.len() - i,
    {
        out.push(v[i].clone());
        assert(v@.take(i + 1) =~= v@.take(i as int).push(v@[i as int]));
        i += 1;
    }
    assert(v@.take(v@.len() as int) =~= v@);
    out
}

/// Decides what to do with a Foundry frame before dispatch: a Hello's
/// metadata is recorded (protocol version 0 and capabilities ["actors"]
/// when the module sent none), an Error is reported to the GM and not
/// dispatched, every other frame is dispatched.
pub fn foundry_frame_plan(msg: &FoundryInbound) -> (r: FramePlan)
    ensures
        match *msg {
            FoundryInbound::Hello {
                protocol_version,
                world_id,
                world_title,
                system_id,
                system_version,
                capabilities,
            } => r matches FramePlan::StoreInfoThenDispatch(info) && info.world_id == world_id && info.world_title
                == world_title && info.system_id == system_id && info.system_version == system_version
                && info.protocol_version == (match protocol_version {
                Some(p) => p,
                None => 0u32,
            }) && (match capabilities {
                Some(c) => info.capabilities@ == c@,
                None => info.capabilities@.len() == 1 && info.capabilities@[0]@ == "actors"@,
            }),
            FoundryInbound::Error { refers_to, code, message, .. } => r matches FramePlan::ReportError(j) && j@
                == error_report_json(refers_to@, code@, message@),
            _ => r is Dispatch,
        },
{
    match msg {
        FoundryInbound::Hello {
            protocol_version,
            world_id,
            world_title,
            system_id,
            system_version,
            capabilities,
        } => {
            let caps = match capabilities {
                Some(c) => copy_strings(c),
                None => {
                    let mut v: Vec<String> = Vec::new();
                    v.push(owned("actors"));
                    v
                },
            };
            FramePlan::StoreInfoThenDispatch(
                SourceInfo {
                    world_id: copy_opt_string(world_id),
                    world_title: copy_opt_string(world_title),
                    system_id: copy_opt_string(system_id),
                    system_version: copy_opt_string(system_version),
                    protocol_version: match protocol_version {
                        Some(p) => *p,
                        None => 0,
                    },
                    capabilities: caps,
                },
            )
        },
        FoundryInbound::Error { refers_to, code, message, .. } => {
            let mut o: Vec<(String, Json)> = Vec::new();
            obj_push(&mut o, "refers_to", Json::text(refers_to.as_str()));
            obj_push(&mut o, "code", Json::text(code.as_str()));
            obj_push(&mut o, "message", Json::text(message.as_str()));
            assert(entries_view(o@) =~= error_report_json(refers_to@, code@, message@)->Object_0);
            FramePlan::ReportError(Json::object(o))
        },
        _ => FramePlan::Dispatch,
    }
}

/// The two subscription envelopes.
#[derive(Debug, Clone, Copy, PartialEq, Eq, Structural)]
pub enum SubscriptionOp {
    Subscribe,
    Unsubscribe,
}

pub open spec fn subscription_prefix(op: SubscriptionOp) -> Seq<char> {
    match op {
        SubscriptionOp::Subscribe => "bridge/subscribe: "@,
        SubscriptionOp::Unsubscribe => "bridge/unsubscribe: "@,
    }
}

/// Only Foundry takes collection subscriptions; asking Roll20 is an error
/// rather than a silent no-op.
pub fn check_subscription(op: SubscriptionOp, source: SourceKind) -> (r: Result<(), String>)
    ensures
        r is Ok <==> source == SourceKind::Foundry,
        r matches Err(e) ==> e@ == subscription_prefix(op) + "source Roll20 does not support subscriptions"@,
{
    if source == SourceKind::Foundry {
        Ok(())
    } else {
        let mut e = owned(match op {
            SubscriptionOp::Subscribe => "bridge/subscribe: ",
            SubscriptionOp::Unsubscribe => "bridge/unsubscribe: ",
        });
        append_str(&mut e, "source Roll20 does not support subscriptions");
        Err(e)
    }
}

/// The error for a write a source refused to build.
pub fn set_attribute_failed(reason: &str) -> (r: String)
    ensures
        r@ == "bridge/set_attribute: "@ + reason@,
{
    let mut e = owned("bridge/set_attribute: ");
    append_str(&mut e, reason);
    e
}

/// The error for a write to a source that is not registered.
pub fn source_not_registered(kind: SourceKind) -> (r: String)
    ensures
        r@ == "source "@ + source_name(kind) + " not registered"@,
{
    let mut e = owned("source ");
    append_str(&mut e, kind.as_str());
    append_str(&mut e, " not registered");
    e
}

} // verus!
