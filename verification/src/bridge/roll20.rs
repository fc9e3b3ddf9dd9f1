//! Roll20 (Jumpgate VTM5e sheet) characters → canonical characters, and
//! the outbound Roll20 envelopes. The `raw` blob carries the whole Roll20
//! character so source-specific consumers can read every attribute.

use vstd::prelude::*;
use crate::json::{Json, JsonV, obj_push, entries_view};
use crate::text::{append_str, owned, parse_u8, parse_u8_spec, str_eq};
use crate::bridge::types::{CanonicalCharacter, CanonicalCharacterV, HealthTrack, SourceKind};

verus! {

#[derive(Debug, Clone)]
pub struct Attribute {
    pub name: String,
    pub current: String,
    pub max: String,
}

#[derive(Debug, Clone)]
pub struct Character {
    pub id: String,
    pub name: String,
    pub controlled_by: String,
    pub attributes: Vec<Attribute>,
}

/// Inbound messages from the browser extension.
#[derive(Debug)]
pub enum InboundMsg {
    Characters { characters: Vec<Character> },
    CharacterUpdate { character: Character },
}

/// The first attribute with the given name.
pub open spec fn find_attr(attrs: Seq<Attribute>, name: Seq<char>) -> Option<Attribute>
    decreases attrs.len(),
{
    if attrs.len() == 0 {
        None
    } else if attrs[0].name@ == name {
        Some(attrs[0])
    } else {
        find_attr(attrs.drop_first(), name)
    }
}

/// The current value of the named attribute, read as a `u8`.
pub open spec fn attr_u8(attrs: Seq<Attribute>, name: Seq<char>) -> Option<u8> {
    match find_attr(attrs, name) {
        Some(a) => parse_u8_spec(a.current@),
        None => None,
    }
}

/// Looks attributes up by name on one Roll20 character.
pub struct AttrLookup<'a> {
    pub attrs: &'a [Attribute],
}

impl<'a> AttrLookup<'a> {
    pub fn new(attrs: &'a [Attribute]) -> (r: Self)
        ensures
            r.attrs@ == attrs@,
    {
        AttrLookup { attrs }
    }

    /// The first attribute with the given name.
    pub fn get(&self, name: &str) -> (r: Option<&'a Attribute>)
        ensures
            r is Some <==> find_attr(self.attrs@, name@) is Some,
            r matches Some(a) ==> Some(*a) == find_attr(self.attrs@, name@),
    {
        let ghost s = self.attrs@;
        let mut i: usize = 0;
        assert(s.skip(0) =~= s);
        while i < self.attrs.len()
            invariant
                i <= s.len(),
                s == self.attrs@,
                find_attr(s, name@) == find_attr(s.skip(i as int), name@),
            decreases s.len() - i,
        {
            assert(s.skip(i as int)[0] == s[i as int]);
            if str_eq(self.attrs[i].name.as_str(), name) {
                assert(s.skip(i as int).len() > 0);
                return Some(&self.attrs[i]);
            }
            assert(s.skip(i as int).drop_first() =~= s.skip(i + 1));
            i += 1;
        }
        None
    }

    /// The named attribute's current value as a `u8`.
    pub fn parse_u8(&self, name: &str) -> (r: Option<u8>)
        ensures
            r == attr_u8(self.attrs@, name@),
    {
        match self.get(name) {
            Some(a) => parse_u8(a.current.as_str()),
            None => None,
        }
    }
}

/// A health or willpower track read from the sheet: the base attribute's
/// `max` (5 when unreadable), damage from `<base>_superficial` and
/// `<base>_aggravated` (0 when unreadable); no track when the sheet has no
/// base attribute.
pub open spec fn roll20_track(attrs: Seq<Attribute>, base: Seq<char>) -> Option<HealthTrack> {
    match find_attr(attrs, base) {
        None => None,
        Some(a) => Some(
            HealthTrack {
                max: match parse_u8_spec(a.max@) {
                    Some(m) => m,
                    None => 5,
                },
                superficial: match attr_u8(attrs, base + "_superficial"@) {
                    Some(m) => m,
                    None => 0,
                },
                aggravated: match attr_u8(attrs, base + "_aggravated"@) {
                    Some(m) => m,
                    None => 0,
                },
            },
        ),
    }
}

pub fn build_health_track(attrs: &AttrLookup, base: &str) -> (r: Option<HealthTrack>)
    ensures
        r == roll20_track(attrs.attrs@, base@),
{
    let base_attr = match attrs.get(base) {
        Some(a) => a,
        None => {
            return None;
        },
    };
    let max = match parse_u8(base_attr.max.as_str()) {
        Some(m) => m,
        None => 5,
    };
    let mut sup_name = owned(base);
    append_str(&mut sup_name, "_superficial");
    let superficial = match attrs.parse_u8(sup_name.as_str()) {
        Some(m) => m,
        None => 0,
    };
    let mut agg_name = owned(base);
    append_str(&mut agg_name, "_aggravated");
    let aggravated = match attrs.parse_u8(agg_name.as_str()) {
        Some(m) => m,
        None => 0,
    };
    Some(HealthTrack { max, superficial, aggravated })
}

/// The JSON shape of one attribute: `{"name", "current", "max"}`.
pub open spec fn attribute_json(a: Attribute) -> JsonV {
    JsonV::Object(
        seq![("name"@, JsonV::Str(a.name@)), ("current"@, JsonV::Str(a.current@)), ("max"@, JsonV::Str(a.max@))],
    )
}

/// The JSON shape of a character: `{"id", "name", "controlled_by",
/// "attributes": [...]}`.
pub open spec fn character_json(c: Character) -> JsonV {
    JsonV::Object(
        seq![
            ("id"@, JsonV::Str(c.id@)),
            ("name"@, JsonV::Str(c.name@)),
            ("controlled_by"@, JsonV::Str(c.controlled_by@)),
            ("attributes"@, JsonV::Array(Seq::new(c.attributes@.len(), |i: int| attribute_json(c.attributes@[i])))),
        ],
    )
}

fn attribute_to_json(a: &Attribute) -> (r: Json)
    ensures
        r@ == attribute_json(*a),
{
    let mut o: Vec<(String, Json)> = Vec::new();
    obj_push(&mut o, "name", Json::text(a.name.as_str()));
    obj_push(&mut o, "current", Json::text(a.current.as_str()));
    obj_push(&mut o, "max", Json::text(a.max.as_str()));
    let r = Json::object(o);
    assert(entries_view(o@) =~= attribute_json(*a)->Object_0);
    r
}

/// The character as a JSON document (see `character_json`).
pub fn character_to_json(c: &Character) -> (r: Json)
    ensures
        r@ == character_json(*c),
{
    let mut attrs: Vec<Json> = Vec::new();
    let mut i: usize = 0;
    while i < c.attributes.len()
        invariant
            i <= c.attributes@.len(),
            crate::json::elems_view(attrs@) =~= Seq::new(i as nat, |k: int| attribute_json(c.attributes@[k])),
        decreases c.attributes.len() - i,
    {
        let a = attribute_to_json(&c.attributes[i]);
        attrs.push(a);
        assert(crate::json::elems_view(attrs@) =~= Seq::new(i as nat, |k: int| attribute_json(c.attributes@[k])).push(attribute_json(c.attributes@[i as int])));
        i += 1;
    }
    let mut o: Vec<(String, Json)> = Vec::new();
    obj_push(&mut o, "id", Json::text(c.id.as_str()));
    obj_push(&mut o, "name", Json::text(c.name.as_str()));
    obj_push(&mut o, "controlled_by", Json::text(c.controlled_by.as_str()));
    let arr = Json::array(attrs);
    obj_push(&mut o, "attributes", arr);
    let r = Json::object(o);
    assert(entries_view(o@) =~= character_json(*c)->Object_0);
    r
}

/// Translates a Roll20 character: identity fields, an empty
/// `controlled_by` read as nobody, hunger / humanity / stains / blood
/// potency from the like-named attributes, the two tracks, and the whole
/// character as the raw blob.
pub fn to_canonical(raw: &Character) -> (c: CanonicalCharacter)
    ensures
        c.source == SourceKind::Roll20,
        c.source_id == raw.id,
        c.name == raw.name,
        c.controlled_by == if raw.controlled_by@.len() == 0 { None } else { Some(raw.controlled_by) },
        c.hunger == attr_u8(raw.attributes@, "hunger"@),
        c.health == roll20_track(raw.attributes@, "health"@),
        c.willpower == roll20_track(raw.attributes@, "willpower"@),
        c.humanity == attr_u8(raw.attributes@, "humanity"@),
        c.humanity_stains == attr_u8(raw.attributes@, "humanity_stains"@),
        c.blood_potency == attr_u8(raw.attributes@, "blood_potency"@),
        c.raw@ == character_json(*raw),
        c@ == roll20_canonical(*raw),
{
    let attrs = AttrLookup::new(raw.attributes.as_slice());
    CanonicalCharacter {
        source: SourceKind::Roll20,
        source_id: raw.id.clone(),
        name: raw.name.clone(),
        controlled_by: if raw.controlled_by.as_str().is_empty() {
            None
        } else {
            Some(raw.controlled_by.clone())
        },
        hunger: attrs.parse_u8("hunger"),
        health: build_health_track(&attrs, "health"),
        willpower: build_health_track(&attrs, "willpower"),
        humanity: attrs.parse_u8("humanity"),
        humanity_stains: attrs.parse_u8("humanity_stains"),
        blood_potency: attrs.parse_u8("blood_potency"),
        raw: character_to_json(raw),
    }
}

/// The canonical view of a Roll20 character (see `to_canonical`).
pub open spec fn roll20_canonical(raw: Character) -> CanonicalCharacterV {
    CanonicalCharacterV {
        source: SourceKind::Roll20,
        source_id: raw.id@,
        name: raw.name@,
        controlled_by: if raw.controlled_by@.len() == 0 {
            None
        } else {
            Some(raw.controlled_by@)
        },
        hunger: attr_u8(raw.attributes@, "hunger"@),
        health: roll20_track(raw.attributes@, "health"@),
        willpower: roll20_track(raw.attributes@, "willpower"@),
        humanity: attr_u8(raw.attributes@, "humanity"@),
        humanity_stains: attr_u8(raw.attributes@, "humanity_stains"@),
        blood_potency: attr_u8(raw.attributes@, "blood_potency"@),
        raw: character_json(raw),
    }
}

/// Law: a translated Roll20 character's health (or willpower) damage is
/// read from the sheet by name: superficial damage is the current value
/// of `<track>_superficial`, aggravated damage that of `<track>_aggravated`.
pub proof fn lemma_roll20_track_damage(raw: Character, track: Seq<char>, sup: u8, agg: u8)
    requires
        track == "health"@ || track == "willpower"@,
        find_attr(raw.attributes@, track) is Some,
        find_attr(raw.attributes@, track + "_superficial"@) matches Some(a) && parse_u8_spec(a.current@)
            == Some(sup),
        find_attr(raw.attributes@, track + "_aggravated"@) matches Some(a) && parse_u8_spec(a.current@)
            == Some(agg),
    ensures
        ({
            let c = roll20_canonical(raw);
            let t = if track == "health"@ { c.health } else { c.willpower };
            t matches Some(h) && h.superficial == sup && h.aggravated == agg
        }),
{
    reveal_strlit("health");
    reveal_strlit("willpower");
    assert("health"@.len() != "willpower"@.len());
}

/// Stateless adapter for the Roll20 browser extension.
pub struct Roll20Source;

impl Roll20Source {
    pub fn kind(&self) -> (k: SourceKind)
        ensures
            k == SourceKind::Roll20,
    {
        SourceKind::Roll20
    }

    /// The characters an inbound message carries, translated.
    pub fn handle_inbound(&self, msg: InboundMsg) -> (r: Vec<CanonicalCharacter>)
        ensures
            match msg {
                InboundMsg::Characters { characters } => r@.len() == characters@.len()
                    && forall|i: int| 0 <= i < r@.len() ==> (#[trigger] r@[i])@ == roll20_canonical(characters@[i]),
                InboundMsg::CharacterUpdate { character } => r@.len() == 1 && r@[0]@ == roll20_canonical(character),
            },
    {
        match msg {
            InboundMsg::Characters { characters } => {
                let mut out: Vec<CanonicalCharacter> = Vec::new();
                let mut i: usize = 0;
                while i < characters.len()
                    invariant
                        i <= characters@.len(),
                        out@.len() == i,
                        forall|k: int| 0 <= k < i ==> (#[trigger] out@[k])@ == roll20_canonical(characters@[k]),
                    decreases characters.len() - i,
                {
                    out.push(to_canonical(&characters[i]));
                    i += 1;
                }
                out
            },
            InboundMsg::CharacterUpdate { character } => {
                let mut out: Vec<CanonicalCharacter> = Vec::new();
                out.push(to_canonical(&character));
                out
            },
        }
    }

    /// `{"type": "set_attribute", "character_id", "name", "value"}`.
    pub fn build_set_attribute(&self, source_id: &str, name: &str, value: &str) -> (r: Json)
        ensures
            r@ == JsonV::Object(
                seq![
                    ("type"@, JsonV::Str("set_attribute"@)),
                    ("character_id"@, JsonV::Str(source_id@)),
                    ("name"@, JsonV::Str(name@)),
                    ("value"@, JsonV::Str(value@)),
                ],
            ),
    {
        let mut o: Vec<(String, Json)> = Vec::new();
        obj_push(&mut o, "type", Json::text("set_attribute"));
        obj_push(&mut o, "character_id", Json::text(source_id));
        obj_push(&mut o, "name", Json::text(name));
        obj_push(&mut o, "value", Json::text(value));
        let r = Json::object(o);
        assert(entries_view(o@) =~= seq![
            ("type"@, JsonV::Str("set_attribute"@)),
            ("character_id"@, JsonV::Str(source_id@)),
            ("name"@, JsonV::Str(name@)),
            ("value"@, JsonV::Str(value@)),
        ]);
        r
    }

    /// `{"type": "refresh"}`.
    pub fn build_refresh(&self) -> (r: Json)
        ensures
            r@ == JsonV::Object(seq![("type"@, JsonV::Str("refresh"@))]),
    {
        let mut o: Vec<(String, Json)> = Vec::new();
        obj_push(&mut o, "type", Json::text("refresh"));
        let r = Json::object(o);
        assert(entries_view(o@) =~= seq![("type"@, JsonV::Str("refresh"@))]);
        r
    }
}

} // verus!
