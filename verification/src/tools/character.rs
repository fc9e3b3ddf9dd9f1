//! The character editor's router: where a field write or an advantage
//! edit goes (the saved copy, the live sheet, or both), which inputs it
//! refuses, how a failure on one side is reported, and the edits a saved
//! copy's raw blob receives.

use vstd::prelude::*;
use crate::json::{Json, JsonV, elems_view, entries_view, field, get_spec, int_view, key_position, lemma_array_view,
    lemma_field_index, lemma_object_view, obj_push, set_field};
use crate::text::{append_str, i64_decimal, is_blank, is_blank_spec, owned, signed_decimal, str_eq};
use crate::bridge::types::{SourceKind, source_name};
use crate::canonical_fields::{canonical_to_roll20_attr, is_allowed_name, is_allowed_spec};
use crate::bridge::foundry_actions::{build_create_feature, build_delete_item_by_id, create_feature_json,
    delete_item_by_id_json, is_feature_type};

verus! {

/// Where a write goes.
#[derive(Debug, Clone, Copy, PartialEq, Eq, Structural)]
pub enum WriteTarget {
    Live,
    Saved,
    Both,
}

/// The feature type of an advantage item.
#[derive(Debug, Clone, Copy, PartialEq, Eq, Structural)]
pub enum FeatureType {
    Merit,
    Flaw,
    Background,
    Boon,
}

pub open spec fn feature_name(f: FeatureType) -> Seq<char> {
    match f {
        FeatureType::Merit => "merit"@,
        FeatureType::Flaw => "flaw"@,
        FeatureType::Background => "background"@,
        FeatureType::Boon => "boon"@,
    }
}

impl FeatureType {
    pub fn as_str(&self) -> (r: &'static str)
        ensures
            r@ == feature_name(*self),
            is_feature_type(r@),
    {
        match self {
            FeatureType::Merit => "merit",
            FeatureType::Flaw => "flaw",
            FeatureType::Background => "background",
            FeatureType::Boon => "boon",
        }
    }
}

/// The sides a write touches: the saved copy (which must be looked up
/// first) unless the target is live only, the live sheet unless the target
/// is saved only.
#[derive(Debug, Clone, Copy, PartialEq, Eq, Structural)]
pub struct WritePlan {
    pub saved: bool,
    pub live: bool,
}

pub open spec fn plan_of(t: WriteTarget) -> WritePlan {
    WritePlan { saved: t != WriteTarget::Live, live: t != WriteTarget::Saved }
}

fn plan(t: WriteTarget) -> (r: WritePlan)
    ensures
        r == plan_of(t),
{
    WritePlan { saved: t != WriteTarget::Live, live: t != WriteTarget::Saved }
}

/// The edits the router handles, each with its own error prefix.
#[derive(Debug, Clone, Copy, PartialEq, Eq, Structural)]
pub enum EditKind {
    SetField,
    AddAdvantage,
    RemoveAdvantage,
}

pub open spec fn edit_prefix(k: EditKind) -> Seq<char> {
    match k {
        EditKind::SetField => "character/set_field: "@,
        EditKind::AddAdvantage => "character/add_advantage: "@,
        EditKind::RemoveAdvantage => "character/remove_advantage: "@,
    }
}

fn edit_prefix_exec(k: EditKind) -> (r: &'static str)
    ensures
        r@ == edit_prefix(k),
{
    match k {
        EditKind::SetField => "character/set_field: ",
        EditKind::AddAdvantage => "character/add_advantage: ",
        EditKind::RemoveAdvantage => "character/remove_advantage: ",
    }
}

/// Checks a field write: the name must be a canonical name, and a write
/// that reaches a Roll20 sheet needs a Roll20 attribute for it (none has
/// one yet). Gives the sides to write.
pub fn check_set_field(target: WriteTarget, source: SourceKind, name: &str) -> (r: Result<WritePlan, String>)
    ensures
        !is_allowed_spec(name@) ==> (r matches Err(e) && e@ == "character/set_field: unknown field '"@ + name@ + "'"@),
        is_allowed_spec(name@) && target != WriteTarget::Saved && source == SourceKind::Roll20 ==> (r matches Err(e)
            && e@ == "character/set_field: Roll20 live editing of canonical names not yet supported"@),
        is_allowed_spec(name@) && !(target != WriteTarget::Saved && source == SourceKind::Roll20) ==> r == Ok::<
            WritePlan,
            String,
        >(plan_of(target)),
{
    if !is_allowed_name(name) {
        let mut e = owned("character/set_field: unknown field '");
        append_str(&mut e, name);
        append_str(&mut e, "'");
        return Err(e);
    }
    if target != WriteTarget::Saved && source == SourceKind::Roll20 && canonical_to_roll20_attr(name).is_none() {
        return Err(owned("character/set_field: Roll20 live editing of canonical names not yet supported"));
    }
    Ok(plan(target))
}

/// Checks an advantage addition: the name must not be blank, the points
/// must lie in 0..=10, and advantages cannot be edited live on Roll20.
pub fn check_add_advantage(target: WriteTarget, source: SourceKind, name: &str, points: i32) -> (r: Result<WritePlan, String>)
    ensures
        is_blank_spec(name@) ==> (r matches Err(e) && e@ == "character/add_advantage: empty name"@),
        !is_blank_spec(name@) && !(0 <= points <= 10) ==> (r matches Err(e) && e@ == "character/add_advantage: points "@
            + signed_decimal(points as int) + " out of range 0..=10"@),
        !is_blank_spec(name@) && 0 <= points <= 10 && target != WriteTarget::Saved && source == SourceKind::Roll20 ==> (r matches Err(e)
            && e@ == "character/add_advantage: Roll20 live editing of advantages not yet supported"@),
        !is_blank_spec(name@) && 0 <= points <= 10 && !(target != WriteTarget::Saved && source == SourceKind::Roll20)
            ==> r == Ok::<WritePlan, String>(plan_of(target)),
{
    if is_blank(name) {
        return Err(owned("character/add_advantage: empty name"));
    }
    if !(0 <= points && points <= 10) {
        let mut e = owned("character/add_advantage: points ");
        let d = i64_decimal(points as i64);
        append_str(&mut e, d.as_str());
        append_str(&mut e, " out of range 0..=10");
        return Err(e);
    }
    if target != WriteTarget::Saved && source == SourceKind::Roll20 {
        return Err(owned("character/add_advantage: Roll20 live editing of advantages not yet supported"));
    }
    Ok(plan(target))
}

/// Checks an advantage removal: the item id must not be blank, and
/// advantages cannot be edited live on Roll20.
pub fn check_remove_advantage(target: WriteTarget, source: SourceKind, item_id: &str) -> (r: Result<WritePlan, String>)
    ensures
        is_blank_spec(item_id@) ==> (r matches Err(e) && e@ == "character/remove_advantage: empty item_id"@),
        !is_blank_spec(item_id@) && target != WriteTarget::Saved && source == SourceKind::Roll20 ==> (r matches Err(e)
            && e@ == "character/remove_advantage: Roll20 live editing of advantages not yet supported"@),
        !is_blank_spec(item_id@) && !(target != WriteTarget::Saved && source == SourceKind::Roll20) ==> r == Ok::<
            WritePlan,
            String,
        >(plan_of(target)),
{
    if is_blank(item_id) {
        return Err(owned("character/remove_advantage: empty item_id"));
    }
    if target != WriteTarget::Saved && source == SourceKind::Roll20 {
        return Err(owned("character/remove_advantage: Roll20 live editing of advantages not yet supported"));
    }
    Ok(plan(target))
}

/// The error when no saved copy exists for a character.
pub fn no_saved_row(source: SourceKind, source_id: &str) -> (r: String)
    ensures
        r@ == "character/set_field: no saved row for "@ + source_name(source) + "/"@ + source_id@,
{
    let mut e = owned("character/set_field: no saved row for ");
    append_str(&mut e, source.as_str());
    append_str(&mut e, "/");
    append_str(&mut e, source_id);
    e
}

/// The error when looking the saved copy up failed.
pub fn lookup_failed(reason: &str) -> (r: String)
    ensures
        r@ == "character/set_field: "@ + reason@,
{
    let mut e = owned("character/set_field: ");
    append_str(&mut e, reason);
    e
}

/// How a failed saved-side write is reported: as it is for a saved-only
/// write, marked as the saved write for a write to both sides.
pub fn saved_failed(kind: EditKind, target: WriteTarget, reason: &str) -> (r: String)
    ensures
        target == WriteTarget::Both ==> r@ == edit_prefix(kind) + "saved write failed: "@ + reason@,
        target != WriteTarget::Both ==> r@ == reason@,
{
    if target == WriteTarget::Both {
        let mut e = owned(edit_prefix_exec(kind));
        append_str(&mut e, "saved write failed: ");
        append_str(&mut e, reason);
        e
    } else {
        owned(reason)
    }
}

/// How a failed live-side write is reported: as it is for a live-only
/// write; for a write to both sides, saying the saved side was updated.
pub fn live_failed(kind: EditKind, target: WriteTarget, reason: &str) -> (r: String)
    ensures
        target == WriteTarget::Both ==> r@ == edit_prefix(kind) + "saved updated, live failed: "@ + reason@,
        target != WriteTarget::Both ==> r@ == reason@,
{
    if target == WriteTarget::Both {
        let mut e = owned(edit_prefix_exec(kind));
        append_str(&mut e, "saved updated, live failed: ");
        append_str(&mut e, reason);
        e
    } else {
        owned(reason)
    }
}

/// The text sent live for a field value: a JSON string goes as its
/// characters; any other value goes as its JSON text, which the caller
/// renders (`None` here).
pub fn live_value_text(value: &Json) -> (r: Option<String>)
    ensures
        value@ matches JsonV::Str(s) ==> (r matches Some(t) && t@ == s),
        !(value@ is Str) ==> r is None,
{
    match value {
        Json::Str(s) => Some(s.clone()),
        _ => None,
    }
}

/// The live envelope that adds an advantage to a Foundry actor.
pub fn add_advantage_payload(
    source_id: &str,
    featuretype: FeatureType,
    name: &str,
    description: &str,
    points: i32,
) -> (r: Json)
    ensures
        r@ == create_feature_json(source_id@, feature_name(featuretype), name@, description@, points),
{
    match build_create_feature(source_id, featuretype.as_str(), name, description, points) {
        Ok(j) => j,
        Err(_) => Json::Null,
    }
}

/// The live envelope that removes an advantage item from a Foundry actor.
pub fn remove_advantage_payload(source_id: &str, item_id: &str) -> (r: Json)
    ensures
        r@ == delete_item_by_id_json(source_id@, item_id@),
{
    build_delete_item_by_id(source_id, item_id)
}

// ---------------------------------------------------------------------
// Saved-copy edits of the raw blob's `items`
// ---------------------------------------------------------------------

/// The feature item a saved copy receives.
pub open spec fn feature_item_json(
    item_id: Seq<char>,
    featuretype: Seq<char>,
    name: Seq<char>,
    description: Seq<char>,
    points: i32,
) -> JsonV {
    JsonV::Object(
        seq![
            ("_id"@, JsonV::Str(item_id)),
            ("type"@, JsonV::Str("feature"@)),
            ("name"@, JsonV::Str(name)),
            ("system"@, JsonV::Object(
                seq![
                    ("featuretype"@, JsonV::Str(featuretype)),
                    ("description"@, JsonV::Str(description)),
                    ("points"@, int_view(points as int)),
                ],
            )),
            ("effects"@, JsonV::Array(Seq::empty())),
        ],
    )
}

/// A lowercase hexadecimal digit.
pub open spec fn is_lower_hex(c: char) -> bool {
    ('0' <= c && c <= '9') || ('a' <= c && c <= 'f')
}

/// The text of a random (version 4, RFC 4122 variant) UUID in hyphenated
/// lowercase form: 36 characters, hyphens at 8, 13, 18 and 23, lowercase
/// hex digits elsewhere, the version digit `4` at 14 and a variant digit
/// of `8`, `9`, `a` or `b` at 19.
pub open spec fn is_uuid_v4_text(s: Seq<char>) -> bool {
    &&& s.len() == 36
    &&& forall|i: int|
        0 <= i < 36 ==> if i == 8 || i == 13 || i == 18 || i == 23 {
            #[trigger] s[i] == '-'
        } else {
            is_lower_hex(s[i])
        }
    &&& s[14] == '4'
    &&& (s[19] == '8' || s[19] == '9' || s[19] == 'a' || s[19] == 'b')
}

/// A fresh random UUID v4 as text: the `Display` of uuid's
/// `Uuid::new_v4()`, which masks a random 128-bit number to version 4 and
/// the RFC 4122 variant and prints it lowercase and hyphenated. Which UUID
/// comes out is random and not stated.
#[verifier::external_body]
fn new_uuid_v4() -> (r: String)
    ensures
        is_uuid_v4_text(r@),
{
    uuid::Uuid::new_v4().to_string()
}

/// A fresh id for an item made locally: "local-" then a random UUID v4.
pub fn local_item_id() -> (r: String)
    ensures
        r@.len() == 42,
        r@.take(6) == "local-"@,
        is_uuid_v4_text(r@.skip(6)),
{
    let u = new_uuid_v4();
    let mut s = owned("local-");
    proof {
        reveal_strlit("local-");
    }
    append_str(&mut s, u.as_str());
    assert(s@.take(6) =~= "local-"@);
    assert(s@.skip(6) =~= u@);
    s
}

/// The saved-side check of a feature type.
pub fn check_saved_featuretype(featuretype: &str) -> (r: Result<(), String>)
    ensures
        r is Ok <==> is_feature_type(featuretype@),
        r matches Err(e) ==> e@ == "db/saved_character.add_advantage: invalid featuretype: "@ + featuretype@,
{
    match build_create_feature("", featuretype, "", "", 0) {
        Ok(_) => Ok(()),
        Err(_) => {
            let mut e = owned("db/saved_character.add_advantage: invalid featuretype: ");
            append_str(&mut e, featuretype);
            Err(e)
        },
    }
}

/// The raw blob after a feature item is appended to its `items`, which is
/// created empty when absent; refused when the blob is not an object or
/// its `items` is not an array.
pub open spec fn with_item_added(raw: JsonV, item: JsonV) -> Result<JsonV, Seq<char>> {
    match raw {
        JsonV::Object(e) => match field(e, "items"@) {
            None => Ok(JsonV::Object(set_field(e, "items"@, JsonV::Array(seq![item])))),
            Some(JsonV::Array(items)) => Ok(JsonV::Object(set_field(e, "items"@, JsonV::Array(items.push(item))))),
            Some(_) => Err("db/saved_character.add_advantage: canonical.raw.items is not an array"@),
        },
        _ => Err("db/saved_character.add_advantage: canonical.raw is not an object"@),
    }
}

/// Appends the feature item `item_id` to a saved copy's raw blob (see
/// `with_item_added`). On error the blob is left as it was.
pub fn add_feature_item(
    raw: &mut Json,
    item_id: String,
    featuretype: &str,
    name: &str,
    description: &str,
    points: i32,
) -> (r: Result<(), String>)
    ensures
        match with_item_added(old(raw)@, feature_item_json(item_id@, featuretype@, name@, description@, points)) {
            Ok(v) => r is Ok && final(raw)@ == v,
            Err(m) => (r matches Err(e) && e@ == m) && final(raw)@ == old(raw)@,
        },
{
    let ghost iid = item_id@;
    let mut sys: Vec<(String, Json)> = Vec::new();
    obj_push(&mut sys, "featuretype", Json::text(featuretype));
    obj_push(&mut sys, "description", Json::text(description));
    obj_push(&mut sys, "points", Json::from_i64(points as i64));
    let mut it: Vec<(String, Json)> = Vec::new();
    obj_push(&mut it, "_id", Json::Str(item_id));
    obj_push(&mut it, "type", Json::text("feature"));
    obj_push(&mut it, "name", Json::text(name));
    let sysj = Json::object(sys);
    assert(sysj@->Object_0 =~= seq![
        ("featuretype"@, JsonV::Str(featuretype@)),
        ("description"@, JsonV::Str(description@)),
        ("points"@, int_view(points as int)),
    ]);
    obj_push(&mut it, "system", sysj);
    let no_effects: Vec<Json> = Vec::new();
    let effects = Json::array(no_effects);
    assert(effects@->Array_0 =~= Seq::<JsonV>::empty());
    obj_push(&mut it, "effects", effects);
    let item = Json::object(it);
    let ghost iv = feature_item_json(iid, featuretype@, name@, description@, points);
    assert(item@->Object_0 =~= iv->Object_0);
    let mut taken = Json::Null;
    std::mem::swap(&mut taken, raw);
    match taken {
        Json::Object(mut entries) => {
            proof {
                lemma_object_view(entries);
            }
            let ghost ev = entries_view(entries@);
            proof {
                lemma_field_index(ev, "items"@);
            }
            match key_position(&entries, "items") {
                None => {
                    let mut one: Vec<Json> = Vec::new();
                    one.push(item);
                    let arr = Json::array(one);
                    assert(arr@->Array_0 =~= seq![iv]);
                    let ghost arrv = arr@;
                    entries.push((owned("items"), arr));
                    assert(entries_view(entries@) =~= ev.push(("items"@, arrv)));
                    *raw = Json::object(entries);
                    Ok(())
                },
                Some(k) => {
                    let pair = entries.remove(k);
                    let (key, value) = pair;
                    match value {
                        Json::Array(mut items) => {
                            proof {
                                lemma_array_view(items);
                            }
                            let ghost old_items = elems_view(items@);
                            items.push(item);
                            let arr = Json::array(items);
                            assert(arr@->Array_0 =~= old_items.push(iv));
                            let ghost arrv = arr@;
                            entries.insert(k, (key, arr));
                            assert(entries_view(entries@) =~= ev.update(k as int, ("items"@, arrv)));
                            *raw = Json::object(entries);
                            Ok(())
                        },
                        other => {
                            entries.insert(k, (key, other));
                            assert(entries_view(entries@) =~= ev);
                            *raw = Json::object(entries);
                            Err(owned("db/saved_character.add_advantage: canonical.raw.items is not an array"))
                        },
                    }
                },
            }
        },
        other => {
            *raw = other;
            Err(owned("db/saved_character.add_advantage: canonical.raw is not an object"))
        },
    }
}

/// An item is the feature `item_id` of type `featuretype`: both its `_id`
/// and its `system.featuretype` agree, so a mismatched type cannot delete
/// another kind of item that shares the id.
pub open spec fn is_feature_match(item: JsonV, featuretype: Seq<char>, item_id: Seq<char>) -> bool {
    &&& get_spec(item, "_id"@) == Some(JsonV::Str(item_id))
    &&& match get_spec(item, "system"@) {
        Some(sys) => get_spec(sys, "featuretype"@) == Some(JsonV::Str(featuretype)),
        None => false,
    }
}

/// The items other than the matching feature, in order.
pub open spec fn items_without(items: Seq<JsonV>, featuretype: Seq<char>, item_id: Seq<char>) -> Seq<JsonV>
    decreases items.len(),
{
    if items.len() == 0 {
        items
    } else if is_feature_match(items.last(), featuretype, item_id) {
        items_without(items.drop_last(), featuretype, item_id)
    } else {
        items_without(items.drop_last(), featuretype, item_id).push(items.last())
    }
}

/// The raw blob after the matching feature items are taken out of its
/// `items`; refused when the blob is not an object, when it has no
/// `items` array, and when no item matches.
pub open spec fn with_item_removed(raw: JsonV, featuretype: Seq<char>, item_id: Seq<char>) -> Result<JsonV, Seq<char>> {
    match raw {
        JsonV::Object(e) => match field(e, "items"@) {
            Some(JsonV::Array(items)) => {
                let kept = items_without(items, featuretype, item_id);
                if kept.len() == items.len() {
                    Err("db/saved_character.remove_advantage: no "@ + featuretype + " with id '"@ + item_id + "'"@)
                } else {
                    Ok(JsonV::Object(set_field(e, "items"@, JsonV::Array(kept))))
                }
            },
            _ => Err("db/saved_character.remove_advantage: no item with id '"@ + item_id + "'"@),
        },
        _ => Err("db/saved_character.remove_advantage: canonical.raw is not an object"@),
    }
}

fn text_field_is(j: &Json, key: &str, want: &str) -> (r: bool)
    ensures
        r == (get_spec(j@, key@) == Some(JsonV::Str(want@))),
{
    match j.get(key) {
        Some(v) => match v {
            Json::Str(s) => str_eq(s.as_str(), want),
            _ => false,
        },
        None => false,
    }
}

fn feature_matches(item: &Json, featuretype: &str, item_id: &str) -> (r: bool)
    ensures
        r == is_feature_match(item@, featuretype@, item_id@),
{
    if !text_field_is(item, "_id", item_id) {
        return false;
    }
    match item.get("system") {
        Some(sys) => text_field_is(sys, "featuretype", featuretype),
        None => false,
    }
}

proof fn lemma_items_without_unmatched(items: Seq<JsonV>, featuretype: Seq<char>, item_id: Seq<char>)
    requires
        forall|i: int| 0 <= i < items.len() ==> !is_feature_match(#[trigger] items[i], featuretype, item_id),
    ensures
        items_without(items, featuretype, item_id) == items,
    decreases items.len(),
{
    if items.len() > 0 {
        lemma_items_without_unmatched(items.drop_last(), featuretype, item_id);
        assert(items.drop_last().push(items.last()) =~= items);
    }
}

proof fn lemma_feature_item_matches(item_id: Seq<char>, featuretype: Seq<char>, name: Seq<char>, description: Seq<char>, points: i32)
    ensures
        is_feature_match(feature_item_json(item_id, featuretype, name, description, points), featuretype, item_id),
{
    reveal_strlit("_id");
    reveal_strlit("type");
    reveal_strlit("name");
    reveal_strlit("system");
    let e = feature_item_json(item_id, featuretype, name, description, points)->Object_0;
    assert(e[0].0 == "_id"@);
    assert(field(e, "system"@) == field(e.drop_first(), "system"@));
    assert(e.drop_first()[0].0 == "type"@);
    assert("type"@.len() != "system"@.len());
    assert(field(e.drop_first(), "system"@) == field(e.drop_first().drop_first(), "system"@));
    assert(e.drop_first().drop_first()[0].0 == "name"@);
    assert("name"@.len() != "system"@.len());
    assert(field(e.drop_first().drop_first(), "system"@) == field(e.drop_first().drop_first().drop_first(), "system"@));
}

/// Law: on a saved copy whose `items` array holds no matching feature,
/// removing a feature just added gives the blob back as it was.
pub proof fn lemma_remove_undoes_add(
    raw: JsonV,
    item_id: Seq<char>,
    featuretype: Seq<char>,
    name: Seq<char>,
    description: Seq<char>,
    points: i32,
)
    requires
        raw is Object,
        field(raw->Object_0, "items"@) matches Some(JsonV::Array(items)) && forall|i: int|
            0 <= i < items.len() ==> !is_feature_match(#[trigger] items[i], featuretype, item_id),
    ensures
        with_item_added(raw, feature_item_json(item_id, featuretype, name, description, points)) matches Ok(r2)
            && with_item_removed(r2, featuretype, item_id) == Ok::<JsonV, Seq<char>>(raw),
{
    let e = raw->Object_0;
    let item = feature_item_json(item_id, featuretype, name, description, points);
    let items = field(e, "items"@)->Some_0->Array_0;
    lemma_field_index(e, "items"@);
    let k = crate::json::key_index(e, "items"@)->Some_0;
    let grown = JsonV::Array(items.push(item));
    let e2 = set_field(e, "items"@, grown);
    assert(e2 == e.update(k, ("items"@, grown)));
    crate::json::lemma_field_of_set(e, "items"@, grown, "items"@);
    lemma_feature_item_matches(item_id, featuretype, name, description, points);
    lemma_items_without_unmatched(items, featuretype, item_id);
    assert(items.push(item).drop_last() =~= items);
    assert(items_without(items.push(item), featuretype, item_id) == items);
    lemma_field_index(e2, "items"@);
    let k2 = crate::json::key_index(e2, "items"@)->Some_0;
    assert(e2[k].0 == "items"@);
    if k2 < k {
        assert(e2[k2] == e[k2]);
        assert(e[k2].0 != "items"@);
        assert(false);
    }
    if k2 > k {
        assert(e2[k].0 != "items"@);
        assert(false);
    }
    assert(k2 == k);
    assert(set_field(e2, "items"@, JsonV::Array(items)) =~= e);
}

/// Takes the feature `item_id` of type `featuretype` out of a saved copy's
/// raw blob (see `with_item_removed`). On error the blob is left as it was.
pub fn remove_feature_item(raw: &mut Json, featuretype: &str, item_id: &str) -> (r: Result<(), String>)
    ensures
        match with_item_removed(old(raw)@, featuretype@, item_id@) {
            Ok(v) => r is Ok && final(raw)@ == v,
            Err(m) => (r matches Err(e) && e@ == m) && final(raw)@ == old(raw)@,
        },
{
    let mut taken = Json::Null;
    std::mem::swap(&mut taken, raw);
    match taken {
        Json::Object(mut entries) => {
            proof {
                lemma_object_view(entries);
            }
            let ghost ev = entries_view(entries@);
            proof {
                lemma_field_index(ev, "items"@);
            }
            let no_item = || -> (e: String)
                ensures
                    e@ == "db/saved_character.remove_advantage: no item with id '"@ + item_id@ + "'"@,
            {
                let mut e = owned("db/saved_character.remove_advantage: no item with id '");
                append_str(&mut e, item_id);
                append_str(&mut e, "'");
                e
            };
            match key_position(&entries, "items") {
                None => {
                    *raw = Json::object(entries);
                    Err(no_item())
                },
                Some(k) => {
                    let (key, value) = entries.remove(k);
                    match value {
                        Json::Array(items) => {
                            proof {
                                lemma_array_view(items);
                            }
                            let ghost iv = elems_view(items@);
                            let mut kept: Vec<Json> = Vec::new();
                            let mut i: usize = 0;
                            while i < items.len()
                                invariant
                                    i <= items@.len(),
                                    iv == elems_view(items@),
                                    elems_view(kept@) == items_without(iv.take(i as int), featuretype@, item_id@),
                                decreases items.len() - i,
                            {
                                assert(iv.take(i + 1).drop_last() =~= iv.take(i as int));
                                assert(iv.take(i + 1).last() == items@[i as int]@);
                                if !feature_matches(&items[i], featuretype, item_id) {
                                    let c = items[i].deep_copy();
                                    kept.push(c);
                                    assert(elems_view(kept@) =~= items_without(iv.take(i as int), featuretype@, item_id@).push(c@));
                                }
                                i += 1;
                            }
                            assert(iv.take(items@.len() as int) =~= iv);
                            if kept.len() == items.len() {
                                let arr = Json::Array(items);
                                entries.insert(k, (key, arr));
                                assert(entries_view(entries@) =~= ev);
                                *raw = Json::object(entries);
                                let mut e = owned("db/saved_character.remove_advantage: no ");
                                append_str(&mut e, featuretype);
                                append_str(&mut e, " with id '");
                                append_str(&mut e, item_id);
                                append_str(&mut e, "'");
                                Err(e)
                            } else {
                                let arr = Json::array(kept);
                                let ghost arrv = arr@;
                                entries.insert(k, (key, arr));
                                assert(entries_view(entries@) =~= ev.update(k as int, ("items"@, arrv)));
                                *raw = Json::object(entries);
                                Ok(())
                            }
                        },
                        other => {
                            entries.insert(k, (key, other));
                            assert(entries_view(entries@) =~= ev);
                            *raw = Json::object(entries);
                            Err(no_item())
                        },
                    }
                },
            }
        },
        other => {
            *raw = other;
            Err(owned("db/saved_character.remove_advantage: canonical.raw is not an object"))
        },
    }
}

} // verus!
