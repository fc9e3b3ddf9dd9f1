//! GM screen: pushing a card's pool effects to the bound merit's
//! `system.bonuses` on the live Foundry actor. Our bonuses carry a source
//! tag naming the modifier, so a re-push replaces exactly the bonuses this
//! modifier pushed before and leaves every other bonus alone.

use vstd::prelude::*;
use crate::json::{Json, JsonV, elems_view, entries_view, get_spec, int_view, lemma_array_view, obj_push};
use crate::text::{append_str, chars_vec, has_prefix, i64_decimal, owned, signed_decimal, starts_with, str_eq};
use crate::bridge::types::{CanonicalCharacter, CanonicalCharacterV, SourceKind};
use crate::bridge::foundry_actions::{build_update_item_field, update_item_field_json};
use crate::modifier::{CharacterModifier, ModifierBinding, ModifierEffect, ModifierKind};

verus! {

/// An effect that was not pushed, and why.
#[derive(Debug, Clone, PartialEq, Eq)]
pub struct SkippedEffect {
    pub effect_index: usize,
    pub reason: String,
}

/// What a push did: how many bonuses it sent and which effects it skipped.
#[derive(Debug, Clone, PartialEq, Eq)]
pub struct PushReport {
    pub pushed: usize,
    pub skipped: Vec<SkippedEffect>,
}

/// The envelope to send and the report to give back.
#[derive(Debug)]
pub struct PushPlan {
    pub payload: Json,
    pub report: PushReport,
}

/// "GM Screen #<id>": the part of a source tag that names the modifier.
pub open spec fn tag_prefix(id: i64) -> Seq<char> {
    "GM Screen #"@ + signed_decimal(id as int)
}

/// The source tag of a bonus pushed by modifier `id` named `name`.
pub open spec fn source_tag_spec(id: i64, name: Seq<char>) -> Seq<char> {
    tag_prefix(id) + ": "@ + name
}

/// A bonus source pushed by modifier `id`: the tag prefix followed by
/// nothing or by `:` (so modifier 5 does not claim modifier 50's bonuses).
pub open spec fn ours_source(s: Seq<char>, id: i64) -> bool {
    let p = tag_prefix(id);
    starts_with(s, p) && (s.len() == p.len() || s[p.len() as int] == ':')
}

/// A bonus whose `source` is a string pushed by modifier `id`.
pub open spec fn is_ours_spec(bonus: JsonV, id: i64) -> bool {
    match get_spec(bonus, "source"@) {
        Some(JsonV::Str(s)) => ours_source(s, id),
        _ => false,
    }
}

fn tag_prefix_exec(id: i64) -> (r: String)
    ensures
        r@ == tag_prefix(id),
{
    let mut s = owned("GM Screen #");
    let d = i64_decimal(id);
    append_str(&mut s, d.as_str());
    s
}

/// Builds the source tag "GM Screen #<id>: <name>".
pub fn source_tag(modifier_id: i64, modifier_name: &str) -> (r: String)
    ensures
        r@ == source_tag_spec(modifier_id, modifier_name@),
{
    let mut s = tag_prefix_exec(modifier_id);
    append_str(&mut s, ": ");
    append_str(&mut s, modifier_name);
    s
}

/// True iff the bonus was pushed by modifier `modifier_id`.
pub fn is_ours(bonus: &Json, modifier_id: i64) -> (r: bool)
    ensures
        r == is_ours_spec(bonus@, modifier_id),
{
    let src = match bonus.get("source") {
        Some(v) => match v.as_str() {
            Some(s) => s,
            None => {
                return false;
            },
        },
        None => {
            return false;
        },
    };
    let prefix = tag_prefix_exec(modifier_id);
    if !has_prefix(src, prefix.as_str()) {
        return false;
    }
    let sv = chars_vec(src);
    let n = prefix.as_str().unicode_len();
    if sv.len() == n {
        true
    } else {
        sv[n] == ':'
    }
}

/// The paths of a pushed bonus: the effect's paths, or `[""]` when it has
/// none.
pub open spec fn bonus_paths(paths: Seq<String>) -> JsonV {
    if paths.len() == 0 {
        JsonV::Array(seq![JsonV::Str(""@)])
    } else {
        JsonV::Array(Seq::new(paths.len(), |i: int| JsonV::Str(paths[i]@)))
    }
}

pub open spec fn always_active_json() -> JsonV {
    JsonV::Object(seq![("check"@, JsonV::Str("always"@)), ("path"@, JsonV::Str(""@)), ("value"@, JsonV::Str(""@))])
}

/// The Foundry bonus for a pool effect of modifier `id` named `name`.
pub open spec fn effect_bonus(e: ModifierEffect, id: i64, name: Seq<char>) -> JsonV {
    JsonV::Object(
        seq![
            ("source"@, JsonV::Str(source_tag_spec(id, name))),
            ("value"@, int_view(match e.delta {
                Some(d) => d as int,
                None => 0,
            })),
            ("paths"@, bonus_paths(e.paths@)),
            ("activeWhen"@, always_active_json()),
            ("displayWhenInactive"@, JsonV::Bool(true)),
            ("unless"@, JsonV::Str(""@)),
        ],
    )
}

/// `v` is the JSON integer `n`.
pub open spec fn is_json_int(v: JsonV, n: int) -> bool {
    ||| (n >= 0 && v == JsonV::PosInt(n as nat))
    ||| (n < 0 && v == JsonV::NegInt(n))
}

/// Law: a pushed bonus's "value" is the effect's delta exactly, negative
/// deltas (penalties) included, and 0 when the effect has no delta.
pub proof fn lemma_bonus_value_is_delta(e: ModifierEffect, id: i64, name: Seq<char>)
    ensures
        get_spec(effect_bonus(e, id, name), "value"@) matches Some(v) && (match e.delta {
            Some(d) => is_json_int(v, d as int),
            None => is_json_int(v, 0),
        }),
{
    reveal_strlit("source");
    reveal_strlit("value");
    let ent = effect_bonus(e, id, name)->Object_0;
    assert(ent[0].0 == "source"@);
    assert("source"@.len() == 6 && "value"@.len() == 5);
    assert(ent[0].0 != "value"@);
    assert(ent.drop_first()[0] == ent[1]);
    assert(ent.drop_first()[0].0 == "value"@);
    assert(crate::json::field(ent.drop_first(), "value"@) == Some(ent[1].1));
    assert(crate::json::field(ent, "value"@) == Some(ent[1].1));
}

/// Translates one effect to a Foundry bonus; only pool effects have one.
pub fn effect_to_bonus(effect: &ModifierEffect, modifier_id: i64, modifier_name: &str) -> (r: Option<Json>)
    ensures
        r is Some <==> effect.kind == ModifierKind::Pool,
        r matches Some(b) ==> b@ == effect_bonus(*effect, modifier_id, modifier_name@),
{
    if effect.kind != ModifierKind::Pool {
        return None;
    }
    let value: i32 = match effect.delta {
        Some(d) => d,
        None => 0,
    };
    let paths = if effect.paths.len() == 0 {
        let mut v: Vec<Json> = Vec::new();
        v.push(Json::text(""));
        let j = Json::array(v);
        assert(j@->Array_0 =~= seq![JsonV::Str(""@)]);
        j
    } else {
        let j = Json::string_array(&effect.paths);
        assert(j@->Array_0 =~= bonus_paths(effect.paths@)->Array_0);
        j
    };
    let mut aw: Vec<(String, Json)> = Vec::new();
    obj_push(&mut aw, "check", Json::text("always"));
    obj_push(&mut aw, "path", Json::text(""));
    obj_push(&mut aw, "value", Json::text(""));
    assert(entries_view(aw@) =~= always_active_json()->Object_0);
    let tag = source_tag(modifier_id, modifier_name);
    let mut o: Vec<(String, Json)> = Vec::new();
    obj_push(&mut o, "source", Json::Str(tag));
    obj_push(&mut o, "value", Json::from_i64(value as i64));
    obj_push(&mut o, "paths", paths);
    obj_push(&mut o, "activeWhen", Json::object(aw));
    obj_push(&mut o, "displayWhenInactive", Json::Bool(true));
    obj_push(&mut o, "unless", Json::text(""));
    assert(entries_view(o@) =~= effect_bonus(*effect, modifier_id, modifier_name@)->Object_0);
    Some(Json::object(o))
}

/// The bonuses of `b` that modifier `id` did not push, in order.
pub open spec fn kept_bonuses(b: Seq<JsonV>, id: i64) -> Seq<JsonV>
    decreases b.len(),
{
    if b.len() == 0 {
        b
    } else if is_ours_spec(b.last(), id) {
        kept_bonuses(b.drop_last(), id)
    } else {
        kept_bonuses(b.drop_last(), id).push(b.last())
    }
}

/// The bonuses after a push: every bonus not pushed by modifier `id`, then
/// the new ones.
pub open spec fn merged_bonuses(existing: Seq<JsonV>, id: i64, ours: Seq<JsonV>) -> Seq<JsonV> {
    kept_bonuses(existing, id) + ours
}

/// Drops the bonuses modifier `modifier_id` pushed before, then appends
/// `ours`. Player-added bonuses and other modifiers' bonuses are kept.
pub fn merge_bonuses(existing: &Vec<Json>, modifier_id: i64, ours: Vec<Json>) -> (r: Vec<Json>)
    ensures
        elems_view(r@) == merged_bonuses(elems_view(existing@), modifier_id, elems_view(ours@)),
{
    let ghost ev = elems_view(existing@);
    let mut out: Vec<Json> = Vec::new();
    let mut i: usize = 0;
    while i < existing.len()
        invariant
            i <= existing@.len(),
            ev == elems_view(existing@),
            elems_view(out@) == kept_bonuses(ev.take(i as int), modifier_id),
        decreases existing.len() - i,
    {
        assert(ev.take(i + 1).drop_last() =~= ev.take(i as int));
        assert(ev.take(i + 1).last() == existing@[i as int]@);
        if !is_ours(&existing[i], modifier_id) {
            let c = existing[i].deep_copy();
            out.push(c);
            assert(elems_view(out@) =~= kept_bonuses(ev.take(i as int), modifier_id).push(c@));
        }
        i += 1;
    }
    assert(ev.take(existing@.len() as int) =~= ev);
    let ghost kept = elems_view(out@);
    let mut ours = ours;
    let ghost ov = elems_view(ours@);
    out.append(&mut ours);
    assert(elems_view(out@) =~= kept + ov);
    out
}

proof fn lemma_kept_concat(a: Seq<JsonV>, b: Seq<JsonV>, id: i64)
    ensures
        kept_bonuses(a + b, id) == kept_bonuses(a, id) + kept_bonuses(b, id),
    decreases b.len(),
{
    if b.len() == 0 {
        assert(a + b =~= a);
        assert(kept_bonuses(a, id) + kept_bonuses(b, id) =~= kept_bonuses(a, id));
    } else {
        lemma_kept_concat(a, b.drop_last(), id);
        assert((a + b).drop_last() =~= a + b.drop_last());
        assert((a + b).last() == b.last());
        if !is_ours_spec(b.last(), id) {
            assert(kept_bonuses(a, id) + kept_bonuses(b.drop_last(), id).push(b.last()) =~= (
            kept_bonuses(a, id) + kept_bonuses(b.drop_last(), id)).push(b.last()));
        }
    }
}

proof fn lemma_kept_members(b: Seq<JsonV>, id: i64)
    ensures
        forall|i: int| 0 <= i < kept_bonuses(b, id).len() ==> !is_ours_spec(#[trigger] kept_bonuses(b, id)[i], id),
    decreases b.len(),
{
    if b.len() > 0 {
        let d = b.drop_last();
        lemma_kept_members(d, id);
        let kd = kept_bonuses(d, id);
        if !is_ours_spec(b.last(), id) {
            assert forall|i: int| 0 <= i < kd.push(b.last()).len() implies !is_ours_spec(
                #[trigger] kd.push(b.last())[i],
                id,
            ) by {
                if i < kd.len() {
                    assert(kd.push(b.last())[i] == kd[i]);
                }
            }
        }
    }
}

proof fn lemma_kept_of_foreign(b: Seq<JsonV>, id: i64)
    requires
        forall|i: int| 0 <= i < b.len() ==> !is_ours_spec(#[trigger] b[i], id),
    ensures
        kept_bonuses(b, id) == b,
    decreases b.len(),
{
    if b.len() > 0 {
        lemma_kept_of_foreign(b.drop_last(), id);
        assert(b.drop_last().push(b.last()) =~= b);
    }
}

proof fn lemma_kept_of_ours(b: Seq<JsonV>, id: i64)
    requires
        forall|i: int| 0 <= i < b.len() ==> is_ours_spec(#[trigger] b[i], id),
    ensures
        kept_bonuses(b, id) == Seq::<JsonV>::empty(),
    decreases b.len(),
{
    if b.len() > 0 {
        lemma_kept_of_ours(b.drop_last(), id);
    }
}

/// Law: pushing again replaces what the previous push of the same modifier
/// left; when the first push sent only bonuses tagged with the modifier's
/// source tag, pushing `second` after `first` gives what pushing `second`
/// alone gives. In particular, re-pushing the same bonuses changes nothing.
pub proof fn lemma_merge_repush(existing: Seq<JsonV>, id: i64, first: Seq<JsonV>, second: Seq<JsonV>)
    requires
        forall|i: int| 0 <= i < first.len() ==> is_ours_spec(#[trigger] first[i], id),
    ensures
        merged_bonuses(merged_bonuses(existing, id, first), id, second) == merged_bonuses(existing, id, second),
{
    lemma_kept_concat(kept_bonuses(existing, id), first, id);
    lemma_kept_members(existing, id);
    lemma_kept_of_foreign(kept_bonuses(existing, id), id);
    lemma_kept_of_ours(first, id);
    assert(kept_bonuses(existing, id) + Seq::<JsonV>::empty() =~= kept_bonuses(existing, id));
}

/// Law: a bonus this modifier did not push survives a push.
pub proof fn lemma_merge_keeps_foreign(existing: Seq<JsonV>, id: i64, ours: Seq<JsonV>, k: int)
    requires
        0 <= k < existing.len(),
        !is_ours_spec(existing[k], id),
    ensures
        merged_bonuses(existing, id, ours).contains(existing[k]),
    decreases existing.len(),
{
    let d = existing.drop_last();
    if k == existing.len() - 1 {
        let kb = kept_bonuses(existing, id);
        assert(kb[kb.len() - 1] == existing[k]);
        assert((kb + ours)[kb.len() - 1] == existing[k]);
    } else {
        assert(d[k] == existing[k]);
        lemma_merge_keeps_foreign(d, id, ours, k);
        let kd = kept_bonuses(d, id);
        let j = choose|j: int| 0 <= j < (kd + ours).len() && (kd + ours)[j] == existing[k];
        if j < kd.len() {
            assert(kd[j] == existing[k]);
            if is_ours_spec(existing.last(), id) {
                assert((kept_bonuses(existing, id) + ours)[j] == existing[k]);
            } else {
                assert(kept_bonuses(existing, id)[j] == kd[j]);
                assert((kept_bonuses(existing, id) + ours)[j] == existing[k]);
            }
        } else {
            lemma_kept_members(d, id);
            assert(ours[j - kd.len()] == existing[k]);
            let kb = kept_bonuses(existing, id);
            assert((kb + ours)[kb.len() + (j - kd.len())] == existing[k]);
        }
    }
}

/// Why an effect kind has no Foundry bonus.
pub open spec fn skip_reason(k: ModifierKind) -> Seq<char> {
    match k {
        ModifierKind::Difficulty => "difficulty: no Foundry bonus equivalent"@,
        ModifierKind::Note => "note: descriptive only"@,
        ModifierKind::Stat => "stat: render-time card delta only, no Foundry bonus"@,
        ModifierKind::Pool => Seq::empty(),
    }
}

/// The bonuses of the first `n` effects, in order.
pub open spec fn bonuses_upto(effects: Seq<ModifierEffect>, n: nat, id: i64, name: Seq<char>) -> Seq<JsonV>
    decreases n,
{
    if n == 0 {
        Seq::empty()
    } else {
        let prev = bonuses_upto(effects, (n - 1) as nat, id, name);
        if effects[n - 1].kind == ModifierKind::Pool {
            prev.push(effect_bonus(effects[n - 1], id, name))
        } else {
            prev
        }
    }
}

/// The skipped effects among the first `n`, as (index, reason), in order.
pub open spec fn skipped_upto(effects: Seq<ModifierEffect>, n: nat) -> Seq<(nat, Seq<char>)>
    decreases n,
{
    if n == 0 {
        Seq::empty()
    } else {
        let prev = skipped_upto(effects, (n - 1) as nat);
        if effects[n - 1].kind == ModifierKind::Pool {
            prev
        } else {
            prev.push(((n - 1) as nat, skip_reason(effects[n - 1].kind)))
        }
    }
}

pub open spec fn skipped_view(v: Seq<SkippedEffect>) -> Seq<(nat, Seq<char>)> {
    Seq::new(v.len(), |i: int| (v[i].effect_index as nat, v[i].reason@))
}

fn skip_reason_exec(k: ModifierKind) -> (r: String)
    requires
        k != ModifierKind::Pool,
    ensures
        r@ == skip_reason(k),
{
    match k {
        ModifierKind::Difficulty => owned("difficulty: no Foundry bonus equivalent"),
        ModifierKind::Note => owned("note: descriptive only"),
        _ => owned("stat: render-time card delta only, no Foundry bonus"),
    }
}

/// Translates every effect of a modifier: the bonuses of its pool effects,
/// and the other effects reported as skipped with their reasons.
pub fn translate_effects(m: &CharacterModifier) -> (r: (Vec<Json>, Vec<SkippedEffect>))
    ensures
        elems_view(r.0@) == bonuses_upto(m.effects@, m.effects@.len(), m.id, m.name@),
        skipped_view(r.1@) == skipped_upto(m.effects@, m.effects@.len()),
{
    let mut bonuses: Vec<Json> = Vec::new();
    let mut skipped: Vec<SkippedEffect> = Vec::new();
    let mut i: usize = 0;
    while i < m.effects.len()
        invariant
            i <= m.effects@.len(),
            elems_view(bonuses@) == bonuses_upto(m.effects@, i as nat, m.id, m.name@),
            skipped_view(skipped@) == skipped_upto(m.effects@, i as nat),
        decreases m.effects.len() - i,
    {
        match effect_to_bonus(&m.effects[i], m.id, m.name.as_str()) {
            Some(b) => {
                let ghost bv = b@;
                bonuses.push(b);
                assert(elems_view(bonuses@) =~= bonuses_upto(m.effects@, i as nat, m.id, m.name@).push(bv));
            },
            None => {
                let reason = skip_reason_exec(m.effects[i].kind);
                skipped.push(SkippedEffect { effect_index: i, reason });
                assert(skipped_view(skipped@) =~= skipped_upto(m.effects@, i as nat).push(
                    (i as nat, skip_reason(m.effects@[i as int].kind)),
                ));
            },
        }
        i += 1;
    }
    (bonuses, skipped)
}

/// The items of an actor blob, when it has an `items` array.
pub open spec fn items_of(raw: JsonV) -> Option<Seq<JsonV>> {
    match get_spec(raw, "items"@) {
        Some(JsonV::Array(items)) => Some(items),
        _ => None,
    }
}

/// The first item whose `_id` is `item_id`.
pub open spec fn find_item(items: Seq<JsonV>, item_id: Seq<char>) -> Option<JsonV>
    decreases items.len(),
{
    if items.len() == 0 {
        None
    } else if get_spec(items[0], "_id"@) == Some(JsonV::Str(item_id)) {
        Some(items[0])
    } else {
        find_item(items.drop_first(), item_id)
    }
}

/// The bonuses an item carries under `system.bonuses`, or none.
pub open spec fn item_bonuses(item: JsonV) -> Seq<JsonV> {
    match get_spec(item, "system"@) {
        Some(sys) => match get_spec(sys, "bonuses"@) {
            Some(JsonV::Array(b)) => b,
            _ => Seq::empty(),
        },
        None => Seq::empty(),
    }
}

pub open spec fn not_foundry_msg(id: i64) -> Seq<char> {
    "gm_screen/push: modifier "@ + signed_decimal(id as int) + " is not a Foundry-source modifier (source=Roll20)"@
}

pub open spec fn free_binding_msg(id: i64) -> Seq<char> {
    "gm_screen/push: modifier "@ + signed_decimal(id as int)
        + " has free binding; only advantage-bound modifiers can push"@
}

pub open spec fn not_cached_msg(source_id: Seq<char>) -> Seq<char> {
    "gm_screen/push: actor "@ + source_id + " not in bridge cache (is Foundry connected?)"@
}

pub open spec fn no_items_msg(source_id: Seq<char>) -> Seq<char> {
    "gm_screen/push: actor "@ + source_id + " raw has no items[] array"@
}

pub open spec fn item_missing_msg(item_id: Seq<char>, source_id: Seq<char>) -> Seq<char> {
    "gm_screen/push: item "@ + item_id + " not found on actor "@ + source_id + " (was the merit deleted?)"@
}

/// What a push sends, or why it is refused: the modifier must come from
/// Foundry and be bound to an advantage, the actor must be cached with an
/// `items` array holding the bound item; the envelope then writes the
/// merged bonuses to that item's `system.bonuses`.
pub open spec fn push_payload(m: CharacterModifier, actor: Option<CanonicalCharacterV>) -> Result<JsonV, Seq<char>> {
    if m.source != SourceKind::Foundry {
        Err(not_foundry_msg(m.id))
    } else {
        match m.binding {
            ModifierBinding::Free => Err(free_binding_msg(m.id)),
            ModifierBinding::Advantage { item_id } => match actor {
                None => Err(not_cached_msg(m.source_id@)),
                Some(a) => match items_of(a.raw) {
                    None => Err(no_items_msg(m.source_id@)),
                    Some(items) => match find_item(items, item_id@) {
                        None => Err(item_missing_msg(item_id@, m.source_id@)),
                        Some(item) => Ok(
                            update_item_field_json(
                                m.source_id@,
                                item_id@,
                                "system.bonuses"@,
                                JsonV::Array(
                                    merged_bonuses(
                                        item_bonuses(item),
                                        m.id,
                                        bonuses_upto(m.effects@, m.effects@.len(), m.id, m.name@),
                                    ),
                                ),
                            ),
                        ),
                    },
                },
            },
        }
    }
}

fn msg2(a: &str, b: &str, c: &str) -> (r: String)
    ensures
        r@ == a@ + b@ + c@,
{
    let mut s = owned(a);
    append_str(&mut s, b);
    append_str(&mut s, c);
    s
}

fn find_item_exec<'a>(items: &'a Vec<Json>, item_id: &str) -> (r: Option<&'a Json>)
    ensures
        r is Some <==> find_item(elems_view(items@), item_id@) is Some,
        r matches Some(it) ==> Some(it@) == find_item(elems_view(items@), item_id@),
{
    let ghost ev = elems_view(items@);
    let mut i: usize = 0;
    assert(ev.skip(0) =~= ev);
    while i < items.len()
        invariant
            i <= items@.len(),
            ev == elems_view(items@),
            find_item(ev, item_id@) == find_item(ev.skip(i as int), item_id@),
        decreases items.len() - i,
    {
        assert(ev.skip(i as int)[0] == items@[i as int]@);
        let hit = match items[i].get("_id") {
            Some(v) => match v.as_str() {
                Some(s) => str_eq(s, item_id),
                None => false,
            },
            None => false,
        };
        if hit {
            return Some(&items[i]);
        }
        assert(ev.skip(i as int).drop_first() =~= ev.skip(i + 1));
        i += 1;
    }
    None
}

/// Plans the push of modifier `m` to the cached actor `actor` (see
/// `push_payload`), with the report of what was pushed and skipped.
pub fn plan_push(m: &CharacterModifier, actor: Option<&CanonicalCharacter>) -> (r: Result<PushPlan, String>)
    ensures
        r is Ok <==> push_payload(*m, match actor {
            Some(a) => Some(a@),
            None => None,
        }) is Ok,
        r matches Ok(p) ==> Ok::<JsonV, Seq<char>>(p.payload@) == push_payload(*m, match actor {
            Some(a) => Some(a@),
            None => None,
        }) && p.report.pushed == bonuses_upto(m.effects@, m.effects@.len(), m.id, m.name@).len()
            && skipped_view(p.report.skipped@) == skipped_upto(m.effects@, m.effects@.len()),
        r matches Err(e) ==> Err::<JsonV, Seq<char>>(e@) == push_payload(*m, match actor {
            Some(a) => Some(a@),
            None => None,
        }),
{
    let ghost av = match actor {
        Some(a) => Some(a@),
        None => None,
    };
    if m.source != SourceKind::Foundry {
        let id = i64_decimal(m.id);
        return Err(msg2("gm_screen/push: modifier ", id.as_str(), " is not a Foundry-source modifier (source=Roll20)"));
    }
    let item_id: &String = match &m.binding {
        ModifierBinding::Advantage { item_id } => item_id,
        ModifierBinding::Free => {
            let id = i64_decimal(m.id);
            return Err(msg2("gm_screen/push: modifier ", id.as_str(), " has free binding; only advantage-bound modifiers can push"));
        },
    };
    let (bonuses, skipped) = translate_effects(m);
    let a = match actor {
        Some(a) => a,
        None => {
            return Err(msg2("gm_screen/push: actor ", m.source_id.as_str(), " not in bridge cache (is Foundry connected?)"));
        },
    };
    let items: &Vec<Json> = match a.raw.get("items") {
        Some(j) => match j {
            Json::Array(v) => {
                proof {
                    lemma_array_view(*v);
                }
                v
            },
            _ => {
                return Err(msg2("gm_screen/push: actor ", m.source_id.as_str(), " raw has no items[] array"));
            },
        },
        None => {
            return Err(msg2("gm_screen/push: actor ", m.source_id.as_str(), " raw has no items[] array"));
        },
    };
    let item = match find_item_exec(items, item_id.as_str()) {
        Some(it) => it,
        None => {
            let mut e = msg2("gm_screen/push: item ", item_id.as_str(), " not found on actor ");
            append_str(&mut e, m.source_id.as_str());
            append_str(&mut e, " (was the merit deleted?)");
            return Err(e);
        },
    };
    let empty: Vec<Json> = Vec::new();
    let existing: &Vec<Json> = match item.get("system") {
        Some(sys) => match sys.get("bonuses") {
            Some(b) => match b {
                Json::Array(v) => {
                    proof {
                        lemma_array_view(*v);
                    }
                    v
                },
                _ => &empty,
            },
            None => &empty,
        },
        None => &empty,
    };
    assert(elems_view(empty@) =~= Seq::<JsonV>::empty());
    let pushed = bonuses.len();
    let merged = merge_bonuses(existing, m.id, bonuses);
    let value = Json::array(merged);
    let payload = build_update_item_field(m.source_id.as_str(), item_id.as_str(), "system.bonuses", value);
    Ok(PushPlan { payload, report: PushReport { pushed, skipped } })
}

/// Refuses a push while Foundry is not connected: a cached actor can
/// outlive its connection, and a send to a closed source is silently
/// dropped.
pub fn push_gate(connected: bool) -> (r: Result<(), String>)
    ensures
        r is Ok <==> connected,
        r matches Err(e) ==> e@ == "gm_screen/push: Foundry is not connected"@,
{
    if connected {
        Ok(())
    } else {
        Err(owned("gm_screen/push: Foundry is not connected"))
    }
}

/// The error for a modifier that could not be loaded.
pub fn load_failed(modifier_id: i64, reason: &str) -> (r: String)
    ensures
        r@ == "gm_screen/push: load modifier "@ + signed_decimal(modifier_id as int) + ": "@ + reason@,
{
    let id = i64_decimal(modifier_id);
    let mut e = msg2("gm_screen/push: load modifier ", id.as_str(), ": ");
    append_str(&mut e, reason);
    e
}

/// The error for an envelope the bridge could not send.
pub fn send_failed(reason: &str) -> (r: String)
    ensures
        r@ == "gm_screen/push: bridge send failed: "@ + reason@,
{
    let mut e = owned("gm_screen/push: bridge send failed: ");
    append_str(&mut e, reason);
    e
}

} // verus!
