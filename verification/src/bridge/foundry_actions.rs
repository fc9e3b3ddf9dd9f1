//! Outbound envelopes for the Foundry module: `actor.*` writes, `game.*`
//! rolls and chat, `bridge.*` subscriptions and `storyteller.*` world
//! items. Each builder's result is stated as a JSON view.

use vstd::prelude::*;
use crate::json::{Json, JsonV, entries_view, obj_push, int_view};
use crate::text::{append_str, is_blank, is_blank_spec, is_one_of, owned, push_char};
use crate::bridge::foundry::{ApplyDyscrasiaPayload, PostChatAsActorInput, RollV5PoolInput};

verus! {

/// The feature types an advantage item can have.
pub const FEATURE_TYPES: [&'static str; 4] = ["merit", "flaw", "background", "boon"];

/// The roll modes a chat message can be posted with.
pub const VALID_ROLL_MODES: [&'static str; 4] = ["roll", "gmroll", "blindroll", "selfroll"];

/// One of "merit", "flaw", "background", "boon".
pub open spec fn is_feature_type(s: Seq<char>) -> bool {
    s == "merit"@ || s == "flaw"@ || s == "background"@ || s == "boon"@
}

pub open spec fn is_roll_mode(s: Seq<char>) -> bool {
    s == "roll"@ || s == "gmroll"@ || s == "blindroll"@ || s == "selfroll"@
}

pub open spec fn jstr(s: Seq<char>) -> JsonV {
    JsonV::Str(s)
}

/// An optional string as JSON: the string or `null`.
pub open spec fn opt_str_json(o: Option<Seq<char>>) -> JsonV {
    match o {
        Some(s) => JsonV::Str(s),
        None => JsonV::Null,
    }
}

/// An array of strings as JSON.
pub open spec fn str_array_json(v: Seq<String>) -> JsonV {
    JsonV::Array(Seq::new(v.len(), |i: int| JsonV::Str(v[i]@)))
}

fn opt_text(o: &Option<String>) -> (r: Json)
    ensures
        r@ == opt_str_json(match o {
            Some(s) => Some(s@),
            None => None,
        }),
{
    match o {
        Some(s) => Json::text(s.as_str()),
        None => Json::Null,
    }
}

fn feature_type_ok(s: &str) -> (r: bool)
    ensures
        r == is_feature_type(s@),
{
    let ok = is_one_of(s, &FEATURE_TYPES);
    proof {
        if ok {
            let i = choose|i: int| 0 <= i < 4 && FEATURE_TYPES@[i]@ == s@;
            assert(i == 0 || i == 1 || i == 2 || i == 3);
        } else {
            assert(FEATURE_TYPES@[0]@ != s@);
            assert(FEATURE_TYPES@[1]@ != s@);
            assert(FEATURE_TYPES@[2]@ != s@);
            assert(FEATURE_TYPES@[3]@ != s@);
        }
    }
    ok
}

// ---------------------------------------------------------------------
// actor.*
// ---------------------------------------------------------------------

pub open spec fn update_field_json(actor_id: Seq<char>, path: Seq<char>, value: JsonV) -> JsonV {
    JsonV::Object(
        seq![
            ("type"@, jstr("actor.update_field"@)),
            ("actor_id"@, jstr(actor_id)),
            ("path"@, jstr(path)),
            ("value"@, value),
        ],
    )
}

/// `actor.update_field`: writes `value` at the dot-path `path` of an actor.
pub fn build_update_field(actor_id: &str, path: &str, value: Json) -> (r: Json)
    ensures
        r@ == update_field_json(actor_id@, path@, value@),
{
    let ghost v = value@;
    let mut o: Vec<(String, Json)> = Vec::new();
    obj_push(&mut o, "type", Json::text("actor.update_field"));
    obj_push(&mut o, "actor_id", Json::text(actor_id));
    obj_push(&mut o, "path", Json::text(path));
    obj_push(&mut o, "value", value);
    assert(entries_view(o@) =~= update_field_json(actor_id@, path@, v)->Object_0);
    Json::object(o)
}

pub open spec fn create_item_simple_json(actor_id: Seq<char>, item_type: Seq<char>, item_name: Seq<char>) -> JsonV {
    JsonV::Object(
        seq![
            ("type"@, jstr("actor.create_item_simple"@)),
            ("actor_id"@, jstr(actor_id)),
            ("item_type"@, jstr(item_type)),
            ("item_name"@, jstr(item_name)),
            ("replace_existing"@, JsonV::Bool(true)),
        ],
    )
}

/// `actor.create_item_simple`: creates an item by type and name, replacing
/// any existing item of that type.
pub fn build_create_item_simple(actor_id: &str, item_type: &str, item_name: &str) -> (r: Json)
    ensures
        r@ == create_item_simple_json(actor_id@, item_type@, item_name@),
{
    let mut o: Vec<(String, Json)> = Vec::new();
    obj_push(&mut o, "type", Json::text("actor.create_item_simple"));
    obj_push(&mut o, "actor_id", Json::text(actor_id));
    obj_push(&mut o, "item_type", Json::text(item_type));
    obj_push(&mut o, "item_name", Json::text(item_name));
    obj_push(&mut o, "replace_existing", Json::Bool(true));
    assert(entries_view(o@) =~= create_item_simple_json(actor_id@, item_type@, item_name@)->Object_0);
    Json::object(o)
}

/// The HTML escape of one character.
pub open spec fn escape_char(c: char) -> Seq<char> {
    if c == '&' {
        "&amp;"@
    } else if c == '<' {
        "&lt;"@
    } else if c == '>' {
        "&gt;"@
    } else if c == '"' {
        "&quot;"@
    } else if c == '\'' {
        "&#39;"@
    } else {
        seq![c]
    }
}

/// Text with `&`, `<`, `>`, `"` and `'` replaced by their HTML entities.
pub open spec fn html_escaped(s: Seq<char>) -> Seq<char>
    decreases s.len(),
{
    if s.len() == 0 {
        s
    } else {
        html_escaped(s.drop_last()) + escape_char(s.last())
    }
}

fn escape_one(out: &mut String, c: char)
    ensures
        final(out)@ == old(out)@ + escape_char(c),
{
    if c == '&' {
        append_str(out, "&amp;");
    } else if c == '<' {
        append_str(out, "&lt;");
    } else if c == '>' {
        append_str(out, "&gt;");
    } else if c == '"' {
        append_str(out, "&quot;");
    } else if c == '\'' {
        append_str(out, "&#39;");
    } else {
        push_char(out, c);
        assert(old(out)@.push(c) =~= old(out)@ + seq![c]);
    }
}

/// HTML-escapes text for a merit description.
pub fn html_escape(s: &str) -> (r: String)
    ensures
        r@ == html_escaped(s@),
{
    let v = crate::text::chars_vec(s);
    let mut out = String::new();
    let mut i: usize = 0;
    while i < v.len()
        invariant
            i <= v@.len(),
            v@ == s@,
            out@ == html_escaped(v@.take(i as int)),
        decreases v.len() - i,
    {
        escape_one(&mut out, v[i]);
        assert(v@.take(i + 1).drop_last() =~= v@.take(i as int));
        i += 1;
    }
    assert(v@.take(v@.len() as int) =~= v@);
    out
}

/// Law: escaped text holds none of `<`, `>`, `"`, `'`.
pub proof fn lemma_escaped_has_no_markup(s: Seq<char>)
    ensures
        forall|i: int|
            0 <= i < html_escaped(s).len() ==> {
                let c = #[trigger] html_escaped(s)[i];
                c != '<' && c != '>' && c != '"' && c != '\''
            },
    decreases s.len(),
{
    reveal_strlit("&amp;");
    reveal_strlit("&lt;");
    reveal_strlit("&gt;");
    reveal_strlit("&quot;");
    reveal_strlit("&#39;");
    if s.len() > 0 {
        lemma_escaped_has_no_markup(s.drop_last());
        let a = html_escaped(s.drop_last());
        let b = escape_char(s.last());
        assert forall|i: int| 0 <= i < (a + b).len() implies {
            let c = #[trigger] (a + b)[i];
            c != '<' && c != '>' && c != '"' && c != '\''
        } by {
            if i < a.len() {
                assert((a + b)[i] == a[i]);
            } else {
                assert((a + b)[i] == b[i - a.len()]);
            }
        }
    }
}

/// Law: text with none of the five special characters is left as it is.
pub proof fn lemma_escape_plain(s: Seq<char>)
    requires
        forall|i: int|
            0 <= i < s.len() ==> {
                let c = #[trigger] s[i];
                c != '&' && c != '<' && c != '>' && c != '"' && c != '\''
            },
    ensures
        html_escaped(s) == s,
    decreases s.len(),
{
    if s.len() > 0 {
        let d = s.drop_last();
        assert forall|i: int| 0 <= i < d.len() implies {
            let c = #[trigger] d[i];
            c != '&' && c != '<' && c != '>' && c != '"' && c != '\''
        } by {
            assert(d[i] == s[i]);
        }
        lemma_escape_plain(d);
        assert(s[s.len() - 1] == s.last());
        assert(d + seq![s.last()] =~= s);
    }
}

/// The merit description: the escaped description in a paragraph, then,
/// when the bonus is not blank, a "Mechanical bonus" paragraph.
pub open spec fn merit_description(description: Seq<char>, bonus: Seq<char>) -> Seq<char> {
    let desc_p = "<p>"@ + html_escaped(description) + "</p>"@;
    if is_blank_spec(bonus) {
        desc_p
    } else {
        desc_p + "<p><em>Mechanical bonus:</em> "@ + html_escaped(bonus) + "</p>"@
    }
}

/// Renders the merit description HTML (see `merit_description`).
pub fn render_merit_description(description: &str, bonus: &str) -> (r: String)
    ensures
        r@ == merit_description(description@, bonus@),
{
    let mut out = owned("<p>");
    let d = html_escape(description);
    append_str(&mut out, d.as_str());
    append_str(&mut out, "</p>");
    if is_blank(bonus) {
        out
    } else {
        append_str(&mut out, "<p><em>Mechanical bonus:</em> ");
        let b = html_escape(bonus);
        append_str(&mut out, b.as_str());
        append_str(&mut out, "</p>");
        out
    }
}

/// The notes line recorded when a dyscrasia is acquired.
pub open spec fn dyscrasia_notes_line(at: Seq<char>, name: Seq<char>, resonance: Seq<char>) -> Seq<char> {
    "["@ + at + "] Acquired Dyscrasia: "@ + name + " ("@ + resonance + ")"@
}

pub open spec fn apply_dyscrasia_json(actor_id: Seq<char>, p: ApplyDyscrasiaPayload, at: Seq<char>) -> JsonV {
    JsonV::Object(
        seq![
            ("type"@, jstr("actor.apply_dyscrasia"@)),
            ("actor_id"@, jstr(actor_id)),
            ("dyscrasia_name"@, jstr(p.dyscrasia_name@)),
            ("resonance_type"@, jstr(p.resonance_type@)),
            ("merit_description_html"@, jstr(merit_description(p.description@, p.bonus@))),
            ("notes_line"@, jstr(dyscrasia_notes_line(at, p.dyscrasia_name@, p.resonance_type@))),
            ("replace_existing"@, JsonV::Bool(true)),
        ],
    )
}

/// `actor.apply_dyscrasia` with the acquisition time `applied_at` written
/// into the notes line.
pub fn build_apply_dyscrasia_at(actor_id: &str, payload: &ApplyDyscrasiaPayload, applied_at: &str) -> (r: Json)
    ensures
        r@ == apply_dyscrasia_json(actor_id@, *payload, applied_at@),
{
    let html = render_merit_description(payload.description.as_str(), payload.bonus.as_str());
    let mut line = owned("[");
    append_str(&mut line, applied_at);
    append_str(&mut line, "] Acquired Dyscrasia: ");
    append_str(&mut line, payload.dyscrasia_name.as_str());
    append_str(&mut line, " (");
    append_str(&mut line, payload.resonance_type.as_str());
    append_str(&mut line, ")");
    let mut o: Vec<(String, Json)> = Vec::new();
    obj_push(&mut o, "type", Json::text("actor.apply_dyscrasia"));
    obj_push(&mut o, "actor_id", Json::text(actor_id));
    obj_push(&mut o, "dyscrasia_name", Json::text(payload.dyscrasia_name.as_str()));
    obj_push(&mut o, "resonance_type", Json::text(payload.resonance_type.as_str()));
    obj_push(&mut o, "merit_description_html", Json::Str(html));
    obj_push(&mut o, "notes_line", Json::Str(line));
    obj_push(&mut o, "replace_existing", Json::Bool(true));
    assert(entries_view(o@) =~= apply_dyscrasia_json(actor_id@, *payload, applied_at@)->Object_0);
    Json::object(o)
}

/// The local time to the minute, as "YYYY-MM-DD HH:MM" (chrono's
/// `Local::now().format(..)`). Nothing is stated of the text: it depends
/// on the clock and the machine's time zone, and not even its length is
/// fixed (the year takes four digits only from 1000 through 9999).
#[verifier::external_body]
fn local_minute_stamp() -> (r: String) {
    chrono::Local::now().format("%Y-%m-%d %H:%M").to_string()
}

/// `actor.apply_dyscrasia` stamped with the current local time.
pub fn build_apply_dyscrasia(actor_id: &str, payload: &ApplyDyscrasiaPayload) -> (r: Json)
    ensures
        exists|at: Seq<char>| r@ == apply_dyscrasia_json(actor_id@, *payload, at),
{
    let at = local_minute_stamp();
    build_apply_dyscrasia_at(actor_id, payload, at.as_str())
}

/// The error for a dyscrasia payload that does not parse.
pub fn invalid_dyscrasia_payload(reason: &str) -> (r: String)
    ensures
        r@ == "foundry/actor.apply_dyscrasia: invalid payload: "@ + reason@,
{
    let mut e = owned("foundry/actor.apply_dyscrasia: invalid payload: ");
    append_str(&mut e, reason);
    e
}

pub open spec fn replace_notes_json(actor_id: Seq<char>, full_text: Seq<char>) -> JsonV {
    JsonV::Object(
        seq![
            ("type"@, jstr("actor.replace_private_notes"@)),
            ("actor_id"@, jstr(actor_id)),
            ("full_text"@, jstr(full_text)),
        ],
    )
}

/// `actor.replace_private_notes`.
pub fn build_replace_private_notes(actor_id: &str, full_text: &str) -> (r: Json)
    ensures
        r@ == replace_notes_json(actor_id@, full_text@),
{
    let mut o: Vec<(String, Json)> = Vec::new();
    obj_push(&mut o, "type", Json::text("actor.replace_private_notes"));
    obj_push(&mut o, "actor_id", Json::text(actor_id));
    obj_push(&mut o, "full_text", Json::text(full_text));
    assert(entries_view(o@) =~= replace_notes_json(actor_id@, full_text@)->Object_0);
    Json::object(o)
}

pub open spec fn append_notes_json(actor_id: Seq<char>, line: Seq<char>) -> JsonV {
    JsonV::Object(
        seq![
            ("type"@, jstr("actor.append_private_notes_line"@)),
            ("actor_id"@, jstr(actor_id)),
            ("line"@, jstr(line)),
        ],
    )
}

/// `actor.append_private_notes_line`.
pub fn build_append_private_notes_line(actor_id: &str, line: &str) -> (r: Json)
    ensures
        r@ == append_notes_json(actor_id@, line@),
{
    let mut o: Vec<(String, Json)> = Vec::new();
    obj_push(&mut o, "type", Json::text("actor.append_private_notes_line"));
    obj_push(&mut o, "actor_id", Json::text(actor_id));
    obj_push(&mut o, "line", Json::text(line));
    assert(entries_view(o@) =~= append_notes_json(actor_id@, line@)->Object_0);
    Json::object(o)
}

pub open spec fn create_feature_json(
    actor_id: Seq<char>,
    featuretype: Seq<char>,
    name: Seq<char>,
    description: Seq<char>,
    points: i32,
) -> JsonV {
    JsonV::Object(
        seq![
            ("type"@, jstr("actor.create_feature"@)),
            ("actor_id"@, jstr(actor_id)),
            ("featuretype"@, jstr(featuretype)),
            ("name"@, jstr(name)),
            ("description"@, jstr(description)),
            ("points"@, int_view(points as int)),
        ],
    )
}

/// `actor.create_feature`: adds a merit, flaw, background or boon item to an
/// actor; any other feature type is refused.
pub fn build_create_feature(
    actor_id: &str,
    featuretype: &str,
    name: &str,
    description: &str,
    points: i32,
) -> (r: Result<Json, String>)
    ensures
        r is Ok <==> is_feature_type(featuretype@),
        r matches Ok(j) ==> j@ == create_feature_json(actor_id@, featuretype@, name@, description@, points),
        r matches Err(e) ==> e@ == "foundry/actor.create_feature: invalid featuretype: "@ + featuretype@,
{
    if !feature_type_ok(featuretype) {
        let mut e = owned("foundry/actor.create_feature: invalid featuretype: ");
        append_str(&mut e, featuretype);
        return Err(e);
    }
    let mut o: Vec<(String, Json)> = Vec::new();
    obj_push(&mut o, "type", Json::text("actor.create_feature"));
    obj_push(&mut o, "actor_id", Json::text(actor_id));
    obj_push(&mut o, "featuretype", Json::text(featuretype));
    obj_push(&mut o, "name", Json::text(name));
    obj_push(&mut o, "description", Json::text(description));
    obj_push(&mut o, "points", Json::from_i64(points as i64));
    assert(entries_view(o@) =~= create_feature_json(actor_id@, featuretype@, name@, description@, points)->Object_0);
    Ok(Json::object(o))
}

pub open spec fn delete_item_by_id_json(actor_id: Seq<char>, item_id: Seq<char>) -> JsonV {
    JsonV::Object(
        seq![
            ("type"@, jstr("actor.delete_item_by_id"@)),
            ("actor_id"@, jstr(actor_id)),
            ("item_id"@, jstr(item_id)),
        ],
    )
}

/// `actor.delete_item_by_id`.
pub fn build_delete_item_by_id(actor_id: &str, item_id: &str) -> (r: Json)
    ensures
        r@ == delete_item_by_id_json(actor_id@, item_id@),
{
    let mut o: Vec<(String, Json)> = Vec::new();
    obj_push(&mut o, "type", Json::text("actor.delete_item_by_id"));
    obj_push(&mut o, "actor_id", Json::text(actor_id));
    obj_push(&mut o, "item_id", Json::text(item_id));
    assert(entries_view(o@) =~= delete_item_by_id_json(actor_id@, item_id@)->Object_0);
    Json::object(o)
}

pub open spec fn update_item_field_json(actor_id: Seq<char>, item_id: Seq<char>, path: Seq<char>, value: JsonV) -> JsonV {
    JsonV::Object(
        seq![
            ("type"@, jstr("actor.update_item_field"@)),
            ("actor_id"@, jstr(actor_id)),
            ("item_id"@, jstr(item_id)),
            ("path"@, jstr(path)),
            ("value"@, value),
        ],
    )
}

/// `actor.update_item_field`: writes `value` at the dot-path `path` of one
/// item of an actor.
pub fn build_update_item_field(actor_id: &str, item_id: &str, path: &str, value: Json) -> (r: Json)
    ensures
        r@ == update_item_field_json(actor_id@, item_id@, path@, value@),
{
    let ghost v = value@;
    let mut o: Vec<(String, Json)> = Vec::new();
    obj_push(&mut o, "type", Json::text("actor.update_item_field"));
    obj_push(&mut o, "actor_id", Json::text(actor_id));
    obj_push(&mut o, "item_id", Json::text(item_id));
    obj_push(&mut o, "path", Json::text(path));
    obj_push(&mut o, "value", value);
    assert(entries_view(o@) =~= update_item_field_json(actor_id@, item_id@, path@, v)->Object_0);
    Json::object(o)
}

// ---------------------------------------------------------------------
// bridge.*
// ---------------------------------------------------------------------

pub open spec fn subscription_json(kind: Seq<char>, collection: Seq<char>) -> JsonV {
    JsonV::Object(seq![("type"@, jstr(kind)), ("collection"@, jstr(collection))])
}

/// `bridge.subscribe { collection }`.
pub fn build_subscribe(collection: &str) -> (r: Json)
    ensures
        r@ == subscription_json("bridge.subscribe"@, collection@),
{
    let mut o: Vec<(String, Json)> = Vec::new();
    obj_push(&mut o, "type", Json::text("bridge.subscribe"));
    obj_push(&mut o, "collection", Json::text(collection));
    assert(entries_view(o@) =~= subscription_json("bridge.subscribe"@, collection@)->Object_0);
    Json::object(o)
}

/// `bridge.unsubscribe { collection }`.
pub fn build_unsubscribe(collection: &str) -> (r: Json)
    ensures
        r@ == subscription_json("bridge.unsubscribe"@, collection@),
{
    let mut o: Vec<(String, Json)> = Vec::new();
    obj_push(&mut o, "type", Json::text("bridge.unsubscribe"));
    obj_push(&mut o, "collection", Json::text(collection));
    assert(entries_view(o@) =~= subscription_json("bridge.unsubscribe"@, collection@)->Object_0);
    Json::object(o)
}

// ---------------------------------------------------------------------
// game.*
// ---------------------------------------------------------------------

pub open spec fn roll_v5_pool_json(i: RollV5PoolInput) -> JsonV {
    JsonV::Object(
        seq![
            ("type"@, jstr("game.roll_v5_pool"@)),
            ("actor_id"@, jstr(i.actor_id@)),
            ("value_paths"@, str_array_json(i.value_paths@)),
            ("difficulty"@, JsonV::PosInt(i.difficulty as nat)),
            ("flavor"@, opt_str_json(match i.flavor {
                Some(f) => Some(f@),
                None => None,
            })),
            ("advanced_dice"@, match i.advanced_dice {
                Some(n) => JsonV::PosInt(n as nat),
                None => JsonV::Null,
            }),
            ("selectors"@, match i.selectors {
                Some(s) => str_array_json(s@),
                None => JsonV::Array(Seq::empty()),
            }),
        ],
    )
}

/// `game.roll_v5_pool`: asks Foundry to roll a V5 pool for an actor. The
/// actor id is required; empty value paths are allowed (no paths and one
/// advanced die is a rouse check); absent selectors become `[]`.
pub fn build_roll_v5_pool(input: &RollV5PoolInput) -> (r: Result<Json, String>)
    ensures
        r is Ok <==> input.actor_id@.len() > 0,
        r matches Ok(j) ==> j@ == roll_v5_pool_json(*input),
        r matches Err(e) ==> e@ == "foundry/game.roll_v5_pool: actor_id is required"@,
{
    if input.actor_id.as_str().unicode_len() == 0 {
        return Err(owned("foundry/game.roll_v5_pool: actor_id is required"));
    }
    let mut o: Vec<(String, Json)> = Vec::new();
    obj_push(&mut o, "type", Json::text("game.roll_v5_pool"));
    obj_push(&mut o, "actor_id", Json::text(input.actor_id.as_str()));
    let vp = Json::string_array(&input.value_paths);
    assert(vp@->Array_0 =~= str_array_json(input.value_paths@)->Array_0);
    obj_push(&mut o, "value_paths", vp);
    obj_push(&mut o, "difficulty", Json::from_u64(input.difficulty as u64));
    obj_push(&mut o, "flavor", opt_text(&input.flavor));
    let adv = match input.advanced_dice {
        Some(n) => Json::from_u64(n as u64),
        None => Json::Null,
    };
    obj_push(&mut o, "advanced_dice", adv);
    let sel = match &input.selectors {
        Some(s) => {
            let j = Json::string_array(s);
            assert(j@->Array_0 =~= str_array_json(s@)->Array_0);
            j
        },
        None => {
            let empty: Vec<Json> = Vec::new();
            let j = Json::array(empty);
            assert(j@->Array_0 =~= Seq::<JsonV>::empty());
            j
        },
    };
    obj_push(&mut o, "selectors", sel);
    assert(entries_view(o@) =~= roll_v5_pool_json(*input)->Object_0);
    Ok(Json::object(o))
}

pub open spec fn post_chat_json(i: PostChatAsActorInput) -> JsonV {
    JsonV::Object(
        seq![
            ("type"@, jstr("game.post_chat_as_actor"@)),
            ("actor_id"@, jstr(i.actor_id@)),
            ("content"@, jstr(i.content@)),
            ("flavor"@, opt_str_json(match i.flavor {
                Some(f) => Some(f@),
                None => None,
            })),
            ("roll_mode"@, opt_str_json(match i.roll_mode {
                Some(m) => Some(m@),
                None => None,
            })),
        ],
    )
}

/// `game.post_chat_as_actor`: posts a chat message as an actor. The actor
/// id is required, and a roll mode, when given, must be one of
/// `VALID_ROLL_MODES`.
pub fn build_post_chat_as_actor(input: &PostChatAsActorInput) -> (r: Result<Json, String>)
    ensures
        r is Ok <==> input.actor_id@.len() > 0 && (input.roll_mode matches Some(m) ==> is_roll_mode(m@)),
        r matches Ok(j) ==> j@ == post_chat_json(*input),
        r matches Err(e) ==> if input.actor_id@.len() == 0 {
            e@ == "foundry/game.post_chat_as_actor: actor_id is required"@
        } else {
            input.roll_mode matches Some(m) && e@ == "foundry/game.post_chat_as_actor: invalid roll_mode: "@ + m@
        },
{
    if input.actor_id.as_str().unicode_len() == 0 {
        return Err(owned("foundry/game.post_chat_as_actor: actor_id is required"));
    }
    if let Some(m) = &input.roll_mode {
        let ok = is_one_of(m.as_str(), &VALID_ROLL_MODES);
        proof {
            if ok {
                let i = choose|i: int| 0 <= i < 4 && VALID_ROLL_MODES@[i]@ == m@;
                assert(i == 0 || i == 1 || i == 2 || i == 3);
            } else {
                assert(VALID_ROLL_MODES@[0]@ != m@);
                assert(VALID_ROLL_MODES@[1]@ != m@);
                assert(VALID_ROLL_MODES@[2]@ != m@);
                assert(VALID_ROLL_MODES@[3]@ != m@);
            }
        }
        if !ok {
            let mut e = owned("foundry/game.post_chat_as_actor: invalid roll_mode: ");
            append_str(&mut e, m.as_str());
            return Err(e);
        }
    }
    let mut o: Vec<(String, Json)> = Vec::new();
    obj_push(&mut o, "type", Json::text("game.post_chat_as_actor"));
    obj_push(&mut o, "actor_id", Json::text(input.actor_id.as_str()));
    obj_push(&mut o, "content", Json::text(input.content.as_str()));
    obj_push(&mut o, "flavor", opt_text(&input.flavor));
    obj_push(&mut o, "roll_mode", opt_text(&input.roll_mode));
    assert(entries_view(o@) =~= post_chat_json(*input)->Object_0);
    Ok(Json::object(o))
}

// ---------------------------------------------------------------------
// storyteller.*
// ---------------------------------------------------------------------

pub open spec fn create_world_item_json(name: Seq<char>, featuretype: Seq<char>, description: Seq<char>, points: i32) -> JsonV {
    JsonV::Object(
        seq![
            ("type"@, jstr("storyteller.create_world_item"@)),
            ("name"@, jstr(name)),
            ("featuretype"@, jstr(featuretype)),
            ("description"@, jstr(description)),
            ("points"@, int_view(points as int)),
        ],
    )
}

/// `storyteller.create_world_item`: creates a world-level feature item;
/// the feature type must be one `actor.create_feature` accepts.
pub fn build_create_world_item(name: &str, featuretype: &str, description: &str, points: i32) -> (r: Result<Json, String>)
    ensures
        r is Ok <==> is_feature_type(featuretype@),
        r matches Ok(j) ==> j@ == create_world_item_json(name@, featuretype@, description@, points),
        r matches Err(e) ==> e@ == "foundry/storyteller.create_world_item: invalid featuretype: "@ + featuretype@,
{
    if !feature_type_ok(featuretype) {
        let mut e = owned("foundry/storyteller.create_world_item: invalid featuretype: ");
        append_str(&mut e, featuretype);
        return Err(e);
    }
    let mut o: Vec<(String, Json)> = Vec::new();
    obj_push(&mut o, "type", Json::text("storyteller.create_world_item"));
    obj_push(&mut o, "name", Json::text(name));
    obj_push(&mut o, "featuretype", Json::text(featuretype));
    obj_push(&mut o, "description", Json::text(description));
    obj_push(&mut o, "points", Json::from_i64(points as i64));
    assert(entries_view(o@) =~= create_world_item_json(name@, featuretype@, description@, points)->Object_0);
    Ok(Json::object(o))
}

} // verus!
