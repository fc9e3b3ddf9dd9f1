use vtmtools::bridge::foundry::{
    to_canonical, ApplyDyscrasiaPayload, FoundryActor, FoundryInbound, PostChatAsActorInput, RollV5PoolInput,
};
use vtmtools::bridge::foundry_actions::{
    build_append_private_notes_line, build_apply_dyscrasia, build_apply_dyscrasia_at, build_create_feature,
    build_create_item_simple, build_create_world_item, build_delete_item_by_id, build_post_chat_as_actor,
    build_replace_private_notes, build_roll_v5_pool, build_subscribe, build_unsubscribe, build_update_field,
    build_update_item_field, html_escape, invalid_dyscrasia_payload, render_merit_description,
};
use vtmtools::bridge::history::{RollHistory, ROLL_HISTORY_CAPACITY};
use vtmtools::bridge::roll20::{Character, InboundMsg, Roll20Source};
use vtmtools::bridge::source::{
    canonical_to_path, check_subscription, foundry_frame_plan, roll20_events, FoundrySource, FramePlan,
    InboundEvent, SetAttributeRoute, SubscriptionOp,
};
use vtmtools::bridge::state::{BridgeCore, Notice};
use vtmtools::bridge::translate_roll::{has_die, to_canonical_roll, FoundryRollMessage};
use vtmtools::bridge::types::{CanonicalCharacter, CanonicalRoll, RollSplat, SourceInfo, SourceKind};
use vtmtools::json::{Json, JsonNumber};

fn field<'a>(j: &'a Json, key: &str) -> &'a Json {
    j.get(key).unwrap_or_else(|| panic!("missing key {key}"))
}

fn text(j: &Json, key: &str) -> String {
    match field(j, key) {
        Json::Str(s) => s.clone(),
        other => panic!("{key} is not a string: {other:?}"),
    }
}

fn num(n: u64) -> Json {
    Json::from_u64(n)
}

fn strs(v: &[&str]) -> Json {
    Json::Array(v.iter().map(|s| Json::text(s)).collect())
}

// ── translate_roll ─────────────────────────────────────────────────────

fn make_msg(splat: &str, formula: &str, basic: Vec<u8>, advanced: Vec<u8>) -> FoundryRollMessage {
    FoundryRollMessage {
        message_id: "msg_test".into(),
        actor_id: Some("actor_test".into()),
        actor_name: Some("Tester".into()),
        timestamp: Some("2026-05-10T00:00:00Z".into()),
        flavor: "Test".into(),
        formula: formula.into(),
        splat: splat.into(),
        basic_results: basic,
        advanced_results: advanced,
        total: 0,
        difficulty: None,
        raw: Json::Object(vec![]),
    }
}

#[test]
fn vampire_clean_no_messy_no_bestial() {
    let m = make_msg("vampire", "5dv cs>5 + 0dg cs>5", vec![3, 7, 9, 10, 6], vec![]);
    let c = to_canonical_roll(&m);
    assert_eq!(c.splat, RollSplat::Vampire);
    assert_eq!(c.criticals, 1);
    assert!(!c.messy);
    assert!(!c.bestial);
    assert!(!c.brutal);
}

#[test]
fn vampire_messy_when_hunger_ten() {
    let m = make_msg("vampire", "5dv cs>5 + 3dg cs>5", vec![3, 7, 9, 6, 6], vec![2, 8, 10]);
    let c = to_canonical_roll(&m);
    assert!(c.messy);
    assert_eq!(c.criticals, 1, "the 10 on hunger counts as a crit");
}

#[test]
fn vampire_bestial_when_hunger_one() {
    let m = make_msg("vampire", "5dv cs>5 + 3dg cs>5", vec![3, 7, 9, 6, 6], vec![1, 8, 4]);
    let c = to_canonical_roll(&m);
    assert!(c.bestial);
    assert!(!c.messy);
}

#[test]
fn werewolf_brutal_when_rage_one() {
    let m = make_msg("werewolf", "5dw cs>5 + 2dr cs>5", vec![3, 7, 9], vec![1, 8]);
    let c = to_canonical_roll(&m);
    assert_eq!(c.splat, RollSplat::Werewolf);
    assert!(c.brutal);
}

#[test]
fn double_basic_tens_count_two_criticals() {
    let m = make_msg("vampire", "4dv cs>5", vec![10, 10, 5, 7], vec![]);
    let c = to_canonical_roll(&m);
    assert_eq!(c.criticals, 2);
}

#[test]
fn splat_detection_from_formula_when_js_splat_unknown() {
    let m = make_msg("unknown", "5dv cs>5 + 2dg cs>5", vec![6, 7], vec![3]);
    let c = to_canonical_roll(&m);
    assert_eq!(c.splat, RollSplat::Vampire);
}

#[test]
fn empty_advanced_no_panic() {
    let m = make_msg("mortal", "3dm cs>5", vec![6, 7, 8], vec![]);
    let c = to_canonical_roll(&m);
    assert_eq!(c.splat, RollSplat::Mortal);
    assert!(!c.messy);
    assert!(!c.bestial);
    assert!(!c.brutal);
}

#[test]
fn vampire_unspaced_formula_from_live_sample() {
    let m = make_msg("unknown", "12dvcs>5 + 0dgcs>5", vec![3, 7, 9, 10, 6, 4, 8, 6, 5, 9, 2, 7], vec![]);
    let c = to_canonical_roll(&m);
    assert_eq!(c.splat, RollSplat::Vampire, "splat detection must work on real (unspaced) Foundry formulas");
}

#[test]
fn has_die_requires_digit_prefix() {
    assert!(has_die("12dvcs>5", 'v'));
    assert!(has_die("5dv cs>5", 'v'));
    assert!(has_die("0dg cs>5", 'g'));
    assert!(has_die("3dh+2ds", 'h'));
    assert!(has_die("3dh+2ds", 's'));
    assert!(!has_die("dv cs>5", 'v'));
    assert!(!has_die("addv", 'v'));
}

#[test]
fn hunter_advanced_tens_are_criticals_mortal_not() {
    let m = make_msg("hunter", "2dh + 1ds", vec![10], vec![10]);
    assert_eq!(to_canonical_roll(&m).criticals, 2);
    let m = make_msg("mortal", "2dm", vec![10], vec![10]);
    assert_eq!(to_canonical_roll(&m).criticals, 1);
}

#[test]
fn unknown_formula_is_unknown_splat() {
    let m = make_msg("", "1d20", vec![5], vec![]);
    assert_eq!(to_canonical_roll(&m).splat, RollSplat::Unknown);
}

// ── actor.* builders ───────────────────────────────────────────────────

fn payload(name: &str, res: &str, desc: &str, bonus: &str) -> ApplyDyscrasiaPayload {
    ApplyDyscrasiaPayload {
        dyscrasia_name: name.into(),
        resonance_type: res.into(),
        description: desc.into(),
        bonus: bonus.into(),
    }
}

#[test]
fn update_field_shape() {
    let out = build_update_field("actor-xyz", "system.hunger.value", num(3));
    assert_eq!(text(&out, "type"), "actor.update_field");
    assert_eq!(text(&out, "actor_id"), "actor-xyz");
    assert_eq!(text(&out, "path"), "system.hunger.value");
    assert_eq!(field(&out, "value"), &num(3));
}

#[test]
fn create_item_simple_shape() {
    let out = build_create_item_simple("actor-xyz", "resonance", "Choleric");
    assert_eq!(text(&out, "type"), "actor.create_item_simple");
    assert_eq!(text(&out, "actor_id"), "actor-xyz");
    assert_eq!(text(&out, "item_type"), "resonance");
    assert_eq!(text(&out, "item_name"), "Choleric");
    assert_eq!(field(&out, "replace_existing"), &Json::Bool(true));
}

#[test]
fn dyscrasia_happy_path_shape() {
    let p = payload("Wax", "Choleric", "Crystallized blood.", "+1 Composure");
    let out = build_apply_dyscrasia("actor-abc", &p);
    assert_eq!(text(&out, "type"), "actor.apply_dyscrasia");
    assert_eq!(text(&out, "actor_id"), "actor-abc");
    assert_eq!(text(&out, "dyscrasia_name"), "Wax");
    assert_eq!(text(&out, "resonance_type"), "Choleric");
    assert_eq!(field(&out, "replace_existing"), &Json::Bool(true));
    let html = text(&out, "merit_description_html");
    assert!(html.contains("<p>Crystallized blood.</p>"));
    assert!(html.contains("<p><em>Mechanical bonus:</em> +1 Composure</p>"));
    let line = text(&out, "notes_line");
    let re = regex::Regex::new(r"^\[\d{4}-\d{2}-\d{2} \d{2}:\d{2}\] Acquired Dyscrasia: Wax \(Choleric\)$").unwrap();
    assert!(re.is_match(&line), "notes_line did not match: {line}");
}

#[test]
fn dyscrasia_empty_bonus_omits_bonus_block() {
    let p = payload("Custom", "Sanguine", "Some description.", "");
    let out = build_apply_dyscrasia("a", &p);
    let html = text(&out, "merit_description_html");
    assert_eq!(html, "<p>Some description.</p>");
    assert!(!html.contains("Mechanical bonus"));
}

#[test]
fn dyscrasia_html_escapes_dangerous_chars() {
    let p = payload("Test", "Phlegmatic", "<script>alert(\"x\")</script>", "& > <");
    let out = build_apply_dyscrasia("a", &p);
    let html = text(&out, "merit_description_html");
    assert!(html.contains("&lt;script&gt;alert(&quot;x&quot;)&lt;/script&gt;"));
    assert!(html.contains("&amp; &gt; &lt;"));
    assert!(!html.contains("<script>"));
}

#[test]
fn append_private_notes_line_shape() {
    let out = build_append_private_notes_line("actor-xyz", "Hello world");
    assert_eq!(text(&out, "type"), "actor.append_private_notes_line");
    assert_eq!(text(&out, "actor_id"), "actor-xyz");
    assert_eq!(text(&out, "line"), "Hello world");
}

#[test]
fn replace_private_notes_shape() {
    let out = build_replace_private_notes("actor-xyz", "All new notes");
    assert_eq!(text(&out, "type"), "actor.replace_private_notes");
    assert_eq!(text(&out, "actor_id"), "actor-xyz");
    assert_eq!(text(&out, "full_text"), "All new notes");
}

#[test]
fn dyscrasia_malformed_payload_returns_err() {
    // The payload text is parsed by the caller; a parse failure is reported
    // with the module-prefixed message.
    let msg = invalid_dyscrasia_payload("expected `,` or `}` at line 1 column 2");
    assert!(msg.starts_with("foundry/actor.apply_dyscrasia: invalid payload:"), "got: {msg}");
}

#[test]
fn dyscrasia_notes_line_uses_given_time() {
    let p = payload("Wax", "Choleric", "d", "");
    let out = build_apply_dyscrasia_at("a", &p, "2026-05-02 13:45");
    assert_eq!(text(&out, "notes_line"), "[2026-05-02 13:45] Acquired Dyscrasia: Wax (Choleric)");
}

#[test]
fn html_escape_maps_each_special_character() {
    assert_eq!(html_escape("a&b<c>d\"e'f"), "a&amp;b&lt;c&gt;d&quot;e&#39;f");
    assert_eq!(html_escape("plain text"), "plain text");
    assert_eq!(html_escape("&amp;"), "&amp;amp;");
}

#[test]
fn merit_description_whitespace_bonus_is_blank() {
    assert_eq!(render_merit_description("x", "  \t"), "<p>x</p>");
    assert_eq!(render_merit_description("x", "+1"), "<p>x</p><p><em>Mechanical bonus:</em> +1</p>");
}

#[test]
fn create_feature_shape_and_refusal() {
    let out = build_create_feature("actor-1", "flaw", "Bad Sight", "Squints.", 1).unwrap();
    assert_eq!(text(&out, "type"), "actor.create_feature");
    assert_eq!(text(&out, "actor_id"), "actor-1");
    assert_eq!(text(&out, "featuretype"), "flaw");
    assert_eq!(text(&out, "name"), "Bad Sight");
    assert_eq!(text(&out, "description"), "Squints.");
    assert_eq!(field(&out, "points"), &num(1));
    let err = build_create_feature("actor-1", "discipline", "X", "", 0).unwrap_err();
    assert_eq!(err, "foundry/actor.create_feature: invalid featuretype: discipline");
}

#[test]
fn delete_and_update_item_shapes() {
    let out = build_delete_item_by_id("actor-1", "item-9");
    assert_eq!(text(&out, "type"), "actor.delete_item_by_id");
    assert_eq!(text(&out, "item_id"), "item-9");
    let out = build_update_item_field("actor-1", "item-9", "system.bonuses", Json::Array(vec![]));
    assert_eq!(text(&out, "type"), "actor.update_item_field");
    assert_eq!(text(&out, "actor_id"), "actor-1");
    assert_eq!(text(&out, "item_id"), "item-9");
    assert_eq!(text(&out, "path"), "system.bonuses");
    assert_eq!(field(&out, "value"), &Json::Array(vec![]));
}

// ── bridge.* builders ──────────────────────────────────────────────────

#[test]
fn subscribe_envelope_shape() {
    let v = build_subscribe("journal");
    assert_eq!(text(&v, "type"), "bridge.subscribe");
    assert_eq!(text(&v, "collection"), "journal");
}

#[test]
fn unsubscribe_envelope_shape() {
    let v = build_unsubscribe("scenes");
    assert_eq!(text(&v, "type"), "bridge.unsubscribe");
    assert_eq!(text(&v, "collection"), "scenes");
}

#[test]
fn subscriptions_only_for_foundry() {
    assert!(check_subscription(SubscriptionOp::Subscribe, SourceKind::Foundry).is_ok());
    assert_eq!(
        check_subscription(SubscriptionOp::Subscribe, SourceKind::Roll20).unwrap_err(),
        "bridge/subscribe: source Roll20 does not support subscriptions"
    );
    assert_eq!(
        check_subscription(SubscriptionOp::Unsubscribe, SourceKind::Roll20).unwrap_err(),
        "bridge/unsubscribe: source Roll20 does not support subscriptions"
    );
}

// ── game.* builders ────────────────────────────────────────────────────

fn sample_roll_input() -> RollV5PoolInput {
    RollV5PoolInput {
        actor_id: "abc".into(),
        value_paths: vec!["attributes.strength.value".into(), "skills.brawl.value".into()],
        difficulty: 3,
        flavor: Some("Strength + Brawl".into()),
        advanced_dice: None,
        selectors: None,
    }
}

#[test]
fn roll_v5_pool_envelope_shape() {
    let v = build_roll_v5_pool(&sample_roll_input()).expect("ok");
    assert_eq!(text(&v, "type"), "game.roll_v5_pool");
    assert_eq!(text(&v, "actor_id"), "abc");
    assert_eq!(field(&v, "value_paths"), &strs(&["attributes.strength.value", "skills.brawl.value"]));
    assert_eq!(field(&v, "difficulty"), &num(3));
    assert_eq!(text(&v, "flavor"), "Strength + Brawl");
}

#[test]
fn roll_v5_pool_empty_actor_id_errors() {
    let mut input = sample_roll_input();
    input.actor_id = "".into();
    let err = build_roll_v5_pool(&input).expect_err("must reject empty actor_id");
    assert!(err.contains("actor_id"), "{err}");
}

#[test]
fn roll_v5_pool_empty_value_paths_allowed_for_rouse() {
    let mut input = sample_roll_input();
    input.value_paths = vec![];
    input.advanced_dice = Some(1);
    let v = build_roll_v5_pool(&input).expect("rouse-shape input must build");
    assert_eq!(field(&v, "value_paths"), &Json::Array(vec![]));
    assert_eq!(field(&v, "advanced_dice"), &num(1));
}

#[test]
fn roll_v5_pool_selectors_default_empty_array() {
    let v = build_roll_v5_pool(&sample_roll_input()).expect("ok");
    assert_eq!(field(&v, "selectors"), &Json::Array(vec![]));
}

#[test]
fn roll_v5_pool_advanced_dice_passes_through() {
    let mut input = sample_roll_input();
    input.advanced_dice = Some(2);
    let v = build_roll_v5_pool(&input).expect("ok");
    assert_eq!(field(&v, "advanced_dice"), &num(2));
}

#[test]
fn roll_v5_pool_absent_options_are_null() {
    let mut input = sample_roll_input();
    input.flavor = None;
    input.selectors = Some(vec!["x".into()]);
    let v = build_roll_v5_pool(&input).expect("ok");
    assert_eq!(field(&v, "flavor"), &Json::Null);
    assert_eq!(field(&v, "advanced_dice"), &Json::Null);
    assert_eq!(field(&v, "selectors"), &strs(&["x"]));
}

#[test]
fn post_chat_checks_actor_and_roll_mode() {
    let ok = PostChatAsActorInput {
        actor_id: "abc".into(),
        content: "Hello".into(),
        flavor: None,
        roll_mode: Some("gmroll".into()),
    };
    let v = build_post_chat_as_actor(&ok).unwrap();
    assert_eq!(text(&v, "type"), "game.post_chat_as_actor");
    assert_eq!(text(&v, "content"), "Hello");
    assert_eq!(text(&v, "roll_mode"), "gmroll");
    let bad_mode = PostChatAsActorInput { roll_mode: Some("shout".into()), ..ok.clone() };
    assert_eq!(
        build_post_chat_as_actor(&bad_mode).unwrap_err(),
        "foundry/game.post_chat_as_actor: invalid roll_mode: shout"
    );
    let no_actor = PostChatAsActorInput { actor_id: "".into(), ..ok };
    assert_eq!(
        build_post_chat_as_actor(&no_actor).unwrap_err(),
        "foundry/game.post_chat_as_actor: actor_id is required"
    );
}

// ── storyteller.* builders ─────────────────────────────────────────────

#[test]
fn create_world_item_envelope_shape() {
    let out = build_create_world_item("Iron Gullet", "merit", "rancid blood ok", 3)
        .expect("merit is a valid featuretype");
    assert_eq!(text(&out, "type"), "storyteller.create_world_item");
    assert_eq!(text(&out, "name"), "Iron Gullet");
    assert_eq!(text(&out, "featuretype"), "merit");
    assert_eq!(text(&out, "description"), "rancid blood ok");
    assert_eq!(field(&out, "points"), &num(3));
}

#[test]
fn create_world_item_invalid_featuretype_returns_err() {
    let err = build_create_world_item("X", "discipline", "", 0).expect_err("discipline is not a valid featuretype");
    assert!(err.starts_with("foundry/storyteller.create_world_item: invalid featuretype:"), "got: {err}");
}

#[test]
fn create_world_item_negative_points_keep_sign() {
    let out = build_create_world_item("X", "flaw", "", -2).unwrap();
    assert_eq!(field(&out, "points"), &Json::Number(JsonNumber::NegInt(-2)));
}

// ── roll history ───────────────────────────────────────────────────────

fn make_roll(id: &str) -> CanonicalRoll {
    CanonicalRoll {
        source: SourceKind::Foundry,
        source_id: id.into(),
        actor_id: None,
        actor_name: None,
        timestamp: None,
        splat: RollSplat::Mortal,
        flavor: String::new(),
        formula: String::new(),
        basic_results: vec![],
        advanced_results: vec![],
        total: 0,
        difficulty: None,
        criticals: 0,
        messy: false,
        bestial: false,
        brutal: false,
        raw: Json::Object(vec![]),
    }
}

#[test]
fn ring_dedups_by_source_id() {
    let mut h = RollHistory::new();
    h.push_roll(make_roll("a"));
    h.push_roll(make_roll("b"));
    h.push_roll(make_roll("a"));
    let rolls = h.get_rolls();
    assert_eq!(rolls.len(), 2);
    assert_eq!(rolls[0].source_id, "a", "newest-first; re-pushed 'a' is newest");
    assert_eq!(rolls[1].source_id, "b");
}

#[test]
fn ring_caps_at_capacity() {
    let mut h = RollHistory::new();
    for i in 0..(ROLL_HISTORY_CAPACITY + 50) {
        h.push_roll(make_roll(&format!("id_{i}")));
    }
    assert_eq!(h.get_rolls().len(), ROLL_HISTORY_CAPACITY);
}

#[test]
fn ring_newest_first_ordering() {
    let mut h = RollHistory::new();
    h.push_roll(make_roll("first"));
    h.push_roll(make_roll("second"));
    h.push_roll(make_roll("third"));
    let rolls = h.get_rolls();
    assert_eq!(rolls.len(), 3);
    assert_eq!(rolls[0].source_id, "third");
    assert_eq!(rolls[1].source_id, "second");
    assert_eq!(rolls[2].source_id, "first");
}

#[test]
fn ring_drops_oldest_when_full() {
    let mut h = RollHistory::new();
    for i in 0..(ROLL_HISTORY_CAPACITY + 1) {
        h.push_roll(make_roll(&format!("id_{i}")));
    }
    let rolls = h.get_rolls();
    assert_eq!(rolls[0].source_id, format!("id_{}", ROLL_HISTORY_CAPACITY));
    assert_eq!(rolls[ROLL_HISTORY_CAPACITY - 1].source_id, "id_1");
}

#[test]
fn ring_pushing_same_roll_twice_is_one_push() {
    let mut a = RollHistory::new();
    a.push_roll(make_roll("x"));
    a.push_roll(make_roll("y"));
    let mut b = RollHistory::new();
    b.push_roll(make_roll("x"));
    b.push_roll(make_roll("y"));
    b.push_roll(make_roll("y"));
    let ids_a: Vec<String> = a.get_rolls().into_iter().map(|r| r.source_id).collect();
    let ids_b: Vec<String> = b.get_rolls().into_iter().map(|r| r.source_id).collect();
    assert_eq!(ids_a, ids_b);
}

// ── Foundry translation and dispatch ───────────────────────────────────

fn actor(id: &str, system: Json) -> FoundryActor {
    FoundryActor { id: id.into(), name: format!("Actor {id}"), owner: Some("player-1".into()), system }
}

fn obj(entries: Vec<(&str, Json)>) -> Json {
    Json::Object(entries.into_iter().map(|(k, v)| (k.to_string(), v)).collect())
}

#[test]
fn foundry_actor_translates_stats_and_tracks() {
    let sys = obj(vec![
        ("hunger", obj(vec![("value", num(3))])),
        ("humanity", obj(vec![("value", Json::text("7")), ("stains", num(1))])),
        ("blood", obj(vec![("potency", num(300))])),
        ("health", obj(vec![("max", num(7)), ("superficial", num(2))])),
        ("willpower", Json::text("not an object")),
    ]);
    let c = to_canonical(&actor("a1", sys));
    assert_eq!(c.source, SourceKind::Foundry);
    assert_eq!(c.source_id, "a1");
    assert_eq!(c.controlled_by.as_deref(), Some("player-1"));
    assert_eq!(c.hunger, Some(3));
    assert_eq!(c.humanity, Some(7));
    assert_eq!(c.humanity_stains, Some(1));
    assert_eq!(c.blood_potency, None, "300 does not fit a u8");
    let h = c.health.unwrap();
    assert_eq!((h.max, h.superficial, h.aggravated), (7, 2, 0));
    assert!(c.willpower.is_none());
    assert_eq!(text(&c.raw, "id"), "a1");
}

#[test]
fn foundry_inbound_events() {
    let src = FoundrySource;
    let ev = src.handle_inbound(FoundryInbound::Actors {
        actors: vec![actor("a", obj(vec![])), actor("b", obj(vec![]))],
    });
    assert_eq!(ev.len(), 1);
    match &ev[0] {
        InboundEvent::CharactersUpdated(cs) => {
            assert_eq!(cs.len(), 2);
            assert_eq!(cs[1].source_id, "b");
        }
        other => panic!("unexpected {other:?}"),
    }
    let ev = src.handle_inbound(FoundryInbound::RollResult {
        message: make_msg("vampire", "1dv", vec![10], vec![]),
    });
    assert!(matches!(&ev[0], InboundEvent::RollReceived(r) if r.criticals == 1));
    let ev = src.handle_inbound(FoundryInbound::Error {
        refers_to: "x".into(),
        request_id: None,
        code: "c".into(),
        message: "m".into(),
    });
    assert!(ev.is_empty());
}

#[test]
fn foundry_frame_plan_hello_defaults() {
    let plan = foundry_frame_plan(&FoundryInbound::Hello {
        protocol_version: None,
        world_id: Some("w".into()),
        world_title: None,
        system_id: None,
        system_version: None,
        capabilities: None,
    });
    match plan {
        FramePlan::StoreInfoThenDispatch(info) => {
            assert_eq!(info.protocol_version, 0);
            assert_eq!(info.capabilities, vec!["actors".to_string()]);
            assert_eq!(info.world_id.as_deref(), Some("w"));
        }
        other => panic!("unexpected {other:?}"),
    }
    let plan = foundry_frame_plan(&FoundryInbound::Error {
        refers_to: "actor.update_field".into(),
        request_id: Some("r1".into()),
        code: "E_NOPE".into(),
        message: "no".into(),
    });
    match plan {
        FramePlan::ReportError(j) => {
            assert_eq!(text(&j, "refers_to"), "actor.update_field");
            assert_eq!(text(&j, "code"), "E_NOPE");
            assert_eq!(text(&j, "message"), "no");
        }
        other => panic!("unexpected {other:?}"),
    }
    assert!(matches!(
        foundry_frame_plan(&FoundryInbound::Actors { actors: vec![] }),
        FramePlan::Dispatch
    ));
}

#[test]
fn foundry_set_attribute_routes() {
    let src = FoundrySource;
    match src.route_set_attribute("a", "resonance", "Choleric") {
        SetAttributeRoute::Envelope(j) => {
            assert_eq!(text(&j, "type"), "actor.create_item_simple");
            assert_eq!(text(&j, "item_name"), "Choleric");
        }
        other => panic!("unexpected {other:?}"),
    }
    assert!(matches!(src.route_set_attribute("a", "dyscrasia", "{}"), SetAttributeRoute::ApplyDyscrasia));
    match src.route_set_attribute("a", "hunger", "3") {
        SetAttributeRoute::UpdateField { path } => assert_eq!(path, "system.hunger.value"),
        other => panic!("unexpected {other:?}"),
    }
    assert_eq!(canonical_to_path("system.custom.path"), "system.custom.path");
}

#[test]
fn foundry_attribute_and_skill_paths() {
    let src = FoundrySource;
    match src.route_set_attribute("abc", "attribute.strength", "4") {
        SetAttributeRoute::UpdateField { path } => assert_eq!(path, "system.attributes.strength.value"),
        other => panic!("unexpected {other:?}"),
    }
    assert_eq!(canonical_to_path("skill.brawl"), "system.skills.brawl.value");
    assert_eq!(canonical_to_path("attribute.wits"), "system.attributes.wits.value");
}

#[test]
fn roll20_events_wrap_characters() {
    let ch = Character { id: "c1".into(), name: "N".into(), controlled_by: "".into(), attributes: vec![] };
    let ev = roll20_events(&Roll20Source, InboundMsg::CharacterUpdate { character: ch });
    match &ev[0] {
        InboundEvent::CharactersUpdated(cs) => {
            assert_eq!(cs[0].source, SourceKind::Roll20);
            assert!(cs[0].controlled_by.is_none());
        }
        other => panic!("unexpected {other:?}"),
    }
}

// ── bridge state ───────────────────────────────────────────────────────

fn character(source: SourceKind, id: &str, hunger: u8) -> CanonicalCharacter {
    CanonicalCharacter {
        source,
        source_id: id.into(),
        name: id.into(),
        controlled_by: None,
        hunger: Some(hunger),
        health: None,
        willpower: None,
        humanity: None,
        humanity_stains: None,
        blood_potency: None,
        raw: Json::Object(vec![]),
    }
}

#[test]
fn bridge_state_upserts_by_source_and_id() {
    let mut core = BridgeCore::new();
    let n = core.apply_events(&vec![InboundEvent::CharactersUpdated(vec![
        character(SourceKind::Foundry, "a", 1),
        character(SourceKind::Roll20, "a", 2),
    ])]);
    assert_eq!(n.len(), 1);
    let n = core.apply_events(&vec![InboundEvent::CharactersUpdated(vec![character(SourceKind::Foundry, "a", 4)])]);
    match &n[0] {
        Notice::CharactersChanged(all) => assert_eq!(all.len(), 2),
        other => panic!("unexpected {other:?}"),
    }
    let chars = core.characters();
    assert_eq!(chars.len(), 2);
    let f = chars.iter().find(|c| c.source == SourceKind::Foundry).unwrap();
    assert_eq!(f.hunger, Some(4));
    let r = chars.iter().find(|c| c.source == SourceKind::Roll20).unwrap();
    assert_eq!(r.hunger, Some(2));
}

#[test]
fn bridge_state_empty_update_says_nothing() {
    let mut core = BridgeCore::new();
    let n = core.apply_events(&vec![InboundEvent::CharactersUpdated(vec![])]);
    assert!(n.is_empty());
}

#[test]
fn bridge_state_records_rolls_and_reaps() {
    let mut core = BridgeCore::new();
    let n = core.apply_events(&vec![
        InboundEvent::RollReceived(make_roll("r1")),
        InboundEvent::ItemDeleted { source: SourceKind::Foundry, source_id: "a".into(), item_id: "i".into() },
        InboundEvent::RollReceived(make_roll("r1")),
    ]);
    assert_eq!(n.len(), 3);
    assert!(matches!(&n[1], Notice::ReapItem { item_id, .. } if item_id == "i"));
    assert_eq!(core.rolls().len(), 1);
}

#[test]
fn bridge_state_info_lifecycle() {
    let mut core = BridgeCore::new();
    let info = SourceInfo { protocol_version: 2, ..SourceInfo::default() };
    core.set_info(SourceKind::Foundry, info.clone());
    assert_eq!(core.info(SourceKind::Foundry), Some(&info));
    assert_eq!(core.info(SourceKind::Roll20), None);
    core.apply_events(&vec![InboundEvent::CharactersUpdated(vec![character(SourceKind::Foundry, "a", 1)])]);
    core.disconnect(SourceKind::Foundry);
    assert_eq!(core.info(SourceKind::Foundry), None);
    assert_eq!(core.characters().len(), 1, "characters persist across a disconnect");
}
