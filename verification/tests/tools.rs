use vtmtools::bridge::types::{CanonicalCharacter, SourceKind};
use vtmtools::export::{format_to_md, MdValue};
use vtmtools::json::Json;
use vtmtools::library::{
    advantage_not_found, dyscrasia_seed, points_field, kind_to_featuretype, kind_to_str, matching_rows, roll_random_entry,
    roll_random_row, rtype_to_str, seed_level_fields, seed_rows, str_to_kind, str_to_rtype,
};
use vtmtools::modifier::{
    apply_modifier_patch, apply_template_patch, check_materialize_name, check_new_modifier, check_new_template,
    str_to_source, source_to_str, CharacterModifier, ModifierBinding, ModifierEffect, ModifierKind, ModifierPatch,
    NewCharacterModifier, NewStatusTemplate, StatusTemplate, StatusTemplatePatch,
};
use vtmtools::saved::placeholders;
use vtmtools::tools::character::{
    add_advantage_payload, add_feature_item, check_add_advantage, check_remove_advantage, check_saved_featuretype,
    check_set_field, live_failed, live_value_text, local_item_id, no_saved_row, remove_advantage_payload,
    remove_feature_item, saved_failed, EditKind, FeatureType, WritePlan, WriteTarget,
};
use vtmtools::tools::gm_screen::{
    effect_to_bonus, is_ours, load_failed, merge_bonuses, plan_push, push_gate, source_tag, translate_effects,
};
use vtmtools::types::{AdvantageKind, ResonanceType};

fn obj(entries: Vec<(&str, Json)>) -> Json {
    Json::Object(entries.into_iter().map(|(k, v)| (k.to_string(), v)).collect())
}

fn field<'a>(j: &'a Json, key: &str) -> &'a Json {
    j.get(key).unwrap_or_else(|| panic!("missing key {key}"))
}

fn strs(v: &[&str]) -> Json {
    Json::Array(v.iter().map(|s| Json::text(s)).collect())
}

fn bonus(source: &str, value: u64) -> Json {
    obj(vec![("source", Json::text(source)), ("value", Json::from_u64(value))])
}

// ── GM screen ──────────────────────────────────────────────────────────

fn pool_effect(delta: i32, paths: Vec<&str>) -> ModifierEffect {
    ModifierEffect {
        kind: ModifierKind::Pool,
        scope: None,
        delta: Some(delta),
        note: None,
        paths: paths.into_iter().map(String::from).collect(),
    }
}

#[test]
fn translation_pool_with_paths_emits_bonus() {
    let e = pool_effect(2, vec!["attributes.strength", "skills.brawl"]);
    let b = effect_to_bonus(&e, 7, "Brawl Buff").expect("pool kind translates");
    assert_eq!(field(&b, "value"), &Json::from_u64(2));
    assert_eq!(field(&b, "paths"), &strs(&["attributes.strength", "skills.brawl"]));
    assert_eq!(field(&b, "source"), &Json::text("GM Screen #7: Brawl Buff"));
    assert_eq!(field(field(&b, "activeWhen"), "check"), &Json::text("always"));
    assert_eq!(field(&b, "displayWhenInactive"), &Json::Bool(true));
    assert_eq!(field(&b, "unless"), &Json::text(""));
}

#[test]
fn translation_pool_with_no_paths_emits_pathless_bonus() {
    let e = pool_effect(3, vec![]);
    let b = effect_to_bonus(&e, 1, "X").expect("pool kind translates");
    assert_eq!(field(&b, "paths"), &strs(&[""]), "empty paths becomes [\"\"] per Foundry sample");
}

#[test]
fn translation_difficulty_returns_none() {
    let e = ModifierEffect {
        kind: ModifierKind::Difficulty,
        scope: None,
        delta: Some(-1),
        note: None,
        paths: vec!["attributes.strength".into()],
    };
    assert!(effect_to_bonus(&e, 1, "X").is_none(), "difficulty must skip");
}

#[test]
fn translation_note_returns_none() {
    let e = ModifierEffect { kind: ModifierKind::Note, scope: None, delta: None, note: Some("careful".into()), paths: vec![] };
    assert!(effect_to_bonus(&e, 1, "X").is_none(), "note must skip");
}

#[test]
fn merge_filters_only_our_modifier_id() {
    let existing = vec![
        obj(vec![("source", Json::text("Player Buff")), ("value", Json::from_u64(1)), ("paths", strs(&["x"]))]),
        obj(vec![("source", Json::text("GM Screen #5: A")), ("value", Json::from_u64(2)), ("paths", strs(&["y"]))]),
        obj(vec![("source", Json::text("GM Screen #50: B")), ("value", Json::from_u64(3)), ("paths", strs(&["z"]))]),
        obj(vec![("source", Json::text("GM Screen #6: C")), ("value", Json::from_u64(4)), ("paths", strs(&["w"]))]),
        obj(vec![("source", Json::text("GM Screen #5")), ("value", Json::from_u64(9)), ("paths", strs(&[]))]),
    ];
    let ours = vec![obj(vec![("source", Json::text("GM Screen #5: A")), ("value", Json::from_u64(99)), ("paths", strs(&["new"]))])];
    let merged = merge_bonuses(&existing, 5, ours);
    assert_eq!(merged.len(), 4, "kept 3 non-ours + 1 new");
    assert!(merged.iter().any(|b| field(b, "source") == &Json::text("Player Buff")));
    assert!(merged.iter().any(|b| field(b, "source") == &Json::text("GM Screen #50: B")));
    assert!(merged.iter().any(|b| field(b, "source") == &Json::text("GM Screen #6: C")));
    let ours_new = merged.iter().find(|b| field(b, "source") == &Json::text("GM Screen #5: A")).unwrap();
    assert_eq!(field(ours_new, "value"), &Json::from_u64(99));
}

#[test]
fn merge_with_no_existing_bonuses_just_appends() {
    let merged = merge_bonuses(&vec![], 1, vec![obj(vec![("source", Json::text("GM Screen #1: X"))])]);
    assert_eq!(merged.len(), 1);
}

#[test]
fn merge_idempotent_under_repeated_push() {
    let initial: Vec<Json> = vec![];
    let ours_v1 = vec![obj(vec![("source", Json::text("GM Screen #2: X")), ("value", Json::from_u64(1)), ("paths", strs(&["a"]))])];
    let after_first = merge_bonuses(&initial, 2, ours_v1);
    let ours_v2 = vec![obj(vec![("source", Json::text("GM Screen #2: X")), ("value", Json::from_u64(1)), ("paths", strs(&["a"]))])];
    let after_second = merge_bonuses(&after_first, 2, ours_v2);
    assert_eq!(after_first, after_second, "re-push yields the same array");
}

#[test]
fn is_ours_matches_exact_id() {
    assert!(is_ours(&bonus("GM Screen #5", 1), 5));
    assert!(is_ours(&bonus("GM Screen #5: A", 1), 5));
    assert!(!is_ours(&bonus("GM Screen #50: A", 1), 5));
    assert!(!is_ours(&bonus("GM Screen #5x", 1), 5));
    assert!(!is_ours(&obj(vec![("source", Json::from_u64(5))]), 5));
    assert!(!is_ours(&obj(vec![]), 5));
    assert!(is_ours(&bonus("GM Screen #-3: neg", 1), -3));
    assert_eq!(source_tag(-3, "neg"), "GM Screen #-3: neg");
}

fn modifier(source: SourceKind, binding: ModifierBinding, effects: Vec<ModifierEffect>) -> CharacterModifier {
    CharacterModifier {
        id: 5,
        source,
        source_id: "actor-x".into(),
        name: "Buff".into(),
        description: String::new(),
        effects,
        binding,
        tags: vec![],
        is_active: true,
        is_hidden: false,
        origin_template_id: None,
        foundry_captured_labels: vec![],
        created_at: String::new(),
        updated_at: String::new(),
    }
}

fn cached_actor(raw: Json) -> CanonicalCharacter {
    CanonicalCharacter {
        source: SourceKind::Foundry,
        source_id: "actor-x".into(),
        name: "Cached".into(),
        controlled_by: None,
        hunger: None,
        health: None,
        willpower: None,
        humanity: None,
        humanity_stains: None,
        blood_potency: None,
        raw,
    }
}

fn advantage(item: &str) -> ModifierBinding {
    ModifierBinding::Advantage { item_id: item.into() }
}

#[test]
fn push_gate_requires_connection() {
    assert!(push_gate(true).is_ok());
    assert!(push_gate(false).unwrap_err().to_lowercase().contains("not connected"));
    assert_eq!(load_failed(7, "db/modifier.get: not found"), "gm_screen/push: load modifier 7: db/modifier.get: not found");
}

#[test]
fn push_refusals_in_order() {
    let m = modifier(SourceKind::Roll20, advantage("m1"), vec![]);
    assert_eq!(
        plan_push(&m, None).unwrap_err(),
        "gm_screen/push: modifier 5 is not a Foundry-source modifier (source=Roll20)"
    );
    let m = modifier(SourceKind::Foundry, ModifierBinding::Free, vec![]);
    assert_eq!(
        plan_push(&m, None).unwrap_err(),
        "gm_screen/push: modifier 5 has free binding; only advantage-bound modifiers can push"
    );
    let m = modifier(SourceKind::Foundry, advantage("m1"), vec![]);
    assert_eq!(
        plan_push(&m, None).unwrap_err(),
        "gm_screen/push: actor actor-x not in bridge cache (is Foundry connected?)"
    );
    let a = cached_actor(obj(vec![]));
    assert_eq!(plan_push(&m, Some(&a)).unwrap_err(), "gm_screen/push: actor actor-x raw has no items[] array");
    let a = cached_actor(obj(vec![("items", Json::Array(vec![obj(vec![("_id", Json::text("other"))])]))]));
    assert_eq!(
        plan_push(&m, Some(&a)).unwrap_err(),
        "gm_screen/push: item m1 not found on actor actor-x (was the merit deleted?)"
    );
}

#[test]
fn push_plan_merges_into_bound_item() {
    let effects = vec![
        pool_effect(2, vec!["attributes.strength"]),
        ModifierEffect { kind: ModifierKind::Note, scope: None, delta: None, note: Some("n".into()), paths: vec![] },
        ModifierEffect { kind: ModifierKind::Stat, scope: None, delta: Some(1), note: None, paths: vec![] },
        ModifierEffect { kind: ModifierKind::Difficulty, scope: None, delta: Some(1), note: None, paths: vec![] },
    ];
    let m = modifier(SourceKind::Foundry, advantage("merit-1"), effects);
    let item = obj(vec![
        ("_id", Json::text("merit-1")),
        ("system", obj(vec![("bonuses", Json::Array(vec![bonus("Player", 1), bonus("GM Screen #5: Old", 9)]))])),
    ]);
    let a = cached_actor(obj(vec![("items", Json::Array(vec![item]))]));
    let plan = plan_push(&m, Some(&a)).expect("pushable");
    assert_eq!(plan.report.pushed, 1);
    let reasons: Vec<(usize, String)> = plan.report.skipped.iter().map(|s| (s.effect_index, s.reason.clone())).collect();
    assert_eq!(
        reasons,
        vec![
            (1, "note: descriptive only".to_string()),
            (2, "stat: render-time card delta only, no Foundry bonus".to_string()),
            (3, "difficulty: no Foundry bonus equivalent".to_string()),
        ]
    );
    assert_eq!(field(&plan.payload, "type"), &Json::text("actor.update_item_field"));
    assert_eq!(field(&plan.payload, "item_id"), &Json::text("merit-1"));
    assert_eq!(field(&plan.payload, "path"), &Json::text("system.bonuses"));
    match field(&plan.payload, "value") {
        Json::Array(v) => {
            assert_eq!(v.len(), 2);
            assert_eq!(field(&v[0], "source"), &Json::text("Player"));
            assert_eq!(field(&v[1], "source"), &Json::text("GM Screen #5: Buff"));
        }
        other => panic!("unexpected {other:?}"),
    }
}

#[test]
fn push_plan_item_without_bonuses_gets_ours_only() {
    let m = modifier(SourceKind::Foundry, advantage("m"), vec![pool_effect(1, vec![])]);
    let a = cached_actor(obj(vec![("items", Json::Array(vec![obj(vec![("_id", Json::text("m"))])]))]));
    let plan = plan_push(&m, Some(&a)).unwrap();
    assert!(matches!(field(&plan.payload, "value"), Json::Array(v) if v.len() == 1));
}

#[test]
fn translate_effects_counts() {
    let m = modifier(SourceKind::Foundry, ModifierBinding::Free, vec![pool_effect(1, vec![]), pool_effect(2, vec![])]);
    let (b, s) = translate_effects(&m);
    assert_eq!(b.len(), 2);
    assert!(s.is_empty());
}

// ── character router ───────────────────────────────────────────────────

#[test]
fn set_field_checks() {
    let e = check_set_field(WriteTarget::Live, SourceKind::Foundry, "xyzzy").unwrap_err();
    assert!(e.contains("unknown field 'xyzzy'"), "got: {e}");
    let e = check_set_field(WriteTarget::Live, SourceKind::Roll20, "hunger").unwrap_err();
    assert!(e.contains("Roll20 live editing of canonical names not yet supported"), "got: {e}");
    assert_eq!(
        check_set_field(WriteTarget::Saved, SourceKind::Roll20, "hunger").unwrap(),
        WritePlan { saved: true, live: false }
    );
    assert_eq!(
        check_set_field(WriteTarget::Both, SourceKind::Foundry, "attribute.strength").unwrap(),
        WritePlan { saved: true, live: true }
    );
    assert_eq!(
        check_set_field(WriteTarget::Live, SourceKind::Foundry, "hunger").unwrap(),
        WritePlan { saved: false, live: true }
    );
}

#[test]
fn add_advantage_checks() {
    let e = check_add_advantage(WriteTarget::Live, SourceKind::Foundry, "   ", 2).unwrap_err();
    assert!(e.contains("empty name"), "got: {e}");
    let e = check_add_advantage(WriteTarget::Live, SourceKind::Foundry, "X", 11).unwrap_err();
    assert!(e.contains("out of range"), "got: {e}");
    assert_eq!(e, "character/add_advantage: points 11 out of range 0..=10");
    let e = check_add_advantage(WriteTarget::Live, SourceKind::Foundry, "X", -1).unwrap_err();
    assert_eq!(e, "character/add_advantage: points -1 out of range 0..=10");
    let e = check_add_advantage(WriteTarget::Live, SourceKind::Roll20, "X", 1).unwrap_err();
    assert!(e.contains("Roll20 live editing of advantages not yet supported"), "got: {e}");
    assert!(check_add_advantage(WriteTarget::Saved, SourceKind::Roll20, "X", 1).is_ok());
}

#[test]
fn remove_advantage_checks() {
    let e = check_remove_advantage(WriteTarget::Live, SourceKind::Foundry, "  ").unwrap_err();
    assert!(e.contains("empty item_id"), "got: {e}");
    let e = check_remove_advantage(WriteTarget::Live, SourceKind::Roll20, "item-1").unwrap_err();
    assert!(e.contains("Roll20 live editing of advantages not yet supported"), "got: {e}");
    assert!(check_remove_advantage(WriteTarget::Both, SourceKind::Foundry, "item-1").is_ok());
}

#[test]
fn partial_failure_messages() {
    assert_eq!(
        live_failed(EditKind::SetField, WriteTarget::Both, "boom"),
        "character/set_field: saved updated, live failed: boom"
    );
    assert_eq!(live_failed(EditKind::SetField, WriteTarget::Live, "boom"), "boom");
    assert_eq!(
        saved_failed(EditKind::AddAdvantage, WriteTarget::Both, "nope"),
        "character/add_advantage: saved write failed: nope"
    );
    assert_eq!(
        live_failed(EditKind::RemoveAdvantage, WriteTarget::Both, "x"),
        "character/remove_advantage: saved updated, live failed: x"
    );
    assert_eq!(no_saved_row(SourceKind::Foundry, "abc"), "character/set_field: no saved row for foundry/abc");
}

#[test]
fn live_payloads() {
    let p = add_advantage_payload("actor-xyz", FeatureType::Flaw, "Bad Sight", "Squints.", 1);
    assert_eq!(field(&p, "type"), &Json::text("actor.create_feature"));
    assert_eq!(field(&p, "actor_id"), &Json::text("actor-xyz"));
    assert_eq!(field(&p, "featuretype"), &Json::text("flaw"));
    assert_eq!(field(&p, "name"), &Json::text("Bad Sight"));
    let p = remove_advantage_payload("actor-xyz", "item-bg");
    assert_eq!(field(&p, "type"), &Json::text("actor.delete_item_by_id"));
    assert_eq!(field(&p, "item_id"), &Json::text("item-bg"));
    assert_eq!(live_value_text(&Json::text("3")), Some("3".to_string()));
    assert_eq!(live_value_text(&Json::from_u64(3)), None);
}

#[test]
fn feature_type_names() {
    assert_eq!(FeatureType::Merit.as_str(), "merit");
    assert_eq!(FeatureType::Flaw.as_str(), "flaw");
    assert_eq!(FeatureType::Background.as_str(), "background");
    assert_eq!(FeatureType::Boon.as_str(), "boon");
}

#[test]
fn local_item_ids_are_prefixed_uuids() {
    let id = local_item_id();
    assert!(id.starts_with("local-"), "got id: {id}");
    assert_eq!(id.len(), 42);
    let u: Vec<char> = id[6..].chars().collect();
    for (i, c) in u.iter().enumerate() {
        if [8, 13, 18, 23].contains(&i) {
            assert_eq!(*c, '-', "got id: {id}");
        } else {
            assert!(c.is_ascii_digit() || ('a'..='f').contains(c), "got id: {id}");
        }
    }
    assert_eq!(u[14], '4');
    assert!(['8', '9', 'a', 'b'].contains(&u[19]), "got id: {id}");
    assert_ne!(local_item_id(), local_item_id());
}

fn item(id: &str, ft: &str) -> Json {
    obj(vec![
        ("_id", Json::text(id)),
        ("type", Json::text("feature")),
        ("name", Json::text("X")),
        ("system", obj(vec![("featuretype", Json::text(ft))])),
        ("effects", Json::Array(vec![])),
    ])
}

fn items_of(raw: &Json) -> &Vec<Json> {
    match field(raw, "items") {
        Json::Array(v) => v,
        other => panic!("items is {other:?}"),
    }
}

#[test]
fn add_feature_item_appends_and_materializes() {
    let mut raw = obj(vec![]);
    add_feature_item(&mut raw, "local-1".into(), "merit", "Iron Will", "Strong-minded.", 2).unwrap();
    let items = items_of(&raw);
    assert_eq!(items.len(), 1);
    assert_eq!(field(&items[0], "_id"), &Json::text("local-1"));
    assert_eq!(field(&items[0], "type"), &Json::text("feature"));
    assert_eq!(field(&items[0], "name"), &Json::text("Iron Will"));
    let sys = field(&items[0], "system");
    assert_eq!(field(sys, "featuretype"), &Json::text("merit"));
    assert_eq!(field(sys, "description"), &Json::text("Strong-minded."));
    assert_eq!(field(sys, "points"), &Json::from_u64(2));
    add_feature_item(&mut raw, "local-2".into(), "boon", "Owed Favor", "From Camarilla.", 3).unwrap();
    assert_eq!(items_of(&raw).len(), 2);
}

#[test]
fn add_feature_item_refusals() {
    let mut raw = Json::from_u64(1);
    assert_eq!(
        add_feature_item(&mut raw, "l".into(), "merit", "X", "", 1).unwrap_err(),
        "db/saved_character.add_advantage: canonical.raw is not an object"
    );
    let mut raw = obj(vec![("items", Json::text("nope"))]);
    let before = obj(vec![("items", Json::text("nope"))]);
    assert_eq!(
        add_feature_item(&mut raw, "l".into(), "merit", "X", "", 1).unwrap_err(),
        "db/saved_character.add_advantage: canonical.raw.items is not an array"
    );
    assert_eq!(raw, before);
    assert!(check_saved_featuretype("boon").is_ok());
    let e = check_saved_featuretype("discipline").unwrap_err();
    assert!(e.contains("invalid featuretype"), "got: {e}");
}

#[test]
fn remove_feature_item_happy_path() {
    let mut raw = obj(vec![("items", Json::Array(vec![item("item-keep", "merit"), item("item-remove", "merit")]))]);
    remove_feature_item(&mut raw, "merit", "item-remove").unwrap();
    let items = items_of(&raw);
    assert_eq!(items.len(), 1);
    assert_eq!(field(&items[0], "_id"), &Json::text("item-keep"));
}

#[test]
fn remove_feature_item_refusals() {
    let mut raw = obj(vec![("items", Json::Array(vec![item("item-1", "merit")]))]);
    let e = remove_feature_item(&mut raw, "merit", "nonexistent").unwrap_err();
    assert!(e.contains("no merit with id 'nonexistent'"), "got: {e}");
    let e = remove_feature_item(&mut raw, "flaw", "item-1").unwrap_err();
    assert!(e.contains("no flaw with id 'item-1'"), "got: {e}");
    assert_eq!(items_of(&raw).len(), 1);
    let mut empty = obj(vec![]);
    let e = remove_feature_item(&mut empty, "merit", "item-1").unwrap_err();
    assert!(e.contains("no item with id 'item-1'"), "got: {e}");
}

#[test]
fn remove_undoes_add() {
    let original = obj(vec![("name", Json::text("C")), ("items", Json::Array(vec![item("a", "merit")]))]);
    let mut raw = obj(vec![("name", Json::text("C")), ("items", Json::Array(vec![item("a", "merit")]))]);
    add_feature_item(&mut raw, "local-z".into(), "flaw", "F", "d", 1).unwrap();
    remove_feature_item(&mut raw, "flaw", "local-z").unwrap();
    assert_eq!(raw, original);
}

// ── modifiers ──────────────────────────────────────────────────────────

#[test]
fn source_strings_round_trip() {
    for k in [SourceKind::Roll20, SourceKind::Foundry] {
        assert_eq!(str_to_source(source_to_str(k)), Some(k));
    }
    assert_eq!(str_to_source("discord"), None);
}

fn new_modifier(name: &str) -> NewCharacterModifier {
    NewCharacterModifier {
        source: SourceKind::Foundry,
        source_id: "a".into(),
        name: name.into(),
        description: String::new(),
        effects: vec![],
        binding: ModifierBinding::Free,
        tags: vec![],
        origin_template_id: None,
        foundry_captured_labels: vec![],
    }
}

#[test]
fn add_rejects_empty_name() {
    assert_eq!(check_new_modifier(&new_modifier("  ")).unwrap_err(), "db/modifier.add: empty name");
    assert!(check_new_modifier(&new_modifier("Buff")).is_ok());
    assert_eq!(check_materialize_name("").unwrap_err(), "db/modifier.materialize: empty name");
    let t = NewStatusTemplate { name: "\n".into(), description: String::new(), effects: vec![], tags: vec![] };
    assert_eq!(check_new_template(&t).unwrap_err(), "db/status_template.add: empty name");
}

#[test]
fn update_applies_partial_patch_and_preserves_untouched_fields() {
    let mut m = modifier(SourceKind::Foundry, ModifierBinding::Free, vec![pool_effect(1, vec![])]);
    m.description = "old".into();
    m.tags = vec!["t".into()];
    apply_modifier_patch(&mut m, ModifierPatch { name: Some("New".into()), description: None, effects: None, tags: Some(vec![]) })
        .unwrap();
    assert_eq!(m.name, "New");
    assert_eq!(m.description, "old");
    assert_eq!(m.effects.len(), 1);
    assert!(m.tags.is_empty());
    let e = apply_modifier_patch(&mut m, ModifierPatch { name: Some(" ".into()), description: Some("x".into()), effects: None, tags: None })
        .unwrap_err();
    assert_eq!(e, "db/modifier.update: empty name");
    assert_eq!(m.description, "old", "a refused patch changes nothing");
}

#[test]
fn template_patch() {
    let mut t = StatusTemplate {
        id: 1,
        name: "Blinded".into(),
        description: String::new(),
        effects: vec![],
        tags: vec![],
        created_at: String::new(),
        updated_at: String::new(),
    };
    apply_template_patch(&mut t, StatusTemplatePatch { name: None, description: Some("dark".into()), effects: None, tags: None })
        .unwrap();
    assert_eq!(t.name, "Blinded");
    assert_eq!(t.description, "dark");
    assert!(apply_template_patch(&mut t, StatusTemplatePatch { name: Some("".into()), description: None, effects: None, tags: None })
        .is_err());
}

// ── library ────────────────────────────────────────────────────────────

#[test]
fn kind_maps_to_featuretype_one_to_one() {
    assert_eq!(kind_to_featuretype(AdvantageKind::Merit), "merit");
    assert_eq!(kind_to_featuretype(AdvantageKind::Flaw), "flaw");
    assert_eq!(kind_to_featuretype(AdvantageKind::Background), "background");
    assert_eq!(kind_to_featuretype(AdvantageKind::Boon), "boon");
}

#[test]
fn kind_strings_round_trip() {
    for k in [AdvantageKind::Merit, AdvantageKind::Flaw, AdvantageKind::Background, AdvantageKind::Boon] {
        assert_eq!(str_to_kind(kind_to_str(k)).unwrap(), k);
    }
    assert_eq!(str_to_kind("feat").unwrap_err(), "db/advantage: unknown kind: feat");
}

#[test]
fn resonance_strings_round_trip() {
    for r in [ResonanceType::Phlegmatic, ResonanceType::Melancholy, ResonanceType::Choleric, ResonanceType::Sanguine] {
        assert_eq!(str_to_rtype(rtype_to_str(r)), r);
    }
    assert_eq!(str_to_rtype("Unknown"), ResonanceType::Sanguine);
}

fn tags(v: &[&str]) -> Vec<String> {
    v.iter().map(|s| s.to_string()).collect()
}

#[test]
fn roll_random_tag_matching() {
    let rows = vec![tags(&["Feeding", "Merit"]), tags(&["Social"]), tags(&["Feeding"])];
    assert_eq!(matching_rows(&rows, &tags(&[])), vec![0, 1, 2], "empty tags match any row");
    assert_eq!(matching_rows(&rows, &tags(&["Feeding"])), vec![0, 2]);
    assert_eq!(matching_rows(&rows, &tags(&["Social", "Merit"])), vec![0, 1], "multi-tag is OR");
    for _ in 0..50 {
        let i = roll_random_row(&rows, &tags(&["Feeding"])).unwrap();
        assert!(i == 0 || i == 2);
    }
    assert_eq!(roll_random_row(&rows, &tags(&["Nope"])), None);
    assert_eq!(roll_random_row(&vec![], &tags(&[])), None);
    assert_eq!(roll_random_entry(0), None);
    assert!(roll_random_entry(3).unwrap() < 3);
}

#[test]
fn seeds() {
    let d = dyscrasia_seed();
    assert_eq!(d.len(), 26);
    assert_eq!(d.iter().filter(|e| e.resonance_type == ResonanceType::Melancholy).count(), 6);
    assert_eq!(d[0].name, "Chill");
    let rows = seed_rows();
    assert_eq!(rows.len(), 10);
    assert_eq!(rows[4].name, "Allies");
    assert_eq!(rows[4].level_max, Some(5));
    assert_eq!(rows[9].name, "Enemy");
    assert_eq!(rows[9].level_max, Some(2));
    assert_eq!(rows[9].tags, &["VTM 5e", "Flaw", "Social"]);
    assert_eq!(rows[0].level_max, None);
    assert_eq!(d[7].name, "In Mourning");
    assert_eq!(d[13].name, "Bully");
    assert_eq!(d[25].name, "Stirring");
    assert_eq!(d[0].bonus, "+2 dice to resist frenzy");
    assert_eq!(seed_level_fields(Some(1), Some(5)), vec![("min_level", 1), ("max_level", 5)]);
    assert_eq!(seed_level_fields(None, Some(5)), vec![("min_level", 1), ("max_level", 5)]);
    assert_eq!(seed_level_fields(Some(3), None), vec![("level", 3)]);
    assert!(seed_level_fields(None, None).is_empty());
    assert_eq!(advantage_not_found(4), "tools/library_push: advantage 4 not found");
}

// ── export and store helpers ───────────────────────────────────────────

#[test]
fn format_to_md_includes_keys_and_values() {
    let entries = vec![
        ("is_acute".to_string(), MdValue::Bool(true)),
        ("temperament".to_string(), MdValue::Text("Intense".into())),
    ];
    let md = format_to_md(&entries);
    assert!(md.contains("Intense"), "should contain temperament value");
    assert!(md.contains("true"), "should contain acute value");
    assert!(md.starts_with("# VTM Roll Result"), "should have header");
}

#[test]
fn format_to_md_exact_layout() {
    let entries = vec![
        ("resonance_type".to_string(), MdValue::Text("Sanguine".into())),
        ("dyscrasia".to_string(), MdValue::Null),
        ("dice".to_string(), MdValue::Rendered("[1,2]".into())),
    ];
    assert_eq!(
        format_to_md(&entries),
        "# VTM Roll Result\n\n**Resonance type:** Sanguine\n\n**Dyscrasia:** \u{2014}\n\n**Dice:** [1,2]\n\n"
    );
}

#[test]
fn sql_placeholders() {
    assert_eq!(placeholders(1), "?");
    assert_eq!(placeholders(3), "?,?,?");
}

#[test]
fn points_field_prefers_level_over_min_level() {
    let f = |v: &[(&str, bool)]| v.iter().map(|(n, b)| (n.to_string(), *b)).collect::<Vec<_>>();
    assert_eq!(points_field(&f(&[("min_level", true), ("level", true)])), Some(1));
    assert_eq!(points_field(&f(&[("min_level", true), ("max_level", true)])), Some(0));
    assert_eq!(points_field(&f(&[("level", false), ("min_level", true)])), Some(1));
    assert_eq!(points_field(&f(&[("source", false)])), None);
    assert_eq!(points_field(&f(&[])), None);
}
