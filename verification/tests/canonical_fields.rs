use vtmtools::bridge::types::{CanonicalCharacter, SourceKind};
use vtmtools::canonical_fields::{
    apply_canonical_field, canonical_to_foundry_path, canonical_to_roll20_attr, is_allowed_name,
    ALLOWED_NAMES, ATTRIBUTE_NAMES, FLAT_NAMES, SKILL_NAMES,
};
use vtmtools::json::Json;

fn sample() -> CanonicalCharacter {
    CanonicalCharacter {
        source: SourceKind::Foundry,
        source_id: "x".to_string(),
        name: "T".to_string(),
        controlled_by: None,
        hunger: None,
        health: None,
        willpower: None,
        humanity: None,
        humanity_stains: None,
        blood_potency: None,
        raw: Json::Object(vec![]),
    }
}

fn obj(entries: Vec<(&str, Json)>) -> Json {
    Json::Object(entries.into_iter().map(|(k, v)| (k.to_string(), v)).collect())
}

fn pointer<'a>(j: &'a Json, path: &[&str]) -> Option<&'a Json> {
    let mut cur = j;
    for p in path {
        cur = cur.get(p)?;
    }
    Some(cur)
}

#[test]
fn apply_hunger_happy_path() {
    let mut c = sample();
    apply_canonical_field(&mut c, "hunger", &Json::from_u64(3)).unwrap();
    assert_eq!(c.hunger, Some(3));
}

#[test]
fn apply_hunger_out_of_range_errors() {
    let mut c = sample();
    let err = apply_canonical_field(&mut c, "hunger", &Json::from_u64(7)).unwrap_err();
    assert!(err.contains("expects integer 0..=5"), "got: {err}");
}

#[test]
fn apply_hunger_wrong_type_errors() {
    let mut c = sample();
    let err = apply_canonical_field(&mut c, "hunger", &Json::text("3")).unwrap_err();
    assert!(err.contains("got string"), "got: {err}");
}

#[test]
fn apply_unknown_name_errors() {
    let mut c = sample();
    let err = apply_canonical_field(&mut c, "xyzzy", &Json::from_u64(0)).unwrap_err();
    assert!(err.contains("unknown field 'xyzzy'"), "got: {err}");
}

#[test]
fn apply_health_creates_default_track_if_missing() {
    let mut c = sample();
    apply_canonical_field(&mut c, "health_superficial", &Json::from_u64(2)).unwrap();
    let t = c.health.unwrap();
    assert_eq!(t.superficial, 2);
    assert_eq!(t.aggravated, 0);
    assert_eq!(t.max, 0);
}

#[test]
fn apply_humanity_stains_happy_path() {
    let mut c = sample();
    apply_canonical_field(&mut c, "humanity_stains", &Json::from_u64(2)).unwrap();
    assert_eq!(c.humanity_stains, Some(2));
}

#[test]
fn every_allowed_name_has_foundry_path() {
    for n in ALLOWED_NAMES {
        assert!(canonical_to_foundry_path(n).is_some(), "missing Foundry path for {n}");
    }
}

#[test]
fn every_allowed_name_applies_via_apply_canonical_field() {
    for n in ALLOWED_NAMES {
        let mut c = sample();
        let v = Json::from_u64(0);
        let res = apply_canonical_field(&mut c, n, &v);
        assert!(res.is_ok(), "apply_canonical_field rejected '{n}': {:?}", res.err());
    }
}

#[test]
fn roll20_attr_stub_returns_none_for_all_names() {
    for n in ALLOWED_NAMES {
        assert!(canonical_to_roll20_attr(n).is_none(), "v1 stub should return None for {n}");
    }
}

#[test]
fn is_allowed_name_accepts_legacy_flat_names() {
    for n in FLAT_NAMES {
        assert!(is_allowed_name(n), "should accept legacy flat name '{n}'");
    }
}

#[test]
fn is_allowed_name_accepts_namespaced_attributes() {
    for n in ATTRIBUTE_NAMES {
        let full = format!("attribute.{n}");
        assert!(is_allowed_name(&full), "should accept '{full}'");
    }
}

#[test]
fn is_allowed_name_accepts_namespaced_skills() {
    for n in SKILL_NAMES {
        let full = format!("skill.{n}");
        assert!(is_allowed_name(&full), "should accept '{full}'");
    }
}

#[test]
fn is_allowed_name_rejects_unknown_attribute_key() {
    assert!(!is_allowed_name("attribute.foo"));
    assert!(!is_allowed_name("attribute."));
}

#[test]
fn is_allowed_name_rejects_unknown_skill_key() {
    assert!(!is_allowed_name("skill.bar"));
    assert!(!is_allowed_name("skill."));
}

#[test]
fn is_allowed_name_rejects_unknown_flat_name() {
    assert!(!is_allowed_name("xyzzy"));
    assert!(!is_allowed_name(""));
}

#[test]
fn flat_names_match_legacy_allowed_names() {
    assert_eq!(FLAT_NAMES, ALLOWED_NAMES);
}

#[test]
fn apply_attribute_strength_writes_into_raw() {
    let mut c = sample();
    apply_canonical_field(&mut c, "attribute.strength", &Json::from_u64(3)).expect("happy path");
    let v = pointer(&c.raw, &["system", "attributes", "strength", "value"]).expect("raw pointer exists");
    assert_eq!(v, &Json::from_u64(3));
}

#[test]
fn apply_skill_brawl_writes_into_raw() {
    let mut c = sample();
    apply_canonical_field(&mut c, "skill.brawl", &Json::from_u64(2)).expect("happy path");
    let v = pointer(&c.raw, &["system", "skills", "brawl", "value"]).expect("raw pointer exists");
    assert_eq!(v, &Json::from_u64(2));
}

#[test]
fn apply_attribute_unknown_key_errors() {
    let mut c = sample();
    let err = apply_canonical_field(&mut c, "attribute.foo", &Json::from_u64(1)).unwrap_err();
    assert!(err.contains("unknown attribute 'foo'"), "got: {err}");
}

#[test]
fn apply_skill_unknown_key_errors() {
    let mut c = sample();
    let err = apply_canonical_field(&mut c, "skill.bar", &Json::from_u64(1)).unwrap_err();
    assert!(err.contains("unknown skill 'bar'"), "got: {err}");
}

#[test]
fn apply_attribute_out_of_range_errors() {
    let mut c = sample();
    let err = apply_canonical_field(&mut c, "attribute.strength", &Json::from_u64(6)).unwrap_err();
    assert!(err.contains("expects integer 0..=5"), "got: {err}");
}

#[test]
fn apply_attribute_wrong_type_errors() {
    let mut c = sample();
    let err = apply_canonical_field(&mut c, "attribute.strength", &Json::text("3")).unwrap_err();
    assert!(err.contains("got string"), "got: {err}");
}

#[test]
fn apply_attribute_overwrites_existing_raw_value() {
    let mut c = sample();
    c.raw = obj(vec![(
        "system",
        obj(vec![("attributes", obj(vec![("strength", obj(vec![("value", Json::from_u64(1))]))]))]),
    )]);
    apply_canonical_field(&mut c, "attribute.strength", &Json::from_u64(4)).expect("happy path");
    assert_eq!(
        pointer(&c.raw, &["system", "attributes", "strength", "value"]),
        Some(&Json::from_u64(4))
    );
}

#[test]
fn apply_skill_creates_intermediate_objects_when_missing() {
    let mut c = sample();
    apply_canonical_field(&mut c, "skill.occult", &Json::from_u64(5)).expect("must create intermediate objects");
    assert_eq!(pointer(&c.raw, &["system", "skills", "occult", "value"]), Some(&Json::from_u64(5)));
}

// ── own tests ──────────────────────────────────────────────────────────

#[test]
fn apply_error_leaves_character_unchanged() {
    let mut c = sample();
    c.hunger = Some(1);
    let _ = apply_canonical_field(&mut c, "hunger", &Json::from_u64(9));
    assert_eq!(c.hunger, Some(1));
}

#[test]
fn apply_negative_integer_is_out_of_range() {
    let mut c = sample();
    let err = apply_canonical_field(&mut c, "humanity", &Json::from_i64(-1)).unwrap_err();
    assert!(err.contains("0..=10"), "got: {err}");
}

#[test]
fn apply_into_non_object_raw_starts_a_fresh_object() {
    let mut c = sample();
    c.raw = Json::from_u64(1);
    apply_canonical_field(&mut c, "skill.brawl", &Json::from_u64(1)).unwrap();
    assert_eq!(pointer(&c.raw, &["system", "skills", "brawl", "value"]), Some(&Json::from_u64(1)));
}

#[test]
fn apply_walk_into_non_object_errors() {
    let mut c = sample();
    c.raw = obj(vec![("system", Json::from_u64(3))]);
    let err = apply_canonical_field(&mut c, "skill.brawl", &Json::from_u64(1)).unwrap_err();
    assert!(err.contains("walks into non-object"), "got: {err}");
}

#[test]
fn foundry_paths_of_flat_names() {
    assert_eq!(canonical_to_foundry_path("hunger"), Some("system.hunger.value"));
    assert_eq!(canonical_to_foundry_path("blood_potency"), Some("system.blood.potency"));
    assert_eq!(canonical_to_foundry_path("willpower_aggravated"), Some("system.willpower.aggravated"));
}

#[test]
fn applying_a_field_twice_equals_once() {
    for (name, v) in [("hunger", 3u64), ("health_superficial", 2), ("attribute.strength", 4), ("skill.brawl", 1)] {
        let mut once = sample();
        apply_canonical_field(&mut once, name, &Json::from_u64(v)).unwrap();
        let mut twice = sample();
        apply_canonical_field(&mut twice, name, &Json::from_u64(v)).unwrap();
        apply_canonical_field(&mut twice, name, &Json::from_u64(v)).unwrap();
        assert_eq!(format!("{once:?}"), format!("{twice:?}"), "{name}");
    }
}
