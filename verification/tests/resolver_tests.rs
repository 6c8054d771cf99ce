use engine::resolver::resolve_unit;
use engine::types::{
    Ability, Doctrina, HaloscreedEnhancement, Modifier, StatValue, UnitProfile, UnitStats, Weapon,
    WeaponType,
};

fn ranger_profile() -> UnitProfile {
    UnitProfile {
        id: "skitarii-rangers".to_string(),
        name: "Skitarii Rangers".to_string(),
        faction: "Adeptus Mechanicus".to_string(),
        keywords: vec!["Infantry".to_string(), "Skitarii".to_string(), "Core".to_string()],
        points: 130,
        base_stats: UnitStats {
            movement: StatValue::Text("6\"".to_string()),
            toughness: StatValue::Number(3),
            save: StatValue::Roll("4+".to_string()),
            wounds: StatValue::Number(1),
            leadership: StatValue::Roll("6+".to_string()),
            oc: StatValue::Number(2),
            bs: StatValue::Roll("3+".to_string()),
            ws: StatValue::Roll("4+".to_string()),
        },
        weapons: vec![
            Weapon {
                name: "Galvanic rifle".to_string(),
                weapon_type: WeaponType::Ranged,
                range: Some("30\"".to_string()),
                attacks: StatValue::Number(2),
                skill: StatValue::Roll("3+".to_string()),
                strength: StatValue::Number(4),
                ap: 0,
                damage: StatValue::Number(1),
                keywords: vec!["Rapid Fire 1".to_string()],
            },
            Weapon {
                name: "Close combat weapon".to_string(),
                weapon_type: WeaponType::Melee,
                range: None,
                attacks: StatValue::Number(1),
                skill: StatValue::Roll("4+".to_string()),
                strength: StatValue::Number(3),
                ap: 0,
                damage: StatValue::Number(1),
                keywords: vec![],
            },
        ],
        abilities: vec![],
    }
}

#[test]
fn test_no_modifiers_returns_base_stats() {
    let profile = ranger_profile();
    let resolved = resolve_unit(&profile, &[]);
    assert_eq!(resolved.stats.bs, StatValue::Roll("3+".to_string()));
    assert_eq!(resolved.stats.ws, StatValue::Roll("4+".to_string()));
    assert!(!resolved.stat_changes.bs_changed);
}

#[test]
fn test_protector_doctrina_improves_bs() {
    let profile = ranger_profile();
    let modifiers = vec![Modifier::DoctrinaImperative { doctrina: Doctrina::Protector }];
    let resolved = resolve_unit(&profile, &modifiers);
    assert_eq!(resolved.stats.bs, StatValue::Roll("2+".to_string()));
    assert!(resolved.stat_changes.bs_changed);
    assert!(!resolved.stat_changes.ws_changed);
}

#[test]
fn test_conqueror_doctrina_improves_ws() {
    let profile = ranger_profile();
    let modifiers = vec![Modifier::DoctrinaImperative { doctrina: Doctrina::Conqueror }];
    let resolved = resolve_unit(&profile, &modifiers);
    assert_eq!(resolved.stats.ws, StatValue::Roll("3+".to_string()));
    assert!(resolved.stat_changes.ws_changed);
    assert!(!resolved.stat_changes.bs_changed);
}

#[test]
fn test_bs_cannot_improve_beyond_2_plus() {
    let val = StatValue::Roll("2+".to_string());
    assert_eq!(val.improve_roll(), StatValue::Roll("2+".to_string()));
}

#[test]
fn test_elimination_volley_doubles_rapid_fire_attacks() {
    let profile = ranger_profile();
    let modifiers = vec![Modifier::DoctrinaImperative { doctrina: Doctrina::EliminationVolley }];
    let resolved = resolve_unit(&profile, &modifiers);
    let galvanic = resolved.weapons.iter().find(|w| w.name == "Galvanic rifle").unwrap();
    assert_eq!(galvanic.attacks, StatValue::Number(4));
    assert!(galvanic.attacks_changed);
}

#[test]
fn test_enrichment_adds_ability_note() {
    let profile = ranger_profile();
    let modifiers = vec![Modifier::DoctrinaImperative { doctrina: Doctrina::DataPsalmEnrichment }];
    let resolved = resolve_unit(&profile, &modifiers);
    assert!(!resolved.active_ability_notes.is_empty());
    assert!(resolved.active_ability_notes[0].contains("Enrichment"));
}

/// A stat as serde's untagged reading gives it: a number that fits an `i32`
/// is a `Number`, any string is a `Roll` (the first string variant).
fn stat_from_json(v: &serde_json::Value) -> StatValue {
    match v {
        serde_json::Value::Number(n) => StatValue::Number(n.as_i64().unwrap() as i32),
        serde_json::Value::String(s) => StatValue::Roll(s.clone()),
        _ => panic!("not a stat value"),
    }
}

fn strings_from_json(v: &serde_json::Value) -> Vec<String> {
    v.as_array().unwrap().iter().map(|k| k.as_str().unwrap().to_string()).collect()
}

/// A weaponless, abilityless unit profile read from JSON text.
fn profile_from_json(json: &str) -> UnitProfile {
    let v: serde_json::Value = serde_json::from_str(json).unwrap();
    let stats = &v["base_stats"];
    assert!(v["weapons"].as_array().unwrap().is_empty());
    let abilities: Vec<Ability> = v["abilities"]
        .as_array()
        .unwrap()
        .iter()
        .map(|a| Ability {
            name: a["name"].as_str().unwrap().to_string(),
            description: a["description"].as_str().unwrap().to_string(),
        })
        .collect();
    UnitProfile {
        id: v["id"].as_str().unwrap().to_string(),
        name: v["name"].as_str().unwrap().to_string(),
        faction: v["faction"].as_str().unwrap().to_string(),
        keywords: strings_from_json(&v["keywords"]),
        base_stats: UnitStats {
            movement: stat_from_json(&stats["movement"]),
            toughness: stat_from_json(&stats["toughness"]),
            save: stat_from_json(&stats["save"]),
            wounds: stat_from_json(&stats["wounds"]),
            leadership: stat_from_json(&stats["leadership"]),
            oc: stat_from_json(&stats["oc"]),
            bs: stat_from_json(&stats["bs"]),
            ws: stat_from_json(&stats["ws"]),
        },
        weapons: vec![],
        abilities,
        points: v["points"].as_u64().unwrap() as u32,
    }
}

#[test]
fn test_haloscreed_energisation_increases_movement_via_json() {
    // Exercises the real deserialisation path where "6\"" becomes Roll, not Text.
    let json = r#"{
        "id":"skitarii-rangers","name":"Rangers","faction":"AdMech",
        "keywords":["Skitarii"],"points":130,
        "base_stats":{"movement":"6\"","toughness":3,"save":"4+","wounds":1,
                      "leadership":"6+","oc":2,"bs":"3+","ws":"4+"},
        "weapons":[],"abilities":[]
    }"#;
    let profile: UnitProfile = profile_from_json(json);
    assert_eq!(profile.base_stats.movement, StatValue::Roll("6\"".to_string()));
    let modifiers = vec![Modifier::HaloscreedEnhancement {
        enhancement: HaloscreedEnhancement::ElectromotiveEnergisation,
        unit_ids: vec!["skitarii-rangers".to_string()],
    }];
    let resolved = resolve_unit(&profile, &modifiers);
    assert_eq!(resolved.stats.movement, StatValue::Text("8\"".to_string()));
    assert!(resolved.stat_changes.movement_changed);
}

#[test]
fn test_haloscreed_energisation_increases_movement() {
    let profile = ranger_profile();
    let modifiers = vec![Modifier::HaloscreedEnhancement {
        enhancement: HaloscreedEnhancement::ElectromotiveEnergisation,
        unit_ids: vec!["skitarii-rangers".to_string()],
    }];
    let resolved = resolve_unit(&profile, &modifiers);
    assert_eq!(resolved.stats.movement, StatValue::Text("8\"".to_string()));
    assert!(resolved.stat_changes.movement_changed);
}

#[test]
fn test_haloscreed_bracing_increases_toughness() {
    let profile = ranger_profile();
    let modifiers = vec![Modifier::HaloscreedEnhancement {
        enhancement: HaloscreedEnhancement::MicroactuatorBracing,
        unit_ids: vec!["skitarii-rangers".to_string()],
    }];
    let resolved = resolve_unit(&profile, &modifiers);
    assert_eq!(resolved.stats.toughness, StatValue::Number(4));
    assert!(resolved.stat_changes.toughness_changed);
}

#[test]
fn test_haloscreed_does_not_affect_non_ho_units() {
    let profile = ranger_profile();
    let modifiers = vec![Modifier::HaloscreedEnhancement {
        enhancement: HaloscreedEnhancement::MicroactuatorBracing,
        unit_ids: vec!["some-other-unit".to_string()],
    }];
    let resolved = resolve_unit(&profile, &modifiers);
    assert_eq!(resolved.stats.toughness, StatValue::Number(3));
    assert!(!resolved.stat_changes.toughness_changed);
}

#[test]
fn test_haloscreed_protocols_adds_ability_note() {
    let profile = ranger_profile();
    let modifiers = vec![Modifier::HaloscreedEnhancement {
        enhancement: HaloscreedEnhancement::PredationProtocols,
        unit_ids: vec!["skitarii-rangers".to_string()],
    }];
    let resolved = resolve_unit(&profile, &modifiers);
    assert!(resolved.active_ability_notes.iter().any(|n| n.contains("Predation")));
}

#[test]
fn test_damage_bracket_worsens_weapon_skills() {
    let profile = ranger_profile();
    let modifiers = vec![Modifier::DamageDegradation {
        unit_id: "skitarii-rangers".to_string(),
        bracket: 1,
    }];
    let resolved = resolve_unit(&profile, &modifiers);
    let galvanic = resolved.weapons.iter().find(|w| w.name == "Galvanic rifle").unwrap();
    assert_eq!(galvanic.skill, StatValue::Roll("4+".to_string()));
    assert!(galvanic.skill_changed);
    assert!(resolved.stat_changes.damaged);
}

#[test]
fn test_damage_bracket_zero_has_no_effect() {
    let profile = ranger_profile();
    let modifiers = vec![Modifier::DamageDegradation {
        unit_id: "skitarii-rangers".to_string(),
        bracket: 0,
    }];
    let resolved = resolve_unit(&profile, &modifiers);
    assert!(!resolved.stat_changes.damaged);
    assert!(!resolved.weapons[0].skill_changed);
}
