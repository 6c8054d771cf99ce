use engine::army::{army_points_total, run_army_validation, ArmyList, ArmyUnit};
use engine::resolver::{checked_resolve_unit, resolve_unit};
use engine::types::{
    Ability, Doctrina, HaloscreedEnhancement, Modifier, StatChanges, StatValue, UnitProfile,
    UnitStats, Weapon, WeaponType,
};

fn roll(s: &str) -> StatValue {
    StatValue::Roll(s.to_string())
}

fn text(s: &str) -> StatValue {
    StatValue::Text(s.to_string())
}

fn weapon(name: &str, kind: WeaponType, attacks: i32, skill: &str, keywords: &[&str]) -> Weapon {
    Weapon {
        name: name.to_string(),
        weapon_type: kind,
        range: if kind == WeaponType::Ranged { Some("24\"".to_string()) } else { None },
        attacks: StatValue::Number(attacks),
        skill: roll(skill),
        strength: StatValue::Number(4),
        ap: -1,
        damage: text("D3"),
        keywords: keywords.iter().map(|k| k.to_string()).collect(),
    }
}

fn profile(id: &str, keywords: &[&str], movement: StatValue, weapons: Vec<Weapon>) -> UnitProfile {
    UnitProfile {
        id: id.to_string(),
        name: "Test Unit".to_string(),
        faction: "Adeptus Mechanicus".to_string(),
        keywords: keywords.iter().map(|k| k.to_string()).collect(),
        base_stats: UnitStats {
            movement,
            toughness: StatValue::Number(4),
            save: roll("3+"),
            wounds: StatValue::Number(2),
            leadership: roll("7+"),
            oc: StatValue::Number(1),
            bs: roll("4+"),
            ws: roll("4+"),
        },
        weapons,
        abilities: vec![Ability {
            name: "Doctrina Imperatives".to_string(),
            description: "Benefits from doctrinas.".to_string(),
        }],
        points: 100,
    }
}

fn doctrina(d: Doctrina) -> Modifier {
    Modifier::DoctrinaImperative { doctrina: d }
}

fn halo(e: HaloscreedEnhancement, ids: &[&str]) -> Modifier {
    Modifier::HaloscreedEnhancement {
        enhancement: e,
        unit_ids: ids.iter().map(|k| k.to_string()).collect(),
    }
}

#[test]
fn as_roll_reads_thresholds() {
    assert_eq!(roll("3+").as_roll(), Some(3));
    assert_eq!(roll("3++").as_roll(), Some(3));
    assert_eq!(roll("6").as_roll(), Some(6));
    assert_eq!(roll("+4+").as_roll(), Some(4));
    assert_eq!(roll("007+").as_roll(), Some(7));
    assert_eq!(roll("255+").as_roll(), Some(255));
    assert_eq!(roll("256+").as_roll(), None);
    assert_eq!(roll("D6").as_roll(), None);
    assert_eq!(roll("").as_roll(), None);
    assert_eq!(roll("+").as_roll(), None);
    assert_eq!(roll("-3+").as_roll(), None);
    assert_eq!(text("3+").as_roll(), None);
    assert_eq!(StatValue::Number(3).as_roll(), None);
}

#[test]
fn improve_and_worsen_step_and_cap() {
    assert_eq!(roll("4+").improve_roll(), roll("3+"));
    assert_eq!(roll("12+").improve_roll(), roll("11+"));
    assert_eq!(roll("3++").improve_roll(), roll("2+"));
    assert_eq!(roll("2+").worsen_roll(), roll("3+"));
    assert_eq!(roll("5+").worsen_roll(), roll("6+"));
    assert_eq!(roll("6+").worsen_roll(), roll("6+"));
    assert_eq!(roll("9+").worsen_roll(), roll("9+"));
    assert_eq!(roll("1+").improve_roll(), roll("1+"));
    assert_eq!(text("D6").improve_roll(), text("D6"));
    assert_eq!(StatValue::Number(3).worsen_roll(), StatValue::Number(3));
}

#[test]
fn improve_then_worsen_gives_the_threshold_back() {
    for n in 3u8..=6 {
        let v = roll(&format!("{}+", n));
        assert_eq!(v.improve_roll().worsen_roll().as_roll(), Some(n));
    }
    for n in 2u8..=5 {
        let v = roll(&format!("{}+", n));
        assert_eq!(v.worsen_roll().improve_roll().as_roll(), Some(n));
    }
}

#[test]
fn add_movement_adds_inches() {
    assert_eq!(text("6\"").add_movement(2), text("8\""));
    assert_eq!(roll("6\"").add_movement(2), text("8\""));
    assert_eq!(text("12\"").add_movement(0), text("12\""));
    assert_eq!(text("9\"").add_movement(3), text("12\""));
    assert_eq!(StatValue::Number(6).add_movement(2), StatValue::Number(8));
    assert_eq!(StatValue::Number(i32::MAX).add_movement(1), StatValue::Number(i32::MAX));
    assert_eq!(text("4294967295\"").add_movement(1), text("4294967295\""));
    assert_eq!(text("D6").add_movement(2), text("D6"));
    assert_eq!(text("\"").add_movement(2), text("\""));
}

#[test]
fn energisation_on_movement_read_from_json_as_a_roll() {
    // A JSON string stat arrives as a roll, so the movement "6\"" is a Roll.
    let p = profile("rangers", &["Skitarii"], roll("6\""), vec![]);
    let resolved = resolve_unit(
        &p,
        &[halo(HaloscreedEnhancement::ElectromotiveEnergisation, &["rangers"])],
    );
    assert_eq!(resolved.stats.movement, text("8\""));
    assert!(resolved.stat_changes.movement_changed);
    assert_eq!(resolved.active_ability_notes.len(), 1);
    assert_eq!(
        resolved.active_ability_notes[0],
        "Electromotive Energisation: +2\" to this unit's Move this turn."
    );
}

#[test]
fn energisation_that_cannot_move_still_adds_its_note() {
    let p = profile("rangers", &["Skitarii"], text("D6"), vec![]);
    let resolved = resolve_unit(
        &p,
        &[halo(HaloscreedEnhancement::ElectromotiveEnergisation, &["rangers"])],
    );
    assert_eq!(resolved.stats.movement, text("D6"));
    assert!(!resolved.stat_changes.movement_changed);
    assert_eq!(resolved.active_ability_notes.len(), 1);
}

#[test]
fn no_modifiers_gives_the_profile_back() {
    let p = profile(
        "rangers",
        &["Skitarii"],
        text("6\""),
        vec![weapon("Arc rifle", WeaponType::Ranged, 1, "4+", &["Heavy"])],
    );
    let r = resolve_unit(&p, &[]);
    assert_eq!(r.id, "rangers");
    assert_eq!(r.name, "Test Unit");
    assert_eq!(r.faction, "Adeptus Mechanicus");
    assert_eq!(r.keywords, vec!["Skitarii".to_string()]);
    assert_eq!(r.stat_changes, StatChanges::default());
    assert_eq!(r.stats.movement, text("6\""));
    assert_eq!(r.stats.leadership, roll("7+"));
    assert_eq!(r.weapons.len(), 1);
    assert_eq!(r.weapons[0].name, "Arc rifle");
    assert_eq!(r.weapons[0].range, Some("24\"".to_string()));
    assert_eq!(r.weapons[0].ap, -1);
    assert_eq!(r.weapons[0].damage, text("D3"));
    assert_eq!(r.weapons[0].keywords, vec!["Heavy".to_string()]);
    assert!(!r.weapons[0].skill_changed && !r.weapons[0].attacks_changed);
    assert_eq!(r.abilities.len(), 1);
    assert_eq!(r.abilities[0].name, "Doctrina Imperatives");
    assert!(r.active_ability_notes.is_empty());
}

#[test]
fn protector_improves_ranged_weapons_only() {
    let p = profile(
        "rangers",
        &["Skitarii"],
        text("6\""),
        vec![
            weapon("Rifle", WeaponType::Ranged, 2, "4+", &[]),
            weapon("Sword", WeaponType::Melee, 3, "4+", &[]),
            weapon("Pistol", WeaponType::Ranged, 1, "2+", &[]),
        ],
    );
    let r = resolve_unit(&p, &[doctrina(Doctrina::Protector)]);
    assert_eq!(r.stats.bs, roll("3+"));
    assert_eq!(r.stats.ws, roll("4+"));
    assert_eq!(r.weapons[0].skill, roll("3+"));
    assert!(r.weapons[0].skill_changed);
    assert_eq!(r.weapons[1].skill, roll("4+"));
    assert!(!r.weapons[1].skill_changed);
    assert_eq!(r.weapons[2].skill, roll("2+"));
    assert!(!r.weapons[2].skill_changed);
}

#[test]
fn conqueror_improves_melee_weapons_only() {
    let p = profile(
        "rangers",
        &["Skitarii"],
        text("6\""),
        vec![
            weapon("Rifle", WeaponType::Ranged, 2, "4+", &[]),
            weapon("Sword", WeaponType::Melee, 3, "4+", &[]),
        ],
    );
    let r = resolve_unit(&p, &[doctrina(Doctrina::Conqueror)]);
    assert_eq!(r.stats.ws, roll("3+"));
    assert_eq!(r.weapons[0].skill, roll("4+"));
    assert_eq!(r.weapons[1].skill, roll("3+"));
    assert!(r.weapons[1].skill_changed);
}

#[test]
fn protector_and_conqueror_flag_only_real_changes() {
    let mut p = profile("rangers", &["Skitarii"], text("6\""), vec![]);
    p.base_stats.bs = roll("2+");
    p.base_stats.ws = StatValue::Number(3);
    let r = resolve_unit(&p, &[doctrina(Doctrina::Protector), doctrina(Doctrina::Conqueror)]);
    assert_eq!(r.stats.bs, roll("2+"));
    assert!(!r.stat_changes.bs_changed);
    assert_eq!(r.stats.ws, StatValue::Number(3));
    assert!(!r.stat_changes.ws_changed);

    p.base_stats.bs = roll("4+");
    let twice = [doctrina(Doctrina::Protector), doctrina(Doctrina::Protector)];
    let r = resolve_unit(&p, &twice);
    assert_eq!(r.stats.bs, roll("2+"));
    assert!(r.stat_changes.bs_changed);
}

#[test]
fn damage_bracket_above_one_acts_as_one() {
    let p = profile(
        "dunerider",
        &["Vehicle"],
        text("10\""),
        vec![weapon("Gun", WeaponType::Ranged, 2, "3+", &[])],
    );
    let one = resolve_unit(
        &p,
        &[Modifier::DamageDegradation { unit_id: "dunerider".to_string(), bracket: 1 }],
    );
    let three = resolve_unit(
        &p,
        &[Modifier::DamageDegradation { unit_id: "dunerider".to_string(), bracket: 3 }],
    );
    assert_eq!(three.weapons[0].skill, one.weapons[0].skill);
    assert_eq!(three.weapons[0].skill, roll("4+"));
    assert_eq!(three.stat_changes, one.stat_changes);
    assert_eq!(three.active_ability_notes, one.active_ability_notes);
}

#[test]
fn protector_and_conqueror_ignore_non_skitarii() {
    let p = profile(
        "servitors",
        &["Infantry"],
        text("5\""),
        vec![weapon("Rifle", WeaponType::Ranged, 2, "4+", &[])],
    );
    let r = resolve_unit(&p, &[doctrina(Doctrina::Protector), doctrina(Doctrina::Conqueror)]);
    assert_eq!(r.stats.bs, roll("4+"));
    assert_eq!(r.stats.ws, roll("4+"));
    assert!(!r.stat_changes.bs_changed && !r.stat_changes.ws_changed);
    assert_eq!(r.weapons[0].skill, roll("4+"));
}

#[test]
fn elimination_volley_doubles_rapid_fire_keywords_each_time() {
    let p = profile(
        "rangers",
        &["Infantry"],
        text("6\""),
        vec![
            weapon("Rifle", WeaponType::Ranged, 2, "4+", &["Rapid Fire 1", "Blast"]),
            weapon("Carbine", WeaponType::Ranged, 3, "4+", &["Assault"]),
            weapon("Claws", WeaponType::Melee, 3, "4+", &["Rapid Fire 2"]),
        ],
    );
    let volley = doctrina(Doctrina::EliminationVolley);
    let r = resolve_unit(&p, &[volley.clone(), volley]);
    assert_eq!(r.weapons[0].attacks, StatValue::Number(8));
    assert!(r.weapons[0].attacks_changed);
    assert_eq!(r.weapons[0].keywords, vec!["Rapid Fire 4".to_string(), "Blast".to_string()]);
    assert_eq!(r.weapons[1].attacks, StatValue::Number(3));
    assert!(!r.weapons[1].attacks_changed);
    assert_eq!(r.weapons[2].attacks, StatValue::Number(3));
    assert_eq!(r.weapons[2].keywords, vec!["Rapid Fire 2".to_string()]);
}

#[test]
fn elimination_volley_keeps_unreadable_rapid_fire_keywords() {
    let mut w = weapon("Rifle", WeaponType::Ranged, 2, "4+", &["Rapid Fire D3", "Rapid Firearm"]);
    w.attacks = text("D6");
    let p = profile("rangers", &[], text("6\""), vec![w]);
    let r = resolve_unit(&p, &[doctrina(Doctrina::EliminationVolley)]);
    assert_eq!(r.weapons[0].attacks, text("D6"));
    assert!(!r.weapons[0].attacks_changed);
    assert_eq!(
        r.weapons[0].keywords,
        vec!["Rapid Fire D3".to_string(), "Rapid Firearm".to_string()]
    );
}

#[test]
fn overflowing_modifiers_are_refused() {
    let big = weapon("Rifle", WeaponType::Ranged, i32::MAX, "4+", &["Rapid Fire 1"]);
    let p = profile("rangers", &[], text("6\""), vec![big]);
    assert!(checked_resolve_unit(&p, &[doctrina(Doctrina::EliminationVolley)]).is_none());

    let kw = weapon("Rifle", WeaponType::Ranged, 1, "4+", &["Rapid Fire 3000000000"]);
    let p = profile("rangers", &[], text("6\""), vec![kw]);
    assert!(checked_resolve_unit(&p, &[doctrina(Doctrina::EliminationVolley)]).is_none());

    let mut p = profile("rangers", &[], text("6\""), vec![]);
    p.base_stats.toughness = StatValue::Number(i32::MAX);
    let bracing = halo(HaloscreedEnhancement::MicroactuatorBracing, &["rangers"]);
    assert!(checked_resolve_unit(&p, &[bracing.clone()]).is_none());
    assert!(checked_resolve_unit(&p, &[doctrina(Doctrina::Protector)]).is_some());
    let other = halo(HaloscreedEnhancement::MicroactuatorBracing, &["others"]);
    assert!(checked_resolve_unit(&p, &[other]).is_some());
}

#[test]
fn bracing_leaves_non_numeric_toughness_but_adds_its_note() {
    let mut p = profile("rangers", &[], text("6\""), vec![]);
    p.base_stats.toughness = text("T5");
    let r = resolve_unit(&p, &[halo(HaloscreedEnhancement::MicroactuatorBracing, &["a", "rangers"])]);
    assert_eq!(r.stats.toughness, text("T5"));
    assert!(!r.stat_changes.toughness_changed);
    assert_eq!(
        r.active_ability_notes,
        vec!["Microactuator Bracing: +1 to this unit's Toughness this turn.".to_string()]
    );
}

#[test]
fn notes_accumulate_in_modifier_order() {
    let p = profile("rangers", &[], text("6\""), vec![]);
    let ms = vec![
        halo(HaloscreedEnhancement::MutedServomotors, &["rangers"]),
        doctrina(Doctrina::DataPsalmEnrichment),
        Modifier::Stratagem {
            stratagem_id: "protector_imperatives_overcharge".to_string(),
            unit_id: "rangers".to_string(),
        },
        Modifier::DamageDegradation { unit_id: "rangers".to_string(), bracket: 2 },
    ];
    let r = resolve_unit(&p, &ms);
    assert_eq!(
        r.active_ability_notes,
        vec![
            "Muted Servomotors: Stealth — enemy units cannot target this unit from more than 12\" away."
                .to_string(),
            "Data-Psalm: Enrichment — All attacks wound on a 6 regardless of Toughness.".to_string(),
            "Overcharge: Re-roll hit rolls of 1 this phase.".to_string(),
            "DAMAGED: -1 to all Hit rolls this turn.".to_string(),
        ]
    );
    assert!(r.stat_changes.damaged);
}

#[test]
fn modifiers_for_other_units_change_nothing() {
    let p = profile(
        "rangers",
        &["Skitarii"],
        text("6\""),
        vec![weapon("Rifle", WeaponType::Ranged, 2, "4+", &[])],
    );
    let ms = vec![
        Modifier::Stratagem {
            stratagem_id: "protector_imperatives_overcharge".to_string(),
            unit_id: "vanguard".to_string(),
        },
        Modifier::Stratagem {
            stratagem_id: "some_other_stratagem".to_string(),
            unit_id: "rangers".to_string(),
        },
        Modifier::DamageDegradation { unit_id: "vanguard".to_string(), bracket: 3 },
        halo(HaloscreedEnhancement::PredationProtocols, &[]),
    ];
    let r = resolve_unit(&p, &ms);
    assert_eq!(r.stat_changes, StatChanges::default());
    assert!(r.active_ability_notes.is_empty());
    assert_eq!(r.weapons[0].skill, roll("4+"));
}

#[test]
fn damage_bracket_stops_worsening_at_6_plus() {
    let p = profile(
        "dunerider",
        &["Vehicle"],
        text("10\""),
        vec![
            weapon("Gun", WeaponType::Ranged, 2, "6+", &[]),
            weapon("Ram", WeaponType::Melee, 2, "5+", &[]),
        ],
    );
    let r = resolve_unit(
        &p,
        &[Modifier::DamageDegradation { unit_id: "dunerider".to_string(), bracket: 1 }],
    );
    assert_eq!(r.weapons[0].skill, roll("6+"));
    assert!(!r.weapons[0].skill_changed);
    assert_eq!(r.weapons[1].skill, roll("6+"));
    assert!(r.weapons[1].skill_changed);
    assert!(r.stat_changes.damaged);
}

fn army(limit: u32, units: &[(u32, u32)]) -> ArmyList {
    ArmyList {
        faction: "Adeptus Mechanicus".to_string(),
        points_limit: limit,
        units: units
            .iter()
            .map(|(points, count)| ArmyUnit {
                profile_id: "skitarii-rangers".to_string(),
                points: *points,
                count: *count,
            })
            .collect(),
    }
}

#[test]
fn army_within_limit_is_valid() {
    let a = army(1000, &[(130, 2), (70, 3), (0, 9)]);
    assert_eq!(army_points_total(&a), Some(470));
    assert!(run_army_validation(&a).is_empty());
    let exact = army(470, &[(130, 2), (70, 3)]);
    assert!(run_army_validation(&exact).is_empty());
    assert!(run_army_validation(&army(0, &[])).is_empty());
}

#[test]
fn army_over_limit_reports_points_exceeded() {
    let a = army(1000, &[(130, 5), (200, 2)]);
    assert_eq!(army_points_total(&a), Some(1050));
    let errors = run_army_validation(&a);
    assert_eq!(errors.len(), 1);
    assert_eq!(errors[0].code, "POINTS_EXCEEDED");
    assert_eq!(errors[0].message, "Army is 50 points over the limit (1050 / 1000)");
}

#[test]
fn army_total_that_overflows_is_reported() {
    let a = army(1000, &[(u32::MAX, 1), (1, 1)]);
    assert_eq!(army_points_total(&a), None);
    let b = army(1000, &[(70000, 70000)]);
    assert_eq!(army_points_total(&b), None);
    let c = army(0, &[(u32::MAX, 1)]);
    assert_eq!(army_points_total(&c), Some(u32::MAX));
    let errors = run_army_validation(&c);
    assert_eq!(errors[0].message, "Army is 4294967295 points over the limit (4294967295 / 0)");
}

#[test]
fn refusal_stays_after_later_modifiers() {
    let big = weapon("Rifle", WeaponType::Ranged, 1 << 29, "4+", &["Rapid Fire 1"]);
    let p = profile("rangers", &["Skitarii"], text("6\""), vec![big]);
    let volley = doctrina(Doctrina::EliminationVolley);
    assert!(checked_resolve_unit(&p, &[volley.clone()]).is_some());
    assert!(checked_resolve_unit(&p, &[volley.clone(), volley.clone()]).is_none());
    assert!(checked_resolve_unit(
        &p,
        &[volley.clone(), volley, doctrina(Doctrina::DataPsalmEnrichment)]
    )
    .is_none());
}
