//! What each rule does to a resolved card, stated over the card before and
//! after the modifier is added: the thresholds, numbers and texts that change
//! and those that stay.

use vstd::prelude::*;

use crate::army::points_total;
use crate::army::ArmyUnit;
use crate::laws::{
    lemma_improve_threshold, lemma_moved_distance, lemma_unflagged_values_are_base,
    lemma_worsen_threshold,
};
use crate::resolver::{apply_modifier_spec, resolution, resolve};
use crate::text::{
    all_digits, decimal, digits_value, is_digit, lemma_parse_decimal, starts_with, trim_plus,
    unsigned_digits,
};
use crate::types::{
    inches_in, Doctrina, HaloscreedEnhancement, ModifierView, StatValueView, UnitProfileView,
    WeaponType,
};

verus! {

/// Adding one modifier: the state before it exists, the step gives the state
/// after it, and both have one weapon per profile weapon.
proof fn lemma_one_more(p: UnitProfileView, ms: Seq<ModifierView>, m: ModifierView)
    requires
        resolution(p, ms.push(m)) is Some,
    ensures
        resolution(p, ms) is Some,
        apply_modifier_spec(m, p, resolution(p, ms).unwrap()) == resolution(p, ms.push(m)),
        resolution(p, ms).unwrap().weapons.len() == p.weapons.len(),
        resolution(p, ms.push(m)).unwrap().weapons.len() == p.weapons.len(),
{
    assert(ms.push(m).drop_last() =~= ms);
    lemma_unflagged_values_are_base(p, ms);
    lemma_unflagged_values_are_base(p, ms.push(m));
}

/// A modifier that never overflows can always be added.
proof fn lemma_never_refused(p: UnitProfileView, ms: Seq<ModifierView>, m: ModifierView)
    requires
        resolution(p, ms) is Some,
        apply_modifier_spec(m, p, resolution(p, ms).unwrap()) is Some,
    ensures
        resolution(p, ms.push(m)) is Some,
{
    assert(ms.push(m).drop_last() =~= ms);
}

/// Elimination Volley: a ranged weapon with a keyword starting with
/// "Rapid Fire" anywhere among its profile keywords doubles a numeric attacks
/// value (flagged as changed) and the number of each "Rapid Fire n" keyword;
/// its skill stays. Any other weapon stays exactly as it was.
pub proof fn lemma_volley_doubles_rapid_fire_weapons(
    p: UnitProfileView,
    ms: Seq<ModifierView>,
    i: int,
)
    requires
        resolve(
            p,
            ms.push(ModifierView::DoctrinaImperative { doctrina: Doctrina::EliminationVolley }),
        ) is Some,
        0 <= i < p.weapons.len(),
    ensures
        resolve(p, ms) is Some,
        ({
            let after_all = ms.push(
                ModifierView::DoctrinaImperative { doctrina: Doctrina::EliminationVolley },
            );
            let before = resolve(p, ms).unwrap().weapons[i];
            let after = resolve(p, after_all).unwrap().weapons[i];
            let w = p.weapons[i];
            if w.weapon_type == WeaponType::Ranged && (exists|k: int|
                0 <= k < w.keywords.len() && starts_with(w.keywords[k], "Rapid Fire"@)) {
                &&& (before.attacks matches StatValueView::Number(n) ==> after.attacks
                    == StatValueView::Number((2 * n) as i32) && after.attacks_changed)
                &&& (!(before.attacks is Number) ==> after.attacks == before.attacks
                    && after.attacks_changed == before.attacks_changed)
                &&& after.skill == before.skill
                &&& after.skill_changed == before.skill_changed
                &&& after.keywords.len() == before.keywords.len()
                &&& forall|j: int, n: nat|
                    0 <= j < before.keywords.len() && n <= u32::MAX && #[trigger] before.keywords[j]
                        == "Rapid Fire "@ + #[trigger] decimal(n) ==> after.keywords[j]
                        == "Rapid Fire "@ + decimal(2 * n)
                &&& forall|j: int|
                    0 <= j < before.keywords.len() && !starts_with(
                        #[trigger] before.keywords[j],
                        "Rapid Fire "@,
                    ) ==> after.keywords[j] == before.keywords[j]
            } else {
                after == before
            }
        }),
{
    let m = ModifierView::DoctrinaImperative { doctrina: Doctrina::EliminationVolley };
    lemma_one_more(p, ms, m);
    let r1 = resolution(p, ms).unwrap();
    let r2 = resolution(p, ms.push(m)).unwrap();
    let before = resolve(p, ms).unwrap().weapons[i];
    let after = resolve(p, ms.push(m)).unwrap().weapons[i];
    assert(crate::resolver::volley_at(p.weapons, r1.weapons, i) is Some);
    let o = r1.weapons[i];
    let w = p.weapons[i];
    if w.weapon_type == WeaponType::Ranged && (exists|k: int|
        0 <= k < w.keywords.len() && starts_with(w.keywords[k], "Rapid Fire"@)) {
        let prefix = "Rapid Fire "@;
        assert forall|j: int, n: nat|
            0 <= j < before.keywords.len() && n <= u32::MAX && #[trigger] before.keywords[j]
                == prefix + #[trigger] decimal(n) implies after.keywords[j] == prefix + decimal(
            2 * n,
        ) by {
            let k = before.keywords[j];
            assert(k.subrange(0, prefix.len() as int) =~= prefix);
            assert(k.skip(prefix.len() as int) =~= decimal(n));
            lemma_parse_decimal(n);
            assert(crate::resolver::rapid_fire_doubled(o.keywords[j]) is Some);
        }
        assert forall|j: int|
            0 <= j < before.keywords.len() && !starts_with(
                #[trigger] before.keywords[j],
                prefix,
            ) implies after.keywords[j] == before.keywords[j] by {
            assert(crate::resolver::rapid_fire_doubled(o.keywords[j]) is Some);
        }
    }
}

/// Protector (Conqueror) on a Skitarii unit: each ranged (melee) weapon's
/// skill threshold n becomes n - 1 when n > 2, flagged as changed, and stays
/// otherwise; other weapons stay exactly as they were. BS (WS) moves the same
/// way.
pub proof fn lemma_doctrina_improves_skitarii(
    p: UnitProfileView,
    ms: Seq<ModifierView>,
    d: Doctrina,
    i: int,
)
    requires
        d == Doctrina::Protector || d == Doctrina::Conqueror,
        resolve(p, ms) is Some,
        exists|k: int| 0 <= k < p.keywords.len() && p.keywords[k] == "Skitarii"@,
        0 <= i < p.weapons.len(),
    ensures
        resolve(p, ms.push(ModifierView::DoctrinaImperative { doctrina: d })) is Some,
        ({
            let u1 = resolve(p, ms).unwrap();
            let u2 = resolve(p, ms.push(ModifierView::DoctrinaImperative { doctrina: d })).unwrap();
            let kind = if d == Doctrina::Protector {
                WeaponType::Ranged
            } else {
                WeaponType::Melee
            };
            let (s1, s2) = if d == Doctrina::Protector {
                (u1.stats.bs, u2.stats.bs)
            } else {
                (u1.stats.ws, u2.stats.ws)
            };
            let before = u1.weapons[i];
            let after = u2.weapons[i];
            let improvable = |v: StatValueView| v.roll() is Some && v.roll().unwrap() > 2;
            &&& improvable(s1) ==> s2.roll() == Some((s1.roll().unwrap() - 1) as u8)
            &&& !improvable(s1) ==> s2 == s1
            &&& if p.weapons[i].weapon_type == kind {
                &&& improvable(before.skill) ==> after.skill.roll() == Some(
                    (before.skill.roll().unwrap() - 1) as u8,
                ) && after.skill_changed
                &&& !improvable(before.skill) ==> after == before
                &&& after.attacks == before.attacks
                &&& after.keywords == before.keywords
                &&& after.attacks_changed == before.attacks_changed
            } else {
                after == before
            }
        }),
{
    let m = ModifierView::DoctrinaImperative { doctrina: d };
    lemma_never_refused(p, ms, m);
    lemma_one_more(p, ms, m);
    let r1 = resolution(p, ms).unwrap();
    assert(crate::resolver::is_skitarii(p));
    lemma_improve_threshold(r1.stats.bs);
    lemma_improve_threshold(r1.stats.ws);
    lemma_improve_threshold(r1.weapons[i].skill);
}

/// A damage bracket of 1 or more for the unit worsens the current skill of
/// every weapon: threshold n becomes n + 1 when n < 6, flagged as changed,
/// whatever earlier modifiers did; other thresholds and non-roll skills stay,
/// and so do attacks and keywords. The unit is flagged as damaged.
pub proof fn lemma_damage_worsens_every_weapon(
    p: UnitProfileView,
    ms: Seq<ModifierView>,
    bracket: u8,
    i: int,
)
    requires
        resolve(p, ms) is Some,
        bracket >= 1,
        0 <= i < p.weapons.len(),
    ensures
        resolve(p, ms.push(ModifierView::DamageDegradation { unit_id: p.id, bracket })) is Some,
        ({
            let u1 = resolve(p, ms).unwrap();
            let u2 = resolve(
                p,
                ms.push(ModifierView::DamageDegradation { unit_id: p.id, bracket }),
            ).unwrap();
            let before = u1.weapons[i];
            let after = u2.weapons[i];
            let worsenable = before.skill.roll() is Some && before.skill.roll().unwrap() < 6;
            &&& worsenable ==> after.skill.roll() == Some(
                (before.skill.roll().unwrap() + 1) as u8,
            ) && after.skill_changed
            &&& !worsenable ==> after == before
            &&& after.attacks == before.attacks
            &&& after.keywords == before.keywords
            &&& after.attacks_changed == before.attacks_changed
            &&& u2.stat_changes.damaged
            &&& u2.stats == u1.stats
            &&& u2.active_ability_notes == u1.active_ability_notes.push(
                "DAMAGED: -1 to all Hit rolls this turn."@,
            )
        }),
{
    let m = ModifierView::DamageDegradation { unit_id: p.id, bracket };
    lemma_never_refused(p, ms, m);
    lemma_one_more(p, ms, m);
    let r1 = resolution(p, ms).unwrap();
    lemma_worsen_threshold(r1.weapons[i].skill);
}

/// Microactuator Bracing for a unit among `unit_ids`: a numeric toughness t
/// becomes t + 1, flagged as changed; any other toughness stays. Either way
/// one note is added.
pub proof fn lemma_bracing_raises_toughness(
    p: UnitProfileView,
    ms: Seq<ModifierView>,
    unit_ids: Seq<Seq<char>>,
)
    requires
        exists|j: int| 0 <= j < unit_ids.len() && unit_ids[j] == p.id,
        resolve(
            p,
            ms.push(
                ModifierView::HaloscreedEnhancement {
                    enhancement: HaloscreedEnhancement::MicroactuatorBracing,
                    unit_ids,
                },
            ),
        ) is Some,
    ensures
        resolve(p, ms) is Some,
        ({
            let u1 = resolve(p, ms).unwrap();
            let u2 = resolve(
                p,
                ms.push(
                    ModifierView::HaloscreedEnhancement {
                        enhancement: HaloscreedEnhancement::MicroactuatorBracing,
                        unit_ids,
                    },
                ),
            ).unwrap();
            &&& (u1.stats.toughness matches StatValueView::Number(t) ==> u2.stats.toughness
                == StatValueView::Number((t + 1) as i32) && u2.stat_changes.toughness_changed)
            &&& (!(u1.stats.toughness is Number) ==> u2.stats.toughness == u1.stats.toughness
                && u2.stat_changes.toughness_changed == u1.stat_changes.toughness_changed)
            &&& u2.active_ability_notes == u1.active_ability_notes.push(
                "Microactuator Bracing: +1 to this unit's Toughness this turn."@,
            )
            &&& u2.weapons == u1.weapons
        }),
{
    let m = ModifierView::HaloscreedEnhancement {
        enhancement: HaloscreedEnhancement::MicroactuatorBracing,
        unit_ids,
    };
    lemma_one_more(p, ms, m);
    let u1 = resolve(p, ms).unwrap();
    let u2 = resolve(p, ms.push(m)).unwrap();
    assert(u2.weapons =~= u1.weapons);
}

/// Electromotive Energisation for a unit among `unit_ids`: a numeric
/// movement n becomes n + 2, and a distance text of a inches (such as `6"`)
/// becomes a text of a + 2 inches, flagged as changed, where the sum fits.
pub proof fn lemma_energisation_adds_two_inches(
    p: UnitProfileView,
    ms: Seq<ModifierView>,
    unit_ids: Seq<Seq<char>>,
)
    requires
        exists|j: int| 0 <= j < unit_ids.len() && unit_ids[j] == p.id,
        resolve(p, ms) is Some,
    ensures
        resolve(
            p,
            ms.push(
                ModifierView::HaloscreedEnhancement {
                    enhancement: HaloscreedEnhancement::ElectromotiveEnergisation,
                    unit_ids,
                },
            ),
        ) is Some,
        ({
            let u1 = resolve(p, ms).unwrap();
            let u2 = resolve(
                p,
                ms.push(
                    ModifierView::HaloscreedEnhancement {
                        enhancement: HaloscreedEnhancement::ElectromotiveEnergisation,
                        unit_ids,
                    },
                ),
            ).unwrap();
            let distance = match u1.stats.movement {
                StatValueView::Roll(s) => inches_in(s),
                StatValueView::Text(s) => inches_in(s),
                StatValueView::Number(_) => None,
            };
            &&& u1.stats.movement is Number && u1.stats.movement->Number_0 + 2 <= i32::MAX
                ==> u2.stats.movement == StatValueView::Number(
                (u1.stats.movement->Number_0 + 2) as i32,
            ) && u2.stat_changes.movement_changed
            &&& distance is Some && distance.unwrap() + 2 <= u32::MAX ==> u2.stats.movement is Text
                && inches_in(u2.stats.movement->Text_0) == Some((distance.unwrap() + 2) as nat)
                && u2.stat_changes.movement_changed
            &&& u2.active_ability_notes == u1.active_ability_notes.push(
                "Electromotive Energisation: +2\" to this unit's Move this turn."@,
            )
            &&& u2.weapons == u1.weapons
        }),
{
    let m = ModifierView::HaloscreedEnhancement {
        enhancement: HaloscreedEnhancement::ElectromotiveEnergisation,
        unit_ids,
    };
    lemma_never_refused(p, ms, m);
    lemma_one_more(p, ms, m);
    let r1 = resolution(p, ms).unwrap();
    assert(resolve(p, ms.push(m)).unwrap().weapons =~= resolve(p, ms).unwrap().weapons);
    match r1.stats.movement {
        StatValueView::Roll(s) => {
            if inches_in(s) is Some && inches_in(s).unwrap() + 2 <= u32::MAX {
                lemma_moved_distance(s, 2);
            }
        },
        StatValueView::Text(s) => {
            if inches_in(s) is Some && inches_in(s).unwrap() + 2 <= u32::MAX {
                lemma_moved_distance(s, 2);
            }
        },
        StatValueView::Number(_) => {},
    }
}

/// The card after a modifier that only adds the note `note`: stats, flags,
/// weapons and the rest of the card stay, and `note` follows the earlier notes.
pub open spec fn only_note_added(
    p: UnitProfileView,
    ms: Seq<ModifierView>,
    m: ModifierView,
    note: Seq<char>,
) -> bool {
    resolve(p, ms.push(m)) == Some(
        crate::types::ResolvedUnitView {
            active_ability_notes: resolve(p, ms).unwrap().active_ability_notes.push(note),
            ..resolve(p, ms).unwrap()
        },
    )
}

proof fn lemma_note_step(p: UnitProfileView, ms: Seq<ModifierView>, m: ModifierView)
    requires
        resolution(p, ms) is Some,
        apply_modifier_spec(m, p, resolution(p, ms).unwrap()) is Some,
    ensures
        resolution(p, ms.push(m)) is Some,
        apply_modifier_spec(m, p, resolution(p, ms).unwrap()) == resolution(p, ms.push(m)),
{
    lemma_never_refused(p, ms, m);
    lemma_one_more(p, ms, m);
}

/// Data-Psalm: Enrichment adds its note to any unit and changes nothing else.
pub proof fn lemma_enrichment_adds_its_note(p: UnitProfileView, ms: Seq<ModifierView>)
    requires
        resolve(p, ms) is Some,
    ensures
        only_note_added(
            p,
            ms,
            ModifierView::DoctrinaImperative { doctrina: Doctrina::DataPsalmEnrichment },
            "Data-Psalm: Enrichment — All attacks wound on a 6 regardless of Toughness."@,
        ),
{
    let m = ModifierView::DoctrinaImperative { doctrina: Doctrina::DataPsalmEnrichment };
    lemma_note_step(p, ms, m);
    let u2 = resolve(p, ms.push(m)).unwrap();
    assert(u2.weapons =~= resolve(p, ms).unwrap().weapons);
}

/// The Overcharge stratagem on this unit adds its note and changes nothing else.
pub proof fn lemma_overcharge_adds_its_note(p: UnitProfileView, ms: Seq<ModifierView>)
    requires
        resolve(p, ms) is Some,
    ensures
        only_note_added(
            p,
            ms,
            ModifierView::Stratagem {
                stratagem_id: "protector_imperatives_overcharge"@,
                unit_id: p.id,
            },
            "Overcharge: Re-roll hit rolls of 1 this phase."@,
        ),
{
    let m = ModifierView::Stratagem {
        stratagem_id: "protector_imperatives_overcharge"@,
        unit_id: p.id,
    };
    lemma_note_step(p, ms, m);
    let u2 = resolve(p, ms.push(m)).unwrap();
    assert(u2.weapons =~= resolve(p, ms).unwrap().weapons);
}

/// Predation Protocols and Muted Servomotors, for a unit among `unit_ids`,
/// each add their note and change nothing else.
pub proof fn lemma_note_enhancements(
    p: UnitProfileView,
    ms: Seq<ModifierView>,
    unit_ids: Seq<Seq<char>>,
)
    requires
        resolve(p, ms) is Some,
        exists|j: int| 0 <= j < unit_ids.len() && unit_ids[j] == p.id,
    ensures
        only_note_added(
            p,
            ms,
            ModifierView::HaloscreedEnhancement {
                enhancement: HaloscreedEnhancement::PredationProtocols,
                unit_ids,
            },
            "Predation Protocols: This unit can Advance and still declare a Charge this turn."@,
        ),
        only_note_added(
            p,
            ms,
            ModifierView::HaloscreedEnhancement {
                enhancement: HaloscreedEnhancement::MutedServomotors,
                unit_ids,
            },
            "Muted Servomotors: Stealth — enemy units cannot target this unit from more than 12\" away."@,
        ),
{
    let m1 = ModifierView::HaloscreedEnhancement {
        enhancement: HaloscreedEnhancement::PredationProtocols,
        unit_ids,
    };
    let m2 = ModifierView::HaloscreedEnhancement {
        enhancement: HaloscreedEnhancement::MutedServomotors,
        unit_ids,
    };
    lemma_note_step(p, ms, m1);
    lemma_note_step(p, ms, m2);
    assert(resolve(p, ms.push(m1)).unwrap().weapons =~= resolve(p, ms).unwrap().weapons);
    assert(resolve(p, ms.push(m2)).unwrap().weapons =~= resolve(p, ms).unwrap().weapons);
}

/// `k` plus signs.
pub open spec fn pluses(k: nat) -> Seq<char> {
    Seq::new(k, |i: int| '+')
}

/// Trailing plus signs are dropped, and only those.
proof fn lemma_trim_pluses(t: Seq<char>, k: nat)
    requires
        t.len() > 0,
        t.last() != '+',
    ensures
        trim_plus(t + pluses(k)) == t,
    decreases k,
{
    if k == 0 {
        assert(t + pluses(0) =~= t);
    } else {
        assert((t + pluses(k)).drop_last() =~= t + pluses((k - 1) as nat));
        lemma_trim_pluses(t, (k - 1) as nat);
    }
}

/// Trimming keeps a prefix of the text and drops only plus signs.
proof fn lemma_trim_is_prefix(s: Seq<char>)
    ensures
        trim_plus(s).len() <= s.len(),
        trim_plus(s) == s.subrange(0, trim_plus(s).len() as int),
        forall|j: int| trim_plus(s).len() <= j < s.len() ==> s[j] == '+',
    decreases s.len(),
{
    if s.len() > 0 && s.last() == '+' {
        lemma_trim_is_prefix(s.drop_last());
        assert(s.drop_last().subrange(0, trim_plus(s).len() as int) =~= s.subrange(
            0,
            trim_plus(s).len() as int,
        ));
        assert forall|j: int| trim_plus(s).len() <= j < s.len() implies s[j] == '+' by {
            if j < s.len() - 1 {
                assert(s.drop_last()[j] == s[j]);
            }
        }
    } else {
        assert(s.subrange(0, s.len() as int) =~= s);
    }
}

/// Reading a roll: digits, with or without a leading `+`, followed by any
/// number of `+` signs, read as the number the digits spell out when it fits
/// a `u8`, and as no threshold otherwise.
pub proof fn lemma_roll_reads_digits(d: Seq<char>, k: nat, signed: bool)
    requires
        d.len() > 0,
        all_digits(d),
    ensures
        StatValueView::Roll(
            (if signed {
                seq!['+'] + d
            } else {
                d
            }) + pluses(k),
        ).roll() == (if digits_value(d) <= 255 {
            Some(digits_value(d) as u8)
        } else {
            None
        }),
{
    let t = if signed {
        seq!['+'] + d
    } else {
        d
    };
    assert(is_digit(d[d.len() - 1]));
    assert(t.last() == d.last());
    lemma_trim_pluses(t, k);
    if signed {
        assert(unsigned_digits(t) =~= d);
    } else {
        assert(is_digit(d[0]));
    }
}

/// A roll with any character other than a digit or `+` has no threshold.
pub proof fn lemma_roll_rejects_other_chars(s: Seq<char>, i: int)
    requires
        0 <= i < s.len(),
        !is_digit(s[i]),
        s[i] != '+',
    ensures
        StatValueView::Roll(s).roll() is None,
{
    lemma_trim_is_prefix(s);
    let t = trim_plus(s);
    assert(i < t.len());
    assert(t[i] == s[i]);
    let u = unsigned_digits(t);
    if t.len() > 0 && t[0] == '+' {
        assert(i > 0);
        assert(u[i - 1] == t[i]);
    } else {
        assert(u[i] == t[i]);
    }
}

/// Improving or worsening a readable roll that moves writes the new
/// threshold in plain form: its decimal digits and one `+`.
pub proof fn lemma_changed_roll_is_plain(v: StatValueView)
    ensures
        v.roll() matches Some(n) ==> (n > 2 ==> v.improved() == StatValueView::Roll(
            decimal((n - 1) as nat) + seq!['+'],
        )) && (n < 6 ==> v.worsened() == StatValueView::Roll(
            decimal((n + 1) as nat) + seq!['+'],
        )) && (n <= 2 ==> v.improved() == v) && (n >= 6 ==> v.worsened() == v),
{
}

/// Adding inches to a numeric movement adds them to the number, when the sum
/// fits an `i32`; otherwise the value stays. A value that is neither a number
/// nor a distance text stays too.
pub proof fn lemma_moved_number(n: i32, inches: u32, s: Seq<char>)
    ensures
        n + inches <= i32::MAX ==> StatValueView::Number(n).moved(inches) == StatValueView::Number(
            (n + inches) as i32,
        ),
        n + inches > i32::MAX ==> StatValueView::Number(n).moved(inches) == StatValueView::Number(n),
        inches_in(s) is None ==> StatValueView::Text(s).moved(inches) == StatValueView::Text(s)
            && StatValueView::Roll(s).moved(inches) == StatValueView::Roll(s),
{
}

/// The points of no units are 0; the points of one unit are its points
/// times its count.
pub proof fn lemma_points_total_single(u: ArmyUnit)
    ensures
        points_total(Seq::empty()) == 0,
        points_total(seq![u]) == u.points * u.count,
{
    assert(seq![u].drop_last() =~= Seq::<ArmyUnit>::empty());
}

/// The points of two lists of units put together are the sum of their points:
/// every unit counts, wherever it stands.
pub proof fn lemma_points_total_append(a: Seq<ArmyUnit>, b: Seq<ArmyUnit>)
    ensures
        points_total(a + b) == points_total(a) + points_total(b),
    decreases b.len(),
{
    if b.len() == 0 {
        assert(a + b =~= a);
    } else {
        lemma_points_total_append(a, b.drop_last());
        assert((a + b).drop_last() =~= a + b.drop_last());
        assert((a + b).last() == b.last());
    }
}

} // verus!
