//! Resolution of a unit's stat card: every active modifier is applied in
//! order to the base stats, the weapons and the list of ability notes.
//!
//! The model: a `Resolution` is the state that resolution carries from one
//! modifier to the next; `apply_modifier_spec` is one step, `resolution`
//! folds the steps over the modifiers, and `resolve` builds the card from
//! the final state. A step is `None` where the arithmetic of a modifier
//! would overflow; resolution is then refused.

use vstd::prelude::*;

use crate::laws::lemma_refusal_is_final;
use crate::text::{
    decimal, parse_bounded, parse_range, push_decimal, starts_with, text_eq, text_starts_with,
};
use crate::types::{
    copy_abilities, copy_opt_string, copy_stat, copy_stats, copy_strings, modifiers_view,
    stat_value_eq, strings_view, weapons_view, Doctrina, HaloscreedEnhancement, Modifier,
    ModifierView, ResolvedUnit, ResolvedUnitView, ResolvedWeapon, ResolvedWeaponView, StatChanges,
    StatValue, StatValueView, UnitProfile, UnitProfileView, UnitStats, UnitStatsView, Weapon,
    WeaponType, WeaponView,
};

verus! {

// ---------------------------------------------------------------------------
// The model
// ---------------------------------------------------------------------------

/// The part of a weapon that modifiers change while a card is resolved.
#[verifier::ext_equal]
pub struct WeaponOverrideView {
    pub attacks: StatValueView,
    pub skill: StatValueView,
    pub keywords: Seq<Seq<char>>,
    pub skill_changed: bool,
    pub attacks_changed: bool,
}

/// The state that resolution carries from one modifier to the next.
#[verifier::ext_equal]
pub struct Resolution {
    pub stats: UnitStatsView,
    pub changes: StatChanges,
    pub weapons: Seq<WeaponOverrideView>,
    pub notes: Seq<Seq<char>>,
}

/// A weapon before any modifier: its own attacks, skill and keywords, no change flags.
pub open spec fn override_of(w: WeaponView) -> WeaponOverrideView {
    WeaponOverrideView {
        attacks: w.attacks,
        skill: w.skill,
        keywords: w.keywords,
        skill_changed: false,
        attacks_changed: false,
    }
}

/// The state before any modifier: the base stats, no stat changed, the
/// weapons as in the profile, no notes.
pub open spec fn initial_resolution(p: UnitProfileView) -> Resolution {
    Resolution {
        stats: p.base_stats,
        changes: StatChanges::none(),
        weapons: p.weapons.map_values(|w: WeaponView| override_of(w)),
        notes: Seq::empty(),
    }
}

/// `t` is one of the texts of `list`.
pub open spec fn has_text(list: Seq<Seq<char>>, t: Seq<char>) -> bool {
    exists|i: int| 0 <= i < list.len() && list[i] == t
}

/// The unit has the Skitarii keyword.
pub open spec fn is_skitarii(p: UnitProfileView) -> bool {
    has_text(p.keywords, "Skitarii"@)
}

/// The weapon with its skill one step better, flagged as changed when that
/// changes it.
pub open spec fn with_better_skill(o: WeaponOverrideView) -> WeaponOverrideView {
    let s = o.skill.improved();
    if s != o.skill {
        WeaponOverrideView { skill: s, skill_changed: true, ..o }
    } else {
        o
    }
}

/// The weapon with its skill one step worse, flagged as changed when that
/// changes it.
pub open spec fn with_worse_skill(o: WeaponOverrideView) -> WeaponOverrideView {
    let s = o.skill.worsened();
    if s != o.skill {
        WeaponOverrideView { skill: s, skill_changed: true, ..o }
    } else {
        o
    }
}

/// Every weapon whose profile (at the same position) is of type `kind` gets
/// its skill improved.
pub open spec fn better_skills(
    pws: Seq<WeaponView>,
    ws: Seq<WeaponOverrideView>,
    kind: WeaponType,
) -> Seq<WeaponOverrideView> {
    Seq::new(
        ws.len(),
        |i: int|
            if i < pws.len() && pws[i].weapon_type == kind {
                with_better_skill(ws[i])
            } else {
                ws[i]
            },
    )
}

/// Every weapon gets its skill worsened.
pub open spec fn worse_skills(ws: Seq<WeaponOverrideView>) -> Seq<WeaponOverrideView> {
    ws.map_values(|o: WeaponOverrideView| with_worse_skill(o))
}

/// One of the weapon's keywords starts with "Rapid Fire".
pub open spec fn has_rapid_fire(w: WeaponView) -> bool {
    exists|k: int| 0 <= k < w.keywords.len() && starts_with(w.keywords[k], "Rapid Fire"@)
}

/// A keyword under Elimination Volley: "Rapid Fire n" becomes "Rapid Fire 2n"
/// where n reads as a `u32`; any other keyword stays. `None` where 2n
/// overflows a `u32`.
pub open spec fn rapid_fire_doubled(k: Seq<char>) -> Option<Seq<char>> {
    let prefix = "Rapid Fire "@;
    if starts_with(k, prefix) {
        match parse_bounded(k.skip(prefix.len() as int), u32::MAX as nat) {
            Some(n) => if 2 * n <= u32::MAX {
                Some(prefix + decimal(2 * n))
            } else {
                None
            },
            None => Some(k),
        }
    } else {
        Some(k)
    }
}

/// The keywords under Elimination Volley; `None` where one overflows.
pub open spec fn volley_keywords(ks: Seq<Seq<char>>) -> Option<Seq<Seq<char>>> {
    if forall|i: int| 0 <= i < ks.len() ==> (#[trigger] rapid_fire_doubled(ks[i])) is Some {
        Some(Seq::new(ks.len(), |i: int| rapid_fire_doubled(ks[i]).unwrap()))
    } else {
        None
    }
}

/// A weapon under Elimination Volley: a ranged weapon whose profile has a
/// Rapid Fire keyword doubles a numeric attacks value (flagged as changed)
/// and the number of each "Rapid Fire n" keyword. `None` where a doubling
/// overflows.
pub open spec fn volley_weapon(pw: WeaponView, o: WeaponOverrideView) -> Option<
    WeaponOverrideView,
> {
    if pw.weapon_type == WeaponType::Ranged && has_rapid_fire(pw) {
        let attacks: Option<(StatValueView, bool)> = match o.attacks {
            StatValueView::Number(n) => if i32::MIN <= 2 * n <= i32::MAX {
                Some((StatValueView::Number((2 * n) as i32), true))
            } else {
                None
            },
            _ => Some((o.attacks, o.attacks_changed)),
        };
        match (attacks, volley_keywords(o.keywords)) {
            (Some((a, changed)), Some(ks)) => Some(
                WeaponOverrideView { attacks: a, attacks_changed: changed, keywords: ks, ..o },
            ),
            _ => None,
        }
    } else {
        Some(o)
    }
}

/// Elimination Volley for the weapon at position `i`, against the profile
/// weapon at the same position.
pub open spec fn volley_at(pws: Seq<WeaponView>, ws: Seq<WeaponOverrideView>, i: int) -> Option<
    WeaponOverrideView,
> {
    if i < pws.len() {
        volley_weapon(pws[i], ws[i])
    } else {
        Some(ws[i])
    }
}

/// All weapons under Elimination Volley; `None` where one overflows.
pub open spec fn volley_weapons(pws: Seq<WeaponView>, ws: Seq<WeaponOverrideView>) -> Option<
    Seq<WeaponOverrideView>,
> {
    if forall|i: int| 0 <= i < ws.len() ==> (#[trigger] volley_at(pws, ws, i)) is Some {
        Some(Seq::new(ws.len(), |i: int| volley_at(pws, ws, i).unwrap()))
    } else {
        None
    }
}

/// The note that Data-Psalm: Enrichment adds.
pub open spec fn enrichment_note() -> Seq<char> {
    "Data-Psalm: Enrichment — All attacks wound on a 6 regardless of Toughness."@
}

/// The note that Electromotive Energisation adds.
pub open spec fn energisation_note() -> Seq<char> {
    "Electromotive Energisation: +2\" to this unit's Move this turn."@
}

/// The note that Microactuator Bracing adds.
pub open spec fn bracing_note() -> Seq<char> {
    "Microactuator Bracing: +1 to this unit's Toughness this turn."@
}

/// The note that Predation Protocols adds.
pub open spec fn predation_note() -> Seq<char> {
    "Predation Protocols: This unit can Advance and still declare a Charge this turn."@
}

/// The note that Muted Servomotors adds.
pub open spec fn servomotors_note() -> Seq<char> {
    "Muted Servomotors: Stealth — enemy units cannot target this unit from more than 12\" away."@
}

/// The id of the one stratagem that has an effect.
pub open spec fn overcharge_id() -> Seq<char> {
    "protector_imperatives_overcharge"@
}

/// The note that the Overcharge stratagem adds.
pub open spec fn overcharge_note() -> Seq<char> {
    "Overcharge: Re-roll hit rolls of 1 this phase."@
}

/// The note that a damage bracket adds.
pub open spec fn damaged_note() -> Seq<char> {
    "DAMAGED: -1 to all Hit rolls this turn."@
}

/// A Doctrina Imperative. Protector and Conqueror act on Skitarii only:
/// BS (WS) one step better, flagged when that changes it, and so the skill
/// of each ranged (melee) weapon. Elimination Volley doubles Rapid Fire weapons; Enrichment
/// adds its note.
pub open spec fn apply_doctrina_spec(d: Doctrina, p: UnitProfileView, r: Resolution) -> Option<
    Resolution,
> {
    match d {
        Doctrina::Protector => Some(
            if is_skitarii(p) {
                Resolution {
                    stats: UnitStatsView { bs: r.stats.bs.improved(), ..r.stats },
                    changes: StatChanges {
                        bs_changed: r.changes.bs_changed || r.stats.bs.improved() != r.stats.bs,
                        ..r.changes
                    },
                    weapons: better_skills(p.weapons, r.weapons, WeaponType::Ranged),
                    notes: r.notes,
                }
            } else {
                r
            },
        ),
        Doctrina::Conqueror => Some(
            if is_skitarii(p) {
                Resolution {
                    stats: UnitStatsView { ws: r.stats.ws.improved(), ..r.stats },
                    changes: StatChanges {
                        ws_changed: r.changes.ws_changed || r.stats.ws.improved() != r.stats.ws,
                        ..r.changes
                    },
                    weapons: better_skills(p.weapons, r.weapons, WeaponType::Melee),
                    notes: r.notes,
                }
            } else {
                r
            },
        ),
        Doctrina::EliminationVolley => match volley_weapons(p.weapons, r.weapons) {
            Some(ws) => Some(Resolution { weapons: ws, ..r }),
            None => None,
        },
        Doctrina::DataPsalmEnrichment => Some(
            Resolution { notes: r.notes.push(enrichment_note()), ..r },
        ),
    }
}

/// A Haloscreed enhancement, for a unit whose id is among `unit_ids`
/// (any other unit is left alone). Energisation adds 2" of movement (flagged
/// when that changes it), Bracing adds 1 to a numeric toughness (flagged;
/// `None` where that overflows); each adds its note.
pub open spec fn apply_haloscreed_spec(
    e: HaloscreedEnhancement,
    unit_ids: Seq<Seq<char>>,
    p: UnitProfileView,
    r: Resolution,
) -> Option<Resolution> {
    if !has_text(unit_ids, p.id) {
        Some(r)
    } else {
        match e {
            HaloscreedEnhancement::ElectromotiveEnergisation => {
                let m = r.stats.movement.moved(2);
                let r2 = if m != r.stats.movement {
                    Resolution {
                        stats: UnitStatsView { movement: m, ..r.stats },
                        changes: StatChanges { movement_changed: true, ..r.changes },
                        ..r
                    }
                } else {
                    r
                };
                Some(Resolution { notes: r2.notes.push(energisation_note()), ..r2 })
            },
            HaloscreedEnhancement::MicroactuatorBracing => {
                let r2 = match r.stats.toughness {
                    StatValueView::Number(t) => if t + 1 <= i32::MAX {
                        Some(
                            Resolution {
                                stats: UnitStatsView {
                                    toughness: StatValueView::Number((t + 1) as i32),
                                    ..r.stats
                                },
                                changes: StatChanges { toughness_changed: true, ..r.changes },
                                ..r
                            },
                        )
                    } else {
                        None
                    },
                    _ => Some(r),
                };
                match r2 {
                    Some(r2) => Some(Resolution { notes: r2.notes.push(bracing_note()), ..r2 }),
                    None => None,
                }
            },
            HaloscreedEnhancement::PredationProtocols => Some(
                Resolution { notes: r.notes.push(predation_note()), ..r },
            ),
            HaloscreedEnhancement::MutedServomotors => Some(
                Resolution { notes: r.notes.push(servomotors_note()), ..r },
            ),
        }
    }
}

/// A stratagem: only the Overcharge stratagem has an effect, its note.
pub open spec fn apply_stratagem_spec(stratagem_id: Seq<char>, r: Resolution) -> Resolution {
    if stratagem_id == overcharge_id() {
        Resolution { notes: r.notes.push(overcharge_note()), ..r }
    } else {
        r
    }
}

/// A damage bracket: from bracket 1 on, every weapon's skill one step
/// worse, the unit flagged as damaged, and the note added.
pub open spec fn apply_damage_spec(bracket: u8, r: Resolution) -> Resolution {
    if bracket >= 1 {
        Resolution {
            changes: StatChanges { damaged: true, ..r.changes },
            weapons: worse_skills(r.weapons),
            notes: r.notes.push(damaged_note()),
            ..r
        }
    } else {
        r
    }
}

/// One modifier applied to the state. Stratagems and damage brackets act
/// only on the unit whose id they name.
pub open spec fn apply_modifier_spec(m: ModifierView, p: UnitProfileView, r: Resolution) -> Option<
    Resolution,
> {
    match m {
        ModifierView::DoctrinaImperative { doctrina } => apply_doctrina_spec(doctrina, p, r),
        ModifierView::HaloscreedEnhancement { enhancement, unit_ids } => apply_haloscreed_spec(
            enhancement,
            unit_ids,
            p,
            r,
        ),
        ModifierView::Stratagem { stratagem_id, unit_id } => Some(
            if unit_id == p.id {
                apply_stratagem_spec(stratagem_id, r)
            } else {
                r
            },
        ),
        ModifierView::DamageDegradation { unit_id, bracket } => Some(
            if unit_id == p.id {
                apply_damage_spec(bracket, r)
            } else {
                r
            },
        ),
    }
}

/// The state once the modifiers have been applied in order; `None` where
/// one of them overflows.
pub open spec fn resolution(p: UnitProfileView, ms: Seq<ModifierView>) -> Option<Resolution>
    decreases ms.len(),
{
    if ms.len() == 0 {
        Some(initial_resolution(p))
    } else {
        match resolution(p, ms.drop_last()) {
            Some(r) => apply_modifier_spec(ms.last(), p, r),
            None => None,
        }
    }
}

/// A profile weapon together with its resolved part.
pub open spec fn resolved_weapon(w: WeaponView, o: WeaponOverrideView) -> ResolvedWeaponView {
    ResolvedWeaponView {
        name: w.name,
        weapon_type: w.weapon_type,
        range: w.range,
        attacks: o.attacks,
        skill: o.skill,
        strength: w.strength,
        ap: w.ap,
        damage: w.damage,
        keywords: o.keywords,
        skill_changed: o.skill_changed,
        attacks_changed: o.attacks_changed,
    }
}

/// The smaller of two lengths.
pub open spec fn min_len(a: nat, b: nat) -> nat {
    if a <= b {
        a
    } else {
        b
    }
}

/// The card built from the profile and the final state: the profile's
/// identity, keywords and abilities, the resolved stats, flags and notes, and
/// each profile weapon paired with its resolved part.
pub open spec fn resolved_unit(p: UnitProfileView, r: Resolution) -> ResolvedUnitView {
    ResolvedUnitView {
        id: p.id,
        name: p.name,
        faction: p.faction,
        keywords: p.keywords,
        stats: r.stats,
        stat_changes: r.changes,
        weapons: Seq::new(
            min_len(p.weapons.len(), r.weapons.len()),
            |i: int| resolved_weapon(p.weapons[i], r.weapons[i]),
        ),
        abilities: p.abilities,
        active_ability_notes: r.notes,
    }
}

/// The resolved card of the profile under the modifiers; `None` where the
/// arithmetic of a modifier overflows.
pub open spec fn resolve(p: UnitProfileView, ms: Seq<ModifierView>) -> Option<ResolvedUnitView> {
    match resolution(p, ms) {
        Some(r) => Some(resolved_unit(p, r)),
        None => None,
    }
}

// ---------------------------------------------------------------------------
// The code
// ---------------------------------------------------------------------------

/// Mutable weapon state during resolution.
struct WeaponOverride {
    attacks: StatValue,
    skill: StatValue,
    keywords: Vec<String>,
    skill_changed: bool,
    attacks_changed: bool,
}

impl View for WeaponOverride {
    type V = WeaponOverrideView;

    closed spec fn view(&self) -> WeaponOverrideView {
        WeaponOverrideView {
            attacks: self.attacks@,
            skill: self.skill@,
            keywords: strings_view(self.keywords@),
            skill_changed: self.skill_changed,
            attacks_changed: self.attacks_changed,
        }
    }
}

/// The views of a list of weapon overrides.
spec fn overrides_view(v: Seq<WeaponOverride>) -> Seq<WeaponOverrideView> {
    v.map_values(|o: WeaponOverride| o@)
}

/// The state held in the four pieces that resolution mutates.
spec fn state_of(
    stats: UnitStats,
    changes: StatChanges,
    weapons: Seq<WeaponOverride>,
    notes: Seq<String>,
) -> Resolution {
    Resolution {
        stats: stats@,
        changes: changes,
        weapons: overrides_view(weapons),
        notes: strings_view(notes),
    }
}

impl WeaponOverride {
    fn from_weapon(w: &Weapon) -> (r: Self)
        ensures
            r@ == override_of(w@),
    {
        WeaponOverride {
            attacks: copy_stat(&w.attacks),
            skill: copy_stat(&w.skill),
            keywords: copy_strings(&w.keywords),
            skill_changed: false,
            attacks_changed: false,
        }
    }

    fn copy(&self) -> (r: Self)
        ensures
            r@ == self@,
    {
        WeaponOverride {
            attacks: copy_stat(&self.attacks),
            skill: copy_stat(&self.skill),
            keywords: copy_strings(&self.keywords),
            skill_changed: self.skill_changed,
            attacks_changed: self.attacks_changed,
        }
    }
}

/// A new string with the characters of `s`.
fn owned(s: &str) -> (r: String)
    ensures
        r@ == s@,
{
    let mut r = String::new();
    r.append(s);
    r
}

/// Whether `t` is one of the strings of `list`.
fn contains_text(list: &Vec<String>, t: &str) -> (r: bool)
    ensures
        r == has_text(strings_view(list@), t@),
{
    let mut i: usize = 0;
    while i < list.len()
        invariant
            i <= list.len(),
            forall|j: int| 0 <= j < i ==> list@[j]@ != t@,
        decreases list.len() - i,
    {
        if text_eq(list[i].as_str(), t) {
            assert(strings_view(list@)[i as int] == t@);
            return true;
        }
        i = i + 1;
    }
    assert(!has_text(strings_view(list@), t@)) by {
        if has_text(strings_view(list@), t@) {
            let j = choose|j: int|
                0 <= j < strings_view(list@).len() && strings_view(list@)[j] == t@;
            assert(list@[j]@ == t@);
        }
    }
    false
}

/// The weapon with its skill improved, flagged when that changes it.
fn better_skill(o: &WeaponOverride) -> (r: WeaponOverride)
    ensures
        r@ == with_better_skill(o@),
{
    let improved = o.skill.improve_roll();
    if !stat_value_eq(&improved, &o.skill) {
        let r = WeaponOverride {
            attacks: copy_stat(&o.attacks),
            skill: improved,
            keywords: copy_strings(&o.keywords),
            skill_changed: true,
            attacks_changed: o.attacks_changed,
        };
        assert(r@ =~= with_better_skill(o@));
        r
    } else {
        o.copy()
    }
}

/// The weapon with its skill worsened, flagged when that changes it.
fn worse_skill(o: &WeaponOverride) -> (r: WeaponOverride)
    ensures
        r@ == with_worse_skill(o@),
{
    let worsened = o.skill.worsen_roll();
    if !stat_value_eq(&worsened, &o.skill) {
        let r = WeaponOverride {
            attacks: copy_stat(&o.attacks),
            skill: worsened,
            keywords: copy_strings(&o.keywords),
            skill_changed: true,
            attacks_changed: o.attacks_changed,
        };
        assert(r@ =~= with_worse_skill(o@));
        r
    } else {
        o.copy()
    }
}

/// Improves the skill of every weapon whose profile weapon is of type `kind`.
fn improve_skills(
    profile_weapons: &Vec<Weapon>,
    weapons: &mut Vec<WeaponOverride>,
    kind: WeaponType,
)
    ensures
        overrides_view(final(weapons)@) == better_skills(
            weapons_view(profile_weapons@),
            overrides_view(old(weapons)@),
            kind,
        ),
{
    let ghost pws = weapons_view(profile_weapons@);
    let ghost ws = overrides_view(weapons@);
    let mut out: Vec<WeaponOverride> = Vec::new();
    let mut i: usize = 0;
    while i < weapons.len()
        invariant
            i <= weapons.len(),
            ws == overrides_view(weapons@),
            pws == weapons_view(profile_weapons@),
            out@.len() == i,
            forall|j: int| 0 <= j < i ==> (#[trigger] out@[j])@ == better_skills(pws, ws, kind)[j],
        decreases weapons.len() - i,
    {
        if i < profile_weapons.len() && profile_weapons[i].weapon_type == kind {
            out.push(better_skill(&weapons[i]));
        } else {
            out.push(weapons[i].copy());
        }
        i = i + 1;
    }
    assert(overrides_view(out@) =~= better_skills(pws, ws, kind));
    *weapons = out;
}

/// Worsens the skill of every weapon.
fn worsen_skills(weapons: &mut Vec<WeaponOverride>)
    ensures
        overrides_view(final(weapons)@) == worse_skills(overrides_view(old(weapons)@)),
{
    let ghost ws = overrides_view(weapons@);
    let mut out: Vec<WeaponOverride> = Vec::new();
    let mut i: usize = 0;
    while i < weapons.len()
        invariant
            i <= weapons.len(),
            ws == overrides_view(weapons@),
            out@.len() == i,
            forall|j: int| 0 <= j < i ==> (#[trigger] out@[j])@ == worse_skills(ws)[j],
        decreases weapons.len() - i,
    {
        out.push(worse_skill(&weapons[i]));
        i = i + 1;
    }
    assert(overrides_view(out@) =~= worse_skills(ws));
    *weapons = out;
}

/// Whether one of the keywords starts with "Rapid Fire".
fn has_rapid_fire_keyword(w: &Weapon) -> (r: bool)
    ensures
        r == has_rapid_fire(w@),
{
    let mut i: usize = 0;
    while i < w.keywords.len()
        invariant
            i <= w.keywords.len(),
            forall|j: int| 0 <= j < i ==> !starts_with(w.keywords@[j]@, "Rapid Fire"@),
        decreases w.keywords.len() - i,
    {
        if text_starts_with(w.keywords[i].as_str(), "Rapid Fire") {
            assert(w@.keywords[i as int] == w.keywords@[i as int]@);
            return true;
        }
        i = i + 1;
    }
    assert(!has_rapid_fire(w@)) by {
        if has_rapid_fire(w@) {
            let k = choose|k: int|
                0 <= k < w@.keywords.len() && starts_with(w@.keywords[k], "Rapid Fire"@);
            assert(w@.keywords[k] == w.keywords@[k]@);
        }
    }
    false
}

/// A keyword under Elimination Volley; `None` where doubling overflows.
fn double_rapid_fire(k: &String) -> (r: Option<String>)
    ensures
        match rapid_fire_doubled(k@) {
            Some(t) => r is Some && r->0@ == t,
            None => r is None,
        },
{
    let prefix = "Rapid Fire ";
    proof {
        reveal_strlit("Rapid Fire ");
    }
    let s = k.as_str();
    if text_starts_with(s, prefix) {
        let n = s.unicode_len();
        assert(k@.skip(11) =~= s@.subrange(11, n as int));
        match parse_range(s, 11, n, u32::MAX) {
            Some(v) => match v.checked_mul(2) {
                Some(d) => {
                    let mut t = owned(prefix);
                    push_decimal(&mut t, d);
                    Some(t)
                },
                None => None,
            },
            None => Some(k.clone()),
        }
    } else {
        Some(k.clone())
    }
}

/// The keywords under Elimination Volley; `None` where one overflows.
fn double_rapid_fire_keywords(ks: &Vec<String>) -> (r: Option<Vec<String>>)
    ensures
        match volley_keywords(strings_view(ks@)) {
            Some(t) => r is Some && strings_view(r->0@) == t,
            None => r is None,
        },
{
    let ghost kv = strings_view(ks@);
    let mut out: Vec<String> = Vec::new();
    let mut i: usize = 0;
    while i < ks.len()
        invariant
            i <= ks.len(),
            kv == strings_view(ks@),
            out@.len() == i,
            forall|j: int|
                0 <= j < i ==> (#[trigger] rapid_fire_doubled(kv[j])) == Some(out@[j]@),
        decreases ks.len() - i,
    {
        match double_rapid_fire(&ks[i]) {
            Some(t) => out.push(t),
            None => {
                assert(rapid_fire_doubled(kv[i as int]) is None);
                return None;
            },
        }
        i = i + 1;
    }
    assert(strings_view(out@) =~= Seq::new(kv.len(), |j: int| rapid_fire_doubled(kv[j]).unwrap()));
    Some(out)
}

/// A weapon under Elimination Volley; `None` where a doubling overflows.
fn volley(pw: &Weapon, o: &WeaponOverride) -> (r: Option<WeaponOverride>)
    ensures
        match volley_weapon(pw@, o@) {
            Some(v) => r is Some && r->0@ == v,
            None => r is None,
        },
{
    if pw.weapon_type == WeaponType::Ranged && has_rapid_fire_keyword(pw) {
        let (attacks, attacks_changed) = match &o.attacks {
            StatValue::Number(n) => match n.checked_mul(2) {
                Some(d) => (StatValue::Number(d), true),
                None => {
                    return None;
                },
            },
            other => (copy_stat(other), o.attacks_changed),
        };
        match double_rapid_fire_keywords(&o.keywords) {
            Some(keywords) => {
                let r = WeaponOverride {
                    attacks,
                    skill: copy_stat(&o.skill),
                    keywords,
                    skill_changed: o.skill_changed,
                    attacks_changed,
                };
                assert(r@ =~= volley_weapon(pw@, o@).unwrap());
                Some(r)
            },
            None => None,
        }
    } else {
        Some(o.copy())
    }
}

/// All weapons under Elimination Volley; `false` (and the weapons left
/// unspecified) where a doubling overflows.
fn volley_all(profile_weapons: &Vec<Weapon>, weapons: &mut Vec<WeaponOverride>) -> (ok: bool)
    ensures
        ok == volley_weapons(weapons_view(profile_weapons@), overrides_view(old(weapons)@)) is Some,
        ok ==> overrides_view(final(weapons)@) == volley_weapons(
            weapons_view(profile_weapons@),
            overrides_view(old(weapons)@),
        ).unwrap(),
        !ok ==> final(weapons)@ == old(weapons)@,
{
    let ghost pws = weapons_view(profile_weapons@);
    let ghost ws = overrides_view(weapons@);
    let mut out: Vec<WeaponOverride> = Vec::new();
    let mut i: usize = 0;
    while i < weapons.len()
        invariant
            i <= weapons.len(),
            ws == overrides_view(weapons@),
            pws == weapons_view(profile_weapons@),
            out@.len() == i,
            forall|j: int|
                0 <= j < i ==> (#[trigger] volley_at(pws, ws, j)) == Some(out@[j]@),
        decreases weapons.len() - i,
    {
        if i < profile_weapons.len() {
            match volley(&profile_weapons[i], &weapons[i]) {
                Some(v) => out.push(v),
                None => {
                    assert(volley_at(pws, ws, i as int) is None);
                    return false;
                },
            }
        } else {
            out.push(weapons[i].copy());
        }
        i = i + 1;
    }
    assert(overrides_view(out@) =~= Seq::new(ws.len(), |j: int| volley_at(pws, ws, j).unwrap()));
    *weapons = out;
    true
}

/// Applies a Doctrina Imperative to the mutable state; `false` where its
/// arithmetic overflows.
fn apply_doctrina(
    doctrina: &Doctrina,
    profile: &UnitProfile,
    stats: &mut UnitStats,
    changes: &mut StatChanges,
    weapons: &mut Vec<WeaponOverride>,
    ability_notes: &mut Vec<String>,
) -> (ok: bool)
    ensures
        ok == apply_doctrina_spec(
            *doctrina,
            profile@,
            state_of(*old(stats), *old(changes), old(weapons)@, old(ability_notes)@),
        ) is Some,
        ok ==> state_of(*final(stats), *final(changes), final(weapons)@, final(ability_notes)@)
            == apply_doctrina_spec(
            *doctrina,
            profile@,
            state_of(*old(stats), *old(changes), old(weapons)@, old(ability_notes)@),
        ).unwrap(),
        !ok ==> *final(stats) == *old(stats) && *final(changes) == *old(changes)
            && final(weapons)@ == old(weapons)@ && final(ability_notes)@ == old(ability_notes)@,
{    let is_skitarii = contains_text(&profile.keywords, "Skitarii");
    match doctrina {
        Doctrina::Protector => {
            if is_skitarii {
                let improved = stats.bs.improve_roll();
                if !stat_value_eq(&improved, &stats.bs) {
                    stats.bs = improved;
                    changes.bs_changed = true;
                }
                // Improve BS on all ranged weapons
                improve_skills(&profile.weapons, weapons, WeaponType::Ranged);
            }
            true
        },
        Doctrina::Conqueror => {
            if is_skitarii {
                let improved = stats.ws.improve_roll();
                if !stat_value_eq(&improved, &stats.ws) {
                    stats.ws = improved;
                    changes.ws_changed = true;
                }
                improve_skills(&profile.weapons, weapons, WeaponType::Melee);
            }
            true
        },
        Doctrina::EliminationVolley => volley_all(&profile.weapons, weapons),
        Doctrina::DataPsalmEnrichment => {
            ability_notes.push(
                owned("Data-Psalm: Enrichment — All attacks wound on a 6 regardless of Toughness."),
            );
            proof {
                assert(strings_view(ability_notes@) =~= strings_view(old(ability_notes)@).push(
                    enrichment_note(),
                ));
            }
            true
        },
    }
}

/// Haloscreed Battle Clade — Noospheric Transference enhancement.
/// Only applies to units currently holding the Halo Override keyword (by ID).
fn apply_haloscreed_enhancement(
    enhancement: &HaloscreedEnhancement,
    profile: &UnitProfile,
    unit_ids: &Vec<String>,
    stats: &mut UnitStats,
    changes: &mut StatChanges,
    weapons: &mut Vec<WeaponOverride>,
    ability_notes: &mut Vec<String>,
) -> (ok: bool)
    ensures
        ok == apply_haloscreed_spec(
            *enhancement,
            strings_view(unit_ids@),
            profile@,
            state_of(*old(stats), *old(changes), old(weapons)@, old(ability_notes)@),
        ) is Some,
        ok ==> state_of(*final(stats), *final(changes), final(weapons)@, final(ability_notes)@)
            == apply_haloscreed_spec(
            *enhancement,
            strings_view(unit_ids@),
            profile@,
            state_of(*old(stats), *old(changes), old(weapons)@, old(ability_notes)@),
        ).unwrap(),
        !ok ==> *final(stats) == *old(stats) && *final(changes) == *old(changes)
            && final(weapons)@ == old(weapons)@ && final(ability_notes)@ == old(ability_notes)@,
{    if !contains_text(unit_ids, profile.id.as_str()) {
        return true;
    }
    let ghost notes0 = strings_view(ability_notes@);
    match enhancement {
        HaloscreedEnhancement::ElectromotiveEnergisation => {
            let new_movement = stats.movement.add_movement(2);
            if !stat_value_eq(&new_movement, &stats.movement) {
                stats.movement = new_movement;
                changes.movement_changed = true;
            }
            ability_notes.push(
                owned("Electromotive Energisation: +2\" to this unit's Move this turn."),
            );
            assert(strings_view(ability_notes@) =~= notes0.push(energisation_note()));
        },
        HaloscreedEnhancement::MicroactuatorBracing => {
            if let StatValue::Number(t) = stats.toughness {
                if t == i32::MAX {
                    return false;
                }
                stats.toughness = StatValue::Number(t + 1);
                changes.toughness_changed = true;
            }
            ability_notes.push(
                owned("Microactuator Bracing: +1 to this unit's Toughness this turn."),
            );
            assert(strings_view(ability_notes@) =~= notes0.push(bracing_note()));
        },
        HaloscreedEnhancement::PredationProtocols => {
            ability_notes.push(
                owned(
                    "Predation Protocols: This unit can Advance and still declare a Charge this turn.",
                ),
            );
            assert(strings_view(ability_notes@) =~= notes0.push(predation_note()));
        },
        HaloscreedEnhancement::MutedServomotors => {
            ability_notes.push(
                owned(
                    "Muted Servomotors: Stealth — enemy units cannot target this unit from more than 12\" away.",
                ),
            );
            assert(strings_view(ability_notes@) =~= notes0.push(servomotors_note()));
        },
    }
    true
}

/// Applies a stratagem to the mutable state: only Overcharge has an effect.
fn apply_stratagem(
    stratagem_id: &str,
    _profile: &UnitProfile,
    _stats: &mut UnitStats,
    _changes: &mut StatChanges,
    _weapons: &mut Vec<WeaponOverride>,
    ability_notes: &mut Vec<String>,
)
    ensures
        *final(_stats) == *old(_stats),
        *final(_changes) == *old(_changes),
        final(_weapons)@ == old(_weapons)@,
        strings_view(final(ability_notes)@) == (if stratagem_id@ == overcharge_id() {
            strings_view(old(ability_notes)@).push(overcharge_note())
        } else {
            strings_view(old(ability_notes)@)
        }),
{
    if text_eq(stratagem_id, "protector_imperatives_overcharge") {
        ability_notes.push(owned("Overcharge: Re-roll hit rolls of 1 this phase."));
        assert(strings_view(ability_notes@) =~= strings_view(old(ability_notes)@).push(
            overcharge_note(),
        ));
    }
}

/// 10th edition vehicle damage: when bracket >= 1, all hit rolls are at -1.
/// Represented by worsening every weapon's skill by one step.
fn apply_damage_bracket(
    bracket: u8,
    _stats: &mut UnitStats,
    changes: &mut StatChanges,
    weapons: &mut Vec<WeaponOverride>,
    ability_notes: &mut Vec<String>,
)
    ensures
        *final(_stats) == *old(_stats),
        state_of(*final(_stats), *final(changes), final(weapons)@, final(ability_notes)@)
            == apply_damage_spec(
            bracket,
            state_of(*old(_stats), *old(changes), old(weapons)@, old(ability_notes)@),
        ),
{
    if bracket >= 1 {
        worsen_skills(weapons);
        changes.damaged = true;
        ability_notes.push(owned("DAMAGED: -1 to all Hit rolls this turn."));
        assert(strings_view(ability_notes@) =~= strings_view(old(ability_notes)@).push(
            damaged_note(),
        ));
    }
}

/// Applies a single modifier to the mutable state; `false` where its
/// arithmetic overflows. Adding new modifiers (stratagems, canticles, etc)
/// means adding a new match arm here.
fn apply_modifier(
    modifier: &Modifier,
    profile: &UnitProfile,
    stats: &mut UnitStats,
    changes: &mut StatChanges,
    weapons: &mut Vec<WeaponOverride>,
    ability_notes: &mut Vec<String>,
) -> (ok: bool)
    ensures
        ok == apply_modifier_spec(
            modifier@,
            profile@,
            state_of(*old(stats), *old(changes), old(weapons)@, old(ability_notes)@),
        ) is Some,
        ok ==> state_of(*final(stats), *final(changes), final(weapons)@, final(ability_notes)@)
            == apply_modifier_spec(
            modifier@,
            profile@,
            state_of(*old(stats), *old(changes), old(weapons)@, old(ability_notes)@),
        ).unwrap(),
        !ok ==> *final(stats) == *old(stats) && *final(changes) == *old(changes)
            && final(weapons)@ == old(weapons)@ && final(ability_notes)@ == old(ability_notes)@,
{    match modifier {
        Modifier::DoctrinaImperative { doctrina } => {
            apply_doctrina(doctrina, profile, stats, changes, weapons, ability_notes)
        },
        Modifier::HaloscreedEnhancement { enhancement, unit_ids } => {
            apply_haloscreed_enhancement(
                enhancement,
                profile,
                unit_ids,
                stats,
                changes,
                weapons,
                ability_notes,
            )
        },
        Modifier::Stratagem { stratagem_id, unit_id } => {
            if text_eq(unit_id.as_str(), profile.id.as_str()) {
                apply_stratagem(
                    stratagem_id.as_str(),
                    profile,
                    stats,
                    changes,
                    weapons,
                    ability_notes,
                );
            }
            true
        },
        Modifier::DamageDegradation { unit_id, bracket } => {
            if text_eq(unit_id.as_str(), profile.id.as_str()) {
                apply_damage_bracket(*bracket, stats, changes, weapons, ability_notes);
            }
            true
        },
    }
}

/// Resolves a unit's stats by applying all active modifiers in order, or
/// `None` where the arithmetic of a modifier would overflow (doubling an
/// attacks value or a Rapid Fire number, raising a toughness).
pub fn checked_resolve_unit(profile: &UnitProfile, modifiers: &[Modifier]) -> (r: Option<
    ResolvedUnit,
>)
    ensures
        match resolve(profile@, modifiers_view(modifiers@)) {
            Some(u) => r is Some && r->0@ == u,
            None => r is None,
        },
{
    let mut stats = copy_stats(&profile.base_stats);
    let mut stat_changes = StatChanges::default();
    let mut weapon_overrides: Vec<WeaponOverride> = Vec::new();
    let mut i: usize = 0;
    while i < profile.weapons.len()
        invariant
            i <= profile.weapons.len(),
            weapon_overrides@.len() == i,
            forall|j: int|
                0 <= j < i ==> (#[trigger] weapon_overrides@[j])@ == override_of(
                    profile.weapons@[j]@,
                ),
        decreases profile.weapons.len() - i,
    {
        weapon_overrides.push(WeaponOverride::from_weapon(&profile.weapons[i]));
        i = i + 1;
    }
    let mut ability_notes: Vec<String> = Vec::new();
    let ghost p = profile@;
    let ghost ms = modifiers_view(modifiers@);
    proof {
        assert(overrides_view(weapon_overrides@) =~= p.weapons.map_values(
            |w: WeaponView| override_of(w),
        ));
        assert(strings_view(ability_notes@) =~= Seq::<Seq<char>>::empty());
        assert(ms.take(0) =~= Seq::<ModifierView>::empty());
    }
    let mut k: usize = 0;
    while k < modifiers.len()
        invariant
            k <= modifiers.len(),
            p == profile@,
            ms == modifiers_view(modifiers@),
            resolution(p, ms.take(k as int)) == Some(
                state_of(stats, stat_changes, weapon_overrides@, ability_notes@),
            ),
        decreases modifiers.len() - k,
    {
        let ok = apply_modifier(
            &modifiers[k],
            profile,
            &mut stats,
            &mut stat_changes,
            &mut weapon_overrides,
            &mut ability_notes,
        );
        proof {
            assert(ms.take(k + 1).drop_last() =~= ms.take(k as int));
            assert(ms.take(k + 1).last() == modifiers@[k as int]@);
        }
        if !ok {
            proof {
                lemma_refusal_is_final(p, ms, k + 1);
            }
            return None;
        }
        k = k + 1;
    }
    proof {
        assert(ms.take(modifiers.len() as int) =~= ms);
    }
    let mut resolved_weapons: Vec<ResolvedWeapon> = Vec::new();
    let n = if profile.weapons.len() <= weapon_overrides.len() {
        profile.weapons.len()
    } else {
        weapon_overrides.len()
    };
    let ghost fin = state_of(stats, stat_changes, weapon_overrides@, ability_notes@);
    let mut j: usize = 0;
    while j < n
        invariant
            j <= n,
            n == min_len(profile.weapons@.len(), weapon_overrides@.len()),
            p == profile@,
            fin.weapons == overrides_view(weapon_overrides@),
            resolved_weapons@.len() == j,
            forall|t: int|
                0 <= t < j ==> (#[trigger] resolved_weapons@[t])@ == resolved_weapon(
                    p.weapons[t],
                    fin.weapons[t],
                ),
        decreases n - j,
    {
        let w = &profile.weapons[j];
        let ov = &weapon_overrides[j];
        resolved_weapons.push(
            ResolvedWeapon {
                name: w.name.clone(),
                weapon_type: w.weapon_type,
                range: copy_opt_string(&w.range),
                attacks: copy_stat(&ov.attacks),
                skill: copy_stat(&ov.skill),
                strength: copy_stat(&w.strength),
                ap: w.ap,
                damage: copy_stat(&w.damage),
                keywords: copy_strings(&ov.keywords),
                skill_changed: ov.skill_changed,
                attacks_changed: ov.attacks_changed,
            },
        );
        j = j + 1;
    }
    let r = ResolvedUnit {
        id: profile.id.clone(),
        name: profile.name.clone(),
        faction: profile.faction.clone(),
        keywords: copy_strings(&profile.keywords),
        stats,
        stat_changes,
        weapons: resolved_weapons,
        abilities: copy_abilities(&profile.abilities),
        active_ability_notes: ability_notes,
    };
    assert(r@ =~= resolved_unit(p, fin));
    Some(r)
}

/// Resolves a unit's stats by applying all active modifiers in order.
/// This is the core of the rules engine — all stat computation happens here.
pub fn resolve_unit(profile: &UnitProfile, modifiers: &[Modifier]) -> (r: ResolvedUnit)
    requires
        resolve(profile@, modifiers_view(modifiers@)) is Some,
    ensures
        r@ == resolve(profile@, modifiers_view(modifiers@)).unwrap(),
{
    checked_resolve_unit(profile, modifiers).unwrap()
}

} // verus!
