//! Properties of stat values and of resolution that hold for every input.

use vstd::prelude::*;

use crate::army::{army_errors, points_exceeded_code};
use crate::resolver::{
    apply_modifier_spec, is_skitarii, has_text, override_of, resolution, resolve, resolved_weapon,
    volley_at, with_worse_skill, Resolution,
};
use crate::text::{
    decimal, lemma_decimal_digits, lemma_parse_decimal, lemma_trim_digits_plus,
};
use crate::types::{
    inches_in, inches_text, roll_text, Doctrina, HaloscreedEnhancement, ModifierView, StatChanges,
    StatValueView, UnitProfileView,
};

verus! {

/// The threshold read from the text of a threshold is that threshold.
pub proof fn lemma_roll_text_threshold(n: nat)
    requires
        n <= 255,
    ensures
        StatValueView::Roll(roll_text(n)).roll() == Some(n as u8),
{
    lemma_decimal_digits(n);
    lemma_trim_digits_plus(decimal(n));
    lemma_parse_decimal(n);
}

/// Improving a roll lowers its threshold by one, but never below 2+; a value
/// that is not a readable roll is left as it is.
pub proof fn lemma_improve_threshold(v: StatValueView)
    ensures
        v.roll() matches Some(n) ==> v.improved().roll() == Some(
            if n > 2 {
                (n - 1) as u8
            } else {
                n
            },
        ),
        v.roll() is None ==> v.improved() == v,
{
    if let Some(n) = v.roll() {
        if n > 2 {
            lemma_roll_text_threshold((n - 1) as nat);
        }
    }
}

/// Worsening a roll raises its threshold by one, but never above 6+; a value
/// that is not a readable roll is left as it is.
pub proof fn lemma_worsen_threshold(v: StatValueView)
    ensures
        v.roll() matches Some(n) ==> v.worsened().roll() == Some(
            if n < 6 {
                (n + 1) as u8
            } else {
                n
            },
        ),
        v.roll() is None ==> v.worsened() == v,
{
    if let Some(n) = v.roll() {
        if n < 6 {
            lemma_roll_text_threshold((n + 1) as nat);
        }
    }
}

/// A threshold between 2+ and 6+ stays between 2+ and 6+ when improved or
/// worsened.
pub proof fn lemma_threshold_stays_in_range(v: StatValueView)
    requires
        v.roll() matches Some(n) && 2 <= n <= 6,
    ensures
        v.improved().roll() matches Some(m) && 2 <= m <= 6,
        v.worsened().roll() matches Some(m) && 2 <= m <= 6,
{
    lemma_improve_threshold(v);
    lemma_worsen_threshold(v);
}

/// Worsening undoes improving for thresholds 3+ to 6+, and improving undoes
/// worsening for thresholds 2+ to 5+ (the threshold comes back; the text is
/// then written in its plain form, such as "3+").
pub proof fn lemma_improve_worsen_undo(v: StatValueView)
    ensures
        v.roll() matches Some(n) && 3 <= n <= 6 ==> v.improved().worsened().roll() == v.roll(),
        v.roll() matches Some(n) && 2 <= n <= 5 ==> v.worsened().improved().roll() == v.roll(),
{
    lemma_improve_threshold(v);
    lemma_worsen_threshold(v);
    lemma_improve_threshold(v.worsened());
    lemma_worsen_threshold(v.improved());
}

/// Adding movement to a distance text such as `6"` gives a text whose
/// distance is the sum.
pub proof fn lemma_moved_distance(s: Seq<char>, inches: u32)
    requires
        inches_in(s) matches Some(m) && m + inches <= u32::MAX,
    ensures
        StatValueView::Text(s).moved(inches) matches StatValueView::Text(t) && inches_in(t)
            == Some((inches_in(s).unwrap() + inches) as nat),
        StatValueView::Roll(s).moved(inches) == StatValueView::Text(s).moved(inches),
{
    let m = inches_in(s).unwrap();
    let t = inches_text((m + inches) as nat);
    assert(t.drop_last() =~= decimal((m + inches) as nat));
    lemma_parse_decimal((m + inches) as nat);
}

/// Once a prefix of the modifiers overflows, so do all the modifiers.
pub proof fn lemma_refusal_is_final(p: UnitProfileView, ms: Seq<ModifierView>, k: int)
    requires
        0 <= k <= ms.len(),
        resolution(p, ms.take(k)) is None,
    ensures
        resolution(p, ms) is None,
    decreases ms.len() - k,
{
    if k < ms.len() {
        assert(ms.take(k + 1).drop_last() =~= ms.take(k));
        lemma_refusal_is_final(p, ms, k + 1);
    } else {
        assert(ms.take(k) =~= ms);
    }
}

/// Resolution with no modifiers gives the base card: the base stats, no
/// stat flagged as changed, each weapon as in the profile and unflagged, and
/// no notes.
pub proof fn lemma_no_modifiers(p: UnitProfileView)
    ensures
        resolve(p, Seq::empty()) matches Some(u) && {
            &&& u.stats == p.base_stats
            &&& u.stat_changes == StatChanges::none()
            &&& u.active_ability_notes == Seq::<Seq<char>>::empty()
            &&& u.weapons.len() == p.weapons.len()
            &&& forall|i: int|
                0 <= i < p.weapons.len() ==> #[trigger] u.weapons[i] == resolved_weapon(
                    p.weapons[i],
                    override_of(p.weapons[i]),
                )
        },
{
}

/// Keeps the weapons the same in number.
pub open spec fn keeps_weapon_count(r1: Resolution, r2: Resolution) -> bool {
    r1.weapons.len() == r2.weapons.len()
}

/// What resolution only ever adds to: notes are appended and never removed,
/// a stat or weapon once flagged as changed stays flagged, and the weapons
/// stay the same in number.
pub open spec fn accumulates(r1: Resolution, r2: Resolution) -> bool {
    &&& r1.notes.is_prefix_of(r2.notes)
    &&& r1.changes.bs_changed ==> r2.changes.bs_changed
    &&& r1.changes.ws_changed ==> r2.changes.ws_changed
    &&& r1.changes.movement_changed ==> r2.changes.movement_changed
    &&& r1.changes.toughness_changed ==> r2.changes.toughness_changed
    &&& r1.changes.damaged ==> r2.changes.damaged
    &&& keeps_weapon_count(r1, r2)
    &&& forall|i: int|
        0 <= i < r1.weapons.len() ==> (#[trigger] r1.weapons[i].skill_changed
            ==> r2.weapons[i].skill_changed) && (r1.weapons[i].attacks_changed
            ==> r2.weapons[i].attacks_changed)
}

proof fn lemma_accumulates_refl(r: Resolution)
    ensures
        accumulates(r, r),
{
    assert(r.notes.is_prefix_of(r.notes)) by {
        assert(r.notes.subrange(0, r.notes.len() as int) =~= r.notes);
    }
}

proof fn lemma_accumulates_push(r: Resolution, note: Seq<char>)
    ensures
        accumulates(r, Resolution { notes: r.notes.push(note), ..r }),
{
    let r2 = Resolution { notes: r.notes.push(note), ..r };
    assert(r.notes.is_prefix_of(r2.notes)) by {
        assert(r2.notes.subrange(0, r.notes.len() as int) =~= r.notes);
    }
}

proof fn lemma_accumulates_trans(r1: Resolution, r2: Resolution, r3: Resolution)
    requires
        accumulates(r1, r2),
        accumulates(r2, r3),
    ensures
        accumulates(r1, r3),
{
    assert(r1.notes.is_prefix_of(r3.notes)) by {
        assert forall|i: int| 0 <= i < r1.notes.len() implies r3.notes[i] == r1.notes[i] by {
            assert(r3.notes.subrange(0, r2.notes.len() as int)[i] == r2.notes[i]);
            assert(r2.notes.subrange(0, r1.notes.len() as int)[i] == r1.notes[i]);
        }
        assert(r3.notes.subrange(0, r1.notes.len() as int) =~= r1.notes);
    }
    assert forall|i: int| 0 <= i < r1.weapons.len() implies (
    #[trigger] r1.weapons[i].skill_changed ==> r3.weapons[i].skill_changed) && (
    r1.weapons[i].attacks_changed ==> r3.weapons[i].attacks_changed) by {
        assert(i < r2.weapons.len());
        assert(r1.weapons[i].skill_changed ==> r2.weapons[i].skill_changed);
        assert(r1.weapons[i].attacks_changed ==> r2.weapons[i].attacks_changed);
        assert(r2.weapons[i].skill_changed ==> r3.weapons[i].skill_changed);
        assert(r2.weapons[i].attacks_changed ==> r3.weapons[i].attacks_changed);
    }
}

/// One modifier only adds notes and flags, and keeps the weapon count.
pub proof fn lemma_step_accumulates(m: ModifierView, p: UnitProfileView, r: Resolution)
    requires
        apply_modifier_spec(m, p, r) is Some,
    ensures
        accumulates(r, apply_modifier_spec(m, p, r).unwrap()),
{
    let r2 = apply_modifier_spec(m, p, r).unwrap();
    lemma_accumulates_refl(r);
    match m {
        ModifierView::DoctrinaImperative { doctrina } => {
            match doctrina {
                Doctrina::Protector | Doctrina::Conqueror => {
                    assert forall|i: int| 0 <= i < r.weapons.len() implies (
                    #[trigger] r.weapons[i].skill_changed ==> r2.weapons[i].skill_changed) && (
                    r.weapons[i].attacks_changed ==> r2.weapons[i].attacks_changed) by {}
                    assert(r.notes.is_prefix_of(r2.notes)) by {
                        assert(r2.notes.subrange(0, r.notes.len() as int) =~= r.notes);
                    }
                },
                Doctrina::EliminationVolley => {
                    let pws = p.weapons;
                    assert forall|i: int| 0 <= i < r.weapons.len() implies (
                    #[trigger] r.weapons[i].skill_changed ==> r2.weapons[i].skill_changed) && (
                    r.weapons[i].attacks_changed ==> r2.weapons[i].attacks_changed) by {
                        assert(volley_at(pws, r.weapons, i) is Some);
                    }
                    assert(r.notes.is_prefix_of(r2.notes)) by {
                        assert(r2.notes.subrange(0, r.notes.len() as int) =~= r.notes);
                    }
                },
                Doctrina::DataPsalmEnrichment => {
                    lemma_accumulates_push(r, r2.notes.last());
                    assert(r2 == Resolution { notes: r.notes.push(r2.notes.last()), ..r });
                },
            }
        },
        ModifierView::HaloscreedEnhancement { enhancement, unit_ids } => {
            if has_text(unit_ids, p.id) {
                let mid = Resolution { notes: r.notes, ..r2 };
                assert(r2 == Resolution { notes: mid.notes.push(r2.notes.last()), ..mid });
                lemma_accumulates_push(mid, r2.notes.last());
                assert(accumulates(r, mid)) by {
                    assert(mid.notes.subrange(0, r.notes.len() as int) =~= r.notes);
                }
                lemma_accumulates_trans(r, mid, r2);
            }
        },
        ModifierView::Stratagem { stratagem_id, unit_id } => {
            if r2 != r {
                lemma_accumulates_push(r, r2.notes.last());
                assert(r2 == Resolution { notes: r.notes.push(r2.notes.last()), ..r });
            }
        },
        ModifierView::DamageDegradation { unit_id, bracket } => {
            if r2 != r {
                assert(r.notes.is_prefix_of(r2.notes)) by {
                    assert(r2.notes.subrange(0, r.notes.len() as int) =~= r.notes);
                }
                assert forall|i: int| 0 <= i < r.weapons.len() implies (
                #[trigger] r.weapons[i].skill_changed ==> r2.weapons[i].skill_changed) && (
                r.weapons[i].attacks_changed ==> r2.weapons[i].attacks_changed) by {
                    assert(r2.weapons[i] == with_worse_skill(r.weapons[i]));
                }
            }
        },
    }
}

/// Resolution only ever adds: the state after any prefix of the modifiers
/// accumulates into the state after all of them (notes appended, flags kept,
/// weapons the same in number).
pub proof fn lemma_resolution_accumulates(p: UnitProfileView, ms: Seq<ModifierView>, k: int)
    requires
        0 <= k <= ms.len(),
        resolution(p, ms) is Some,
    ensures
        resolution(p, ms.take(k)) is Some,
        accumulates(resolution(p, ms.take(k)).unwrap(), resolution(p, ms).unwrap()),
    decreases ms.len(),
{
    if k == ms.len() {
        assert(ms.take(k) =~= ms);
        lemma_accumulates_refl(resolution(p, ms).unwrap());
    } else {
        let prev = ms.drop_last();
        let r1 = resolution(p, prev).unwrap();
        lemma_step_accumulates(ms.last(), p, r1);
        lemma_resolution_accumulates(p, prev, k);
        assert(prev.take(k) =~= ms.take(k));
        lemma_accumulates_trans(
            resolution(p, ms.take(k)).unwrap(),
            r1,
            resolution(p, ms).unwrap(),
        );
    }
}

/// The resolved card keeps the profile's identity, keywords and abilities,
/// has one weapon per profile weapon, and each weapon keeps its name, type,
/// range, strength, AP and damage.
pub proof fn lemma_profile_carried_over(p: UnitProfileView, ms: Seq<ModifierView>)
    requires
        resolve(p, ms) is Some,
    ensures
        resolve(p, ms) matches Some(u) && {
            &&& u.id == p.id
            &&& u.name == p.name
            &&& u.faction == p.faction
            &&& u.keywords == p.keywords
            &&& u.abilities == p.abilities
            &&& u.weapons.len() == p.weapons.len()
            &&& forall|i: int|
                0 <= i < p.weapons.len() ==> {
                    &&& (#[trigger] u.weapons[i]).name == p.weapons[i].name
                    &&& u.weapons[i].weapon_type == p.weapons[i].weapon_type
                    &&& u.weapons[i].range == p.weapons[i].range
                    &&& u.weapons[i].strength == p.weapons[i].strength
                    &&& u.weapons[i].ap == p.weapons[i].ap
                    &&& u.weapons[i].damage == p.weapons[i].damage
                }
        },
{
    lemma_resolution_accumulates(p, ms, 0);
    assert(ms.take(0) =~= Seq::<ModifierView>::empty());
}

/// A modifier that does nothing to this unit: a stratagem or damage bracket
/// naming another unit, a Haloscreed enhancement for other units, a damage
/// bracket of 0, a stratagem other than Overcharge, or Protector or
/// Conqueror for a unit without the Skitarii keyword.
pub open spec fn leaves_unit_alone(m: ModifierView, p: UnitProfileView) -> bool {
    match m {
        ModifierView::DoctrinaImperative { doctrina } => (doctrina == Doctrina::Protector
            || doctrina == Doctrina::Conqueror) && !is_skitarii(p),
        ModifierView::HaloscreedEnhancement { enhancement, unit_ids } => !has_text(unit_ids, p.id),
        ModifierView::Stratagem { stratagem_id, unit_id } => unit_id != p.id || stratagem_id
            != "protector_imperatives_overcharge"@,
        ModifierView::DamageDegradation { unit_id, bracket } => unit_id != p.id || bracket == 0,
    }
}

/// Adding a modifier that leaves the unit alone does not change its card.
pub proof fn lemma_unrelated_modifier(p: UnitProfileView, ms: Seq<ModifierView>, m: ModifierView)
    requires
        leaves_unit_alone(m, p),
    ensures
        resolve(p, ms.push(m)) == resolve(p, ms),
{
    assert(ms.push(m).drop_last() =~= ms);
}

/// The change flags mean what they say: a stat or weapon value whose flag
/// is not raised still has its base value, and the stats that no modifier
/// touches (save, wounds, leadership, OC) always do.
pub open spec fn flags_cover_changes(p: UnitProfileView, r: Resolution) -> bool {
    &&& !r.changes.bs_changed ==> r.stats.bs == p.base_stats.bs
    &&& !r.changes.ws_changed ==> r.stats.ws == p.base_stats.ws
    &&& !r.changes.movement_changed ==> r.stats.movement == p.base_stats.movement
    &&& !r.changes.toughness_changed ==> r.stats.toughness == p.base_stats.toughness
    &&& r.stats.save == p.base_stats.save
    &&& r.stats.wounds == p.base_stats.wounds
    &&& r.stats.leadership == p.base_stats.leadership
    &&& r.stats.oc == p.base_stats.oc
    &&& r.weapons.len() == p.weapons.len()
    &&& forall|i: int|
        0 <= i < r.weapons.len() ==> (!(#[trigger] r.weapons[i]).skill_changed
            ==> r.weapons[i].skill == p.weapons[i].skill) && (!r.weapons[i].attacks_changed
            ==> r.weapons[i].attacks == p.weapons[i].attacks)
}

proof fn lemma_step_keeps_flags_covering(m: ModifierView, p: UnitProfileView, r: Resolution)
    requires
        flags_cover_changes(p, r),
        apply_modifier_spec(m, p, r) is Some,
    ensures
        flags_cover_changes(p, apply_modifier_spec(m, p, r).unwrap()),
{
    let r2 = apply_modifier_spec(m, p, r).unwrap();
    assert forall|i: int| 0 <= i < r2.weapons.len() implies (!(#[trigger] r2.weapons[i]).skill_changed
        ==> r2.weapons[i].skill == p.weapons[i].skill) && (!r2.weapons[i].attacks_changed
        ==> r2.weapons[i].attacks == p.weapons[i].attacks) by {
        match m {
            ModifierView::DoctrinaImperative { doctrina } => {
                if doctrina == Doctrina::EliminationVolley {
                    assert(volley_at(p.weapons, r.weapons, i) is Some);
                }
            },
            ModifierView::DamageDegradation { unit_id, bracket } => {
                if unit_id == p.id && bracket >= 1 {
                    assert(r2.weapons[i] == with_worse_skill(r.weapons[i]));
                }
            },
            _ => {},
        }
    }
}

/// After any modifiers, every stat or weapon value whose change flag is not
/// raised is still its base value.
pub proof fn lemma_unflagged_values_are_base(p: UnitProfileView, ms: Seq<ModifierView>)
    requires
        resolution(p, ms) is Some,
    ensures
        flags_cover_changes(p, resolution(p, ms).unwrap()),
    decreases ms.len(),
{
    if ms.len() > 0 {
        lemma_unflagged_values_are_base(p, ms.drop_last());
        lemma_step_keeps_flags_covering(ms.last(), p, resolution(p, ms.drop_last()).unwrap());
    }
}

/// `cur` is a roll with a lower threshold than the roll `base`.
pub open spec fn better_roll(base: StatValueView, cur: StatValueView) -> bool {
    &&& base.roll() is Some
    &&& cur.roll() is Some
    &&& cur.roll().unwrap() < base.roll().unwrap()
}

/// `cur` is a longer move than `base`: a larger number, or a distance text
/// with more inches.
pub open spec fn longer_move(base: StatValueView, cur: StatValueView) -> bool {
    match cur {
        StatValueView::Number(c) => base matches StatValueView::Number(a) && c > a,
        StatValueView::Text(t) => {
            let base_inches = match base {
                StatValueView::Roll(s) => inches_in(s),
                StatValueView::Text(s) => inches_in(s),
                StatValueView::Number(_) => None,
            };
            &&& base_inches is Some
            &&& inches_in(t) is Some
            &&& inches_in(t).unwrap() > base_inches.unwrap()
        },
        StatValueView::Roll(_) => false,
    }
}

/// `cur` is a larger number than the number `base`.
pub open spec fn larger_number(base: StatValueView, cur: StatValueView) -> bool {
    base matches StatValueView::Number(a) && cur matches StatValueView::Number(c) && c > a
}

/// Where each stat flag stands: an unflagged stat is its base value, and a
/// flagged one has moved away from it in the one direction its modifiers
/// push it (a better BS or WS roll, a longer move, a higher toughness).
pub open spec fn stats_progress(p: UnitProfileView, r: Resolution) -> bool {
    &&& if r.changes.bs_changed {
        better_roll(p.base_stats.bs, r.stats.bs)
    } else {
        r.stats.bs == p.base_stats.bs
    }
    &&& if r.changes.ws_changed {
        better_roll(p.base_stats.ws, r.stats.ws)
    } else {
        r.stats.ws == p.base_stats.ws
    }
    &&& if r.changes.movement_changed {
        longer_move(p.base_stats.movement, r.stats.movement)
    } else {
        r.stats.movement == p.base_stats.movement
    }
    &&& if r.changes.toughness_changed {
        larger_number(p.base_stats.toughness, r.stats.toughness)
    } else {
        r.stats.toughness == p.base_stats.toughness
    }
}

proof fn lemma_improved_is_better(flag: bool, base: StatValueView, cur: StatValueView)
    requires
        if flag {
            better_roll(base, cur)
        } else {
            cur == base
        },
        cur.improved() != cur,
    ensures
        better_roll(base, cur.improved()),
{
    lemma_improve_threshold(cur);
}

proof fn lemma_moved_is_longer(flag: bool, base: StatValueView, cur: StatValueView)
    requires
        if flag {
            longer_move(base, cur)
        } else {
            cur == base
        },
        cur.moved(2) != cur,
    ensures
        longer_move(base, cur.moved(2)),
{
    match cur {
        StatValueView::Roll(s) => {
            lemma_moved_distance(s, 2);
        },
        StatValueView::Text(s) => {
            lemma_moved_distance(s, 2);
        },
        StatValueView::Number(_) => {},
    }
}

proof fn lemma_step_keeps_stats_progress(m: ModifierView, p: UnitProfileView, r: Resolution)
    requires
        stats_progress(p, r),
        apply_modifier_spec(m, p, r) is Some,
    ensures
        stats_progress(p, apply_modifier_spec(m, p, r).unwrap()),
{
    match m {
        ModifierView::DoctrinaImperative { doctrina } => {
            if doctrina == Doctrina::Protector && r.stats.bs.improved() != r.stats.bs {
                lemma_improved_is_better(r.changes.bs_changed, p.base_stats.bs, r.stats.bs);
            }
            if doctrina == Doctrina::Conqueror && r.stats.ws.improved() != r.stats.ws {
                lemma_improved_is_better(r.changes.ws_changed, p.base_stats.ws, r.stats.ws);
            }
        },
        ModifierView::HaloscreedEnhancement { enhancement, unit_ids } => {
            if enhancement == HaloscreedEnhancement::ElectromotiveEnergisation
                && r.stats.movement.moved(2) != r.stats.movement {
                lemma_moved_is_longer(
                    r.changes.movement_changed,
                    p.base_stats.movement,
                    r.stats.movement,
                );
            }
        },
        _ => {},
    }
}

/// The four stat flags are exact: after any modifiers, BS, WS, movement or
/// toughness is flagged as changed exactly when it differs from its base
/// value.
pub proof fn lemma_stat_flags_exact(p: UnitProfileView, ms: Seq<ModifierView>)
    requires
        resolution(p, ms) is Some,
    ensures
        ({
            let r = resolution(p, ms).unwrap();
            &&& r.changes.bs_changed == (r.stats.bs != p.base_stats.bs)
            &&& r.changes.ws_changed == (r.stats.ws != p.base_stats.ws)
            &&& r.changes.movement_changed == (r.stats.movement != p.base_stats.movement)
            &&& r.changes.toughness_changed == (r.stats.toughness != p.base_stats.toughness)
        }),
{
    lemma_stats_progress(p, ms);
    let r = resolution(p, ms).unwrap();
    let base = p.base_stats;
    if r.changes.movement_changed {
        if let StatValueView::Text(t) = r.stats.movement {
            if let StatValueView::Text(s) = base.movement {
                assert(inches_in(t) != inches_in(s));
            }
        }
    }
}

proof fn lemma_stats_progress(p: UnitProfileView, ms: Seq<ModifierView>)
    requires
        resolution(p, ms) is Some,
    ensures
        stats_progress(p, resolution(p, ms).unwrap()),
    decreases ms.len(),
{
    if ms.len() > 0 {
        lemma_stats_progress(p, ms.drop_last());
        lemma_step_keeps_stats_progress(ms.last(), p, resolution(p, ms.drop_last()).unwrap());
    }
}

/// On the resolved card, BS, WS, movement and toughness are flagged as
/// changed exactly when they differ from the profile's base stats.
pub proof fn lemma_card_stat_flags_exact(p: UnitProfileView, ms: Seq<ModifierView>)
    requires
        resolve(p, ms) is Some,
    ensures
        resolve(p, ms) matches Some(u) && {
            &&& u.stat_changes.bs_changed == (u.stats.bs != p.base_stats.bs)
            &&& u.stat_changes.ws_changed == (u.stats.ws != p.base_stats.ws)
            &&& u.stat_changes.movement_changed == (u.stats.movement != p.base_stats.movement)
            &&& u.stat_changes.toughness_changed == (u.stats.toughness
                != p.base_stats.toughness)
        },
{
    lemma_stat_flags_exact(p, ms);
}

/// How far a damage bracket exceeds 1 makes no difference: any bracket of 1
/// or more acts as bracket 1.
pub proof fn lemma_damage_bracket_threshold(
    p: UnitProfileView,
    r: Resolution,
    unit_id: Seq<char>,
    bracket: u8,
)
    requires
        bracket >= 1,
    ensures
        apply_modifier_spec(ModifierView::DamageDegradation { unit_id, bracket }, p, r)
            == apply_modifier_spec(ModifierView::DamageDegradation { unit_id, bracket: 1 }, p, r),
{
}

/// An army list is valid exactly when its units cost no more than its
/// points limit; otherwise it gets a single POINTS_EXCEEDED error.
pub proof fn lemma_army_valid_iff_within_limit(total: nat, limit: nat)
    ensures
        army_errors(total, limit).len() == 0 <==> total <= limit,
        total > limit ==> army_errors(total, limit).len() == 1 && army_errors(total, limit)[0].code
            == points_exceeded_code(),
{
}

} // verus!
