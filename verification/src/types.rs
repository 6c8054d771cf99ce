//! The data of a unit's stat card, the modifiers that act on it, and the
//! card once resolved; each with a view made of sequences of characters.

use vstd::prelude::*;

use crate::text::{
    decimal, parse_bounded, parse_range, push_decimal, text_eq, trim_plus, trimmed_plus_len,
};

verus! {

/// A dice roll threshold like "3+" stored as the integer 3.
pub type RollThreshold = u8;

/// The characters of every string of `v`, in order.
pub open spec fn strings_view(v: Seq<String>) -> Seq<Seq<char>> {
    v.map_values(|s: String| s@)
}

/// An optional string, by its characters.
pub open spec fn opt_string_view(o: Option<String>) -> Option<Seq<char>> {
    match o {
        Some(s) => Some(s@),
        None => None,
    }
}

/// Represents a stat that is either a fixed number or a roll threshold.
#[derive(Debug, Clone, PartialEq)]
pub enum StatValue {
    Number(i32),
    /// "2+", "3+", etc: kept as text for display, read as a number when needed.
    Roll(String),
    /// "6\"", "D6+2", etc.
    Text(String),
}

/// A stat value with its text as characters.
#[verifier::ext_equal]
pub enum StatValueView {
    Number(i32),
    Roll(Seq<char>),
    Text(Seq<char>),
}

impl View for StatValue {
    type V = StatValueView;

    open spec fn view(&self) -> StatValueView {
        match self {
            StatValue::Number(n) => StatValueView::Number(*n),
            StatValue::Roll(s) => StatValueView::Roll(s@),
            StatValue::Text(s) => StatValueView::Text(s@),
        }
    }
}

/// The threshold written in a roll's text: trailing `+` signs dropped, the
/// rest read as a `u8`.
pub open spec fn roll_threshold(s: Seq<char>) -> Option<u8> {
    match parse_bounded(trim_plus(s), 255) {
        Some(v) => Some(v as u8),
        None => None,
    }
}

/// The text of the roll threshold `n`, such as "3+".
pub open spec fn roll_text(n: nat) -> Seq<char> {
    decimal(n) + seq!['+']
}

/// The distance written in a movement text such as `6"`: a number followed
/// by one inch mark, the number read as a `u32`.
pub open spec fn inches_in(s: Seq<char>) -> Option<nat> {
    if s.len() > 0 && s.last() == '"' {
        parse_bounded(s.drop_last(), u32::MAX as nat)
    } else {
        None
    }
}

/// The text of a movement of `n` inches, such as `8"`.
pub open spec fn inches_text(n: nat) -> Seq<char> {
    decimal(n) + seq!['"']
}

impl StatValueView {
    /// The roll threshold, for a roll.
    pub open spec fn roll(self) -> Option<u8> {
        match self {
            StatValueView::Roll(s) => roll_threshold(s),
            _ => None,
        }
    }

    /// One step better (3+ to 2+), never past 2+; anything that is not a
    /// readable roll stays as it is.
    pub open spec fn improved(self) -> StatValueView {
        match self.roll() {
            Some(n) => if n > 2 {
                StatValueView::Roll(roll_text((n - 1) as nat))
            } else {
                self
            },
            None => self,
        }
    }

    /// One step worse (3+ to 4+), never past 6+; anything that is not a
    /// readable roll stays as it is.
    pub open spec fn worsened(self) -> StatValueView {
        match self.roll() {
            Some(n) => if n < 6 {
                StatValueView::Roll(roll_text((n + 1) as nat))
            } else {
                self
            },
            None => self,
        }
    }

    /// `inches` more movement: a number grows by `inches`; a text such as
    /// `6"` becomes the text `8"` for two inches more. A value that is
    /// neither, or whose sum would not fit its type, stays as it is.
    pub open spec fn moved(self, inches: u32) -> StatValueView {
        match self {
            StatValueView::Number(n) => if n + inches <= i32::MAX {
                StatValueView::Number((n + inches) as i32)
            } else {
                self
            },
            StatValueView::Roll(s) => match inches_in(s) {
                Some(m) => if m + inches <= u32::MAX {
                    StatValueView::Text(inches_text((m + inches) as nat))
                } else {
                    self
                },
                None => self,
            },
            StatValueView::Text(s) => match inches_in(s) {
                Some(m) => if m + inches <= u32::MAX {
                    StatValueView::Text(inches_text((m + inches) as nat))
                } else {
                    self
                },
                None => self,
            },
        }
    }
}

/// A new string holding the decimal notation of `n` followed by `suffix`.
fn decimal_with_suffix(n: u32, suffix: &str) -> (r: String)
    ensures
        r@ == decimal(n as nat) + suffix@,
{
    let mut s = String::new();
    push_decimal(&mut s, n);
    s.append(suffix);
    s
}

/// Whether two stat values are the same.
pub(crate) fn stat_value_eq(a: &StatValue, b: &StatValue) -> (r: bool)
    ensures
        r == (a@ == b@),
{
    match (a, b) {
        (StatValue::Number(x), StatValue::Number(y)) => *x == *y,
        (StatValue::Roll(x), StatValue::Roll(y)) => text_eq(x.as_str(), y.as_str()),
        (StatValue::Text(x), StatValue::Text(y)) => text_eq(x.as_str(), y.as_str()),
        _ => false,
    }
}

/// A copy of a stat value.
pub(crate) fn copy_stat(v: &StatValue) -> (r: StatValue)
    ensures
        r@ == v@,
{
    match v {
        StatValue::Number(n) => StatValue::Number(*n),
        StatValue::Roll(s) => StatValue::Roll(s.clone()),
        StatValue::Text(s) => StatValue::Text(s.clone()),
    }
}

/// A copy of a list of strings.
pub(crate) fn copy_strings(v: &Vec<String>) -> (r: Vec<String>)
    ensures
        strings_view(r@) == strings_view(v@),
{
    let mut out: Vec<String> = Vec::new();
    let mut i: usize = 0;
    while i < v.len()
        invariant
            i <= v.len(),
            out@.len() == i,
            forall|j: int| 0 <= j < i ==> (#[trigger] out@[j])@ == v@[j]@,
        decreases v.len() - i,
    {
        out.push(v[i].clone());
        i = i + 1;
    }
    assert(strings_view(out@) =~= strings_view(v@));
    out
}

/// A copy of an optional string.
pub(crate) fn copy_opt_string(o: &Option<String>) -> (r: Option<String>)
    ensures
        opt_string_view(r) == opt_string_view(*o),
{
    match o {
        Some(s) => Some(s.clone()),
        None => None,
    }
}

impl StatValue {
    /// If this is a roll threshold, return the numeric part.
    pub fn as_roll(&self) -> (r: Option<u8>)
        ensures
            r == self@.roll(),
    {
        match self {
            StatValue::Roll(s) => {
                let t = s.as_str();
                let end = trimmed_plus_len(t);
                match parse_range(t, 0, end, 255) {
                    Some(v) => Some(v as u8),
                    None => None,
                }
            },
            _ => None,
        }
    }

    /// Improve a roll threshold by 1 step (3+ → 2+), capped at 2+.
    pub fn improve_roll(&self) -> (r: StatValue)
        ensures
            r@ == self@.improved(),
    {
        match self.as_roll() {
            Some(n) => {
                if n > 2 {
                    proof { reveal_strlit("+"); }
                    let r = StatValue::Roll(decimal_with_suffix((n - 1) as u32, "+"));
                    assert(r@ =~= self@.improved());
                    r
                } else {
                    copy_stat(self)
                }
            },
            None => copy_stat(self),
        }
    }

    /// Worsen a roll threshold by 1 step (3+ → 4+), capped at 6+.
    pub fn worsen_roll(&self) -> (r: StatValue)
        ensures
            r@ == self@.worsened(),
    {
        match self.as_roll() {
            Some(n) => {
                if n < 6 {
                    proof { reveal_strlit("+"); }
                    let r = StatValue::Roll(decimal_with_suffix((n + 1) as u32, "+"));
                    assert(r@ =~= self@.worsened());
                    r
                } else {
                    copy_stat(self)
                }
            },
            None => copy_stat(self),
        }
    }

    /// Add `inches` to a movement value: a number grows by `inches`, and a
    /// text or roll such as `6"` becomes the text `8"` for two more inches.
    /// Any other value, or one whose sum would overflow, is returned as it is.
    pub fn add_movement(&self, inches: u32) -> (r: StatValue)
        ensures
            r@ == self@.moved(inches),
    {
        match self {
            StatValue::Number(n) => {
                if (*n as i64) + (inches as i64) <= i32::MAX as i64 {
                    StatValue::Number((*n as i64 + inches as i64) as i32)
                } else {
                    copy_stat(self)
                }
            },
            StatValue::Roll(s) => match movement_sum(s.as_str(), inches) {
                Some(m) => {
                    proof { reveal_strlit("\""); }
                    let r = StatValue::Text(decimal_with_suffix(m, "\""));
                    assert(r@ =~= self@.moved(inches));
                    r
                },
                None => copy_stat(self),
            },
            StatValue::Text(s) => match movement_sum(s.as_str(), inches) {
                Some(m) => {
                    proof { reveal_strlit("\""); }
                    let r = StatValue::Text(decimal_with_suffix(m, "\""));
                    assert(r@ =~= self@.moved(inches));
                    r
                },
                None => copy_stat(self),
            },
        }
    }
}

/// The distance written in `s` plus `inches`, when `s` holds a distance and
/// the sum fits a `u32`.
fn movement_sum(s: &str, inches: u32) -> (r: Option<u32>)
    ensures
        match inches_in(s@) {
            Some(m) => if m + inches <= u32::MAX {
                r == Some((m + inches) as u32)
            } else {
                r is None
            },
            None => r is None,
        },
{
    let n = s.unicode_len();
    if n == 0 || s.get_char(n - 1) != '"' {
        return None;
    }
    assert(s@.drop_last() =~= s@.subrange(0, n - 1));
    match parse_range(s, 0, n - 1, u32::MAX) {
        Some(m) => m.checked_add(inches),
        None => None,
    }
}

/// Base unit profile as loaded from JSON data.
#[derive(Debug, Clone)]
pub struct UnitProfile {
    pub id: String,
    pub name: String,
    pub faction: String,
    pub keywords: Vec<String>,
    pub base_stats: UnitStats,
    pub weapons: Vec<Weapon>,
    pub abilities: Vec<Ability>,
    pub points: u32,
}

/// The core stat block for a unit.
#[derive(Debug, Clone)]
pub struct UnitStats {
    pub movement: StatValue,
    pub toughness: StatValue,
    pub save: StatValue,
    pub wounds: StatValue,
    pub leadership: StatValue,
    pub oc: StatValue,
    pub bs: StatValue,
    pub ws: StatValue,
}

/// A weapon profile.
#[derive(Debug, Clone)]
pub struct Weapon {
    pub name: String,
    pub weapon_type: WeaponType,
    /// None for melee.
    pub range: Option<String>,
    pub attacks: StatValue,
    /// BS for ranged, WS for melee.
    pub skill: StatValue,
    pub strength: StatValue,
    pub ap: i32,
    pub damage: StatValue,
    /// "Rapid Fire 1", "Blast", etc.
    pub keywords: Vec<String>,
}

#[derive(Debug, Clone, Copy, PartialEq, Eq, Structural)]
pub enum WeaponType {
    Ranged,
    Melee,
}

/// A named ability on a unit.
#[derive(Debug, Clone)]
pub struct Ability {
    pub name: String,
    pub description: String,
}

/// Active modifiers applied to the army state this turn.
/// Each variant is a distinct game mechanic that can affect resolved stats.
#[derive(Debug, Clone, PartialEq)]
pub enum Modifier {
    /// Adeptus Mechanicus Doctrina Imperatives
    DoctrinaImperative { doctrina: Doctrina },
    /// A Haloscreed Battle Clade enhancement, for the units holding the Halo Override
    HaloscreedEnhancement { enhancement: HaloscreedEnhancement, unit_ids: Vec<String> },
    /// A stratagem applied to a specific unit
    Stratagem { stratagem_id: String, unit_id: String },
    /// Damage degradation threshold crossed (vehicles)
    DamageDegradation { unit_id: String, bracket: u8 },
}

#[derive(Debug, Clone, Copy, PartialEq, Eq, Structural)]
pub enum Doctrina {
    /// BS +1 for Skitarii
    Protector,
    /// WS +1 for Skitarii
    Conqueror,
    /// Rapid Fire weapons double shots
    EliminationVolley,
    /// Wound on 6+ regardless of Toughness
    DataPsalmEnrichment,
}

/// Haloscreed Battle Clade: Noospheric Transference enhancements.
#[derive(Debug, Clone, Copy, PartialEq, Eq, Structural)]
pub enum HaloscreedEnhancement {
    /// +2" Move
    ElectromotiveEnergisation,
    /// +1 Toughness
    MicroactuatorBracing,
    /// Advance and still charge
    PredationProtocols,
    /// Stealth beyond 12"
    MutedServomotors,
}

/// The fully resolved stat card for a unit after all modifiers are applied.
/// This is what the frontend renders.
#[derive(Debug, Clone)]
pub struct ResolvedUnit {
    pub id: String,
    pub name: String,
    pub faction: String,
    pub keywords: Vec<String>,
    pub stats: UnitStats,
    pub stat_changes: StatChanges,
    pub weapons: Vec<ResolvedWeapon>,
    pub abilities: Vec<Ability>,
    pub active_ability_notes: Vec<String>,
}

/// Tracks which stats changed from base, for UI highlighting.
#[derive(Debug, Clone, Copy, PartialEq, Eq, Structural)]
pub struct StatChanges {
    pub bs_changed: bool,
    pub ws_changed: bool,
    pub movement_changed: bool,
    pub toughness_changed: bool,
    pub damaged: bool,
}

impl StatChanges {
    /// No stat changed.
    pub open spec fn none() -> StatChanges {
        StatChanges {
            bs_changed: false,
            ws_changed: false,
            movement_changed: false,
            toughness_changed: false,
            damaged: false,
        }
    }
}

impl Default for StatChanges {
    fn default() -> (r: StatChanges)
        ensures
            r == StatChanges::none(),
    {
        StatChanges {
            bs_changed: false,
            ws_changed: false,
            movement_changed: false,
            toughness_changed: false,
            damaged: false,
        }
    }
}

/// A weapon after modifier resolution, with change flags for the UI.
#[derive(Debug, Clone)]
pub struct ResolvedWeapon {
    pub name: String,
    pub weapon_type: WeaponType,
    pub range: Option<String>,
    pub attacks: StatValue,
    pub skill: StatValue,
    pub strength: StatValue,
    pub ap: i32,
    pub damage: StatValue,
    pub keywords: Vec<String>,
    pub skill_changed: bool,
    pub attacks_changed: bool,
}

/// A stat block by its values' views.
#[verifier::ext_equal]
pub struct UnitStatsView {
    pub movement: StatValueView,
    pub toughness: StatValueView,
    pub save: StatValueView,
    pub wounds: StatValueView,
    pub leadership: StatValueView,
    pub oc: StatValueView,
    pub bs: StatValueView,
    pub ws: StatValueView,
}

impl View for UnitStats {
    type V = UnitStatsView;

    open spec fn view(&self) -> UnitStatsView {
        UnitStatsView {
            movement: self.movement@,
            toughness: self.toughness@,
            save: self.save@,
            wounds: self.wounds@,
            leadership: self.leadership@,
            oc: self.oc@,
            bs: self.bs@,
            ws: self.ws@,
        }
    }
}

/// A weapon profile with its texts as characters.
#[verifier::ext_equal]
pub struct WeaponView {
    pub name: Seq<char>,
    pub weapon_type: WeaponType,
    pub range: Option<Seq<char>>,
    pub attacks: StatValueView,
    pub skill: StatValueView,
    pub strength: StatValueView,
    pub ap: i32,
    pub damage: StatValueView,
    pub keywords: Seq<Seq<char>>,
}

impl View for Weapon {
    type V = WeaponView;

    open spec fn view(&self) -> WeaponView {
        WeaponView {
            name: self.name@,
            weapon_type: self.weapon_type,
            range: opt_string_view(self.range),
            attacks: self.attacks@,
            skill: self.skill@,
            strength: self.strength@,
            ap: self.ap,
            damage: self.damage@,
            keywords: strings_view(self.keywords@),
        }
    }
}

/// An ability with its texts as characters.
#[verifier::ext_equal]
pub struct AbilityView {
    pub name: Seq<char>,
    pub description: Seq<char>,
}

impl View for Ability {
    type V = AbilityView;

    open spec fn view(&self) -> AbilityView {
        AbilityView { name: self.name@, description: self.description@ }
    }
}

/// The views of a list of weapons.
pub open spec fn weapons_view(v: Seq<Weapon>) -> Seq<WeaponView> {
    v.map_values(|w: Weapon| w@)
}

/// The views of a list of abilities.
pub open spec fn abilities_view(v: Seq<Ability>) -> Seq<AbilityView> {
    v.map_values(|a: Ability| a@)
}

/// A unit profile with its texts as characters.
#[verifier::ext_equal]
pub struct UnitProfileView {
    pub id: Seq<char>,
    pub name: Seq<char>,
    pub faction: Seq<char>,
    pub keywords: Seq<Seq<char>>,
    pub base_stats: UnitStatsView,
    pub weapons: Seq<WeaponView>,
    pub abilities: Seq<AbilityView>,
    pub points: u32,
}

impl View for UnitProfile {
    type V = UnitProfileView;

    open spec fn view(&self) -> UnitProfileView {
        UnitProfileView {
            id: self.id@,
            name: self.name@,
            faction: self.faction@,
            keywords: strings_view(self.keywords@),
            base_stats: self.base_stats@,
            weapons: weapons_view(self.weapons@),
            abilities: abilities_view(self.abilities@),
            points: self.points,
        }
    }
}

/// A modifier with its texts as characters.
#[verifier::ext_equal]
pub enum ModifierView {
    DoctrinaImperative { doctrina: Doctrina },
    HaloscreedEnhancement { enhancement: HaloscreedEnhancement, unit_ids: Seq<Seq<char>> },
    Stratagem { stratagem_id: Seq<char>, unit_id: Seq<char> },
    DamageDegradation { unit_id: Seq<char>, bracket: u8 },
}

impl View for Modifier {
    type V = ModifierView;

    open spec fn view(&self) -> ModifierView {
        match self {
            Modifier::DoctrinaImperative { doctrina } => ModifierView::DoctrinaImperative {
                doctrina: *doctrina,
            },
            Modifier::HaloscreedEnhancement { enhancement, unit_ids } =>
                ModifierView::HaloscreedEnhancement {
                enhancement: *enhancement,
                unit_ids: strings_view(unit_ids@),
            },
            Modifier::Stratagem { stratagem_id, unit_id } => ModifierView::Stratagem {
                stratagem_id: stratagem_id@,
                unit_id: unit_id@,
            },
            Modifier::DamageDegradation { unit_id, bracket } => ModifierView::DamageDegradation {
                unit_id: unit_id@,
                bracket: *bracket,
            },
        }
    }
}

/// The views of a list of modifiers.
pub open spec fn modifiers_view(v: Seq<Modifier>) -> Seq<ModifierView> {
    v.map_values(|m: Modifier| m@)
}

/// A resolved weapon with its texts as characters.
#[verifier::ext_equal]
pub struct ResolvedWeaponView {
    pub name: Seq<char>,
    pub weapon_type: WeaponType,
    pub range: Option<Seq<char>>,
    pub attacks: StatValueView,
    pub skill: StatValueView,
    pub strength: StatValueView,
    pub ap: i32,
    pub damage: StatValueView,
    pub keywords: Seq<Seq<char>>,
    pub skill_changed: bool,
    pub attacks_changed: bool,
}

impl View for ResolvedWeapon {
    type V = ResolvedWeaponView;

    open spec fn view(&self) -> ResolvedWeaponView {
        ResolvedWeaponView {
            name: self.name@,
            weapon_type: self.weapon_type,
            range: opt_string_view(self.range),
            attacks: self.attacks@,
            skill: self.skill@,
            strength: self.strength@,
            ap: self.ap,
            damage: self.damage@,
            keywords: strings_view(self.keywords@),
            skill_changed: self.skill_changed,
            attacks_changed: self.attacks_changed,
        }
    }
}

/// A resolved unit with its texts as characters.
#[verifier::ext_equal]
pub struct ResolvedUnitView {
    pub id: Seq<char>,
    pub name: Seq<char>,
    pub faction: Seq<char>,
    pub keywords: Seq<Seq<char>>,
    pub stats: UnitStatsView,
    pub stat_changes: StatChanges,
    pub weapons: Seq<ResolvedWeaponView>,
    pub abilities: Seq<AbilityView>,
    pub active_ability_notes: Seq<Seq<char>>,
}

impl View for ResolvedUnit {
    type V = ResolvedUnitView;

    open spec fn view(&self) -> ResolvedUnitView {
        ResolvedUnitView {
            id: self.id@,
            name: self.name@,
            faction: self.faction@,
            keywords: strings_view(self.keywords@),
            stats: self.stats@,
            stat_changes: self.stat_changes,
            weapons: self.weapons@.map_values(|w: ResolvedWeapon| w@),
            abilities: abilities_view(self.abilities@),
            active_ability_notes: strings_view(self.active_ability_notes@),
        }
    }
}

/// A copy of a stat block.
pub(crate) fn copy_stats(s: &UnitStats) -> (r: UnitStats)
    ensures
        r@ == s@,
{
    UnitStats {
        movement: copy_stat(&s.movement),
        toughness: copy_stat(&s.toughness),
        save: copy_stat(&s.save),
        wounds: copy_stat(&s.wounds),
        leadership: copy_stat(&s.leadership),
        oc: copy_stat(&s.oc),
        bs: copy_stat(&s.bs),
        ws: copy_stat(&s.ws),
    }
}

/// A copy of a list of abilities.
pub(crate) fn copy_abilities(v: &Vec<Ability>) -> (r: Vec<Ability>)
    ensures
        abilities_view(r@) == abilities_view(v@),
{
    let mut out: Vec<Ability> = Vec::new();
    let mut i: usize = 0;
    while i < v.len()
        invariant
            i <= v.len(),
            out@.len() == i,
            forall|j: int| 0 <= j < i ==> (#[trigger] out@[j])@ == v@[j]@,
        decreases v.len() - i,
    {
        out.push(Ability { name: v[i].name.clone(), description: v[i].description.clone() });
        i = i + 1;
    }
    assert(abilities_view(out@) =~= abilities_view(v@));
    out
}

} // verus!
