//! Army list validation: the points of the units, summed, against the
//! list's points limit.

use vstd::prelude::*;

use crate::text::{decimal, push_decimal};

verus! {

/// An army list as passed in from the frontend.
#[derive(Debug, Clone)]
pub struct ArmyList {
    pub faction: String,
    pub points_limit: u32,
    pub units: Vec<ArmyUnit>,
}

/// One entry of an army list: a unit profile, its points per model and
/// how many are taken.
#[derive(Debug, Clone)]
pub struct ArmyUnit {
    pub profile_id: String,
    pub points: u32,
    pub count: u32,
}

/// A rule of the army list that is broken: a code and a message for the user.
#[derive(Debug, Clone)]
pub struct ValidationError {
    pub code: String,
    pub message: String,
}

/// A validation error by the characters of its code and message.
#[verifier::ext_equal]
pub struct ValidationErrorView {
    pub code: Seq<char>,
    pub message: Seq<char>,
}

impl View for ValidationError {
    type V = ValidationErrorView;

    open spec fn view(&self) -> ValidationErrorView {
        ValidationErrorView { code: self.code@, message: self.message@ }
    }
}

/// The views of a list of validation errors.
pub open spec fn errors_view(v: Seq<ValidationError>) -> Seq<ValidationErrorView> {
    v.map_values(|e: ValidationError| e@)
}

/// The points that the units cost together: each unit's points times its count.
pub open spec fn points_total(units: Seq<ArmyUnit>) -> int
    decreases units.len(),
{
    if units.len() == 0 {
        0
    } else {
        points_total(units.drop_last()) + units.last().points * units.last().count
    }
}

/// The code of the error for an army over its points limit.
pub open spec fn points_exceeded_code() -> Seq<char> {
    "POINTS_EXCEEDED"@
}

/// The message for an army of `total` points over its `limit`:
/// "Army is {total - limit} points over the limit ({total} / {limit})".
pub open spec fn points_exceeded_message(total: nat, limit: nat) -> Seq<char> {
    "Army is "@ + decimal((total - limit) as nat) + " points over the limit ("@ + decimal(total)
        + " / "@ + decimal(limit) + ")"@
}

/// The errors of an army list whose points come to `total`.
pub open spec fn army_errors(total: nat, limit: nat) -> Seq<ValidationErrorView> {
    if total > limit {
        seq![
            ValidationErrorView {
                code: points_exceeded_code(),
                message: points_exceeded_message(total, limit),
            },
        ]
    } else {
        Seq::empty()
    }
}

/// Every unit adds a nonnegative amount: a prefix of the units never costs
/// more than all of them.
pub proof fn lemma_points_total_prefix(units: Seq<ArmyUnit>, k: int)
    requires
        0 <= k <= units.len(),
    ensures
        0 <= points_total(units.take(k)) <= points_total(units),
    decreases units.len() - k,
{
    if k < units.len() {
        lemma_points_total_prefix(units, k + 1);
        assert(units.take(k + 1).drop_last() =~= units.take(k));
        let u = units[k];
        assert(u.points * u.count >= 0) by (nonlinear_arith)
            requires
                u.points >= 0,
                u.count >= 0,
        ;
    } else {
        assert(units.take(k) =~= units);
    }
    lemma_points_total_nonnegative(units.take(k));
}

/// A sum of costs is never negative.
proof fn lemma_points_total_nonnegative(units: Seq<ArmyUnit>)
    ensures
        points_total(units) >= 0,
    decreases units.len(),
{
    if units.len() > 0 {
        lemma_points_total_nonnegative(units.drop_last());
        let u = units.last();
        assert(u.points * u.count >= 0) by (nonlinear_arith)
            requires
                u.points >= 0,
                u.count >= 0,
        ;
    }
}

/// The total points of the army, or `None` when they exceed what a `u32` holds.
pub fn army_points_total(army: &ArmyList) -> (r: Option<u32>)
    ensures
        match r {
            Some(t) => t == points_total(army.units@),
            None => points_total(army.units@) > u32::MAX,
        },
{
    let ghost us = army.units@;
    let mut total: u64 = 0;
    let mut i: usize = 0;
    assert(us.take(0) =~= Seq::<ArmyUnit>::empty());
    while i < army.units.len()
        invariant
            i <= army.units.len(),
            us == army.units@,
            total == points_total(us.take(i as int)),
            total <= u32::MAX,
        decreases army.units.len() - i,
    {
        let u = &army.units[i];
        assert((u.points as u64) * (u.count as u64) <= u64::MAX) by (nonlinear_arith)
            requires
                u.points <= u32::MAX,
                u.count <= u32::MAX,
        ;
        let p: u64 = (u.points as u64) * (u.count as u64);
        assert(us.take(i + 1).drop_last() =~= us.take(i as int));
        if p > u32::MAX as u64 - total {
            proof {
                lemma_points_total_prefix(us, i + 1);
            }
            return None;
        }
        total = total + p;
        i = i + 1;
    }
    assert(us.take(army.units.len() as int) =~= us);
    Some(total as u32)
}

/// A new string with the characters of `s`.
fn owned(s: &str) -> (r: String)
    ensures
        r@ == s@,
{
    let mut r = String::new();
    r.append(s);
    r
}

/// Checks an army list and returns the rules it breaks (empty = valid):
/// an army whose units cost more than its points limit gets one
/// POINTS_EXCEEDED error that says by how much.
pub fn run_army_validation(army: &ArmyList) -> (errors: Vec<ValidationError>)
    requires
        points_total(army.units@) <= u32::MAX,
    ensures
        errors_view(errors@) == army_errors(
            points_total(army.units@) as nat,
            army.points_limit as nat,
        ),
{
    let mut errors: Vec<ValidationError> = Vec::new();
    let ghost us = army.units@;
    let mut total_points: u32 = 0;
    let mut i: usize = 0;
    assert(us.take(0) =~= Seq::<ArmyUnit>::empty());
    while i < army.units.len()
        invariant
            i <= army.units.len(),
            us == army.units@,
            points_total(us) <= u32::MAX,
            total_points == points_total(us.take(i as int)),
        decreases army.units.len() - i,
    {
        let u = &army.units[i];
        proof {
            lemma_points_total_prefix(us, i + 1);
            assert(us.take(i + 1).drop_last() =~= us.take(i as int));
        }
        total_points = total_points + u.points * u.count;
        i = i + 1;
    }
    assert(us.take(army.units.len() as int) =~= us);
    if total_points > army.points_limit {
        let mut message = owned("Army is ");
        push_decimal(&mut message, total_points - army.points_limit);
        message.append(" points over the limit (");
        push_decimal(&mut message, total_points);
        message.append(" / ");
        push_decimal(&mut message, army.points_limit);
        message.append(")");
        errors.push(ValidationError { code: owned("POINTS_EXCEEDED"), message });
    }
    assert(errors_view(errors@) =~= army_errors(total_points as nat, army.points_limit as nat));
    errors
}

} // verus!
