//! The cost curves: what a rating costs as it rises.

use crate::character::analysis::ApCalculator;
use crate::character::analysis::narrow;
use crate::sequences::checked_i32;
use crate::text::fits_i32;
use vstd::prelude::*;
use vstd::string::*;

verus! {

/// The sum of `k + 1` over `k` from 1 to `n`: what `n` points beyond the
/// linear part of a curve cost, in units of the curve's factor, when the
/// first costs two units and each further point one unit more.
pub open spec fn steps_above(n: int) -> int {
    if n <= 0 {
        0
    } else {
        n * (n + 3) / 2
    }
}

/// The generic talent curve: `value` points at a flat `multiplier` each up to
/// 12, rising costs beyond it, and nothing for a negative value.
pub open spec fn talent_cost(value: int, multiplier: int) -> int {
    if value < 0 {
        0
    } else if value <= 12 {
        value * multiplier
    } else {
        12 * multiplier + multiplier * steps_above(value - 12)
    }
}

/// The combat-skill curve: the talent curve with the first six points free.
pub open spec fn combat_skill_cost(value: int, multiplier: int) -> int {
    if value <= 6 {
        0
    } else {
        talent_cost(value, multiplier) - talent_cost(6, multiplier)
    }
}

/// The learned-ability curve: a flat learning cost of `multiplier`, then the
/// talent curve.
pub open spec fn learned_ability_cost(value: int, multiplier: int) -> int {
    multiplier + talent_cost(value, multiplier)
}

/// The characteristic curve for a nominal value of at least 8.
pub open spec fn characteristic_cost(value: int) -> int {
    if value <= 14 {
        (value - 8) * 15
    } else {
        6 * 15 + 15 * steps_above(value - 14)
    }
}

/// The curves on which a rated trait is priced.
#[derive(Clone, Copy, Debug)]
pub enum CostCurve {
    /// Skills.
    Talent,
    /// Combat skills.
    CombatSkill,
    /// Spells, rituals, liturgies and ceremonies.
    LearnedAbility,
}

impl CostCurve {
    /// What a rating costs on this curve at a multiplier.
    pub open spec fn cost(self, value: int, multiplier: int) -> int {
        match self {
            CostCurve::Talent => talent_cost(value, multiplier),
            CostCurve::CombatSkill => combat_skill_cost(value, multiplier),
            CostCurve::LearnedAbility => learned_ability_cost(value, multiplier),
        }
    }
}

/// With a multiplier that is not negative, no rating costs less than nothing
/// on any curve.
pub proof fn lemma_curve_cost_nonnegative(curve: CostCurve, value: int, multiplier: int)
    requires
        multiplier >= 0,
    ensures
        curve.cost(value, multiplier) >= 0,
{
    lemma_combat_skill_cost_nonnegative(value, multiplier);
}

/// The multiplier that a proficiency grade stands for: 1 to 4 for the
/// letters A to D in either case, none for any other text.
pub open spec fn grade_multiplier(grade: Seq<char>) -> Option<int> {
    if grade.len() != 1 {
        None
    } else if grade[0] == 'A' || grade[0] == 'a' {
        Some(1)
    } else if grade[0] == 'B' || grade[0] == 'b' {
        Some(2)
    } else if grade[0] == 'C' || grade[0] == 'c' {
        Some(3)
    } else if grade[0] == 'D' || grade[0] == 'd' {
        Some(4)
    } else {
        None
    }
}

/// What the advances of an energy pool cost: the talent curve at multiplier 4.
pub open spec fn energy_advance_cost(advances: int) -> int {
    talent_cost(advances, 4)
}

/// What bought-back points of an energy pool cost: two each.
pub open spec fn rebuy_cost(rebuy: int) -> int {
    if rebuy > 0 {
        rebuy * 2
    } else {
        0
    }
}

/// Twice the steps above is a product, so the halving in them leaves no
/// remainder.
pub proof fn lemma_steps_above_closed_form(n: int)
    requires
        n >= 0,
    ensures
        2 * steps_above(n) == n * (n + 3),
        steps_above(n) >= 0,
    decreases n,
{
    if n > 0 {
        lemma_steps_above_closed_form(n - 1);
        assert(n * (n + 3) == (n - 1) * (n + 2) + 2 * (n + 1)) by (nonlinear_arith);
    }
}

/// Beyond the linear part each point costs one unit more than the one
/// before: the `k`-th point costs `k + 1` units.
pub proof fn lemma_steps_above_marginal(k: int)
    requires
        k >= 1,
    ensures
        steps_above(k) - steps_above(k - 1) == k + 1,
{
    assert(k * (k + 3) == (k - 1) * (k + 2) + 2 * (k + 1)) by (nonlinear_arith);
}

/// On the talent curve every point up to the twelfth costs the multiplier,
/// and the `k`-th point above 12 costs `multiplier * (k + 1)`.
pub proof fn lemma_talent_cost_marginal(value: int, multiplier: int)
    requires
        value >= 1,
    ensures
        value <= 12 ==> talent_cost(value, multiplier) - talent_cost(value - 1, multiplier)
            == multiplier,
        value > 12 ==> talent_cost(value, multiplier) - talent_cost(value - 1, multiplier)
            == multiplier * (value - 12 + 1),
{
    if value <= 12 {
        assert(value * multiplier - (value - 1) * multiplier == multiplier) by (nonlinear_arith);
    } else {
        let k = value - 12;
        lemma_steps_above_marginal(k);
        assert(multiplier * (steps_above(k - 1) + (k + 1)) == multiplier * steps_above(k - 1)
            + multiplier * (k + 1)) by (nonlinear_arith);
    }
}

/// With a multiplier that is not negative, no rating costs less than nothing
/// on the talent curve, and a higher rating never costs less than a lower.
pub proof fn lemma_talent_cost_monotone(low: int, high: int, multiplier: int)
    requires
        low <= high,
        multiplier >= 0,
    ensures
        0 <= talent_cost(low, multiplier) <= talent_cost(high, multiplier),
    decreases high - low,
{
    if low < high {
        lemma_talent_cost_monotone(low, high - 1, multiplier);
        if high >= 1 {
            lemma_talent_cost_marginal(high, multiplier);
        }
    }
}

/// A combat skill at the free rating of 6 or below costs nothing, whatever
/// the multiplier.
pub proof fn lemma_combat_skill_free_threshold(value: int, multiplier: int)
    requires
        value <= 6,
    ensures
        combat_skill_cost(value, multiplier) == 0,
{
}

/// With a multiplier that is not negative, no combat skill costs less than
/// nothing.
pub proof fn lemma_combat_skill_cost_nonnegative(value: int, multiplier: int)
    requires
        multiplier >= 0,
    ensures
        combat_skill_cost(value, multiplier) >= 0,
{
    if value > 6 {
        lemma_talent_cost_monotone(6, value, multiplier);
    }
}

/// No characteristic of 8 or more costs less than nothing.
pub proof fn lemma_characteristic_cost_nonnegative(value: int)
    requires
        value >= 8,
    ensures
        characteristic_cost(value) >= 0,
{
}

/// A product is bounded by the product of the bounds of its factors.
pub proof fn lemma_product_bound(a: int, b: int, bound_a: int, bound_b: int)
    requires
        -bound_a <= a <= bound_a,
        -bound_b <= b <= bound_b,
    ensures
        -(bound_a * bound_b) <= a * b <= bound_a * bound_b,
{
    assert(-(bound_a * bound_b) <= a * b <= bound_a * bound_b) by (nonlinear_arith)
        requires
            -bound_a <= a <= bound_a,
            -bound_b <= b <= bound_b,
    ;
}

/// The steps above, computed without a loop.
fn steps_above_exact(n: i32) -> (r: i128)
    ensures
        r == steps_above(n as int),
        0 <= r <= 0x4000_0000_0000_0000,
{
    if n <= 0 {
        0
    } else {
        let wide: i128 = n as i128;
        proof {
            lemma_product_bound(n as int, n + 3, 0x8000_0000, 0x8000_0003);
        }
        let twice: i128 = wide * (wide + 3);
        twice / 2
    }
}

/// The talent curve, computed exactly.
fn talent_cost_exact(value: i32, multiplier: i32) -> (r: i128)
    ensures
        r == talent_cost(value as int, multiplier as int),
        -0x4000_0000_0000_0000_0000_0000 <= r <= 0x4000_0000_0000_0000_0000_0000,
{
    if value < 0 {
        0
    } else if value <= 12 {
        proof {
            lemma_product_bound(value as int, multiplier as int, 12, 0x8000_0000);
        }
        (value as i128) * (multiplier as i128)
    } else {
        let steps = steps_above_exact(value - 12);
        proof {
            lemma_product_bound(
                multiplier as int,
                steps as int,
                0x8000_0000,
                0x4000_0000_0000_0000,
            );
        }
        12 * (multiplier as i128) + (multiplier as i128) * steps
    }
}

impl ApCalculator {
    /// What a rating costs on a curve, where that is a machine integer.
    pub fn checked_curve_cost(curve: CostCurve, value: i32, multiplier: i32) -> (r: Option<i32>)
        ensures
            r == checked_i32(curve.cost(value as int, multiplier as int)),
    {
        let progression = talent_cost_exact(value, multiplier);
        match curve {
            CostCurve::Talent => narrow(progression),
            CostCurve::CombatSkill => {
                if value <= 6 {
                    Some(0)
                } else {
                    narrow(progression - talent_cost_exact(6, multiplier))
                }
            },
            CostCurve::LearnedAbility => narrow((multiplier as i128) + progression),
        }
    }

    /// What a characteristic's nominal value costs, where it is at least 8
    /// and the cost is a machine integer; nothing for a value below 8.
    pub fn checked_characteristic_cost(initial: i32, advances: i32) -> (r: Option<i32>)
        ensures
            r == checked_i32(
                if initial + advances >= 8 {
                    characteristic_cost(initial + advances)
                } else {
                    0
                },
            ),
    {
        let value: i64 = initial as i64 + advances as i64;
        if value < 8 {
            Some(0)
        } else if value <= 14 {
            Some(((value - 8) * 15) as i32)
        } else if value > 0x7fff_ffff {
            proof {
                assert((value - 14) * (value - 14 + 3) >= 0x7fff_ffff) by (nonlinear_arith)
                    requires
                        value - 14 >= 0x7fff_0000,
                ;
            }
            None
        } else {
            let steps = steps_above_exact((value - 14) as i32);
            narrow(90 + 15 * steps)
        }
    }

    /// What `above_12` points beyond a rating of 12 cost on the talent curve.
    pub fn cost_above_12(above_12: i32, stf_multiplier: i32) -> (cost: i32)
        requires
            fits_i32(stf_multiplier * steps_above(above_12 as int)),
        ensures
            cost == stf_multiplier * steps_above(above_12 as int),
    {
        let steps = steps_above_exact(above_12);
        let cost: i128 = (stf_multiplier as i128) * steps;
        cost as i32
    }

    /// What a rating costs on the generic talent curve.
    pub fn talent_value_to_ap_cost(talent_value: i32, stf_multiplier: i32) -> (cost: i32)
        requires
            fits_i32(talent_cost(talent_value as int, stf_multiplier as int)),
        ensures
            cost == talent_cost(talent_value as int, stf_multiplier as int),
    {
        talent_cost_exact(talent_value, stf_multiplier) as i32
    }

    /// What a combat skill's rating costs: the first six points are free.
    pub fn combat_skill_talent_value_to_ap_cost(talent_value: i32, stf_multiplier: i32) -> (cost:
        i32)
        requires
            fits_i32(combat_skill_cost(talent_value as int, stf_multiplier as int)),
        ensures
            cost == combat_skill_cost(talent_value as int, stf_multiplier as int),
    {
        if talent_value <= 6 {
            return 0;
        }
        let total = talent_cost_exact(talent_value, stf_multiplier);
        let free = talent_cost_exact(6, stf_multiplier);
        (total - free) as i32
    }

    /// What a spell, ritual, liturgy or ceremony costs: learning it, then its
    /// rating on the talent curve.
    pub fn learned_ability_talent_value_to_ap_cost(talent_value: i32, stf_multiplier: i32) -> (cost:
        i32)
        requires
            fits_i32(learned_ability_cost(talent_value as int, stf_multiplier as int)),
        ensures
            cost == learned_ability_cost(talent_value as int, stf_multiplier as int),
    {
        let progression = talent_cost_exact(talent_value, stf_multiplier);
        ((stf_multiplier as i128) + progression) as i32
    }

    /// What a characteristic's nominal value costs. A value below 8 is out of
    /// range.
    pub fn characteristic_to_ap_cost(value: i32) -> (r: Result<i32, &'static str>)
        requires
            value >= 8 ==> fits_i32(characteristic_cost(value as int)),
        ensures
            r is Err <==> value < 8,
            r matches Ok(cost) ==> cost == characteristic_cost(value as int),
            r matches Err(message) ==> message@ == "Value must be greater or equal 8"@,
    {
        if value < 8 {
            Err("Value must be greater or equal 8")
        } else if value <= 14 {
            Ok((value - 8) * 15)
        } else {
            let steps = steps_above_exact(value - 14);
            Ok((90 + 15 * steps) as i32)
        }
    }

    /// The multiplier of a proficiency grade: 1 to 4 for A to D, in either
    /// case.
    pub fn stf_to_multiplier(stf: &str) -> (r: Option<i32>)
        ensures
            r is Some <==> grade_multiplier(stf@) is Some,
            r matches Some(m) ==> m == grade_multiplier(stf@)->0,
    {
        if stf.unicode_len() != 1 {
            return None;
        }
        let c = stf.get_char(0);
        if c == 'A' || c == 'a' {
            Some(1)
        } else if c == 'B' || c == 'b' {
            Some(2)
        } else if c == 'C' || c == 'c' {
            Some(3)
        } else if c == 'D' || c == 'd' {
            Some(4)
        } else {
            None
        }
    }
}

} // verus!
