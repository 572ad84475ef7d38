//! What the rated traits, the characteristics and the energy pools of a
//! character cost.

use crate::character::analysis::{narrow, ApCalculator};
use crate::character::curves::{
    characteristic_cost, energy_advance_cost, grade_multiplier, lemma_curve_cost_nonnegative,
    rebuy_cost, CostCurve,
};
use crate::character::data::{
    deref_all, of_types, texts_of, AstralEnergyValue, Character, CharacteristicValue,
    Characteristics, Item, KarmaEnergyValue, WoundValue,
};
use crate::sequences::{checked_i32, lemma_sum_over_map_values, sum_checked, sum_over};
use crate::text::{fits_i32, parse_i32, parse_int};
use vstd::prelude::*;

verus! {

impl Item {
    /// The rating of the item, where it holds one that is an integer.
    pub open spec fn talent_value(&self) -> Option<int> {
        match self.system.text_at("talentValue"@) {
            Some(text) => parse_i32(text),
            None => None,
        }
    }

    /// The multiplier of the item, where it holds a proficiency grade.
    pub open spec fn multiplier(&self) -> Option<int> {
        match self.system.text_at("StF"@) {
            Some(text) => grade_multiplier(text),
            None => None,
        }
    }

    /// What the rating of the item costs on a curve, where the item holds a
    /// rating and a proficiency grade.
    pub open spec fn rated_cost(&self, curve: CostCurve) -> Option<int> {
        match (self.talent_value(), self.multiplier()) {
            (Some(value), Some(multiplier)) => Some(curve.cost(value, multiplier)),
            _ => None,
        }
    }
}

/// What an item adds to the cost of its kind: the cost of its rating, or
/// nothing where it has no rating or no proficiency grade.
pub open spec fn rated_amount(curve: CostCurve) -> spec_fn(Item) -> int {
    |item: Item|
        match item.rated_cost(curve) {
            Some(cost) => cost,
            None => 0,
        }
}

/// What the items of the given types cost together on a curve.
pub open spec fn rated_total(items: Seq<Item>, types: Seq<Seq<char>>, curve: CostCurve) -> int {
    sum_over(items.filter(of_types(types)), rated_amount(curve))
}

/// How many items of the given types there are.
pub open spec fn count_of_types(items: Seq<Item>, types: Seq<Seq<char>>) -> int {
    items.filter(of_types(types)).len() as int
}

impl CharacteristicValue {
    /// What the characteristic costs: its nominal value on the
    /// characteristic curve, and nothing below 8.
    pub open spec fn ap_cost(&self) -> int {
        if self.spec_nominal_value() >= 8 {
            characteristic_cost(self.spec_nominal_value())
        } else {
            0
        }
    }
}

/// What a characteristic costs that a character may lack.
pub open spec fn optional_characteristic_cost(value: Option<CharacteristicValue>) -> int {
    match value {
        Some(value) => value.ap_cost(),
        None => 0,
    }
}

impl Characteristics {
    /// What the eight characteristics cost together.
    pub open spec fn ap_cost(&self) -> int {
        optional_characteristic_cost(self.mu) + optional_characteristic_cost(self.kl)
            + optional_characteristic_cost(self.in_) + optional_characteristic_cost(self.ch)
            + optional_characteristic_cost(self.ff) + optional_characteristic_cost(self.ge)
            + optional_characteristic_cost(self.ko) + optional_characteristic_cost(self.kk)
    }
}

impl WoundValue {
    /// What the advances of the life points cost.
    pub open spec fn ap_cost(&self) -> int {
        energy_advance_cost(self.advances as int)
    }
}

impl AstralEnergyValue {
    /// What the advances and the bought-back points of the astral energy
    /// cost.
    pub open spec fn ap_cost(&self) -> int {
        energy_advance_cost(self.advances as int) + rebuy_cost(self.rebuy as int)
    }
}

impl KarmaEnergyValue {
    /// What the advances and the bought-back points of the karma energy
    /// cost.
    pub open spec fn ap_cost(&self) -> int {
        energy_advance_cost(self.advances as int) + rebuy_cost(self.rebuy as int)
    }
}

impl Character {
    /// What the skills cost.
    pub open spec fn skills_ap(&self) -> int {
        rated_total(self.items@, seq!["skill"@], CostCurve::Talent)
    }

    /// What the combat skills cost.
    pub open spec fn combat_skills_ap(&self) -> int {
        rated_total(self.items@, seq!["combatskill"@], CostCurve::CombatSkill)
    }

    /// What the spells and rituals cost.
    pub open spec fn spells_and_rituals_ap(&self) -> int {
        rated_total(self.items@, seq!["spell"@, "ritual"@], CostCurve::LearnedAbility)
    }

    /// What the liturgies and ceremonies cost.
    pub open spec fn liturgies_and_ceremonies_ap(&self) -> int {
        rated_total(self.items@, seq!["liturgy"@, "ceremony"@], CostCurve::LearnedAbility)
    }

    /// What the magic tricks cost: 1 each.
    pub open spec fn magic_tricks_ap(&self) -> int {
        count_of_types(self.items@, seq!["magictrick"@])
    }

    /// What the blessings cost: 1 each.
    pub open spec fn blessings_ap(&self) -> int {
        count_of_types(self.items@, seq!["blessing"@])
    }

    /// What the characteristics cost.
    pub open spec fn characteristics_ap(&self) -> int {
        match self.system {
            Some(system) => match system.characteristics {
                Some(characteristics) => characteristics.ap_cost(),
                None => 0,
            },
            None => 0,
        }
    }

    /// What the life points cost.
    pub open spec fn lep_ap(&self) -> int {
        match self.system {
            Some(system) => match system.status {
                Some(status) => match status.wounds {
                    Some(wounds) => wounds.ap_cost(),
                    None => 0,
                },
                None => 0,
            },
            None => 0,
        }
    }

    /// What the astral energy costs.
    pub open spec fn asp_ap(&self) -> int {
        match self.system {
            Some(system) => match system.status {
                Some(status) => match status.astralenergy {
                    Some(energy) => energy.ap_cost(),
                    None => 0,
                },
                None => 0,
            },
            None => 0,
        }
    }

    /// What the karma energy costs.
    pub open spec fn kap_ap(&self) -> int {
        match self.system {
            Some(system) => match system.status {
                Some(status) => match status.karmaenergy {
                    Some(energy) => energy.ap_cost(),
                    None => 0,
                },
                None => 0,
            },
            None => 0,
        }
    }

    /// What the three energy pools cost together.
    pub open spec fn energy_values_ap(&self) -> int {
        self.lep_ap() + self.asp_ap() + self.kap_ap()
    }
}

/// No item adds less than nothing to the cost of its kind.
pub proof fn lemma_rated_amount_nonnegative(item: Item, curve: CostCurve)
    ensures
        rated_amount(curve)(item) >= 0,
{
    match (item.talent_value(), item.multiplier()) {
        (Some(value), Some(multiplier)) => {
            lemma_curve_cost_nonnegative(curve, value, multiplier);
        },
        _ => {},
    }
}

/// No characteristic, and no energy pool, costs less than nothing.
pub proof fn lemma_trait_costs_nonnegative(character: Character)
    ensures
        character.characteristics_ap() >= 0,
        character.lep_ap() >= 0,
        character.asp_ap() >= 0,
        character.kap_ap() >= 0,
{
}

impl ApCalculator {
    /// The rating of an item, where it holds one that is an integer.
    pub fn item_talent_value(item: &Item) -> (r: Option<i32>)
        ensures
            r is Some <==> item.talent_value() is Some,
            r matches Some(value) ==> value == item.talent_value()->0,
    {
        match item.system.get_talent_value() {
            Some(text) => parse_int(text.as_str()),
            None => None,
        }
    }

    /// The multiplier of an item, where it holds a proficiency grade.
    pub fn item_multiplier(item: &Item) -> (r: Option<i32>)
        ensures
            r is Some <==> item.multiplier() is Some,
            r matches Some(multiplier) ==> multiplier == item.multiplier()->0,
    {
        match item.system.get_st_f_value() {
            Some(text) => Self::stf_to_multiplier(text.as_str()),
            None => None,
        }
    }

    /// What an item adds to the cost of its kind, where that is a machine
    /// integer.
    pub fn checked_rated_amount(item: &Item, curve: CostCurve) -> (r: Option<i32>)
        ensures
            r == checked_i32(rated_amount(curve)(*item)),
    {
        let value = match Self::item_talent_value(item) {
            Some(value) => value,
            None => {
                return Some(0);
            },
        };
        let multiplier = match Self::item_multiplier(item) {
            Some(multiplier) => multiplier,
            None => {
                return Some(0);
            },
        };
        Self::checked_curve_cost(curve, value, multiplier)
    }

    /// What the given items cost together on a curve, where that is a
    /// machine integer.
    pub fn checked_rated_total(items: &[&Item], curve: CostCurve) -> (r: Option<i32>)
        ensures
            r == checked_i32(sum_over(deref_all(items@), rated_amount(curve))),
    {
        let ghost amount = |item: &Item| rated_amount(curve)(*item);
        let term = |item: &&Item| -> (r: Option<i32>)
            ensures
                r == checked_i32(rated_amount(curve)(**item)),
            { ApCalculator::checked_rated_amount(*item, curve) };
        proof {
            assert forall|item: &Item| #[trigger] amount(item) >= 0 by {
                lemma_rated_amount_nonnegative(*item, curve);
            }
            lemma_sum_over_map_values(items@, |item: &Item| *item, amount, rated_amount(curve));
        }
        sum_checked(items, term, Ghost(amount))
    }

    /// What the items of the given types cost together on a curve, where
    /// that is a machine integer.
    pub fn checked_rated_total_of_types(
        character: &Character,
        types: &[&str],
        curve: CostCurve,
    ) -> (r: Option<i32>)
        ensures
            r == checked_i32(rated_total(character.items@, texts_of(types@), curve)),
    {
        let items = character.select_by_types(types);
        Self::checked_rated_total(items.as_slice(), curve)
    }

    /// What the skills cost, where that is a machine integer.
    pub fn checked_skills_ap(character: &Character) -> (r: Option<i32>)
        ensures
            r == checked_i32(character.skills_ap()),
    {
        let types = ["skill"];
        assert(texts_of(types@) =~= seq!["skill"@]);
        Self::checked_rated_total_of_types(character, &types, CostCurve::Talent)
    }

    /// What the combat skills cost, where that is a machine integer.
    pub fn checked_combat_skills_ap(character: &Character) -> (r: Option<i32>)
        ensures
            r == checked_i32(character.combat_skills_ap()),
    {
        let types = ["combatskill"];
        assert(texts_of(types@) =~= seq!["combatskill"@]);
        Self::checked_rated_total_of_types(character, &types, CostCurve::CombatSkill)
    }

    /// What the spells and rituals cost, where that is a machine integer.
    pub fn checked_spells_and_rituals_ap(character: &Character) -> (r: Option<i32>)
        ensures
            r == checked_i32(character.spells_and_rituals_ap()),
    {
        let types = ["spell", "ritual"];
        assert(texts_of(types@) =~= seq!["spell"@, "ritual"@]);
        Self::checked_rated_total_of_types(character, &types, CostCurve::LearnedAbility)
    }

    /// What the liturgies and ceremonies cost, where that is a machine
    /// integer.
    pub fn checked_liturgies_and_ceremonies_ap(character: &Character) -> (r: Option<i32>)
        ensures
            r == checked_i32(character.liturgies_and_ceremonies_ap()),
    {
        let types = ["liturgy", "ceremony"];
        assert(texts_of(types@) =~= seq!["liturgy"@, "ceremony"@]);
        Self::checked_rated_total_of_types(character, &types, CostCurve::LearnedAbility)
    }

    /// What the magic tricks cost, where that is a machine integer.
    pub fn checked_magic_tricks_ap(character: &Character) -> (r: Option<i32>)
        ensures
            r == checked_i32(character.magic_tricks_ap()),
    {
        let types = ["magictrick"];
        assert(texts_of(types@) =~= seq!["magictrick"@]);
        Self::checked_count_of_types(character, &types)
    }

    /// What the blessings cost, where that is a machine integer.
    pub fn checked_blessings_ap(character: &Character) -> (r: Option<i32>)
        ensures
            r == checked_i32(character.blessings_ap()),
    {
        let types = ["blessing"];
        assert(texts_of(types@) =~= seq!["blessing"@]);
        Self::checked_count_of_types(character, &types)
    }

    /// What the skills cost.
    pub fn calculate_skills_ap(character: &Character) -> (cost: i32)
        requires
            fits_i32(character.skills_ap()),
        ensures
            cost == character.skills_ap(),
    {
        let types = ["skill"];
        assert(texts_of(types@) =~= seq!["skill"@]);
        match Self::checked_rated_total_of_types(character, &types, CostCurve::Talent) {
            Some(cost) => cost,
            None => unreached(),
        }
    }

    /// What the combat skills cost.
    pub fn calculate_combat_skills_ap(character: &Character) -> (cost: i32)
        requires
            fits_i32(character.combat_skills_ap()),
        ensures
            cost == character.combat_skills_ap(),
    {
        let types = ["combatskill"];
        assert(texts_of(types@) =~= seq!["combatskill"@]);
        match Self::checked_rated_total_of_types(character, &types, CostCurve::CombatSkill) {
            Some(cost) => cost,
            None => unreached(),
        }
    }

    /// What the given spells, rituals, liturgies or ceremonies cost
    /// together.
    pub fn calculate_learned_abilities_ap(items: &[&Item]) -> (cost: i32)
        requires
            fits_i32(sum_over(deref_all(items@), rated_amount(CostCurve::LearnedAbility))),
        ensures
            cost == sum_over(deref_all(items@), rated_amount(CostCurve::LearnedAbility)),
    {
        match Self::checked_rated_total(items, CostCurve::LearnedAbility) {
            Some(cost) => cost,
            None => unreached(),
        }
    }

    /// What the spells and rituals cost.
    pub fn calculate_spells_and_rituals_ap(character: &Character) -> (cost: i32)
        requires
            fits_i32(character.spells_and_rituals_ap()),
        ensures
            cost == character.spells_and_rituals_ap(),
    {
        let types = ["spell", "ritual"];
        assert(texts_of(types@) =~= seq!["spell"@, "ritual"@]);
        let items = character.select_by_types(&types);
        Self::calculate_learned_abilities_ap(items.as_slice())
    }

    /// What the liturgies and ceremonies cost.
    pub fn calculate_liturgies_and_ceremonies_ap(character: &Character) -> (cost: i32)
        requires
            fits_i32(character.liturgies_and_ceremonies_ap()),
        ensures
            cost == character.liturgies_and_ceremonies_ap(),
    {
        let types = ["liturgy", "ceremony"];
        assert(texts_of(types@) =~= seq!["liturgy"@, "ceremony"@]);
        let items = character.select_by_types(&types);
        Self::calculate_learned_abilities_ap(items.as_slice())
    }

    /// How many items of the given types the character has, where that is a
    /// machine integer.
    pub fn checked_count_of_types(character: &Character, types: &[&str]) -> (r: Option<i32>)
        ensures
            r == checked_i32(count_of_types(character.items@, texts_of(types@))),
    {
        let items = character.select_by_types(types);
        if items.len() <= 0x7fff_ffff {
            Some(items.len() as i32)
        } else {
            None
        }
    }

    /// What the magic tricks cost: 1 each.
    pub fn calculate_magic_tricks_ap(character: &Character) -> (cost: i32)
        requires
            fits_i32(character.magic_tricks_ap()),
        ensures
            cost == character.magic_tricks_ap(),
    {
        let types = ["magictrick"];
        assert(texts_of(types@) =~= seq!["magictrick"@]);
        match Self::checked_count_of_types(character, &types) {
            Some(cost) => cost,
            None => unreached(),
        }
    }

    /// What the blessings cost: 1 each.
    pub fn calculate_blessings_ap(character: &Character) -> (cost: i32)
        requires
            fits_i32(character.blessings_ap()),
        ensures
            cost == character.blessings_ap(),
    {
        let types = ["blessing"];
        assert(texts_of(types@) =~= seq!["blessing"@]);
        match Self::checked_count_of_types(character, &types) {
            Some(cost) => cost,
            None => unreached(),
        }
    }

    /// What advances of an energy pool and points bought back cost
    /// together, where that is a machine integer.
    fn checked_energy_cost(advances: i32, rebuy: i32) -> (r: Option<i32>)
        ensures
            r == checked_i32(energy_advance_cost(advances as int) + rebuy_cost(rebuy as int)),
    {
        let bought_back: i64 = if rebuy > 0 {
            rebuy as i64 * 2
        } else {
            0
        };
        match Self::checked_curve_cost(CostCurve::Talent, advances, 4) {
            Some(cost) => narrow((cost as i64 + bought_back) as i128),
            None => None,
        }
    }

    /// What the life points cost, where that is a machine integer.
    pub fn checked_lep_ap(character: &Character) -> (r: Option<i32>)
        ensures
            r == checked_i32(character.lep_ap()),
    {
        if let Some(system) = &character.system {
            if let Some(status) = &system.status {
                if let Some(wounds) = &status.wounds {
                    return Self::checked_energy_cost(wounds.advances, 0);
                }
            }
        }
        Some(0)
    }

    /// What the astral energy costs, where that is a machine integer.
    pub fn checked_asp_ap(character: &Character) -> (r: Option<i32>)
        ensures
            r == checked_i32(character.asp_ap()),
    {
        if let Some(system) = &character.system {
            if let Some(status) = &system.status {
                if let Some(energy) = &status.astralenergy {
                    return Self::checked_energy_cost(energy.advances, energy.rebuy);
                }
            }
        }
        Some(0)
    }

    /// What the karma energy costs, where that is a machine integer.
    pub fn checked_kap_ap(character: &Character) -> (r: Option<i32>)
        ensures
            r == checked_i32(character.kap_ap()),
    {
        if let Some(system) = &character.system {
            if let Some(status) = &system.status {
                if let Some(energy) = &status.karmaenergy {
                    return Self::checked_energy_cost(energy.advances, energy.rebuy);
                }
            }
        }
        Some(0)
    }

    /// What the three energy pools cost together, where that is a machine
    /// integer.
    pub fn checked_energy_values_ap(character: &Character) -> (r: Option<i32>)
        ensures
            r == checked_i32(character.energy_values_ap()),
    {
        let lep = match Self::checked_lep_ap(character) {
            Some(cost) => cost,
            None => {
                return None;
            },
        };
        let asp = match Self::checked_asp_ap(character) {
            Some(cost) => cost,
            None => {
                return None;
            },
        };
        let kap = match Self::checked_kap_ap(character) {
            Some(cost) => cost,
            None => {
                return None;
            },
        };
        narrow((lep as i64 + asp as i64 + kap as i64) as i128)
    }

    /// What the life points cost.
    pub fn calculate_lep_ap(character: &Character) -> (cost: i32)
        requires
            fits_i32(character.lep_ap()),
        ensures
            cost == character.lep_ap(),
    {
        match Self::checked_lep_ap(character) {
            Some(cost) => cost,
            None => unreached(),
        }
    }

    /// What the astral energy costs.
    pub fn calculate_asp_ap(character: &Character) -> (cost: i32)
        requires
            fits_i32(character.asp_ap()),
        ensures
            cost == character.asp_ap(),
    {
        match Self::checked_asp_ap(character) {
            Some(cost) => cost,
            None => unreached(),
        }
    }

    /// What the karma energy costs.
    pub fn calculate_kap_ap(character: &Character) -> (cost: i32)
        requires
            fits_i32(character.kap_ap()),
        ensures
            cost == character.kap_ap(),
    {
        match Self::checked_kap_ap(character) {
            Some(cost) => cost,
            None => unreached(),
        }
    }

    /// What the three energy pools cost together.
    pub fn calculate_energy_values_ap(character: &Character) -> (cost: i32)
        requires
            fits_i32(character.energy_values_ap()),
        ensures
            cost == character.energy_values_ap(),
    {
        match Self::checked_energy_values_ap(character) {
            Some(cost) => cost,
            None => unreached(),
        }
    }

    /// What a characteristic costs that a character may lack, where that is
    /// a machine integer.
    fn checked_optional_characteristic_cost(value: &Option<CharacteristicValue>) -> (r: Option<i32>)
        ensures
            r == checked_i32(optional_characteristic_cost(*value)),
    {
        match value {
            Some(value) => Self::checked_characteristic_cost(value.initial, value.advances),
            None => Some(0),
        }
    }

    /// What the eight characteristics cost together, where that is a machine
    /// integer.
    pub fn checked_characteristics_ap(character: &Character) -> (r: Option<i32>)
        ensures
            r == checked_i32(character.characteristics_ap()),
    {
        let characteristics = match &character.system {
            Some(system) => match &system.characteristics {
                Some(characteristics) => characteristics,
                None => {
                    return Some(0);
                },
            },
            None => {
                return Some(0);
            },
        };
        let values = [
            &characteristics.mu,
            &characteristics.kl,
            &characteristics.in_,
            &characteristics.ch,
            &characteristics.ff,
            &characteristics.ge,
            &characteristics.ko,
            &characteristics.kk,
        ];
        let ghost amount = |value: &Option<CharacteristicValue>|
            optional_characteristic_cost(*value);
        let term = |value: &&Option<CharacteristicValue>| -> (r: Option<i32>)
            ensures
                r == checked_i32(optional_characteristic_cost(**value)),
            { ApCalculator::checked_optional_characteristic_cost(*value) };
        proof {
            reveal_with_fuel(sum_over, 9);
        }
        sum_checked(values.as_slice(), term, Ghost(amount))
    }

    /// What the characteristics cost.
    pub fn calculate_characteristics_ap(character: &Character) -> (cost: i32)
        requires
            fits_i32(character.characteristics_ap()),
        ensures
            cost == character.characteristics_ap(),
    {
        match Self::checked_characteristics_ap(character) {
            Some(cost) => cost,
            None => unreached(),
        }
    }
}

} // verus!
