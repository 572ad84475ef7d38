//! The cost of the rated traits and of the characteristics, row by row.

use crate::character::analysis::ApCalculator;
use crate::character::curves::{characteristic_cost, CostCurve};
use crate::character::data::{
    deref_all, items_of_types, Character, CharacteristicValue, Characteristics, Item,
};
use crate::character::totals::{optional_characteristic_cost, rated_amount};
use crate::text::fits_i32;
use vstd::prelude::*;
use vstd::string::*;

verus! {

/// The row of a rated item: its name, its rating, its proficiency grade and
/// what the rating costs on a curve. An item without a rating or without a
/// grade has no row; nor has one that costs nothing, where only costly rows
/// are asked for.
pub open spec fn rated_row(curve: CostCurve, only_costly: bool) -> spec_fn(Item) -> Option<
    (Seq<char>, int, Seq<char>, int),
> {
    |item: Item|
        match (item.talent_value(), item.system.text_at("StF"@), item.multiplier()) {
            (Some(value), Some(grade), Some(multiplier)) => if only_costly && curve.cost(
                value,
                multiplier,
            ) <= 0 {
                None
            } else {
                Some((item.name@, value, grade, curve.cost(value, multiplier)))
            },
            _ => None,
        }
}

/// The rows of the items that have one, in the order of the items.
pub open spec fn rated_rows(items: Seq<Item>, curve: CostCurve, only_costly: bool) -> Seq<
    (Seq<char>, int, Seq<char>, int),
> {
    items.filter_map(rated_row(curve, only_costly))
}

/// Whether the cost of every item on a curve is a 32-bit machine integer.
pub open spec fn rated_costs_fit(items: Seq<Item>, curve: CostCurve) -> bool {
    forall|i: int| 0 <= i < items.len() ==> fits_i32(rated_amount(curve)(#[trigger] items[i]))
}

/// What a list of rows of rated items says.
pub open spec fn rated_rows_view(rows: Seq<(String, i32, String, i32)>) -> Seq<
    (Seq<char>, int, Seq<char>, int),
> {
    rows.map_values(
        |row: (String, i32, String, i32)| (row.0@, row.1 as int, row.2@, row.3 as int),
    )
}

/// The row of a characteristic: its name, its nominal value and what that
/// costs. A characteristic that the character lacks, or one below 8, has
/// none.
pub open spec fn characteristic_row(name: Seq<char>, value: Option<CharacteristicValue>) -> Seq<
    (Seq<char>, int, int),
> {
    match value {
        Some(value) => if value.spec_nominal_value() >= 8 {
            seq![(name, value.spec_nominal_value(), value.ap_cost())]
        } else {
            Seq::empty()
        },
        None => Seq::empty(),
    }
}

/// What a list of rows of characteristics says.
pub open spec fn characteristic_rows_view(rows: Seq<(String, i32, i32)>) -> Seq<
    (Seq<char>, int, int),
> {
    rows.map_values(|row: (String, i32, i32)| (row.0@, row.1 as int, row.2 as int))
}

impl Characteristics {
    /// The rows of the eight characteristics.
    pub open spec fn rows(&self) -> Seq<(Seq<char>, int, int)> {
        characteristic_row("Mut"@, self.mu) + characteristic_row("Klugheit"@, self.kl)
            + characteristic_row("Intuition"@, self.in_) + characteristic_row(
            "Charisma"@,
            self.ch,
        ) + characteristic_row("Fingerfertigkeit"@, self.ff) + characteristic_row(
            "Gewandtheit"@,
            self.ge,
        ) + characteristic_row("Konstitution"@, self.ko) + characteristic_row(
            "K\u{f6}rperkraft"@,
            self.kk,
        )
    }

    /// Whether the cost of each characteristic is a 32-bit machine integer.
    pub open spec fn costs_fit(&self) -> bool {
        &&& fits_i32(optional_characteristic_cost(self.mu))
        &&& fits_i32(optional_characteristic_cost(self.kl))
        &&& fits_i32(optional_characteristic_cost(self.in_))
        &&& fits_i32(optional_characteristic_cost(self.ch))
        &&& fits_i32(optional_characteristic_cost(self.ff))
        &&& fits_i32(optional_characteristic_cost(self.ge))
        &&& fits_i32(optional_characteristic_cost(self.ko))
        &&& fits_i32(optional_characteristic_cost(self.kk))
    }
}

impl Character {
    /// The rows of the characteristics.
    pub open spec fn characteristic_rows(&self) -> Seq<(Seq<char>, int, int)> {
        match self.system {
            Some(system) => match system.characteristics {
                Some(characteristics) => characteristics.rows(),
                None => Seq::empty(),
            },
            None => Seq::empty(),
        }
    }

    /// Whether the cost of each characteristic is a 32-bit machine integer.
    pub open spec fn characteristic_costs_fit(&self) -> bool {
        match self.system {
            Some(system) => match system.characteristics {
                Some(characteristics) => characteristics.costs_fit(),
                None => true,
            },
            None => true,
        }
    }
}

/// A characteristic costs 15 or more for each point above 8.
pub proof fn lemma_characteristic_cost_lower_bound(value: int)
    requires
        value >= 8,
    ensures
        characteristic_cost(value) >= 15 * (value - 8),
{
    if value > 14 {
        let n = value - 14;
        assert(n * (n + 3) >= 2 * n) by (nonlinear_arith)
            requires
                n >= 0,
        ;
    }
}

impl ApCalculator {
    /// The row of a rated item, where it has one. The cost of the item must
    /// be a machine integer.
    fn rated_row_of(item: &Item, curve: CostCurve, only_costly: bool) -> (r: Option<
        (String, i32, String, i32),
    >)
        requires
            fits_i32(rated_amount(curve)(*item)),
        ensures
            r is Some <==> rated_row(curve, only_costly)(*item) is Some,
            r matches Some(row) ==> (row.0@, row.1 as int, row.2@, row.3 as int) == rated_row(
                curve,
                only_costly,
            )(*item)->0,
    {
        let value = match Self::item_talent_value(item) {
            Some(value) => value,
            None => {
                return None;
            },
        };
        let grade = match item.system.get_st_f_value() {
            Some(grade) => grade,
            None => {
                return None;
            },
        };
        let multiplier = match Self::stf_to_multiplier(grade.as_str()) {
            Some(multiplier) => multiplier,
            None => {
                return None;
            },
        };
        let cost = match Self::checked_curve_cost(curve, value, multiplier) {
            Some(cost) => cost,
            None => unreached(),
        };
        if only_costly && cost <= 0 {
            None
        } else {
            Some((item.name.clone(), value, grade, cost))
        }
    }

    /// The rows of the given items that have one, in the order of the items,
    /// where the cost of every item is a machine integer.
    pub fn try_rated_rows_of(items: &[&Item], curve: CostCurve, only_costly: bool) -> (r: Option<
        Vec<(String, i32, String, i32)>,
    >)
        ensures
            r is Some <==> rated_costs_fit(deref_all(items@), curve),
            r matches Some(rows) ==> rated_rows_view(rows@) == rated_rows(
                deref_all(items@),
                curve,
                only_costly,
            ),
    {
        let ghost all = deref_all(items@);
        let mut rows: Vec<(String, i32, String, i32)> = Vec::new();
        let mut i: usize = 0;
        while i < items.len()
            invariant
                i <= items.len(),
                all == deref_all(items@),
                rated_costs_fit(all.take(i as int), curve),
                rated_rows_view(rows@) == rated_rows(all.take(i as int), curve, only_costly),
            decreases items.len() - i,
        {
            let item = items[i];
            let ghost so_far = rows@;
            let ghost prefix = all.take(i + 1);
            proof {
                assert(prefix.drop_last() =~= all.take(i as int));
                assert(prefix.last() == *item);
            }
            if Self::checked_rated_amount(item, curve).is_none() {
                return None;
            }
            match Self::rated_row_of(item, curve, only_costly) {
                Some(row) => {
                    let ghost said = (row.0@, row.1 as int, row.2@, row.3 as int);
                    rows.push(row);
                },
                None => {},
            }
            i = i + 1;
        }
        assert(all.take(i as int) =~= all);
        Some(rows)
    }

    /// The rows of the given items that have one, in the order of the items.
    pub fn rated_rows_of(items: &[&Item], curve: CostCurve, only_costly: bool) -> (rows: Vec<
        (String, i32, String, i32),
    >)
        requires
            rated_costs_fit(deref_all(items@), curve),
        ensures
            rated_rows_view(rows@) == rated_rows(deref_all(items@), curve, only_costly),
    {
        match Self::try_rated_rows_of(items, curve, only_costly) {
            Some(rows) => rows,
            None => unreached(),
        }
    }

    /// The rows of the skills that cost something, by name.
    pub fn get_skills_ap_breakdown(character: &Character) -> (rows: Vec<(String, i32, String, i32)>)
        requires
            rated_costs_fit(items_of_types(character.items@, seq!["skill"@]), CostCurve::Talent),
        ensures
            rated_rows_view(rows@) == rated_rows(
                items_of_types(character.items@, seq!["skill"@]),
                CostCurve::Talent,
                true,
            ),
    {
        let items = character.get_skills();
        Self::rated_rows_of(items.as_slice(), CostCurve::Talent, true)
    }

    /// The rows of the combat skills, by name.
    pub fn get_combat_skills_ap_breakdown(character: &Character) -> (rows: Vec<
        (String, i32, String, i32),
    >)
        requires
            rated_costs_fit(
                items_of_types(character.items@, seq!["combatskill"@]),
                CostCurve::CombatSkill,
            ),
        ensures
            rated_rows_view(rows@) == rated_rows(
                items_of_types(character.items@, seq!["combatskill"@]),
                CostCurve::CombatSkill,
                false,
            ),
    {
        let items = character.get_combat_skills();
        Self::rated_rows_of(items.as_slice(), CostCurve::CombatSkill, false)
    }

    /// The rows of the given spells, rituals, liturgies or ceremonies.
    pub fn get_learned_abilities_ap_breakdown(items: &[&Item]) -> (rows: Vec<
        (String, i32, String, i32),
    >)
        requires
            rated_costs_fit(deref_all(items@), CostCurve::LearnedAbility),
        ensures
            rated_rows_view(rows@) == rated_rows(
                deref_all(items@),
                CostCurve::LearnedAbility,
                false,
            ),
    {
        Self::rated_rows_of(items, CostCurve::LearnedAbility, false)
    }

    /// The rows of the spells and rituals, by name.
    pub fn get_spells_and_rituals_ap_breakdown(character: &Character) -> (rows: Vec<
        (String, i32, String, i32),
    >)
        requires
            rated_costs_fit(
                items_of_types(character.items@, seq!["spell"@, "ritual"@]),
                CostCurve::LearnedAbility,
            ),
        ensures
            rated_rows_view(rows@) == rated_rows(
                items_of_types(character.items@, seq!["spell"@, "ritual"@]),
                CostCurve::LearnedAbility,
                false,
            ),
    {
        let items = character.get_spells_and_rituals();
        Self::get_learned_abilities_ap_breakdown(items.as_slice())
    }

    /// The rows of the liturgies and ceremonies, by name.
    pub fn get_liturgies_and_ceremonies_ap_breakdown(character: &Character) -> (rows: Vec<
        (String, i32, String, i32),
    >)
        requires
            rated_costs_fit(
                items_of_types(character.items@, seq!["liturgy"@, "ceremony"@]),
                CostCurve::LearnedAbility,
            ),
        ensures
            rated_rows_view(rows@) == rated_rows(
                items_of_types(character.items@, seq!["liturgy"@, "ceremony"@]),
                CostCurve::LearnedAbility,
                false,
            ),
    {
        let items = character.get_liturgies_and_ceremonies();
        Self::get_learned_abilities_ap_breakdown(items.as_slice())
    }

    /// Puts the row of a characteristic behind `rows`, where it has one.
    /// Nothing is done where the cost is no machine integer.
    fn try_push_characteristic_row(
        rows: &mut Vec<(String, i32, i32)>,
        name: &str,
        value: &Option<CharacteristicValue>,
    ) -> (done: bool)
        ensures
            done == fits_i32(optional_characteristic_cost(*value)),
            done ==> characteristic_rows_view(final(rows)@) == characteristic_rows_view(
                old(rows)@,
            ) + characteristic_row(name@, *value),
            !done ==> final(rows)@ == old(rows)@,
    {
        let ghost before = characteristic_rows_view(rows@);
        if let Some(value) = value {
            let nominal: i64 = value.initial as i64 + value.advances as i64;
            if nominal >= 8 {
                proof {
                    lemma_characteristic_cost_lower_bound(nominal as int);
                }
                let cost = match Self::checked_characteristic_cost(value.initial, value.advances) {
                    Some(cost) => cost,
                    None => {
                        return false;
                    },
                };
                rows.push((String::from_str(name), nominal as i32, cost));
                return true;
            }
        }
        true
    }

    /// The rows of the characteristics of 8 or more, where the cost of each
    /// characteristic is a machine integer.
    pub fn try_get_characteristics_ap_breakdown(character: &Character) -> (r: Option<
        Vec<(String, i32, i32)>,
    >)
        ensures
            r is Some <==> character.characteristic_costs_fit(),
            r matches Some(rows) ==> characteristic_rows_view(rows@)
                == character.characteristic_rows(),
    {
        let mut rows: Vec<(String, i32, i32)> = Vec::new();
        if let Some(system) = &character.system {
            if let Some(characteristics) = &system.characteristics {
                let done = Self::try_push_characteristic_row(&mut rows, "Mut", &characteristics.mu)
                    && Self::try_push_characteristic_row(&mut rows, "Klugheit", &characteristics.kl)
                    && Self::try_push_characteristic_row(
                    &mut rows,
                    "Intuition",
                    &characteristics.in_,
                ) && Self::try_push_characteristic_row(&mut rows, "Charisma", &characteristics.ch)
                    && Self::try_push_characteristic_row(
                    &mut rows,
                    "Fingerfertigkeit",
                    &characteristics.ff,
                ) && Self::try_push_characteristic_row(
                    &mut rows,
                    "Gewandtheit",
                    &characteristics.ge,
                ) && Self::try_push_characteristic_row(
                    &mut rows,
                    "Konstitution",
                    &characteristics.ko,
                ) && Self::try_push_characteristic_row(
                    &mut rows,
                    "K\u{f6}rperkraft",
                    &characteristics.kk,
                );
                if !done {
                    return None;
                }
            }
        }
        Some(rows)
    }

    /// The rows of the characteristics of 8 or more.
    pub fn get_characteristics_ap_breakdown(character: &Character) -> (rows: Vec<
        (String, i32, i32),
    >)
        requires
            character.characteristic_costs_fit(),
        ensures
            characteristic_rows_view(rows@) == character.characteristic_rows(),
    {
        match Self::try_get_characteristics_ap_breakdown(character) {
            Some(rows) => rows,
            None => unreached(),
        }
    }
}

} // verus!
