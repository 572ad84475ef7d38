//! The breakdown: every priced line of a character, in a fixed order.

use crate::character::analysis::{views, ApCalculator, ApItem, ApItemView};
use crate::character::data::{Character, Item};
use crate::character::duplicates::{
    duplicates_resolved, highest_step_only_names, step_of,
};
use crate::lexical::{
    lemma_lex_le_antisymmetric, lemma_lex_le_total, lemma_lex_le_transitive, lex_le, text_le,
};
use crate::sorting::{
    is_sorted, is_total, is_transitive, lemma_stable_sort_map, lemma_stable_sort_permutes,
    lemma_stable_sort_sorted, sort_by, stable_sort,
};
use crate::text::fits_i32;
use vstd::prelude::*;

verus! {

/// The priced line of an item that has a cost field.
pub open spec fn priced_or_none() -> spec_fn(Item) -> Option<ApItemView> {
    |item: Item|
        if item.system.ap_value() is Some {
            Some(item.priced())
        } else {
            None
        }
}

/// The priced lines of the items that have a cost field, in the order of the
/// items.
pub open spec fn priced_lines(items: Seq<Item>) -> Seq<ApItemView> {
    items.filter_map(priced_or_none())
}

/// Whether the cost of every item is a 32-bit machine integer.
pub open spec fn costs_fit(items: Seq<Item>) -> bool {
    forall|i: int| 0 <= i < items.len() ==> fits_i32((#[trigger] items[i]).ap_cost())
}

/// The order of the breakdown: by name, and under one name by step, highest
/// first.
pub open spec fn by_name_then_step() -> spec_fn(ApItemView, ApItemView) -> bool {
    |a: ApItemView, b: ApItemView|
        if a.name == b.name {
            step_of(a) >= step_of(b)
        } else {
            lex_le(a.name, b.name)
        }
}

impl Character {
    /// The priced lines of the character with the rule applied that only the
    /// highest step counts.
    pub open spec fn lines_with_rules(&self) -> Seq<ApItemView> {
        duplicates_resolved(priced_lines(self.items@), highest_step_only_names())
    }

    /// The breakdown of the character: its priced lines by name, and under
    /// one name by step, highest first. Lines that agree in both stay in the
    /// order in which the rule left them.
    pub open spec fn breakdown(&self) -> Seq<ApItemView> {
        stable_sort(self.lines_with_rules(), by_name_then_step())
    }
}

/// The order of the breakdown decides between any two lines and carries over
/// from two steps to one.
pub proof fn lemma_by_name_then_step_is_an_order()
    ensures
        is_total(by_name_then_step()),
        is_transitive(by_name_then_step()),
{
    let order = by_name_then_step();
    assert forall|a: ApItemView, b: ApItemView| #[trigger] order(a, b) || order(b, a) by {
        lemma_lex_le_total(a.name, b.name);
    }
    assert forall|a: ApItemView, b: ApItemView, c: ApItemView| #[trigger]
        order(a, b) && #[trigger] order(b, c) implies order(a, c) by {
        if a.name != b.name && b.name != c.name {
            lemma_lex_le_transitive(a.name, b.name, c.name);
            if a.name == c.name {
                lemma_lex_le_antisymmetric(a.name, b.name);
            }
        }
    }
}

/// The breakdown is in order, and holds the lines that the rule left, each
/// as often as it left it.
pub proof fn lemma_breakdown_is_sorted(character: Character)
    ensures
        is_sorted(character.breakdown(), by_name_then_step()),
        character.breakdown().len() == character.lines_with_rules().len(),
        character.breakdown().to_multiset() == character.lines_with_rules().to_multiset(),
{
    lemma_by_name_then_step_is_an_order();
    lemma_stable_sort_sorted(character.lines_with_rules(), by_name_then_step());
    lemma_stable_sort_permutes(character.lines_with_rules(), by_name_then_step());
}

/// The breakdown and the categories of a character are fixed by the
/// character: two computations on one character give lists that say the
/// same, line by line and category by category, in the same order.
pub proof fn lemma_results_are_fixed_by_the_character(
    character: Character,
    first_breakdown: Vec<ApItem>,
    second_breakdown: Vec<ApItem>,
    first_categories: Vec<(String, i32)>,
    second_categories: Vec<(String, i32)>,
)
    requires
        views(first_breakdown@) == character.breakdown(),
        views(second_breakdown@) == character.breakdown(),
        crate::character::ledger::category_view(first_categories@) == character.category_totals(),
        crate::character::ledger::category_view(second_categories@) == character.category_totals(),
    ensures
        views(first_breakdown@) == views(second_breakdown@),
        first_breakdown@.len() == second_breakdown@.len(),
        forall|i: int|
            0 <= i < first_breakdown@.len() ==> (#[trigger] first_breakdown@[i])@
                == second_breakdown@[i]@,
        crate::character::ledger::category_view(first_categories@)
            == crate::character::ledger::category_view(second_categories@),
        first_categories@.len() == second_categories@.len(),
        forall|i: int|
            0 <= i < first_categories@.len() ==> (#[trigger] first_categories@[i]).0@
                == second_categories@[i].0@ && first_categories@[i].1 == second_categories@[i].1,
{
    assert(views(first_breakdown@).len() == first_breakdown@.len());
    assert(crate::character::ledger::category_view(first_categories@).len()
        == first_categories@.len());
    assert forall|i: int| 0 <= i < first_breakdown@.len() implies (#[trigger] first_breakdown@[i])@
        == second_breakdown@[i]@ by {
        assert(views(first_breakdown@)[i] == first_breakdown@[i]@);
    }
    assert forall|i: int| 0 <= i < first_categories@.len() implies (
    #[trigger] first_categories@[i]).0@ == second_categories@[i].0@ && first_categories@[i].1
        == second_categories@[i].1 by {
        assert(crate::character::ledger::category_view(first_categories@)[i]
            == crate::character::ledger::category_view(second_categories@)[i]);
    }
}

impl ApCalculator {
    /// The priced lines of the items that have a cost field, where the cost
    /// of every item is a machine integer.
    pub fn try_price_items(character: &Character) -> (r: Option<Vec<ApItem>>)
        ensures
            r is Some <==> costs_fit(character.items@),
            r matches Some(lines) ==> views(lines@) == priced_lines(character.items@),
    {
        let ghost items = character.items@;
        let mut lines: Vec<ApItem> = Vec::new();
        let mut i: usize = 0;
        while i < character.items.len()
            invariant
                i <= character.items.len(),
                items == character.items@,
                costs_fit(items.take(i as int)),
                views(lines@) == priced_lines(items.take(i as int)),
            decreases character.items.len() - i,
        {
            let item = &character.items[i];
            let ghost prefix = items.take(i + 1);
            let ghost so_far = lines@;
            proof {
                assert(prefix.drop_last() =~= items.take(i as int));
            }
            match Self::try_price_item(item) {
                Some(line) => {
                    if item.system.get_ap_value().is_some() {
                        lines.push(line);
                    }
                },
                None => {
                    return None;
                },
            }
            i = i + 1;
        }
        assert(items.take(i as int) =~= items);
        Some(lines)
    }

    /// The priced lines of the items that have a cost field, in the order of
    /// the items.
    pub fn price_items(character: &Character) -> (lines: Vec<ApItem>)
        requires
            costs_fit(character.items@),
        ensures
            views(lines@) == priced_lines(character.items@),
    {
        match Self::try_price_items(character) {
            Some(lines) => lines,
            None => unreached(),
        }
    }

    /// The priced lines of the character with the rule applied that only the
    /// highest step counts.
    pub fn apply_special_rules(character: &Character) -> (lines: Vec<ApItem>)
        requires
            costs_fit(character.items@),
        ensures
            views(lines@) == character.lines_with_rules(),
    {
        let rule_names = ["Prinzipientreue", "Verpflichtungen"];
        assert(crate::character::data::texts_of(rule_names@) =~= highest_step_only_names());
        Self::resolve_duplicates(Self::price_items(character), &rule_names)
    }

    /// Sorts priced lines into the order of the breakdown.
    pub fn sort_breakdown(lines: Vec<ApItem>) -> (sorted: Vec<ApItem>)
        ensures
            views(sorted@) == stable_sort(views(lines@), by_name_then_step()),
    {
        let ghost unsorted = lines@;
        let ghost order = |a: ApItem, b: ApItem|
            if a.name@ == b.name@ {
                step_of(a@) >= step_of(b@)
            } else {
                lex_le(a.name@, b.name@)
            };
        let line_le = |a: &ApItem, b: &ApItem| -> (le: bool)
            ensures
                le == (if a.name@ == b.name@ {
                    step_of(a@) >= step_of(b@)
                } else {
                    lex_le(a.name@, b.name@)
                }),
            {
                if a.name == b.name {
                    let step_a = match a.step {
                        Some(step) => step,
                        None => 1,
                    };
                    let step_b = match b.step {
                        Some(step) => step,
                        None => 1,
                    };
                    step_a >= step_b
                } else {
                    text_le(a.name.as_str(), b.name.as_str())
                }
            };
        let sorted = sort_by(lines, line_le, Ghost(order));
        proof {
            lemma_stable_sort_map(
                unsorted,
                crate::character::analysis::view_of(),
                order,
                by_name_then_step(),
            );
        }
        sorted
    }

    /// The breakdown of a character, where the cost of every item is a
    /// machine integer.
    pub fn try_get_ap_items_breakdown(character: &Character) -> (r: Option<Vec<ApItem>>)
        ensures
            r is Some <==> costs_fit(character.items@),
            r matches Some(lines) ==> views(lines@) == character.breakdown(),
    {
        match Self::try_price_items(character) {
            Some(priced) => {
                let rule_names = ["Prinzipientreue", "Verpflichtungen"];
                assert(crate::character::data::texts_of(rule_names@) =~= highest_step_only_names());
                Some(Self::sort_breakdown(Self::resolve_duplicates(priced, &rule_names)))
            },
            None => None,
        }
    }

    /// The breakdown of a character: every priced line, with those marked
    /// that the rule excludes.
    pub fn get_ap_items_breakdown(character: &Character) -> (lines: Vec<ApItem>)
        requires
            costs_fit(character.items@),
        ensures
            views(lines@) == character.breakdown(),
    {
        Self::sort_breakdown(Self::apply_special_rules(character))
    }
}

} // verus!
