//! What a report on a character shows besides the ledger itself: how the
//! computed total compares with the recorded one, the categories in the
//! order of their weight, and the shares of a pie chart.

use crate::character::analysis::ApCalculator;
use crate::character::data::{deref_all, Character, Item};
use crate::character::ledger::{added, category_view, has_label};
use crate::lexical::{
    lemma_lex_le_total, lemma_lex_le_transitive, lex_le, text_le,
};
use crate::sequences::{
    first_match, lemma_first_match, lemma_first_match_is, lemma_sum_over_map_values, sum_exact,
    sum_over,
};
use crate::sorting::{
    is_sorted, is_total, is_transitive, lemma_stable_sort_map, lemma_stable_sort_sorted, sort_by,
    stable_sort,
};
use vstd::prelude::*;
use vstd::string::*;

verus! {

/// The figures of a report on the experience points of a character.
pub struct ApAnalysis;

/// The computed total beside the recorded one.
#[derive(Clone, Copy, Debug)]
pub struct ApComparison {
    pub computed: i32,
    pub recorded: i32,
    pub difference: i64,
}

/// How the computed total stands to the recorded one.
#[derive(Clone, Copy, Debug)]
pub enum ApVerdict {
    /// Both are the same.
    Match,
    /// The record shows less than was computed.
    RecordShowsLess,
    /// The record shows more than was computed.
    RecordShowsMore,
}

/// One share of the pie chart.
#[derive(Clone, Debug)]
pub struct PieSlice {
    pub label: String,
    pub value: i128,
    pub slot: usize,
}

/// What a share of the pie chart says.
pub struct PieSliceView {
    pub label: Seq<char>,
    pub value: int,
    pub slot: int,
}

impl View for PieSlice {
    type V = PieSliceView;

    open spec fn view(&self) -> PieSliceView {
        PieSliceView { label: self.label@, value: self.value as int, slot: self.slot as int }
    }
}

/// What a list of shares says.
pub open spec fn slices_view(slices: Seq<PieSlice>) -> Seq<PieSliceView> {
    slices.map_values(|slice: PieSlice| slice@)
}

/// The amount of a category.
pub open spec fn amount_of() -> spec_fn((Seq<char>, int)) -> int {
    |entry: (Seq<char>, int)| entry.1
}

/// The order of categories in a report: the higher amount first, and of
/// equal amounts the label that stands first.
pub open spec fn by_amount_then_label() -> spec_fn((Seq<char>, int), (Seq<char>, int)) -> bool {
    |a: (Seq<char>, int), b: (Seq<char>, int)|
        if a.1 != b.1 {
            a.1 > b.1
        } else {
            lex_le(a.0, b.0)
        }
}

/// The categories in the order of a report.
pub open spec fn sorted_categories(categories: Seq<(Seq<char>, int)>) -> Seq<(Seq<char>, int)> {
    stable_sort(categories, by_amount_then_label())
}

/// The slot of a category in a list: its place for the first three, slot 3
/// for every later one, and slot 4 for a category that is not in the list.
pub open spec fn slot_of(sorted: Seq<(Seq<char>, int)>, label: Seq<char>) -> int {
    let at = first_match(sorted, has_label(label));
    if at >= sorted.len() {
        4
    } else if at < 3 {
        at
    } else {
        3
    }
}

/// The largest three categories as they stand.
pub open spec fn top_slices(sorted: Seq<(Seq<char>, int)>) -> Seq<PieSliceView> {
    Seq::new(
        if sorted.len() < 3 {
            sorted.len()
        } else {
            3
        },
        |i: int| PieSliceView { label: sorted[i].0, value: sorted[i].1, slot: i },
    )
}

/// What the categories behind the third come to together.
pub open spec fn rest_amount(sorted: Seq<(Seq<char>, int)>) -> int {
    if sorted.len() > 3 {
        sum_over(sorted.skip(3), amount_of())
    } else {
        0
    }
}

/// The shares of the pie chart for categories in the order of a report: the
/// first three, and one share named `Others` for the rest where that comes
/// to more than nothing. Categories that come to nothing together have no
/// chart.
pub open spec fn pie_of(sorted: Seq<(Seq<char>, int)>) -> Seq<PieSliceView> {
    if sum_over(sorted, amount_of()) == 0 {
        Seq::empty()
    } else if rest_amount(sorted) > 0 {
        top_slices(sorted).push(
            PieSliceView { label: "Others"@, value: rest_amount(sorted), slot: 3 },
        )
    } else {
        top_slices(sorted)
    }
}

/// What a list of counts says.
pub open spec fn counts_view(counts: Seq<(String, usize)>) -> Seq<(Seq<char>, int)> {
    counts.map_values(|entry: (String, usize)| (entry.0@, entry.1 as int))
}

/// How many of the items there are of each type, the types in the order in
/// which they first occur.
pub open spec fn type_counts(items: Seq<Item>) -> Seq<(Seq<char>, int)>
    decreases items.len(),
{
    if items.len() == 0 {
        Seq::empty()
    } else {
        added(type_counts(items.drop_last()), items.last().item_type@, 1)
    }
}

/// The order of entries by label.
pub open spec fn by_label() -> spec_fn((Seq<char>, int), (Seq<char>, int)) -> bool {
    |a: (Seq<char>, int), b: (Seq<char>, int)| lex_le(a.0, b.0)
}

/// One row of the survey of item types: the type, how many items have it,
/// and whether one of them has a cost field.
pub open spec fn survey_row(priced: Seq<(Seq<char>, int)>) -> spec_fn((Seq<char>, int)) -> (
    Seq<char>,
    int,
    bool,
) {
    |entry: (Seq<char>, int)|
        (entry.0, entry.1, first_match(priced, has_label(entry.0)) < priced.len())
}

/// What a survey of item types says.
pub open spec fn survey_view(rows: Seq<(String, usize, bool)>) -> Seq<(Seq<char>, int, bool)> {
    rows.map_values(|row: (String, usize, bool)| (row.0@, row.1 as int, row.2))
}

impl Character {
    /// The survey of the item types of the character, by type.
    pub open spec fn item_type_survey(&self) -> Seq<(Seq<char>, int, bool)> {
        stable_sort(type_counts(self.items@), by_label()).map_values(
            survey_row(type_counts(self.ap_items())),
        )
    }

    /// The total that was recorded as spent; nothing where the character has
    /// no experience record.
    pub open spec fn recorded_spent_ap(&self) -> int {
        match self.system {
            Some(system) => match system.details {
                Some(details) => match details.experience {
                    Some(experience) => experience.spent as int,
                    None => 0,
                },
                None => 0,
            },
            None => 0,
        }
    }
}

/// The order of a report decides between any two categories and carries
/// over from two steps to one.
pub proof fn lemma_by_amount_then_label_is_an_order()
    ensures
        is_total(by_amount_then_label()),
        is_transitive(by_amount_then_label()),
{
    let order = by_amount_then_label();
    assert forall|a: (Seq<char>, int), b: (Seq<char>, int)| #[trigger]
        order(a, b) || order(b, a) by {
        lemma_lex_le_total(a.0, b.0);
    }
    assert forall|a: (Seq<char>, int), b: (Seq<char>, int), c: (Seq<char>, int)| #[trigger]
        order(a, b) && #[trigger] order(b, c) implies order(a, c) by {
        if a.1 == b.1 && b.1 == c.1 {
            lemma_lex_le_transitive(a.0, b.0, c.0);
        }
    }
}

/// The categories of a report are in its order.
pub proof fn lemma_sorted_categories_are_sorted(categories: Seq<(Seq<char>, int)>)
    ensures
        is_sorted(sorted_categories(categories), by_amount_then_label()),
{
    lemma_by_amount_then_label_is_an_order();
    lemma_stable_sort_sorted(categories, by_amount_then_label());
}

impl ApAnalysis {
    pub fn new() -> (analysis: Self) {
        ApAnalysis
    }

    /// The total that was recorded as spent; nothing where the character has
    /// no experience record.
    pub fn recorded_spent_ap(&self, character: &Character) -> (recorded: i32)
        ensures
            recorded == character.recorded_spent_ap(),
    {
        if let Some(system) = &character.system {
            if let Some(details) = &system.details {
                if let Some(experience) = &details.experience {
                    return experience.spent;
                }
            }
        }
        0
    }

    /// A computed total beside the recorded one of a character, and by how
    /// much the computed one is higher.
    pub fn compare(&self, computed: i32, character: &Character) -> (comparison: ApComparison)
        ensures
            comparison.computed == computed,
            comparison.recorded == character.recorded_spent_ap(),
            comparison.difference == computed - character.recorded_spent_ap(),
    {
        let recorded = self.recorded_spent_ap(character);
        ApComparison { computed, recorded, difference: computed as i64 - recorded as i64 }
    }

    /// The computed total of a character beside the recorded one, where the
    /// computed total is a machine integer.
    pub fn try_compare_totals(&self, character: &Character) -> (r: Option<ApComparison>)
        ensures
            r is Some <==> character.total_fits(),
            r matches Some(comparison) ==> comparison.computed == character.total_spent_ap()
                && comparison.recorded == character.recorded_spent_ap() && comparison.difference
                == character.total_spent_ap() - character.recorded_spent_ap(),
    {
        match ApCalculator::try_calculate_total_spent_ap(character) {
            Some(computed) => Some(self.compare(computed, character)),
            None => None,
        }
    }

    /// How the computed total stands to the recorded one.
    pub fn verdict(&self, comparison: &ApComparison) -> (verdict: ApVerdict)
        ensures
            verdict is Match <==> comparison.difference == 0,
            verdict is RecordShowsLess <==> comparison.difference > 0,
            verdict is RecordShowsMore <==> comparison.difference < 0,
    {
        if comparison.difference == 0 {
            ApVerdict::Match
        } else if comparison.difference > 0 {
            ApVerdict::RecordShowsLess
        } else {
            ApVerdict::RecordShowsMore
        }
    }

    /// The categories in the order of a report: the higher amount first, and
    /// of equal amounts the label that stands first.
    pub fn sort_categories(&self, categories: Vec<(String, i32)>) -> (sorted: Vec<(String, i32)>)
        ensures
            category_view(sorted@) == sorted_categories(category_view(categories@)),
    {
        let ghost unsorted = categories@;
        let ghost order = |a: (String, i32), b: (String, i32)|
            if a.1 != b.1 {
                a.1 > b.1
            } else {
                lex_le(a.0@, b.0@)
            };
        let entry_le = |a: &(String, i32), b: &(String, i32)| -> (le: bool)
            ensures
                le == (if a.1 != b.1 {
                    a.1 > b.1
                } else {
                    lex_le(a.0@, b.0@)
                }),
            {
                if a.1 != b.1 {
                    a.1 > b.1
                } else {
                    text_le(a.0.as_str(), b.0.as_str())
                }
            };
        let sorted = sort_by(categories, entry_le, Ghost(order));
        proof {
            lemma_stable_sort_map(
                unsorted,
                |entry: (String, i32)| (entry.0@, entry.1 as int),
                order,
                by_amount_then_label(),
            );
        }
        sorted
    }

    /// What the categories come to together.
    pub fn categories_total(&self, categories: &Vec<(String, i32)>) -> (total: i128)
        ensures
            total == sum_over(category_view(categories@), amount_of()),
    {
        let ghost amount = |entry: (String, i32)| entry.1 as int;
        let term = |entry: &(String, i32)| -> (amount: i32)
            ensures
                amount == entry.1,
            { entry.1 };
        proof {
            lemma_sum_over_map_values(
                categories@,
                |entry: (String, i32)| (entry.0@, entry.1 as int),
                amount,
                amount_of(),
            );
        }
        sum_exact(categories.as_slice(), term, Ghost(amount))
    }

    /// The slot of a category among categories in the order of a report.
    pub fn slot_of_category(&self, category: &str, sorted: &Vec<(String, i32)>) -> (slot: usize)
        ensures
            slot == slot_of(category_view(sorted@), category@),
    {
        let wanted = String::from_str(category);
        let ghost listed = category_view(sorted@);
        let ghost labelled = has_label(category@);
        let mut at: usize = 0;
        while at < sorted.len()
            invariant
                at <= sorted.len(),
                wanted@ == category@,
                listed == category_view(sorted@),
                labelled == has_label(category@),
                forall|i: int| 0 <= i < at ==> !labelled(#[trigger] listed[i]),
            decreases sorted.len() - at,
        {
            if sorted[at].0 == wanted {
                proof {
                    lemma_first_match_is(listed, labelled, at as int);
                }
                return if at < 3 {
                    at
                } else {
                    3
                };
            }
            at = at + 1;
        }
        proof {
            lemma_first_match_is(listed, labelled, at as int);
        }
        4
    }

    /// The colour of a slot of the pie chart, as red, green and blue.
    pub fn slice_color(&self, slot: usize) -> (color: (u8, u8, u8))
        ensures
            slot == 0 ==> color == (52u8, 152u8, 219u8),
            slot == 1 ==> color == (46u8, 204u8, 113u8),
            slot == 2 ==> color == (231u8, 76u8, 60u8),
            slot == 3 ==> color == (149u8, 165u8, 166u8),
            slot >= 4 ==> color == (127u8, 140u8, 141u8),
    {
        if slot == 0 {
            (52, 152, 219)
        } else if slot == 1 {
            (46, 204, 113)
        } else if slot == 2 {
            (231, 76, 60)
        } else if slot == 3 {
            (149, 165, 166)
        } else {
            (127, 140, 141)
        }
    }

    /// The place of `label` in a list of counts, or the length of the list
    /// where it has no entry.
    fn find_count(counts: &Vec<(String, usize)>, label: &str) -> (at: usize)
        ensures
            at <= counts.len(),
            at == first_match(counts_view(counts@), has_label(label@)),
    {
        let wanted = String::from_str(label);
        let ghost listed = counts_view(counts@);
        let ghost labelled = has_label(label@);
        let mut at: usize = 0;
        while at < counts.len()
            invariant
                at <= counts.len(),
                wanted@ == label@,
                listed == counts_view(counts@),
                labelled == has_label(label@),
                forall|i: int| 0 <= i < at ==> !labelled(#[trigger] listed[i]),
            decreases counts.len() - at,
        {
            if counts[at].0 == wanted {
                proof {
                    lemma_first_match_is(listed, labelled, at as int);
                }
                return at;
            }
            at = at + 1;
        }
        proof {
            lemma_first_match_is(listed, labelled, at as int);
        }
        at
    }

    /// How many of the items there are of each type.
    fn count_types(items: &[&Item]) -> (counts: Vec<(String, usize)>)
        ensures
            counts_view(counts@) == type_counts(deref_all(items@)),
    {
        let ghost all = deref_all(items@);
        let mut counts: Vec<(String, usize)> = Vec::new();
        let mut i: usize = 0;
        while i < items.len()
            invariant
                i <= items.len(),
                all == deref_all(items@),
                counts_view(counts@) == type_counts(all.take(i as int)),
                forall|k: int| 0 <= k < counts@.len() ==> (#[trigger] counts@[k]).1 <= i,
            decreases items.len() - i,
        {
            let item = items[i];
            let ghost before = counts@;
            proof {
                assert(all.take(i + 1).drop_last() =~= all.take(i as int));
                lemma_first_match(counts_view(before), has_label(item.item_type@));
            }
            let at = Self::find_count(&counts, item.item_type.as_str());
            if at < counts.len() {
                let entry = counts.remove(at);
                counts.insert(at, (entry.0, entry.1 + 1));
            } else {
                counts.push((item.item_type.clone(), 1));
            }
            i = i + 1;
        }
        assert(all.take(i as int) =~= all);
        counts
    }

    /// The survey of the item types of a character: for each type, by type,
    /// how many items have it and whether one of them has a cost field.
    pub fn item_type_survey(&self, character: &Character) -> (rows: Vec<(String, usize, bool)>)
        ensures
            survey_view(rows@) == character.item_type_survey(),
    {
        let mut all_items: Vec<&Item> = Vec::new();
        let mut i: usize = 0;
        while i < character.items.len()
            invariant
                i <= character.items.len(),
                deref_all(all_items@) == character.items@.take(i as int),
            decreases character.items.len() - i,
        {
            let ghost before = all_items@;
            all_items.push(&character.items[i]);
            assert(deref_all(all_items@) =~= deref_all(before).push(character.items@[i as int]));
            i = i + 1;
        }
        assert(character.items@.take(i as int) =~= character.items@);
        let counts = Self::count_types(all_items.as_slice());
        let priced_items = character.get_ap_items();
        let priced = Self::count_types(priced_items.as_slice());
        let ghost unsorted = counts@;
        let ghost order = |a: (String, usize), b: (String, usize)| lex_le(a.0@, b.0@);
        let label_le = |a: &(String, usize), b: &(String, usize)| -> (le: bool)
            ensures
                le == lex_le(a.0@, b.0@),
            { text_le(a.0.as_str(), b.0.as_str()) };
        let sorted = sort_by(counts, label_le, Ghost(order));
        proof {
            lemma_stable_sort_map(
                unsorted,
                |entry: (String, usize)| (entry.0@, entry.1 as int),
                order,
                by_label(),
            );
        }
        let ghost listed = counts_view(sorted@);
        let ghost input = sorted@;
        let ghost make = survey_row(counts_view(priced@));
        let mut rows: Vec<(String, usize, bool)> = Vec::new();
        for entry in it: sorted
            invariant
                it.seq() == input,
                listed == counts_view(input),
                make == survey_row(counts_view(priced@)),
                survey_view(rows@) == listed.take(it.index() as int).map_values(make),
        {
            let ghost k = it.index() as int;
            let ghost so_far = rows@;
            let at = Self::find_count(&priced, entry.0.as_str());
            let has_cost = at < priced.len();
            rows.push((entry.0, entry.1, has_cost));
            proof {
                assert(survey_view(rows@) =~= survey_view(so_far).push(make(listed[k])));
            }
        }
        rows
    }

    /// The shares of the pie chart for the given categories.
    pub fn pie_slices(&self, categories: Vec<(String, i32)>) -> (slices: Vec<PieSlice>)
        ensures
            slices_view(slices@) == pie_of(sorted_categories(category_view(categories@))),
    {
        let sorted = self.sort_categories(categories);
        let total = self.categories_total(&sorted);
        let ghost listed = category_view(sorted@);
        let ghost input = sorted@;
        let mut slices: Vec<PieSlice> = Vec::new();
        if total == 0 {
            return slices;
        }
        let mut rest: i128 = 0;
        let mut index: usize = 0;
        let count = sorted.len();
        for entry in it: sorted
            invariant
                it.seq() == input,
                input.len() == count,
                listed == category_view(input),
                index == it.index(),
                slices_view(slices@) == top_slices(listed.take(index as int)),
                rest == rest_amount(listed.take(index as int)),
                -0x8000_0000 * index <= rest <= 0x8000_0000 * index,
        {
            let ghost k = it.index() as int;
            let ghost so_far = slices@;
            let ghost prefix = listed.take(k + 1);
            if index < 3 {
                slices.push(PieSlice { label: entry.0, value: entry.1 as i128, slot: index });
                proof {
                    assert(slices_view(slices@) =~= slices_view(so_far).push(
                        PieSliceView { label: listed[k].0, value: listed[k].1, slot: k },
                    ));
                }
            } else {
                rest = rest + entry.1 as i128;
                proof {
                    assert(prefix.skip(3).drop_last() =~= listed.take(k).skip(3));
                }
            }
            index = index + 1;
        }
        proof {
            assert(listed.take(input.len() as int) =~= listed);
        }
        if rest > 0 {
            let ghost so_far = slices@;
            slices.push(PieSlice { label: String::from_str("Others"), value: rest, slot: 3 });
        }
        slices
    }
}

} // verus!
