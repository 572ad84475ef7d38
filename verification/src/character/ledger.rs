//! The ledger of a character: what was spent in total, and on what.

use crate::character::analysis::{narrow, view_of, views, ApCalculator, ApItem, ApItemView};
use crate::character::breakdown::costs_fit;
use crate::character::data::Character;
use crate::sequences::{
    first_match, lemma_first_match, lemma_first_match_is, lemma_sum_over_map_values, sum_exact,
    sum_over,
};
use crate::text::fits_i32;
use vstd::prelude::*;
use vstd::string::*;

verus! {

/// What a priced line adds to the total: its cost, or nothing where it is
/// excluded.
pub open spec fn contribution() -> spec_fn(ApItemView) -> int {
    |line: ApItemView|
        if line.was_excluded {
            0
        } else {
            line.ap_cost
        }
}

/// The entries with the label `label`.
pub open spec fn has_label(label: Seq<char>) -> spec_fn((Seq<char>, int)) -> bool {
    |entry: (Seq<char>, int)| entry.0 == label
}

/// The entries with `amount` added under `label`: to the entry with that
/// label, or as a new entry at the end.
pub open spec fn added(entries: Seq<(Seq<char>, int)>, label: Seq<char>, amount: int) -> Seq<
    (Seq<char>, int),
> {
    let at = first_match(entries, has_label(label));
    if 0 <= at < entries.len() {
        entries.update(at, (label, entries[at].1 + amount))
    } else {
        entries.push((label, amount))
    }
}

/// The entries with `amount` put under `label`: in place of the entry with
/// that label, or as a new entry at the end.
pub open spec fn replaced(entries: Seq<(Seq<char>, int)>, label: Seq<char>, amount: int) -> Seq<
    (Seq<char>, int),
> {
    let at = first_match(entries, has_label(label));
    if 0 <= at < entries.len() {
        entries.update(at, (label, amount))
    } else {
        entries.push((label, amount))
    }
}

/// What the lines cost by item type, the types in the order in which they
/// first occur. Excluded lines and lines without cost are passed over.
pub open spec fn type_totals(lines: Seq<ApItemView>) -> Seq<(Seq<char>, int)>
    decreases lines.len(),
{
    if lines.len() == 0 {
        Seq::empty()
    } else {
        let before = type_totals(lines.drop_last());
        let line = lines.last();
        if !line.was_excluded && line.ap_cost != 0 {
            added(before, line.item_type, line.ap_cost)
        } else {
            before
        }
    }
}

/// The entries with a category put in that cost something.
pub open spec fn with_category(
    entries: Seq<(Seq<char>, int)>,
    label: Seq<char>,
    amount: int,
) -> Seq<(Seq<char>, int)> {
    if amount > 0 {
        replaced(entries, label, amount)
    } else {
        entries
    }
}

/// The entries that are not zero.
pub open spec fn is_nonzero() -> spec_fn((Seq<char>, int)) -> bool {
    |entry: (Seq<char>, int)| entry.1 != 0
}

/// Whether every amount is a 32-bit machine integer.
pub open spec fn amounts_fit(entries: Seq<(Seq<char>, int)>) -> bool {
    forall|i: int| 0 <= i < entries.len() ==> fits_i32((#[trigger] entries[i]).1)
}

/// Whether no label occurs twice.
pub open spec fn labels_distinct(entries: Seq<(Seq<char>, int)>) -> bool {
    forall|i: int, j: int|
        0 <= i < j < entries.len() ==> (#[trigger] entries[i]).0 != (#[trigger] entries[j]).0
}

/// What a list of categories says.
pub open spec fn category_view(entries: Seq<(String, i32)>) -> Seq<(Seq<char>, int)> {
    entries.map_values(|entry: (String, i32)| (entry.0@, entry.1 as int))
}

/// What a running list of categories says.
pub open spec fn tally_view(entries: Seq<(String, i128)>) -> Seq<(Seq<char>, int)> {
    entries.map_values(|entry: (String, i128)| (entry.0@, entry.1 as int))
}

/// Whether every amount of a running list lies within `bound` of zero.
pub open spec fn tally_within(entries: Seq<(String, i128)>, bound: int) -> bool {
    forall|i: int| 0 <= i < entries.len() ==> -bound <= (#[trigger] entries[i]).1 <= bound
}

impl Character {
    /// Whether the total is a 32-bit machine integer, and so is the cost of
    /// every item and of every kind of trait.
    pub open spec fn total_fits(&self) -> bool {
        self.components_fit() && fits_i32(self.total_spent_ap())
    }

    /// Whether the amount of every category is a 32-bit machine integer, and
    /// so is the cost of every item and of every kind of trait.
    pub open spec fn categories_fit(&self) -> bool {
        self.components_fit() && amounts_fit(self.category_totals())
    }

    /// What the priced lines cost together, excluded lines left out.
    pub open spec fn items_ap(&self) -> int {
        sum_over(self.lines_with_rules(), contribution())
    }

    /// What was spent in total: on the priced lines, the rated traits, the
    /// characteristics and the energy pools.
    pub open spec fn total_spent_ap(&self) -> int {
        self.items_ap() + self.skills_ap() + self.combat_skills_ap()
            + self.spells_and_rituals_ap() + self.magic_tricks_ap()
            + self.liturgies_and_ceremonies_ap() + self.blessings_ap() + self.characteristics_ap()
            + self.energy_values_ap()
    }

    /// Whether the cost of every item and of every kind of trait is a
    /// 32-bit machine integer.
    pub open spec fn components_fit(&self) -> bool {
        &&& costs_fit(self.items@)
        &&& fits_i32(self.skills_ap())
        &&& fits_i32(self.combat_skills_ap())
        &&& fits_i32(self.spells_and_rituals_ap())
        &&& fits_i32(self.magic_tricks_ap())
        &&& fits_i32(self.liturgies_and_ceremonies_ap())
        &&& fits_i32(self.blessings_ap())
        &&& fits_i32(self.characteristics_ap())
        &&& fits_i32(self.energy_values_ap())
    }

    /// What was spent by category, before the categories without cost are
    /// left out: first the item types of the priced lines, then the kinds of
    /// traits, each under its label.
    pub open spec fn all_category_totals(&self) -> Seq<(Seq<char>, int)> {
        let by_type = type_totals(self.lines_with_rules());
        let a = with_category(by_type, "Skills"@, self.skills_ap());
        let b = with_category(a, "Combat Skills"@, self.combat_skills_ap());
        let c = with_category(b, "Spells/Rituals"@, self.spells_and_rituals_ap());
        let d = with_category(c, "Magic Tricks"@, self.magic_tricks_ap());
        let e = with_category(d, "Liturgies/Ceremonies"@, self.liturgies_and_ceremonies_ap());
        let f = with_category(e, "Blessings"@, self.blessings_ap());
        let g = with_category(f, "Energies (LeP/AsP/KaP)"@, self.energy_values_ap());
        with_category(g, "Characteristics"@, self.characteristics_ap())
    }

    /// What was spent by category. A category that cost nothing has no
    /// entry.
    pub open spec fn category_totals(&self) -> Seq<(Seq<char>, int)> {
        self.all_category_totals().filter(is_nonzero())
    }
}

/// Adding under a label keeps the labels distinct.
pub proof fn lemma_added_keeps_labels_distinct(
    entries: Seq<(Seq<char>, int)>,
    label: Seq<char>,
    amount: int,
)
    requires
        labels_distinct(entries),
    ensures
        labels_distinct(added(entries, label, amount)),
        labels_distinct(replaced(entries, label, amount)),
{
    lemma_first_match(entries, has_label(label));
}

/// The totals by item type have no label twice.
pub proof fn lemma_type_totals_labels_distinct(lines: Seq<ApItemView>)
    ensures
        labels_distinct(type_totals(lines)),
    decreases lines.len(),
{
    if lines.len() > 0 {
        lemma_type_totals_labels_distinct(lines.drop_last());
        lemma_added_keeps_labels_distinct(
            type_totals(lines.drop_last()),
            lines.last().item_type,
            lines.last().ap_cost,
        );
    }
}

/// Leaving entries out keeps the labels distinct.
pub proof fn lemma_filter_keeps_labels_distinct(
    entries: Seq<(Seq<char>, int)>,
    keep: spec_fn((Seq<char>, int)) -> bool,
)
    requires
        labels_distinct(entries),
    ensures
        labels_distinct(entries.filter(keep)),
        forall|i: int|
            0 <= i < entries.filter(keep).len() ==> entries.contains(
                #[trigger] entries.filter(keep)[i],
            ),
    decreases entries.len(),
{
    reveal(Seq::filter);
    if entries.len() > 0 {
        let init = entries.drop_last();
        lemma_filter_keeps_labels_distinct(init, keep);
    }
}

/// No category occurs twice, and none has an amount of zero.
pub proof fn lemma_category_totals_are_a_map(character: Character)
    ensures
        labels_distinct(character.category_totals()),
        forall|i: int|
            0 <= i < character.category_totals().len() ==> (
            #[trigger] character.category_totals()[i]).1 != 0,
{
    let by_type = type_totals(character.lines_with_rules());
    lemma_type_totals_labels_distinct(character.lines_with_rules());
    let a = with_category(by_type, "Skills"@, character.skills_ap());
    lemma_added_keeps_labels_distinct(by_type, "Skills"@, character.skills_ap());
    let b = with_category(a, "Combat Skills"@, character.combat_skills_ap());
    lemma_added_keeps_labels_distinct(a, "Combat Skills"@, character.combat_skills_ap());
    let c = with_category(b, "Spells/Rituals"@, character.spells_and_rituals_ap());
    lemma_added_keeps_labels_distinct(b, "Spells/Rituals"@, character.spells_and_rituals_ap());
    let d = with_category(c, "Magic Tricks"@, character.magic_tricks_ap());
    lemma_added_keeps_labels_distinct(c, "Magic Tricks"@, character.magic_tricks_ap());
    let e = with_category(d, "Liturgies/Ceremonies"@, character.liturgies_and_ceremonies_ap());
    lemma_added_keeps_labels_distinct(
        d,
        "Liturgies/Ceremonies"@,
        character.liturgies_and_ceremonies_ap(),
    );
    let f = with_category(e, "Blessings"@, character.blessings_ap());
    lemma_added_keeps_labels_distinct(e, "Blessings"@, character.blessings_ap());
    let g = with_category(f, "Energies (LeP/AsP/KaP)"@, character.energy_values_ap());
    lemma_added_keeps_labels_distinct(f, "Energies (LeP/AsP/KaP)"@, character.energy_values_ap());
    let h = with_category(g, "Characteristics"@, character.characteristics_ap());
    lemma_added_keeps_labels_distinct(g, "Characteristics"@, character.characteristics_ap());
    lemma_filter_keeps_labels_distinct(h, is_nonzero());
}

impl ApCalculator {
    /// What the lines cost together, excluded lines left out.
    pub fn lines_total(lines: &Vec<ApItem>) -> (total: i128)
        ensures
            total == sum_over(views(lines@), contribution()),
            -0x8000_0000 * lines@.len() <= total <= 0x8000_0000 * lines@.len(),
    {
        let ghost amount = |line: ApItem| contribution()(line@);
        let term = |line: &ApItem| -> (cost: i32)
            ensures
                cost == contribution()(line@),
            {
                if line.was_excluded {
                    0
                } else {
                    line.ap_cost
                }
            };
        proof {
            lemma_sum_over_map_values(lines@, view_of(), amount, contribution());
        }
        sum_exact(lines.as_slice(), term, Ghost(amount))
    }

    /// What was spent in total, where that and the cost of every item and
    /// of every kind of trait are machine integers.
    pub fn try_calculate_total_spent_ap(character: &Character) -> (r: Option<i32>)
        ensures
            r is Some <==> character.total_fits(),
            r matches Some(total) ==> total == character.total_spent_ap(),
    {
        let priced = match Self::try_price_items(character) {
            Some(lines) => lines,
            None => {
                return None;
            },
        };
        let rule_names = ["Prinzipientreue", "Verpflichtungen"];
        assert(crate::character::data::texts_of(rule_names@)
            =~= crate::character::duplicates::highest_step_only_names());
        let lines = Self::resolve_duplicates(priced, &rule_names);
        let items = Self::lines_total(&lines);
        assert(lines@.len() == lines.len() <= usize::MAX);
        let skills = match Self::checked_skills_ap(character) {
            Some(cost) => cost,
            None => {
                return None;
            },
        };
        let combat_skills = match Self::checked_combat_skills_ap(character) {
            Some(cost) => cost,
            None => {
                return None;
            },
        };
        let spells = match Self::checked_spells_and_rituals_ap(character) {
            Some(cost) => cost,
            None => {
                return None;
            },
        };
        let magic_tricks = match Self::checked_magic_tricks_ap(character) {
            Some(cost) => cost,
            None => {
                return None;
            },
        };
        let liturgies = match Self::checked_liturgies_and_ceremonies_ap(character) {
            Some(cost) => cost,
            None => {
                return None;
            },
        };
        let blessings = match Self::checked_blessings_ap(character) {
            Some(cost) => cost,
            None => {
                return None;
            },
        };
        let characteristics = match Self::checked_characteristics_ap(character) {
            Some(cost) => cost,
            None => {
                return None;
            },
        };
        let energies = match Self::checked_energy_values_ap(character) {
            Some(cost) => cost,
            None => {
                return None;
            },
        };
        let total: i128 = items + skills as i128 + combat_skills as i128 + spells as i128
            + magic_tricks as i128 + liturgies as i128 + blessings as i128
            + characteristics as i128 + energies as i128;
        narrow(total)
    }

    /// What was spent in total.
    pub fn calculate_total_spent_ap(character: &Character) -> (total: i32)
        requires
            character.total_fits(),
        ensures
            total == character.total_spent_ap(),
    {
        match Self::try_calculate_total_spent_ap(character) {
            Some(total) => total,
            None => unreached(),
        }
    }

    /// The place of `label` in a running list of categories, or the length
    /// of the list where it has no entry yet.
    fn find_label(entries: &Vec<(String, i128)>, label: &str) -> (at: usize)
        ensures
            at <= entries.len(),
            at == first_match(tally_view(entries@), has_label(label@)),
    {
        let wanted = String::from_str(label);
        let ghost listed = tally_view(entries@);
        let mut at: usize = 0;
        while at < entries.len()
            invariant
                at <= entries.len(),
                wanted@ == label@,
                listed == tally_view(entries@),
                forall|i: int| 0 <= i < at ==> !has_label(label@)(#[trigger] listed[i]),
            decreases entries.len() - at,
        {
            if entries[at].0 == wanted {
                proof {
                    lemma_first_match_is(listed, has_label(label@), at as int);
                }
                return at;
            }
            at = at + 1;
        }
        proof {
            lemma_first_match_is(listed, has_label(label@), at as int);
        }
        at
    }

    /// Adds `amount` under `label`.
    fn add_to_tally(
        entries: &mut Vec<(String, i128)>,
        label: &str,
        amount: i32,
        Ghost(bound): Ghost<int>,
    )
        requires
            tally_within(old(entries)@, bound),
            0 <= bound <= 0x1_0000_0000_0000_0000_0000_0000,
        ensures
            tally_view(final(entries)@) == added(tally_view(old(entries)@), label@, amount as int),
            tally_within(final(entries)@, bound + 0x8000_0000),
    {
        let at = Self::find_label(entries, label);
        proof {
            lemma_first_match(tally_view(entries@), has_label(label@));
        }
        if at < entries.len() {
            let entry = entries.remove(at);
            entries.insert(at, (entry.0, entry.1 + amount as i128));
        } else {
            entries.push((String::from_str(label), amount as i128));
        }
    }

    /// Puts a category that cost something under its label.
    fn put_category(
        entries: &mut Vec<(String, i128)>,
        label: &str,
        amount: i32,
        Ghost(bound): Ghost<int>,
    )
        requires
            tally_within(old(entries)@, bound),
            0x8000_0000 <= bound,
        ensures
            tally_view(final(entries)@) == with_category(
                tally_view(old(entries)@),
                label@,
                amount as int,
            ),
            tally_within(final(entries)@, bound),
    {
        if amount > 0 {
            let at = Self::find_label(entries, label);
            proof {
                lemma_first_match(tally_view(entries@), has_label(label@));
            }
            if at < entries.len() {
                let entry = entries.remove(at);
                entries.insert(at, (entry.0, amount as i128));
            } else {
                entries.push((String::from_str(label), amount as i128));
            }
        }
    }

    /// What the lines cost by item type.
    fn tally_by_type(lines: &Vec<ApItem>) -> (entries: Vec<(String, i128)>)
        ensures
            tally_view(entries@) == type_totals(views(lines@)),
            tally_within(entries@, 0x8000_0000 * (lines@.len() as int + 1)),
    {
        let ghost all = views(lines@);
        let mut entries: Vec<(String, i128)> = Vec::new();
        let mut i: usize = 0;
        while i < lines.len()
            invariant
                i <= lines.len(),
                all == views(lines@),
                tally_view(entries@) == type_totals(all.take(i as int)),
                tally_within(entries@, 0x8000_0000 * (i as int)),
            decreases lines.len() - i,
        {
            let line = &lines[i];
            proof {
                assert(all.take(i + 1).drop_last() =~= all.take(i as int));
            }
            if !line.was_excluded && line.ap_cost != 0 {
                Self::add_to_tally(
                    &mut entries,
                    line.item_type.as_str(),
                    line.ap_cost,
                    Ghost(0x8000_0000 * (i as int)),
                );
            }
            i = i + 1;
        }
        assert(all.take(i as int) =~= all);
        entries
    }

    /// The categories that are not zero, where the amount of each is a
    /// machine integer.
    fn close_tally(entries: Vec<(String, i128)>) -> (r: Option<Vec<(String, i32)>>)
        ensures
            r is Some <==> amounts_fit(tally_view(entries@).filter(is_nonzero())),
            r matches Some(closed) ==> category_view(closed@) == tally_view(entries@).filter(
                is_nonzero(),
            ),
    {
        let ghost input = entries@;
        let ghost listed = tally_view(input);
        let mut closed: Vec<(String, i32)> = Vec::new();
        for entry in it: entries
            invariant
                it.seq() == input,
                listed == tally_view(input),
                category_view(closed@) == listed.take(it.index() as int).filter(is_nonzero()),
        {
            let ghost k = it.index() as int;
            let ghost so_far = closed@;
            proof {
                reveal(Seq::filter);
                assert(listed.take(k + 1).drop_last() =~= listed.take(k));
            }
            if entry.1 != 0 {
                match narrow(entry.1) {
                    Some(amount) => {
                        closed.push((entry.0, amount));
                    },
                    None => {
                        proof {
                            let rest = listed.skip(k + 1);
                            let head = listed.take(k + 1);
                            assert(listed =~= head + rest);
                            let kept = head.filter(is_nonzero());
                            assert(listed.filter(is_nonzero())[kept.len() - 1] == kept.last());
                        }
                        return None;
                    },
                }
            }
        }
        proof {
            assert(listed.take(input.len() as int) =~= listed);
        }
        Some(closed)
    }

    /// What was spent by category, where every amount and the cost of every
    /// item and of every kind of trait are machine integers.
    pub fn try_get_ap_by_category(character: &Character) -> (r: Option<Vec<(String, i32)>>)
        ensures
            r is Some <==> character.categories_fit(),
            r matches Some(categories) ==> category_view(categories@)
                == character.category_totals(),
    {
        let priced = match Self::try_price_items(character) {
            Some(lines) => lines,
            None => {
                return None;
            },
        };
        let rule_names = ["Prinzipientreue", "Verpflichtungen"];
        assert(crate::character::data::texts_of(rule_names@)
            =~= crate::character::duplicates::highest_step_only_names());
        let lines = Self::resolve_duplicates(priced, &rule_names);
        let skills = match Self::checked_skills_ap(character) {
            Some(cost) => cost,
            None => {
                return None;
            },
        };
        let combat_skills = match Self::checked_combat_skills_ap(character) {
            Some(cost) => cost,
            None => {
                return None;
            },
        };
        let spells = match Self::checked_spells_and_rituals_ap(character) {
            Some(cost) => cost,
            None => {
                return None;
            },
        };
        let magic_tricks = match Self::checked_magic_tricks_ap(character) {
            Some(cost) => cost,
            None => {
                return None;
            },
        };
        let liturgies = match Self::checked_liturgies_and_ceremonies_ap(character) {
            Some(cost) => cost,
            None => {
                return None;
            },
        };
        let blessings = match Self::checked_blessings_ap(character) {
            Some(cost) => cost,
            None => {
                return None;
            },
        };
        let characteristics = match Self::checked_characteristics_ap(character) {
            Some(cost) => cost,
            None => {
                return None;
            },
        };
        let energies = match Self::checked_energy_values_ap(character) {
            Some(cost) => cost,
            None => {
                return None;
            },
        };
        let mut entries = Self::tally_by_type(&lines);
        let ghost bound: int = 0x8000_0000 * (lines@.len() as int + 1);
        Self::put_category(&mut entries, "Skills", skills, Ghost(bound));
        Self::put_category(&mut entries, "Combat Skills", combat_skills, Ghost(bound));
        Self::put_category(&mut entries, "Spells/Rituals", spells, Ghost(bound));
        Self::put_category(&mut entries, "Magic Tricks", magic_tricks, Ghost(bound));
        Self::put_category(&mut entries, "Liturgies/Ceremonies", liturgies, Ghost(bound));
        Self::put_category(&mut entries, "Blessings", blessings, Ghost(bound));
        Self::put_category(&mut entries, "Energies (LeP/AsP/KaP)", energies, Ghost(bound));
        Self::put_category(&mut entries, "Characteristics", characteristics, Ghost(bound));
        Self::close_tally(entries)
    }

    /// What was spent by category. A category that cost nothing has no
    /// entry.
    pub fn get_ap_by_category(character: &Character) -> (categories: Vec<(String, i32)>)
        requires
            character.categories_fit(),
        ensures
            category_view(categories@) == character.category_totals(),
    {
        match Self::try_get_ap_by_category(character) {
            Some(categories) => categories,
            None => unreached(),
        }
    }
}

} // verus!
