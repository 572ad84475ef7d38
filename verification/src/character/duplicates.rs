//! Purchases of which only the highest step counts.
//!
//! Some traits may be bought more than once, each time with another
//! qualifier in parentheses behind the name. Of the purchases that share such
//! a base name only the one with the highest step is paid for; the others
//! stay in the breakdown, marked as excluded.

use crate::character::analysis::{
    base_name, view_of, views, ApCalculator, ApItem, ApItemView,
};
use crate::character::data::texts_of;
use crate::sequences::{
    lemma_filter_drops_first, lemma_filter_map_values, negation, partition,
};
use crate::sorting::{lemma_stable_sort_map, sort_by, stable_sort};
use vstd::prelude::*;
use vstd::string::*;

verus! {

/// The step of a line; 1 where it has none.
pub open spec fn step_of(line: ApItemView) -> int {
    match line.step {
        Some(step) => step,
        None => 1,
    }
}

/// The order of lines by step, highest first.
pub open spec fn by_step_descending() -> spec_fn(ApItemView, ApItemView) -> bool {
    |a: ApItemView, b: ApItemView| step_of(a) >= step_of(b)
}

/// The lines with the base name `base`.
pub open spec fn shares_base(base: Seq<char>) -> spec_fn(ApItemView) -> bool {
    |line: ApItemView| base_name(line.name) == base
}

/// The lines with another base name than `base`.
pub open spec fn other_base(base: Seq<char>) -> spec_fn(ApItemView) -> bool {
    |line: ApItemView| base_name(line.name) != base
}

/// The lines whose base name is one of `rule_names`.
pub open spec fn under_rule(rule_names: Seq<Seq<char>>) -> spec_fn(ApItemView) -> bool {
    |line: ApItemView| rule_names.contains(base_name(line.name))
}

/// The lines whose base name is none of `rule_names`.
pub open spec fn free_of_rule(rule_names: Seq<Seq<char>>) -> spec_fn(ApItemView) -> bool {
    |line: ApItemView| !rule_names.contains(base_name(line.name))
}

/// The line, marked as excluded.
pub open spec fn excluded(line: ApItemView) -> ApItemView {
    ApItemView { was_excluded: true, ..line }
}

/// A group of lines with its first as it is and all others marked as
/// excluded.
pub open spec fn all_but_first_excluded(group: Seq<ApItemView>) -> Seq<ApItemView> {
    Seq::new(
        group.len(),
        |i: int|
            if i == 0 {
                group[i]
            } else {
                excluded(group[i])
            },
    )
}

/// A group of lines that share a base name, highest step first, and all but
/// the first marked as excluded. Of several lines with the highest step the
/// one that came first is kept.
pub open spec fn highest_step_only(group: Seq<ApItemView>) -> Seq<ApItemView> {
    all_but_first_excluded(stable_sort(group, by_step_descending()))
}

/// The groups of `pending`, each with only its highest step kept, in the
/// order in which their base names first occur.
pub open spec fn resolved_groups(pending: Seq<ApItemView>) -> Seq<ApItemView>
    decreases pending.len(),
    via resolved_groups_decreases
{
    if pending.len() == 0 {
        Seq::empty()
    } else {
        let base = base_name(pending[0].name);
        highest_step_only(pending.filter(shares_base(base))) + resolved_groups(
            pending.filter(other_base(base)),
        )
    }
}

#[via_fn]
proof fn resolved_groups_decreases(pending: Seq<ApItemView>) {
    if pending.len() > 0 {
        lemma_filter_drops_first(pending, other_base(base_name(pending[0].name)));
    }
}

/// The lines after the rule was applied: first those that the rule does not
/// touch, in their order; then the groups of those that it does.
pub open spec fn duplicates_resolved(lines: Seq<ApItemView>, rule_names: Seq<Seq<char>>) -> Seq<
    ApItemView,
> {
    lines.filter(free_of_rule(rule_names)) + resolved_groups(lines.filter(under_rule(rule_names)))
}

/// The base names of which only the highest step counts.
pub open spec fn highest_step_only_names() -> Seq<Seq<char>> {
    seq!["Prinzipientreue"@, "Verpflichtungen"@]
}

impl ApCalculator {
    /// Whether the base name of `name` is one of `rule_names`.
    pub fn is_under_rule(name: &str, rule_names: &[&str]) -> (r: bool)
        ensures
            r == texts_of(rule_names@).contains(base_name(name@)),
    {
        let base = Self::extract_base_name(name);
        let ghost wanted = texts_of(rule_names@);
        let mut i: usize = 0;
        while i < rule_names.len()
            invariant
                i <= rule_names.len(),
                wanted == texts_of(rule_names@),
                base@ == base_name(name@),
                forall|j: int| 0 <= j < i ==> wanted[j] != base@,
            decreases rule_names.len() - i,
        {
            let candidate = String::from_str(rule_names[i]);
            assert(wanted[i as int] == rule_names@[i as int]@);
            if candidate == base {
                return true;
            }
            i = i + 1;
        }
        false
    }

    /// Puts the lines of `group` behind `out`, the first as it is and all
    /// others marked as excluded.
    fn push_all_but_first_excluded(out: &mut Vec<ApItem>, group: Vec<ApItem>)
        ensures
            views(final(out)@) == views(old(out)@) + all_but_first_excluded(views(group@)),
    {
        let ghost start = views(out@);
        let ghost input = group@;
        let ghost marked = all_but_first_excluded(views(input));
        let mut first = true;
        for line in it: group
            invariant
                it.seq() == input,
                marked == all_but_first_excluded(views(input)),
                first == (it.index() == 0),
                views(out@) == start + marked.take(it.index() as int),
        {
            let ghost k = it.index() as int;
            let ghost so_far = out@;
            let mut line = line;
            if !first {
                line.was_excluded = true;
            }
            first = false;
            out.push(line);
            proof {
                assert(views(out@) =~= views(so_far).push(line@));
            }
        }
    }

    /// Applies the rule that only the highest step counts to the lines whose
    /// base name is one of `rule_names`.
    pub fn resolve_duplicates(lines: Vec<ApItem>, rule_names: &[&str]) -> (r: Vec<ApItem>)
        ensures
            views(r@) == duplicates_resolved(views(lines@), texts_of(rule_names@)),
    {
        let ghost rules = texts_of(rule_names@);
        let ghost input = lines@;
        let ghost ruled = |line: ApItem| rules.contains(base_name(line.name@));
        let falls_under = |line: &ApItem| -> (b: bool)
            ensures
                b == texts_of(rule_names@).contains(base_name(line.name@)),
            { ApCalculator::is_under_rule(line.name.as_str(), rule_names) };
        let (pending, regular) = partition(lines, falls_under, Ghost(ruled));
        proof {
            lemma_filter_map_values(input, view_of(), ruled, under_rule(rules));
            lemma_filter_map_values(input, view_of(), negation(ruled), free_of_rule(rules));
        }
        let mut out = regular;
        let mut pending = pending;
        while pending.len() > 0
            invariant
                views(out@) + resolved_groups(views(pending@)) == duplicates_resolved(
                    views(input),
                    rules,
                ),
            decreases pending.len(),
        {
            let ghost waiting = pending@;
            let ghost done = views(out@);
            let base = Self::extract_base_name(pending[0].name.as_str());
            let ghost base_text = base@;
            let ghost grouped = |line: ApItem| base_name(line.name@) == base_text;
            let shares = |line: &ApItem| -> (b: bool)
                ensures
                    b == (base_name(line.name@) == base@),
                { ApCalculator::extract_base_name(line.name.as_str()) == base };
            let (group, rest) = partition(pending, shares, Ghost(grouped));
            proof {
                lemma_filter_map_values(waiting, view_of(), grouped, shares_base(base_text));
                lemma_filter_map_values(
                    waiting,
                    view_of(),
                    negation(grouped),
                    other_base(base_text),
                );
                lemma_filter_drops_first(views(waiting), other_base(base_text));
            }
            let ghost unranked = group@;
            let ghost by_step = |a: ApItem, b: ApItem| step_of(a@) >= step_of(b@);
            let step_ge = |a: &ApItem, b: &ApItem| -> (ge: bool)
                ensures
                    ge == (step_of(a@) >= step_of(b@)),
                {
                    let step_a = match a.step {
                        Some(step) => step,
                        None => 1,
                    };
                    let step_b = match b.step {
                        Some(step) => step,
                        None => 1,
                    };
                    step_a >= step_b
                };
            let ranked = sort_by(group, step_ge, Ghost(by_step));
            proof {
                lemma_stable_sort_map(unranked, view_of(), by_step, by_step_descending());
            }
            Self::push_all_but_first_excluded(&mut out, ranked);
            pending = rest;
        }
        out
    }
}

} // verus!
