//! What holds of the rule that only the highest step counts.

use crate::character::analysis::ApItemView;
use crate::character::duplicates::{
    all_but_first_excluded, by_step_descending, duplicates_resolved, excluded, free_of_rule,
    highest_step_only, other_base, resolved_groups, shares_base, step_of, under_rule,
};
use crate::character::analysis::base_name;
use crate::character::ledger::contribution;
use crate::sequences::{lemma_filter_drops_first, sum_over};
use crate::sorting::{insert_ordered, lemma_stable_sort_permutes, stable_sort};
use vstd::prelude::*;

verus! {

/// The place of the line with the highest step; of several with the highest
/// step, the place of the first.
pub open spec fn first_highest(group: Seq<ApItemView>) -> int
    decreases group.len(),
{
    if group.len() <= 1 {
        0
    } else {
        let before = first_highest(group.drop_last());
        if step_of(group.last()) > step_of(group[before]) {
            group.len() - 1
        } else {
            before
        }
    }
}

/// The line at the place of the highest step has a step that none exceeds
/// and that none before it reaches.
pub proof fn lemma_first_highest(group: Seq<ApItemView>)
    requires
        group.len() > 0,
    ensures
        0 <= first_highest(group) < group.len(),
        forall|j: int|
            0 <= j < group.len() ==> step_of(#[trigger] group[j]) <= step_of(
                group[first_highest(group)],
            ),
        forall|j: int|
            0 <= j < first_highest(group) ==> step_of(#[trigger] group[j]) < step_of(
                group[first_highest(group)],
            ),
    decreases group.len(),
{
    if group.len() > 1 {
        let init = group.drop_last();
        lemma_first_highest(init);
        assert forall|j: int| 0 <= j < group.len() implies step_of(#[trigger] group[j]) <= step_of(
            group[first_highest(group)],
        ) by {
            if j < init.len() {
                assert(group[j] == init[j]);
            }
        }
        assert forall|j: int| 0 <= j < first_highest(group) implies step_of(#[trigger] group[j])
            < step_of(group[first_highest(group)]) by {
            assert(group[j] == init[j]);
        }
    }
}

/// What stands first after an element was put in: the element, where
/// nothing may stand before it; else what stood first.
pub proof fn lemma_insert_ordered_head<T>(s: Seq<T>, x: T, before: spec_fn(T, T) -> bool)
    ensures
        insert_ordered(s, x, before).len() == s.len() + 1,
        (exists|i: int| 0 <= i < s.len() && before(#[trigger] s[i], x)) ==> insert_ordered(
            s,
            x,
            before,
        )[0] == s[0],
        (forall|i: int| 0 <= i < s.len() ==> !before(#[trigger] s[i], x)) ==> insert_ordered(
            s,
            x,
            before,
        )[0] == x,
    decreases s.len(),
{
    if s.len() > 0 && !before(s.last(), x) {
        let init = s.drop_last();
        lemma_insert_ordered_head(init, x, before);
        if exists|i: int| 0 <= i < s.len() && before(#[trigger] s[i], x) {
            let i = choose|i: int| 0 <= i < s.len() && before(#[trigger] s[i], x);
            assert(init[i] == s[i]);
        }
    }
}

/// Sorted by step, highest first, a group begins with its line of the
/// highest step; of several with the highest step, with the first.
pub proof fn lemma_ranked_group_head(group: Seq<ApItemView>)
    requires
        group.len() > 0,
    ensures
        stable_sort(group, by_step_descending()).len() == group.len(),
        stable_sort(group, by_step_descending())[0] == group[first_highest(group)],
    decreases group.len(),
{
    broadcast use vstd::seq_lib::group_to_multiset_ensures;

    let order = by_step_descending();
    if group.len() == 1 {
        assert(stable_sort(group.drop_last(), order) =~= Seq::<ApItemView>::empty());
    } else {
        let init = group.drop_last();
        let last = group.last();
        let ranked = stable_sort(init, order);
        lemma_ranked_group_head(init);
        lemma_first_highest(init);
        lemma_stable_sort_permutes(init, order);
        lemma_insert_ordered_head(ranked, last, order);
        let top = first_highest(init);
        if step_of(last) > step_of(init[top]) {
            assert forall|i: int| 0 <= i < ranked.len() implies !order(
                #[trigger] ranked[i],
                last,
            ) by {
                assert(ranked.to_multiset().count(ranked[i]) > 0);
            }
        }
    }
}

/// Where all lines but the first are excluded, only the first adds to the
/// total.
pub proof fn lemma_excluded_lines_add_nothing(group: Seq<ApItemView>)
    requires
        group.len() > 0,
    ensures
        sum_over(all_but_first_excluded(group), contribution()) == contribution()(group[0]),
    decreases group.len(),
{
    let marked = all_but_first_excluded(group);
    if group.len() == 1 {
        assert(sum_over(marked.drop_last(), contribution()) == 0);
    } else {
        let init = group.drop_last();
        lemma_excluded_lines_add_nothing(init);
        assert(marked.drop_last() =~= all_but_first_excluded(init));
    }
}

/// Of a group of lines under the rule only the line with the highest step
/// adds to the total; of several with the highest step, the one that came
/// first. It stands first in the group as it is, every other line is kept
/// and marked as excluded.
pub proof fn lemma_only_highest_step_counts(group: Seq<ApItemView>)
    requires
        group.len() > 0,
    ensures
        highest_step_only(group).len() == group.len(),
        highest_step_only(group)[0] == group[first_highest(group)],
        forall|i: int|
            1 <= i < group.len() ==> (#[trigger] highest_step_only(group)[i]).was_excluded,
        forall|i: int|
            1 <= i < group.len() ==> exists|j: int|
                0 <= j < group.len() && #[trigger] highest_step_only(group)[i] == excluded(
                    #[trigger] group[j],
                ),
        sum_over(highest_step_only(group), contribution()) == contribution()(
            group[first_highest(group)],
        ),
{
    broadcast use vstd::seq_lib::group_to_multiset_ensures;

    let ranked = stable_sort(group, by_step_descending());
    lemma_ranked_group_head(group);
    lemma_stable_sort_permutes(group, by_step_descending());
    lemma_excluded_lines_add_nothing(ranked);
    let out = highest_step_only(group);
    assert forall|i: int| 1 <= i < group.len() implies exists|j: int|
        0 <= j < group.len() && #[trigger] out[i] == excluded(#[trigger] group[j]) by {
        assert(ranked.to_multiset().count(ranked[i]) > 0);
    }
}

/// A criterion and its opposite part a sequence: what one selects and what
/// the other selects have together the length of the sequence.
pub proof fn lemma_filter_parts_lengths(
    s: Seq<ApItemView>,
    keep: spec_fn(ApItemView) -> bool,
    others: spec_fn(ApItemView) -> bool,
)
    requires
        forall|line: ApItemView| #[trigger] keep(line) == !others(line),
    ensures
        s.filter(keep).len() + s.filter(others).len() == s.len(),
    decreases s.len(),
{
    reveal(Seq::filter);
    if s.len() > 0 {
        lemma_filter_parts_lengths(s.drop_last(), keep, others);
    }
}

/// The rule keeps every line: as many lines leave the groups as went in.
pub proof fn lemma_resolved_groups_len(pending: Seq<ApItemView>)
    ensures
        resolved_groups(pending).len() == pending.len(),
    decreases pending.len(),
{
    if pending.len() > 0 {
        let base = base_name(pending[0].name);
        let group = pending.filter(shares_base(base));
        let rest = pending.filter(other_base(base));
        lemma_filter_drops_first(pending, other_base(base));
        lemma_filter_parts_lengths(pending, shares_base(base), other_base(base));
        lemma_resolved_groups_len(rest);
        lemma_stable_sort_permutes(group, by_step_descending());
    }
}

/// The rule keeps every line, and leaves the lines that it does not touch
/// as they are, in their order, ahead of all others.
pub proof fn lemma_duplicates_resolved_keeps_lines(
    lines: Seq<ApItemView>,
    rule_names: Seq<Seq<char>>,
)
    ensures
        duplicates_resolved(lines, rule_names).len() == lines.len(),
        duplicates_resolved(lines, rule_names).take(
            lines.filter(free_of_rule(rule_names)).len() as int,
        ) == lines.filter(free_of_rule(rule_names)),
        sum_over(duplicates_resolved(lines, rule_names), contribution()) == sum_over(
            lines.filter(free_of_rule(rule_names)),
            contribution(),
        ) + sum_over(resolved_groups(lines.filter(under_rule(rule_names))), contribution()),
{
    let free = lines.filter(free_of_rule(rule_names));
    let ruled = lines.filter(under_rule(rule_names));
    lemma_filter_parts_lengths(lines, free_of_rule(rule_names), under_rule(rule_names));
    lemma_resolved_groups_len(ruled);
    lemma_sum_over_add(free, resolved_groups(ruled), contribution());
}

/// What the groups of lines under the rule add to the total: for each base
/// name what its line with the highest step adds, and nothing more.
pub proof fn lemma_resolved_groups_total(pending: Seq<ApItemView>)
    requires
        pending.len() > 0,
    ensures
        sum_over(resolved_groups(pending), contribution()) == contribution()(
            pending.filter(shares_base(base_name(pending[0].name)))[first_highest(
                pending.filter(shares_base(base_name(pending[0].name))),
            )],
        ) + sum_over(
            resolved_groups(pending.filter(other_base(base_name(pending[0].name)))),
            contribution(),
        ),
{
    let base = base_name(pending[0].name);
    let group = pending.filter(shares_base(base));
    let rest = pending.filter(other_base(base));
    assert(group.len() > 0) by {
        lemma_filter_drops_first(pending, other_base(base));
        lemma_filter_parts_lengths(pending, shares_base(base), other_base(base));
    }
    lemma_only_highest_step_counts(group);
    lemma_sum_over_add(highest_step_only(group), resolved_groups(rest), contribution());
}

/// The sum over two sequences, one behind the other, is the sum of their
/// sums.
pub proof fn lemma_sum_over_add<T>(a: Seq<T>, b: Seq<T>, amount: spec_fn(T) -> int)
    ensures
        sum_over(a + b, amount) == sum_over(a, amount) + sum_over(b, amount),
    decreases b.len(),
{
    if b.len() > 0 {
        lemma_sum_over_add(a, b.drop_last(), amount);
        assert((a + b).drop_last() =~= a + b.drop_last());
    }
}

} // verus!
