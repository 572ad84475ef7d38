//! Stable sorting under an order given as a relation.
//!
//! `before(a, b)` reads "`a` may stand before `b`". Elements that may stand
//! before each other are ties and keep the order in which they came.

use vstd::prelude::*;

verus! {

/// `s` with `x` put in behind the last element that may stand before it.
pub open spec fn insert_ordered<T>(s: Seq<T>, x: T, before: spec_fn(T, T) -> bool) -> Seq<T>
    decreases s.len(),
{
    if s.len() == 0 {
        seq![x]
    } else if before(s.last(), x) {
        s.push(x)
    } else {
        insert_ordered(s.drop_last(), x, before).push(s.last())
    }
}

/// The elements of `s` in ascending order, ties in the order in which they
/// stand in `s`.
pub open spec fn stable_sort<T>(s: Seq<T>, before: spec_fn(T, T) -> bool) -> Seq<T>
    decreases s.len(),
{
    if s.len() == 0 {
        s
    } else {
        insert_ordered(stable_sort(s.drop_last(), before), s.last(), before)
    }
}

/// Whether every element of `s` may stand before all that follow it.
pub open spec fn is_sorted<T>(s: Seq<T>, before: spec_fn(T, T) -> bool) -> bool {
    forall|i: int, j: int| 0 <= i < j < s.len() ==> #[trigger] before(s[i], s[j])
}

/// Whether of any two elements one may stand before the other.
pub open spec fn is_total<T>(before: spec_fn(T, T) -> bool) -> bool {
    forall|a: T, b: T| #[trigger] before(a, b) || before(b, a)
}

/// Whether the order carries over from two steps to one.
pub open spec fn is_transitive<T>(before: spec_fn(T, T) -> bool) -> bool {
    forall|a: T, b: T, c: T| #[trigger] before(a, b) && #[trigger] before(b, c) ==> before(a, c)
}

/// Where an element is put in: at `p`, when nothing from `p` on may stand
/// before it and the element just ahead of `p` may.
pub proof fn lemma_insert_ordered_at<T>(s: Seq<T>, x: T, before: spec_fn(T, T) -> bool, p: int)
    requires
        0 <= p <= s.len(),
        forall|j: int| p <= j < s.len() ==> !before(#[trigger] s[j], x),
        p > 0 ==> before(s[p - 1], x),
    ensures
        insert_ordered(s, x, before) == s.insert(p, x),
    decreases s.len() - p,
{
    if s.len() > 0 && p != s.len() {
        let init = s.drop_last();
        lemma_insert_ordered_at(init, x, before, p);
    }
}

/// Putting an element in adds that element and nothing else.
pub proof fn lemma_insert_ordered_multiset<T>(s: Seq<T>, x: T, before: spec_fn(T, T) -> bool)
    ensures
        insert_ordered(s, x, before).len() == s.len() + 1,
        insert_ordered(s, x, before).to_multiset() == s.to_multiset().insert(x),
    decreases s.len(),
{
    broadcast use vstd::seq_lib::group_to_multiset_ensures;

    if s.len() > 0 && !before(s.last(), x) {
        let init = s.drop_last();
        lemma_insert_ordered_multiset(init, x, before);
        assert(init.push(s.last()) =~= s);
    }
}

/// Sorting keeps every element, as often as it occurs.
pub proof fn lemma_stable_sort_permutes<T>(s: Seq<T>, before: spec_fn(T, T) -> bool)
    ensures
        stable_sort(s, before).len() == s.len(),
        stable_sort(s, before).to_multiset() == s.to_multiset(),
    decreases s.len(),
{
    broadcast use vstd::seq_lib::group_to_multiset_ensures;

    if s.len() > 0 {
        let init = s.drop_last();
        lemma_stable_sort_permutes(init, before);
        lemma_insert_ordered_multiset(stable_sort(init, before), s.last(), before);
        assert(init.push(s.last()) =~= s);
    }
}

/// Putting an element in keeps what stands before `y` before `y`.
pub proof fn lemma_insert_ordered_bounded<T>(s: Seq<T>, x: T, before: spec_fn(T, T) -> bool, y: T)
    requires
        forall|i: int| 0 <= i < s.len() ==> #[trigger] before(s[i], y),
        before(x, y),
    ensures
        forall|i: int|
            0 <= i < insert_ordered(s, x, before).len() ==> #[trigger] before(
                insert_ordered(s, x, before)[i],
                y,
            ),
    decreases s.len(),
{
    if s.len() > 0 && !before(s.last(), x) {
        let init = s.drop_last();
        lemma_insert_ordered_bounded(init, x, before, y);
        let mid = insert_ordered(init, x, before);
    }
}

/// Putting an element into a sorted sequence leaves it sorted, under a total
/// and transitive order.
pub proof fn lemma_insert_ordered_sorted<T>(s: Seq<T>, x: T, before: spec_fn(T, T) -> bool)
    requires
        is_total(before),
        is_transitive(before),
        is_sorted(s, before),
    ensures
        is_sorted(insert_ordered(s, x, before), before),
    decreases s.len(),
{
    let out = insert_ordered(s, x, before);
    if s.len() > 0 {
        if before(s.last(), x) {
            assert forall|i: int, j: int| 0 <= i < j < out.len() implies #[trigger] before(
                out[i],
                out[j],
            ) by {
                if j == s.len() && i < s.len() - 1 {
                    assert(before(s[i], s[s.len() - 1]));
                }
            }
        } else {
            let init = s.drop_last();
            let last = s.last();
            lemma_insert_ordered_sorted(init, x, before);
            lemma_insert_ordered_bounded(init, x, before, last);
        }
    }
}

/// What comes out of sorting is sorted, under a total and transitive order.
pub proof fn lemma_stable_sort_sorted<T>(s: Seq<T>, before: spec_fn(T, T) -> bool)
    requires
        is_total(before),
        is_transitive(before),
    ensures
        is_sorted(stable_sort(s, before), before),
    decreases s.len(),
{
    if s.len() > 0 {
        lemma_stable_sort_sorted(s.drop_last(), before);
        lemma_insert_ordered_sorted(stable_sort(s.drop_last(), before), s.last(), before);
    }
}

/// Sorting leaves a sorted sequence as it is.
pub proof fn lemma_stable_sort_of_sorted<T>(s: Seq<T>, before: spec_fn(T, T) -> bool)
    requires
        is_sorted(s, before),
    ensures
        stable_sort(s, before) == s,
    decreases s.len(),
{
    if s.len() > 0 {
        let init = s.drop_last();
        assert(is_sorted(init, before)) by {
            assert forall|i: int, j: int| 0 <= i < j < init.len() implies #[trigger] before(
                init[i],
                init[j],
            ) by {
                assert(before(s[i], s[j]));
            }
        }
        lemma_stable_sort_of_sorted(init, before);
        if init.len() > 0 {
            assert(before(s[init.len() - 1], s[s.len() - 1]));
        }
        assert(init.push(s.last()) =~= s);
    }
}

/// Sorting twice gives what sorting once gives, under a total and transitive
/// order.
pub proof fn lemma_stable_sort_twice<T>(s: Seq<T>, before: spec_fn(T, T) -> bool)
    requires
        is_total(before),
        is_transitive(before),
    ensures
        stable_sort(stable_sort(s, before), before) == stable_sort(s, before),
{
    lemma_stable_sort_sorted(s, before);
    lemma_stable_sort_of_sorted(stable_sort(s, before), before);
}

/// Putting in commutes with a change of representation that keeps the order.
pub proof fn lemma_insert_ordered_map<A, B>(
    s: Seq<A>,
    x: A,
    f: spec_fn(A) -> B,
    before_a: spec_fn(A, A) -> bool,
    before_b: spec_fn(B, B) -> bool,
)
    requires
        forall|a: A, b: A| #[trigger] before_a(a, b) == before_b(f(a), f(b)),
    ensures
        insert_ordered(s, x, before_a).map_values(f) == insert_ordered(
            s.map_values(f),
            f(x),
            before_b,
        ),
    decreases s.len(),
{
    let t = s.map_values(f);
    if s.len() > 0 && !before_a(s.last(), x) {
        lemma_insert_ordered_map(s.drop_last(), x, f, before_a, before_b);
        assert(s.drop_last().map_values(f) =~= t.drop_last());
    }
}

/// Sorting commutes with a change of representation that keeps the order.
pub proof fn lemma_stable_sort_map<A, B>(
    s: Seq<A>,
    f: spec_fn(A) -> B,
    before_a: spec_fn(A, A) -> bool,
    before_b: spec_fn(B, B) -> bool,
)
    requires
        forall|a: A, b: A| #[trigger] before_a(a, b) == before_b(f(a), f(b)),
    ensures
        stable_sort(s, before_a).map_values(f) == stable_sort(s.map_values(f), before_b),
    decreases s.len(),
{
    let t = s.map_values(f);
    if s.len() > 0 {
        lemma_stable_sort_map(s.drop_last(), f, before_a, before_b);
        assert(s.drop_last().map_values(f) =~= t.drop_last());
        lemma_insert_ordered_map(
            stable_sort(s.drop_last(), before_a),
            s.last(),
            f,
            before_a,
            before_b,
        );
    }
}

/// Sorts `v`, ties in the order in which they came. `le` decides the order
/// that `before` states.
pub fn sort_by<T, F: Fn(&T, &T) -> bool>(
    v: Vec<T>,
    le: F,
    Ghost(before): Ghost<spec_fn(T, T) -> bool>,
) -> (out: Vec<T>)
    requires
        forall|a: &T, b: &T| le.requires((a, b)),
        forall|a: &T, b: &T, r: bool| le.ensures((a, b), r) ==> r == before(*a, *b),
    ensures
        out@ == stable_sort(v@, before),
{
    let ghost input = v@;
    let mut out: Vec<T> = Vec::new();
    for x in it: v
        invariant
            it.seq() == input,
            out@ == stable_sort(input.take(it.index() as int), before),
            forall|a: &T, b: &T| le.requires((a, b)),
            forall|a: &T, b: &T, r: bool| le.ensures((a, b), r) ==> r == before(*a, *b),
    {
        let ghost k = it.index() as int;
        let mut p: usize = out.len();
        while p > 0 && !le(&out[p - 1], &x)
            invariant
                p <= out.len(),
                forall|j: int| p <= j < out.len() ==> !before(#[trigger] out@[j], x),
                forall|a: &T, b: &T| le.requires((a, b)),
                forall|a: &T, b: &T, r: bool| le.ensures((a, b), r) ==> r == before(*a, *b),
            decreases p,
        {
            p = p - 1;
        }
        proof {
            lemma_insert_ordered_at(out@, x, before, p as int);
            assert(input.take(k + 1).drop_last() =~= input.take(k));
        }
        out.insert(p, x);
    }
    assert(input.take(input.len() as int) =~= input);
    out
}

} // verus!
