//! Selecting from sequences, and how selection goes with a change of
//! representation.

use vstd::prelude::*;

verus! {

/// Selecting commutes with a change of representation that keeps the
/// criterion.
pub proof fn lemma_filter_map_values<A, B>(
    s: Seq<A>,
    f: spec_fn(A) -> B,
    keep_a: spec_fn(A) -> bool,
    keep_b: spec_fn(B) -> bool,
)
    requires
        forall|a: A| #[trigger] keep_a(a) == keep_b(f(a)),
    ensures
        s.filter(keep_a).map_values(f) == s.map_values(f).filter(keep_b),
    decreases s.len(),
{
    reveal(Seq::filter);
    let t = s.map_values(f);
    if s.len() > 0 {
        lemma_filter_map_values(s.drop_last(), f, keep_a, keep_b);
        assert(s.drop_last().map_values(f) =~= t.drop_last());
    }
}

/// A selection that leaves out the first element is shorter than the
/// sequence.
pub proof fn lemma_filter_drops_first<A>(s: Seq<A>, keep: spec_fn(A) -> bool)
    requires
        s.len() > 0,
        !keep(s[0]),
    ensures
        s.filter(keep).len() < s.len(),
{
    reveal_with_fuel(Seq::filter, 3);
    let head = seq![s[0]];
    let tail = s.skip(1);
    assert(s =~= head + tail);
}

/// The criterion that accepts what `keep` refuses.
pub open spec fn negation<T>(keep: spec_fn(T) -> bool) -> spec_fn(T) -> bool {
    |x: T| !keep(x)
}

/// Parts `v` into what `keep` accepts and what it does not, each in the
/// order in which it came. `kept` states what `keep` decides.
pub fn partition<T, F: Fn(&T) -> bool>(
    v: Vec<T>,
    keep: F,
    Ghost(kept): Ghost<spec_fn(T) -> bool>,
) -> (r: (Vec<T>, Vec<T>))
    requires
        forall|x: &T| keep.requires((x,)),
        forall|x: &T, b: bool| keep.ensures((x,), b) ==> b == kept(*x),
    ensures
        r.0@ == v@.filter(kept),
        r.1@ == v@.filter(negation(kept)),
{
    let ghost input = v@;
    let ghost others = negation(kept);
    let mut accepted: Vec<T> = Vec::new();
    let mut refused: Vec<T> = Vec::new();
    for x in it: v
        invariant
            it.seq() == input,
            others == negation(kept),
            accepted@ == input.take(it.index() as int).filter(kept),
            refused@ == input.take(it.index() as int).filter(others),
            forall|x: &T| keep.requires((x,)),
            forall|x: &T, b: bool| keep.ensures((x,), b) ==> b == kept(*x),
    {
        let ghost k = it.index() as int;
        proof {
            reveal(Seq::filter);
            assert(input.take(k + 1).drop_last() =~= input.take(k));
        }
        if keep(&x) {
            accepted.push(x);
        } else {
            refused.push(x);
        }
    }
    assert(input.take(input.len() as int) =~= input);
    (accepted, refused)
}

/// The sum of what `amount` gives for each element of `s`.
pub open spec fn sum_over<T>(s: Seq<T>, amount: spec_fn(T) -> int) -> int
    decreases s.len(),
{
    if s.len() == 0 {
        0
    } else {
        sum_over(s.drop_last(), amount) + amount(s.last())
    }
}

/// `x` as a machine integer, where it is one.
pub open spec fn checked_i32(x: int) -> Option<i32> {
    if i32::MIN <= x <= i32::MAX {
        Some(x as i32)
    } else {
        None
    }
}

/// Where no element gives less than nothing, no part of the sum is more
/// than the whole, and the sum of the first `k` elements is not.
pub proof fn lemma_sum_over_prefix<T>(s: Seq<T>, amount: spec_fn(T) -> int, k: int)
    requires
        forall|i: int| 0 <= i < s.len() ==> amount(#[trigger] s[i]) >= 0,
        0 <= k <= s.len(),
    ensures
        0 <= sum_over(s.take(k), amount) <= sum_over(s, amount),
        k < s.len() ==> sum_over(s.take(k), amount) + amount(s[k]) <= sum_over(s, amount),
    decreases s.len(),
{
    if s.len() > 0 {
        let init = s.drop_last();
        if k == s.len() {
            assert(s.take(k) =~= s);
            lemma_sum_over_prefix(init, amount, k - 1);
        } else {
            lemma_sum_over_prefix(init, amount, k);
            assert(init.take(k) =~= s.take(k));
        }
    }
}

/// Summing commutes with a change of representation that keeps the amounts.
pub proof fn lemma_sum_over_map_values<A, B>(
    s: Seq<A>,
    f: spec_fn(A) -> B,
    amount_a: spec_fn(A) -> int,
    amount_b: spec_fn(B) -> int,
)
    requires
        forall|a: A| #[trigger] amount_a(a) == amount_b(f(a)),
    ensures
        sum_over(s, amount_a) == sum_over(s.map_values(f), amount_b),
    decreases s.len(),
{
    let t = s.map_values(f);
    if s.len() > 0 {
        lemma_sum_over_map_values(s.drop_last(), f, amount_a, amount_b);
        assert(s.drop_last().map_values(f) =~= t.drop_last());
    }
}

/// The sum of amounts of which none is less than nothing, where it is a
/// machine integer. `term` computes what `amount` states, where that is a
/// machine integer.
pub fn sum_checked<T, F: Fn(&T) -> Option<i32>>(
    items: &[T],
    term: F,
    Ghost(amount): Ghost<spec_fn(T) -> int>,
) -> (r: Option<i32>)
    requires
        forall|x: T| #[trigger] amount(x) >= 0,
        forall|x: &T| term.requires((x,)),
        forall|x: &T, r: Option<i32>| term.ensures((x,), r) ==> r == checked_i32(amount(*x)),
    ensures
        r == checked_i32(sum_over(items@, amount)),
{
    let mut total: i32 = 0;
    let mut i: usize = 0;
    while i < items.len()
        invariant
            i <= items.len(),
            total == sum_over(items@.take(i as int), amount),
            total >= 0,
            forall|x: T| #[trigger] amount(x) >= 0,
            forall|x: &T| term.requires((x,)),
            forall|x: &T, r: Option<i32>| term.ensures((x,), r) ==> r == checked_i32(amount(*x)),
        decreases items.len() - i,
    {
        proof {
            assert(items@.take(i + 1).drop_last() =~= items@.take(i as int));
            lemma_sum_over_prefix(items@, amount, i as int);
        }
        let next = match term(&items[i]) {
            Some(cost) => total.checked_add(cost),
            None => None,
        };
        match next {
            Some(sum) => {
                total = sum;
            },
            None => {
                return None;
            },
        }
        i = i + 1;
    }
    assert(items@.take(i as int) =~= items@);
    Some(total)
}

/// The sum of amounts that are machine integers, whatever it comes to.
pub fn sum_exact<T, F: Fn(&T) -> i32>(
    items: &[T],
    term: F,
    Ghost(amount): Ghost<spec_fn(T) -> int>,
) -> (r: i128)
    requires
        forall|x: &T| term.requires((x,)),
        forall|x: &T, r: i32| term.ensures((x,), r) ==> r == amount(*x),
    ensures
        r == sum_over(items@, amount),
        -0x8000_0000 * items@.len() <= r <= 0x8000_0000 * items@.len(),
{
    let mut total: i128 = 0;
    let mut i: usize = 0;
    while i < items.len()
        invariant
            i <= items.len(),
            total == sum_over(items@.take(i as int), amount),
            -0x8000_0000 * i <= total <= 0x8000_0000 * i,
            forall|x: &T| term.requires((x,)),
            forall|x: &T, r: i32| term.ensures((x,), r) ==> r == amount(*x),
        decreases items.len() - i,
    {
        proof {
            assert(items@.take(i + 1).drop_last() =~= items@.take(i as int));
        }
        let cost = term(&items[i]);
        total = total + cost as i128;
        i = i + 1;
    }
    assert(items@.take(i as int) =~= items@);
    total
}

/// The position of the first element that `wanted` accepts, or the length of
/// `s` where it accepts none.
pub open spec fn first_match<T>(s: Seq<T>, wanted: spec_fn(T) -> bool) -> int
    decreases s.len(),
{
    if s.len() == 0 {
        0
    } else if wanted(s[0]) {
        0
    } else {
        1 + first_match(s.skip(1), wanted)
    }
}

/// The first match lies within the sequence or at its end, and nothing
/// before it is accepted.
pub proof fn lemma_first_match<T>(s: Seq<T>, wanted: spec_fn(T) -> bool)
    ensures
        0 <= first_match(s, wanted) <= s.len(),
        forall|i: int| 0 <= i < first_match(s, wanted) ==> !wanted(#[trigger] s[i]),
        first_match(s, wanted) < s.len() ==> wanted(s[first_match(s, wanted)]),
    decreases s.len(),
{
    if s.len() > 0 && !wanted(s[0]) {
        let rest = s.skip(1);
        lemma_first_match(rest, wanted);
        assert forall|i: int| 0 <= i < first_match(s, wanted) implies !wanted(#[trigger] s[i]) by {
            if i > 0 {
                assert(s[i] == rest[i - 1]);
            }
        }
    }
}

/// A position whose element is accepted, with none accepted before it, is
/// the first match; so is the length where none is accepted.
pub proof fn lemma_first_match_is<T>(s: Seq<T>, wanted: spec_fn(T) -> bool, k: int)
    requires
        0 <= k <= s.len(),
        forall|i: int| 0 <= i < k ==> !wanted(#[trigger] s[i]),
        k < s.len() ==> wanted(s[k]),
    ensures
        first_match(s, wanted) == k,
    decreases k,
{
    if k > 0 {
        let rest = s.skip(1);
        lemma_first_match_is(rest, wanted, k - 1);
    }
}

} // verus!
