//! White space, trimming, and cutting a text at a separator.

use vstd::prelude::*;

verus! {

/// Whether `c` is white space: one of the code points that Unicode gives the
/// property `White_Space`.
pub open spec fn is_white_space(c: char) -> bool {
    ||| '\u{9}' <= c <= '\u{d}'
    ||| c == ' '
    ||| c == '\u{85}'
    ||| c == '\u{a0}'
    ||| c == '\u{1680}'
    ||| '\u{2000}' <= c <= '\u{200a}'
    ||| c == '\u{2028}'
    ||| c == '\u{2029}'
    ||| c == '\u{202f}'
    ||| c == '\u{205f}'
    ||| c == '\u{3000}'
}

/// How many characters of white space `s` begins with.
pub open spec fn leading_space(s: Seq<char>) -> nat
    decreases s.len(),
{
    if s.len() > 0 && is_white_space(s[0]) {
        1 + leading_space(s.skip(1))
    } else {
        0
    }
}

/// How many characters of white space `s` ends with.
pub open spec fn trailing_space(s: Seq<char>) -> nat
    decreases s.len(),
{
    if s.len() > 0 && is_white_space(s.last()) {
        1 + trailing_space(s.drop_last())
    } else {
        0
    }
}

/// `s` without the white space at its start.
pub open spec fn trim_start(s: Seq<char>) -> Seq<char> {
    s.skip(leading_space(s) as int)
}

/// `s` without the white space at its end.
pub open spec fn trim_end(s: Seq<char>) -> Seq<char> {
    s.take(s.len() - trailing_space(s))
}

/// `s` without the white space at its start and at its end.
pub open spec fn trim(s: Seq<char>) -> Seq<char> {
    trim_end(trim_start(s))
}

/// The position of the first `c` in `s`, or the length of `s` where there is
/// none.
pub open spec fn first_index_of(s: Seq<char>, c: char) -> int
    decreases s.len(),
{
    if s.len() == 0 {
        0
    } else if s[0] == c {
        0
    } else {
        1 + first_index_of(s.skip(1), c)
    }
}

/// Whether `c` occurs in `s`.
pub open spec fn has_char(s: Seq<char>, c: char) -> bool {
    first_index_of(s, c) < s.len()
}

/// The parts that `s` falls into when it is cut at every `sep`. There is
/// always one part more than there are separators, so at least one.
pub open spec fn split(s: Seq<char>, sep: char) -> Seq<Seq<char>>
    decreases s.len(),
{
    let k = first_index_of(s, sep);
    if 0 <= k < s.len() {
        seq![s.take(k)] + split(s.skip(k + 1), sep)
    } else {
        seq![s]
    }
}

/// The leading white space is white space, ends before a character that is
/// none, and is no longer than the text.
pub proof fn lemma_leading_space(s: Seq<char>)
    ensures
        leading_space(s) <= s.len(),
        forall|i: int| 0 <= i < leading_space(s) ==> is_white_space(#[trigger] s[i]),
        leading_space(s) < s.len() ==> !is_white_space(s[leading_space(s) as int]),
    decreases s.len(),
{
    if s.len() > 0 && is_white_space(s[0]) {
        let rest = s.skip(1);
        lemma_leading_space(rest);
        assert forall|i: int| 0 <= i < leading_space(s) implies is_white_space(#[trigger] s[i]) by {
            if i > 0 {
                assert(s[i] == rest[i - 1]);
            }
        }
    }
}

/// The trailing white space is white space, begins after a character that is
/// none, and is no longer than the text.
pub proof fn lemma_trailing_space(s: Seq<char>)
    ensures
        trailing_space(s) <= s.len(),
        forall|i: int|
            s.len() - trailing_space(s) <= i < s.len() ==> is_white_space(#[trigger] s[i]),
        trailing_space(s) < s.len() ==> !is_white_space(s[s.len() - trailing_space(s) - 1]),
    decreases s.len(),
{
    if s.len() > 0 && is_white_space(s.last()) {
        let init = s.drop_last();
        lemma_trailing_space(init);
        assert forall|i: int| s.len() - trailing_space(s) <= i < s.len() implies is_white_space(
            #[trigger] s[i],
        ) by {
            if i < s.len() - 1 {
                assert(s[i] == init[i]);
            }
        }
    }
}

/// A run of white space followed by a character that is none is the whole
/// leading white space.
pub proof fn lemma_leading_space_is(s: Seq<char>, n: int)
    requires
        0 <= n <= s.len(),
        forall|i: int| 0 <= i < n ==> is_white_space(#[trigger] s[i]),
        n < s.len() ==> !is_white_space(s[n]),
    ensures
        leading_space(s) == n,
    decreases n,
{
    if n > 0 {
        let rest = s.skip(1);
        lemma_leading_space_is(rest, n - 1);
    }
}

/// A run of white space at the end, after a character that is none, is the
/// whole trailing white space.
pub proof fn lemma_trailing_space_is(s: Seq<char>, n: int)
    requires
        0 <= n <= s.len(),
        forall|i: int| s.len() - n <= i < s.len() ==> is_white_space(#[trigger] s[i]),
        n < s.len() ==> !is_white_space(s[s.len() - n - 1]),
    ensures
        trailing_space(s) == n,
    decreases n,
{
    if n > 0 {
        let init = s.drop_last();
        lemma_trailing_space_is(init, n - 1);
    }
}

/// The first `c` in `s` lies within `s` or at its end, and no `c` comes
/// before it.
pub proof fn lemma_first_index_of(s: Seq<char>, c: char)
    ensures
        0 <= first_index_of(s, c) <= s.len(),
        forall|i: int| 0 <= i < first_index_of(s, c) ==> #[trigger] s[i] != c,
        first_index_of(s, c) < s.len() ==> s[first_index_of(s, c)] == c,
    decreases s.len(),
{
    if s.len() > 0 && s[0] != c {
        let rest = s.skip(1);
        lemma_first_index_of(rest, c);
        assert forall|i: int| 0 <= i < first_index_of(s, c) implies #[trigger] s[i] != c by {
            if i > 0 {
                assert(s[i] == rest[i - 1]);
            }
        }
    }
}

/// A position that holds `c`, with no `c` before it, is the first index of
/// `c`; so is the length where `s` holds no `c`.
pub proof fn lemma_first_index_of_is(s: Seq<char>, c: char, k: int)
    requires
        0 <= k <= s.len(),
        forall|i: int| 0 <= i < k ==> #[trigger] s[i] != c,
        k < s.len() ==> s[k] == c,
    ensures
        first_index_of(s, c) == k,
    decreases k,
{
    if k > 0 {
        let rest = s.skip(1);
        lemma_first_index_of_is(rest, c, k - 1);
    }
}

/// Cutting a text at a separator gives at least one part, no part holds the
/// separator, and there are two parts or more just when the text holds it.
pub proof fn lemma_split_parts(s: Seq<char>, sep: char)
    ensures
        split(s, sep).len() >= 1,
        forall|i: int| 0 <= i < split(s, sep).len() ==> !has_char(#[trigger] split(s, sep)[i], sep),
        has_char(s, sep) <==> split(s, sep).len() >= 2,
    decreases s.len(),
{
    let k = first_index_of(s, sep);
    lemma_first_index_of(s, sep);
    if k < s.len() {
        let rest = s.skip(k + 1);
        lemma_split_parts(rest, sep);
        let head = s.take(k);
        assert(!has_char(head, sep)) by {
            lemma_first_index_of_is(head, sep, k);
        }
    }
}

/// Whether a character is white space.
pub fn char_is_white_space(c: char) -> (r: bool)
    ensures
        r == is_white_space(c),
{
    let n: u32 = c as u32;
    (0x9 <= n && n <= 0xd) || n == 0x20 || n == 0x85 || n == 0xa0 || n == 0x1680
        || (0x2000 <= n && n <= 0x200a) || n == 0x2028 || n == 0x2029 || n == 0x202f
        || n == 0x205f || n == 0x3000
}

/// The bounds of what is left of `chars[lo..hi]` when the white space at
/// both ends is taken away.
#[verifier::loop_isolation(false)]
pub fn trim_bounds(chars: &Vec<char>, lo: usize, hi: usize) -> (r: (usize, usize))
    requires
        lo <= hi <= chars.len(),
    ensures
        lo <= r.0 <= r.1 <= hi,
        chars@.subrange(r.0 as int, r.1 as int) == trim(chars@.subrange(lo as int, hi as int)),
{
    let ghost s = chars@.subrange(lo as int, hi as int);
    let mut a: usize = lo;
    while a < hi && char_is_white_space(chars[a])
        invariant
            lo <= a <= hi,
            forall|i: int| 0 <= i < a - lo ==> is_white_space(#[trigger] s[i]),
        decreases hi - a,
    {
        a = a + 1;
    }
    proof {
        lemma_leading_space_is(s, a - lo);
    }
    let ghost t = trim_start(s);
    let mut b: usize = hi;
    while b > a && char_is_white_space(chars[b - 1])
        invariant
            a <= b <= hi,
            forall|i: int| b - a <= i < t.len() ==> is_white_space(#[trigger] t[i]),
        decreases b,
    {
        b = b - 1;
    }
    proof {
        lemma_trailing_space_is(t, hi - b);
    }
    (a, b)
}

/// The position of the first `c` in `chars[lo..hi]`, counted from the start
/// of `chars`, or `hi` where there is none.
#[verifier::loop_isolation(false)]
pub fn find_char_in(chars: &Vec<char>, lo: usize, hi: usize, c: char) -> (k: usize)
    requires
        lo <= hi <= chars.len(),
    ensures
        lo <= k <= hi,
        k - lo == first_index_of(chars@.subrange(lo as int, hi as int), c),
{
    let ghost s = chars@.subrange(lo as int, hi as int);
    let mut k: usize = lo;
    while k < hi && chars[k] != c
        invariant
            lo <= k <= hi,
            forall|i: int| 0 <= i < k - lo ==> #[trigger] s[i] != c,
        decreases hi - k,
    {
        k = k + 1;
    }
    proof {
        lemma_first_index_of_is(s, c, k - lo);
    }
    k
}

/// Cutting `s[start..]` at a separator, one step: up to the first separator
/// at `k`, then what follows it; or all of it where there is none.
pub proof fn lemma_split_step(s: Seq<char>, sep: char, start: int, k: int)
    requires
        0 <= start <= k <= s.len(),
        k - start == first_index_of(s.subrange(start, s.len() as int), sep),
    ensures
        k == s.len() ==> split(s.subrange(start, s.len() as int), sep) == seq![
            s.subrange(start, s.len() as int),
        ],
        k < s.len() ==> split(s.subrange(start, s.len() as int), sep) == seq![s.subrange(start, k)]
            + split(s.subrange(k + 1, s.len() as int), sep),
{
    let rest = s.subrange(start, s.len() as int);
    if k < s.len() {
        assert(rest.take(k - start) =~= s.subrange(start, k));
        assert(rest.skip(k - start + 1) =~= s.subrange(k + 1, s.len() as int));
    }
}

} // verus!
