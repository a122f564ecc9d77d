//! Finding one text in another, and taking a text apart at what was found.

use vstd::prelude::*;
use crate::text::{extend, slice};

verus! {

/// Whether `needle` stands in `hay` at index `at`.
pub open spec fn occurs_at(hay: Seq<char>, needle: Seq<char>, at: int) -> bool {
    &&& 0 <= at
    &&& at + needle.len() <= hay.len()
    &&& hay.subrange(at, at + needle.len()) == needle
}

/// Whether `needle` stands somewhere in `hay`.
pub open spec fn contains(hay: Seq<char>, needle: Seq<char>) -> bool {
    exists|at: int| occurs_at(hay, needle, at)
}

/// Whether `hay` begins with `needle`.
pub open spec fn starts_with(hay: Seq<char>, needle: Seq<char>) -> bool {
    occurs_at(hay, needle, 0)
}

/// Whether `hay` ends with `needle`.
pub open spec fn ends_with(hay: Seq<char>, needle: Seq<char>) -> bool {
    occurs_at(hay, needle, hay.len() - needle.len())
}

/// Whether `needle` stands in `hay` at index `at`.
pub fn matches_at(hay: &Vec<char>, needle: &Vec<char>, at: usize) -> (b: bool)
    ensures
        b == occurs_at(hay@, needle@, at as int),
{
    if needle.len() > hay.len() || at > hay.len() - needle.len() {
        return false;
    }
    let mut k: usize = 0;
    while k < needle.len()
        invariant
            k <= needle.len(),
            at + needle.len() <= hay.len(),
            forall|j: int| 0 <= j < k ==> hay@[at + j] == needle@[j],
        decreases needle.len() - k,
    {
        if hay[at + k] != needle[k] {
            return false;
        }
        k += 1;
    }
    assert(hay@.subrange(at as int, at + needle.len()) =~= needle@);
    true
}

/// The first index at or after `from` where `needle` stands in `hay`.
pub fn find_from(hay: &Vec<char>, needle: &Vec<char>, from: usize) -> (r: Option<usize>)
    ensures
        match r {
            Some(at) => from <= at && occurs_at(hay@, needle@, at as int) && forall|j: int|
                from <= j < at ==> !occurs_at(hay@, needle@, j),
            None => forall|j: int| from <= j ==> !occurs_at(hay@, needle@, j),
        },
{
    if from > hay.len() {
        return None;
    }
    let mut i: usize = from;
    while i < hay.len()
        invariant
            from <= i <= hay.len(),
            forall|j: int| from <= j < i ==> !occurs_at(hay@, needle@, j),
        decreases hay.len() - i,
    {
        if matches_at(hay, needle, i) {
            return Some(i);
        }
        i += 1;
    }
    if matches_at(hay, needle, i) {
        return Some(i);
    }
    None
}

/// Whether `needle` stands somewhere in `hay`.
pub fn has_part(hay: &Vec<char>, needle: &Vec<char>) -> (b: bool)
    ensures
        b == contains(hay@, needle@),
{
    find_from(hay, needle, 0).is_some()
}

/// Whether `hay` begins with `needle`.
pub fn has_prefix(hay: &Vec<char>, needle: &Vec<char>) -> (b: bool)
    ensures
        b == starts_with(hay@, needle@),
{
    matches_at(hay, needle, 0)
}

/// The first index of `c` in `s`, if it occurs.
pub fn position(s: &Vec<char>, c: char) -> (r: Option<usize>)
    ensures
        match r {
            Some(at) => at < s.len() && s@[at as int] == c && forall|j: int|
                0 <= j < at ==> s@[j] != c,
            None => !s@.contains(c),
        },
{
    let mut i: usize = 0;
    while i < s.len()
        invariant
            i <= s.len(),
            forall|j: int| 0 <= j < i ==> s@[j] != c,
        decreases s.len() - i,
    {
        if s[i] == c {
            return Some(i);
        }
        i += 1;
    }
    None
}

/// The last index of `c` in `s`, if it occurs.
pub fn last_position(s: &Vec<char>, c: char) -> (r: Option<usize>)
    ensures
        match r {
            Some(at) => at < s.len() && s@[at as int] == c && forall|j: int|
                at < j < s.len() ==> s@[j] != c,
            None => !s@.contains(c),
        },
{
    let mut i: usize = s.len();
    while i > 0
        invariant
            i <= s.len(),
            forall|j: int| i <= j < s.len() ==> s@[j] != c,
        decreases i,
    {
        i -= 1;
        if s[i] == c {
            return Some(i);
        }
    }
    None
}

/// What follows the last `c` in `s`, if `c` occurs.
pub open spec fn after_last(s: Seq<char>, c: char) -> Option<Seq<char>>
    decreases s.len(),
{
    if s.len() == 0 {
        None
    } else if s.last() == c {
        Some(Seq::empty())
    } else {
        match after_last(s.drop_last(), c) {
            Some(tail) => Some(tail.push(s.last())),
            None => None,
        }
    }
}

/// What precedes the first `c` in `s`, if `c` occurs.
pub open spec fn before_first(s: Seq<char>, c: char) -> Option<Seq<char>>
    decreases s.len(),
{
    if s.len() == 0 {
        None
    } else if s[0] == c {
        Some(Seq::empty())
    } else {
        match before_first(s.skip(1), c) {
            Some(head) => Some(seq![s[0]] + head),
            None => None,
        }
    }
}

/// What follows the first occurrence of `needle` in `hay`, if it occurs.
pub open spec fn after_first(hay: Seq<char>, needle: Seq<char>) -> Option<Seq<char>>
    decreases hay.len(),
{
    if hay.len() < needle.len() || needle.len() == 0 {
        None
    } else if hay.take(needle.len() as int) == needle {
        Some(hay.skip(needle.len() as int))
    } else {
        after_first(hay.skip(1), needle)
    }
}

/// What follows the last `c` is what follows an occurrence of `c` after
/// which there is none.
pub proof fn lemma_after_last(s: Seq<char>, c: char, at: int)
    requires
        0 <= at < s.len(),
        s[at] == c,
        forall|j: int| at < j < s.len() ==> s[j] != c,
    ensures
        after_last(s, c) == Some(s.skip(at + 1)),
    decreases s.len(),
{
    if at < s.len() - 1 {
        lemma_after_last(s.drop_last(), c, at);
    }
}

/// Where `c` does not occur, nothing follows it.
pub proof fn lemma_after_last_none(s: Seq<char>, c: char)
    requires
        !s.contains(c),
    ensures
        after_last(s, c) is None,
    decreases s.len(),
{
    if s.len() > 0 {
        let t = s.drop_last();
        assert forall|j: int| 0 <= j < t.len() implies t[j] != c by {}
        lemma_after_last_none(t, c);
    }
}

/// What precedes the first `c` is what precedes an occurrence of `c`
/// before which there is none.
pub proof fn lemma_before_first(s: Seq<char>, c: char, at: int)
    requires
        0 <= at < s.len(),
        s[at] == c,
        forall|j: int| 0 <= j < at ==> s[j] != c,
    ensures
        before_first(s, c) == Some(s.take(at)),
    decreases s.len(),
{
    if at > 0 {
        let t = s.skip(1);
        assert forall|j: int| 0 <= j < at - 1 implies t[j] != c by {}
        lemma_before_first(t, c, at - 1);
    }
}

/// Where `c` does not occur, nothing precedes it.
pub proof fn lemma_before_first_none(s: Seq<char>, c: char)
    requires
        !s.contains(c),
    ensures
        before_first(s, c) is None,
    decreases s.len(),
{
    if s.len() > 0 {
        let t = s.skip(1);
        assert forall|j: int| 0 <= j < t.len() implies t[j] != c by {}
        lemma_before_first_none(t, c);
    }
}

/// What precedes the first `c` is shorter than `s`.
pub proof fn lemma_before_first_len(s: Seq<char>, c: char)
    ensures
        before_first(s, c) is Some ==> before_first(s, c)->0.len() < s.len(),
    decreases s.len(),
{
    if s.len() > 0 && s[0] != c {
        lemma_before_first_len(s.skip(1), c);
    }
}

/// What follows the first occurrence is what follows an occurrence before
/// which there is none.
pub proof fn lemma_after_first(hay: Seq<char>, needle: Seq<char>, at: int)
    requires
        needle.len() > 0,
        occurs_at(hay, needle, at),
        forall|j: int| 0 <= j < at ==> !occurs_at(hay, needle, j),
    ensures
        after_first(hay, needle) == Some(hay.skip(at + needle.len())),
    decreases hay.len(),
{
    if at > 0 {
        let rest = hay.skip(1);
        assert(!occurs_at(hay, needle, 0));
        assert(rest.subrange(at - 1, at - 1 + needle.len()) =~= hay.subrange(
            at,
            at + needle.len(),
        ));
        assert forall|j: int| 0 <= j < at - 1 implies !occurs_at(rest, needle, j) by {
            assert(rest.subrange(j, j + needle.len()) =~= hay.subrange(
                j + 1,
                j + 1 + needle.len(),
            ));
            assert(!occurs_at(hay, needle, j + 1));
        }
        lemma_after_first(rest, needle, at - 1);
    }
}

/// Where `needle` does not occur from `from` on, nothing follows it in
/// what starts there.
pub proof fn lemma_after_first_none(hay: Seq<char>, needle: Seq<char>, from: int)
    requires
        needle.len() > 0,
        0 <= from <= hay.len(),
        forall|j: int| from <= j ==> !occurs_at(hay, needle, j),
    ensures
        after_first(hay.skip(from), needle) is None,
    decreases hay.len() - from,
{
    let rest = hay.skip(from);
    if rest.len() >= needle.len() {
        assert(rest.take(needle.len() as int) =~= hay.subrange(from, from + needle.len()));
        assert(!occurs_at(hay, needle, from));
        assert(rest.skip(1) =~= hay.skip(from + 1));
        lemma_after_first_none(hay, needle, from + 1);
    }
}

/// What follows the last `c` in `s`, if `c` occurs.
pub fn tail_after_last(s: &Vec<char>, c: char) -> (r: Option<Vec<char>>)
    ensures
        match r {
            Some(tail) => after_last(s@, c) == Some(tail@),
            None => after_last(s@, c) is None,
        },
{
    match last_position(s, c) {
        Some(at) => {
            proof {
                lemma_after_last(s@, c, at as int);
            }
            Some(slice(s, at + 1, s.len()))
        },
        None => {
            proof {
                lemma_after_last_none(s@, c);
            }
            None
        },
    }
}

/// What precedes the first `c` in `s`, if `c` occurs.
pub fn head_before_first(s: &Vec<char>, c: char) -> (r: Option<Vec<char>>)
    ensures
        match r {
            Some(head) => before_first(s@, c) == Some(head@),
            None => before_first(s@, c) is None,
        },
{
    match position(s, c) {
        Some(at) => {
            proof {
                lemma_before_first(s@, c, at as int);
            }
            Some(slice(s, 0, at))
        },
        None => {
            proof {
                lemma_before_first_none(s@, c);
            }
            None
        },
    }
}

/// `s` without `suffix` at its end, as often as it stands there.
pub open spec fn without_suffix(s: Seq<char>, suffix: Seq<char>) -> Seq<char>
    decreases s.len(),
{
    if suffix.len() > 0 && ends_with(s, suffix) {
        without_suffix(s.take(s.len() - suffix.len()), suffix)
    } else {
        s
    }
}

/// `s` without `suffix` at its end, as often as it stands there.
pub fn strip_suffix(s: &Vec<char>, suffix: &Vec<char>) -> (r: Vec<char>)
    ensures
        r@ == without_suffix(s@, suffix@),
{
    let mut end: usize = s.len();
    if suffix.len() == 0 {
        return slice(s, 0, end);
    }
    assert(s@.take(end as int) =~= s@);
    loop
        invariant
            end <= s.len(),
            suffix.len() > 0,
            without_suffix(s@, suffix@) == without_suffix(s@.take(end as int), suffix@),
        decreases end,
    {
        let ghost cur = s@.take(end as int);
        if end < suffix.len() || !matches_at(s, suffix, end - suffix.len()) {
            proof {
                if end >= suffix.len() {
                    assert(cur.subrange(end - suffix.len(), end as int) =~= s@.subrange(
                        end - suffix.len(),
                        end as int,
                    ));
                }
            }
            return slice(s, 0, end);
        }
        proof {
            assert(cur.subrange(end - suffix.len(), end as int) =~= s@.subrange(
                end - suffix.len(),
                end as int,
            ));
            assert(cur.take(cur.len() - suffix.len()) =~= s@.take(end - suffix.len()));
        }
        end = end - suffix.len();
    }
}

/// `s` with every occurrence of `pattern` replaced by `with`, the
/// occurrences taken from the left and never overlapping. An empty pattern
/// occurs nowhere.
pub open spec fn replaced(s: Seq<char>, pattern: Seq<char>, with: Seq<char>) -> Seq<char>
    decreases s.len(),
{
    if pattern.len() == 0 || s.len() < pattern.len() {
        s
    } else if s.take(pattern.len() as int) == pattern {
        with + replaced(s.skip(pattern.len() as int), pattern, with)
    } else {
        seq![s[0]] + replaced(s.skip(1), pattern, with)
    }
}

/// Replacing brings in no character that neither the text nor the
/// replacement holds.
pub proof fn lemma_replaced_keeps_out(s: Seq<char>, pattern: Seq<char>, with: Seq<char>, c: char)
    requires
        !s.contains(c),
        !with.contains(c),
    ensures
        !replaced(s, pattern, with).contains(c),
    decreases s.len(),
{
    let result = replaced(s, pattern, with);
    if pattern.len() > 0 && s.len() >= pattern.len() {
        let n = if s.take(pattern.len() as int) == pattern {
            pattern.len() as int
        } else {
            1
        };
        let rest = s.skip(n);
        assert forall|j: int| 0 <= j < rest.len() implies rest[j] != c by {}
        lemma_replaced_keeps_out(rest, pattern, with, c);
        assert forall|j: int| 0 <= j < result.len() implies result[j] != c by {}
    }
}

/// How often `c` stands in `s`.
pub open spec fn count(s: Seq<char>, c: char) -> nat
    decreases s.len(),
{
    if s.len() == 0 {
        0
    } else {
        count(s.skip(1), c) + if s[0] == c {
            1nat
        } else {
            0nat
        }
    }
}

/// What is joined holds `c` as often as its parts together.
pub proof fn lemma_count_joined(a: Seq<char>, b: Seq<char>, c: char)
    ensures
        count(a + b, c) == count(a, c) + count(b, c),
    decreases a.len(),
{
    if a.len() == 0 {
        assert(a + b =~= b);
    } else {
        assert((a + b).skip(1) =~= a.skip(1) + b);
        lemma_count_joined(a.skip(1), b, c);
    }
}

/// What does not hold `c` holds it no times, and what holds it holds it at
/// least once.
pub proof fn lemma_count_held(s: Seq<char>, c: char)
    ensures
        s.contains(c) <==> count(s, c) > 0,
    decreases s.len(),
{
    if s.len() > 0 {
        let rest = s.skip(1);
        lemma_count_held(rest, c);
        if s.contains(c) && s[0] != c {
            let i = choose|i: int| 0 <= i < s.len() && s[i] == c;
            assert(rest[i - 1] == c);
        }
        if rest.contains(c) {
            let i = choose|i: int| 0 <= i < rest.len() && rest[i] == c;
            assert(s[i + 1] == c);
        }
    }
}

/// Replacing takes `c` away: where the pattern holds `c` and the
/// replacement does not, the result holds `c` no more often than the text,
/// and less often where the pattern occurs in it.
pub proof fn lemma_replaced_counts_less(
    s: Seq<char>,
    pattern: Seq<char>,
    with: Seq<char>,
    c: char,
)
    requires
        pattern.contains(c),
        !with.contains(c),
    ensures
        count(replaced(s, pattern, with), c) <= count(s, c),
        contains(s, pattern) ==> count(replaced(s, pattern, with), c) < count(s, c),
    decreases s.len(),
{
    lemma_count_held(pattern, c);
    lemma_count_held(with, c);
    let n = pattern.len() as int;
    if s.len() < n {
        assert forall|at: int| !occurs_at(s, pattern, at) by {}
    } else if s.take(n) == pattern {
        let rest = s.skip(n);
        lemma_replaced_counts_less(rest, pattern, with, c);
        lemma_count_joined(with, replaced(rest, pattern, with), c);
        assert(s =~= pattern + rest);
        lemma_count_joined(pattern, rest, c);
    } else {
        let rest = s.skip(1);
        lemma_replaced_counts_less(rest, pattern, with, c);
        lemma_count_joined(seq![s[0]], replaced(rest, pattern, with), c);
        assert(seq![s[0]] + rest =~= s);
        lemma_count_joined(seq![s[0]], rest, c);
        if contains(s, pattern) {
            let at = choose|at: int| occurs_at(s, pattern, at);
            assert(s.subrange(0, n) =~= s.take(n));
            assert(at > 0);
            assert(rest.subrange(at - 1, at - 1 + n) =~= s.subrange(at, at + n));
            assert(occurs_at(rest, pattern, at - 1));
        }
    }
}

/// `s` with every occurrence of `pattern` replaced by `with`.
pub fn replace_all(s: &Vec<char>, pattern: &Vec<char>, with: &Vec<char>) -> (r: Vec<char>)
    ensures
        r@ == replaced(s@, pattern@, with@),
{
    if pattern.len() == 0 {
        return slice(s, 0, s.len());
    }
    let mut r: Vec<char> = Vec::new();
    let mut i: usize = 0;
    assert(s@.skip(0) =~= s@);
    while i < s.len()
        invariant
            i <= s.len(),
            pattern.len() > 0,
            r@ + replaced(s@.skip(i as int), pattern@, with@) == replaced(s@, pattern@, with@),
        decreases s.len() - i,
    {
        let ghost rest = s@.skip(i as int);
        if matches_at(s, pattern, i) {
            proof {
                assert(rest.take(pattern.len() as int) =~= s@.subrange(
                    i as int,
                    i + pattern.len(),
                ));
                assert(rest.skip(pattern.len() as int) =~= s@.skip(i + pattern.len()));
            }
            extend(&mut r, with);
            i += pattern.len();
        } else {
            proof {
                if rest.len() >= pattern.len() {
                    assert(rest.take(pattern.len() as int) =~= s@.subrange(
                        i as int,
                        i + pattern.len(),
                    ));
                    assert(rest.skip(1) =~= s@.skip(i + 1));
                }
            }
            if s.len() - i < pattern.len() {
                let tail = slice(s, i, s.len());
                extend(&mut r, &tail);
                return r;
            }
            r.push(s[i]);
            i += 1;
        }
    }
    r
}

} // verus!
