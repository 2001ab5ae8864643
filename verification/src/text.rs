//! Searching and cutting text, stated over sequences of characters.

use vstd::prelude::*;

verus! {

/// `pat` stands in `s` at position `i`.
pub open spec fn occurs_at(s: Seq<char>, pat: Seq<char>, i: int) -> bool {
    0 <= i && i + pat.len() <= s.len() && s.subrange(i, i + pat.len()) == pat
}

/// The least position at or after `from` where `pat` stands in `s`.
pub open spec fn first_match(s: Seq<char>, pat: Seq<char>, from: int) -> Option<int>
    decreases s.len() + 1 - from,
{
    if from < 0 || from + pat.len() > s.len() {
        None
    } else if occurs_at(s, pat, from) {
        Some(from)
    } else {
        first_match(s, pat, from + 1)
    }
}

/// `pat` stands somewhere in `s`.
pub open spec fn contains(s: Seq<char>, pat: Seq<char>) -> bool {
    first_match(s, pat, 0) is Some
}

/// The piece number `k` (from 0) of `s` cut at every occurrence of `sep`,
/// occurrences taken from the left and never overlapping. There is no such
/// piece when `sep` occurs fewer than `k` times.
pub open spec fn nth_piece(s: Seq<char>, sep: Seq<char>, k: nat) -> Option<Seq<char>>
    decreases k,
{
    match first_match(s, sep, 0) {
        None => if k == 0 {
            Some(s)
        } else {
            None
        },
        Some(i) => if k == 0 {
            Some(s.take(i))
        } else {
            nth_piece(s.skip(i + sep.len()), sep, (k - 1) as nat)
        },
    }
}

/// `first_match` finds an occurrence exactly when there is one at or after
/// `from`, and then it is the leftmost of them.
pub proof fn lemma_first_match_is_leftmost(s: Seq<char>, pat: Seq<char>, from: int)
    requires
        0 <= from,
    ensures
        match first_match(s, pat, from) {
            Some(i) => from <= i && occurs_at(s, pat, i) && forall|j: int|
                from <= j < i ==> !occurs_at(s, pat, j),
            None => forall|j: int| from <= j ==> !occurs_at(s, pat, j),
        },
    decreases s.len() + 1 - from,
{
    if from + pat.len() > s.len() {
    } else if occurs_at(s, pat, from) {
    } else {
        lemma_first_match_is_leftmost(s, pat, from + 1);
    }
}

/// Searching the tail of `s` from `base` on is searching `s` itself from
/// `base + from`, with every position moved by `base`.
pub proof fn lemma_first_match_in_tail(s: Seq<char>, pat: Seq<char>, base: int, from: int)
    requires
        0 <= base <= s.len(),
        0 <= from,
    ensures
        first_match(s.skip(base), pat, from) == match first_match(s, pat, base + from) {
            Some(i) => Some(i - base),
            None => None::<int>,
        },
    decreases s.len() + 1 - base - from,
{
    let t = s.skip(base);
    if from + pat.len() > t.len() {
    } else {
        assert(t.subrange(from, from + pat.len()) =~= s.subrange(
            base + from,
            base + from + pat.len(),
        ));
        if occurs_at(t, pat, from) {
        } else {
            lemma_first_match_in_tail(s, pat, base, from + 1);
        }
    }
}

/// The lower-case form of a text, as Unicode defines it.
pub uninterp spec fn lowercase(s: Seq<char>) -> Seq<char>;

/// The upper-case form of a text, as Unicode defines it.
pub uninterp spec fn uppercase(s: Seq<char>) -> Seq<char>;

/// `str::to_lowercase`. The contract claims that the text it returns depends
/// on the slice alone.
#[verifier::external_body]
pub(crate) fn to_lowercase(s: &str) -> (lower: String)
    ensures
        lower@ == lowercase(s@),
{
    s.to_lowercase()
}

/// `str::to_uppercase`. The contract claims that the text it returns depends
/// on the slice alone.
#[verifier::external_body]
pub(crate) fn to_uppercase(s: &str) -> (upper: String)
    ensures
        upper@ == uppercase(s@),
{
    s.to_uppercase()
}

/// The characters of `s`, in order.
pub fn chars_of(s: &str) -> (v: Vec<char>)
    ensures
        v@ == s@,
{
    let mut v: Vec<char> = Vec::new();
    let chars = s.chars();
    for c in it: chars
        invariant
            it.seq() == s@,
            v@ == s@.take(it.index() as int),
    {
        v.push(c);
    }
    v
}

fn matches_at(s: &Vec<char>, pat: &Vec<char>, i: usize) -> (r: bool)
    requires
        i + pat.len() <= s.len(),
    ensures
        r == occurs_at(s@, pat@, i as int),
{
    let mut k: usize = 0;
    while k < pat.len()
        invariant
            k <= pat.len(),
            i + pat.len() <= s.len(),
            forall|j: int| 0 <= j < k ==> s@[i + j] == pat@[j],
        decreases pat.len() - k,
    {
        if s[i + k] != pat[k] {
            assert(s@.subrange(i as int, i + pat@.len())[k as int] == s@[i + k]);
            return false;
        }
        k += 1;
    }
    assert(s@.subrange(i as int, i + pat@.len()) =~= pat@);
    true
}

/// The leftmost position at or after `from` where `pat` stands in `s`.
pub fn find(s: &Vec<char>, pat: &Vec<char>, from: usize) -> (r: Option<usize>)
    ensures
        match r {
            Some(i) => first_match(s@, pat@, from as int) == Some(i as int),
            None => first_match(s@, pat@, from as int) is None,
        },
{
    if pat.len() > s.len() {
        return None;
    }
    let last: usize = s.len() - pat.len();
    let mut i: usize = from;
    while i <= last
        invariant
            from <= i,
            last == s.len() - pat.len(),
            first_match(s@, pat@, from as int) == first_match(s@, pat@, i as int),
        decreases last - i,
    {
        if matches_at(s, pat, i) {
            return Some(i);
        }
        if i == last {
            return None;
        }
        i += 1;
    }
    None
}

/// Whether two texts are the same.
pub fn equal(a: &str, b: &str) -> (same: bool)
    ensures
        same == (a@ == b@),
{
    let left = a.to_owned();
    let right = b.to_owned();
    left == right
}

/// Whether `pat` stands somewhere in `s`.
pub fn str_contains(s: &str, pat: &str) -> (r: bool)
    ensures
        r == contains(s@, pat@),
{
    let sv = chars_of(s);
    let pv = chars_of(pat);
    find(&sv, &pv, 0).is_some()
}

/// The piece number `k` of `s` cut at every occurrence of `sep`.
pub fn split_piece(s: &str, sep: &str, k: usize) -> (r: Option<String>)
    ensures
        r.deep_view() == nth_piece(s@, sep@, k as nat),
{
    let sv = chars_of(s);
    let pv = chars_of(sep);
    let mut start: usize = 0;
    let mut remaining: usize = k;
    assert(s@.skip(0) =~= s@);
    loop
        invariant
            sv@ == s@,
            pv@ == sep@,
            start <= sv.len(),
            nth_piece(s@, sep@, k as nat) == nth_piece(
                s@.skip(start as int),
                sep@,
                remaining as nat,
            ),
        decreases remaining,
    {
        proof {
            lemma_first_match_in_tail(s@, sep@, start as int, 0);
        }
        match find(&sv, &pv, start) {
            None => {
                if remaining == 0 {
                    let piece = s.substring_char(start, sv.len());
                    assert(piece@ =~= s@.skip(start as int));
                    return Some(piece.to_owned());
                } else {
                    return None;
                }
            },
            Some(i) => {
                proof {
                    lemma_first_match_is_leftmost(s@, sep@, start as int);
                }
                if remaining == 0 {
                    let piece = s.substring_char(start, i);
                    assert(piece@ =~= s@.skip(start as int).take(i - start));
                    return Some(piece.to_owned());
                } else {
                    assert(s@.skip(start as int).skip(i - start + pv@.len()) =~= s@.skip(
                        i + pv@.len(),
                    ));
                    start = i + pv.len();
                    remaining -= 1;
                }
            },
        }
    }
}

} // verus!
