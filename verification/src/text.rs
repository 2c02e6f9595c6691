//! Small text utilities over the character view of strings.

use vstd::prelude::*;
use vstd::string::StrSliceExecFns;

verus! {

/// `k` is the position of the last occurrence of `c` in `s`.
pub open spec fn is_last_index(s: Seq<char>, c: char, k: int) -> bool {
    &&& 0 <= k < s.len()
    &&& s[k] == c
    &&& forall|j: int| k < j < s.len() ==> s[j] != c
}

/// The position of the last occurrence of `c` in `s`; meaningful only when
/// `c` occurs in `s`.
pub open spec fn last_index(s: Seq<char>, c: char) -> int
    recommends
        s.contains(c),
{
    choose|k: int| is_last_index(s, c, k)
}

/// The part of `s` in front of its last `c`.
pub open spec fn before_last(s: Seq<char>, c: char) -> Seq<char>
    recommends
        s.contains(c),
{
    s.take(last_index(s, c))
}

/// The part of `s` behind its last `c`.
pub open spec fn after_last(s: Seq<char>, c: char) -> Seq<char>
    recommends
        s.contains(c),
{
    s.skip(last_index(s, c) + 1)
}

/// A last occurrence is unique: whatever position satisfies
/// [`is_last_index`] is the one [`last_index`] names.
pub proof fn lemma_last_index_unique(s: Seq<char>, c: char, k: int)
    requires
        is_last_index(s, c, k),
    ensures
        last_index(s, c) == k,
{
    assert(is_last_index(s, c, last_index(s, c)));
}

/// Any way of cutting `s` at an occurrence of `c` that leaves no `c` in the
/// right half is the cut at the last occurrence.
pub proof fn lemma_split_is_at_last(s: Seq<char>, c: char, left: Seq<char>, right: Seq<char>)
    requires
        left + seq![c] + right == s,
        !right.contains(c),
    ensures
        s.contains(c),
        left == before_last(s, c),
        right == after_last(s, c),
{
    let k = left.len() as int;
    assert(forall|j: int| k < j < s.len() ==> s[j] == right[j - k - 1]);
    lemma_last_index_unique(s, c, k);
}

/// Splits `s` around the last occurrence of `c`.
///
/// Returns `None` exactly when `c` does not occur in `s`. Otherwise the two
/// halves, joined by `c`, give back `s`, and the right half is free of `c`.
pub fn split_once_last(s: &str, c: char) -> (r: Option<(&str, &str)>)
    ensures
        r is None <==> !s@.contains(c),
        r matches Some((left, right)) ==> {
            &&& left@ + seq![c] + right@ == s@
            &&& !right@.contains(c)
            &&& left@ == before_last(s@, c)
            &&& right@ == after_last(s@, c)
        },
{
    let n: usize = s.unicode_len();
    let mut last: Option<usize> = None;
    let mut idx: usize = 0;
    for ch in it: s.chars()
        invariant
            n == s@.len(),
            idx == it.index(),
            it.seq() == s@,
            last is None ==> forall|j: int| 0 <= j < idx ==> s@[j] != c,
            last matches Some(k) ==> k < idx && s@[k as int] == c && forall|j: int|
                k < j < idx ==> s@[j] != c,
    {
        if ch == c {
            last = Some(idx);
        }
        idx = idx + 1;
    }
    match last {
        Some(k) => {
            let left = s.substring_char(0, k);
            let right = s.substring_char(k + 1, n);
            proof {
                assert(left@ + seq![c] + right@ =~= s@);
                lemma_split_is_at_last(s@, c, left@, right@);
            }
            Some((left, right))
        },
        None => None,
    }
}

} // verus!
