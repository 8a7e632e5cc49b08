//! Character-level helpers over `&str`, stated over `Seq<char>` views.

use vstd::prelude::*;

verus! {

/// `part` occurs in `whole` starting at index `at`.
pub open spec fn occurs_at(whole: Seq<char>, part: Seq<char>, at: int) -> bool {
    &&& 0 <= at
    &&& at + part.len() <= whole.len()
    &&& whole.subrange(at, at + part.len()) == part
}

/// `part` is a contiguous run of characters somewhere in `whole`.
pub open spec fn contains_text(whole: Seq<char>, part: Seq<char>) -> bool {
    exists|at: int| occurs_at(whole, part, at)
}

/// `whole` begins with `part`.
pub open spec fn starts_with_text(whole: Seq<char>, part: Seq<char>) -> bool {
    occurs_at(whole, part, 0)
}

/// `whole` ends with `part`.
pub open spec fn ends_with_text(whole: Seq<char>, part: Seq<char>) -> bool {
    occurs_at(whole, part, whole.len() - part.len())
}

/// The characters of `s`, in order.
pub fn chars_of(s: &str) -> (chars: Vec<char>)
    ensures
        chars@ == s@,
{
    let mut chars: Vec<char> = Vec::new();
    for c in it: s.chars()
        invariant
            chars@ == s@.take(it.index()),
            it.seq() == s@,
    {
        chars.push(c);
    }
    assert(s@.take(s@.len() as int) =~= s@);
    chars
}

/// Whether `part` occurs in `whole` at index `at`.
pub fn matches_at(whole: &Vec<char>, part: &Vec<char>, at: usize) -> (found: bool)
    ensures
        found == occurs_at(whole@, part@, at as int),
{
    if part.len() > whole.len() || at > whole.len() - part.len() {
        return false;
    }
    let mut i: usize = 0;
    while i < part.len()
        invariant
            i <= part.len(),
            at + part.len() <= whole.len(),
            whole@.subrange(at as int, at + i) == part@.take(i as int),
        decreases part.len() - i,
    {
        if whole[at + i] != part[i] {
            assert(whole@.subrange(at as int, at + part.len())[i as int] != part@[i as int]);
            return false;
        }
        assert(whole@.subrange(at as int, at + i + 1) =~= whole@.subrange(at as int, at + i).push(
            whole@[at + i],
        ));
        assert(part@.take(i + 1) =~= part@.take(i as int).push(part@[i as int]));
        i += 1;
    }
    assert(part@.take(part@.len() as int) =~= part@);
    true
}

/// Whether two texts hold the same characters.
pub fn same_text(a: &str, b: &str) -> (same: bool)
    ensures
        same == (a@ == b@),
{
    let left = chars_of(a);
    let right = chars_of(b);
    if left.len() != right.len() {
        return false;
    }
    let same = matches_at(&left, &right, 0);
    assert(left@.subrange(0, left@.len() as int) =~= left@);
    same
}

/// Whether `whole` begins with `part`.
pub fn starts_with(whole: &Vec<char>, part: &Vec<char>) -> (found: bool)
    ensures
        found == starts_with_text(whole@, part@),
{
    matches_at(whole, part, 0)
}

/// Whether `whole` ends with `part`.
pub fn ends_with(whole: &Vec<char>, part: &Vec<char>) -> (found: bool)
    ensures
        found == ends_with_text(whole@, part@),
{
    if part.len() > whole.len() {
        return false;
    }
    matches_at(whole, part, whole.len() - part.len())
}

/// Whether `part` occurs anywhere in `whole`; the empty text occurs in every text.
pub fn contains(whole: &str, part: &str) -> (found: bool)
    ensures
        found == contains_text(whole@, part@),
{
    let haystack = chars_of(whole);
    let needle = chars_of(part);
    if needle.len() > haystack.len() {
        assert forall|at: int| !occurs_at(haystack@, needle@, at) by {}
        return false;
    }
    let last: usize = haystack.len() - needle.len();
    let mut at: usize = 0;
    while at < last
        invariant
            at <= last,
            last == haystack.len() - needle.len(),
            needle.len() <= haystack.len(),
            haystack@ == whole@,
            needle@ == part@,
            forall|k: int| 0 <= k < at ==> !occurs_at(haystack@, needle@, k),
        decreases last - at,
    {
        if matches_at(&haystack, &needle, at) {
            return true;
        }
        at += 1;
    }
    let found = matches_at(&haystack, &needle, last);
    if !found {
        assert forall|k: int| !occurs_at(haystack@, needle@, k) by {}
    }
    found
}

} // verus!
