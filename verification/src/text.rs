//! Text primitives over character sequences: substring search and counting of
//! non-overlapping occurrences.

use vstd::prelude::*;

verus! {

/// The texts of a sequence of strings, in order.
pub open spec fn texts(strings: Seq<String>) -> Seq<Seq<char>> {
    Seq::new(strings.len(), |i: int| strings[i]@)
}

/// The text of an optional string.
pub open spec fn opt_text(string: Option<String>) -> Option<Seq<char>> {
    match string {
        Some(s) => Some(s@),
        None => None,
    }
}

/// `pat` occurs in `text` starting at index `at`.
pub open spec fn occurs_at(text: Seq<char>, pat: Seq<char>, at: int) -> bool {
    &&& 0 <= at
    &&& at + pat.len() <= text.len()
    &&& text.subrange(at, at + pat.len()) == pat
}

/// `pat` occurs somewhere in `text`.
pub open spec fn is_substring(text: Seq<char>, pat: Seq<char>) -> bool {
    exists|at: int| occurs_at(text, pat, at)
}

/// Number of non-overlapping occurrences of `pat` in `text`, found by scanning from the
/// left and resuming right after each occurrence. An empty pattern has no occurrence.
pub open spec fn count_occurrences(text: Seq<char>, pat: Seq<char>) -> nat
    decreases text.len(),
{
    if pat.len() == 0 || text.len() < pat.len() {
        0
    } else if occurs_at(text, pat, 0) {
        1 + count_occurrences(text.skip(pat.len() as int), pat)
    } else {
        count_occurrences(text.skip(1), pat)
    }
}

/// The characters of `s`, in order.
pub fn chars_of(s: &str) -> (out: Vec<char>)
    ensures
        out@ == s@,
{
    let mut out: Vec<char> = Vec::new();
    for c in it: s.chars()
        invariant
            it.seq() == s@,
            out@ == it.seq().take(it.index() as int),
    {
        out.push(c);
    }
    out
}

/// Whether `pat` occurs in `text` at index `at`.
pub fn matches_at(text: &[char], pat: &[char], at: usize) -> (found: bool)
    ensures
        found == occurs_at(text@, pat@, at as int),
{
    if pat.len() > text.len() || at > text.len() - pat.len() {
        return false;
    }
    let mut k: usize = 0;
    while k < pat.len()
        invariant
            k <= pat.len(),
            at + pat.len() <= text.len(),
            forall|j: int| 0 <= j < k ==> text@[at + j] == pat@[j],
        decreases pat.len() - k,
    {
        if text[at + k] != pat[k] {
            assert(text@.subrange(at as int, at + pat@.len())[k as int] != pat@[k as int]);
            return false;
        }
        k += 1;
    }
    assert(text@.subrange(at as int, at + pat@.len()) =~= pat@);
    true
}

/// Whether `pat` occurs somewhere in `text`.
pub fn contains(text: &[char], pat: &[char]) -> (found: bool)
    ensures
        found == is_substring(text@, pat@),
{
    if pat.len() == 0 {
        assert(occurs_at(text@, pat@, 0)) by {
            assert(text@.subrange(0, 0) =~= pat@);
        }
        return true;
    }
    if pat.len() > text.len() {
        return false;
    }
    let last: usize = text.len() - pat.len();
    let mut at: usize = 0;
    while at <= last
        invariant
            pat.len() > 0,
            last == text.len() - pat.len(),
            at <= last + 1,
            forall|j: int| 0 <= j < at ==> !occurs_at(text@, pat@, j),
        decreases last + 1 - at,
    {
        if matches_at(text, pat, at) {
            return true;
        }
        at += 1;
    }
    false
}

/// Counts the non-overlapping occurrences of `pat` in `text`.
pub fn count(text: &[char], pat: &[char]) -> (n: usize)
    ensures
        n == count_occurrences(text@, pat@),
{
    if pat.len() == 0 || pat.len() > text.len() {
        return 0;
    }
    let last: usize = text.len() - pat.len();
    let mut n: usize = 0;
    let mut at: usize = 0;
    assert(text@.skip(0) =~= text@);
    while at <= last
        invariant
            pat.len() > 0,
            last == text.len() - pat.len(),
            at <= text.len(),
            n <= at,
            n + count_occurrences(text@.skip(at as int), pat@) == count_occurrences(text@, pat@),
        decreases text.len() - at,
    {
        let ghost rest = text@.skip(at as int);
        if matches_at(text, pat, at) {
            assert(rest.subrange(0, pat@.len() as int) =~= text@.subrange(
                at as int,
                at + pat@.len(),
            ));
            assert(rest.skip(pat@.len() as int) =~= text@.skip(at + pat@.len()));
            n += 1;
            at += pat.len();
        } else {
            assert(rest.subrange(0, pat@.len() as int) =~= text@.subrange(
                at as int,
                at + pat@.len(),
            ));
            assert(rest.skip(1) =~= text@.skip(at + 1));
            at += 1;
        }
    }
    n
}

} // verus!
