//! Issue-key extraction. An issue key has the shape `LETTERS-DIGITS`
//! (for example `ABC-123`) and is by convention embedded in branch names.
//! Extraction returns the leftmost such key, with the letter and digit
//! runs taken as long as possible.

use vstd::prelude::*;
use crate::text::{is_upper, is_digit, exec_is_upper, exec_is_digit};

verus! {

/// The first position at or after `p` that is not an uppercase letter.
pub open spec fn upper_run_end(s: Seq<char>, p: int) -> int
    recommends
        0 <= p <= s.len(),
    decreases s.len() - p,
{
    if p < s.len() && is_upper(s[p]) {
        upper_run_end(s, p + 1)
    } else {
        p
    }
}

/// The first position at or after `p` that is not a decimal digit.
pub open spec fn digit_run_end(s: Seq<char>, p: int) -> int
    recommends
        0 <= p <= s.len(),
    decreases s.len() - p,
{
    if p < s.len() && is_digit(s[p]) {
        digit_run_end(s, p + 1)
    } else {
        p
    }
}

/// Whether an issue key begins at position `p`: a nonempty run of
/// uppercase letters, then a hyphen, then at least one digit.
pub open spec fn match_at(s: Seq<char>, p: int) -> bool {
    let j = upper_run_end(s, p);
    &&& p < j
    &&& j + 1 < s.len()
    &&& s[j] == '-'
    &&& is_digit(s[j + 1])
}

/// One past the last character of the key that begins at `p`.
pub open spec fn key_end(s: Seq<char>, p: int) -> int {
    digit_run_end(s, upper_run_end(s, p) + 1)
}

/// The leftmost position at or after `p` where an issue key begins.
pub open spec fn first_match_from(s: Seq<char>, p: int) -> Option<int>
    recommends
        0 <= p <= s.len(),
    decreases s.len() - p,
{
    if p >= s.len() {
        None
    } else if match_at(s, p) {
        Some(p)
    } else {
        first_match_from(s, p + 1)
    }
}

/// The issue key embedded in `s`, if any: the leftmost match of
/// `LETTERS-DIGITS`, both runs maximal.
pub open spec fn issue_key_of(s: Seq<char>) -> Option<Seq<char>> {
    match first_match_from(s, 0) {
        Some(p) => Some(s.subrange(p, key_end(s, p))),
        None => None,
    }
}

/// The key shape, split at position `m`: uppercase letters before the
/// hyphen at `m`, at least one of each side, digits after it to the end.
pub open spec fn key_shape_at(k: Seq<char>, m: int) -> bool {
    &&& 0 < m < k.len() - 1
    &&& (forall|i: int| 0 <= i < m ==> is_upper(k[i]))
    &&& k[m] == '-'
    &&& (forall|i: int| m < i < k.len() ==> is_digit(k[i]))
}

/// A sequence of the issue-key shape: a nonempty run of uppercase
/// letters, one hyphen, then a nonempty run of digits.
pub open spec fn is_key_shape(k: Seq<char>) -> bool {
    exists|m: int| key_shape_at(k, m)
}

proof fn lemma_upper_run_range(s: Seq<char>, p: int)
    requires
        0 <= p <= s.len(),
    ensures
        p <= upper_run_end(s, p) <= s.len(),
        forall|i: int| p <= i < upper_run_end(s, p) ==> is_upper(s[i]),
    decreases s.len() - p,
{
    if p < s.len() && is_upper(s[p]) {
        lemma_upper_run_range(s, p + 1);
    }
}

proof fn lemma_digit_run_range(s: Seq<char>, p: int)
    requires
        0 <= p <= s.len(),
    ensures
        p <= digit_run_end(s, p) <= s.len(),
        forall|i: int| p <= i < digit_run_end(s, p) ==> is_digit(s[i]),
    decreases s.len() - p,
{
    if p < s.len() && is_digit(s[p]) {
        lemma_digit_run_range(s, p + 1);
    }
}

proof fn lemma_first_match_valid(s: Seq<char>, q: int)
    requires
        0 <= q <= s.len(),
        first_match_from(s, q) is Some,
    ensures
        q <= first_match_from(s, q)->0 < s.len(),
        match_at(s, first_match_from(s, q)->0),
    decreases s.len() - q,
{
    if q >= s.len() {
    } else if match_at(s, q) {
    } else {
        lemma_first_match_valid(s, q + 1);
    }
}

/// Law: whenever a key is extracted, it has the issue-key shape — a
/// nonempty run of uppercase letters, one hyphen, then a nonempty run of
/// digits, with nothing else in it.
pub proof fn lemma_extracted_key_shape(s: Seq<char>)
    requires
        issue_key_of(s) is Some,
    ensures
        is_key_shape(issue_key_of(s)->0),
{
    lemma_first_match_valid(s, 0);
    let p = first_match_from(s, 0)->0;
    let j = upper_run_end(s, p);
    lemma_upper_run_range(s, p);
    assert(j + 1 <= s.len());
    lemma_digit_run_range(s, j + 1);
    let kend = digit_run_end(s, j + 1);
    assert(kend == digit_run_end(s, j + 2));
    lemma_digit_run_range(s, j + 2);
    let k = s.subrange(p, kend);
    let m = j - p;
    assert forall|i: int| 0 <= i < m implies is_upper(k[i]) by {
        assert(k[i] == s[p + i]);
    }
    assert forall|i: int| m < i < k.len() implies is_digit(k[i]) by {
        assert(k[i] == s[p + i]);
    }
    assert(key_shape_at(k, m));
}

fn upper_run_end_exec(s: &str, p: usize, len: usize) -> (r: usize)
    requires
        p <= len,
        len == s@.len(),
    ensures
        r == upper_run_end(s@, p as int),
        p <= r <= len,
{
    let mut i: usize = p;
    while i < len
        invariant
            p <= i <= len,
            len == s@.len(),
            upper_run_end(s@, p as int) == upper_run_end(s@, i as int),
        decreases len - i,
    {
        let c = s.get_char(i);
        if !exec_is_upper(c) {
            return i;
        }
        i = i + 1;
    }
    i
}

fn digit_run_end_exec(s: &str, p: usize, len: usize) -> (r: usize)
    requires
        p <= len,
        len == s@.len(),
    ensures
        r == digit_run_end(s@, p as int),
        p <= r <= len,
{
    let mut i: usize = p;
    while i < len
        invariant
            p <= i <= len,
            len == s@.len(),
            digit_run_end(s@, p as int) == digit_run_end(s@, i as int),
        decreases len - i,
    {
        let c = s.get_char(i);
        if !exec_is_digit(c) {
            return i;
        }
        i = i + 1;
    }
    i
}

/// Extracts the issue key embedded in a branch name, if one exists:
/// the leftmost `LETTERS-DIGITS` fragment, runs taken maximal.
pub fn extract_issue_key(branch: &str) -> (r: Option<String>)
    ensures
        match r {
            Some(k) => issue_key_of(branch@) == Some(k@),
            None => issue_key_of(branch@) is None,
        },
{
    let len: usize = branch.unicode_len();
    let mut p: usize = 0;
    while p < len
        invariant
            0 <= p <= len,
            len == branch@.len(),
            first_match_from(branch@, 0) == first_match_from(branch@, p as int),
        decreases len - p,
    {
        let j = upper_run_end_exec(branch, p, len);
        let mut matched = false;
        if j > p && j < len {
            if branch.get_char(j) == '-' {
                if j + 1 < len {
                    if exec_is_digit(branch.get_char(j + 1)) {
                        matched = true;
                    }
                }
            }
        }
        if matched {
            assert(match_at(branch@, p as int));
            assert(first_match_from(branch@, p as int) == Some(p as int));
            let k = digit_run_end_exec(branch, j + 1, len);
            let sub = branch.substring_char(p, k);
            let key = sub.to_owned();
            assert(key@ == branch@.subrange(p as int, key_end(branch@, p as int)));
            return Some(key);
        }
        proof {
            assert(!match_at(branch@, p as int));
            assert(first_match_from(branch@, p as int) == first_match_from(branch@, p + 1));
        }
        p = p + 1;
    }
    assert(first_match_from(branch@, len as int) is None);
    None
}

} // verus!
