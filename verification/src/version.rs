//! Extraction of a dotted browser version from free-form command output.
//!
//! The version grammar is three non-empty runs of decimal digits separated
//! by single dots. Scanning takes the leftmost occurrence, with each digit
//! run extended as far as possible, and never returns a partial match.

use vstd::prelude::*;

verus! {

/// Decimal digit.
pub open spec fn is_digit(c: char) -> bool {
    '0' <= c && c <= '9'
}

/// The end of the run of digits that starts at `i`: the first position at or
/// after `i` that is past the end or holds a non-digit.
pub open spec fn run_end(s: Seq<char>, i: int) -> int
    decreases s.len() - i when 0 <= i <= s.len()
{
    if i < s.len() && is_digit(s[i]) {
        run_end(s, i + 1)
    } else {
        i
    }
}

pub proof fn lemma_run_end_bounds(s: Seq<char>, i: int)
    requires
        0 <= i <= s.len(),
    ensures
        i <= run_end(s, i) <= s.len(),
        forall|k: int| i <= k < run_end(s, i) ==> is_digit(s[k]),
        run_end(s, i) < s.len() ==> !is_digit(s[run_end(s, i)]),
    decreases s.len() - i,
{
    if i < s.len() && is_digit(s[i]) {
        lemma_run_end_bounds(s, i + 1);
    }
}

/// A version match begins at `i`: a digit run, a dot, a digit run, a dot,
/// and a final digit run.
pub open spec fn match_at(s: Seq<char>, i: int) -> bool {
    let j1 = run_end(s, i);
    let j2 = run_end(s, j1 + 1);
    &&& 0 <= i < s.len()
    &&& is_digit(s[i])
    &&& j1 < s.len() && s[j1] == '.'
    &&& j1 + 1 < s.len() && is_digit(s[j1 + 1])
    &&& j2 < s.len() && s[j2] == '.'
    &&& j2 + 1 < s.len() && is_digit(s[j2 + 1])
}

/// Where the match beginning at `i` ends: past the third digit run.
pub open spec fn match_end(s: Seq<char>, i: int) -> int {
    run_end(s, run_end(s, run_end(s, i) + 1) + 1)
}

/// The start of the leftmost version match at or after `i`, if any.
pub open spec fn first_match_from(s: Seq<char>, i: int) -> Option<int>
    decreases s.len() - i when 0 <= i <= s.len()
{
    if i >= s.len() {
        None
    } else if match_at(s, i) {
        Some(i)
    } else {
        first_match_from(s, i + 1)
    }
}

/// The version extracted from `s`: the leftmost match of the version
/// grammar, or nothing when no match exists.
pub open spec fn version_of(s: Seq<char>) -> Option<Seq<char>> {
    match first_match_from(s, 0) {
        Some(i) => Some(s.subrange(i, match_end(s, i))),
        None => None,
    }
}

pub open spec fn all_digits(v: Seq<char>) -> bool {
    forall|k: int| 0 <= k < v.len() ==> is_digit(v[k])
}

/// `v` splits at dot positions `d1` and `d2` into three non-empty digit
/// groups: `v` matches the anchored version grammar.
pub open spec fn is_version_split(v: Seq<char>, d1: int, d2: int) -> bool {
    &&& 1 <= d1
    &&& d1 + 1 < d2
    &&& d2 + 1 < v.len()
    &&& v[d1] == '.'
    &&& v[d2] == '.'
    &&& all_digits(v.subrange(0, d1))
    &&& all_digits(v.subrange(d1 + 1, d2))
    &&& all_digits(v.subrange(d2 + 1, v.len() as int))
}

/// `v` matches the anchored version grammar MAJOR.MINOR.PATCH.
pub open spec fn is_version_chars(v: Seq<char>) -> bool {
    exists|d1: int, d2: int| is_version_split(v, d1, d2)
}

pub proof fn lemma_first_match_from(s: Seq<char>, i: int)
    requires
        0 <= i <= s.len(),
    ensures
        match first_match_from(s, i) {
            Some(m) => i <= m < s.len() && match_at(s, m) && (forall|j: int|
                i <= j < m ==> !match_at(s, j)),
            None => forall|j: int| i <= j < s.len() ==> !match_at(s, j),
        },
    decreases s.len() - i,
{
    if i < s.len() && !match_at(s, i) {
        lemma_first_match_from(s, i + 1);
    }
}

/// Whatever the scanned text, an extracted version always matches the full
/// anchored version grammar — never a partial or overlong string.
pub proof fn lemma_version_well_formed(s: Seq<char>)
    requires
        version_of(s) is Some,
    ensures
        is_version_chars(version_of(s).unwrap()),
{
    lemma_first_match_from(s, 0);
    let i = first_match_from(s, 0).unwrap();
    let j1 = run_end(s, i);
    let j2 = run_end(s, j1 + 1);
    let e = run_end(s, j2 + 1);
    lemma_run_end_bounds(s, i);
    lemma_run_end_bounds(s, j1 + 1);
    lemma_run_end_bounds(s, j2 + 1);
    let v = s.subrange(i, e);
    let d1 = j1 - i;
    let d2 = j2 - i;
    assert(run_end(s, i) >= i + 1);
    assert(run_end(s, j1 + 1) >= j1 + 2);
    assert(run_end(s, j2 + 1) >= j2 + 2);
    let w1 = v.subrange(0, d1);
    assert forall|k: int| 0 <= k < w1.len() implies is_digit(w1[k]) by {
        assert(w1[k] == s[i + k]);
    }
    let w2 = v.subrange(d1 + 1, d2);
    assert forall|k: int| 0 <= k < w2.len() implies is_digit(w2[k]) by {
        assert(w2[k] == s[i + d1 + 1 + k]);
    }
    let w3 = v.subrange(d2 + 1, v.len() as int);
    assert forall|k: int| 0 <= k < w3.len() implies is_digit(w3[k]) by {
        assert(w3[k] == s[i + d2 + 1 + k]);
    }
    assert(is_version_split(v, d1, d2));
}

fn is_digit_char(c: char) -> (b: bool)
    ensures
        b == is_digit(c),
{
    '0' <= c && c <= '9'
}

/// The end of the digit run starting at `i`.
fn digit_run_end(s: &str, i: usize) -> (r: usize)
    requires
        i <= s@.len(),
    ensures
        r == run_end(s@, i as int),
        i <= r <= s@.len(),
{
    let n: usize = s.unicode_len();
    let mut j: usize = i;
    while j < n && is_digit_char(s.get_char(j))
        invariant
            n == s@.len(),
            i <= j <= n,
            run_end(s@, i as int) == run_end(s@, j as int),
        decreases n - j,
    {
        j += 1;
    }
    proof {
        lemma_run_end_bounds(s@, i as int);
    }
    j
}

/// Whether a version match begins at `i`, and if so where it ends.
fn match_at_exec(s: &str, i: usize) -> (r: (bool, usize))
    requires
        i < s@.len(),
    ensures
        r.0 == match_at(s@, i as int),
        r.0 ==> r.1 == match_end(s@, i as int) && i < r.1 <= s@.len(),
{
    let n: usize = s.unicode_len();
    if !is_digit_char(s.get_char(i)) {
        return (false, 0);
    }
    let j1 = digit_run_end(s, i);
    if j1 >= n || s.get_char(j1) != '.' {
        return (false, 0);
    }
    if j1 + 1 >= n || !is_digit_char(s.get_char(j1 + 1)) {
        return (false, 0);
    }
    let j2 = digit_run_end(s, j1 + 1);
    if j2 >= n || s.get_char(j2) != '.' {
        return (false, 0);
    }
    if j2 + 1 >= n || !is_digit_char(s.get_char(j2 + 1)) {
        return (false, 0);
    }
    let e = digit_run_end(s, j2 + 1);
    proof {
        lemma_run_end_bounds(s@, i as int);
        lemma_run_end_bounds(s@, j1 as int + 1);
        lemma_run_end_bounds(s@, j2 as int + 1);
    }
    (true, e)
}

/// Scan `out` for the leftmost match of the version grammar.
pub fn find_version(out: &str) -> (r: Option<String>)
    ensures
        match r {
            Some(v) => version_of(out@) == Some(v@) && is_version_chars(v@),
            None => version_of(out@) is None,
        },
{
    let n: usize = out.unicode_len();
    let mut i: usize = 0;
    while i < n
        invariant
            n == out@.len(),
            0 <= i <= n,
            first_match_from(out@, 0) == first_match_from(out@, i as int),
        decreases n - i,
    {
        let (found, e) = match_at_exec(out, i);
        if found {
            let v = out.substring_char(i, e);
            proof {
                lemma_version_well_formed(out@);
            }
            return Some(String::from_str(v));
        }
        i += 1;
    }
    None
}

} // verus!
