//! Small verified helpers for working with strings as sequences of
//! characters.

use vstd::prelude::*;

verus! {

/// Character-wise equality of two string slices.
pub fn str_eq(a: &str, b: &str) -> (r: bool)
    ensures
        r == (a@ == b@),
{
    let na: usize = a.unicode_len();
    let nb: usize = b.unicode_len();
    if na != nb {
        assert(a@ != b@);
        return false;
    }
    let mut i: usize = 0;
    while i < na
        invariant
            na == a@.len(),
            na == b@.len(),
            0 <= i <= na,
            forall|k: int| 0 <= k < i ==> a@[k] == b@[k],
        decreases na - i,
    {
        if a.get_char(i) != b.get_char(i) {
            return false;
        }
        i += 1;
    }
    assert(a@ =~= b@);
    true
}

/// The position of the first occurrence of `c` in `s` at or after `i`.
pub open spec fn first_index_from(s: Seq<char>, c: char, i: int) -> Option<int>
    decreases s.len() - i when 0 <= i <= s.len()
{
    if i >= s.len() {
        None
    } else if s[i] == c {
        Some(i)
    } else {
        first_index_from(s, c, i + 1)
    }
}

/// `first_index_from` really is the first occurrence.
pub proof fn lemma_first_index_is(s: Seq<char>, c: char, i: int, k: int)
    requires
        0 <= i <= k < s.len(),
        s[k] == c,
        forall|j: int| i <= j < k ==> s[j] != c,
    ensures
        first_index_from(s, c, i) == Some(k),
    decreases k - i,
{
    if i < k {
        lemma_first_index_is(s, c, i + 1, k);
    }
}

/// What a `first_index_from` result means for the characters of `s`.
pub proof fn lemma_first_index_bounds(s: Seq<char>, c: char, i: int)
    requires
        0 <= i <= s.len(),
    ensures
        match first_index_from(s, c, i) {
            Some(k) => i <= k < s.len() && s[k] == c && (forall|j: int|
                i <= j < k ==> s[j] != c),
            None => forall|j: int| i <= j < s.len() ==> s[j] != c,
        },
    decreases s.len() - i,
{
    if i < s.len() && s[i] != c {
        lemma_first_index_bounds(s, c, i + 1);
    }
}

/// Find the first occurrence of `c` in `s`.
pub fn find_char(s: &str, c: char) -> (r: Option<usize>)
    ensures
        match r {
            Some(k) => first_index_from(s@, c, 0) == Some(k as int),
            None => first_index_from(s@, c, 0) is None,
        },
{
    let n: usize = s.unicode_len();
    let mut i: usize = 0;
    while i < n
        invariant
            n == s@.len(),
            0 <= i <= n,
            first_index_from(s@, c, 0) == first_index_from(s@, c, i as int),
        decreases n - i,
    {
        if s.get_char(i) == c {
            return Some(i);
        }
        i += 1;
    }
    None
}

/// Whether `p` occurs in `s` starting at position `at`.
pub fn matches_at(s: &str, at: usize, p: &str) -> (r: bool)
    requires
        at <= s@.len(),
    ensures
        r == (at + p@.len() <= s@.len() && s@.subrange(
            at as int,
            at as int + p@.len() as int,
        ) == p@),
{
    let n: usize = s.unicode_len();
    let m: usize = p.unicode_len();
    if m > n - at {
        return false;
    }
    let mut i: usize = 0;
    while i < m
        invariant
            n == s@.len(),
            m == p@.len(),
            at + m <= n,
            0 <= i <= m,
            forall|k: int| 0 <= k < i ==> s@[at + k] == p@[k],
        decreases m - i,
    {
        if s.get_char(at + i) != p.get_char(i) {
            assert(s@.subrange(at as int, at as int + p@.len() as int)[i as int] != p@[i as int]);
            return false;
        }
        i += 1;
    }
    assert(s@.subrange(at as int, at as int + p@.len() as int) =~= p@);
    true
}

/// The pieces joined back together with single spaces.
pub open spec fn spec_join_spaces(ps: Seq<Seq<char>>) -> Seq<char>
    decreases ps.len(),
{
    if ps.len() == 0 {
        Seq::empty()
    } else if ps.len() == 1 {
        ps[0]
    } else {
        ps[0] + seq![' '] + spec_join_spaces(ps.subrange(1, ps.len() as int))
    }
}

pub open spec fn no_space(p: Seq<char>) -> bool {
    forall|k: int| 0 <= k < p.len() ==> p[k] != ' '
}

proof fn lemma_join_push(ps: Seq<Seq<char>>, p: Seq<char>)
    requires
        ps.len() >= 1,
    ensures
        spec_join_spaces(ps.push(p)) == spec_join_spaces(ps) + seq![' '] + p,
    decreases ps.len(),
{
    let tail = ps.subrange(1, ps.len() as int);
    if ps.len() == 1 {
        let q = ps.push(p);
        assert(q.subrange(1, 2) =~= seq![p]);
        assert(spec_join_spaces(seq![p]) == p);
        assert(spec_join_spaces(q) == q[0] + seq![' '] + spec_join_spaces(q.subrange(1, 2)));
        assert(spec_join_spaces(q) == ps[0] + seq![' '] + p);
        assert(spec_join_spaces(ps) == ps[0]);
    } else {
        lemma_join_push(tail, p);
        assert(ps.push(p).subrange(1, ps.len() + 1 as int) =~= tail.push(p));
        assert(ps[0] + seq![' '] + (spec_join_spaces(tail) + seq![' '] + p) =~= (ps[0] + seq![' ']
            + spec_join_spaces(tail)) + seq![' '] + p);
    }
}

/// Split into the pieces between single spaces, keeping empty pieces, as
/// a command string is turned into an argument vector. The result is the
/// unique decomposition into space-free pieces whose space-joined
/// concatenation is the input.
pub fn split_spaces(s: &str) -> (r: Vec<String>)
    ensures
        r@.len() >= 1,
        forall|p: int| 0 <= p < r.deep_view().len() ==> no_space(r.deep_view()[p]),
        spec_join_spaces(r.deep_view()) == s@,
{
    let n: usize = s.unicode_len();
    let mut res: Vec<String> = Vec::new();
    let mut start: usize = 0;
    let mut i: usize = 0;
    while i < n
        invariant
            n == s@.len(),
            0 <= start <= i <= n,
            res@.len() == 0 ==> start == 0,
            res@.len() >= 1 ==> 1 <= start && s@[start - 1] == ' ' && spec_join_spaces(
                res.deep_view(),
            ) + seq![' '] == s@.subrange(0, start as int),
            forall|p: int| 0 <= p < res.deep_view().len() ==> no_space(res.deep_view()[p]),
            forall|k: int| start <= k < i ==> s@[k] != ' ',
        decreases n - i,
    {
        if s.get_char(i) == ' ' {
            let piece = s.substring_char(start, i);
            proof {
                assert forall|k: int| 0 <= k < piece@.len() implies piece@[k] != ' ' by {
                    assert(piece@[k] == s@[start + k]);
                }
            }
            let ghost old_dv = res.deep_view();
            res.push(String::from_str(piece));
            proof {
                assert(res.deep_view() =~= old_dv.push(piece@));
                if old_dv.len() == 0 {
                    assert(spec_join_spaces(res.deep_view()) == piece@);
                    assert(piece@ + seq![' '] =~= s@.subrange(0, i + 1));
                } else {
                    lemma_join_push(old_dv, piece@);
                    assert(spec_join_spaces(old_dv) + seq![' '] + piece@ + seq![' ']
                        =~= s@.subrange(0, i + 1));
                }
            }
            start = i + 1;
        }
        i += 1;
    }
    let piece = s.substring_char(start, n);
    proof {
        assert forall|k: int| 0 <= k < piece@.len() implies piece@[k] != ' ' by {
            assert(piece@[k] == s@[start + k]);
        }
    }
    let ghost old_dv = res.deep_view();
    res.push(String::from_str(piece));
    proof {
        assert(res.deep_view() =~= old_dv.push(piece@));
        if old_dv.len() == 0 {
            assert(spec_join_spaces(res.deep_view()) == piece@);
            assert(piece@ =~= s@);
        } else {
            lemma_join_push(old_dv, piece@);
            assert(spec_join_spaces(old_dv) + seq![' '] + piece@ =~= s@);
        }
    }
    res
}

} // verus!
