//! Searching text for a pattern, by characters.

use vstd::prelude::*;

verus! {

/// `p` occurs in `s` starting at character position `i`.
pub open spec fn occurs_at(s: Seq<char>, p: Seq<char>, i: int) -> bool {
    0 <= i && i + p.len() <= s.len() && s.subrange(i, i + p.len()) == p
}

/// The greatest position below `n` at which `p` occurs in `s`, if any.
pub open spec fn last_occurrence_below(s: Seq<char>, p: Seq<char>, n: int) -> Option<int>
    decreases n,
{
    if n <= 0 {
        None
    } else if occurs_at(s, p, n - 1) {
        Some(n - 1)
    } else {
        last_occurrence_below(s, p, n - 1)
    }
}

/// The greatest position at which `p` occurs in `s`, if any.
pub open spec fn last_occurrence(s: Seq<char>, p: Seq<char>) -> Option<int> {
    last_occurrence_below(s, p, s.len() + 1 as int)
}

/// A position that the search finds is one where the pattern occurs.
pub proof fn lemma_found_occurs(s: Seq<char>, p: Seq<char>, n: int)
    ensures
        last_occurrence_below(s, p, n) matches Some(i) ==> occurs_at(s, p, i) && i < n,
    decreases n,
{
    if n > 0 {
        lemma_found_occurs(s, p, n - 1);
    }
}

/// Positions from `k` up to `n` hold no occurrence, so searching below `n`
/// finds what searching below `k` finds.
proof fn lemma_skip_tail(s: Seq<char>, p: Seq<char>, k: int, n: int)
    requires
        0 <= k <= n,
        forall|j: int| k <= j < n ==> !occurs_at(s, p, j),
    ensures
        last_occurrence_below(s, p, n) == last_occurrence_below(s, p, k),
    decreases n - k,
{
    if n > k {
        lemma_skip_tail(s, p, k, n - 1);
    }
}

/// Whether `p` occurs in `s` at position `i`.
fn occurs_at_exec(s: &str, p: &str, i: usize) -> (r: bool)
    requires
        i + p@.len() <= s@.len() <= usize::MAX,
    ensures
        r == occurs_at(s@, p@, i as int),
{
    let m = p.unicode_len();
    let mut j: usize = 0;
    while j < m
        invariant
            m == p@.len(),
            i + m <= s@.len() <= usize::MAX,
            j <= m,
            forall|k: int| 0 <= k < j ==> s@[i + k] == p@[k],
        decreases m - j,
    {
        if s.get_char(i + j) != p.get_char(j) {
            assert(s@.subrange(i as int, i + m)[j as int] != p@[j as int]);
            return false;
        }
        j += 1;
    }
    assert(s@.subrange(i as int, i + m) =~= p@);
    true
}

/// The character position of the last occurrence of `p` in `s`.
pub fn rfind(s: &str, p: &str) -> (r: Option<usize>)
    ensures
        match r {
            Some(i) => last_occurrence(s@, p@) == Some(i as int),
            None => last_occurrence(s@, p@) == None::<int>,
        },
        r matches Some(i) ==> occurs_at(s@, p@, i as int),
{
    let n = s.unicode_len();
    let m = p.unicode_len();
    if m == 0 {
        assert(s@.subrange(n as int, n as int) =~= p@);
        return Some(n);
    }
    if m > n {
        proof {
            lemma_skip_tail(s@, p@, 0, s@.len() + 1 as int);
        }
        return None;
    }
    let mut i: usize = n - m + 1;
    proof {
        lemma_skip_tail(s@, p@, i as int, s@.len() + 1 as int);
    }
    while i > 0
        invariant
            n == s@.len(),
            m == p@.len(),
            1 <= m <= n,
            i <= n - m + 1,
            last_occurrence(s@, p@) == last_occurrence_below(s@, p@, i as int),
        decreases i,
    {
        if occurs_at_exec(s, p, i - 1) {
            return Some(i - 1);
        }
        i -= 1;
    }
    None
}

/// Whether `s` begins with `p`.
pub fn starts_with(s: &str, p: &str) -> (r: bool)
    ensures
        r == p@.is_prefix_of(s@),
{
    if p.unicode_len() > s.unicode_len() {
        return false;
    }
    let r = occurs_at_exec(s, p, 0);
    assert(r == (s@.subrange(0, p@.len() as int) =~= p@));
    r
}

} // verus!
