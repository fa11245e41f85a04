//! Substring containment over character sequences: the matching policy of
//! the snippet search. Matching is case-sensitive, exact substring
//! containment; the empty needle is contained in every text.

use vstd::prelude::*;

verus! {

/// `needle` occurs in `hay` starting at character position `i`.
pub open spec fn match_at(hay: Seq<char>, needle: Seq<char>, i: int) -> bool {
    &&& 0 <= i
    &&& i + needle.len() <= hay.len()
    &&& hay.subrange(i, i + needle.len()) == needle
}

/// `needle` occurs somewhere in `hay` as a contiguous substring.
pub open spec fn contains_seq(hay: Seq<char>, needle: Seq<char>) -> bool {
    exists|i: int| match_at(hay, needle, i)
}

/// Every sequence contains itself (at position 0).
pub proof fn lemma_contains_self(s: Seq<char>)
    ensures
        contains_seq(s, s),
{
    assert(s.subrange(0, s.len() as int) =~= s);
    assert(match_at(s, s, 0));
}

/// The empty sequence is contained in every sequence (at position 0).
pub proof fn lemma_contains_empty(s: Seq<char>)
    ensures
        contains_seq(s, Seq::<char>::empty()),
{
    assert(s.subrange(0, 0) =~= Seq::<char>::empty());
    assert(match_at(s, Seq::<char>::empty(), 0));
}

/// Decides whether `needle` occurs in `hay` at position `i` by comparing
/// the characters one by one.
fn match_at_exec(hay: &str, needle: &str, i: usize) -> (r: bool)
    requires
        i + needle@.len() <= hay@.len(),
    ensures
        r == match_at(hay@, needle@, i as int),
{
    let n = hay.unicode_len();
    let m = needle.unicode_len();
    let mut j: usize = 0;
    while j < m
        invariant
            n == hay@.len(),
            m == needle@.len(),
            i + m <= n,
            j <= m,
            forall|k: int| 0 <= k < j ==> hay@[i + k] == needle@[k],
        decreases m - j,
    {
        if hay.get_char(i + j) != needle.get_char(j) {
            proof {
                let sub = hay@.subrange(i as int, i + m);
                assert(sub[j as int] == hay@[i + j]);
            }
            return false;
        }
        j += 1;
    }
    proof {
        assert(hay@.subrange(i as int, i + m) =~= needle@);
    }
    true
}

/// Decides substring containment: whether `needle@` occurs in `hay@`.
pub fn contains_str(hay: &str, needle: &str) -> (r: bool)
    ensures
        r == contains_seq(hay@, needle@),
{
    let n = hay.unicode_len();
    let m = needle.unicode_len();
    if m > n {
        proof {
            assert(forall|i: int| !match_at(hay@, needle@, i));
        }
        return false;
    }
    if m == 0 {
        proof {
            lemma_contains_empty(hay@);
            assert(needle@ =~= Seq::<char>::empty());
        }
        return true;
    }
    let mut i: usize = 0;
    while i <= n - m
        invariant
            n == hay@.len(),
            m == needle@.len(),
            1 <= m <= n,
            i <= n - m + 1,
            forall|k: int| 0 <= k < i ==> !match_at(hay@, needle@, k),
        decreases n - m + 1 - i,
    {
        if match_at_exec(hay, needle, i) {
            return true;
        }
        i += 1;
    }
    proof {
        assert forall|k: int| !match_at(hay@, needle@, k) by {
            if 0 <= k < i {
            } else if k > n - m {
                assert(k + needle@.len() > hay@.len());
            }
        }
    }
    false
}

} // verus!
