//! Display-title computation: a window title given as a path-like string
//! keeps only the component after the last `/` separator.

use vstd::prelude::*;

verus! {

/// Byte value of the `/` path separator.
pub const SLASH: u8 = 47;

/// The suffix of `s` that follows its last `/` byte; all of `s` when no
/// `/` occurs in it.
pub open spec fn strip_path(s: Seq<u8>) -> Seq<u8>
    decreases s.len(),
{
    if s.len() == 0 {
        s
    } else if s[s.len() - 1] == SLASH {
        Seq::empty()
    } else {
        strip_path(s.drop_last()).push(s[s.len() - 1])
    }
}

/// `strip_path` returns the subrange that follows the last separator:
/// if no byte after position `k` is a `/`, and `k` is either a `/` or
/// just before the start, the result is exactly `s[k + 1 ..]`.
proof fn lemma_strip_path_subrange(s: Seq<u8>, k: int)
    requires
        -1 <= k < s.len(),
        k >= 0 ==> s[k] == SLASH,
        forall|j: int| k < j < s.len() ==> s[j] != SLASH,
    ensures
        strip_path(s) == s.subrange(k + 1, s.len() as int),
    decreases s.len(),
{
    if s.len() == 0 {
        assert(strip_path(s) =~= s.subrange(k + 1, s.len() as int));
    } else if k == s.len() - 1 {
        assert(strip_path(s) =~= s.subrange(k + 1, s.len() as int));
    } else {
        lemma_strip_path_subrange(s.drop_last(), k);
        assert(strip_path(s) =~= s.subrange(k + 1, s.len() as int));
    }
}

/// A title has no `/` at or after position `i`.
pub open spec fn no_slash_from(s: Seq<u8>, i: int) -> bool {
    forall|j: int| i <= j < s.len() ==> s[j] != SLASH
}

/// Strips a leading path-like prefix from a window title: only the bytes
/// after the last `/` remain; a title without `/` is returned verbatim.
pub fn display_title(title: &[u8]) -> (r: Vec<u8>)
    ensures
        r@ == strip_path(title@),
{
    let n: usize = title.len();
    let mut cut: usize = 0;
    let mut found: bool = false;
    let mut i: usize = n;
    while i > 0 && !found
        invariant
            0 <= i <= n,
            n == title@.len(),
            !found ==> cut == 0 && no_slash_from(title@, i as int),
            found ==> 1 <= cut <= n && title@[cut - 1] == SLASH
                && no_slash_from(title@, cut as int),
        decreases i,
    {
        i = i - 1;
        if title[i] == SLASH {
            cut = i + 1;
            found = true;
        }
    }
    proof {
        if found {
            lemma_strip_path_subrange(title@, cut - 1);
        } else {
            lemma_strip_path_subrange(title@, -1);
        }
    }
    let mut r: Vec<u8> = Vec::new();
    assert(r@ =~= title@.subrange(cut as int, cut as int));
    let mut j: usize = cut;
    while j < n
        invariant
            cut <= j <= n,
            n == title@.len(),
            r@ == title@.subrange(cut as int, j as int),
        decreases n - j,
    {
        r.push(title[j]);
        assert(r@ =~= title@.subrange(cut as int, j as int + 1));
        j = j + 1;
    }
    assert(r@ =~= title@.subrange(cut as int, n as int));
    r
}

} // verus!
