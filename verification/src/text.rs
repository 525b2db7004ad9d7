//! Comparisons and slicing of texts by characters.
use vstd::prelude::*;

verus! {

/// Whether `a` and `b` hold the same characters.
pub fn same_text(a: &str, b: &str) -> (res: bool)
    ensures
        res == (a@ == b@),
{
    let n = a.unicode_len();
    let m = b.unicode_len();
    if n != m {
        return false;
    }
    let mut i: usize = 0;
    while i < n
        invariant
            n == a@.len(),
            m == b@.len(),
            n == m,
            i <= n,
            forall|j: int| 0 <= j < i ==> a@[j] == b@[j],
        decreases n - i,
    {
        if a.get_char(i) != b.get_char(i) {
            return false;
        }
        i = i + 1;
    }
    assert(a@ =~= b@);
    true
}

/// Whether `prefix` is where `s` begins.
pub fn starts_with_text(s: &str, prefix: &str) -> (res: bool)
    ensures
        res == prefix@.is_prefix_of(s@),
{
    let n = s.unicode_len();
    let m = prefix.unicode_len();
    if m > n {
        return false;
    }
    let mut i: usize = 0;
    while i < m
        invariant
            n == s@.len(),
            m == prefix@.len(),
            m <= n,
            i <= m,
            forall|j: int| 0 <= j < i ==> prefix@[j] == s@[j],
        decreases m - i,
    {
        if s.get_char(i) != prefix.get_char(i) {
            assert(prefix@[i as int] != s@.subrange(0, m as int)[i as int]);
            return false;
        }
        i = i + 1;
    }
    assert(prefix@ =~= s@.subrange(0, m as int));
    true
}

/// `s` without `prefix` when it begins with it, as `str::strip_prefix` gives it.
pub fn strip_prefix_text(s: &str, prefix: &str) -> (res: Option<String>)
    ensures
        res is Some <==> prefix@.is_prefix_of(s@),
        res matches Some(t) ==> t@ == s@.skip(prefix@.len() as int),
{
    if starts_with_text(s, prefix) {
        let rest = s.substring_char(prefix.unicode_len(), s.unicode_len());
        assert(rest@ =~= s@.skip(prefix@.len() as int));
        Some(rest.to_owned())
    } else {
        None
    }
}

/// `full` is `base` with the whole of `x` put in at position `k`: `x` is neither
/// cut, changed nor moved, and nothing else differs.
pub open spec fn holds_whole_at(full: Seq<char>, base: Seq<char>, k: int, x: Seq<char>) -> bool {
    &&& 0 <= k <= base.len()
    &&& full == base.take(k) + x + base.skip(k)
}

/// `full` is `base` followed by the whole of `x`.
pub open spec fn ends_with_whole(full: Seq<char>, base: Seq<char>, x: Seq<char>) -> bool {
    &&& full.len() == base.len() + x.len()
    &&& full.take(base.len() as int) == base
    &&& full.skip(base.len() as int) == x
}

} // verus!
