//! Small text helpers used by the desk and by the college search.
use vstd::prelude::*;
use vstd::string::StrSliceExecFns;

verus! {

/// Whether `s` starts with `prefix`, character by character.
pub fn starts_with(s: &str, prefix: &str) -> (r: bool)
    ensures
        r == prefix@.is_prefix_of(s@),
{
    let n = s.unicode_len();
    let m = prefix.unicode_len();
    if m > n {
        return false;
    }
    let mut i: usize = 0;
    while i < m
        invariant
            n == s@.len(),
            m == prefix@.len(),
            m <= n,
            i <= m,
            forall|j: int| 0 <= j < i ==> s@[j] == prefix@[j],
        decreases m - i,
    {
        if s.get_char(i) != prefix.get_char(i) {
            return false;
        }
        i = i + 1;
    }
    assert(prefix@ =~= s@.subrange(0, prefix@.len() as int));
    true
}

/// Whether `a` and `b` hold the same characters.
pub fn same_text(a: &str, b: &str) -> (r: bool)
    ensures
        r == (a@ == b@),
{
    if a.unicode_len() != b.unicode_len() {
        return false;
    }
    let r = starts_with(a, b);
    if r {
        assert(a@ =~= b@);
    }
    r
}

/// The lowercase form of `s`, as Unicode defines it.
pub uninterp spec fn lower_of(s: Seq<char>) -> Seq<char>;

/// Relies on `str::to_lowercase`: the lowercase form depends on the characters alone.
#[verifier::external_body]
pub(crate) fn to_lowercase(s: &str) -> (r: String)
    ensures
        r@ == lower_of(s@),
{
    s.to_lowercase()
}

/// `filter` occurs in `other` in order, not necessarily next to each other
/// (matched greedily from the left).
pub open spec fn is_subsequence(filter: Seq<char>, other: Seq<char>) -> bool
    decreases other.len(),
{
    if filter.len() == 0 {
        true
    } else if other.len() == 0 {
        false
    } else if filter[0] == other[0] {
        is_subsequence(filter.drop_first(), other.drop_first())
    } else {
        is_subsequence(filter, other.drop_first())
    }
}

/// The fuzzy match of the search box: `filter` is a subsequence of a non-empty `other`.
pub open spec fn fuzzy_matches(filter: Seq<char>, other: Seq<char>) -> bool {
    other.len() > 0 && is_subsequence(filter, other)
}

/// Relies on `fuzzy_filter::matches`: it walks `other` once, advancing through
/// `filter` on each equal character, and answers true as soon as `filter` is used up.
#[verifier::external_body]
pub(crate) fn fuzzy_match(filter: &str, other: &str) -> (r: bool)
    ensures
        r == fuzzy_matches(filter@, other@),
{
    fuzzy_filter::matches(filter, other)
}

} // verus!
