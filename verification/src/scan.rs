use vstd::prelude::*;
use vstd::string::StrSliceExecFns;

verus! {

/// True when `pat` occurs in `text` starting exactly at index `i`.
pub open spec fn spec_match_at(text: Seq<char>, pat: Seq<char>, i: int) -> bool {
    0 <= i && i + pat.len() <= text.len() && text.subrange(i, i + pat.len() as int) == pat
}

/// Index of the first occurrence of `pat` in `text` at or after position `i`,
/// or `None` when there is none.
pub open spec fn spec_find_from(text: Seq<char>, pat: Seq<char>, i: int) -> Option<int>
    decreases text.len() - i + 1,
{
    if i < 0 || i + pat.len() > text.len() {
        None
    } else if text.subrange(i, i + pat.len() as int) == pat {
        Some(i)
    } else {
        spec_find_from(text, pat, i + 1)
    }
}

/// Index of the first occurrence of `pat` in `text`, or `None`.
pub open spec fn spec_find(text: Seq<char>, pat: Seq<char>) -> Option<int> {
    spec_find_from(text, pat, 0)
}

/// True when `pat` occurs somewhere in `text`.
pub open spec fn spec_contains(text: Seq<char>, pat: Seq<char>) -> bool {
    spec_find(text, pat) is Some
}

/// A successful search result is a real match no earlier than the start position.
pub proof fn lemma_find_from_some(text: Seq<char>, pat: Seq<char>, i: int, j: int)
    requires
        spec_find_from(text, pat, i) == Some(j),
    ensures
        i <= j,
        spec_match_at(text, pat, j),
    decreases text.len() - i + 1,
{
    if !(i < 0 || i + pat.len() > text.len()) {
        if text.subrange(i, i + pat.len() as int) == pat {
        } else {
            lemma_find_from_some(text, pat, i + 1, j);
        }
    }
}

/// Whether `pat` occurs in `text` exactly at index `i`.
fn matches_at(text: &str, pat: &str, i: usize) -> (r: bool)
    requires
        i + pat@.len() <= text@.len(),
    ensures
        r == spec_match_at(text@, pat@, i as int),
{
    let n = text.unicode_len();
    let m = pat.unicode_len();
    let mut j: usize = 0;
    while j < m
        invariant
            n == text@.len(),
            m == pat@.len(),
            i + m <= n,
            j <= m,
            forall|k: int| 0 <= k < j ==> text@[i + k] == pat@[k],
        decreases m - j,
    {
        if text.get_char(i + j) != pat.get_char(j) {
            proof {
                assert(text@.subrange(i as int, i + m as int)[j as int] == text@[i + j]);
            }
            return false;
        }
        j += 1;
    }
    proof {
        assert(text@.subrange(i as int, i + m as int) =~= pat@);
    }
    true
}

/// First occurrence of `pat` in `text`, as `str::find` reports it,
/// counted in characters.
pub fn find_str(text: &str, pat: &str) -> (r: Option<usize>)
    ensures
        match r {
            Some(i) => spec_find(text@, pat@) == Some(i as int),
            None => spec_find(text@, pat@) is None,
        },
{
    let n = text.unicode_len();
    let m = pat.unicode_len();
    if m > n {
        return None;
    }
    let mut i: usize = 0;
    while i <= n - m
        invariant
            n == text@.len(),
            m == pat@.len(),
            m <= n,
            i <= n - m + 1,
            spec_find_from(text@, pat@, 0) == spec_find_from(text@, pat@, i as int),
        decreases n - i,
    {
        if matches_at(text, pat, i) {
            return Some(i);
        }
        proof {
            if m == 0 {
                assert(text@.subrange(i as int, i as int) =~= pat@);
            }
            assert(spec_find_from(text@, pat@, i as int) == spec_find_from(
                text@,
                pat@,
                i + 1 as int,
            ));
        }
        i += 1;
    }
    None
}

/// Whether `pat` occurs somewhere in `text`.
pub fn contains_str(text: &str, pat: &str) -> (r: bool)
    ensures
        r == spec_contains(text@, pat@),
{
    match find_str(text, pat) {
        Some(_) => true,
        None => false,
    }
}

/// Whether `text` starts with `pat`.
pub fn starts_with_str(text: &str, pat: &str) -> (r: bool)
    ensures
        r == pat@.is_prefix_of(text@),
{
    let n = text.unicode_len();
    let m = pat.unicode_len();
    if m > n {
        return false;
    }
    let r = matches_at(text, pat, 0);
    proof {
        if r {
            assert(pat@ =~= text@.subrange(0, pat@.len() as int));
        } else {
            if pat@.is_prefix_of(text@) {
                assert(text@.subrange(0, pat@.len() as int) =~= pat@);
            }
        }
    }
    r
}

/// Character-for-character equality of two string slices.
pub fn str_eq(a: &str, b: &str) -> (r: bool)
    ensures
        r == (a@ == b@),
{
    let n = a.unicode_len();
    let m = b.unicode_len();
    if n != m {
        return false;
    }
    let r = matches_at(a, b, 0);
    proof {
        if r {
            assert(a@.subrange(0, n as int) =~= a@);
        } else {
            if a@ == b@ {
                assert(a@.subrange(0, n as int) =~= b@);
            }
        }
    }
    r
}

} // verus!
