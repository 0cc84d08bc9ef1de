//! Case-insensitive substring matching, the predicate behind the store's
//! search operation.
//!
//! A query matches a record when it occurs as a substring of the record's
//! name, description or content, compared character by character after
//! folding ASCII capital letters to lower case.

use vstd::prelude::*;
use crate::FieldsView;

verus! {

/// Case folding for the search: an ASCII capital letter stands for its
/// lower-case counterpart, every other character for its own code point.
pub open spec fn fold_char(c: char) -> int {
    if 'A' as int <= c as int && c as int <= 'Z' as int {
        c as int + 32
    } else {
        c as int
    }
}

/// Two characters are equal up to ASCII case.
pub open spec fn chars_eq_ci(a: char, b: char) -> bool {
    fold_char(a) == fold_char(b)
}

/// `needle` occurs at position `i` of `hay`, up to ASCII case.
pub open spec fn matches_at(hay: Seq<char>, needle: Seq<char>, i: int) -> bool {
    &&& 0 <= i
    &&& i + needle.len() <= hay.len()
    &&& forall|j: int| 0 <= j < needle.len() ==> chars_eq_ci(#[trigger] hay[i + j], needle[j])
}

/// `needle` occurs somewhere in `hay` as a substring, up to ASCII case.
pub open spec fn contains_ci_spec(hay: Seq<char>, needle: Seq<char>) -> bool {
    exists|i: int| matches_at(hay, needle, i)
}

/// The query `q` matches a record's fields when it is a case-insensitive
/// substring of the name, the description or the content.
pub open spec fn matches_query(rec: FieldsView, q: Seq<char>) -> bool {
    ||| contains_ci_spec(rec.0, q)
    ||| contains_ci_spec(rec.1, q)
    ||| contains_ci_spec(rec.2, q)
}

/// The empty query occurs in every text, at position zero.
pub proof fn lemma_empty_needle(hay: Seq<char>)
    ensures
        contains_ci_spec(hay, Seq::<char>::empty()),
{
    assert(matches_at(hay, Seq::<char>::empty(), 0));
}

/// Folds one character as `fold_char` says.
fn fold_char_exec(c: char) -> (r: u32)
    ensures
        r as int == fold_char(c),
{
    let u = c as u32;
    if 65 <= u && u <= 90 {
        u + 32
    } else {
        u
    }
}

/// Compares `needle` against the characters of `hay` starting at position
/// `i`, up to ASCII case.
fn matches_at_exec(hay: &str, needle: &str, i: usize, m: usize) -> (r: bool)
    requires
        m == needle@.len(),
        i + m <= hay@.len(),
        hay@.len() <= usize::MAX,
    ensures
        r == matches_at(hay@, needle@, i as int),
{
    let mut j: usize = 0;
    while j < m
        invariant
            j <= m,
            m == needle@.len(),
            i + m <= hay@.len(),
            hay@.len() <= usize::MAX,
            forall|t: int| 0 <= t < j ==> chars_eq_ci(#[trigger] hay@[i + t], needle@[t]),
        decreases m - j,
    {
        let hc = hay.get_char(i + j);
        let nc = needle.get_char(j);
        if fold_char_exec(hc) != fold_char_exec(nc) {
            assert(!chars_eq_ci(hay@[i + j as int], needle@[j as int]));
            return false;
        }
        j += 1;
    }
    true
}

/// Whether `needle` occurs in `hay` as a substring, up to ASCII case.
pub fn contains_ci(hay: &str, needle: &str) -> (r: bool)
    ensures
        r == contains_ci_spec(hay@, needle@),
{
    let n = hay.unicode_len();
    let m = needle.unicode_len();
    if m > n {
        assert(forall|i: int| !matches_at(hay@, needle@, i));
        return false;
    }
    let mut i: usize = 0;
    while i <= n - m
        invariant
            m <= n,
            n == hay@.len(),
            m == needle@.len(),
            i <= n - m + 1,
            forall|t: int| 0 <= t < i ==> !matches_at(hay@, needle@, t),
        decreases n + 1 - i,
    {
        if matches_at_exec(hay, needle, i, m) {
            assert(matches_at(hay@, needle@, i as int));
            return true;
        }
        i += 1;
    }
    assert(forall|t: int| !matches_at(hay@, needle@, t));
    false
}

} // verus!
