//! Verified character-level string utilities: exact comparison and
//! ASCII-case-insensitive comparison of string slices.

use vstd::prelude::*;

verus! {

/// ASCII lower-casing of a single character: `'A'..='Z'` shift down by 32,
/// everything else (including non-ASCII) is unchanged.
pub open spec fn lower_char(c: char) -> char {
    if 'A' <= c && c <= 'Z' {
        (c as u32 + 32) as char
    } else {
        c
    }
}

/// ASCII lower-casing of a whole string, character by character.
pub open spec fn lower_seq(s: Seq<char>) -> Seq<char> {
    s.map_values(|c: char| lower_char(c))
}

/// Lower-casing twice is the same as lower-casing once.
pub proof fn lemma_lower_seq_idempotent(s: Seq<char>)
    ensures
        lower_seq(lower_seq(s)) == lower_seq(s),
{
    assert forall|i: int| 0 <= i < s.len() implies lower_char(lower_char(s[i])) == lower_char(
        s[i],
    ) by {
        let c = s[i];
        if 'A' <= c && c <= 'Z' {
            assert(97 <= (c as u32 + 32) && (c as u32 + 32) <= 122);
        }
    }
    assert(lower_seq(lower_seq(s)) =~= lower_seq(s));
}

/// Whether one character lower-cases to another.
fn lower_char_eq(c: char, k: char) -> (r: bool)
    ensures
        r == (lower_char(c) == k),
{
    if 'A' <= c && c <= 'Z' {
        c as u32 + 32 == k as u32
    } else {
        c == k
    }
}

/// Exact (case-sensitive) string comparison.
pub fn str_eq(a: &str, b: &str) -> (r: bool)
    ensures
        r == (a@ == b@),
{
    let n = a.unicode_len();
    if n != b.unicode_len() {
        return false;
    }
    let mut i: usize = 0;
    while i < n
        invariant
            i <= n,
            n == a@.len(),
            n == b@.len(),
            forall|j: int| 0 <= j < i ==> a@[j] == b@[j],
        decreases n - i,
    {
        if a.get_char(i) != b.get_char(i) {
            return false;
        }
        i += 1;
    }
    proof {
        assert(a@ =~= b@);
    }
    true
}

/// Whether `s`, lower-cased, is exactly `key`.
pub fn key_matches(s: &str, key: &str) -> (r: bool)
    ensures
        r == (lower_seq(s@) == key@),
{
    let n = s.unicode_len();
    if n != key.unicode_len() {
        assert(lower_seq(s@).len() != key@.len());
        return false;
    }
    let mut i: usize = 0;
    while i < n
        invariant
            i <= n,
            n == s@.len(),
            n == key@.len(),
            forall|j: int| 0 <= j < i ==> lower_char(s@[j]) == key@[j],
        decreases n - i,
    {
        if !lower_char_eq(s.get_char(i), key.get_char(i)) {
            assert(lower_seq(s@)[i as int] != key@[i as int]);
            return false;
        }
        i += 1;
    }
    proof {
        assert(lower_seq(s@) =~= key@);
    }
    true
}

} // verus!
