//! Verified text predicates used by the validators: equality, case-insensitive
//! comparison, substring search, blank detection, and the e-mail address
//! pattern.  All executable functions are proved against spec-level
//! predicates over the character sequences of their inputs.

use vstd::prelude::*;
use vstd::string::StrSliceExecFns;

verus! {

/// ASCII whitespace, the characters the blank-field checks treat as spacing.
pub open spec fn is_ascii_space(c: char) -> bool {
    c == ' ' || c == '\t' || c == '\n' || c == '\r' || c == '\u{000B}' || c == '\u{000C}'
}

/// A string is blank when every character is whitespace (an empty string is
/// blank).
pub open spec fn spec_is_blank(s: Seq<char>) -> bool {
    forall|i: int| 0 <= i < s.len() ==> is_ascii_space(s[i])
}

/// Two characters are equal up to ASCII case.
pub open spec fn chars_eq_ic(a: char, b: char) -> bool {
    ||| a == b
    ||| (65 <= a as int <= 90 && b as int == a as int + 32)
    ||| (65 <= b as int <= 90 && a as int == b as int + 32)
}

/// Two strings are equal up to ASCII case.
pub open spec fn spec_eq_ic(s: Seq<char>, t: Seq<char>) -> bool {
    s.len() == t.len() && forall|i: int| 0 <= i < s.len() ==> chars_eq_ic(s[i], t[i])
}

/// `p` occurs at the start of `s`.
pub open spec fn spec_starts_with(s: Seq<char>, p: Seq<char>) -> bool {
    s.len() >= p.len() && forall|i: int| 0 <= i < p.len() ==> s[i] == p[i]
}

/// `p` occurs at the end of `s`, up to ASCII case.
pub open spec fn spec_ends_with_ic(s: Seq<char>, p: Seq<char>) -> bool {
    s.len() >= p.len() && forall|i: int|
        0 <= i < p.len() ==> chars_eq_ic(s[s.len() - p.len() + i], p[i])
}

/// `p` occurs in `s` starting at offset `k`, up to ASCII case.
pub open spec fn spec_matches_ic_at(s: Seq<char>, p: Seq<char>, k: int) -> bool {
    forall|i: int| 0 <= i < p.len() ==> chars_eq_ic(s[k + i], p[i])
}

/// `p` occurs somewhere in `s`, up to ASCII case.
pub open spec fn spec_contains_ic(s: Seq<char>, p: Seq<char>) -> bool {
    exists|k: int| 0 <= k && k + p.len() <= s.len() && spec_matches_ic_at(s, p, k)
}

/// `p` occurs in `s` starting at offset `k`.
pub open spec fn spec_matches_at(s: Seq<char>, p: Seq<char>, k: int) -> bool {
    forall|i: int| 0 <= i < p.len() ==> s[k + i] == p[i]
}

/// `p` occurs somewhere in `s`.
pub open spec fn spec_contains(s: Seq<char>, p: Seq<char>) -> bool {
    exists|k: int| 0 <= k && k + p.len() <= s.len() && spec_matches_at(s, p, k)
}

/// The character `c` occurs in `s`.
pub open spec fn spec_contains_char(s: Seq<char>, c: char) -> bool {
    exists|i: int| 0 <= i < s.len() && s[i] == c
}

/// Decides whether every character of `s` is ASCII whitespace.
pub fn is_blank(s: &str) -> (r: bool)
    ensures
        r == spec_is_blank(s@),
{
    let n = s.unicode_len();
    let mut i: usize = 0;
    while i < n
        invariant
            n == s@.len(),
            0 <= i <= n,
            forall|j: int| 0 <= j < i ==> is_ascii_space(s@[j]),
        decreases n - i,
    {
        let c = s.get_char(i);
        if !(c == ' ' || c == '\t' || c == '\n' || c == '\r' || c == '\u{000B}' || c
            == '\u{000C}') {
            return false;
        }
        i += 1;
    }
    true
}

/// Decides character-for-character equality of two strings.
pub fn str_eq(a: &str, b: &str) -> (r: bool)
    ensures
        r == (a@ == b@),
{
    let n = a.unicode_len();
    if n != b.unicode_len() {
        return false;
    }
    let mut i: usize = 0;
    while i < n
        invariant
            n == a@.len(),
            n == b@.len(),
            0 <= i <= n,
            forall|j: int| 0 <= j < i ==> a@[j] == b@[j],
        decreases n - i,
    {
        if a.get_char(i) != b.get_char(i) {
            return false;
        }
        i += 1;
    }
    proof {
        assert(a@ =~= b@);
    }
    true
}

/// Decides equality of two characters up to ASCII case.
fn char_eq_ic(a: char, b: char) -> (r: bool)
    ensures
        r == chars_eq_ic(a, b),
{
    let x = a as u32;
    let y = b as u32;
    x == y || (65 <= x && x <= 90 && y == x + 32) || (65 <= y && y <= 90 && x == y + 32)
}

/// Decides equality of two strings up to ASCII case.
pub fn str_eq_ic(a: &str, b: &str) -> (r: bool)
    ensures
        r == spec_eq_ic(a@, b@),
{
    let n = a.unicode_len();
    if n != b.unicode_len() {
        return false;
    }
    let mut i: usize = 0;
    while i < n
        invariant
            n == a@.len(),
            n == b@.len(),
            0 <= i <= n,
            forall|j: int| 0 <= j < i ==> chars_eq_ic(a@[j], b@[j]),
        decreases n - i,
    {
        if !char_eq_ic(a.get_char(i), b.get_char(i)) {
            return false;
        }
        i += 1;
    }
    true
}

/// Decides whether the character `c` occurs in `s`.
pub fn contains_char(s: &str, c: char) -> (r: bool)
    ensures
        r == spec_contains_char(s@, c),
{
    let n = s.unicode_len();
    let mut i: usize = 0;
    while i < n
        invariant
            n == s@.len(),
            0 <= i <= n,
            forall|j: int| 0 <= j < i ==> s@[j] != c,
        decreases n - i,
    {
        if s.get_char(i) == c {
            return true;
        }
        i += 1;
    }
    false
}

/// Decides whether `s` starts with `p`.
pub fn starts_with(s: &str, p: &str) -> (r: bool)
    ensures
        r == spec_starts_with(s@, p@),
{
    let n = s.unicode_len();
    let m = p.unicode_len();
    if n < m {
        return false;
    }
    let mut i: usize = 0;
    while i < m
        invariant
            n == s@.len(),
            m == p@.len(),
            m <= n,
            0 <= i <= m,
            forall|j: int| 0 <= j < i ==> s@[j] == p@[j],
        decreases m - i,
    {
        if s.get_char(i) != p.get_char(i) {
            return false;
        }
        i += 1;
    }
    true
}

/// Decides whether `s` ends with `p`, up to ASCII case.
pub fn ends_with_ic(s: &str, p: &str) -> (r: bool)
    ensures
        r == spec_ends_with_ic(s@, p@),
{
    let n = s.unicode_len();
    let m = p.unicode_len();
    if n < m {
        return false;
    }
    let off = n - m;
    let mut i: usize = 0;
    while i < m
        invariant
            n == s@.len(),
            m == p@.len(),
            m <= n,
            off == n - m,
            0 <= i <= m,
            forall|j: int| 0 <= j < i ==> chars_eq_ic(s@[off + j], p@[j]),
        decreases m - i,
    {
        if !char_eq_ic(s.get_char(off + i), p.get_char(i)) {
            return false;
        }
        i += 1;
    }
    true
}

/// Decides whether `p` occurs in `s`, up to ASCII case.
pub fn contains_ic(s: &str, p: &str) -> (r: bool)
    ensures
        r == spec_contains_ic(s@, p@),
{
    let n = s.unicode_len();
    let m = p.unicode_len();
    if m > n {
        return false;
    }
    let mut k: usize = 0;
    while k <= n - m
        invariant
            n == s@.len(),
            m == p@.len(),
            m <= n,
            0 <= k <= n - m + 1,
            forall|q: int| 0 <= q < k ==> !spec_matches_ic_at(s@, p@, q),
        decreases n - m - k + 1,
    {
        let mut i: usize = 0;
        let mut hit = true;
        while i < m
            invariant
                n == s@.len(),
                m == p@.len(),
                m <= n,
                0 <= k <= n - m,
                0 <= i <= m,
                hit ==> forall|j: int| 0 <= j < i ==> chars_eq_ic(s@[k + j], p@[j]),
                !hit ==> !spec_matches_ic_at(s@, p@, k as int),
            decreases m - i,
        {
            if !char_eq_ic(s.get_char(k + i), p.get_char(i)) {
                hit = false;
                i = m;
            } else {
                i += 1;
            }
        }
        if hit {
            assert(spec_matches_ic_at(s@, p@, k as int));
            return true;
        }
        k += 1;
    }
    false
}

/// Decides whether `p` occurs in `s` (case-sensitive).
pub fn contains_str(s: &str, p: &str) -> (r: bool)
    ensures
        r == spec_contains(s@, p@),
{
    let n = s.unicode_len();
    let m = p.unicode_len();
    if m > n {
        return false;
    }
    let mut k: usize = 0;
    while k <= n - m
        invariant
            n == s@.len(),
            m == p@.len(),
            m <= n,
            0 <= k <= n - m + 1,
            forall|q: int| 0 <= q < k ==> !spec_matches_at(s@, p@, q),
        decreases n - m - k + 1,
    {
        let mut i: usize = 0;
        let mut hit = true;
        while i < m
            invariant
                n == s@.len(),
                m == p@.len(),
                m <= n,
                0 <= k <= n - m,
                0 <= i <= m,
                hit ==> forall|j: int| 0 <= j < i ==> s@[k + j] == p@[j],
                !hit ==> !spec_matches_at(s@, p@, k as int),
            decreases m - i,
        {
            if s.get_char(k + i) != p.get_char(i) {
                hit = false;
                i = m;
            } else {
                i += 1;
            }
        }
        if hit {
            assert(spec_matches_at(s@, p@, k as int));
            return true;
        }
        k += 1;
    }
    false
}

/// A well-formed e-mail address: a single `@` with at least one character
/// before it, a `.` with at least one character on each side after the `@`,
/// and no whitespace anywhere.  `a` is the position of the `@`, `p` the
/// position of a qualifying `.`.
pub open spec fn spec_email_split_at(s: Seq<char>, a: int, p: int) -> bool {
    &&& 1 <= a
    &&& a + 2 <= p
    &&& p + 2 <= s.len()
    &&& s[a] == '@'
    &&& s[p] == '.'
    &&& forall|i: int| 0 <= i < s.len() && i != a ==> s[i] != '@'
    &&& forall|i: int| 0 <= i < s.len() ==> !is_ascii_space(s[i])
}

/// The e-mail address pattern for donor records: some split as above exists.
pub open spec fn spec_email_format(s: Seq<char>) -> bool {
    exists|a: int, p: int| spec_email_split_at(s, a, p)
}

/// Decides the e-mail address pattern.
pub fn matches_email_pattern(s: &str) -> (r: bool)
    ensures
        r == spec_email_format(s@),
{
    let n = s.unicode_len();
    // No whitespace anywhere.
    let mut i: usize = 0;
    while i < n
        invariant
            n == s@.len(),
            0 <= i <= n,
            forall|j: int| 0 <= j < i ==> !is_ascii_space(s@[j]),
        decreases n - i,
    {
        let c = s.get_char(i);
        if c == ' ' || c == '\t' || c == '\n' || c == '\r' || c == '\u{000B}' || c == '\u{000C}' {
            return false;
        }
        i += 1;
    }
    // Exactly one '@'.
    let mut at_idx: usize = 0;
    let mut found_at = false;
    i = 0;
    while i < n
        invariant
            n == s@.len(),
            0 <= i <= n,
            found_at ==> at_idx < i && s@[at_idx as int] == '@',
            found_at ==> forall|j: int| 0 <= j < i && j != at_idx ==> s@[j] != '@',
            !found_at ==> forall|j: int| 0 <= j < i ==> s@[j] != '@',
        decreases n - i,
    {
        if s.get_char(i) == '@' {
            if found_at {
                return false;
            }
            found_at = true;
            at_idx = i;
        }
        i += 1;
    }
    if !found_at {
        return false;
    }
    if at_idx < 1 || n < 4 || at_idx > n - 4 {
        return false;
    }
    // A '.' with at least one character on each side after the '@'.
    let mut p: usize = at_idx + 2;
    while p <= n - 2
        invariant
            n == s@.len(),
            s@[at_idx as int] == '@',
            forall|j: int| 0 <= j < n && j != at_idx ==> s@[j] != '@',
            forall|j: int| 0 <= j < n ==> !is_ascii_space(s@[j]),
            1 <= at_idx,
            4 <= n,
            at_idx + 2 <= p,
            forall|q: int| at_idx + 2 <= q < p ==> s@[q] != '.',
        decreases n - p,
    {
        if s.get_char(p) == '.' {
            assert(spec_email_split_at(s@, at_idx as int, p as int));
            return true;
        }
        p += 1;
    }
    false
}

/// Decides whether some element of `v` equals `s`.
pub fn vec_contains_str(v: &Vec<String>, s: &str) -> (r: bool)
    ensures
        r == (exists|i: int| 0 <= i < v@.len() && v@[i]@ == s@),
{
    let n = v.len();
    let mut i: usize = 0;
    while i < n
        invariant
            n == v@.len(),
            0 <= i <= n,
            forall|j: int| 0 <= j < i ==> v@[j]@ != s@,
        decreases n - i,
    {
        if str_eq(v[i].as_str(), s) {
            return true;
        }
        i += 1;
    }
    false
}

/// Element-for-element equality of two string sequences.
pub open spec fn spec_str_vec_eq(a: Seq<String>, b: Seq<String>) -> bool {
    a.len() == b.len() && forall|i: int| 0 <= i < a.len() ==> a[i]@ == b[i]@
}

/// Decides element-for-element equality of two string vectors.
pub fn string_vecs_eq(a: &Vec<String>, b: &Vec<String>) -> (r: bool)
    ensures
        r == spec_str_vec_eq(a@, b@),
{
    let n = a.len();
    if n != b.len() {
        return false;
    }
    let mut i: usize = 0;
    while i < n
        invariant
            n == a@.len(),
            n == b@.len(),
            0 <= i <= n,
            forall|j: int| 0 <= j < i ==> a@[j]@ == b@[j]@,
        decreases n - i,
    {
        if !str_eq(a[i].as_str(), b[i].as_str()) {
            return false;
        }
        i += 1;
    }
    true
}

} // verus!
