//! Small verified string helpers shared across the crate: prefix tests,
//! substring search, trimming, ASCII case folding and decimal rendering.

use vstd::prelude::*;
use vstd::string::StrSliceExecFns;
use vstd::string::StringExecFns;

verus! {

/// A sequence `p` is a prefix of `s`.
pub open spec fn is_prefix_of(p: Seq<char>, s: Seq<char>) -> bool {
    p.len() <= s.len() && s.subrange(0, p.len() as int) == p
}

/// The pattern `p` occurs in `s` at position `i`.
pub open spec fn occurs_at(s: Seq<char>, p: Seq<char>, i: int) -> bool {
    0 <= i && i + p.len() <= s.len() && s.subrange(i, i + p.len() as int) == p
}

/// The position of the first occurrence of `p` in `s`, if any.
#[verifier::opaque]
pub open spec fn first_occurrence(s: Seq<char>, p: Seq<char>) -> Option<int> {
    if exists|i: int| occurs_at(s, p, i) {
        Some(choose|i: int| occurs_at(s, p, i) && forall|j: int| occurs_at(s, p, j) ==> i <= j)
    } else {
        None
    }
}

/// Whether `s` starts with the pattern `p`.
pub fn starts_with_str(s: &str, p: &str) -> (r: bool)
    ensures
        r == is_prefix_of(p@, s@),
{
    let n = s.unicode_len();
    let m = p.unicode_len();
    if m > n {
        return false;
    }
    let mut i: usize = 0;
    while i < m
        invariant
            0 <= i <= m,
            m == p@.len(),
            n == s@.len(),
            m <= n,
            forall|k: int| 0 <= k < i ==> s@[k] == p@[k],
        decreases m - i,
    {
        if s.get_char(i) != p.get_char(i) {
            assert(s@.subrange(0, m as int)[i as int] != p@[i as int]);
            return false;
        }
        i += 1;
    }
    assert(s@.subrange(0, m as int) =~= p@);
    true
}

/// Whether `p` occurs in `s` at position `at` (both already known in range).
fn matches_at(s: &str, p: &str, at: usize) -> (r: bool)
    requires
        at + p@.len() <= s@.len(),
    ensures
        r == occurs_at(s@, p@, at as int),
{
    let n = s.unicode_len();
    let m = p.unicode_len();
    let mut i: usize = 0;
    while i < m
        invariant
            0 <= i <= m,
            m == p@.len(),
            n == s@.len(),
            at + m <= n,
            forall|k: int| 0 <= k < i ==> s@[at + k] == p@[k],
        decreases m - i,
    {
        if s.get_char(at + i) != p.get_char(i) {
            assert(s@.subrange(at as int, at + m as int)[i as int] != p@[i as int]);
            return false;
        }
        i += 1;
    }
    assert(s@.subrange(at as int, at + m as int) =~= p@);
    true
}

/// The first occurrence is the position at which the pattern occurs with
/// none earlier.
pub proof fn lemma_first_occurrence_some(s: Seq<char>, p: Seq<char>, i: int)
    requires
        occurs_at(s, p, i),
        forall|j: int| occurs_at(s, p, j) ==> i <= j,
    ensures
        first_occurrence(s, p) == Some(i),
{
    reveal(first_occurrence);
    let c = choose|c: int| occurs_at(s, p, c) && forall|j: int| occurs_at(s, p, j) ==> c <= j;
    assert(c == i);
}

/// Without an occurrence there is no first occurrence.
pub proof fn lemma_first_occurrence_none(s: Seq<char>, p: Seq<char>)
    requires
        forall|j: int| !occurs_at(s, p, j),
    ensures
        first_occurrence(s, p) is None,
{
    reveal(first_occurrence);
}

/// The position of the first occurrence of `p` in `s`, or `None`.
pub fn find_str(s: &str, p: &str) -> (r: Option<usize>)
    ensures
        match r {
            Some(i) => first_occurrence(s@, p@) == Some(i as int) && occurs_at(s@, p@, i as int)
                && forall|j: int| occurs_at(s@, p@, j) ==> i as int <= j,
            None => first_occurrence(s@, p@) is None && forall|j: int| !occurs_at(s@, p@, j),
        },
{
    let n = s.unicode_len();
    let m = p.unicode_len();
    if m > n {
        assert(forall|i: int| !occurs_at(s@, p@, i));
        proof {
            lemma_first_occurrence_none(s@, p@);
        }
        return None;
    }
    if m == 0 {
        assert(s@.subrange(0, 0) =~= p@);
        assert(occurs_at(s@, p@, 0));
        proof {
            lemma_first_occurrence_some(s@, p@, 0);
        }
        return Some(0);
    }
    let mut i: usize = 0;
    loop
        invariant
            m == p@.len(),
            n == s@.len(),
            0 < m <= n,
            0 <= i <= n - m,
            forall|k: int| 0 <= k < i ==> !occurs_at(s@, p@, k),
        ensures
            forall|k: int| 0 <= k <= n - m ==> !occurs_at(s@, p@, k),
        decreases n - m - i,
    {
        if matches_at(s, p, i) {
            assert(occurs_at(s@, p@, i as int));
            assert(forall|j: int| occurs_at(s@, p@, j) ==> i as int <= j);
            proof {
                lemma_first_occurrence_some(s@, p@, i as int);
            }
            return Some(i);
        }
        if i == n - m {
            break;
        }
        i += 1;
    }
    assert(forall|k: int| occurs_at(s@, p@, k) ==> 0 <= k <= n - m);
    proof {
        lemma_first_occurrence_none(s@, p@);
    }
    None
}

/// The position of the first occurrence of the character `c` in `s`.
pub fn find_char(s: &str, c: char) -> (r: Option<usize>)
    ensures
        match r {
            Some(i) => 0 <= i < s@.len() && s@[i as int] == c && forall|j: int|
                0 <= j < i ==> s@[j] != c,
            None => forall|j: int| 0 <= j < s@.len() ==> s@[j] != c,
        },
{
    let n = s.unicode_len();
    let mut i: usize = 0;
    while i < n
        invariant
            n == s@.len(),
            0 <= i <= n,
            forall|j: int| 0 <= j < i ==> s@[j] != c,
        decreases n - i,
    {
        if s.get_char(i) == c {
            return Some(i);
        }
        i += 1;
    }
    None
}

/// The position of the last occurrence of the character `c` in `s`.
pub fn rfind_char(s: &str, c: char) -> (r: Option<usize>)
    ensures
        match r {
            Some(i) => 0 <= i < s@.len() && s@[i as int] == c && forall|j: int|
                i < j < s@.len() ==> s@[j] != c,
            None => forall|j: int| 0 <= j < s@.len() ==> s@[j] != c,
        },
{
    let n = s.unicode_len();
    let mut i: usize = n;
    while i > 0
        invariant
            n == s@.len(),
            0 <= i <= n,
            forall|j: int| i <= j < n ==> s@[j] != c,
        decreases i,
    {
        i -= 1;
        if s.get_char(i) == c {
            return Some(i);
        }
    }
    None
}

/// A character with the Unicode `White_Space` property, the set that
/// `str::trim` removes at either end.
pub open spec fn is_space(c: char) -> bool {
    c == ' ' || c == '\t' || c == '\n' || c == '\r' || c == '\u{000B}' || c == '\u{000C}'
        || c == '\u{0085}' || c == '\u{00A0}' || c == '\u{1680}' || ('\u{2000}' <= c
        && c <= '\u{200A}') || c == '\u{2028}' || c == '\u{2029}' || c == '\u{202F}'
        || c == '\u{205F}' || c == '\u{3000}'
}

/// Executable test for `is_space`.
pub fn is_space_char(c: char) -> (r: bool)
    ensures
        r == is_space(c),
{
    c == ' ' || c == '\t' || c == '\n' || c == '\r' || c == '\u{000B}' || c == '\u{000C}'
        || c == '\u{0085}' || c == '\u{00A0}' || c == '\u{1680}' || ('\u{2000}' <= c
        && c <= '\u{200A}') || c == '\u{2028}' || c == '\u{2029}' || c == '\u{202F}'
        || c == '\u{205F}' || c == '\u{3000}'
}

/// The number of leading white-space characters of `s`.
#[verifier::opaque]
pub open spec fn leading_spaces(s: Seq<char>) -> int {
    if exists|i: int| 0 <= i < s.len() && !is_space(s[i]) {
        choose|i: int|
            0 <= i < s.len() && !is_space(s[i]) && forall|j: int| 0 <= j < i ==> is_space(s[j])
    } else {
        s.len() as int
    }
}

/// The number of trailing white-space characters of `s`.
#[verifier::opaque]
pub open spec fn trailing_spaces(s: Seq<char>) -> int {
    if exists|i: int| 0 <= i < s.len() && !is_space(s[i]) {
        s.len() - 1 - choose|i: int|
            0 <= i < s.len() && !is_space(s[i]) && forall|j: int| i < j < s.len() ==> is_space(s[j])
    } else {
        s.len() as int
    }
}

/// The leading white space ends right before the first non-space character.
pub proof fn lemma_leading_spaces_at(s: Seq<char>, k: int)
    requires
        0 <= k < s.len(),
        !is_space(s[k]),
        forall|j: int| 0 <= j < k ==> is_space(s[j]),
    ensures
        leading_spaces(s) == k,
{
    reveal(leading_spaces);
    let c = choose|c: int|
        0 <= c < s.len() && !is_space(s[c]) && forall|j: int| 0 <= j < c ==> is_space(s[j]);
    assert(c == k);
}

/// The trailing white space starts right after the last non-space character.
pub proof fn lemma_trailing_spaces_at(s: Seq<char>, k: int)
    requires
        0 <= k < s.len(),
        !is_space(s[k]),
        forall|j: int| k < j < s.len() ==> is_space(s[j]),
    ensures
        trailing_spaces(s) == s.len() - 1 - k,
{
    reveal(trailing_spaces);
    let c = choose|c: int|
        0 <= c < s.len() && !is_space(s[c]) && forall|j: int| c < j < s.len() ==> is_space(s[j]);
    assert(c == k);
}

/// A text of white space alone has only leading white space.
pub proof fn lemma_all_spaces(s: Seq<char>)
    requires
        forall|j: int| 0 <= j < s.len() ==> is_space(s[j]),
    ensures
        leading_spaces(s) == s.len(),
{
    reveal(leading_spaces);
}

/// `s` with white space removed from both ends, as `str::trim` leaves it.
pub open spec fn trim_spec(s: Seq<char>) -> Seq<char> {
    if leading_spaces(s) == s.len() {
        Seq::empty()
    } else {
        s.subrange(leading_spaces(s), s.len() - trailing_spaces(s))
    }
}

/// Removes white space from both ends of `s`.
pub fn trim(s: &str) -> (r: &str)
    ensures
        r@ == trim_spec(s@),
{
    let n = s.unicode_len();
    let mut lo: usize = 0;
    while lo < n && is_space_char(s.get_char(lo))
        invariant
            n == s@.len(),
            0 <= lo <= n,
            forall|j: int| 0 <= j < lo ==> is_space(s@[j]),
        decreases n - lo,
    {
        lo += 1;
    }
    if lo == n {
        assert(forall|i: int| 0 <= i < s@.len() ==> is_space(s@[i]));
        proof {
            lemma_all_spaces(s@);
        }
        let r = s.substring_char(0, 0);
        assert(r@ =~= trim_spec(s@));
        return r;
    }
    assert(0 <= lo < n && !is_space(s@[lo as int]));
    proof {
        lemma_leading_spaces_at(s@, lo as int);
    }
    let mut hi: usize = n;
    while hi > lo + 1 && is_space_char(s.get_char(hi - 1))
        invariant
            n == s@.len(),
            lo < hi <= n,
            !is_space(s@[lo as int]),
            forall|j: int| hi <= j < n ==> is_space(s@[j]),
        decreases hi,
    {
        hi -= 1;
    }
    assert(!is_space(s@[hi - 1])) by {
        if hi == lo + 1 {
        }
    };
    proof {
        lemma_trailing_spaces_at(s@, hi - 1);
    }
    let r = s.substring_char(lo, hi);
    assert(r@ =~= trim_spec(s@));
    r
}

/// Compares two strings character by character.
pub fn str_eq(a: &str, b: &str) -> (r: bool)
    ensures
        r == (a@ == b@),
{
    let n = a.unicode_len();
    let m = b.unicode_len();
    if n != m {
        return false;
    }
    let mut i: usize = 0;
    while i < n
        invariant
            n == a@.len() == b@.len(),
            0 <= i <= n,
            forall|k: int| 0 <= k < i ==> a@[k] == b@[k],
        decreases n - i,
    {
        if a.get_char(i) != b.get_char(i) {
            return false;
        }
        i += 1;
    }
    assert(a@ =~= b@);
    true
}

/// ASCII lower-casing of one character: `A`-`Z` map to `a`-`z`.
pub open spec fn lower_char(c: char) -> char {
    if 'A' <= c <= 'Z' {
        ((c as u8) + 32) as char
    } else {
        c
    }
}

/// `s` lower-cased character by character, ASCII letters only.
pub open spec fn lower_seq(s: Seq<char>) -> Seq<char> {
    s.map_values(|c: char| lower_char(c))
}

/// Lower-cases one ASCII character.
fn lower_char_exec(c: char) -> (r: char)
    ensures
        r == lower_char(c),
{
    if 'A' <= c && c <= 'Z' {
        ((c as u8) + 32) as char
    } else {
        c
    }
}

/// Compares two strings for equality up to ASCII case.
pub fn eq_ignore_ascii_case(a: &str, b: &str) -> (r: bool)
    ensures
        r == (lower_seq(a@) == lower_seq(b@)),
{
    let n = a.unicode_len();
    let m = b.unicode_len();
    if n != m {
        assert(lower_seq(a@).len() != lower_seq(b@).len());
        return false;
    }
    let mut i: usize = 0;
    while i < n
        invariant
            n == a@.len() == b@.len(),
            0 <= i <= n,
            forall|k: int| 0 <= k < i ==> lower_char(a@[k]) == lower_char(b@[k]),
        decreases n - i,
    {
        if lower_char_exec(a.get_char(i)) != lower_char_exec(b.get_char(i)) {
            assert(lower_seq(a@)[i as int] != lower_seq(b@)[i as int]);
            return false;
        }
        i += 1;
    }
    assert(lower_seq(a@) =~= lower_seq(b@));
    true
}

/// The decimal digits of `n`, most significant first.
pub open spec fn decimal_digits(n: nat) -> Seq<char>
    decreases n,
{
    if n < 10 {
        seq![digit_char(n)]
    } else {
        decimal_digits(n / 10).push(digit_char(n % 10))
    }
}

/// The character for one decimal digit.
pub open spec fn digit_char(d: nat) -> char {
    if d == 0 {
        '0'
    } else if d == 1 {
        '1'
    } else if d == 2 {
        '2'
    } else if d == 3 {
        '3'
    } else if d == 4 {
        '4'
    } else if d == 5 {
        '5'
    } else if d == 6 {
        '6'
    } else if d == 7 {
        '7'
    } else if d == 8 {
        '8'
    } else {
        '9'
    }
}

/// One decimal digit as a string slice.
fn digit_str(d: u64) -> (r: &'static str)
    requires
        d < 10,
    ensures
        r@ =~= seq![digit_char(d as nat)],
{
    proof {
        reveal_strlit("0");
        reveal_strlit("1");
        reveal_strlit("2");
        reveal_strlit("3");
        reveal_strlit("4");
        reveal_strlit("5");
        reveal_strlit("6");
        reveal_strlit("7");
        reveal_strlit("8");
        reveal_strlit("9");
    }
    if d == 0 {
        "0"
    } else if d == 1 {
        "1"
    } else if d == 2 {
        "2"
    } else if d == 3 {
        "3"
    } else if d == 4 {
        "4"
    } else if d == 5 {
        "5"
    } else if d == 6 {
        "6"
    } else if d == 7 {
        "7"
    } else if d == 8 {
        "8"
    } else {
        "9"
    }
}

/// Renders `n` in decimal.
pub fn u64_to_string(n: u64) -> (r: String)
    ensures
        r@ == decimal_digits(n as nat),
    decreases n,
{
    if n < 10 {
        digit_str(n).to_owned()
    } else {
        let mut prefix = u64_to_string(n / 10);
        prefix.append(digit_str(n % 10));
        assert(prefix@ =~= decimal_digits(n as nat));
        prefix
    }
}

/// Copies a vector of strings.
pub fn clone_strings(v: &Vec<String>) -> (r: Vec<String>)
    ensures
        r@ == v@,
{
    let mut r: Vec<String> = Vec::new();
    let mut i: usize = 0;
    while i < v.len()
        invariant
            0 <= i <= v@.len(),
            r@ =~= v@.take(i as int),
        decreases v@.len() - i,
    {
        r.push(v[i].clone());
        assert(r@ =~= v@.take(i + 1));
        i += 1;
    }
    assert(r@ =~= v@);
    r
}

/// Renders a `usize` in decimal.
pub fn usize_to_string(n: usize) -> (r: String)
    ensures
        r@ == decimal_digits(n as nat),
{
    u64_to_string(n as u64)
}

} // verus!
