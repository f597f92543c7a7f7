//! Verified string utilities: decimal rendering, substring search and
//! single replacement, and lexicographic comparison.

use vstd::prelude::*;

verus! {

/// The character for one decimal digit.
pub open spec fn spec_digit_char(d: nat) -> char {
    if d == 0 {
        '0'
    } else if d == 1 {
        '1'
    } else if d == 2 {
        '2'
    } else if d == 3 {
        '3'
    } else if d == 4 {
        '4'
    } else if d == 5 {
        '5'
    } else if d == 6 {
        '6'
    } else if d == 7 {
        '7'
    } else if d == 8 {
        '8'
    } else {
        '9'
    }
}

/// The decimal rendering of a natural number, without leading zeros
/// (a single zero for 0).
pub open spec fn spec_u64_digits(n: nat) -> Seq<char>
    decreases n,
{
    if n < 10 {
        seq![spec_digit_char(n)]
    } else {
        spec_u64_digits(n / 10).push(spec_digit_char(n % 10))
    }
}

/// Renders a number in decimal.
pub fn u64_to_string(n: u64) -> (r: String)
    ensures
        r@ == spec_u64_digits(n as nat),
    decreases n,
{
    let digits = "0123456789";
    proof {
        reveal_strlit("0123456789");
    }
    let d = (n % 10) as usize;
    let c = digits.substring_ascii(d, d + 1);
    proof {
        assert(c@ =~= seq![spec_digit_char((n % 10) as nat)]);
    }
    if n < 10 {
        c.to_owned()
    } else {
        let mut s = u64_to_string(n / 10);
        s.append(c);
        proof {
            assert(s@ =~= spec_u64_digits(n as nat));
        }
        s
    }
}

/// The needle `n` occurs in `h` starting at index `i`.
pub open spec fn spec_match_at(h: Seq<char>, n: Seq<char>, i: int) -> bool {
    0 <= i && i + n.len() <= h.len() && h.subrange(i, i + n.len() as int) == n
}

/// The needle `n` occurs somewhere in `h`.
pub open spec fn spec_contains(h: Seq<char>, n: Seq<char>) -> bool {
    exists|i: int| spec_match_at(h, n, i)
}

/// Whether `n` occurs in `h` starting exactly at `i`.
pub fn match_at(h: &str, n: &str, i: usize) -> (r: bool)
    requires
        i + n@.len() <= h@.len(),
    ensures
        r == spec_match_at(h@, n@, i as int),
{
    let hl = h.unicode_len();
    let nl = n.unicode_len();
    let mut k: usize = 0;
    while k < nl
        invariant
            hl == h@.len(),
            nl == n@.len(),
            i + nl <= hl,
            k <= nl,
            forall|j: int| 0 <= j < k ==> h@[i + j] == n@[j],
        decreases nl - k,
    {
        if h.get_char(i + k) != n.get_char(k) {
            proof {
                assert(h@.subrange(i as int, i + n@.len() as int)[k as int] != n@[k as int]);
            }
            return false;
        }
        k = k + 1;
    }
    proof {
        assert(h@.subrange(i as int, i + n@.len() as int) =~= n@);
    }
    true
}

/// The index of the first occurrence of `n` in `h`, if any.
pub fn find_first(h: &str, n: &str) -> (r: Option<usize>)
    ensures
        match r {
            Some(i) => spec_match_at(h@, n@, i as int) && forall|j: int|
                0 <= j < i ==> !spec_match_at(h@, n@, j),
            None => !spec_contains(h@, n@),
        },
{
    let hl = h.unicode_len();
    let nl = n.unicode_len();
    if nl > hl {
        return None;
    }
    if nl == 0 {
        proof {
            assert(h@.subrange(0, 0) =~= n@);
        }
        return Some(0);
    }
    let mut i: usize = 0;
    while i <= hl - nl
        invariant
            hl == h@.len(),
            nl == n@.len(),
            1 <= nl <= hl,
            i <= hl - nl + 1,
            forall|j: int| 0 <= j < i ==> !spec_match_at(h@, n@, j),
        decreases hl - nl - i + 1,
    {
        if match_at(h, n, i) {
            return Some(i);
        }
        i = i + 1;
    }
    None
}

/// Whether `n` occurs anywhere in `h`.
pub fn contains_sub(h: &str, n: &str) -> (r: bool)
    ensures
        r == spec_contains(h@, n@),
{
    match find_first(h, n) {
        Some(_) => true,
        None => false,
    }
}

/// The smallest index at which `n` matches in `h`, counting from `i`;
/// `-1` where there is none.
pub open spec fn spec_find_from(h: Seq<char>, n: Seq<char>, i: int) -> int
    decreases h.len() - i,
{
    if n.len() == 0 || i < 0 || i + n.len() > h.len() {
        -1
    } else if spec_match_at(h, n, i) {
        i
    } else {
        spec_find_from(h, n, i + 1)
    }
}

/// The smallest index at which `n` matches in `h`; `-1` where there is none.
pub open spec fn spec_find(h: Seq<char>, n: Seq<char>) -> int {
    spec_find_from(h, n, 0)
}

/// `spec_find_from` finds exactly the first match at or after `i`.
pub proof fn lemma_find_from(h: Seq<char>, n: Seq<char>, i: int, j: int)
    requires
        n.len() >= 1,
        spec_match_at(h, n, j),
        0 <= i <= j,
        forall|k: int| i <= k < j ==> !spec_match_at(h, n, k),
    ensures
        spec_find_from(h, n, i) == j,
    decreases j - i,
{
    if i < j {
        lemma_find_from(h, n, i + 1, j);
    }
}

/// Where nothing matches at or after `i`, `spec_find_from` is `-1`.
pub proof fn lemma_find_from_none(h: Seq<char>, n: Seq<char>, i: int)
    requires
        forall|k: int| i <= k ==> !spec_match_at(h, n, k),
        0 <= i,
    ensures
        spec_find_from(h, n, i) == -1,
    decreases h.len() - i,
{
    if n.len() >= 1 && i + n.len() <= h.len() {
        lemma_find_from_none(h, n, i + 1);
    }
}

/// `h` with the first occurrence of `pat` (if any) replaced by `rep`.
pub open spec fn spec_replace_first(h: Seq<char>, pat: Seq<char>, rep: Seq<char>) -> Seq<char> {
    let i = spec_find(h, pat);
    if i >= 0 {
        h.subrange(0, i) + rep + h.subrange(i + pat.len() as int, h.len() as int)
    } else {
        h
    }
}

/// Where `pat` does not occur in `h`, replacement leaves `h` unchanged.
pub proof fn lemma_replace_absent(h: Seq<char>, pat: Seq<char>, rep: Seq<char>)
    requires
        !spec_contains(h, pat),
    ensures
        spec_replace_first(h, pat, rep) == h,
{
    lemma_find_from_none(h, pat, 0);
}

/// Replaces the first occurrence of `pat` in `h` with `rep`.
pub fn replace_first(h: &str, pat: &str, rep: &str) -> (r: String)
    ensures
        r@ == spec_replace_first(h@, pat@, rep@),
{
    if pat.unicode_len() == 0 {
        return h.to_owned();
    }
    match find_first(h, pat) {
        Some(i) => {
            proof {
                lemma_find_from(h@, pat@, 0, i as int);
            }
            let hl = h.unicode_len();
            let pl = pat.unicode_len();
            let mut r = h.substring_char(0, i).to_owned();
            r.append(rep);
            r.append(h.substring_char(i + pl, hl));
            proof {
                assert(r@ =~= spec_replace_first(h@, pat@, rep@));
            }
            r
        },
        None => {
            proof {
                lemma_replace_absent(h@, pat@, rep@);
            }
            h.to_owned()
        },
    }
}

/// Equality of two strings as character sequences.
pub fn str_eq(a: &str, b: &str) -> (r: bool)
    ensures
        r == (a@ == b@),
{
    let al = a.unicode_len();
    let bl = b.unicode_len();
    if al != bl {
        return false;
    }
    let mut i: usize = 0;
    while i < al
        invariant
            al == a@.len(),
            bl == b@.len(),
            al == bl,
            i <= al,
            forall|j: int| 0 <= j < i ==> a@[j] == b@[j],
        decreases al - i,
    {
        if a.get_char(i) != b.get_char(i) {
            return false;
        }
        i = i + 1;
    }
    proof {
        assert(a@ =~= b@);
    }
    true
}

/// The character `c` occurs in `s`.
pub open spec fn spec_has_char(s: Seq<char>, c: char) -> bool {
    exists|i: int| 0 <= i < s.len() && s[i] == c
}

/// The smallest index at or after `i` holding `c`; `-1` where there is none.
pub open spec fn spec_find_char_from(s: Seq<char>, c: char, i: int) -> int
    decreases s.len() - i,
{
    if i < 0 || i >= s.len() {
        -1
    } else if s[i] == c {
        i
    } else {
        spec_find_char_from(s, c, i + 1)
    }
}

/// The smallest index holding `c`; `-1` where there is none.
pub open spec fn spec_find_char(s: Seq<char>, c: char) -> int {
    spec_find_char_from(s, c, 0)
}

/// `spec_find_char_from` finds exactly the first occurrence at or after `i`.
pub proof fn lemma_find_char_from(s: Seq<char>, c: char, i: int, j: int)
    requires
        0 <= i <= j < s.len(),
        s[j] == c,
        forall|k: int| i <= k < j ==> s[k] != c,
    ensures
        spec_find_char_from(s, c, i) == j,
    decreases j - i,
{
    if i < j {
        lemma_find_char_from(s, c, i + 1, j);
    }
}

/// Where `c` does not occur at or after `i`, `spec_find_char_from` is `-1`.
pub proof fn lemma_find_char_none(s: Seq<char>, c: char, i: int)
    requires
        0 <= i,
        forall|k: int| i <= k < s.len() ==> s[k] != c,
    ensures
        spec_find_char_from(s, c, i) == -1,
    decreases s.len() - i,
{
    if i < s.len() {
        lemma_find_char_none(s, c, i + 1);
    }
}

/// The index of the first occurrence of the character `c` in `s`, if any.
pub fn find_char(s: &str, c: char) -> (r: Option<usize>)
    ensures
        match r {
            Some(i) => i == spec_find_char(s@, c) && i < s@.len() && s@[i as int] == c
                && forall|j: int| 0 <= j < i ==> s@[j] != c,
            None => spec_find_char(s@, c) == -1 && !spec_has_char(s@, c),
        },
{
    let sl = s.unicode_len();
    let mut i: usize = 0;
    while i < sl
        invariant
            sl == s@.len(),
            i <= sl,
            forall|j: int| 0 <= j < i ==> s@[j] != c,
        decreases sl - i,
    {
        if s.get_char(i) == c {
            proof {
                lemma_find_char_from(s@, c, 0, i as int);
            }
            return Some(i);
        }
        i = i + 1;
    }
    proof {
        lemma_find_char_none(s@, c, 0);
    }
    None
}

/// Lexicographic order on character sequences, by code point.
pub open spec fn spec_lex_le(a: Seq<char>, b: Seq<char>) -> bool
    decreases a.len(),
{
    if a.len() == 0 {
        true
    } else if b.len() == 0 {
        false
    } else if (a[0] as u32) != (b[0] as u32) {
        (a[0] as u32) < (b[0] as u32)
    } else {
        spec_lex_le(a.skip(1), b.skip(1))
    }
}

/// Lexicographic order is total.
pub proof fn lemma_lex_total(a: Seq<char>, b: Seq<char>)
    ensures
        spec_lex_le(a, b) || spec_lex_le(b, a),
    decreases a.len(),
{
    if a.len() != 0 && b.len() != 0 && (a[0] as u32) == (b[0] as u32) {
        lemma_lex_total(a.skip(1), b.skip(1));
    }
}

/// Compares two strings lexicographically by code point.
pub fn str_le(a: &str, b: &str) -> (r: bool)
    ensures
        r == spec_lex_le(a@, b@),
{
    let al = a.unicode_len();
    let bl = b.unicode_len();
    let mut i: usize = 0;
    proof {
        assert(a@.skip(0) =~= a@);
        assert(b@.skip(0) =~= b@);
    }
    loop
        invariant
            al == a@.len(),
            bl == b@.len(),
            i <= al,
            i <= bl,
            spec_lex_le(a@, b@) == spec_lex_le(a@.skip(i as int), b@.skip(i as int)),
        decreases al - i,
    {
        if i == al {
            return true;
        }
        if i == bl {
            return false;
        }
        let ca = a.get_char(i);
        let cb = b.get_char(i);
        if (ca as u32) != (cb as u32) {
            return (ca as u32) < (cb as u32);
        }
        proof {
            assert(a@.skip(i as int).skip(1) =~= a@.skip(i + 1));
            assert(b@.skip(i as int).skip(1) =~= b@.skip(i + 1));
        }
        i = i + 1;
    }
}

} // verus!
