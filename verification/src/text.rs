//! Character-level helpers that the parsers and formatters of the library
//! share: conversion between strings and character vectors, searching,
//! trimming, decimal numbers and case folding.

use vstd::prelude::*;

verus! {

// ---------------------------------------------------------------------------
// Specifications
// ---------------------------------------------------------------------------

/// `pat` occurs in `s` starting at position `i`.
pub open spec fn matches_at(s: Seq<char>, pat: Seq<char>, i: int) -> bool {
    0 <= i && i + pat.len() <= s.len() && s.subrange(i, i + pat.len()) == pat
}

/// The first position at or after `i` where `pat` occurs in `s`.
pub open spec fn find_from(s: Seq<char>, pat: Seq<char>, i: int) -> Option<int>
    decreases s.len() + 1 - i,
{
    if i < 0 || i + pat.len() > s.len() {
        None
    } else if matches_at(s, pat, i) {
        Some(i)
    } else {
        find_from(s, pat, i + 1)
    }
}

/// The first position where `pat` occurs in `s` (`str::find`).
pub open spec fn find(s: Seq<char>, pat: Seq<char>) -> Option<int> {
    find_from(s, pat, 0)
}

/// `pat` occurs somewhere in `s` (`str::contains`).
pub open spec fn contains(s: Seq<char>, pat: Seq<char>) -> bool {
    find(s, pat) is Some
}

/// `s` begins with `pat` (`str::starts_with`).
pub open spec fn starts_with(s: Seq<char>, pat: Seq<char>) -> bool {
    pat.len() <= s.len() && s.subrange(0, pat.len() as int) == pat
}

/// Unicode `White_Space`, as `char::is_whitespace` decides it.
pub open spec fn is_space(c: char) -> bool {
    ||| c == ' '
    ||| ('\t' <= c && c <= '\r')
    ||| c == '\u{85}'
    ||| c == '\u{a0}'
    ||| c == '\u{1680}'
    ||| ('\u{2000}' <= c && c <= '\u{200a}')
    ||| c == '\u{2028}'
    ||| c == '\u{2029}'
    ||| c == '\u{202f}'
    ||| c == '\u{205f}'
    ||| c == '\u{3000}'
}

/// Number of leading whitespace characters of `s`.
pub open spec fn lead_space(s: Seq<char>) -> nat
    decreases s.len(),
{
    if s.len() > 0 && is_space(s[0]) {
        1 + lead_space(s.drop_first())
    } else {
        0
    }
}

/// Number of trailing whitespace characters of `s`.
pub open spec fn trail_space(s: Seq<char>) -> nat
    decreases s.len(),
{
    if s.len() > 0 && is_space(s.last()) {
        1 + trail_space(s.drop_last())
    } else {
        0
    }
}

/// `s` without leading and trailing whitespace (`str::trim`).
pub open spec fn trim(s: Seq<char>) -> Seq<char> {
    let a = lead_space(s) as int;
    if a == s.len() {
        Seq::empty()
    } else {
        s.subrange(a, s.len() - trail_space(s))
    }
}

pub open spec fn is_digit(c: char) -> bool {
    '0' <= c && c <= '9'
}

pub open spec fn digit_value(c: char) -> nat {
    (c as int - '0' as int) as nat
}

pub open spec fn all_digits(s: Seq<char>) -> bool {
    forall|i: int| 0 <= i < s.len() ==> is_digit(#[trigger] s[i])
}

/// The number that a string of decimal digits denotes.
pub open spec fn decimal_value(s: Seq<char>) -> nat
    decreases s.len(),
{
    if s.len() == 0 {
        0
    } else {
        decimal_value(s.drop_last()) * 10 + digit_value(s.last())
    }
}

/// The digits that `str::parse` reads for an unsigned integer: an optional
/// leading `+` is dropped.
pub open spec fn unsigned_digits(s: Seq<char>) -> Seq<char> {
    if s.len() > 0 && s[0] == '+' {
        s.drop_first()
    } else {
        s
    }
}

/// What `str::parse` gives for an unsigned integer type whose largest value
/// is `max`.
pub open spec fn parse_unsigned(s: Seq<char>, max: nat) -> Option<nat> {
    let d = unsigned_digits(s);
    if d.len() == 0 || !all_digits(d) || decimal_value(d) > max {
        None
    } else {
        Some(decimal_value(d))
    }
}

pub open spec fn digit_char(d: nat) -> char {
    ('0' as nat + d) as char
}

/// The decimal representation of `n`, without leading zeros.
pub open spec fn decimal_chars(n: nat) -> Seq<char>
    decreases n,
{
    if n < 10 {
        seq![digit_char(n)]
    } else {
        decimal_chars(n / 10).push(digit_char(n % 10))
    }
}

/// The pieces of `s` between occurrences of `sep` (`str::split` with a
/// character pattern): always at least one piece.
pub open spec fn split_on(s: Seq<char>, sep: char) -> Seq<Seq<char>>
    decreases s.len(),
{
    if s.len() == 0 {
        seq![Seq::empty()]
    } else {
        let rest = split_on(s.drop_first(), sep);
        if s[0] == sep {
            seq![Seq::empty()] + rest
        } else {
            rest.update(0, seq![s[0]] + rest[0])
        }
    }
}

/// `pieces` with `cur` put in front of its first piece.
pub open spec fn glue(cur: Seq<char>, pieces: Seq<Seq<char>>) -> Seq<Seq<char>> {
    pieces.update(0, cur + pieces[0])
}

pub proof fn lemma_split_nonempty(s: Seq<char>, sep: char)
    ensures
        split_on(s, sep).len() >= 1,
    decreases s.len(),
{
    if s.len() > 0 {
        lemma_split_nonempty(s.drop_first(), sep);
    }
}

/// What `str::to_lowercase` returns for a string.
pub uninterp spec fn lowercase(s: Seq<char>) -> Seq<char>;

/// Every character is ASCII.
pub open spec fn is_ascii_text(s: Seq<char>) -> bool {
    forall|i: int| 0 <= i < s.len() ==> (#[trigger] s[i] as u32) < 128
}

/// The character, with `A` to `Z` turned to `a` to `z`.
pub open spec fn ascii_lower(c: char) -> char {
    if 65 <= (c as u32) <= 90 { ((c as u32) + 32) as char } else { c }
}

/// The character, with `a` to `z` turned to `A` to `Z`.
pub open spec fn ascii_upper(c: char) -> char {
    if 97 <= (c as u32) <= 122 { ((c as u32) - 32) as char } else { c }
}

/// The text with its ASCII capitals turned to small letters.
pub open spec fn ascii_lowercase(s: Seq<char>) -> Seq<char> {
    s.map_values(|c: char| ascii_lower(c))
}

/// The text with its ASCII small letters turned to capitals.
pub open spec fn ascii_uppercase(s: Seq<char>) -> Seq<char> {
    s.map_values(|c: char| ascii_upper(c))
}

/// Lowering the capitals of a text gives what lowering the text itself
/// gives, and capitals of ASCII text are ASCII.
pub proof fn lemma_ascii_case_fold(s: Seq<char>)
    ensures
        ascii_lowercase(ascii_uppercase(s)) == ascii_lowercase(s),
        is_ascii_text(s) ==> is_ascii_text(ascii_uppercase(s)),
{
    assert forall|i: int| 0 <= i < s.len() implies ascii_lower(ascii_upper(s[i])) == ascii_lower(s[i]) by {
        let c = s[i];
        if 97 <= (c as u32) <= 122 {
            assert((((c as u32) - 32) as char) as u32 == (c as u32) - 32);
        }
    }
    assert(ascii_lowercase(ascii_uppercase(s)) =~= ascii_lowercase(s));
    if is_ascii_text(s) {
        assert forall|i: int| 0 <= i < ascii_uppercase(s).len() implies (#[trigger] ascii_uppercase(s)[i] as u32) < 128 by {
            assert((s[i] as u32) < 128);
        }
    }
}

/// A text without ASCII capitals is its own lowering.
pub proof fn lemma_ascii_lowercase_keeps(s: Seq<char>)
    requires
        forall|i: int| 0 <= i < s.len() ==> !(65 <= #[trigger] (s[i] as u32) <= 90),
    ensures
        ascii_lowercase(s) == s,
{
    assert(ascii_lowercase(s) =~= s);
}

// ---------------------------------------------------------------------------
// Trusted items
// ---------------------------------------------------------------------------

/// Calls `String::push`: the contract claims that the character is appended
/// at the end of the string.
#[verifier::external_body]
pub fn push_char(s: &mut String, c: char)
    ensures
        final(s)@ == old(s)@.push(c),
{
    s.push(c);
}

/// Calls `str::to_lowercase`: the contract claims that the result is the
/// lowercase mapping of the argument, which depends on nothing else, and
/// that on ASCII text it turns `A` to `Z` into `a` to `z` and keeps every
/// other character. The Unicode case tables beyond ASCII are not restated.
#[verifier::external_body]
pub fn to_lowercase(s: &str) -> (r: String)
    ensures
        r@ == lowercase(s@),
        is_ascii_text(s@) ==> r@ == ascii_lowercase(s@),
{
    s.to_lowercase()
}

// ---------------------------------------------------------------------------
// Executable helpers
// ---------------------------------------------------------------------------

/// The characters of a string, in order.
pub fn chars_of(s: &str) -> (v: Vec<char>)
    ensures
        v@ == s@,
{
    let mut v: Vec<char> = Vec::new();
    for c in it: s.chars()
        invariant
            v@ == it.seq().take(it.index() as int),
            it.seq() == s@,
    {
        v.push(c);
    }
    v
}

/// A string made of the characters of `v[from..to]`.
pub fn string_of_range(v: &Vec<char>, from: usize, to: usize) -> (s: String)
    requires
        from <= to <= v.len(),
    ensures
        s@ == v@.subrange(from as int, to as int),
{
    let mut s = String::new();
    let mut i: usize = from;
    while i < to
        invariant
            from <= i <= to <= v.len(),
            s@ == v@.subrange(from as int, i as int),
        decreases to - i,
    {
        push_char(&mut s, v[i]);
        assert(v@.subrange(from as int, i + 1) == v@.subrange(from as int, i as int).push(v@[i as int]));
        i = i + 1;
    }
    s
}

/// A string made of the characters of `v`.
pub fn string_of(v: &Vec<char>) -> (s: String)
    ensures
        s@ == v@,
{
    let s = string_of_range(v, 0, v.len());
    assert(v@.subrange(0, v@.len() as int) == v@);
    s
}

/// A string with the same characters as `s`.
pub fn string_from(s: &str) -> (r: String)
    ensures
        r@ == s@,
{
    let v = chars_of(s);
    string_of(&v)
}

/// Appends the characters of `t` to `s`.
pub fn push_all(s: &mut String, t: &Vec<char>)
    ensures
        final(s)@ == old(s)@ + t@,
{
    let mut i: usize = 0;
    while i < t.len()
        invariant
            i <= t.len(),
            s@ == old(s)@ + t@.subrange(0, i as int),
        decreases t.len() - i,
    {
        push_char(s, t[i]);
        assert(t@.subrange(0, i + 1) == t@.subrange(0, i as int).push(t@[i as int]));
        i = i + 1;
    }
    assert(t@.subrange(0, t@.len() as int) == t@);
}

/// Appends the characters of `t` to `s`.
pub fn push_str(s: &mut String, t: &str)
    ensures
        final(s)@ == old(s)@ + t@,
{
    let v = chars_of(t);
    push_all(s, &v);
}

/// `pat` occurs in `s` at position `i`.
pub fn matches_at_exec(s: &Vec<char>, pat: &Vec<char>, i: usize) -> (r: bool)
    ensures
        r == matches_at(s@, pat@, i as int),
{
    if i > s.len() || pat.len() > s.len() - i {
        return false;
    }
    let mut j: usize = 0;
    while j < pat.len()
        invariant
            i + pat.len() <= s.len(),
            j <= pat.len(),
            forall|k: int| 0 <= k < j ==> s@[i + k] == pat@[k],
        decreases pat.len() - j,
    {
        if s[i + j] != pat[j] {
            assert(s@.subrange(i as int, i + pat.len())[j as int] != pat@[j as int]);
            return false;
        }
        j = j + 1;
    }
    assert(s@.subrange(i as int, i + pat.len()) =~= pat@);
    true
}

/// The first position at or after `from` where `pat` occurs in `s`.
pub fn find_from_exec(s: &Vec<char>, pat: &Vec<char>, from: usize) -> (r: Option<usize>)
    ensures
        r matches Some(i) ==> find_from(s@, pat@, from as int) == Some(i as int),
        r is None ==> find_from(s@, pat@, from as int) is None,
{
    let mut i: usize = from;
    while i <= s.len() && pat.len() <= s.len() - i
        invariant
            from <= i,
            find_from(s@, pat@, from as int) == find_from(s@, pat@, i as int),
        decreases s.len() + 1 - i,
    {
        if matches_at_exec(s, pat, i) {
            return Some(i);
        }
        assert(i < s.len()) by {
            if i == s.len() {
                assert(s@.subrange(i as int, i as int) =~= pat@);
            }
        }
        i = i + 1;
    }
    None
}

/// The first position where `pat` occurs in `s`.
pub fn find_exec(s: &Vec<char>, pat: &Vec<char>) -> (r: Option<usize>)
    ensures
        r matches Some(i) ==> find(s@, pat@) == Some(i as int),
        r is None ==> find(s@, pat@) is None,
{
    find_from_exec(s, pat, 0)
}

/// `pat` occurs somewhere in `s`.
pub fn contains_exec(s: &Vec<char>, pat: &Vec<char>) -> (r: bool)
    ensures
        r == contains(s@, pat@),
{
    find_exec(s, pat).is_some()
}

/// `s` begins with `pat`.
pub fn starts_with_exec(s: &Vec<char>, pat: &Vec<char>) -> (r: bool)
    ensures
        r == starts_with(s@, pat@),
{
    let r = matches_at_exec(s, pat, 0);
    r
}

pub proof fn lemma_find_from_bounds(s: Seq<char>, pat: Seq<char>, i: int)
    requires
        0 <= i,
    ensures
        find_from(s, pat, i) matches Some(k) ==> i <= k && matches_at(s, pat, k)
            && forall|j: int| i <= j < k ==> !matches_at(s, pat, j),
        find_from(s, pat, i) is None ==> forall|j: int| i <= j ==> !#[trigger] matches_at(s, pat, j),
    decreases s.len() + 1 - i,
{
    if i < 0 || i + pat.len() > s.len() {
    } else if matches_at(s, pat, i) {
    } else {
        lemma_find_from_bounds(s, pat, i + 1);
    }
}

/// A text that holds a pattern at some position contains it.
pub proof fn lemma_contains_at(s: Seq<char>, pat: Seq<char>, j: int)
    requires
        matches_at(s, pat, j),
    ensures
        contains(s, pat),
{
    lemma_find_from_bounds(s, pat, 0);
}

/// A text that holds a pattern as a part of it contains it.
pub proof fn lemma_contains_part(a: Seq<char>, pat: Seq<char>, b: Seq<char>)
    ensures
        contains(a + pat + b, pat),
{
    assert((a + pat + b).subrange(a.len() as int, (a.len() + pat.len()) as int) =~= pat);
    lemma_contains_at(a + pat + b, pat, a.len() as int);
}

/// The first position where the characters of `pat` occur in `s`; a match
/// lies inside `s`.
pub fn find_str(s: &Vec<char>, pat: &str) -> (r: Option<usize>)
    ensures
        r matches Some(i) ==> find(s@, pat@) == Some(i as int) && i + pat@.len() <= s@.len(),
        r is None ==> find(s@, pat@) is None,
{
    let p = chars_of(pat);
    let r = find_exec(s, &p);
    proof {
        lemma_find_from_bounds(s@, p@, 0);
    }
    r
}

/// The characters of `pat` occur somewhere in `s`.
pub fn contains_str(s: &Vec<char>, pat: &str) -> (r: bool)
    ensures
        r == contains(s@, pat@),
{
    let p = chars_of(pat);
    contains_exec(s, &p)
}

/// `s` begins with the characters of `pat`.
pub fn starts_with_str(s: &Vec<char>, pat: &str) -> (r: bool)
    ensures
        r == starts_with(s@, pat@),
{
    let p = chars_of(pat);
    starts_with_exec(s, &p)
}

/// `s` holds exactly the characters of `t`.
pub fn eq_chars(s: &Vec<char>, t: &Vec<char>) -> (r: bool)
    ensures
        r == (s@ == t@),
{
    if s.len() != t.len() {
        return false;
    }
    let r = matches_at_exec(s, t, 0);
    proof {
        if r {
            assert(s@.subrange(0, t@.len() as int) =~= s@);
        } else {
            assert(s@ != t@) by {
                if s@ == t@ {
                    assert(s@.subrange(0, t@.len() as int) =~= s@);
                }
            }
        }
    }
    r
}

/// `s` holds exactly the characters of `t`.
pub fn eq_str(s: &Vec<char>, t: &str) -> (r: bool)
    ensures
        r == (s@ == t@),
{
    let p = chars_of(t);
    eq_chars(s, &p)
}

pub fn is_space_exec(c: char) -> (r: bool)
    ensures
        r == is_space(c),
{
    c == ' ' || ('\t' <= c && c <= '\r') || c == '\u{85}' || c == '\u{a0}' || c == '\u{1680}'
        || ('\u{2000}' <= c && c <= '\u{200a}') || c == '\u{2028}' || c == '\u{2029}'
        || c == '\u{202f}' || c == '\u{205f}' || c == '\u{3000}'
}

proof fn lemma_lead_space(s: Seq<char>, i: int)
    requires
        0 <= i <= s.len(),
        forall|k: int| 0 <= k < i ==> is_space(#[trigger] s[k]),
    ensures
        lead_space(s) == i + lead_space(s.subrange(i, s.len() as int)),
    decreases i,
{
    if i > 0 {
        lemma_lead_space(s.drop_first(), i - 1);
        assert(s.drop_first().subrange(i - 1, s.len() - 1) =~= s.subrange(i, s.len() as int));
    } else {
        assert(s.subrange(0, s.len() as int) =~= s);
    }
}

proof fn lemma_trail_space(s: Seq<char>, i: int)
    requires
        0 <= i <= s.len(),
        forall|k: int| i <= k < s.len() ==> is_space(#[trigger] s[k]),
    ensures
        trail_space(s) == (s.len() - i) + trail_space(s.subrange(0, i)),
    decreases s.len() - i,
{
    if i < s.len() {
        lemma_trail_space(s.drop_last(), i);
        assert(s.drop_last().subrange(0, i) =~= s.subrange(0, i));
    } else {
        assert(s.subrange(0, i) =~= s);
    }
}

proof fn lemma_lead_space_le(s: Seq<char>)
    ensures
        lead_space(s) <= s.len(),
    decreases s.len(),
{
    if s.len() > 0 && is_space(s[0]) {
        lemma_lead_space_le(s.drop_first());
    }
}

/// The bounds `[a, b)` of `trim(v)` inside `v`.
pub fn trim_bounds(v: &Vec<char>) -> (r: (usize, usize))
    ensures
        r.0 <= r.1 <= v.len(),
        v@.subrange(r.0 as int, r.1 as int) == trim(v@),
{
    let mut a: usize = 0;
    while a < v.len() && is_space_exec(v[a])
        invariant
            a <= v.len(),
            forall|k: int| 0 <= k < a ==> is_space(#[trigger] v@[k]),
        decreases v.len() - a,
    {
        a = a + 1;
    }
    proof {
        lemma_lead_space(v@, a as int);
        let rest = v@.subrange(a as int, v@.len() as int);
        if a < v.len() {
            assert(rest[0] == v@[a as int]);
            assert(lead_space(rest) == 0);
        } else {
            assert(rest.len() == 0);
        }
    }
    if a == v.len() {
        assert(trim(v@) == Seq::<char>::empty());
        return (a, a);
    }
    let mut b: usize = v.len();
    while b > a && is_space_exec(v[b - 1])
        invariant
            a < v.len(),
            !is_space(v@[a as int]),
            a <= b <= v.len(),
            forall|k: int| b <= k < v.len() ==> is_space(#[trigger] v@[k]),
        decreases b,
    {
        b = b - 1;
    }
    proof {
        lemma_trail_space(v@, b as int);
        let head = v@.subrange(0, b as int);
        assert(b > a);
        assert(head.last() == v@[b - 1]);
        assert(trail_space(head) == 0);
    }
    (a, b)
}

/// `s` without leading and trailing whitespace.
pub fn trim_exec(v: &Vec<char>) -> (r: Vec<char>)
    ensures
        r@ == trim(v@),
{
    let (a, b) = trim_bounds(v);
    slice_vec(v, a, b)
}

/// A copy of `v[from..to]`.
pub fn slice_vec<T: Copy>(v: &Vec<T>, from: usize, to: usize) -> (r: Vec<T>)
    requires
        from <= to <= v.len(),
    ensures
        r@ == v@.subrange(from as int, to as int),
{
    let mut r: Vec<T> = Vec::new();
    let mut i: usize = from;
    while i < to
        invariant
            from <= i <= to <= v.len(),
            r@ == v@.subrange(from as int, i as int),
        decreases to - i,
    {
        r.push(v[i]);
        assert(v@.subrange(from as int, i + 1) == v@.subrange(from as int, i as int).push(v@[i as int]));
        i = i + 1;
    }
    r
}

proof fn lemma_decimal_value_push(s: Seq<char>, c: char)
    ensures
        decimal_value(s.push(c)) == decimal_value(s) * 10 + digit_value(c),
{
    assert(s.push(c).drop_last() =~= s);
}

/// The lowercase hexadecimal digit of `d`, which is below 16.
pub open spec fn hex_char(d: nat) -> char {
    if d < 10 { ('0' as nat + d) as char } else { ('a' as nat + (d - 10)) as char }
}

/// The lowercase hexadecimal representation of `n`, without leading zeros.
pub open spec fn hex_chars(n: nat) -> Seq<char>
    decreases n,
{
    if n < 16 {
        seq![hex_char(n)]
    } else {
        hex_chars(n / 16).push(hex_char(n % 16))
    }
}

fn hex_char_exec(d: u64) -> (c: char)
    requires
        d < 16,
    ensures
        c == hex_char(d as nat),
{
    if d < 10 {
        ('0' as u8 + d as u8) as char
    } else {
        ('a' as u8 + (d - 10) as u8) as char
    }
}

/// The lowercase hexadecimal digits of `n`.
pub fn hex_digits(n: u64) -> (r: Vec<char>)
    ensures
        r@ == hex_chars(n as nat),
    decreases n,
{
    if n < 16 {
        let mut v: Vec<char> = Vec::new();
        v.push(hex_char_exec(n));
        assert(v@ =~= hex_chars(n as nat));
        v
    } else {
        let mut v = hex_digits(n / 16);
        v.push(hex_char_exec(n % 16));
        assert(v@ =~= hex_chars(n as nat));
        v
    }
}

/// Appends the lowercase hexadecimal digits of `n` to `s`.
pub fn push_hex(s: &mut String, n: u64)
    ensures
        final(s)@ == old(s)@ + hex_chars(n as nat),
{
    let d = hex_digits(n);
    push_all(s, &d);
}

/// Two lowercase hexadecimal digits for a byte (`{:02x}`).
pub open spec fn hex2_chars(b: u8) -> Seq<char> {
    seq![hex_char(b as nat / 16), hex_char(b as nat % 16)]
}

/// Appends two lowercase hexadecimal digits for `b` to `s`.
pub fn push_hex2(s: &mut String, b: u8)
    ensures
        final(s)@ == old(s)@ + hex2_chars(b),
{
    push_char(s, hex_char_exec(b as u64 / 16));
    push_char(s, hex_char_exec(b as u64 % 16));
    assert(s@ =~= old(s)@ + hex2_chars(b));
}

/// The decimal digits of `n`.
pub fn decimal_digits(n: u64) -> (r: Vec<char>)
    ensures
        r@ == decimal_chars(n as nat),
    decreases n,
{
    if n < 10 {
        let mut v: Vec<char> = Vec::new();
        v.push(('0' as u8 + n as u8) as char);
        assert(v@ =~= decimal_chars(n as nat));
        v
    } else {
        let mut v = decimal_digits(n / 10);
        v.push(('0' as u8 + (n % 10) as u8) as char);
        assert(v@ =~= decimal_chars(n as nat));
        v
    }
}

/// The decimal representation of a signed number, with a minus sign when
/// it is negative.
pub open spec fn signed_chars(n: int) -> Seq<char> {
    if n < 0 { "-"@ + decimal_chars((-n) as nat) } else { decimal_chars(n as nat) }
}

/// Appends the decimal representation of a signed number to `s`.
pub fn push_signed(s: &mut String, n: i64)
    ensures
        final(s)@ == old(s)@ + signed_chars(n as int),
{
    if n < 0 {
        push_str(s, "-");
        let m: u64 = if n == i64::MIN { 0x8000_0000_0000_0000u64 } else { (-n) as u64 };
        push_decimal(s, m);
    } else {
        push_decimal(s, n as u64);
    }
}

/// Appends the decimal digits of `n` to `s`.
pub fn push_decimal(s: &mut String, n: u64)
    ensures
        final(s)@ == old(s)@ + decimal_chars(n as nat),
{
    let d = decimal_digits(n);
    push_all(s, &d);
}

/// The pieces of `v` between occurrences of `sep`.
pub fn split_exec(v: &Vec<char>, sep: char) -> (r: Vec<Vec<char>>)
    ensures
        r@.len() == split_on(v@, sep).len(),
        forall|k: int| 0 <= k < r@.len() ==> #[trigger] r@[k]@ == split_on(v@, sep)[k],
{
    let mut done: Vec<Vec<char>> = Vec::new();
    let mut cur: Vec<char> = Vec::new();
    let mut i: usize = 0;
    let ghost done_view: Seq<Seq<char>> = Seq::empty();
    assert(v@.skip(0) =~= v@);
    proof {
        lemma_split_nonempty(v@, sep);
        assert(glue(Seq::empty(), split_on(v@, sep)) =~= split_on(v@, sep));
    }
    while i < v.len()
        invariant
            i <= v@.len(),
            done_view.len() == done@.len(),
            forall|k: int| 0 <= k < done@.len() ==> #[trigger] done@[k]@ == done_view[k],
            split_on(v@, sep) == done_view + glue(cur@, split_on(v@.skip(i as int), sep)),
        decreases v.len() - i,
    {
        let ghost rest = split_on(v@.skip(i + 1), sep);
        proof {
            lemma_split_nonempty(v@.skip(i + 1), sep);
            assert(v@.skip(i as int).drop_first() =~= v@.skip(i + 1));
        }
        if v[i] == sep {
            proof {
                assert(glue(cur@, split_on(v@.skip(i as int), sep)) =~= seq![cur@] + glue(Seq::empty(), rest));
                assert(glue(Seq::empty(), rest) =~= rest);
                done_view = done_view.push(cur@);
                assert(split_on(v@, sep) =~= done_view + glue(Seq::<char>::empty(), rest));
            }
            done.push(cur);
            cur = Vec::new();
        } else {
            let ghost old_cur = cur@;
            cur.push(v[i]);
            proof {
                let t = v@.skip(i as int);
                assert(t[0] == v@[i as int]);
                assert(split_on(t, sep) == rest.update(0, seq![v@[i as int]] + rest[0]));
                assert(old_cur + (seq![v@[i as int]] + rest[0]) =~= cur@ + rest[0]);
                assert(glue(old_cur, split_on(v@.skip(i as int), sep)) =~= glue(cur@, rest));
            }
        }
        i = i + 1;
    }
    proof {
        assert(v@.skip(i as int) =~= Seq::<char>::empty());
        assert(glue(cur@, split_on(Seq::<char>::empty(), sep)) =~= seq![cur@]);
        done_view = done_view.push(cur@);
    }
    done.push(cur);
    done
}

/// Reads an unsigned decimal number as `str::parse` does for an integer type
/// whose largest value is `max`.
pub fn parse_unsigned_exec(s: &Vec<char>, max: u64) -> (r: Option<u64>)
    requires
        max >= 9,
    ensures
        r matches Some(n) ==> parse_unsigned(s@, max as nat) == Some(n as nat),
        r is None ==> parse_unsigned(s@, max as nat) is None,
{
    let start: usize = if s.len() > 0 && s[0] == '+' { 1 } else { 0 };
    let ghost d = unsigned_digits(s@);
    assert(d =~= s@.subrange(start as int, s@.len() as int));
    if start == s.len() {
        assert(d.len() == 0);
        return None;
    }
    let mut i: usize = start;
    let mut acc: u64 = 0;
    let mut too_big = false;
    while i < s.len()
        invariant
            start <= i <= s.len(),
            max >= 9,
            d == unsigned_digits(s@),
            d == s@.subrange(start as int, s@.len() as int),
            forall|k: int| start <= k < i ==> is_digit(#[trigger] s@[k]),
            !too_big ==> acc as nat == decimal_value(s@.subrange(start as int, i as int)),
            !too_big ==> acc <= max,
            too_big ==> decimal_value(s@.subrange(start as int, i as int)) > max,
        decreases s.len() - i,
    {
        let c = s[i];
        if !('0' <= c && c <= '9') {
            assert(d[i - start] == c);
            assert(!is_digit(d[i - start]));
            assert(!all_digits(d));
            return None;
        }
        let dv = (c as u32 - '0' as u32) as u64;
        assert(dv <= 9 && dv as nat == digit_value(c));
        proof {
            lemma_decimal_value_push(s@.subrange(start as int, i as int), c);
            assert(s@.subrange(start as int, i + 1) =~= s@.subrange(start as int, i as int).push(c));
        }
        assert(dv <= max);
        if !too_big {
            if acc > (max - dv) / 10 {
                too_big = true;
                assert(acc * 10 + dv > max) by (nonlinear_arith)
                    requires acc > (max - dv) / 10, dv <= max;
            } else {
                assert(acc * 10 + dv <= max) by (nonlinear_arith)
                    requires acc <= (max - dv) / 10, dv <= max;
                acc = acc * 10 + dv;
            }
        } else {
            assert(decimal_value(s@.subrange(start as int, i as int)) * 10 + dv as nat > max) by (nonlinear_arith)
                requires decimal_value(s@.subrange(start as int, i as int)) > max;
        }
        i = i + 1;
    }
    assert(s@.subrange(start as int, s@.len() as int) == d);
    assert(all_digits(d));
    if too_big {
        None
    } else {
        Some(acc)
    }
}


/// Why `str::parse` refuses a text as an unsigned integer.
#[derive(Debug, Clone, Copy, PartialEq, Eq, Structural)]
pub enum IntParseError {
    Empty,
    InvalidDigit,
    PosOverflow,
}

/// The message that `ParseIntError` displays.
pub open spec fn int_error_text(e: IntParseError) -> Seq<char> {
    match e {
        IntParseError::Empty => "cannot parse integer from empty string"@,
        IntParseError::InvalidDigit => "invalid digit found in string"@,
        IntParseError::PosOverflow => "number too large to fit in target type"@,
    }
}

/// The first fault from position `i` on of the digits `d`, read from the
/// left: a character that is no digit, or a prefix whose value passes `max`.
pub open spec fn scan_failure(d: Seq<char>, i: int, max: nat) -> Option<IntParseError>
    decreases d.len() - i,
{
    if i < 0 || i >= d.len() {
        None
    } else if !is_digit(d[i]) {
        Some(IntParseError::InvalidDigit)
    } else if decimal_value(d.take(i + 1)) > max {
        Some(IntParseError::PosOverflow)
    } else {
        scan_failure(d, i + 1, max)
    }
}

/// Why a text that `parse_unsigned` refuses is refused: it is empty, or the
/// first fault found reading it from the left.
pub open spec fn parse_failure(s: Seq<char>, max: nat) -> IntParseError {
    if s.len() == 0 {
        IntParseError::Empty
    } else {
        match scan_failure(unsigned_digits(s), 0, max) {
            Some(e) => e,
            None => IntParseError::InvalidDigit,
        }
    }
}

/// Why a text is refused as an unsigned integer whose largest value is
/// `max`.
pub fn parse_failure_exec(s: &Vec<char>, max: u64) -> (r: IntParseError)
    requires
        max >= 9,
    ensures
        r == parse_failure(s@, max as nat),
{
    if s.len() == 0 {
        return IntParseError::Empty;
    }
    let start: usize = if s[0] == '+' { 1 } else { 0 };
    let ghost d = unsigned_digits(s@);
    assert(d =~= s@.subrange(start as int, s@.len() as int));
    let mut i: usize = start;
    let mut acc: u64 = 0;
    while i < s.len()
        invariant
            start <= i <= s.len(),
            start <= 1,
            max >= 9,
            s@.len() > 0,
            d == unsigned_digits(s@),
            d == s@.subrange(start as int, s@.len() as int),
            scan_failure(d, 0, max as nat) == scan_failure(d, (i - start) as int, max as nat),
            forall|k: int| 0 <= k < i - start ==> is_digit(#[trigger] d[k]),
            acc as nat == decimal_value(d.take((i - start) as int)),
            acc <= max,
        decreases s.len() - i,
    {
        let c = s[i];
        let ghost j = (i - start) as int;
        assert(d[j] == c);
        assert(j < d.len());
        if !('0' <= c && c <= '9') {
            assert(scan_failure(d, j, max as nat) == Some(IntParseError::InvalidDigit));
            return IntParseError::InvalidDigit;
        }
        let dv = (c as u32 - '0' as u32) as u64;
        assert(dv <= 9 && dv as nat == digit_value(c));
        proof {
            lemma_decimal_value_push(d.take(j), c);
            assert(d.take(j + 1) =~= d.take(j).push(c));
        }
        if acc > (max - dv) / 10 {
            assert(acc * 10 + dv > max) by (nonlinear_arith)
                requires acc > (max - dv) / 10, dv <= 9, max >= 9;
            assert(scan_failure(d, j, max as nat) == Some(IntParseError::PosOverflow));
            return IntParseError::PosOverflow;
        }
        assert(acc * 10 + dv <= max) by (nonlinear_arith)
            requires acc <= (max - dv) / 10, dv <= 9, max >= 9;
        acc = acc * 10 + dv;
        i = i + 1;
    }
    IntParseError::InvalidDigit
}

/// The message that a refusal displays.
pub fn int_error_message(e: IntParseError) -> (r: &'static str)
    ensures
        r@ == int_error_text(e),
{
    match e {
        IntParseError::Empty => "cannot parse integer from empty string",
        IntParseError::InvalidDigit => "invalid digit found in string",
        IntParseError::PosOverflow => "number too large to fit in target type",
    }
}

} // verus!
