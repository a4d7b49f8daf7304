//! Internet addresses as plain values.

use vstd::prelude::*;
use crate::text::{decimal_chars, digit_char, hex_chars, push_decimal, push_hex, push_str, digit_value, split_on, split_exec, all_digits, is_digit, decimal_value, find, find_exec, lemma_split_nonempty};

verus! {

/// An IPv4 address, held as its four octets in network order.
#[derive(Debug, Clone, Copy, PartialEq, Eq, Hash, PartialOrd, Ord, Structural)]
pub struct Ipv4Addr {
    pub a: u8,
    pub b: u8,
    pub c: u8,
    pub d: u8,
}

/// An IPv6 address, held as its eight 16-bit segments in network order.
#[derive(Debug, Clone, Copy, PartialEq, Eq, Hash, PartialOrd, Ord)]
pub struct Ipv6Addr {
    pub segments: [u16; 8],
}

/// An IPv4 or IPv6 address.
#[derive(Debug, Clone, Copy, PartialEq, Eq, Hash, PartialOrd, Ord)]
pub enum IpAddr {
    V4(Ipv4Addr),
    V6(Ipv6Addr),
}

/// The four octets of an IPv4 address.
pub open spec fn octets_of(ip: Ipv4Addr) -> Seq<u8> {
    seq![ip.a, ip.b, ip.c, ip.d]
}

/// The address whose 32-bit number is `n`.
pub open spec fn ipv4_of_u32(n: u32) -> Ipv4Addr {
    Ipv4Addr {
        a: (n / 0x1000000) as u8,
        b: ((n / 0x10000) % 0x100) as u8,
        c: ((n / 0x100) % 0x100) as u8,
        d: (n % 0x100) as u8,
    }
}

/// The address as a 32-bit number, first octet most significant.
pub open spec fn ipv4_to_u32(ip: Ipv4Addr) -> nat {
    ip.a as nat * 0x1000000 + ip.b as nat * 0x10000 + ip.c as nat * 0x100 + ip.d as nat
}

impl Ipv4Addr {
    pub fn new(a: u8, b: u8, c: u8, d: u8) -> (r: Self)
        ensures
            r == (Ipv4Addr { a, b, c, d }),
    {
        Ipv4Addr { a, b, c, d }
    }

    /// The address `0.0.0.0`.
    pub fn unspecified() -> (r: Self)
        ensures
            octets_of(r) == seq![0u8, 0u8, 0u8, 0u8],
    {
        Ipv4Addr { a: 0, b: 0, c: 0, d: 0 }
    }

    pub fn octets(&self) -> (r: [u8; 4])
        ensures
            r@ == octets_of(*self),
    {
        let r = [self.a, self.b, self.c, self.d];
        assert(r@ =~= octets_of(*self));
        r
    }

    pub fn to_u32(&self) -> (r: u32)
        ensures
            r as nat == ipv4_to_u32(*self),
    {
        (self.a as u32) * 0x1000000 + (self.b as u32) * 0x10000 + (self.c as u32) * 0x100 + (self.d as u32)
    }

    pub fn from_u32(n: u32) -> (r: Self)
        ensures
            r == ipv4_of_u32(n),
            ipv4_to_u32(r) == n as nat,
    {
        let r = Ipv4Addr {
            a: (n / 0x1000000) as u8,
            b: ((n / 0x10000) % 0x100) as u8,
            c: ((n / 0x100) % 0x100) as u8,
            d: (n % 0x100) as u8,
        };
        r
    }
}


// ---------------------------------------------------------------------------
// Reading addresses from text, as `str::parse` does
// ---------------------------------------------------------------------------

/// One decimal octet of a dotted quad: one to three digits, no leading zero
/// unless the octet is `0`, at most 255.
pub open spec fn octet_text(t: Seq<char>) -> Option<u8> {
    if 1 <= t.len() <= 3 && all_digits(t) && (t.len() == 1 || t[0] != '0') && decimal_value(t) <= 255 {
        Some(decimal_value(t) as u8)
    } else {
        None
    }
}

/// The IPv4 address that a dotted quad such as `192.168.1.1` denotes.
pub open spec fn ipv4_text(s: Seq<char>) -> Option<Ipv4Addr> {
    let p = split_on(s, '.');
    if p.len() != 4 {
        None
    } else {
        match (octet_text(p[0]), octet_text(p[1]), octet_text(p[2]), octet_text(p[3])) {
            (Some(a), Some(b), Some(c), Some(d)) => Some(Ipv4Addr { a, b, c, d }),
            _ => None,
        }
    }
}

pub open spec fn is_hex(c: char) -> bool {
    is_digit(c) || ('a' <= c && c <= 'f') || ('A' <= c && c <= 'F')
}

pub open spec fn hex_digit_value(c: char) -> nat {
    if is_digit(c) {
        (c as int - '0' as int) as nat
    } else if 'a' <= c && c <= 'f' {
        (c as int - 'a' as int + 10) as nat
    } else {
        (c as int - 'A' as int + 10) as nat
    }
}

pub open spec fn hex_value(t: Seq<char>) -> nat
    decreases t.len(),
{
    if t.len() == 0 {
        0
    } else {
        hex_value(t.drop_last()) * 16 + hex_digit_value(t.last())
    }
}

/// One group of an IPv6 address: one to four hexadecimal digits.
pub open spec fn hex_group(t: Seq<char>) -> Option<u16> {
    if 1 <= t.len() <= 4 && (forall|i: int| 0 <= i < t.len() ==> is_hex(#[trigger] t[i])) {
        Some(hex_value(t) as u16)
    } else {
        None
    }
}

/// The values of groups `p[i..]`; the last may be a dotted quad, worth two
/// groups, where `v4_last` allows it.
pub open spec fn group_values(p: Seq<Seq<char>>, i: int, v4_last: bool) -> Option<Seq<u16>>
    decreases p.len() - i,
{
    if i < 0 || i >= p.len() {
        Some(Seq::empty())
    } else if i == p.len() - 1 && v4_last && ipv4_text(p[i]) is Some {
        let q = ipv4_text(p[i]).unwrap();
        Some(seq![(q.a as nat * 256 + q.b as nat) as u16, (q.c as nat * 256 + q.d as nat) as u16])
    } else {
        match (hex_group(p[i]), group_values(p, i + 1, v4_last)) {
            (Some(g), Some(rest)) => Some(seq![g] + rest),
            _ => None,
        }
    }
}

/// The groups of a colon-separated list (empty text has none).
pub open spec fn group_list(t: Seq<char>, v4_last: bool) -> Option<Seq<u16>> {
    if t.len() == 0 {
        Some(Seq::empty())
    } else {
        group_values(split_on(t, ':'), 0, v4_last)
    }
}

/// Eight segments: the head, zeros, then the tail.
pub open spec fn spliced_segments(head: Seq<u16>, tail: Seq<u16>) -> Seq<u16> {
    head + Seq::new((8 - head.len() - tail.len()) as nat, |k: int| 0u16) + tail
}

/// The segments of the IPv6 address that `s` denotes: eight groups, or
/// groups around one `::` that stands for at least one zero group. A dotted
/// quad may close the address.
pub open spec fn ipv6_text(s: Seq<char>) -> Option<Seq<u16>> {
    match find(s, seq![':', ':']) {
        Some(i) => {
            match (group_list(s.take(i), false), group_list(s.skip(i + 2), true)) {
                (Some(h), Some(t)) => if h.len() + t.len() <= 7 { Some(spliced_segments(h, t)) } else { None },
                _ => None,
            }
        },
        None => match group_list(s, true) {
            Some(g) => if g.len() == 8 { Some(g) } else { None },
            None => None,
        },
    }
}

/// The address that `s` denotes, trying IPv4 first (`IpAddr::from_str`).
pub open spec fn ip_text(s: Seq<char>) -> Option<IpAddr> {
    match ipv4_text(s) {
        Some(a) => Some(IpAddr::V4(a)),
        None => match ipv6_text(s) {
            Some(g) => Some(IpAddr::V6(Ipv6Addr { segments: [g[0], g[1], g[2], g[3], g[4], g[5], g[6], g[7]] })),
            None => None,
        },
    }
}

/// Reads one octet of a dotted quad.
pub fn parse_octet(t: &Vec<char>) -> (r: Option<u8>)
    ensures
        r == octet_text(t@),
{
    if t.len() < 1 || t.len() > 3 {
        return None;
    }
    let mut i: usize = 0;
    let mut v: u32 = 0;
    while i < t.len()
        invariant
            1 <= t@.len() <= 3,
            i <= t@.len(),
            forall|k: int| 0 <= k < i ==> is_digit(#[trigger] t@[k]),
            v as nat == decimal_value(t@.take(i as int)),
            v < 1000,
        decreases t.len() - i,
    {
        let c = t[i];
        if !('0' <= c && c <= '9') {
            assert(!is_digit(t@[i as int]));
            return None;
        }
        assert(t@.take(i + 1).drop_last() =~= t@.take(i as int));
        assert(decimal_value(t@.take(i as int)) < 100) by {
            if i >= 1 {
                lemma_decimal_small(t@.take(i as int));
            }
        }
        v = v * 10 + (c as u32 - '0' as u32);
        i = i + 1;
    }
    assert(t@.take(t@.len() as int) =~= t@);
    if t.len() > 1 && t[0] == '0' {
        return None;
    }
    if v > 255 {
        return None;
    }
    Some(v as u8)
}

proof fn lemma_digit_small(c: char)
    requires
        is_digit(c),
    ensures
        digit_value(c) <= 9,
{
    assert('0' as int == 48 && '9' as int == 57);
    assert(c as int <= 57);
}

proof fn lemma_decimal_small(t: Seq<char>)
    requires
        t.len() <= 2,
        all_digits(t),
    ensures
        decimal_value(t) < 100,
{
    if t.len() == 1 {
        lemma_digit_small(t[0]);
        assert(t.drop_last().len() == 0);
        assert(decimal_value(t.drop_last()) == 0);
        assert(t.last() == t[0]);
    } else if t.len() == 2 {
        lemma_digit_small(t[0]);
        lemma_digit_small(t[1]);
        let u = t.drop_last();
        assert(u[0] == t[0]);
        assert(u.drop_last().len() == 0);
        assert(decimal_value(u.drop_last()) == 0);
        assert(u.last() == t[0]);
        assert(decimal_value(u) < 10);
        assert(t.last() == t[1]);
    }
}

/// Reads a dotted quad.
pub fn parse_ipv4_text(s: &Vec<char>) -> (r: Option<Ipv4Addr>)
    ensures
        r == ipv4_text(s@),
{
    let p = split_exec(s, '.');
    if p.len() != 4 {
        return None;
    }
    assert(p@[0]@ == split_on(s@, '.')[0] && p@[1]@ == split_on(s@, '.')[1]);
    assert(p@[2]@ == split_on(s@, '.')[2] && p@[3]@ == split_on(s@, '.')[3]);
    match (parse_octet(&p[0]), parse_octet(&p[1]), parse_octet(&p[2]), parse_octet(&p[3])) {
        (Some(a), Some(b), Some(c), Some(d)) => Some(Ipv4Addr { a, b, c, d }),
        _ => None,
    }
}


pub fn is_hex_exec(c: char) -> (r: bool)
    ensures
        r == is_hex(c),
{
    ('0' <= c && c <= '9') || ('a' <= c && c <= 'f') || ('A' <= c && c <= 'F')
}

proof fn lemma_hex_digit_small(c: char)
    requires
        is_hex(c),
    ensures
        hex_digit_value(c) <= 15,
{
    assert('0' as int == 48 && '9' as int == 57 && 'a' as int == 97 && 'f' as int == 102 && 'A' as int == 65 && 'F' as int == 70);
}

/// Reads one group of an IPv6 address.
pub fn parse_hex_group(t: &Vec<char>) -> (r: Option<u16>)
    ensures
        r == hex_group(t@),
{
    if t.len() < 1 || t.len() > 4 {
        return None;
    }
    let mut i: usize = 0;
    let mut v: u32 = 0;
    while i < t.len()
        invariant
            1 <= t@.len() <= 4,
            i <= t@.len(),
            forall|k: int| 0 <= k < i ==> is_hex(#[trigger] t@[k]),
            v as nat == hex_value(t@.take(i as int)),
            v < 0x10000,
            i == 0 ==> v == 0,
            v < pow16(i as nat),
        decreases t.len() - i,
    {
        let c = t[i];
        if !is_hex_exec(c) {
            return None;
        }
        proof {
            lemma_hex_digit_small(c);
            assert(t@.take(i + 1).drop_last() =~= t@.take(i as int));
            assert(t@.take(i + 1).last() == c);
        }
        let d: u32 = if '0' <= c && c <= '9' {
            c as u32 - '0' as u32
        } else if 'a' <= c && c <= 'f' {
            c as u32 - 'a' as u32 + 10
        } else {
            c as u32 - 'A' as u32 + 10
        };
        assert(d as nat == hex_digit_value(c));
        assert(v * 16 + d < pow16((i + 1) as nat)) by (nonlinear_arith)
            requires v < pow16(i as nat), d <= 15, pow16((i + 1) as nat) == pow16(i as nat) * 16;
        assert(pow16((i + 1) as nat) <= 0x10000) by {
            reveal_with_fuel(pow16, 5);
        }
        v = v * 16 + d;
        i = i + 1;
    }
    assert(t@.take(t@.len() as int) =~= t@);
    Some(v as u16)
}

pub open spec fn pow16(n: nat) -> nat
    decreases n,
{
    if n == 0 { 1 } else { 16 * pow16((n - 1) as nat) }
}

/// The segments of a group list `p[i..]`, as `group_values` describes them.
fn parse_group_values(p: &Vec<Vec<char>>, v4_last: bool) -> (r: Option<Vec<u16>>)
    ensures
        r matches Some(g) ==> group_values(p.deep_view(), 0, v4_last) == Some(g@),
        r is None ==> group_values(p.deep_view(), 0, v4_last) is None,
{
    let ghost pv = p.deep_view();
    let mut acc: Vec<u16> = Vec::new();
    let mut i: usize = 0;
    while i < p.len()
        invariant
            i <= p@.len(),
            pv == p.deep_view(),
            pv.len() == p@.len(),
            group_values(pv, 0, v4_last) == match group_values(pv, i as int, v4_last) {
                Some(rest) => Some(acc@ + rest),
                None => None,
            },
        decreases p.len() - i,
    {
        assert(pv[i as int] == p@[i as int]@);
        if i == p.len() - 1 && v4_last {
            match parse_ipv4_text(&p[i]) {
                Some(q) => {
                    let ghost before = acc@;
                    acc.push((q.a as u16) * 256 + q.b as u16);
                    acc.push((q.c as u16) * 256 + q.d as u16);
                    assert(acc@ =~= before + seq![(q.a as nat * 256 + q.b as nat) as u16, (q.c as nat * 256 + q.d as nat) as u16]);
                    return Some(acc);
                },
                None => {},
            }
        }
        match parse_hex_group(&p[i]) {
            Some(g) => {
                let ghost before = acc@;
                acc.push(g);
                proof {
                    match group_values(pv, i + 1, v4_last) {
                        Some(rest) => {
                            assert(before + (seq![g] + rest) =~= acc@ + rest);
                        },
                        None => {},
                    }
                }
            },
            None => {
                return None;
            },
        }
        i = i + 1;
    }
    assert(acc@ + Seq::<u16>::empty() =~= acc@);
    Some(acc)
}

/// Reads a colon-separated list of groups.
fn parse_group_list(t: &Vec<char>, v4_last: bool) -> (r: Option<Vec<u16>>)
    ensures
        r matches Some(g) ==> group_list(t@, v4_last) == Some(g@),
        r is None ==> group_list(t@, v4_last) is None,
{
    if t.len() == 0 {
        return Some(Vec::new());
    }
    let p = split_exec(t, ':');
    assert(p.deep_view() =~= split_on(t@, ':')) by {
        assert forall|k: int| 0 <= k < p@.len() implies #[trigger] p.deep_view()[k] == split_on(t@, ':')[k] by {
            assert(p.deep_view()[k] == p@[k]@);
        }
    }
    parse_group_values(&p, v4_last)
}

/// Reads an IPv6 address.
pub fn parse_ipv6_text(s: &Vec<char>) -> (r: Option<Ipv6Addr>)
    ensures
        r matches Some(a) ==> ipv6_text(s@) == Some(a.segments@),
        r is None ==> ipv6_text(s@) is None,
{
    let pat: Vec<char> = vec![':', ':'];
    assert(pat@ =~= seq![':', ':']);
    let g: Vec<u16> = match find_exec(s, &pat) {
        Some(i) => {
            proof {
                crate::text::lemma_find_from_bounds(s@, pat@, 0);
                assert(crate::text::find_from(s@, pat@, 0) == Some(i as int));
                assert(crate::text::matches_at(s@, pat@, i as int));
                assert(i + 2 <= s@.len());
            }
            let n: usize = s.len();
            let after: usize = i + 2;
            let head = crate::text::slice_vec(s, 0, i);
            let tail = crate::text::slice_vec(s, after, s.len());
            assert(head@ =~= s@.take(i as int));
            assert(tail@ =~= s@.skip(i + 2));
            let h = match parse_group_list(&head, false) {
                Some(h) => h,
                None => {
                    return None;
                },
            };
            let t = match parse_group_list(&tail, true) {
                Some(t) => t,
                None => {
                    return None;
                },
            };
            if h.len() > 7 || t.len() > 7 - h.len() {
                return None;
            }
            let mut g: Vec<u16> = Vec::new();
            let mut k: usize = 0;
            while k < h.len()
                invariant
                    k <= h@.len(),
                    g@ == h@.take(k as int),
                decreases h.len() - k,
            {
                g.push(h[k]);
                assert(h@.take(k + 1) =~= h@.take(k as int).push(h@[k as int]));
                k = k + 1;
            }
            let zeros = 8 - h.len() - t.len();
            let mut z: usize = 0;
            while z < zeros
                invariant
                    z <= zeros,
                    h@.len() + t@.len() <= 7,
                    zeros == 8 - h@.len() - t@.len(),
                    g@ == h@ + Seq::new(z as nat, |j: int| 0u16),
                decreases zeros - z,
            {
                g.push(0);
                assert(Seq::new((z + 1) as nat, |j: int| 0u16) =~= Seq::new(z as nat, |j: int| 0u16).push(0u16));
                z = z + 1;
            }
            let mut k: usize = 0;
            while k < t.len()
                invariant
                    k <= t@.len(),
                    h@.len() + t@.len() <= 7,
                    g@ == h@ + Seq::new((8 - h@.len() - t@.len()) as nat, |j: int| 0u16) + t@.take(k as int),
                decreases t.len() - k,
            {
                g.push(t[k]);
                assert(t@.take(k + 1) =~= t@.take(k as int).push(t@[k as int]));
                k = k + 1;
            }
            assert(t@.take(t@.len() as int) =~= t@);
            assert(g@ == spliced_segments(h@, t@));
            g
        },
        None => {
            let g = match parse_group_list(s, true) {
                Some(g) => g,
                None => {
                    return None;
                },
            };
            if g.len() != 8 {
                return None;
            }
            g
        },
    };
    assert(g@.len() == 8);
    let a = Ipv6Addr { segments: [g[0], g[1], g[2], g[3], g[4], g[5], g[6], g[7]] };
    assert(a.segments@ =~= g@);
    Some(a)
}

/// Reads an address, trying IPv4 first and then IPv6.
pub fn parse_ip_text(s: &Vec<char>) -> (r: Option<IpAddr>)
    ensures
        r == ip_text(s@),
{
    match parse_ipv4_text(s) {
        Some(a) => Some(IpAddr::V4(a)),
        None => match parse_ipv6_text(s) {
            Some(a) => {
                proof {
                    let g = a.segments@;
                    assert(a.segments =~= [g[0], g[1], g[2], g[3], g[4], g[5], g[6], g[7]]);
                }
                Some(IpAddr::V6(a))
            },
            None => None,
        },
    }
}


// ---------------------------------------------------------------------------
// Writing addresses as text
// ---------------------------------------------------------------------------

/// A dotted quad.
pub open spec fn ipv4_display(ip: Ipv4Addr) -> Seq<char> {
    decimal_chars(ip.a as nat) + "."@ + decimal_chars(ip.b as nat) + "."@ + decimal_chars(ip.c as nat) + "."@
        + decimal_chars(ip.d as nat)
}

pub proof fn lemma_decimal_chars_facts(n: nat)
    ensures
        decimal_chars(n).len() >= 1,
        all_digits(decimal_chars(n)),
        decimal_value(decimal_chars(n)) == n,
        n >= 10 ==> decimal_chars(n)[0] != '0',
        n < 10 ==> decimal_chars(n).len() == 1,
        10 <= n < 100 ==> decimal_chars(n).len() == 2,
        100 <= n < 1000 ==> decimal_chars(n).len() == 3,
    decreases n,
{
    assert(digit_value(digit_char(n % 10)) == n % 10);
    if n < 10 {
        let s = decimal_chars(n);
        assert(s.drop_last() =~= Seq::<char>::empty());
        assert(s.last() == digit_char(n));
        assert(n % 10 == n);
        assert(decimal_value(s) == decimal_value(s.drop_last()) * 10 + digit_value(s.last()));
    } else {
        lemma_decimal_chars_facts(n / 10);
        let s = decimal_chars(n);
        let t = decimal_chars(n / 10);
        assert(s.drop_last() =~= t);
        assert(s.last() == digit_char(n % 10));
        assert(decimal_value(s) == decimal_value(t) * 10 + digit_value(s.last()));
        assert((n / 10) * 10 + n % 10 == n);
        assert(s[0] == t[0]);
        assert forall|i: int| 0 <= i < s.len() implies is_digit(#[trigger] s[i]) by {
            if i < t.len() {
                assert(s[i] == t[i]);
            }
        }
    }
}

pub proof fn lemma_split_without_sep(x: Seq<char>, y: Seq<char>, sep: char)
    requires
        forall|i: int| 0 <= i < x.len() ==> #[trigger] x[i] != sep,
    ensures
        split_on(x + seq![sep] + y, sep) == seq![x] + split_on(y, sep),
        split_on(x, sep) == seq![x],
    decreases x.len(),
{
    if x.len() == 0 {
        assert((x + seq![sep] + y).drop_first() =~= y);
        assert(x + seq![sep] + y =~= seq![sep] + y);
        assert(x =~= Seq::<char>::empty());
    } else {
        let rest = x.drop_first();
        lemma_split_without_sep(rest, y, sep);
        assert((x + seq![sep] + y).drop_first() =~= rest + seq![sep] + y);
        assert(seq![x[0]] + rest =~= x);
        assert(split_on(x + seq![sep] + y, sep) =~= seq![x] + split_on(y, sep));
        assert(split_on(x, sep) =~= seq![x]);
    }
}

proof fn lemma_octet_reads_back(n: u8)
    ensures
        octet_text(decimal_chars(n as nat)) == Some(n),
        forall|i: int| 0 <= i < decimal_chars(n as nat).len() ==> #[trigger] decimal_chars(n as nat)[i] != '.',
{
    lemma_decimal_chars_facts(n as nat);
    let d = decimal_chars(n as nat);
    assert forall|i: int| 0 <= i < d.len() implies #[trigger] d[i] != '.' by {
        assert(is_digit(d[i]));
    }
}

/// Reading back a dotted quad that an address was written as gives the
/// address again.
pub proof fn lemma_ipv4_display_reads_back(ip: Ipv4Addr)
    ensures
        ipv4_text(ipv4_display(ip)) == Some(ip),
        ip_text(ipv4_display(ip)) == Some(IpAddr::V4(ip)),
{
    reveal_strlit(".");
    lemma_octet_reads_back(ip.a);
    lemma_octet_reads_back(ip.b);
    lemma_octet_reads_back(ip.c);
    lemma_octet_reads_back(ip.d);
    let (da, db, dc, dd) = (
        decimal_chars(ip.a as nat),
        decimal_chars(ip.b as nat),
        decimal_chars(ip.c as nat),
        decimal_chars(ip.d as nat),
    );
    lemma_split_without_sep(dd, Seq::empty(), '.');
    lemma_split_without_sep(dc, dd, '.');
    lemma_split_without_sep(db, dc + seq!['.'] + dd, '.');
    lemma_split_without_sep(da, db + seq!['.'] + dc + seq!['.'] + dd, '.');
    assert(ipv4_display(ip) =~= da + seq!['.'] + (db + seq!['.'] + dc + seq!['.'] + dd));
    assert(db + seq!['.'] + dc + seq!['.'] + dd =~= db + seq!['.'] + (dc + seq!['.'] + dd));
    let p = split_on(ipv4_display(ip), '.');
    assert(p =~= seq![da, db, dc, dd]);
}

/// Groups in hexadecimal, separated by colons.
pub open spec fn groups_text(s: Seq<u16>) -> Seq<char>
    decreases s.len(),
{
    if s.len() == 0 {
        Seq::empty()
    } else if s.len() == 1 {
        hex_chars(s[0] as nat)
    } else {
        groups_text(s.drop_last()) + ":"@ + hex_chars(s.last() as nat)
    }
}

/// The longest run of zero groups from position `i` on, as (start, length),
/// given the run under way and the longest one so far; of two runs of the
/// same length, the first.
pub open spec fn zero_run_from(s: Seq<u16>, i: int, cur: (int, int), best: (int, int)) -> (int, int)
    decreases s.len() - i,
{
    if i < 0 || i >= s.len() {
        best
    } else if s[i] == 0 {
        let c = if cur.1 == 0 { (i, 1int) } else { (cur.0, cur.1 + 1) };
        let b = if c.1 > best.1 { c } else { best };
        zero_run_from(s, i + 1, c, b)
    } else {
        zero_run_from(s, i + 1, (0, 0), best)
    }
}

/// The address's text as the standard library writes it: an IPv4-mapped
/// address as `::ffff:` and a dotted quad, else the groups in hexadecimal
/// with the longest run of two or more zero groups written `::`.
pub open spec fn ipv6_display(s: Seq<u16>) -> Seq<char> {
    if s.len() == 8 && s[0] == 0 && s[1] == 0 && s[2] == 0 && s[3] == 0 && s[4] == 0 && s[5] == 0xffff {
        "::ffff:"@ + ipv4_display(Ipv4Addr { a: (s[6] / 256) as u8, b: (s[6] % 256) as u8, c: (s[7] / 256) as u8, d: (s[7] % 256) as u8 })
    } else {
        let run = zero_run_from(s, 0, (0, 0), (0, 0));
        if run.1 > 1 {
            groups_text(s.take(run.0)) + "::"@ + groups_text(s.skip(run.0 + run.1))
        } else {
            groups_text(s)
        }
    }
}

/// The text of an address.
pub open spec fn ip_display(ip: IpAddr) -> Seq<char> {
    match ip {
        IpAddr::V4(a) => ipv4_display(a),
        IpAddr::V6(a) => ipv6_display(a.segments@),
    }
}

impl Ipv4Addr {
    /// The address as a dotted quad.
    pub fn to_string(&self) -> (r: String)
        ensures
            r@ == ipv4_display(*self),
    {
        let mut s = String::new();
        push_decimal(&mut s, self.a as u64);
        push_str(&mut s, ".");
        push_decimal(&mut s, self.b as u64);
        push_str(&mut s, ".");
        push_decimal(&mut s, self.c as u64);
        push_str(&mut s, ".");
        push_decimal(&mut s, self.d as u64);
        s
    }
}

/// Appends the groups `s[from..to]` in hexadecimal, separated by colons.
fn push_groups(out: &mut String, seg: &[u16; 8], from: usize, to: usize)
    requires
        from <= to <= 8,
    ensures
        final(out)@ == old(out)@ + groups_text(seg@.subrange(from as int, to as int)),
{
    let mut i: usize = from;
    while i < to
        invariant
            from <= i <= to <= 8,
            out@ == old(out)@ + groups_text(seg@.subrange(from as int, i as int)),
        decreases to - i,
    {
        let ghost before = out@;
        if i > from {
            push_str(out, ":");
        }
        push_hex(out, seg[i] as u64);
        proof {
            let t = seg@.subrange(from as int, i + 1);
            assert(t.drop_last() =~= seg@.subrange(from as int, i as int));
            assert(t.last() == seg@[i as int]);
        }
        i = i + 1;
    }
}

impl Ipv6Addr {
    /// The address as the standard library writes it.
    pub fn to_string(&self) -> (r: String)
        ensures
            r@ == ipv6_display(self.segments@),
    {
        let seg = &self.segments;
        let mut out = String::new();
        if seg[0] == 0 && seg[1] == 0 && seg[2] == 0 && seg[3] == 0 && seg[4] == 0 && seg[5] == 0xffff {
            push_str(&mut out, "::ffff:");
            let v4 = Ipv4Addr { a: (seg[6] / 256) as u8, b: (seg[6] % 256) as u8, c: (seg[7] / 256) as u8, d: (seg[7] % 256) as u8 };
            let t = v4.to_string();
            push_str(&mut out, t.as_str());
            return out;
        }
        let mut cur_start: usize = 0;
        let mut cur_len: usize = 0;
        let mut best_start: usize = 0;
        let mut best_len: usize = 0;
        let mut i: usize = 0;
        while i < 8
            invariant
                i <= 8,
                cur_start + cur_len <= i,
                best_start + best_len <= 8,
                zero_run_from(self.segments@, 0, (0, 0), (0, 0))
                    == zero_run_from(self.segments@, i as int, (cur_start as int, cur_len as int), (best_start as int, best_len as int)),
                seg == &self.segments,
            decreases 8 - i,
        {
            if seg[i] == 0 {
                if cur_len == 0 {
                    cur_start = i;
                }
                cur_len = cur_len + 1;
                if cur_len > best_len {
                    best_start = cur_start;
                    best_len = cur_len;
                }
            } else {
                cur_start = 0;
                cur_len = 0;
            }
            i = i + 1;
        }
        if best_len > 1 {
            push_groups(&mut out, seg, 0, best_start);
            push_str(&mut out, "::");
            push_groups(&mut out, seg, best_start + best_len, 8);
            assert(seg@.subrange(0, best_start as int) =~= seg@.take(best_start as int));
            assert(seg@.subrange((best_start + best_len) as int, 8) =~= seg@.skip((best_start + best_len) as int));
        } else {
            push_groups(&mut out, seg, 0, 8);
            assert(seg@.subrange(0, 8) =~= seg@);
        }
        out
    }
}

impl IpAddr {
    /// The address as the standard library writes it.
    pub fn to_string(&self) -> (r: String)
        ensures
            r@ == ip_display(*self),
    {
        match self {
            IpAddr::V4(a) => a.to_string(),
            IpAddr::V6(a) => a.to_string(),
        }
    }
}

} // verus!
