//! The text that an address is written as reads back as the same address.

use vstd::prelude::*;
use crate::addr::{
    group_list, group_values, hex_digit_value, hex_group, hex_value, ip_display, ip_text, ipv4_display,
    ipv4_text, ipv6_text, ipv6_display, groups_text, is_hex, spliced_segments, zero_run_from, IpAddr, Ipv4Addr,
    lemma_ipv4_display_reads_back, lemma_split_without_sep, lemma_decimal_chars_facts, octet_text,
};
use crate::text::{decimal_chars, hex_char, hex_chars, split_on, find, find_from, matches_at, is_digit};

verus! {

proof fn lemma_hex_char(d: nat)
    requires
        d < 16,
    ensures
        is_hex(hex_char(d)),
        hex_digit_value(hex_char(d)) == d,
        hex_char(d) != ':',
        hex_char(d) != '.',
{
    assert('0' as int == 48 && '9' as int == 57 && 'a' as int == 97 && 'f' as int == 102);
}

/// The hexadecimal text of a group: one to four hexadecimal digits, which
/// read back as the group.
proof fn lemma_hex_chars_facts(n: nat)
    requires
        n < 0x10000,
    ensures
        1 <= hex_chars(n).len() <= 4,
        n < 0x10 ==> hex_chars(n).len() == 1,
        n < 0x100 ==> hex_chars(n).len() <= 2,
        n < 0x1000 ==> hex_chars(n).len() <= 3,
        forall|i: int| 0 <= i < hex_chars(n).len() ==> is_hex(#[trigger] hex_chars(n)[i]),
        forall|i: int| 0 <= i < hex_chars(n).len() ==> #[trigger] hex_chars(n)[i] != ':' && hex_chars(n)[i] != '.',
        hex_value(hex_chars(n)) == n,
        hex_group(hex_chars(n)) == Some(n as u16),
    decreases n,
{
    lemma_hex_char(n % 16);
    let s = hex_chars(n);
    if n < 16 {
        assert(s.drop_last() =~= Seq::<char>::empty());
        assert(n % 16 == n);
        assert(s.last() == hex_char(n));
        assert(hex_value(s) == hex_value(s.drop_last()) * 16 + hex_digit_value(s.last()));
    } else {
        lemma_hex_chars_facts(n / 16);
        let t = hex_chars(n / 16);
        assert(s.drop_last() =~= t);
        assert(s.last() == hex_char(n % 16));
        assert(hex_value(s) == hex_value(t) * 16 + hex_digit_value(s.last()));
        assert((n / 16) * 16 + n % 16 == n);
        assert(n / 16 < 0x1000);
        if n / 16 >= 16 {
            assert(n / 16 / 16 < 0x100);
        }
        assert forall|i: int| 0 <= i < s.len() implies is_hex(#[trigger] s[i]) && s[i] != ':' && s[i] != '.' by {
            if i < t.len() {
                assert(s[i] == t[i]);
            }
        }
    }
}

/// No two colons stand next to each other.
pub open spec fn no_double_colon(t: Seq<char>) -> bool {
    forall|i: int| 0 <= i < t.len() - 1 ==> !(#[trigger] t[i] == ':' && t[i + 1] == ':')
}

/// The texts of the groups, one per group.
pub open spec fn group_texts(s: Seq<u16>) -> Seq<Seq<char>> {
    s.map_values(|g: u16| hex_chars(g as nat))
}

proof fn lemma_groups_text_front(s: Seq<u16>)
    requires
        s.len() >= 2,
    ensures
        groups_text(s) == hex_chars(s[0] as nat) + seq![':'] + groups_text(s.drop_first()),
    decreases s.len(),
{
    reveal_strlit(":");
    if s.len() == 2 {
        let d = s.drop_last();
        assert(d.len() == 1 && d[0] == s[0]);
        assert(s.drop_first().len() == 1 && s.drop_first()[0] == s[1]);
        assert(s.last() == s[1]);
        assert(groups_text(d) == hex_chars(d[0] as nat));
        assert(groups_text(s.drop_first()) == hex_chars(s.drop_first()[0] as nat));
        assert(":"@ =~= seq![':']);
        assert(groups_text(s) == groups_text(d) + ":"@ + hex_chars(s.last() as nat));
        assert(groups_text(s) =~= hex_chars(s[0] as nat) + seq![':'] + groups_text(s.drop_first()));
    } else {
        let d = s.drop_last();
        lemma_groups_text_front(d);
        assert(d.drop_first() =~= s.drop_first().drop_last());
        assert(d[0] == s[0]);
        assert(s.drop_first().last() == s.last());
        assert(":"@ =~= seq![':']);
        assert(groups_text(s.drop_first()) == groups_text(s.drop_first().drop_last()) + ":"@ + hex_chars(s.drop_first().last() as nat));
        assert(groups_text(s) == groups_text(d) + ":"@ + hex_chars(s.last() as nat));
        assert(groups_text(s) =~= hex_chars(s[0] as nat) + seq![':'] + groups_text(s.drop_first()));
    }
}

/// The text of one or more groups: it splits at its colons into the texts
/// of the groups, holds no dot and no two colons side by side, and neither
/// begins nor ends with a colon.
proof fn lemma_groups_text_shape(s: Seq<u16>)
    requires
        s.len() >= 1,
    ensures
        split_on(groups_text(s), ':') == group_texts(s),
        forall|i: int| 0 <= i < groups_text(s).len() ==> #[trigger] groups_text(s)[i] != '.',
        no_double_colon(groups_text(s)),
        groups_text(s).len() >= 1,
        groups_text(s)[0] != ':',
        groups_text(s).last() != ':',
    decreases s.len(),
{
    lemma_hex_chars_facts(s[0] as nat);
    let h = hex_chars(s[0] as nat);
    if s.len() == 1 {
        lemma_split_without_sep(h, Seq::empty(), ':');
        assert(group_texts(s) =~= seq![h]);
    } else {
        let rest = s.drop_first();
        lemma_groups_text_front(s);
        lemma_groups_text_shape(rest);
        let r = groups_text(rest);
        let t = groups_text(s);
        assert(t == h + seq![':'] + r);
        lemma_split_without_sep(h, r, ':');
        assert(group_texts(s) =~= seq![h] + group_texts(rest));
        assert forall|i: int| 0 <= i < t.len() implies #[trigger] t[i] != '.' by {
            if i < h.len() {
                assert(t[i] == h[i]);
            } else if i > h.len() {
                assert(t[i] == r[i - h.len() - 1]);
            }
        }
        assert forall|i: int| 0 <= i < t.len() - 1 implies !(#[trigger] t[i] == ':' && t[i + 1] == ':') by {
            if i < h.len() {
                assert(t[i] == h[i]);
            } else if i == h.len() {
                assert(t[i + 1] == r[0]);
            } else {
                assert(t[i] == r[i - h.len() - 1]);
                assert(t[i + 1] == r[i - h.len()]);
            }
        }
        assert(t[0] == h[0]);
        assert(t.last() == r.last());
    }
}

proof fn lemma_no_dot_not_ipv4(t: Seq<char>)
    requires
        forall|i: int| 0 <= i < t.len() ==> #[trigger] t[i] != '.',
    ensures
        ipv4_text(t) is None,
{
    lemma_split_without_sep(t, Seq::empty(), '.');
}

proof fn lemma_group_values_of_texts(s: Seq<u16>, i: int, v4_last: bool)
    requires
        0 <= i <= s.len(),
    ensures
        group_values(group_texts(s), i, v4_last) == Some(s.skip(i)),
    decreases s.len() - i,
{
    let p = group_texts(s);
    if i < s.len() {
        lemma_hex_chars_facts(s[i] as nat);
        assert(p[i] == hex_chars(s[i] as nat));
        lemma_no_dot_not_ipv4(p[i]);
        lemma_group_values_of_texts(s, i + 1, v4_last);
        assert(seq![s[i]] + s.skip(i + 1) =~= s.skip(i));
    } else {
        assert(s.skip(i) =~= Seq::<u16>::empty());
    }
}

/// The groups that the text of some groups reads as.
proof fn lemma_group_list_of_text(s: Seq<u16>, v4_last: bool)
    ensures
        group_list(groups_text(s), v4_last) == Some(s),
{
    if s.len() == 0 {
        assert(s =~= Seq::<u16>::empty());
    } else {
        lemma_groups_text_shape(s);
        lemma_group_values_of_texts(s, 0, v4_last);
        assert(s.skip(0) =~= s);
    }
}

/// Two colons.
pub open spec fn double_colon() -> Seq<char> {
    seq![':', ':']
}

proof fn lemma_matches_double_colon(t: Seq<char>, i: int)
    ensures
        matches_at(t, double_colon(), i) <==> (0 <= i && i + 2 <= t.len() && t[i] == ':' && t[i + 1] == ':'),
{
    if 0 <= i && i + 2 <= t.len() {
        let sub = t.subrange(i, i + 2);
        assert(sub[0] == t[i] && sub[1] == t[i + 1]);
        if t[i] == ':' && t[i + 1] == ':' {
            assert(sub =~= double_colon());
        }
    }
}

proof fn lemma_find_none(t: Seq<char>, j: int)
    requires
        no_double_colon(t),
    ensures
        find_from(t, double_colon(), j) is None,
    decreases t.len() + 1 - j,
{
    if !(j < 0 || j + 2 > t.len()) {
        lemma_matches_double_colon(t, j);
        lemma_find_none(t, j + 1);
    }
}

proof fn lemma_find_first(t: Seq<char>, k: int, j: int)
    requires
        0 <= j <= k,
        k + 2 <= t.len(),
        t[k] == ':' && t[k + 1] == ':',
        forall|i: int| j <= i < k ==> !(#[trigger] t[i] == ':' && t[i + 1] == ':'),
    ensures
        find_from(t, double_colon(), j) == Some(k),
    decreases k - j,
{
    lemma_matches_double_colon(t, j);
    if j < k {
        lemma_find_first(t, k, j + 1);
    }
}

/// A run of zero groups that lies within the groups.
pub open spec fn zero_run(s: Seq<u16>, r: (int, int)) -> bool {
    &&& 0 <= r.0 && 0 <= r.1 && r.0 + r.1 <= s.len()
    &&& forall|k: int| r.0 <= k < r.0 + r.1 ==> #[trigger] s[k] == 0
}

proof fn lemma_zero_run_from(s: Seq<u16>, i: int, cur: (int, int), best: (int, int))
    requires
        0 <= i <= s.len(),
        zero_run(s, best),
        cur.1 == 0 || (zero_run(s, cur) && cur.0 + cur.1 == i),
    ensures
        zero_run(s, zero_run_from(s, i, cur, best)),
    decreases s.len() - i,
{
    if i < s.len() {
        if s[i] == 0 {
            let c = if cur.1 == 0 { (i, 1int) } else { (cur.0, cur.1 + 1) };
            assert(zero_run(s, c));
            let b = if c.1 > best.1 { c } else { best };
            lemma_zero_run_from(s, i + 1, c, b);
        } else {
            lemma_zero_run_from(s, i + 1, (0, 0), best);
        }
    }
}

proof fn lemma_ipv4_display_no_colon(q: Ipv4Addr)
    ensures
        forall|i: int| 0 <= i < ipv4_display(q).len() ==> #[trigger] ipv4_display(q)[i] != ':',
        ipv4_display(q) =~= decimal_chars(q.a as nat) + seq!['.'] + (decimal_chars(q.b as nat) + seq!['.']
            + decimal_chars(q.c as nat) + seq!['.'] + decimal_chars(q.d as nat)),
{
    reveal_strlit(".");
    lemma_decimal_chars_facts(q.a as nat);
    lemma_decimal_chars_facts(q.b as nat);
    lemma_decimal_chars_facts(q.c as nat);
    lemma_decimal_chars_facts(q.d as nat);
    let t = ipv4_display(q);
    let (da, db, dc, dd) = (
        decimal_chars(q.a as nat),
        decimal_chars(q.b as nat),
        decimal_chars(q.c as nat),
        decimal_chars(q.d as nat),
    );
    assert(t =~= da + seq!['.'] + db + seq!['.'] + dc + seq!['.'] + dd);
    assert forall|i: int| 0 <= i < t.len() implies #[trigger] t[i] != ':' by {
        let n1 = da.len() as int;
        let n2 = n1 + 1 + db.len();
        let n3 = n2 + 1 + dc.len();
        if i < n1 {
            assert(t[i] == da[i] && is_digit(da[i]));
        } else if i == n1 || i == n2 || i == n3 {
        } else if i < n2 {
            assert(t[i] == db[i - n1 - 1] && is_digit(db[i - n1 - 1]));
        } else if i < n3 {
            assert(t[i] == dc[i - n2 - 1] && is_digit(dc[i - n2 - 1]));
        } else {
            assert(t[i] == dd[i - n3 - 1] && is_digit(dd[i - n3 - 1]));
        }
    }
}

/// An IPv4-mapped address: `::ffff:` then a dotted quad.
proof fn lemma_mapped_reads_back(s: Seq<u16>)
    requires
        s.len() == 8,
        s[0] == 0 && s[1] == 0 && s[2] == 0 && s[3] == 0 && s[4] == 0 && s[5] == 0xffff,
    ensures
        ipv4_text(ipv6_display(s)) is None,
        ipv6_text(ipv6_display(s)) == Some(s),
{
    reveal_strlit("::ffff:");
    reveal_strlit("ffff");
    let q = Ipv4Addr { a: (s[6] / 256) as u8, b: (s[6] % 256) as u8, c: (s[7] / 256) as u8, d: (s[7] % 256) as u8 };
    let qt = ipv4_display(q);
    let t = ipv6_display(s);
    let prefix = "::ffff:"@;
    assert(t == prefix + qt);
    lemma_ipv4_display_no_colon(q);
    lemma_ipv4_display_reads_back(q);
    // Not a dotted quad: the text before the first dot holds colons.
    let da = decimal_chars(q.a as nat);
    let rest = decimal_chars(q.b as nat) + seq!['.'] + decimal_chars(q.c as nat) + seq!['.'] + decimal_chars(q.d as nat);
    lemma_decimal_chars_facts(q.a as nat);
    let x = prefix + da;
    assert forall|i: int| 0 <= i < x.len() implies #[trigger] x[i] != '.' by {
        if i >= prefix.len() {
            assert(x[i] == da[i - prefix.len()] && is_digit(da[i - prefix.len()]));
        }
    }
    assert(t =~= x + seq!['.'] + rest);
    lemma_split_without_sep(x, rest, '.');
    assert(split_on(t, '.')[0] == x);
    assert(!is_digit(x[0]));
    assert(octet_text(x) is None);
    // The first two colons stand at the start.
    lemma_matches_double_colon(t, 0);
    assert(find(t, double_colon()) == Some(0int));
    assert(t.take(0) =~= Seq::<char>::empty());
    let after = t.skip(2);
    let ff = "ffff"@;
    assert(after =~= ff + seq![':'] + qt);
    assert forall|i: int| 0 <= i < ff.len() implies #[trigger] ff[i] != ':' by {}
    lemma_split_without_sep(ff, qt, ':');
    lemma_split_without_sep(qt, Seq::empty(), ':');
    let p = split_on(after, ':');
    assert(p =~= seq![ff, qt]);
    reveal_with_fuel(hex_value, 5);
    assert(hex_value(ff) == 0xffff);
    assert(hex_group(ff) == Some(0xffffu16));
    assert(group_values(p, 2, true) == Some(Seq::<u16>::empty()));
    assert(group_values(p, 1, true) == Some(seq![(q.a as nat * 256 + q.b as nat) as u16, (q.c as nat * 256 + q.d as nat) as u16]));
    assert((q.a as nat * 256 + q.b as nat) as u16 == s[6]);
    assert((q.c as nat * 256 + q.d as nat) as u16 == s[7]);
    assert(group_values(p, 0, true) == Some(seq![0xffffu16] + seq![s[6], s[7]]));
    assert(group_list(after, true) == Some(seq![0xffffu16, s[6], s[7]]));
    assert(group_list(t.take(0), false) == Some(Seq::<u16>::empty()));
    assert(spliced_segments(Seq::empty(), seq![0xffffu16, s[6], s[7]]) =~= s);
}

/// The text of some groups holds no dot and no two colons side by side, is
/// empty or neither begins nor ends with a colon, and reads back as the
/// groups.
proof fn lemma_part_text(g: Seq<u16>)
    ensures
        forall|i: int| 0 <= i < groups_text(g).len() ==> #[trigger] groups_text(g)[i] != '.',
        no_double_colon(groups_text(g)),
        g.len() == 0 ==> groups_text(g).len() == 0,
        g.len() > 0 ==> groups_text(g).len() > 0 && groups_text(g)[0] != ':' && groups_text(g).last() != ':',
        group_list(groups_text(g), false) == Some(g),
        group_list(groups_text(g), true) == Some(g),
{
    if g.len() > 0 {
        lemma_groups_text_shape(g);
    }
    lemma_group_list_of_text(g, false);
    lemma_group_list_of_text(g, true);
}

/// An address with a run of two or more zero groups, written with `::`.
proof fn lemma_compressed_reads_back(s: Seq<u16>, run: (int, int))
    requires
        s.len() == 8,
        zero_run(s, run),
        run.1 > 1,
    ensures
        ({
            let t = groups_text(s.take(run.0)) + "::"@ + groups_text(s.skip(run.0 + run.1));
            &&& ipv4_text(t) is None
            &&& ipv6_text(t) == Some(s)
        }),
{
    reveal_strlit("::");
    let head = s.take(run.0);
    let tail = s.skip(run.0 + run.1);
    let a = groups_text(head);
    let b = groups_text(tail);
    lemma_part_text(head);
    lemma_part_text(tail);
    let t = a + "::"@ + b;
    assert(t =~= a + double_colon() + b);
    let k = a.len() as int;
    assert forall|i: int| 0 <= i < t.len() implies #[trigger] t[i] != '.' by {
        if i < k {
            assert(t[i] == a[i]);
        } else if i >= k + 2 {
            assert(t[i] == b[i - k - 2]);
        }
    }
    lemma_no_dot_not_ipv4(t);
    assert forall|i: int| 0 <= i < k implies !(#[trigger] t[i] == ':' && t[i + 1] == ':') by {
        assert(t[i] == a[i]);
        if i + 1 < k {
            assert(t[i + 1] == a[i + 1]);
        } else {
            assert(a.last() == a[i]);
        }
    }
    assert(t[k] == ':' && t[k + 1] == ':');
    lemma_find_first(t, k, 0);
    assert(t.take(k) =~= a);
    assert(t.skip(k + 2) =~= b);
    assert(head.len() + tail.len() <= 7);
    assert(spliced_segments(head, tail) =~= s);
}

/// An address without a run of two zero groups, written group by group.
proof fn lemma_plain_reads_back(s: Seq<u16>)
    requires
        s.len() == 8,
    ensures
        ipv4_text(groups_text(s)) is None,
        ipv6_text(groups_text(s)) == Some(s),
{
    lemma_part_text(s);
    lemma_no_dot_not_ipv4(groups_text(s));
    lemma_find_none(groups_text(s), 0);
}

/// Reading back the text that an address is written as gives the address
/// again, for both address families.
pub proof fn lemma_ip_display_reads_back(ip: IpAddr)
    ensures
        ip_text(ip_display(ip)) == Some(ip),
{
    match ip {
        IpAddr::V4(a) => {
            lemma_ipv4_display_reads_back(a);
        },
        IpAddr::V6(a) => {
            let s = a.segments@;
            assert(s.len() == 8);
            let t = ipv6_display(s);
            if s[0] == 0 && s[1] == 0 && s[2] == 0 && s[3] == 0 && s[4] == 0 && s[5] == 0xffff {
                lemma_mapped_reads_back(s);
            } else {
                let run = zero_run_from(s, 0, (0, 0), (0, 0));
                lemma_zero_run_from(s, 0, (0, 0), (0, 0));
                if run.1 > 1 {
                    lemma_compressed_reads_back(s, run);
                } else {
                    lemma_plain_reads_back(s);
                }
            }
            assert(ipv4_text(t) is None);
            assert(ipv6_text(t) == Some(s));
            let arr = [s[0], s[1], s[2], s[3], s[4], s[5], s[6], s[7]];
            assert(arr =~= a.segments);
        },
    }
}

} // verus!
