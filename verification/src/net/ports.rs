//! Common port sets.

use vstd::prelude::*;
use crate::types::{Port, port_values};

verus! {

/// The hundred ports that are most often found open, in ascending order.
pub open spec fn top_100_values() -> Seq<u16> {
    seq![
        7u16, 9, 13, 21, 22, 23, 25, 26, 37, 53, 79, 80,
        81, 88, 106, 110, 111, 113, 119, 135, 139, 143, 144, 179,
        199, 389, 427, 443, 444, 445, 465, 513, 514, 515, 543, 544,
        548, 554, 587, 631, 646, 873, 990, 993, 995, 1025, 1026, 1027,
        1028, 1029, 1110, 1433, 1720, 1723, 1755, 1900, 2000, 2001, 2049, 2121,
        2717, 3000, 3128, 3306, 3389, 3986, 4899, 5000, 5009, 5051, 5060, 5101,
        5190, 5357, 5432, 5631, 5666, 5800, 5900, 6000, 6001, 6646, 7070, 8000,
        8008, 8009, 8080, 8081, 8443, 8888, 9100, 9999, 10000, 32768, 49152, 49153,
        49154, 49155, 49156, 49157,
    ]
}

/// Whether a list holds a value, looked for from its end.
pub open spec fn listed_in(s: Seq<u16>, v: u16) -> bool
    decreases s.len(),
{
    if s.len() == 0 {
        false
    } else {
        s.last() == v || listed_in(s.drop_last(), v)
    }
}

/// The ports `1..=n` that are not in the top-100 list, in ascending order.
pub open spec fn other_ports(n: nat) -> Seq<u16>
    decreases n,
{
    if n == 0 {
        Seq::empty()
    } else {
        let front = other_ports((n - 1) as nat);
        if listed_in(top_100_values(), n as u16) {
            front
        } else {
            front.push(n as u16)
        }
    }
}

/// The top-1000 list: the top-100 list, then the 900 lowest-numbered
/// other ports.
pub open spec fn top_1000_values() -> Seq<u16> {
    top_100_values() + other_ports(1000).take(900)
}

/// No port twice, and no port 0.
pub open spec fn distinct_ports(s: Seq<u16>) -> bool {
    &&& forall|i: int, j: int| 0 <= i < j < s.len() ==> s[i] != s[j]
    &&& forall|i: int| 0 <= i < s.len() ==> s[i] != 0
}

/// The ports `1..=n`, in order.
pub open spec fn first_ports(n: nat) -> Seq<u16> {
    Seq::new(n, |k: int| (k + 1) as u16)
}

proof fn lemma_listed_in_contains(s: Seq<u16>, v: u16)
    ensures
        listed_in(s, v) <==> s.contains(v),
    decreases s.len(),
{
    if s.len() > 0 {
        lemma_listed_in_contains(s.drop_last(), v);
        if s.drop_last().contains(v) {
            let k = choose|k: int| 0 <= k < s.drop_last().len() && s.drop_last()[k] == v;
            assert(s[k] == v);
        }
        if s.contains(v) {
            let k = choose|k: int| 0 <= k < s.len() && s[k] == v;
            if k < s.len() - 1 {
                assert(s.drop_last()[k] == v);
            }
        }
    }
}

proof fn lemma_increasing_from_steps(s: Seq<u16>, i: int, j: int)
    requires
        forall|k: int| #![trigger s[k]] 0 <= k < s.len() - 1 ==> s[k] < s[k + 1],
        0 <= i < j < s.len(),
    ensures
        s[i] < s[j],
    decreases j - i,
{
    if j > i + 1 {
        lemma_increasing_from_steps(s, i, j - 1);
        assert(s[j - 1] < s[j]);
    } else {
        assert(s[i] < s[i + 1]);
    }
}

proof fn lemma_top_100_increasing()
    ensures
        top_100_values().len() == 100,
        forall|i: int, j: int| 0 <= i < j < 100 ==> top_100_values()[i] < top_100_values()[j],
        top_100_values()[0] == 7,
{
    let s = top_100_values();
    assert forall|k: int| #![trigger s[k]] 0 <= k < s.len() - 1 implies s[k] < s[k + 1] by {}
    assert forall|i: int, j: int| 0 <= i < j < 100 implies top_100_values()[i] < top_100_values()[j] by {
        lemma_increasing_from_steps(s, i, j);
    }
}

proof fn lemma_other_ports_shape(n: nat)
    requires
        n <= 65535,
    ensures
        forall|i: int| 0 <= i < other_ports(n).len() ==> 1 <= #[trigger] other_ports(n)[i] <= n,
        forall|i: int| 0 <= i < other_ports(n).len() ==> !top_100_values().contains(#[trigger] other_ports(n)[i]),
        forall|i: int, j: int| 0 <= i < j < other_ports(n).len() ==> other_ports(n)[i] < other_ports(n)[j],
    decreases n,
{
    if n > 0 {
        lemma_other_ports_shape((n - 1) as nat);
        lemma_listed_in_contains(top_100_values(), n as u16);
        let front = other_ports((n - 1) as nat);
        let o = other_ports(n);
        assert forall|i: int| 0 <= i < o.len() implies 1 <= #[trigger] o[i] <= n
            && !top_100_values().contains(o[i]) by {
            if i < front.len() {
                assert(o[i] == front[i]);
            } else {
                assert(o[i] == n as u16);
            }
        }
    }
}

/// How many of the first `i` ports of the top-100 list are at most `n`.
spec fn listed_up_to(i: nat, n: int) -> nat
    decreases i,
{
    if i == 0 {
        0
    } else {
        listed_up_to((i - 1) as nat, n) + if top_100_values()[i - 1] <= n { 1nat } else { 0nat }
    }
}

proof fn lemma_listed_up_to_bound(i: nat, n: int)
    ensures
        listed_up_to(i, n) <= i,
    decreases i,
{
    if i > 0 {
        lemma_listed_up_to_bound((i - 1) as nat, n);
    }
}

proof fn lemma_listed_up_to_step(i: nat, v: u16)
    requires
        i <= 100,
        v >= 1,
    ensures
        listed_up_to(i, v as int) >= listed_up_to(i, v - 1) + if listed_in(top_100_values().take(i as int), v) {
            1nat
        } else {
            0nat
        },
    decreases i,
{
    if i > 0 {
        let t = top_100_values();
        lemma_listed_up_to_step((i - 1) as nat, v);
        assert(t.take(i as int).drop_last() =~= t.take(i - 1));
    }
}

proof fn lemma_listed_up_to_count(n: nat)
    requires
        n <= 65535,
    ensures
        other_ports(n).len() + listed_up_to(100, n as int) >= n,
    decreases n,
{
    if n > 0 {
        lemma_listed_up_to_count((n - 1) as nat);
        lemma_listed_up_to_step(100, n as u16);
        assert(top_100_values().take(100) =~= top_100_values());
    }
}

proof fn lemma_other_ports_prefix(m: nat, n: nat)
    requires
        m <= n,
    ensures
        other_ports(m).len() <= other_ports(n).len(),
        other_ports(n).take(other_ports(m).len() as int) == other_ports(m),
    decreases n,
{
    if m < n {
        lemma_other_ports_prefix(m, (n - 1) as nat);
        let a = other_ports(m);
        let b = other_ports((n - 1) as nat);
        assert(other_ports(n).take(a.len() as int) =~= b.take(a.len() as int));
    } else {
        assert(other_ports(n).take(other_ports(n).len() as int) =~= other_ports(n));
    }
}

/// Both lists hold distinct nonzero ports: a hundred in the top-100 list, a
/// thousand in the top-1000 list, which starts with the top-100 list.
pub proof fn lemma_top_lists_shape()
    ensures
        top_100_values().len() == 100,
        distinct_ports(top_100_values()),
        top_1000_values().len() == 1000,
        distinct_ports(top_1000_values()),
        top_1000_values().take(100) == top_100_values(),
{
    lemma_top_100_increasing();
    let t = top_100_values();
    lemma_listed_up_to_count(1000);
    lemma_listed_up_to_bound(100, 1000);
    lemma_other_ports_shape(1000);
    let o = other_ports(1000).take(900);
    let all = top_1000_values();
    assert forall|i: int| 0 <= i < 100 implies t[i] != 0 by {
        if i > 0 {
            assert(t[0] < t[i]);
        }
    }
    assert forall|i: int, j: int| 0 <= i < j < all.len() implies all[i] != all[j] by {
        if j < 100 {
        } else if i < 100 {
            assert(all[i] == t[i]);
            assert(all[j] == o[j - 100]);
            assert(t.contains(t[i]));
        } else {
            assert(all[i] == o[i - 100]);
            assert(all[j] == o[j - 100]);
        }
    }
    assert forall|i: int| 0 <= i < all.len() implies all[i] != 0 by {
        if i >= 100 {
            assert(all[i] == o[i - 100]);
        }
    }
    assert(all.take(100) =~= t);
}

fn ports_up_to(n: u16) -> (r: Vec<Port>)
    ensures
        port_values(r@) == first_ports(n as nat),
{
    let mut r: Vec<Port> = Vec::new();
    let mut p: u32 = 1;
    while p <= n as u32
        invariant
            1 <= p <= n as u32 + 1,
            port_values(r@) == first_ports((p - 1) as nat),
        decreases n as u32 + 1 - p,
    {
        if let Some(port) = Port::new(p as u16) {
            let ghost before = r@;
            r.push(port);
            assert(port_values(r@) =~= port_values(before).push(p as u16));
        }
        assert(first_ports(p as nat) =~= first_ports((p - 1) as nat).push(p as u16));
        p = p + 1;
    }
    r
}

fn top_100_numbers() -> (r: Vec<u16>)
    ensures
        r@ == top_100_values(),
{
    vec![
        7u16, 9, 13, 21, 22, 23, 25, 26, 37, 53, 79, 80,
        81, 88, 106, 110, 111, 113, 119, 135, 139, 143, 144, 179,
        199, 389, 427, 443, 444, 445, 465, 513, 514, 515, 543, 544,
        548, 554, 587, 631, 646, 873, 990, 993, 995, 1025, 1026, 1027,
        1028, 1029, 1110, 1433, 1720, 1723, 1755, 1900, 2000, 2001, 2049, 2121,
        2717, 3000, 3128, 3306, 3389, 3986, 4899, 5000, 5009, 5051, 5060, 5101,
        5190, 5357, 5432, 5631, 5666, 5800, 5900, 6000, 6001, 6646, 7070, 8000,
        8008, 8009, 8080, 8081, 8443, 8888, 9100, 9999, 10000, 32768, 49152, 49153,
        49154, 49155, 49156, 49157,
    ]
}

/// Whether the list holds the value.
fn is_listed(s: &Vec<u16>, v: u16) -> (r: bool)
    ensures
        r == listed_in(s@, v),
{
    let mut found = false;
    let mut i: usize = 0;
    while i < s.len()
        invariant
            i <= s@.len(),
            found == listed_in(s@.take(i as int), v),
        decreases s.len() - i,
    {
        assert(s@.take(i + 1).drop_last() =~= s@.take(i as int));
        found = found || s[i] == v;
        i = i + 1;
    }
    assert(s@.take(s@.len() as int) =~= s@);
    found
}

/// The hundred most common ports.
pub fn top_100() -> (r: Vec<Port>)
    ensures
        port_values(r@) == top_100_values(),
{
    let numbers = top_100_numbers();
    let mut r: Vec<Port> = Vec::new();
    let mut i: usize = 0;
    while i < numbers.len()
        invariant
            i <= numbers@.len(),
            numbers@ == top_100_values(),
            port_values(r@) == numbers@.take(i as int),
        decreases numbers.len() - i,
    {
        if let Some(port) = Port::new(numbers[i]) {
            let ghost before = r@;
            r.push(port);
            assert(port_values(r@) =~= port_values(before).push(numbers@[i as int]));
        }
        assert(numbers@.take(i + 1) =~= numbers@.take(i as int).push(numbers@[i as int]));
        i = i + 1;
    }
    assert(numbers@.take(numbers@.len() as int) =~= numbers@);
    r
}

/// The thousand most common ports: the top-100 list, then the 900
/// lowest-numbered other ports.
pub fn top_1000() -> (r: Vec<Port>)
    ensures
        port_values(r@) == top_1000_values(),
{
    let numbers = top_100_numbers();
    let mut r = top_100();
    let mut p: u16 = 1;
    while r.len() < 1000
        invariant
            1 <= p <= 1001,
            numbers@ == top_100_values(),
            port_values(r@) == top_100_values() + other_ports((p - 1) as nat),
            r@.len() <= 1000,
        decreases 1001 - p,
    {
        proof {
            lemma_listed_up_to_count((p - 1) as nat);
            lemma_listed_up_to_bound(100, (p - 1) as int);
            assert(port_values(r@).len() == r@.len());
        }
        let listed = is_listed(&numbers, p);
        if !listed {
            if let Some(port) = Port::new(p) {
                let ghost before = r@;
                r.push(port);
                assert(port_values(r@) =~= port_values(before).push(p));
            }
        }
        assert(other_ports(p as nat) == (if listed_in(top_100_values(), p) {
            other_ports((p - 1) as nat)
        } else {
            other_ports((p - 1) as nat).push(p)
        }));
        assert(top_100_values() + other_ports((p - 1) as nat).push(p)
            =~= (top_100_values() + other_ports((p - 1) as nat)).push(p));
        p = p + 1;
    }
    proof {
        assert(port_values(r@).len() == r@.len());
        lemma_other_ports_prefix((p - 1) as nat, 1000);
    }
    r
}

/// Every port, 1 to 65535.
pub fn all() -> (r: Vec<Port>)
    ensures
        port_values(r@) == first_ports(65535),
{
    ports_up_to(65535)
}

/// The well-known ports, 1 to 1023.
pub fn well_known() -> (r: Vec<Port>)
    ensures
        port_values(r@) == first_ports(1023),
{
    ports_up_to(1023)
}

} // verus!
