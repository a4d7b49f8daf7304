//! Port and address specifications.

pub mod ports;

use vstd::prelude::*;
use vstd::arithmetic::power2::{pow2, lemma2_to64, lemma_pow2_strictly_increases};
use vstd::bits::lemma_u64_shl_is_mul;
use crate::error::{Error, Result};
use crate::addr::{IpAddr, Ipv4Addr, Ipv6Addr, ipv4_of_u32, ipv4_to_u32, ip_text, parse_ip_text};
use crate::types::{Port, port_values};
use crate::text::{decimal_chars, parse_failure, int_error_text, parse_failure_exec, int_error_message, chars_of, split_exec, split_on, contains_exec, contains, parse_unsigned_exec, parse_unsigned,
    push_str, push_all, push_decimal, string_of, string_from};

verus! {

/// The ports `start..=end`, in increasing order.
pub open spec fn port_span(start: nat, end: nat) -> Seq<u16> {
    Seq::new((end + 1 - start) as nat, |k: int| (start + k) as u16)
}

/// The ports that one comma-separated part of a port specification names:
/// `a-b` for a range, or a single number. `None` where the part is refused.
pub open spec fn port_part_values(part: Seq<char>) -> Option<Seq<u16>> {
    if contains(part, seq!['-']) {
        let bounds = split_on(part, '-');
        if bounds.len() != 2 {
            None
        } else {
            match (parse_unsigned(bounds[0], 65535), parse_unsigned(bounds[1], 65535)) {
                (Some(start), Some(end)) => if start == 0 || end == 0 || start > end {
                    None
                } else {
                    Some(port_span(start, end))
                },
                _ => None,
            }
        }
    } else {
        match parse_unsigned(part, 65535) {
            Some(p) => if p == 0 { None } else { Some(seq![p as u16]) },
            None => None,
        }
    }
}

/// The ports that a list of parts names, in order, or `None` where a part is
/// refused.
pub open spec fn port_list(parts: Seq<Seq<char>>) -> Option<Seq<u16>>
    decreases parts.len(),
{
    if parts.len() == 0 {
        Some(Seq::empty())
    } else {
        match (port_part_values(parts[0]), port_list(parts.drop_first())) {
            (Some(a), Some(b)) => Some(a + b),
            _ => None,
        }
    }
}

/// The message of the error for a refused part of a port specification:
/// a range with more than one dash, a bound or port that does not read as
/// a number (with the reason), a range with a zero bound or running
/// backwards, or port 0.
pub open spec fn port_part_error(part: Seq<char>) -> Seq<char> {
    if contains(part, seq!['-']) {
        let bounds = split_on(part, '-');
        if bounds.len() != 2 {
            "Invalid port range: "@ + part
        } else {
            match (parse_unsigned(bounds[0], 65535), parse_unsigned(bounds[1], 65535)) {
                (None, _) => "Invalid port: "@ + int_error_text(parse_failure(bounds[0], 65535)),
                (Some(_), None) => "Invalid port: "@ + int_error_text(parse_failure(bounds[1], 65535)),
                (Some(start), Some(end)) => "Invalid port range: "@ + decimal_chars(start) + "-"@ + decimal_chars(end),
            }
        }
    } else {
        match parse_unsigned(part, 65535) {
            Some(p) => "Invalid port: "@ + decimal_chars(p),
            None => "Invalid port: "@ + int_error_text(parse_failure(part, 65535)),
        }
    }
}

/// The message of the error for the first refused part of a list.
pub open spec fn port_list_error(parts: Seq<Seq<char>>) -> Seq<char>
    decreases parts.len(),
{
    if parts.len() == 0 {
        Seq::empty()
    } else if port_part_values(parts[0]) is None {
        port_part_error(parts[0])
    } else {
        port_list_error(parts.drop_first())
    }
}

proof fn lemma_port_list_error_skip(parts: Seq<Seq<char>>, i: int)
    requires
        0 <= i < parts.len(),
    ensures
        port_list_error(parts.skip(i)) == if port_part_values(parts[i]) is None {
            port_part_error(parts[i])
        } else {
            port_list_error(parts.skip(i + 1))
        },
{
    assert(parts.skip(i).drop_first() =~= parts.skip(i + 1));
    assert(parts.skip(i)[0] == parts[i]);
}

/// The ports that a port specification such as `22,80,8000-8010` names.
pub open spec fn port_spec_values(spec: Seq<char>) -> Option<Seq<u16>> {
    port_list(split_on(spec, ','))
}

proof fn lemma_port_list_skip(parts: Seq<Seq<char>>, i: int)
    requires
        0 <= i < parts.len(),
    ensures
        port_list(parts.skip(i)) == match (port_part_values(parts[i]), port_list(parts.skip(i + 1))) {
            (Some(a), Some(b)) => Some(a + b),
            _ => None,
        },
{
    assert(parts.skip(i).drop_first() =~= parts.skip(i + 1));
    assert(parts.skip(i)[0] == parts[i]);
}

fn invalid_input(msg: String) -> (r: Error)
    ensures
        r == Error::InvalidInput(msg),
{
    Error::InvalidInput(msg)
}

/// The error for a port number that does not read as one: `Invalid port: `
/// and why it was refused.
fn invalid_port_number(t: &Vec<char>) -> (r: Error)
    ensures
        r matches Error::InvalidInput(m) && m@ == "Invalid port: "@ + int_error_text(parse_failure(t@, 65535)),
{
    let mut msg = String::new();
    push_str(&mut msg, "Invalid port: ");
    push_str(&mut msg, int_error_message(parse_failure_exec(t, 65535)));
    invalid_input(msg)
}

/// Parses one part of a port specification and appends its ports to `ports`.
fn push_part_ports(part: &Vec<char>, ports: &mut Vec<Port>) -> (r: Result<()>)
    requires
        old(ports)@.len() + 65536 <= usize::MAX,
    ensures
        r is Ok <==> port_part_values(part@) is Some,
        r is Ok ==> port_values(final(ports)@) == port_values(old(ports)@) + port_part_values(part@).unwrap(),
        r matches Err(e) ==> (e matches Error::InvalidInput(m) && m@ == port_part_error(part@)),
{
    let dash: Vec<char> = vec!['-'];
    assert(dash@ =~= seq!['-']);
    if contains_exec(part, &dash) {
        let bounds = split_exec(part, '-');
        if bounds.len() != 2 {
            let mut msg = String::new();
            push_str(&mut msg, "Invalid port range: ");
            push_all(&mut msg, part);
            return Err(invalid_input(msg));
        }
        let start = match parse_unsigned_exec(&bounds[0], 65535) {
            Some(v) => v,
            None => {
                return Err(invalid_port_number(&bounds[0]));
            },
        };
        let end = match parse_unsigned_exec(&bounds[1], 65535) {
            Some(v) => v,
            None => {
                return Err(invalid_port_number(&bounds[1]));
            },
        };
        if start == 0 || end == 0 || start > end {
            let mut msg = String::new();
            push_str(&mut msg, "Invalid port range: ");
            push_decimal(&mut msg, start);
            push_str(&mut msg, "-");
            push_decimal(&mut msg, end);
            return Err(invalid_input(msg));
        }
        let ghost base = port_values(ports@);
        let ghost span = port_span(start as nat, end as nat);
        let mut p: u64 = start;
        while p <= end
            invariant
                1 <= start <= p <= end + 1,
                end <= 65535,
                base.len() + 65536 <= usize::MAX,
                ports@.len() == base.len() + (p - start),
                port_values(ports@) == base + span.take(p - start),
                span == port_span(start as nat, end as nat),
            decreases end + 1 - p,
        {
            match Port::new(p as u16) {
                Some(port) => {
                    let ghost before = ports@;
                    ports.push(port);
                    assert(port_values(ports@) =~= port_values(before).push(p as u16));
                    assert(span.take(p + 1 - start) =~= span.take(p - start).push(p as u16));
                },
                None => {},
            }
            p = p + 1;
        }
        assert(span.take(end + 1 - start) =~= span);
        Ok(())
    } else {
        match parse_unsigned_exec(part, 65535) {
            Some(v) => {
                match Port::new(v as u16) {
                    Some(port) => {
                        let ghost before = ports@;
                        ports.push(port);
                        assert(port_values(ports@) =~= port_values(before) + seq![v as u16]);
                        Ok(())
                    },
                    None => {
                        let mut msg = String::new();
                        push_str(&mut msg, "Invalid port: ");
                        push_decimal(&mut msg, v);
                        Err(invalid_input(msg))
                    },
                }
            },
            None => Err(invalid_port_number(part)),
        }
    }
}

/// Parses a port specification: comma-separated single ports and `a-b`
/// ranges, such as `1-1000`, `80` or `22,80,443`. Ports must be between 1 and
/// 65535, and a range must not run backwards.
pub fn parse_port_range(range: &str) -> (r: Result<Vec<Port>>)
    requires
        (range@.len() + 1) * 65536 <= usize::MAX,
    ensures
        r is Ok <==> port_spec_values(range@) is Some,
        r matches Ok(v) ==> port_values(v@) == port_spec_values(range@).unwrap(),
        r matches Err(e) ==> (e matches Error::InvalidInput(m) && m@ == port_list_error(split_on(range@, ','))),
{
    let chars = chars_of(range);
    let parts = split_exec(&chars, ',');
    let ghost pv = split_on(range@, ',');
    let mut ports: Vec<Port> = Vec::new();
    let mut i: usize = 0;
    assert(pv.skip(0) =~= pv);
    proof {
        lemma_split_len(range@, ',');
    }
    while i < parts.len()
        invariant
            i <= parts@.len(),
            parts@.len() == pv.len(),
            pv == split_on(range@, ','),
            pv.len() <= range@.len() + 1,
            (range@.len() + 1) * 65536 <= usize::MAX,
            forall|k: int| 0 <= k < parts@.len() ==> #[trigger] parts@[k]@ == pv[k],
            ports@.len() <= i * 65536,
            port_list(pv) == match port_list(pv.skip(i as int)) {
                Some(rest) => Some(port_values(ports@) + rest),
                None => None,
            },
            port_list_error(pv) == port_list_error(pv.skip(i as int)),
        decreases parts.len() - i,
    {
        proof {
            lemma_port_list_skip(pv, i as int);
            lemma_port_list_error_skip(pv, i as int);
            assert(ports@.len() + 65536 <= usize::MAX) by (nonlinear_arith)
                requires ports@.len() <= i * 65536, i < pv.len(), pv.len() <= range@.len() + 1, (range@.len() + 1) * 65536 <= usize::MAX;
            assert(parts@[i as int]@ == pv[i as int]);
        }
        let ghost before = port_values(ports@);
        assert(before.len() == ports@.len());
        match push_part_ports(&parts[i], &mut ports) {
            Ok(()) => {
                proof {
                    match port_list(pv.skip(i + 1)) {
                        Some(rest) => {
                            assert(before + port_part_values(pv[i as int]).unwrap() + rest =~= before + (port_part_values(pv[i as int]).unwrap() + rest));
                        },
                        None => {},
                    }
                    assert(port_part_values(pv[i as int]).unwrap().len() <= 65536) by {
                        lemma_part_len(pv[i as int]);
                    }
                    assert(port_values(ports@).len() == ports@.len());
                    assert(before.len() == port_values(ports@).len() - port_part_values(pv[i as int]).unwrap().len());
                }
            },
            Err(e) => {
                assert(port_part_values(pv[i as int]) is None);
                assert(port_list(pv.skip(i as int)) is None);
                assert(port_list(pv) is None);
                assert(port_spec_values(range@) is None);
                return Err(e);
            },
        }
        i = i + 1;
    }
    assert(pv.skip(i as int) =~= Seq::<Seq<char>>::empty());
    assert(port_values(ports@) + Seq::<u16>::empty() =~= port_values(ports@));
    Ok(ports)
}

proof fn lemma_part_len(part: Seq<char>)
    requires
        port_part_values(part) is Some,
    ensures
        port_part_values(part).unwrap().len() <= 65536,
{
}

proof fn lemma_split_len(s: Seq<char>, sep: char)
    ensures
        split_on(s, sep).len() <= s.len() + 1,
    decreases s.len(),
{
    if s.len() > 0 {
        lemma_split_len(s.drop_first(), sep);
        crate::text::lemma_split_nonempty(s.drop_first(), sep);
    }
}


// ---------------------------------------------------------------------------
// Common port sets
// ---------------------------------------------------------------------------

// ---------------------------------------------------------------------------
// CIDR blocks
// ---------------------------------------------------------------------------

/// The network mask of a prefix length.
pub open spec fn prefix_mask(prefix_len: u8) -> u32 {
    if prefix_len == 0 { 0u32 } else { (!0u32) << ((32 - prefix_len) as u32) }
}

/// The first address of the block.
pub open spec fn network_of(ip: u32, prefix_len: u8) -> u32 {
    ip & prefix_mask(prefix_len)
}

/// The last address of the block.
pub open spec fn broadcast_of(ip: u32, prefix_len: u8) -> u32 {
    network_of(ip, prefix_len) | !prefix_mask(prefix_len)
}

/// Every address of the IPv4 block that holds `ip`, in increasing order.
pub open spec fn ipv4_block(ip: u32, prefix_len: u8) -> Seq<IpAddr> {
    let n = network_of(ip, prefix_len);
    let b = broadcast_of(ip, prefix_len);
    Seq::new((b - n + 1) as nat, |k: int| IpAddr::V4(ipv4_of_u32((n + k) as u32)))
}

proof fn lemma_network_le_broadcast(ip: u32, m: u32)
    by (bit_vector)
    ensures
        (ip & m) <= ((ip & m) | !m),
{
}

proof fn lemma_block_span(ip: u32, p: u8)
    by (bit_vector)
    requires
        1 <= p <= 32,
    ensures
        ((((ip & ((!0u32) << ((32 - p) as u32))) | !((!0u32) << ((32 - p) as u32))) - (ip & ((!0u32) << ((32 - p) as u32)))) as u64) + 1
            == (1u64 << ((32 - p) as u64)),
        (ip & ((!0u32) << ((32 - p) as u32))) <= ip,
        ip <= ((ip & ((!0u32) << ((32 - p) as u32))) | !((!0u32) << ((32 - p) as u32))),
{
}

proof fn lemma_whole_span(ip: u32)
    by (bit_vector)
    ensures
        (ip & 0u32) == 0u32,
        ((ip & 0u32) | !0u32) == 0xffff_ffffu32,
{
}

/// A block with prefix length `p` holds 2^(32-p) addresses, and among them
/// the address that it was written with.
pub proof fn lemma_ipv4_block_size(ip: u32, prefix_len: u8)
    requires
        prefix_len <= 32,
    ensures
        ipv4_block(ip, prefix_len).len() == pow2((32 - prefix_len) as nat),
        network_of(ip, prefix_len) <= ip <= broadcast_of(ip, prefix_len),
        ipv4_block(ip, prefix_len).contains(IpAddr::V4(ipv4_of_u32(ip))),
{
    let n = network_of(ip, prefix_len);
    let b = broadcast_of(ip, prefix_len);
    let k = (32 - prefix_len) as u64;
    lemma2_to64();
    if prefix_len == 0 {
        lemma_whole_span(ip);
        assert(n == 0 && b == 0xffff_ffffu32);
    } else {
        lemma_block_span(ip, prefix_len);
        lemma_pow2_strictly_increases(k as nat, 32);
        lemma_u64_shl_is_mul(1u64, k);
        assert(b - n + 1 == pow2(k as nat));
    }
    let blk = ipv4_block(ip, prefix_len);
    assert(blk[ip - n] == IpAddr::V4(ipv4_of_u32(ip)));
}

/// Every address of the IPv4 block of `ip` with this prefix length. The
/// prefix length must be at most 32.
pub fn expand_ipv4_cidr(ip: Ipv4Addr, prefix_len: u8) -> (r: Result<Vec<IpAddr>>)
    ensures
        r is Err <==> prefix_len > 32,
        r matches Err(e) ==> (e matches Error::InvalidInput(m) && m@ == "Invalid IPv4 prefix length: "@ + decimal_chars(prefix_len as nat)),
        r matches Ok(v) ==> v@ == ipv4_block(ipv4_to_u32(ip) as u32, prefix_len),
{
    if prefix_len > 32 {
        let mut msg = String::new();
        push_str(&mut msg, "Invalid IPv4 prefix length: ");
        push_decimal(&mut msg, prefix_len as u64);
        return Err(invalid_input(msg));
    }
    let ip_u32 = ip.to_u32();
    let mask: u32 = if prefix_len == 0 { 0 } else { (!0u32) << ((32 - prefix_len) as u32) };
    let network = ip_u32 & mask;
    let broadcast = network | !mask;
    proof {
        lemma_network_le_broadcast(ip_u32, mask);
    }
    let ghost block = ipv4_block(ip_u32, prefix_len);
    let mut ips: Vec<IpAddr> = Vec::new();
    let mut addr: u64 = network as u64;
    while addr <= broadcast as u64
        invariant
            network <= addr <= broadcast as u64 + 1,
            network <= broadcast,
            network == network_of(ip_u32, prefix_len),
            broadcast == broadcast_of(ip_u32, prefix_len),
            block == ipv4_block(ip_u32, prefix_len),
            ips@ == block.take(addr - network),
        decreases broadcast as u64 + 1 - addr,
    {
        ips.push(IpAddr::V4(Ipv4Addr::from_u32(addr as u32)));
        assert(block.take(addr + 1 - network) =~= block.take(addr - network).push(IpAddr::V4(ipv4_of_u32(addr as u32))));
        addr = addr + 1;
    }
    assert(block.take(broadcast + 1 - network) =~= block);
    Ok(ips)
}


/// The addresses that a CIDR block written `address/prefix` holds: every
/// address of an IPv4 block, or the address alone for IPv6. `None` where
/// the text is refused.
pub open spec fn cidr_addresses(s: Seq<char>) -> Option<Seq<IpAddr>> {
    let parts = split_on(s, '/');
    if parts.len() != 2 {
        None
    } else {
        match (ip_text(parts[0]), parse_unsigned(parts[1], 255)) {
            (Some(IpAddr::V4(a)), Some(p)) => if p > 32 {
                None
            } else {
                Some(ipv4_block(ipv4_to_u32(a) as u32, p as u8))
            },
            (Some(IpAddr::V6(a)), Some(p)) => if p > 128 {
                None
            } else {
                Some(seq![IpAddr::V6(a)])
            },
            _ => None,
        }
    }
}

/// The message of the error for a refused CIDR block: no single slash, an
/// address that does not read, a prefix length that does not read as a
/// number (with the reason), or one too long for the address family.
pub open spec fn cidr_error(s: Seq<char>) -> Seq<char> {
    let parts = split_on(s, '/');
    if parts.len() != 2 {
        "Invalid CIDR notation: "@ + s
    } else {
        match (ip_text(parts[0]), parse_unsigned(parts[1], 255)) {
            (None, _) => "Invalid IP address: invalid IP address syntax"@,
            (Some(_), None) => "Invalid prefix length: "@ + int_error_text(parse_failure(parts[1], 255)),
            (Some(IpAddr::V4(_)), Some(p)) => "Invalid IPv4 prefix length: "@ + decimal_chars(p),
            (Some(IpAddr::V6(_)), Some(p)) => "Invalid IPv6 prefix length: "@ + decimal_chars(p),
        }
    }
}

/// The block of an IPv6 address: the address alone, since the range is not
/// expanded. The prefix length must be at most 128.
pub fn expand_ipv6_cidr(ip: Ipv6Addr, prefix_len: u8) -> (r: Result<Vec<IpAddr>>)
    ensures
        r is Err <==> prefix_len > 128,
        r matches Err(e) ==> (e matches Error::InvalidInput(m) && m@ == "Invalid IPv6 prefix length: "@ + decimal_chars(prefix_len as nat)),
        r matches Ok(v) ==> v@ == seq![IpAddr::V6(ip)],
{
    if prefix_len > 128 {
        let mut msg = String::new();
        push_str(&mut msg, "Invalid IPv6 prefix length: ");
        push_decimal(&mut msg, prefix_len as u64);
        return Err(invalid_input(msg));
    }
    Ok(vec![IpAddr::V6(ip)])
}

/// The addresses of a CIDR block such as `192.168.1.0/24`.
pub fn parse_cidr(cidr: &str) -> (r: Result<Vec<IpAddr>>)
    ensures
        r is Ok <==> cidr_addresses(cidr@) is Some,
        r matches Ok(v) ==> cidr_addresses(cidr@) == Some(v@),
        r matches Err(e) ==> (e matches Error::InvalidInput(m) && m@ == cidr_error(cidr@)),
{
    let text = chars_of(cidr);
    let parts = split_exec(&text, '/');
    if parts.len() != 2 {
        let mut msg = String::new();
        push_str(&mut msg, "Invalid CIDR notation: ");
        push_str(&mut msg, cidr);
        return Err(invalid_input(msg));
    }
    assert(parts@[0]@ == split_on(cidr@, '/')[0] && parts@[1]@ == split_on(cidr@, '/')[1]);
    let ip = match parse_ip_text(&parts[0]) {
        Some(ip) => ip,
        None => {
            return Err(invalid_input(string_from("Invalid IP address: invalid IP address syntax")));
        },
    };
    let prefix_len: u8 = match parse_unsigned_exec(&parts[1], 255) {
        Some(p) => p as u8,
        None => {
            let mut msg = String::new();
            push_str(&mut msg, "Invalid prefix length: ");
            push_str(&mut msg, int_error_message(parse_failure_exec(&parts[1], 255)));
            return Err(invalid_input(msg));
        },
    };
    match ip {
        IpAddr::V4(a) => expand_ipv4_cidr(a, prefix_len),
        IpAddr::V6(a) => expand_ipv6_cidr(a, prefix_len),
    }
}

} // verus!
