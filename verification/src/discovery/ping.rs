//! Discovery by ICMP echo and timestamp requests.

use vstd::prelude::*;
use crate::addr::{IpAddr, Ipv4Addr};
use crate::discovery::{DiscoveryMethod, DiscoveryResult, silent_result};
use crate::error::Error;
use crate::packet::builders::{IcmpPacketBuilder, Ipv4PacketBuilder, PacketBuilder, icmp_bytes, icmp_message, ipv4_bytes,
    lemma_word_sum_bound};
use crate::packet::parsers::parse_icmp;
use crate::packet::types::{IcmpType, be16, u16_of, push_be16};
use crate::text::string_from;
use crate::types::{Target, bare_target};

verus! {

/// The unspecified local address that requests are sent from.
pub open spec fn unspecified() -> Ipv4Addr {
    Ipv4Addr { a: 0, b: 0, c: 0, d: 0 }
}

/// The builders that make a request: an ICMP message of the given type and
/// payload, inside an IPv4 datagram to `target` with the builder's defaults.
pub open spec fn request_builders(b: IcmpPacketBuilder, ib: Ipv4PacketBuilder, kind: IcmpType, payload: Seq<u8>, target: Ipv4Addr) -> bool {
    &&& b.packet.icmp_type == kind && b.packet.code == 0 && b.packet.payload@ == payload
    &&& ib.packet.src_ip == unspecified() && ib.packet.dst_ip == target && ib.packet.protocol == 1
    &&& ib.packet.ttl == 64 && ib.packet.id == 0 && ib.packet.flags == 0 && ib.packet.fragment_offset == 0
    &&& ib.packet.payload@ == icmp_bytes(b)
}

/// The payload of a timestamp request: identifier, sequence number, and
/// three zero timestamps.
pub open spec fn timestamp_payload(id: u16, seq: u16) -> Seq<u8> {
    be16(id) + be16(seq) + zeros(12)
}

fn wrap_request(b: IcmpPacketBuilder, target: Ipv4Addr) -> (r: Vec<u8>)
    requires
        b.packet.payload@.len() <= 16,
        b.packet.code == 0,
    ensures
        exists|ib: Ipv4PacketBuilder| request_builders(b, ib, b.packet.icmp_type, b.packet.payload@, target) && r@ == ipv4_bytes(ib),
{
    proof {
        lemma_word_sum_bound(icmp_message(b.packet, 0));
    }
    let message = match b.build() {
        Ok(v) => v,
        Err(_) => Vec::new(),
    };
    let ib = Ipv4PacketBuilder::new(Ipv4Addr::new(0, 0, 0, 0), target, 1).payload(message);
    let packet = match ib.build() {
        Ok(v) => v,
        Err(_) => Vec::new(),
    };
    assert(request_builders(b, ib, b.packet.icmp_type, b.packet.payload@, target));
    packet
}

/// The datagram of an echo request carrying an identifier and a sequence
/// number.
pub fn echo_request_packet(target: Ipv4Addr, id: u16, seq: u16) -> (r: Vec<u8>)
    ensures
        exists|b: IcmpPacketBuilder, ib: Ipv4PacketBuilder|
            request_builders(b, ib, IcmpType::EchoRequest, be16(id) + be16(seq), target) && r@ == ipv4_bytes(ib),
{
    let b = IcmpPacketBuilder::echo_request(id, seq);
    let r = wrap_request(b, target);
    proof {
        let ib = choose|ib: Ipv4PacketBuilder| request_builders(b, ib, b.packet.icmp_type, b.packet.payload@, target) && r@ == ipv4_bytes(ib);
        assert(request_builders(b, ib, IcmpType::EchoRequest, be16(id) + be16(seq), target) && r@ == ipv4_bytes(ib));
    }
    r
}

/// `n` zero bytes.
pub open spec fn zeros(n: nat) -> Seq<u8> {
    Seq::new(n, |i: int| 0u8)
}

fn push_zeros(buf: &mut Vec<u8>, n: usize)
    ensures
        final(buf)@ == old(buf)@ + zeros(n as nat),
{
    let mut k: usize = 0;
    while k < n
        invariant
            k <= n,
            buf@ == old(buf)@ + zeros(k as nat),
        decreases n - k,
    {
        buf.push(0);
        assert(zeros((k + 1) as nat) =~= zeros(k as nat).push(0u8));
        k = k + 1;
    }
}

/// The datagram of a timestamp request carrying an identifier and a
/// sequence number.
pub fn timestamp_request_packet(target: Ipv4Addr, id: u16, seq: u16) -> (r: Vec<u8>)
    ensures
        exists|b: IcmpPacketBuilder, ib: Ipv4PacketBuilder|
            request_builders(b, ib, IcmpType::TimestampRequest, timestamp_payload(id, seq), target) && r@ == ipv4_bytes(ib),
{
    let mut payload: Vec<u8> = Vec::new();
    push_be16(&mut payload, id);
    push_be16(&mut payload, seq);
    push_zeros(&mut payload, 12);
    assert(payload@ =~= timestamp_payload(id, seq));
    let b = IcmpPacketBuilder::new(IcmpType::TimestampRequest, 0).payload(payload);
    let r = wrap_request(b, target);
    proof {
        let ib = choose|ib: Ipv4PacketBuilder| request_builders(b, ib, b.packet.icmp_type, b.packet.payload@, target) && r@ == ipv4_bytes(ib);
        assert(request_builders(b, ib, IcmpType::TimestampRequest, timestamp_payload(id, seq), target) && r@ == ipv4_bytes(ib));
    }
    r
}

/// The header length that the first byte of a datagram announces.
pub open spec fn header_len(data: Seq<u8>) -> int {
    (data[0] % 16) * 4
}

fn header_len_exec(data: &[u8]) -> (r: usize)
    requires
        data@.len() >= 1,
    ensures
        r == header_len(data@),
{
    (data[0] % 16) as usize * 4
}

/// A received datagram is long enough to hold an ICMP header after its IP
/// header.
pub open spec fn holds_message(data: Seq<u8>) -> bool {
    data.len() >= 20 && data.len() >= header_len(data) + 8
}

/// A received datagram is an echo reply with the sequence number `seq`.
pub open spec fn is_echo_reply(data: Seq<u8>, seq: u16) -> bool {
    holds_message(data) && data[header_len(data)] == 0 && u16_of(data[header_len(data) + 6], data[header_len(data) + 7]) == seq
}

/// A received datagram is a timestamp reply.
pub open spec fn is_timestamp_reply(data: Seq<u8>) -> bool {
    holds_message(data) && data[header_len(data)] == 14
}

fn message_of(data: &[u8]) -> (r: Option<Vec<u8>>)
    ensures
        r is Some <==> holds_message(data@),
        r matches Some(m) ==> m@ == data@.skip(header_len(data@)),
{
    if data.len() < 20 {
        return None;
    }
    let ihl = header_len_exec(data);
    if data.len() < ihl + 8 {
        return None;
    }
    let mut m: Vec<u8> = Vec::new();
    let mut i: usize = ihl;
    while i < data.len()
        invariant
            ihl <= i <= data@.len(),
            ihl == header_len(data@),
            m@ == data@.subrange(ihl as int, i as int),
        decreases data.len() - i,
    {
        m.push(data[i]);
        assert(data@.subrange(ihl as int, i + 1) =~= data@.subrange(ihl as int, i as int).push(data@[i as int]));
        i = i + 1;
    }
    assert(m@ =~= data@.skip(header_len(data@)));
    Some(m)
}

/// Tells whether a received datagram is an echo reply with the sequence
/// number `seq`.
pub fn read_echo_reply(data: &[u8], seq: u16) -> (r: bool)
    ensures
        r == is_echo_reply(data@, seq),
{
    let m = match message_of(data) {
        Some(m) => m,
        None => {
            return false;
        },
    };
    let msg = match parse_icmp(m.as_slice()) {
        Ok(p) => p,
        Err(_) => {
            return false;
        },
    };
    match msg.icmp_type {
        IcmpType::EchoReply => {
            if msg.payload.len() >= 4 {
                let got = crate::packet::types::read_be16(msg.payload.as_slice(), 2);
                got == seq
            } else {
                false
            }
        },
        _ => false,
    }
}

/// Tells whether a received datagram is a timestamp reply.
pub fn read_timestamp_reply(data: &[u8]) -> (r: bool)
    ensures
        r == is_timestamp_reply(data@),
{
    let m = match message_of(data) {
        Some(m) => m,
        None => {
            return false;
        },
    };
    let msg = match parse_icmp(m.as_slice()) {
        Ok(p) => p,
        Err(_) => {
            return false;
        },
    };
    match msg.icmp_type {
        IcmpType::TimestampReply => true,
        _ => false,
    }
}

/// A result that says the host answered after `rtt` microseconds.
pub open spec fn alive_result(r: DiscoveryResult, target: IpAddr, method: DiscoveryMethod, rtt: u64, info: Seq<char>) -> bool {
    &&& r.target == bare_target(target)
    &&& r.is_alive
    &&& r.rtt == Some(rtt)
    &&& r.method == method
    &&& r.info matches Some(i) && i@ == info
}

/// The result of an echo request: up, with the round-trip time, where a
/// reply came; down where none came.
pub fn echo_result(target: IpAddr, reply_after: Option<u64>) -> (r: DiscoveryResult)
    ensures
        match reply_after {
            Some(t) => alive_result(r, target, DiscoveryMethod::IcmpEcho, t, "ICMP Echo Reply received"@),
            None => silent_result(r, target, DiscoveryMethod::IcmpEcho, "No ICMP Echo Reply"@),
        },
{
    match reply_after {
        Some(t) => DiscoveryResult {
            target: Target::new(target),
            is_alive: true,
            rtt: Some(t),
            method: DiscoveryMethod::IcmpEcho,
            info: Some(string_from("ICMP Echo Reply received")),
        },
        None => DiscoveryResult {
            target: Target::new(target),
            is_alive: false,
            rtt: None,
            method: DiscoveryMethod::IcmpEcho,
            info: Some(string_from("No ICMP Echo Reply")),
        },
    }
}

/// The result of a timestamp request: up, with the round-trip time, where
/// a reply came; down where none came.
pub fn timestamp_result(target: IpAddr, reply_after: Option<u64>) -> (r: DiscoveryResult)
    ensures
        match reply_after {
            Some(t) => alive_result(r, target, DiscoveryMethod::IcmpTimestamp, t, "ICMP Timestamp Reply received"@),
            None => silent_result(r, target, DiscoveryMethod::IcmpTimestamp, "No ICMP Timestamp Reply"@),
        },
{
    match reply_after {
        Some(t) => DiscoveryResult {
            target: Target::new(target),
            is_alive: true,
            rtt: Some(t),
            method: DiscoveryMethod::IcmpTimestamp,
            info: Some(string_from("ICMP Timestamp Reply received")),
        },
        None => DiscoveryResult {
            target: Target::new(target),
            is_alive: false,
            rtt: None,
            method: DiscoveryMethod::IcmpTimestamp,
            info: Some(string_from("No ICMP Timestamp Reply")),
        },
    }
}

/// The address to send requests to: an IPv4 target, or an error for IPv6,
/// whose message names the method where `echo` is set.
pub fn request_target(target: IpAddr, echo: bool) -> (r: Result<Ipv4Addr, Error>)
    ensures
        match target {
            IpAddr::V4(a) => r == Ok::<Ipv4Addr, Error>(a),
            IpAddr::V6(_) => r matches Err(Error::InvalidInput(m)) && m@ == (if echo {
                "IPv6 not yet supported for ICMP discovery"@
            } else {
                "IPv6 not yet supported"@
            }),
        },
{
    match target {
        IpAddr::V4(a) => Ok(a),
        IpAddr::V6(_) => Err(Error::InvalidInput(if echo {
            string_from("IPv6 not yet supported for ICMP discovery")
        } else {
            string_from("IPv6 not yet supported")
        })),
    }
}

} // verus!
