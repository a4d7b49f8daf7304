//! Parsers that read packets received from the wire.

use vstd::prelude::*;
use crate::addr::Ipv4Addr;
use crate::error::{Error, Result};
use crate::text::{string_from, push_str, push_decimal, decimal_chars};
use super::builders::{tcp_offset_byte, tcp_checksum, TcpPacketBuilder, UdpPacketBuilder, IcmpPacketBuilder, Ipv4PacketBuilder,
    tcp_bytes, udp_bytes, icmp_bytes, ipv4_bytes, arp_bytes, flags_frag_word};
use super::types::{be16, be32, flags_byte, icmp_type_canonical, lemma_flags_roundtrip, TcpPacket, TcpFlags, UdpPacket, IcmpPacket, Ipv4Packet, ArpPacket, ArpOperation,
    flags_of_byte, icmp_type_of, arp_op_of, u16_of, u32_of, copy_range, read_be16, read_be32};

verus! {

/// A packet type that can be read from bytes and checked, for packet types
/// that users of the library add.
pub trait PacketParser: Sized {
    /// Reads a packet from bytes.
    fn parse(data: &[u8]) -> Result<Self>;

    /// Checks the packet.
    fn validate(&self) -> Result<()>;
}

/// The header length that the data offset field of a TCP segment announces.
pub open spec fn tcp_data_offset(s: Seq<u8>) -> nat {
    (s[12] / 16) as nat * 4
}

/// Reading the segment does not slice past its end: the announced header
/// length is within the data (or the data is too short to be read at all).
pub open spec fn tcp_readable(s: Seq<u8>) -> bool {
    s.len() < 20 || tcp_data_offset(s) <= s.len()
}

pub open spec fn tcp_options_of(s: Seq<u8>) -> Seq<u8> {
    if tcp_data_offset(s) > 20 { s.subrange(20, tcp_data_offset(s) as int) } else { Seq::empty() }
}

pub open spec fn tcp_payload_of(s: Seq<u8>) -> Seq<u8> {
    if s.len() > tcp_data_offset(s) { s.subrange(tcp_data_offset(s) as int, s.len() as int) } else { Seq::empty() }
}

/// `p` is what parsing the segment `s` gives.
pub open spec fn tcp_parsed(p: TcpPacket, s: Seq<u8>) -> bool {
    &&& p.src_port == u16_of(s[0], s[1])
    &&& p.dst_port == u16_of(s[2], s[3])
    &&& p.seq == u32_of(s[4], s[5], s[6], s[7])
    &&& p.ack == u32_of(s[8], s[9], s[10], s[11])
    &&& p.flags == flags_of_byte(s[13])
    &&& p.window == u16_of(s[14], s[15])
    &&& p.urgent_ptr == u16_of(s[18], s[19])
    &&& p.options@ == tcp_options_of(s)
    &&& p.payload@ == tcp_payload_of(s)
}

/// The error carries exactly this message.
pub open spec fn parse_error_says(e: Error, msg: Seq<char>) -> bool {
    e matches Error::PacketParse(m) && m@ == msg
}

/// Parse a TCP segment.
pub fn parse_tcp(data: &[u8]) -> (r: Result<TcpPacket>)
    requires
        tcp_readable(data@),
    ensures
        r is Err <==> data@.len() < 20,
        r matches Err(e) ==> parse_error_says(e, "TCP packet too short"@),
        r matches Ok(p) ==> tcp_parsed(p, data@),
{
    if data.len() < 20 {
        return Err(Error::PacketParse(string_from("TCP packet too short")));
    }
    let src_port = read_be16(data, 0);
    let dst_port = read_be16(data, 2);
    let seq = read_be32(data, 4);
    let ack = read_be32(data, 8);
    let data_offset = (data[12] / 16) as usize * 4;
    let flags = TcpFlags::from_u8(data[13]);
    let window = read_be16(data, 14);
    let urgent_ptr = read_be16(data, 18);
    let options = if data_offset > 20 {
        copy_range(data, 20, data_offset)
    } else {
        Vec::new()
    };
    let payload = if data.len() > data_offset {
        copy_range(data, data_offset, data.len())
    } else {
        Vec::new()
    };
    Ok(TcpPacket { src_port, dst_port, seq, ack, flags, window, urgent_ptr, options, payload })
}

/// `p` is what parsing the datagram `s` gives.
pub open spec fn udp_parsed(p: UdpPacket, s: Seq<u8>) -> bool {
    &&& p.src_port == u16_of(s[0], s[1])
    &&& p.dst_port == u16_of(s[2], s[3])
    &&& p.payload@ == s.subrange(8, s.len() as int)
}

/// Parse a UDP datagram.
pub fn parse_udp(data: &[u8]) -> (r: Result<UdpPacket>)
    ensures
        r is Err <==> data@.len() < 8,
        r matches Err(e) ==> parse_error_says(e, "UDP packet too short"@),
        r matches Ok(p) ==> udp_parsed(p, data@),
{
    if data.len() < 8 {
        return Err(Error::PacketParse(string_from("UDP packet too short")));
    }
    let src_port = read_be16(data, 0);
    let dst_port = read_be16(data, 2);
    let payload = if data.len() > 8 {
        copy_range(data, 8, data.len())
    } else {
        Vec::new()
    };
    assert(data@.len() == 8 ==> data@.subrange(8, 8) =~= Seq::<u8>::empty());
    Ok(UdpPacket { src_port, dst_port, payload })
}

/// `p` is what parsing the message `s` gives.
pub open spec fn icmp_parsed(p: IcmpPacket, s: Seq<u8>) -> bool {
    &&& p.icmp_type == icmp_type_of(s[0])
    &&& p.code == s[1]
    &&& p.payload@ == s.skip(4)
}

/// Parse an ICMP message.
pub fn parse_icmp(data: &[u8]) -> (r: Result<IcmpPacket>)
    ensures
        r is Err <==> data@.len() < 4,
        r matches Err(e) ==> parse_error_says(e, "ICMP packet too short"@),
        r matches Ok(p) ==> icmp_parsed(p, data@),
{
    if data.len() < 4 {
        return Err(Error::PacketParse(string_from("ICMP packet too short")));
    }
    let icmp_type = super::types::IcmpType::from_u8(data[0]);
    let code = data[1];
    let payload = if data.len() > 4 {
        copy_range(data, 4, data.len())
    } else {
        Vec::new()
    };
    assert(data@.len() == 4 ==> data@.subrange(4, 4) =~= Seq::<u8>::empty());
    Ok(IcmpPacket { icmp_type, code, payload })
}

/// The header length that the IHL field of an IPv4 datagram announces.
pub open spec fn ipv4_header_len(s: Seq<u8>) -> nat {
    (s[0] % 16) as nat * 4
}

pub open spec fn ipv4_payload_of(s: Seq<u8>) -> Seq<u8> {
    if s.len() > ipv4_header_len(s) { s.subrange(ipv4_header_len(s) as int, s.len() as int) } else { Seq::empty() }
}

/// `p` is what parsing the datagram `s` gives.
pub open spec fn ipv4_parsed(p: Ipv4Packet, s: Seq<u8>) -> bool {
    let flags_frag = u16_of(s[6], s[7]);
    &&& p.id == u16_of(s[4], s[5])
    &&& p.flags == flags_frag / 8192
    &&& p.fragment_offset == flags_frag % 8192
    &&& p.ttl == s[8]
    &&& p.protocol == s[9]
    &&& p.src_ip == (Ipv4Addr { a: s[12], b: s[13], c: s[14], d: s[15] })
    &&& p.dst_ip == (Ipv4Addr { a: s[16], b: s[17], c: s[18], d: s[19] })
    &&& p.payload@ == ipv4_payload_of(s)
}

/// Parse an IPv4 datagram.
pub fn parse_ipv4(data: &[u8]) -> (r: Result<Ipv4Packet>)
    ensures
        r is Err <==> (data@.len() < 20 || data@[0] / 16 != 4),
        r matches Err(e) ==> (if data@.len() < 20 {
            parse_error_says(e, "IPv4 packet too short"@)
        } else {
            parse_error_says(e, "Not an IPv4 packet: version "@ + decimal_chars((data@[0] / 16) as nat))
        }),
        r matches Ok(p) ==> ipv4_parsed(p, data@),
{
    if data.len() < 20 {
        return Err(Error::PacketParse(string_from("IPv4 packet too short")));
    }
    let version = data[0] / 16;
    if version != 4 {
        let mut msg = String::new();
        push_str(&mut msg, "Not an IPv4 packet: version ");
        push_decimal(&mut msg, version as u64);
        return Err(Error::PacketParse(msg));
    }
    let ihl = (data[0] % 16) as usize * 4;
    let id = read_be16(data, 4);
    let flags_frag = read_be16(data, 6);
    let flags = (flags_frag / 8192) as u8;
    let fragment_offset = flags_frag % 8192;
    let ttl = data[8];
    let protocol = data[9];
    let src_ip = Ipv4Addr::new(data[12], data[13], data[14], data[15]);
    let dst_ip = Ipv4Addr::new(data[16], data[17], data[18], data[19]);
    let payload = if data.len() > ihl {
        copy_range(data, ihl, data.len())
    } else {
        Vec::new()
    };
    Ok(Ipv4Packet { src_ip, dst_ip, protocol, ttl, id, flags, fragment_offset, payload })
}

/// `p` is what parsing the ARP packet `s` gives.
pub open spec fn arp_parsed(p: ArpPacket, s: Seq<u8>) -> bool {
    &&& arp_op_of(u16_of(s[6], s[7])) == Some(p.operation)
    &&& p.sender_hw_addr@ == s.subrange(8, 14)
    &&& p.sender_proto_addr == (Ipv4Addr { a: s[14], b: s[15], c: s[16], d: s[17] })
    &&& p.target_hw_addr@ == s.subrange(18, 24)
    &&& p.target_proto_addr == (Ipv4Addr { a: s[24], b: s[25], c: s[26], d: s[27] })
}

/// Parse an ARP packet.
pub fn parse_arp(data: &[u8]) -> (r: Result<ArpPacket>)
    ensures
        r is Err <==> (data@.len() < 28 || arp_op_of(u16_of(data@[6], data@[7])) is None),
        r matches Err(e) ==> (if data@.len() < 28 {
            parse_error_says(e, "ARP packet too short"@)
        } else {
            parse_error_says(e, "Invalid ARP operation"@)
        }),
        r matches Ok(p) ==> arp_parsed(p, data@),
{
    if data.len() < 28 {
        return Err(Error::PacketParse(string_from("ARP packet too short")));
    }
    let operation = match ArpOperation::from_u16(read_be16(data, 6)) {
        Some(op) => op,
        None => {
            return Err(Error::PacketParse(string_from("Invalid ARP operation")));
        },
    };
    let sender_hw: [u8; 6] = [data[8], data[9], data[10], data[11], data[12], data[13]];
    let sender_proto = Ipv4Addr::new(data[14], data[15], data[16], data[17]);
    let target_hw: [u8; 6] = [data[18], data[19], data[20], data[21], data[22], data[23]];
    let target_proto = Ipv4Addr::new(data[24], data[25], data[26], data[27]);
    assert(sender_hw@ =~= data@.subrange(8, 14));
    assert(target_hw@ =~= data@.subrange(18, 24));
    Ok(ArpPacket {
        operation,
        sender_hw_addr: sender_hw,
        sender_proto_addr: sender_proto,
        target_hw_addr: target_hw,
        target_proto_addr: target_proto,
    })
}


// ---------------------------------------------------------------------------
// What parsing gives back of what building produced
// ---------------------------------------------------------------------------

/// Two TCP segment descriptions agree in every field.
pub open spec fn tcp_same(p: TcpPacket, q: TcpPacket) -> bool {
    &&& p.src_port == q.src_port && p.dst_port == q.dst_port
    &&& p.seq == q.seq && p.ack == q.ack && p.flags == q.flags
    &&& p.window == q.window && p.urgent_ptr == q.urgent_ptr
    &&& p.options@ == q.options@ && p.payload@ == q.payload@
}

/// Parsing the bytes of a built TCP segment gives back the segment that was
/// built, whenever its options fill whole 32-bit words and fit the 60-byte
/// header.
#[verifier::rlimit(50)]
pub proof fn lemma_tcp_roundtrip(b: TcpPacketBuilder)
    requires
        b.packet.options@.len() % 4 == 0,
        b.packet.options@.len() <= 40,
    ensures
        tcp_bytes(b).len() >= 20,
        tcp_readable(tcp_bytes(b)),
        forall|p: TcpPacket| tcp_parsed(p, tcp_bytes(b)) <==> tcp_same(p, b.packet),
{
    let s = tcp_bytes(b);
    let q = b.packet;
    let n = q.options@.len();
    let hdr = be16(q.src_port) + be16(q.dst_port) + be32(q.seq) + be32(q.ack) + seq![tcp_offset_byte(n), flags_byte(q.flags)]
        + be16(q.window) + be16(tcp_checksum(b)) + be16(q.urgent_ptr);
    assert(s == hdr + q.options@ + q.payload@);
    assert(hdr.len() == 20);
    assert(s[0] == hdr[0] && s[1] == hdr[1] && s[2] == hdr[2] && s[3] == hdr[3]);
    assert(s[4] == hdr[4] && s[5] == hdr[5] && s[6] == hdr[6] && s[7] == hdr[7]);
    assert(s[8] == hdr[8] && s[9] == hdr[9] && s[10] == hdr[10] && s[11] == hdr[11]);
    assert(s[12] == hdr[12] && s[13] == hdr[13] && s[14] == hdr[14] && s[15] == hdr[15]);
    assert(s[18] == hdr[18] && s[19] == hdr[19]);
    assert(u16_of(s[0], s[1]) == q.src_port);
    assert(u16_of(s[2], s[3]) == q.dst_port);
    assert(u32_of(s[4], s[5], s[6], s[7]) == q.seq);
    assert(u32_of(s[8], s[9], s[10], s[11]) == q.ack);
    assert(u16_of(s[14], s[15]) == q.window);
    assert(u16_of(s[18], s[19]) == q.urgent_ptr);
    assert(tcp_data_offset(s) == 20 + n) by {
        assert(s[12] == tcp_offset_byte(n));
        assert((20 + n) / 4 < 16);
    }
    lemma_flags_roundtrip(q.flags);
    assert(flags_of_byte(s[13]) == q.flags);
    assert(tcp_options_of(s) =~= q.options@);
    assert(tcp_payload_of(s) =~= q.payload@);
}

/// Parsing the bytes of a built UDP datagram gives back its ports and payload.
pub proof fn lemma_udp_roundtrip(b: UdpPacketBuilder)
    ensures
        udp_bytes(b).len() >= 8,
        forall|p: UdpPacket| udp_parsed(p, udp_bytes(b)) <==> (p.src_port == b.packet.src_port
            && p.dst_port == b.packet.dst_port && p.payload@ == b.packet.payload@),
{
    let s = udp_bytes(b);
    assert(s.subrange(8, s.len() as int) =~= b.packet.payload@);
}

/// Parsing the bytes of a built ICMP message gives back its type, code and
/// payload, whenever the type is written canonically.
pub proof fn lemma_icmp_roundtrip(b: IcmpPacketBuilder)
    requires
        icmp_type_canonical(b.packet.icmp_type),
    ensures
        icmp_bytes(b).len() >= 4,
        forall|p: IcmpPacket| icmp_parsed(p, icmp_bytes(b)) <==> (p.icmp_type == b.packet.icmp_type
            && p.code == b.packet.code && p.payload@ == b.packet.payload@),
{
    let s = icmp_bytes(b);
    assert(s.skip(4) =~= b.packet.payload@);
}

proof fn lemma_flags_frag(flags: u8, frag: u16, w: u16)
    by (bit_vector)
    requires
        flags < 8,
        frag < 8192,
        w == ((flags as u16) << 13u16) | frag,
    ensures
        w / 8192 == flags as u16,
        w % 8192 == frag,
{
}

/// Parsing the bytes of a built IPv4 datagram succeeds and gives back its
/// fields, whenever the flags fit in three bits and the fragment offset in
/// thirteen.
pub proof fn lemma_ipv4_roundtrip(b: Ipv4PacketBuilder)
    requires
        b.packet.flags < 8,
        b.packet.fragment_offset < 8192,
    ensures
        ipv4_bytes(b).len() >= 20,
        ipv4_bytes(b)[0] / 16 == 4,
        forall|p: Ipv4Packet| ipv4_parsed(p, ipv4_bytes(b)) <==> (p.src_ip == b.packet.src_ip
            && p.dst_ip == b.packet.dst_ip && p.protocol == b.packet.protocol && p.ttl == b.packet.ttl
            && p.id == b.packet.id && p.flags == b.packet.flags && p.fragment_offset == b.packet.fragment_offset
            && p.payload@ == b.packet.payload@),
{
    let s = ipv4_bytes(b);
    let q = b.packet;
    let w = flags_frag_word(q.flags, q.fragment_offset);
    lemma_flags_frag(q.flags, q.fragment_offset, w);
    assert(u16_of(s[6], s[7]) == w);
    assert(ipv4_header_len(s) == 20);
    assert(ipv4_payload_of(s) =~= q.payload@);
}

/// Parsing the bytes of a built ARP packet succeeds and gives back the packet.
pub proof fn lemma_arp_roundtrip(q: ArpPacket)
    ensures
        arp_bytes(q).len() == 28,
        arp_op_of(u16_of(arp_bytes(q)[6], arp_bytes(q)[7])) is Some,
        forall|p: ArpPacket| arp_parsed(p, arp_bytes(q)) <==> (p.operation == q.operation
            && p.sender_hw_addr@ == q.sender_hw_addr@ && p.sender_proto_addr == q.sender_proto_addr
            && p.target_hw_addr@ == q.target_hw_addr@ && p.target_proto_addr == q.target_proto_addr),
{
    let s = arp_bytes(q);
    assert(s.subrange(8, 14) =~= q.sender_hw_addr@);
    assert(s.subrange(18, 24) =~= q.target_hw_addr@);
}

} // verus!
