//! Builders that turn packet descriptions into bytes on the wire.

use vstd::prelude::*;
use crate::addr::{Ipv4Addr, octets_of};
use crate::error::Result;
use super::types::{TcpPacket, TcpFlags, UdpPacket, IcmpPacket, IcmpType, Ipv4Packet, ArpPacket, ArpOperation,
    no_flags, flags_byte, be16, be32, udp_length, icmp_type_code, ipv4_total_length, arp_op_code,
    push_be16, push_be32, push_bytes};
use super::checksum::{word_sum, internet_checksum, pseudo_header_bytes, with_word, lemma_checksum_verifies,
    calculate_checksum, calculate_transport_checksum, set_be16};

verus! {

/// What every packet builder offers.
pub trait PacketBuilder {
    /// The description is small enough that its size fits in a `usize`.
    spec fn size_fits(&self) -> bool;

    /// The description can be turned into bytes: its size fits, and the sums
    /// over which checksums are taken fit in 32 bits.
    spec fn buildable(&self) -> bool;

    /// Build the packet into bytes.
    fn build(&self) -> (r: Result<Vec<u8>>)
        requires
            self.buildable(),
    ;

    /// The size in bytes of what `build` returns.
    fn size(&self) -> usize
        requires
            self.size_fits(),
    ;
}

pub proof fn lemma_word_sum_bound(s: Seq<u8>)
    ensures
        word_sum(s) <= 0xffff * s.len(),
    decreases s.len(),
{
    if s.len() >= 2 {
        lemma_word_sum_bound(s.subrange(2, s.len() as int));
    }
}

/// The sum of words is at most one full word for every two bytes, an odd
/// last byte counting as a word.
pub proof fn lemma_word_sum_half_bound(s: Seq<u8>)
    ensures
        word_sum(s) * 2 <= 0xffff * (s.len() + 1),
    decreases s.len(),
{
    if s.len() >= 2 {
        lemma_word_sum_half_bound(s.subrange(2, s.len() as int));
    }
}

// ---------------------------------------------------------------------------
// TCP
// ---------------------------------------------------------------------------

/// TCP segment builder; the checksum covers the IPv4 pseudo header.
pub struct TcpPacketBuilder {
    pub src_ip: Ipv4Addr,
    pub dst_ip: Ipv4Addr,
    pub packet: TcpPacket,
}

/// The byte that holds the data offset: the header length in 32-bit words,
/// in the high four bits.
pub open spec fn tcp_offset_byte(options_len: nat) -> u8 {
    ((((20 + options_len) / 4) % 16) * 16) as u8
}

/// The bytes of a TCP segment whose checksum field holds `checksum`.
pub open spec fn tcp_segment(p: TcpPacket, checksum: u16) -> Seq<u8> {
    be16(p.src_port) + be16(p.dst_port) + be32(p.seq) + be32(p.ack) + seq![tcp_offset_byte(p.options@.len()), flags_byte(p.flags)]
        + be16(p.window) + be16(checksum) + be16(p.urgent_ptr) + p.options@ + p.payload@
}

/// The pseudo header and segment over which a TCP checksum is taken.
pub open spec fn tcp_checksummed_bytes(b: TcpPacketBuilder) -> Seq<u8> {
    let seg = tcp_segment(b.packet, 0);
    pseudo_header_bytes(b.src_ip, b.dst_ip, 6, (seg.len() % 0x10000) as u16, seg)
}

/// The checksum that a TCP builder writes into its segment.
pub open spec fn tcp_checksum(b: TcpPacketBuilder) -> u16 {
    internet_checksum(tcp_checksummed_bytes(b))
}

/// The bytes that a TCP builder produces.
pub open spec fn tcp_bytes(b: TcpPacketBuilder) -> Seq<u8> {
    tcp_segment(b.packet, tcp_checksum(b))
}

impl TcpPacketBuilder {
    pub fn new(src_ip: Ipv4Addr, dst_ip: Ipv4Addr, src_port: u16, dst_port: u16) -> (r: Self)
        ensures
            r.src_ip == src_ip,
            r.dst_ip == dst_ip,
            r.packet.src_port == src_port,
            r.packet.dst_port == dst_port,
            r.packet.seq == 0,
            r.packet.ack == 0,
            r.packet.flags == no_flags(),
            r.packet.window == 65535,
            r.packet.urgent_ptr == 0,
            r.packet.options@ == Seq::<u8>::empty(),
            r.packet.payload@ == Seq::<u8>::empty(),
    {
        TcpPacketBuilder { src_ip, dst_ip, packet: TcpPacket::new(src_port, dst_port) }
    }

    pub fn flags(self, flags: TcpFlags) -> (r: Self)
        ensures
            r.src_ip == self.src_ip && r.dst_ip == self.dst_ip,
            r.packet.src_port == self.packet.src_port && r.packet.dst_port == self.packet.dst_port,
            r.packet.seq == self.packet.seq && r.packet.ack == self.packet.ack,
            r.packet.flags == flags,
            r.packet.window == self.packet.window && r.packet.urgent_ptr == self.packet.urgent_ptr,
            r.packet.options@ == self.packet.options@ && r.packet.payload@ == self.packet.payload@,
    {
        let mut b = self;
        b.packet.flags = flags;
        b
    }

    pub fn seq(self, seq: u32) -> (r: Self)
        ensures
            r.src_ip == self.src_ip && r.dst_ip == self.dst_ip,
            r.packet.src_port == self.packet.src_port && r.packet.dst_port == self.packet.dst_port,
            r.packet.seq == seq && r.packet.ack == self.packet.ack,
            r.packet.flags == self.packet.flags,
            r.packet.window == self.packet.window && r.packet.urgent_ptr == self.packet.urgent_ptr,
            r.packet.options@ == self.packet.options@ && r.packet.payload@ == self.packet.payload@,
    {
        let mut b = self;
        b.packet.seq = seq;
        b
    }

    pub fn ack(self, ack: u32) -> (r: Self)
        ensures
            r.src_ip == self.src_ip && r.dst_ip == self.dst_ip,
            r.packet.src_port == self.packet.src_port && r.packet.dst_port == self.packet.dst_port,
            r.packet.seq == self.packet.seq && r.packet.ack == ack,
            r.packet.flags == self.packet.flags,
            r.packet.window == self.packet.window && r.packet.urgent_ptr == self.packet.urgent_ptr,
            r.packet.options@ == self.packet.options@ && r.packet.payload@ == self.packet.payload@,
    {
        let mut b = self;
        b.packet.ack = ack;
        b
    }

    pub fn window(self, window: u16) -> (r: Self)
        ensures
            r.src_ip == self.src_ip && r.dst_ip == self.dst_ip,
            r.packet.src_port == self.packet.src_port && r.packet.dst_port == self.packet.dst_port,
            r.packet.seq == self.packet.seq && r.packet.ack == self.packet.ack,
            r.packet.flags == self.packet.flags,
            r.packet.window == window && r.packet.urgent_ptr == self.packet.urgent_ptr,
            r.packet.options@ == self.packet.options@ && r.packet.payload@ == self.packet.payload@,
    {
        let mut b = self;
        b.packet.window = window;
        b
    }

    pub fn payload(self, payload: Vec<u8>) -> (r: Self)
        ensures
            r.src_ip == self.src_ip && r.dst_ip == self.dst_ip,
            r.packet.src_port == self.packet.src_port && r.packet.dst_port == self.packet.dst_port,
            r.packet.seq == self.packet.seq && r.packet.ack == self.packet.ack,
            r.packet.flags == self.packet.flags,
            r.packet.window == self.packet.window && r.packet.urgent_ptr == self.packet.urgent_ptr,
            r.packet.options@ == self.packet.options@ && r.packet.payload@ == payload@,
    {
        let mut b = self;
        b.packet.payload = payload;
        b
    }
}

impl PacketBuilder for TcpPacketBuilder {
    open spec fn size_fits(&self) -> bool {
        40 + self.packet.options@.len() + self.packet.payload@.len() <= usize::MAX
    }

    open spec fn buildable(&self) -> bool {
        &&& self.size_fits()
        &&& word_sum(tcp_checksummed_bytes(*self)) <= u32::MAX
    }

    fn build(&self) -> (r: Result<Vec<u8>>)
        ensures
            r matches Ok(v) && v@ == tcp_bytes(*self),
    {
        let mut buffer: Vec<u8> = Vec::new();
        let words: usize = (20 + self.packet.options.len()) / 4;
        let data_offset = words as u8;
        assert((words as u8) % 16 == words % 16) by (bit_vector);
        push_be16(&mut buffer, self.packet.src_port);
        push_be16(&mut buffer, self.packet.dst_port);
        push_be32(&mut buffer, self.packet.seq);
        push_be32(&mut buffer, self.packet.ack);
        buffer.push((data_offset % 16) * 16);
        buffer.push(self.packet.flags.to_u8());
        push_be16(&mut buffer, self.packet.window);
        push_be16(&mut buffer, 0);
        push_be16(&mut buffer, self.packet.urgent_ptr);
        push_bytes(&mut buffer, self.packet.options.as_slice());
        push_bytes(&mut buffer, self.packet.payload.as_slice());
        let ghost seg0 = tcp_segment(self.packet, 0);
        assert(buffer@ =~= seg0);
        let length = (buffer.len() % 0x10000) as u16;
        let checksum = calculate_transport_checksum(self.src_ip, self.dst_ip, 6, length, buffer.as_slice());
        set_be16(&mut buffer, 16, checksum);
        assert(buffer@ =~= tcp_segment(self.packet, checksum));
        Ok(buffer)
    }

    fn size(&self) -> (r: usize)
        ensures
            r == tcp_bytes(*self).len(),
    {
        20 + self.packet.options.len() + self.packet.payload.len()
    }
}

/// A TCP segment whose header and data fit the 65535 bytes that an IPv4
/// length allows can be built.
pub proof fn lemma_tcp_buildable(b: TcpPacketBuilder)
    requires
        20 + b.packet.options@.len() + b.packet.payload@.len() <= 65535,
    ensures
        b.buildable(),
{
    let s = tcp_checksummed_bytes(b);
    assert(s.len() == 32 + b.packet.options@.len() + b.packet.payload@.len());
    lemma_word_sum_half_bound(s);
}

/// The checksum of a built TCP segment, taken with its pseudo header the way
/// a receiver takes it, comes out zero.
pub proof fn lemma_tcp_checksum_verifies(b: TcpPacketBuilder)
    ensures
        internet_checksum(pseudo_header_bytes(b.src_ip, b.dst_ip, 6, (tcp_bytes(b).len() % 0x10000) as u16, tcp_bytes(b))) == 0,
{
    let s = tcp_checksummed_bytes(b);
    let c = tcp_checksum(b);
    let seg = tcp_segment(b.packet, 0);
    assert(s[28] == 0 && s[29] == 0);
    lemma_checksum_verifies(s, 28);
    assert(with_word(s, 28, c) =~= pseudo_header_bytes(b.src_ip, b.dst_ip, 6, (tcp_bytes(b).len() % 0x10000) as u16, tcp_bytes(b)));
}


// ---------------------------------------------------------------------------
// UDP
// ---------------------------------------------------------------------------

/// UDP datagram builder; the checksum covers the IPv4 pseudo header.
pub struct UdpPacketBuilder {
    pub src_ip: Ipv4Addr,
    pub dst_ip: Ipv4Addr,
    pub packet: UdpPacket,
}

/// The bytes of a UDP datagram whose checksum field holds `checksum`.
pub open spec fn udp_datagram(p: UdpPacket, checksum: u16) -> Seq<u8> {
    be16(p.src_port) + be16(p.dst_port) + be16(udp_length(p.payload@.len())) + be16(checksum) + p.payload@
}

/// The pseudo header and datagram over which a UDP checksum is taken.
pub open spec fn udp_checksummed_bytes(b: UdpPacketBuilder) -> Seq<u8> {
    pseudo_header_bytes(b.src_ip, b.dst_ip, 17, udp_length(b.packet.payload@.len()), udp_datagram(b.packet, 0))
}

pub open spec fn udp_checksum(b: UdpPacketBuilder) -> u16 {
    internet_checksum(udp_checksummed_bytes(b))
}

/// The bytes that a UDP builder produces.
pub open spec fn udp_bytes(b: UdpPacketBuilder) -> Seq<u8> {
    udp_datagram(b.packet, udp_checksum(b))
}

impl UdpPacketBuilder {
    pub fn new(src_ip: Ipv4Addr, dst_ip: Ipv4Addr, src_port: u16, dst_port: u16) -> (r: Self)
        ensures
            r.src_ip == src_ip,
            r.dst_ip == dst_ip,
            r.packet.src_port == src_port,
            r.packet.dst_port == dst_port,
            r.packet.payload@ == Seq::<u8>::empty(),
    {
        UdpPacketBuilder { src_ip, dst_ip, packet: UdpPacket::new(src_port, dst_port) }
    }

    pub fn payload(self, payload: Vec<u8>) -> (r: Self)
        ensures
            r.src_ip == self.src_ip && r.dst_ip == self.dst_ip,
            r.packet.src_port == self.packet.src_port && r.packet.dst_port == self.packet.dst_port,
            r.packet.payload@ == payload@,
    {
        let mut b = self;
        b.packet.payload = payload;
        b
    }
}

impl PacketBuilder for UdpPacketBuilder {
    open spec fn size_fits(&self) -> bool {
        20 + self.packet.payload@.len() <= usize::MAX
    }

    open spec fn buildable(&self) -> bool {
        &&& self.size_fits()
        &&& word_sum(udp_checksummed_bytes(*self)) <= u32::MAX
    }

    fn build(&self) -> (r: Result<Vec<u8>>)
        ensures
            r matches Ok(v) && v@ == udp_bytes(*self),
    {
        let mut buffer: Vec<u8> = Vec::new();
        let length = self.packet.length();
        push_be16(&mut buffer, self.packet.src_port);
        push_be16(&mut buffer, self.packet.dst_port);
        push_be16(&mut buffer, length);
        push_be16(&mut buffer, 0);
        push_bytes(&mut buffer, self.packet.payload.as_slice());
        assert(buffer@ =~= udp_datagram(self.packet, 0));
        let checksum = calculate_transport_checksum(self.src_ip, self.dst_ip, 17, length, buffer.as_slice());
        set_be16(&mut buffer, 6, checksum);
        assert(buffer@ =~= udp_datagram(self.packet, checksum));
        Ok(buffer)
    }

    fn size(&self) -> (r: usize)
        ensures
            r == udp_bytes(*self).len(),
    {
        8 + self.packet.payload.len()
    }
}

/// A UDP datagram whose header and data fit the 65535 bytes that an IPv4
/// length allows can be built.
pub proof fn lemma_udp_buildable(b: UdpPacketBuilder)
    requires
        8 + b.packet.payload@.len() <= 65535,
    ensures
        b.buildable(),
{
    let s = udp_checksummed_bytes(b);
    assert(s.len() == 20 + b.packet.payload@.len());
    lemma_word_sum_half_bound(s);
}

/// The checksum of a built UDP datagram, taken with its pseudo header the
/// way a receiver takes it, comes out zero.
pub proof fn lemma_udp_checksum_verifies(b: UdpPacketBuilder)
    ensures
        internet_checksum(pseudo_header_bytes(b.src_ip, b.dst_ip, 17, udp_length(b.packet.payload@.len()), udp_bytes(b))) == 0,
{
    let s = udp_checksummed_bytes(b);
    assert(s[18] == 0 && s[19] == 0);
    lemma_checksum_verifies(s, 18);
    assert(with_word(s, 18, udp_checksum(b)) =~= pseudo_header_bytes(b.src_ip, b.dst_ip, 17, udp_length(b.packet.payload@.len()), udp_bytes(b)));
}

// ---------------------------------------------------------------------------
// ICMP
// ---------------------------------------------------------------------------

/// ICMP message builder.
pub struct IcmpPacketBuilder {
    pub packet: IcmpPacket,
}

/// The bytes of an ICMP message whose checksum field holds `checksum`.
pub open spec fn icmp_message(p: IcmpPacket, checksum: u16) -> Seq<u8> {
    seq![icmp_type_code(p.icmp_type), p.code] + be16(checksum) + p.payload@
}

pub open spec fn icmp_checksum(b: IcmpPacketBuilder) -> u16 {
    internet_checksum(icmp_message(b.packet, 0))
}

/// The bytes that an ICMP builder produces.
pub open spec fn icmp_bytes(b: IcmpPacketBuilder) -> Seq<u8> {
    icmp_message(b.packet, icmp_checksum(b))
}

impl IcmpPacketBuilder {
    pub fn new(icmp_type: IcmpType, code: u8) -> (r: Self)
        ensures
            r.packet.icmp_type == icmp_type,
            r.packet.code == code,
            r.packet.payload@ == Seq::<u8>::empty(),
    {
        IcmpPacketBuilder { packet: IcmpPacket::new(icmp_type, code) }
    }

    /// An echo request carrying the identifier and the sequence number.
    pub fn echo_request(id: u16, seq: u16) -> (r: Self)
        ensures
            r.packet.icmp_type == IcmpType::EchoRequest,
            r.packet.code == 0,
            r.packet.payload@ == be16(id) + be16(seq),
    {
        IcmpPacketBuilder { packet: IcmpPacket::echo_request(id, seq) }
    }

    pub fn payload(self, payload: Vec<u8>) -> (r: Self)
        ensures
            r.packet.icmp_type == self.packet.icmp_type,
            r.packet.code == self.packet.code,
            r.packet.payload@ == payload@,
    {
        let mut b = self;
        b.packet.payload = payload;
        b
    }
}

impl PacketBuilder for IcmpPacketBuilder {
    open spec fn size_fits(&self) -> bool {
        4 + self.packet.payload@.len() <= usize::MAX
    }

    open spec fn buildable(&self) -> bool {
        &&& self.size_fits()
        &&& word_sum(icmp_message(self.packet, 0)) <= u32::MAX
    }

    fn build(&self) -> (r: Result<Vec<u8>>)
        ensures
            r matches Ok(v) && v@ == icmp_bytes(*self),
    {
        let mut buffer: Vec<u8> = Vec::new();
        buffer.push(self.packet.icmp_type.to_u8());
        buffer.push(self.packet.code);
        push_be16(&mut buffer, 0);
        push_bytes(&mut buffer, self.packet.payload.as_slice());
        assert(buffer@ =~= icmp_message(self.packet, 0));
        let checksum = calculate_checksum(buffer.as_slice());
        set_be16(&mut buffer, 2, checksum);
        assert(buffer@ =~= icmp_message(self.packet, checksum));
        Ok(buffer)
    }

    fn size(&self) -> (r: usize)
        ensures
            r == icmp_bytes(*self).len(),
    {
        4 + self.packet.payload.len()
    }
}

/// The checksum of a built ICMP message comes out zero.
pub proof fn lemma_icmp_checksum_verifies(b: IcmpPacketBuilder)
    ensures
        internet_checksum(icmp_bytes(b)) == 0,
{
    let s = icmp_message(b.packet, 0);
    lemma_checksum_verifies(s, 2);
    assert(with_word(s, 2, icmp_checksum(b)) =~= icmp_bytes(b));
}

// ---------------------------------------------------------------------------
// IPv4
// ---------------------------------------------------------------------------

/// IPv4 datagram builder; the checksum covers the 20-byte header.
pub struct Ipv4PacketBuilder {
    pub packet: Ipv4Packet,
}

/// The flags (top three bits) and fragment offset (low thirteen bits) word.
pub open spec fn flags_frag_word(flags: u8, fragment_offset: u16) -> u16 {
    ((flags as u16) << 13u16) | fragment_offset
}

/// The 20 header bytes of a datagram whose checksum field holds `checksum`.
pub open spec fn ipv4_header(p: Ipv4Packet, checksum: u16) -> Seq<u8> {
    seq![0x45u8, 0u8] + be16(ipv4_total_length(p.payload@.len())) + be16(p.id) + be16(flags_frag_word(p.flags, p.fragment_offset))
        + seq![p.ttl, p.protocol] + be16(checksum) + octets_of(p.src_ip) + octets_of(p.dst_ip)
}

pub open spec fn ipv4_checksum(b: Ipv4PacketBuilder) -> u16 {
    internet_checksum(ipv4_header(b.packet, 0))
}

/// The bytes that an IPv4 builder produces: header, then payload.
pub open spec fn ipv4_bytes(b: Ipv4PacketBuilder) -> Seq<u8> {
    ipv4_header(b.packet, ipv4_checksum(b)) + b.packet.payload@
}

impl Ipv4PacketBuilder {
    pub fn new(src_ip: Ipv4Addr, dst_ip: Ipv4Addr, protocol: u8) -> (r: Self)
        ensures
            r.packet.src_ip == src_ip,
            r.packet.dst_ip == dst_ip,
            r.packet.protocol == protocol,
            r.packet.ttl == 64,
            r.packet.id == 0,
            r.packet.flags == 0,
            r.packet.fragment_offset == 0,
            r.packet.payload@ == Seq::<u8>::empty(),
    {
        Ipv4PacketBuilder { packet: Ipv4Packet::new(src_ip, dst_ip, protocol) }
    }

    pub fn ttl(self, ttl: u8) -> (r: Self)
        ensures
            r.packet.src_ip == self.packet.src_ip && r.packet.dst_ip == self.packet.dst_ip,
            r.packet.protocol == self.packet.protocol && r.packet.ttl == ttl && r.packet.id == self.packet.id,
            r.packet.flags == self.packet.flags && r.packet.fragment_offset == self.packet.fragment_offset,
            r.packet.payload@ == self.packet.payload@,
    {
        let mut b = self;
        b.packet.ttl = ttl;
        b
    }

    pub fn id(self, id: u16) -> (r: Self)
        ensures
            r.packet.src_ip == self.packet.src_ip && r.packet.dst_ip == self.packet.dst_ip,
            r.packet.protocol == self.packet.protocol && r.packet.ttl == self.packet.ttl && r.packet.id == id,
            r.packet.flags == self.packet.flags && r.packet.fragment_offset == self.packet.fragment_offset,
            r.packet.payload@ == self.packet.payload@,
    {
        let mut b = self;
        b.packet.id = id;
        b
    }

    pub fn flags(self, flags: u8) -> (r: Self)
        ensures
            r.packet.src_ip == self.packet.src_ip && r.packet.dst_ip == self.packet.dst_ip,
            r.packet.protocol == self.packet.protocol && r.packet.ttl == self.packet.ttl && r.packet.id == self.packet.id,
            r.packet.flags == flags && r.packet.fragment_offset == self.packet.fragment_offset,
            r.packet.payload@ == self.packet.payload@,
    {
        let mut b = self;
        b.packet.flags = flags;
        b
    }

    pub fn fragment_offset(self, offset: u16) -> (r: Self)
        ensures
            r.packet.src_ip == self.packet.src_ip && r.packet.dst_ip == self.packet.dst_ip,
            r.packet.protocol == self.packet.protocol && r.packet.ttl == self.packet.ttl && r.packet.id == self.packet.id,
            r.packet.flags == self.packet.flags && r.packet.fragment_offset == offset,
            r.packet.payload@ == self.packet.payload@,
    {
        let mut b = self;
        b.packet.fragment_offset = offset;
        b
    }

    pub fn payload(self, payload: Vec<u8>) -> (r: Self)
        ensures
            r.packet.src_ip == self.packet.src_ip && r.packet.dst_ip == self.packet.dst_ip,
            r.packet.protocol == self.packet.protocol && r.packet.ttl == self.packet.ttl && r.packet.id == self.packet.id,
            r.packet.flags == self.packet.flags && r.packet.fragment_offset == self.packet.fragment_offset,
            r.packet.payload@ == payload@,
    {
        let mut b = self;
        b.packet.payload = payload;
        b
    }
}

impl PacketBuilder for Ipv4PacketBuilder {
    open spec fn size_fits(&self) -> bool {
        20 + self.packet.payload@.len() <= usize::MAX
    }

    open spec fn buildable(&self) -> bool {
        self.size_fits()
    }

    fn build(&self) -> (r: Result<Vec<u8>>)
        ensures
            r matches Ok(v) && v@ == ipv4_bytes(*self),
    {
        let mut buffer: Vec<u8> = Vec::new();
        let total_length = self.packet.total_length();
        buffer.push(0x45);
        buffer.push(0);
        push_be16(&mut buffer, total_length);
        push_be16(&mut buffer, self.packet.id);
        let flags_frag = ((self.packet.flags as u16) << 13u16) | self.packet.fragment_offset;
        push_be16(&mut buffer, flags_frag);
        buffer.push(self.packet.ttl);
        buffer.push(self.packet.protocol);
        push_be16(&mut buffer, 0);
        let s = self.packet.src_ip.octets();
        let d = self.packet.dst_ip.octets();
        push_bytes(&mut buffer, &s);
        push_bytes(&mut buffer, &d);
        assert(buffer@ =~= ipv4_header(self.packet, 0));
        proof {
            lemma_word_sum_bound(buffer@);
        }
        let checksum = calculate_checksum(buffer.as_slice());
        set_be16(&mut buffer, 10, checksum);
        assert(buffer@ =~= ipv4_header(self.packet, checksum));
        push_bytes(&mut buffer, self.packet.payload.as_slice());
        Ok(buffer)
    }

    fn size(&self) -> (r: usize)
        ensures
            r == ipv4_bytes(*self).len(),
    {
        20 + self.packet.payload.len()
    }
}

/// The checksum of the header of a built IPv4 datagram comes out zero.
pub proof fn lemma_ipv4_checksum_verifies(b: Ipv4PacketBuilder)
    ensures
        internet_checksum(ipv4_bytes(b).subrange(0, 20)) == 0,
{
    let s = ipv4_header(b.packet, 0);
    lemma_checksum_verifies(s, 10);
    assert(with_word(s, 10, ipv4_checksum(b)) =~= ipv4_bytes(b).subrange(0, 20));
}

// ---------------------------------------------------------------------------
// ARP
// ---------------------------------------------------------------------------

/// ARP packet builder (Ethernet hardware, IPv4 protocol addresses).
pub struct ArpPacketBuilder {
    pub packet: ArpPacket,
}

/// The 28 bytes of an ARP packet.
pub open spec fn arp_bytes(p: ArpPacket) -> Seq<u8> {
    be16(1) + be16(0x0800) + seq![6u8, 4u8] + be16(arp_op_code(p.operation)) + p.sender_hw_addr@
        + octets_of(p.sender_proto_addr) + p.target_hw_addr@ + octets_of(p.target_proto_addr)
}

impl ArpPacketBuilder {
    /// A packet for an operation with all addresses zero.
    pub fn new(operation: ArpOperation) -> (r: Self)
        ensures
            r.packet.operation == operation,
            r.packet.sender_hw_addr@ == seq![0u8, 0u8, 0u8, 0u8, 0u8, 0u8],
            octets_of(r.packet.sender_proto_addr) == seq![0u8, 0u8, 0u8, 0u8],
            r.packet.target_hw_addr@ == seq![0u8, 0u8, 0u8, 0u8, 0u8, 0u8],
            octets_of(r.packet.target_proto_addr) == seq![0u8, 0u8, 0u8, 0u8],
    {
        let r = ArpPacketBuilder {
            packet: ArpPacket {
                operation,
                sender_hw_addr: [0; 6],
                sender_proto_addr: Ipv4Addr::new(0, 0, 0, 0),
                target_hw_addr: [0; 6],
                target_proto_addr: Ipv4Addr::new(0, 0, 0, 0),
            },
        };
        assert(r.packet.sender_hw_addr@ =~= seq![0u8, 0u8, 0u8, 0u8, 0u8, 0u8]);
        assert(r.packet.target_hw_addr@ =~= seq![0u8, 0u8, 0u8, 0u8, 0u8, 0u8]);
        r
    }

    /// A request from a sender for a target address.
    pub fn request(sender_hw: [u8; 6], sender_ip: Ipv4Addr, target_ip: Ipv4Addr) -> (r: Self)
        ensures
            r.packet.operation == ArpOperation::Request,
            r.packet.sender_hw_addr@ == sender_hw@,
            r.packet.sender_proto_addr == sender_ip,
            r.packet.target_hw_addr@ == seq![0u8, 0u8, 0u8, 0u8, 0u8, 0u8],
            r.packet.target_proto_addr == target_ip,
    {
        ArpPacketBuilder { packet: ArpPacket::request(sender_hw, sender_ip, target_ip) }
    }

    pub fn sender(self, hw_addr: [u8; 6], proto_addr: Ipv4Addr) -> (r: Self)
        ensures
            r.packet.operation == self.packet.operation,
            r.packet.sender_hw_addr@ == hw_addr@,
            r.packet.sender_proto_addr == proto_addr,
            r.packet.target_hw_addr@ == self.packet.target_hw_addr@,
            r.packet.target_proto_addr == self.packet.target_proto_addr,
    {
        let mut b = self;
        b.packet.sender_hw_addr = hw_addr;
        b.packet.sender_proto_addr = proto_addr;
        b
    }

    pub fn target(self, hw_addr: [u8; 6], proto_addr: Ipv4Addr) -> (r: Self)
        ensures
            r.packet.operation == self.packet.operation,
            r.packet.sender_hw_addr@ == self.packet.sender_hw_addr@,
            r.packet.sender_proto_addr == self.packet.sender_proto_addr,
            r.packet.target_hw_addr@ == hw_addr@,
            r.packet.target_proto_addr == proto_addr,
    {
        let mut b = self;
        b.packet.target_hw_addr = hw_addr;
        b.packet.target_proto_addr = proto_addr;
        b
    }
}

impl PacketBuilder for ArpPacketBuilder {
    open spec fn size_fits(&self) -> bool {
        true
    }

    open spec fn buildable(&self) -> bool {
        true
    }

    fn build(&self) -> (r: Result<Vec<u8>>)
        ensures
            r matches Ok(v) && v@ == arp_bytes(self.packet),
    {
        let mut buffer: Vec<u8> = Vec::new();
        push_be16(&mut buffer, 1);
        push_be16(&mut buffer, 0x0800);
        buffer.push(6);
        buffer.push(4);
        push_be16(&mut buffer, self.packet.operation.to_u16());
        push_bytes(&mut buffer, &self.packet.sender_hw_addr);
        let s = self.packet.sender_proto_addr.octets();
        push_bytes(&mut buffer, &s);
        push_bytes(&mut buffer, &self.packet.target_hw_addr);
        let t = self.packet.target_proto_addr.octets();
        push_bytes(&mut buffer, &t);
        assert(buffer@ =~= arp_bytes(self.packet));
        Ok(buffer)
    }

    fn size(&self) -> (r: usize)
        ensures
            r == arp_bytes(self.packet).len(),
    {
        28
    }
}

} // verus!
