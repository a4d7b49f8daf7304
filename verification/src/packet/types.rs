use vstd::prelude::*;
use crate::addr::Ipv4Addr;

verus! {

/// The six classic TCP control bits.
#[derive(Debug, Clone, Copy, PartialEq, Eq, Structural)]
pub struct TcpFlags {
    pub fin: bool,
    pub syn: bool,
    pub rst: bool,
    pub psh: bool,
    pub ack: bool,
    pub urg: bool,
}

/// The set of flags with none set.
pub open spec fn no_flags() -> TcpFlags {
    TcpFlags { fin: false, syn: false, rst: false, psh: false, ack: false, urg: false }
}

pub open spec fn bit(b: bool, weight: u8) -> u8 {
    if b { weight } else { 0 }
}

/// The byte that encodes a set of flags: FIN is bit 0, SYN bit 1, RST bit 2,
/// PSH bit 3, ACK bit 4 and URG bit 5.
pub open spec fn flags_byte(f: TcpFlags) -> u8 {
    (bit(f.fin, 1) + bit(f.syn, 2) + bit(f.rst, 4) + bit(f.psh, 8) + bit(f.ack, 16) + bit(f.urg, 32)) as u8
}

/// The flags that a byte carries in its six low bits.
pub open spec fn flags_of_byte(v: u8) -> TcpFlags {
    TcpFlags {
        fin: v & 0x01 != 0,
        syn: v & 0x02 != 0,
        rst: v & 0x04 != 0,
        psh: v & 0x08 != 0,
        ack: v & 0x10 != 0,
        urg: v & 0x20 != 0,
    }
}

proof fn lemma_flags_bits(fin: bool, syn: bool, rst: bool, psh: bool, ack: bool, urg: bool, v: u8)
    by (bit_vector)
    requires
        v == ((if fin { 1u8 } else { 0u8 }) + (if syn { 2u8 } else { 0u8 }) + (if rst { 4u8 } else { 0u8 })
            + (if psh { 8u8 } else { 0u8 }) + (if ack { 16u8 } else { 0u8 }) + (if urg { 32u8 } else { 0u8 })),
    ensures
        (v & 0x01 != 0) == fin,
        (v & 0x02 != 0) == syn,
        (v & 0x04 != 0) == rst,
        (v & 0x08 != 0) == psh,
        (v & 0x10 != 0) == ack,
        (v & 0x20 != 0) == urg,
{
}

/// Encoding a set of flags as a byte and decoding it again gives back the same flags.
pub proof fn lemma_flags_roundtrip(f: TcpFlags)
    ensures
        flags_of_byte(flags_byte(f)) == f,
{
    lemma_flags_bits(f.fin, f.syn, f.rst, f.psh, f.ack, f.urg, flags_byte(f));
}

impl TcpFlags {
    /// No flag set.
    pub fn new() -> (r: Self)
        ensures
            r == no_flags(),
    {
        TcpFlags { fin: false, syn: false, rst: false, psh: false, ack: false, urg: false }
    }

    pub fn syn() -> (r: Self)
        ensures
            r == (TcpFlags { syn: true, ..no_flags() }),
    {
        TcpFlags { syn: true, ..Self::new() }
    }

    pub fn syn_ack() -> (r: Self)
        ensures
            r == (TcpFlags { syn: true, ack: true, ..no_flags() }),
    {
        TcpFlags { syn: true, ack: true, ..Self::new() }
    }

    pub fn ack() -> (r: Self)
        ensures
            r == (TcpFlags { ack: true, ..no_flags() }),
    {
        TcpFlags { ack: true, ..Self::new() }
    }

    pub fn fin_ack() -> (r: Self)
        ensures
            r == (TcpFlags { fin: true, ack: true, ..no_flags() }),
    {
        TcpFlags { fin: true, ack: true, ..Self::new() }
    }

    pub fn rst() -> (r: Self)
        ensures
            r == (TcpFlags { rst: true, ..no_flags() }),
    {
        TcpFlags { rst: true, ..Self::new() }
    }

    pub fn null() -> (r: Self)
        ensures
            r == no_flags(),
    {
        Self::new()
    }

    pub fn fin() -> (r: Self)
        ensures
            r == (TcpFlags { fin: true, ..no_flags() }),
    {
        TcpFlags { fin: true, ..Self::new() }
    }

    /// FIN, PSH and URG together.
    pub fn xmas() -> (r: Self)
        ensures
            r == (TcpFlags { fin: true, psh: true, urg: true, ..no_flags() }),
    {
        TcpFlags { fin: true, psh: true, urg: true, ..Self::new() }
    }

    pub fn to_u8(&self) -> (r: u8)
        ensures
            r == flags_byte(*self),
    {
        let mut flags = 0u8;
        if self.fin {
            flags = flags + 0x01;
        }
        if self.syn {
            flags = flags + 0x02;
        }
        if self.rst {
            flags = flags + 0x04;
        }
        if self.psh {
            flags = flags + 0x08;
        }
        if self.ack {
            flags = flags + 0x10;
        }
        if self.urg {
            flags = flags + 0x20;
        }
        flags
    }

    pub fn from_u8(value: u8) -> (r: Self)
        ensures
            r == flags_of_byte(value),
    {
        TcpFlags {
            fin: (value & 0x01) != 0,
            syn: (value & 0x02) != 0,
            rst: (value & 0x04) != 0,
            psh: (value & 0x08) != 0,
            ack: (value & 0x10) != 0,
            urg: (value & 0x20) != 0,
        }
    }
}


impl Default for TcpFlags {
    fn default() -> (r: Self)
        ensures
            r == no_flags(),
    {
        Self::new()
    }
}

/// A TCP segment.
#[derive(Debug, Clone)]
pub struct TcpPacket {
    pub src_port: u16,
    pub dst_port: u16,
    pub seq: u32,
    pub ack: u32,
    pub flags: TcpFlags,
    pub window: u16,
    pub urgent_ptr: u16,
    pub options: Vec<u8>,
    pub payload: Vec<u8>,
}

impl TcpPacket {
    /// A segment between two ports with no flag set, sequence and
    /// acknowledgment numbers 0, window 65535 and nothing else.
    pub fn new(src_port: u16, dst_port: u16) -> (r: Self)
        ensures
            r.src_port == src_port,
            r.dst_port == dst_port,
            r.seq == 0,
            r.ack == 0,
            r.flags == no_flags(),
            r.window == 65535,
            r.urgent_ptr == 0,
            r.options@ == Seq::<u8>::empty(),
            r.payload@ == Seq::<u8>::empty(),
    {
        TcpPacket {
            src_port,
            dst_port,
            seq: 0,
            ack: 0,
            flags: TcpFlags::new(),
            window: 65535,
            urgent_ptr: 0,
            options: Vec::new(),
            payload: Vec::new(),
        }
    }
}

/// A UDP datagram.
#[derive(Debug, Clone)]
pub struct UdpPacket {
    pub src_port: u16,
    pub dst_port: u16,
    pub payload: Vec<u8>,
}

/// The value of the UDP length field: header and payload, truncated to 16 bits.
pub open spec fn udp_length(payload_len: nat) -> u16 {
    ((8 + payload_len) % 0x10000) as u16
}

impl UdpPacket {
    pub fn new(src_port: u16, dst_port: u16) -> (r: Self)
        ensures
            r.src_port == src_port,
            r.dst_port == dst_port,
            r.payload@ == Seq::<u8>::empty(),
    {
        UdpPacket { src_port, dst_port, payload: Vec::new() }
    }

    /// Header and payload length, as the 16-bit length field holds it.
    pub fn length(&self) -> (r: u16)
        ensures
            r == udp_length(self.payload@.len()),
    {
        let n = self.payload.len();
        proof {
            vstd::arithmetic::div_mod::lemma_add_mod_noop(n as int, 8, 0x10000);
        }
        (((n % 0x10000) as u32 + 8) % 0x10000) as u16
    }
}

/// ICMP message types.
#[derive(Debug, Clone, Copy, PartialEq, Eq, Structural)]
pub enum IcmpType {
    EchoReply,
    EchoRequest,
    DestinationUnreachable,
    TimeExceeded,
    TimestampRequest,
    TimestampReply,
    Other(u8),
}

/// The type number of an ICMP message type.
pub open spec fn icmp_type_code(t: IcmpType) -> u8 {
    match t {
        IcmpType::EchoReply => 0,
        IcmpType::EchoRequest => 8,
        IcmpType::DestinationUnreachable => 3,
        IcmpType::TimeExceeded => 11,
        IcmpType::TimestampRequest => 13,
        IcmpType::TimestampReply => 14,
        IcmpType::Other(v) => v,
    }
}

/// The message type that a type number denotes.
pub open spec fn icmp_type_of(v: u8) -> IcmpType {
    if v == 0 {
        IcmpType::EchoReply
    } else if v == 8 {
        IcmpType::EchoRequest
    } else if v == 3 {
        IcmpType::DestinationUnreachable
    } else if v == 11 {
        IcmpType::TimeExceeded
    } else if v == 13 {
        IcmpType::TimestampRequest
    } else if v == 14 {
        IcmpType::TimestampReply
    } else {
        IcmpType::Other(v)
    }
}

/// A message type written the way decoding gives it back: `Other` only for
/// numbers that no named type has.
pub open spec fn icmp_type_canonical(t: IcmpType) -> bool {
    match t {
        IcmpType::Other(v) => v != 0 && v != 8 && v != 3 && v != 11 && v != 13 && v != 14,
        _ => true,
    }
}

impl IcmpType {
    pub fn to_u8(&self) -> (r: u8)
        ensures
            r == icmp_type_code(*self),
    {
        match self {
            IcmpType::EchoReply => 0,
            IcmpType::EchoRequest => 8,
            IcmpType::DestinationUnreachable => 3,
            IcmpType::TimeExceeded => 11,
            IcmpType::TimestampRequest => 13,
            IcmpType::TimestampReply => 14,
            IcmpType::Other(t) => *t,
        }
    }

    pub fn from_u8(value: u8) -> (r: Self)
        ensures
            r == icmp_type_of(value),
    {
        match value {
            0 => IcmpType::EchoReply,
            8 => IcmpType::EchoRequest,
            3 => IcmpType::DestinationUnreachable,
            11 => IcmpType::TimeExceeded,
            13 => IcmpType::TimestampRequest,
            14 => IcmpType::TimestampReply,
            t => IcmpType::Other(t),
        }
    }
}

/// Decoding the number of a message type gives back the type, whenever the
/// type is written canonically; encoding the type that a number denotes
/// gives back the number.
pub proof fn lemma_icmp_type_roundtrip(t: IcmpType, v: u8)
    ensures
        icmp_type_canonical(t) ==> icmp_type_of(icmp_type_code(t)) == t,
        icmp_type_code(icmp_type_of(v)) == v,
        icmp_type_canonical(icmp_type_of(v)),
{
}

/// An ICMP message.
#[derive(Debug, Clone)]
pub struct IcmpPacket {
    pub icmp_type: IcmpType,
    pub code: u8,
    pub payload: Vec<u8>,
}

/// Big-endian bytes of a 16-bit value.
pub open spec fn be16(v: u16) -> Seq<u8> {
    seq![(v / 256) as u8, (v % 256) as u8]
}

/// Big-endian bytes of a 32-bit value.
pub open spec fn be32(v: u32) -> Seq<u8> {
    seq![(v / 0x1000000) as u8, ((v / 0x10000) % 256) as u8, ((v / 256) % 256) as u8, (v % 256) as u8]
}

/// The 16-bit value of two big-endian bytes.
pub open spec fn u16_of(hi: u8, lo: u8) -> u16 {
    (hi as nat * 256 + lo as nat) as u16
}

/// The 32-bit value of four big-endian bytes.
pub open spec fn u32_of(b0: u8, b1: u8, b2: u8, b3: u8) -> u32 {
    (b0 as nat * 0x1000000 + b1 as nat * 0x10000 + b2 as nat * 0x100 + b3 as nat) as u32
}

/// Appends the big-endian bytes of `v` to `buf`.
pub fn push_be16(buf: &mut Vec<u8>, v: u16)
    ensures
        final(buf)@ == old(buf)@ + be16(v),
{
    buf.push((v / 256) as u8);
    buf.push((v % 256) as u8);
    assert(final(buf)@ =~= old(buf)@ + be16(v));
}

/// Appends the big-endian bytes of `v` to `buf`.
pub fn push_be32(buf: &mut Vec<u8>, v: u32)
    ensures
        final(buf)@ == old(buf)@ + be32(v),
{
    buf.push((v / 0x1000000) as u8);
    buf.push(((v / 0x10000) % 256) as u8);
    buf.push(((v / 256) % 256) as u8);
    buf.push((v % 256) as u8);
    assert(final(buf)@ =~= old(buf)@ + be32(v));
}

/// Appends all of `other` to `buf`.
pub fn push_bytes(buf: &mut Vec<u8>, other: &[u8])
    ensures
        final(buf)@ == old(buf)@ + other@,
{
    let mut i: usize = 0;
    while i < other.len()
        invariant
            i <= other@.len(),
            buf@ == old(buf)@ + other@.subrange(0, i as int),
        decreases other.len() - i,
    {
        buf.push(other[i]);
        assert(other@.subrange(0, i + 1) == other@.subrange(0, i as int).push(other@[i as int]));
        i = i + 1;
    }
    assert(other@.subrange(0, other@.len() as int) == other@);
}

/// A copy of `data[from..to]`.
pub fn copy_range(data: &[u8], from: usize, to: usize) -> (r: Vec<u8>)
    requires
        from <= to <= data@.len(),
    ensures
        r@ == data@.subrange(from as int, to as int),
{
    let mut r: Vec<u8> = Vec::new();
    let mut i: usize = from;
    while i < to
        invariant
            from <= i <= to <= data@.len(),
            r@ == data@.subrange(from as int, i as int),
        decreases to - i,
    {
        r.push(data[i]);
        assert(data@.subrange(from as int, i + 1) == data@.subrange(from as int, i as int).push(data@[i as int]));
        i = i + 1;
    }
    r
}

/// The big-endian 16-bit value at `data[i..i + 2]`.
pub fn read_be16(data: &[u8], i: usize) -> (r: u16)
    requires
        i + 2 <= data@.len(),
    ensures
        r == u16_of(data@[i as int], data@[i + 1]),
{
    (data[i] as u16) * 256 + data[i + 1] as u16
}

/// The big-endian 32-bit value at `data[i..i + 4]`.
pub fn read_be32(data: &[u8], i: usize) -> (r: u32)
    requires
        i + 4 <= data@.len(),
    ensures
        r == u32_of(data@[i as int], data@[i + 1], data@[i + 2], data@[i + 3]),
{
    (data[i] as u32) * 0x1000000 + (data[i + 1] as u32) * 0x10000 + (data[i + 2] as u32) * 0x100 + data[i + 3] as u32
}

/// Reading back the big-endian bytes of a value gives the value.
pub proof fn lemma_be_roundtrip(v: u16, w: u32)
    ensures
        u16_of(be16(v)[0], be16(v)[1]) == v,
        u32_of(be32(w)[0], be32(w)[1], be32(w)[2], be32(w)[3]) == w,
{
}

impl IcmpPacket {
    pub fn new(icmp_type: IcmpType, code: u8) -> (r: Self)
        ensures
            r.icmp_type == icmp_type,
            r.code == code,
            r.payload@ == Seq::<u8>::empty(),
    {
        IcmpPacket { icmp_type, code, payload: Vec::new() }
    }

    /// An echo request whose payload holds the identifier and the sequence
    /// number, both big-endian.
    pub fn echo_request(id: u16, seq: u16) -> (r: Self)
        ensures
            r.icmp_type == IcmpType::EchoRequest,
            r.code == 0,
            r.payload@ == be16(id) + be16(seq),
    {
        let mut packet = Self::new(IcmpType::EchoRequest, 0);
        push_be16(&mut packet.payload, id);
        push_be16(&mut packet.payload, seq);
        packet
    }
}

/// An IPv4 datagram.
#[derive(Debug, Clone)]
pub struct Ipv4Packet {
    pub src_ip: Ipv4Addr,
    pub dst_ip: Ipv4Addr,
    pub protocol: u8,
    pub ttl: u8,
    pub id: u16,
    pub flags: u8,
    pub fragment_offset: u16,
    pub payload: Vec<u8>,
}

/// The value of the total length field: header and payload, truncated to 16 bits.
pub open spec fn ipv4_total_length(payload_len: nat) -> u16 {
    ((20 + payload_len) % 0x10000) as u16
}

impl Ipv4Packet {
    /// A datagram between two addresses with TTL 64 and everything else zero.
    pub fn new(src_ip: Ipv4Addr, dst_ip: Ipv4Addr, protocol: u8) -> (r: Self)
        ensures
            r.src_ip == src_ip,
            r.dst_ip == dst_ip,
            r.protocol == protocol,
            r.ttl == 64,
            r.id == 0,
            r.flags == 0,
            r.fragment_offset == 0,
            r.payload@ == Seq::<u8>::empty(),
    {
        Ipv4Packet {
            src_ip,
            dst_ip,
            protocol,
            ttl: 64,
            id: 0,
            flags: 0,
            fragment_offset: 0,
            payload: Vec::new(),
        }
    }

    pub fn total_length(&self) -> (r: u16)
        ensures
            r == ipv4_total_length(self.payload@.len()),
    {
        let n = self.payload.len();
        proof {
            vstd::arithmetic::div_mod::lemma_add_mod_noop(n as int, 20, 0x10000);
        }
        (((n % 0x10000) as u32 + 20) % 0x10000) as u16
    }
}

/// ARP operation codes.
#[derive(Debug, Clone, Copy, PartialEq, Eq, Structural)]
pub enum ArpOperation {
    Request,
    Reply,
}

pub open spec fn arp_op_code(op: ArpOperation) -> u16 {
    match op {
        ArpOperation::Request => 1,
        ArpOperation::Reply => 2,
    }
}

pub open spec fn arp_op_of(v: u16) -> Option<ArpOperation> {
    if v == 1 {
        Some(ArpOperation::Request)
    } else if v == 2 {
        Some(ArpOperation::Reply)
    } else {
        None
    }
}

impl ArpOperation {
    pub fn to_u16(&self) -> (r: u16)
        ensures
            r == arp_op_code(*self),
    {
        match self {
            ArpOperation::Request => 1,
            ArpOperation::Reply => 2,
        }
    }

    pub fn from_u16(value: u16) -> (r: Option<Self>)
        ensures
            r == arp_op_of(value),
    {
        match value {
            1 => Some(ArpOperation::Request),
            2 => Some(ArpOperation::Reply),
            _ => None,
        }
    }
}

/// Decoding the code of an operation gives back the operation, and a code
/// decodes to an operation exactly when it is the code of one.
pub proof fn lemma_arp_op_roundtrip(op: ArpOperation, v: u16)
    ensures
        arp_op_of(arp_op_code(op)) == Some(op),
        arp_op_of(v) matches Some(o) ==> arp_op_code(o) == v,
{
}

/// An ARP packet for Ethernet and IPv4.
#[derive(Debug, Clone, Copy, PartialEq, Eq)]
pub struct ArpPacket {
    pub operation: ArpOperation,
    pub sender_hw_addr: [u8; 6],
    pub sender_proto_addr: Ipv4Addr,
    pub target_hw_addr: [u8; 6],
    pub target_proto_addr: Ipv4Addr,
}

impl ArpPacket {
    /// A request from a sender for a target address, with an all-zero target
    /// hardware address.
    pub fn request(sender_hw: [u8; 6], sender_ip: Ipv4Addr, target_ip: Ipv4Addr) -> (r: Self)
        ensures
            r.operation == ArpOperation::Request,
            r.sender_hw_addr@ == sender_hw@,
            r.sender_proto_addr == sender_ip,
            r.target_hw_addr@ == seq![0u8, 0u8, 0u8, 0u8, 0u8, 0u8],
            r.target_proto_addr == target_ip,
    {
        let r = ArpPacket {
            operation: ArpOperation::Request,
            sender_hw_addr: sender_hw,
            sender_proto_addr: sender_ip,
            target_hw_addr: [0; 6],
            target_proto_addr: target_ip,
        };
        assert(r.target_hw_addr@ =~= seq![0u8, 0u8, 0u8, 0u8, 0u8, 0u8]);
        r
    }
}

} // verus!
