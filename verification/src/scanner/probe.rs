//! Raw TCP probes: SYN, NULL, FIN, Xmas, ACK, window and Maimon scans.

use vstd::prelude::*;
use crate::addr::{IpAddr, Ipv4Addr};
use crate::packet::builders::{Ipv4PacketBuilder, PacketBuilder, TcpPacketBuilder, ipv4_bytes, lemma_word_sum_bound,
    tcp_bytes, tcp_checksummed_bytes, tcp_segment};
use crate::packet::parsers::{ipv4_payload_of, parse_ipv4, parse_tcp, tcp_readable};
use crate::packet::types::{TcpFlags, flags_of_byte, no_flags, u16_of};
use crate::scan::ScanType;
use crate::scanner::PortScanResult;
use crate::text::string_from;
use crate::types::{Port, PortState, Protocol, Target, bare_target};

verus! {

/// The raw TCP scans.
#[derive(Debug, Clone, Copy, PartialEq, Eq, Structural)]
pub enum ProbeKind {
    /// SYN scan: a SYN-ACK shows an open port, a RST a closed one.
    Syn,
    /// NULL scan: no flags; a RST shows a closed port.
    Null,
    /// FIN scan: a RST shows a closed port.
    Fin,
    /// Xmas scan: FIN, PSH and URG; a RST shows a closed port.
    Xmas,
    /// ACK scan: a RST shows an unfiltered port.
    Ack,
    /// Window scan: a RST with a nonzero window shows an open port.
    Window,
    /// Maimon scan: FIN and ACK; a RST shows a closed port.
    Maimon,
}

/// The flags that a probe carries.
pub open spec fn probe_flags(k: ProbeKind) -> TcpFlags {
    match k {
        ProbeKind::Syn => TcpFlags { syn: true, ..no_flags() },
        ProbeKind::Null => no_flags(),
        ProbeKind::Fin => TcpFlags { fin: true, ..no_flags() },
        ProbeKind::Xmas => TcpFlags { fin: true, psh: true, urg: true, ..no_flags() },
        ProbeKind::Ack => TcpFlags { ack: true, ..no_flags() },
        ProbeKind::Window => TcpFlags { ack: true, ..no_flags() },
        ProbeKind::Maimon => TcpFlags { fin: true, ack: true, ..no_flags() },
    }
}

/// The window that a probe announces.
pub open spec fn probe_window(k: ProbeKind) -> u16 {
    if k == ProbeKind::Syn { 65535 } else { 1024 }
}

/// The source port of the probe with this sequence number: 40000 to 59999.
pub open spec fn probe_source_port(seq: u32) -> u16 {
    (40000 + seq % 20000) as u16
}

/// The unspecified local address that probes are sent from.
pub open spec fn any_addr() -> Ipv4Addr {
    Ipv4Addr { a: 0, b: 0, c: 0, d: 0 }
}

/// The builders that make a probe: a TCP segment from the unspecified
/// address to `target`, inside an IPv4 datagram with the builder's defaults.
pub open spec fn probe_builders(tb: TcpPacketBuilder, ib: Ipv4PacketBuilder, k: ProbeKind, target: Ipv4Addr, port: u16, seq: u32) -> bool {
    &&& tb.src_ip == any_addr() && tb.dst_ip == target
    &&& tb.packet.src_port == probe_source_port(seq) && tb.packet.dst_port == port
    &&& tb.packet.seq == seq && tb.packet.ack == 0
    &&& tb.packet.flags == probe_flags(k) && tb.packet.window == probe_window(k) && tb.packet.urgent_ptr == 0
    &&& tb.packet.options@.len() == 0 && tb.packet.payload@.len() == 0
    &&& ib.packet.src_ip == any_addr() && ib.packet.dst_ip == target && ib.packet.protocol == 6
    &&& ib.packet.ttl == 64 && ib.packet.id == 0 && ib.packet.flags == 0 && ib.packet.fragment_offset == 0
    &&& ib.packet.payload@ == tcp_bytes(tb)
}

/// The source port of the probe with this sequence number.
pub fn source_port(seq: u32) -> (r: u16)
    ensures
        r == probe_source_port(seq),
{
    (40000 + seq % 20000) as u16
}

/// The datagram of a probe to `port` of `target` with sequence number `seq`.
pub fn build_probe(kind: ProbeKind, target: Ipv4Addr, port: u16, seq: u32) -> (r: Vec<u8>)
    ensures
        exists|tb: TcpPacketBuilder, ib: Ipv4PacketBuilder| probe_builders(tb, ib, kind, target, port, seq) && r@ == ipv4_bytes(ib),
{
    let flags = match kind {
        ProbeKind::Syn => TcpFlags::syn(),
        ProbeKind::Null => TcpFlags::null(),
        ProbeKind::Fin => TcpFlags::fin(),
        ProbeKind::Xmas => TcpFlags::xmas(),
        ProbeKind::Ack => TcpFlags::ack(),
        ProbeKind::Window => TcpFlags::ack(),
        ProbeKind::Maimon => {
            let mut f = TcpFlags::fin();
            f.ack = true;
            f
        },
    };
    let window: u16 = if kind == ProbeKind::Syn { 65535 } else { 1024 };
    let local_ip = Ipv4Addr::new(0, 0, 0, 0);
    let tb = TcpPacketBuilder::new(local_ip, target, source_port(seq), port).flags(flags).seq(seq).ack(0).window(window);
    proof {
        assert(tcp_segment(tb.packet, 0).len() == 20);
        lemma_word_sum_bound(tcp_checksummed_bytes(tb));
    }
    let tcp_packet = match tb.build() {
        Ok(v) => v,
        Err(_) => Vec::new(),
    };
    let ib = Ipv4PacketBuilder::new(local_ip, target, 6).payload(tcp_packet);
    let packet = match ib.build() {
        Ok(v) => v,
        Err(_) => Vec::new(),
    };
    assert(probe_builders(tb, ib, kind, target, port, seq));
    packet
}

/// Replies that can be read without slicing past their end: where the data
/// is an IPv4 datagram, the TCP header length it announces fits.
pub open spec fn reply_readable(data: Seq<u8>) -> bool {
    (data.len() >= 20 && data[0] / 16 == 4) ==> tcp_readable(ipv4_payload_of(data))
}

/// What a received datagram says of the probed port, where it settles it. A
/// SYN scan reads only segments addressed to the probe's source port.
pub open spec fn reply_state(k: ProbeKind, data: Seq<u8>, src_port: u16) -> Option<PortState> {
    if data.len() < 20 || data[0] / 16 != 4 {
        None
    } else {
        let seg = ipv4_payload_of(data);
        if seg.len() < 20 {
            None
        } else {
            let f = flags_of_byte(seg[13]);
            match k {
                ProbeKind::Syn => if u16_of(seg[2], seg[3]) == src_port {
                    if f.syn && f.ack {
                        Some(PortState::Open)
                    } else if f.rst {
                        Some(PortState::Closed)
                    } else {
                        None
                    }
                } else {
                    None
                },
                ProbeKind::Window => if f.rst {
                    Some(if u16_of(seg[14], seg[15]) > 0 { PortState::Open } else { PortState::Closed })
                } else {
                    None
                },
                _ => if f.rst { Some(PortState::Closed) } else { None },
            }
        }
    }
}

/// Tells whether a received datagram can be read.
pub fn is_reply_readable(data: &[u8]) -> (r: bool)
    ensures
        r == reply_readable(data@),
{
    match parse_ipv4(data) {
        Ok(ip) => {
            let seg = ip.payload.as_slice();
            seg.len() < 20 || (seg[12] / 16) as usize * 4 <= seg.len()
        },
        Err(_) => true,
    }
}

/// What a received datagram says of the port probed from `src_port`, where
/// it settles it: for a SYN scan, a SYN-ACK sent back to `src_port` shows
/// an open port and a RST a closed one.
pub fn read_reply(kind: ProbeKind, data: &[u8], src_port: u16) -> (r: Option<PortState>)
    requires
        reply_readable(data@),
    ensures
        r == reply_state(kind, data@, src_port),
{
    let ip = match parse_ipv4(data) {
        Ok(ip) => ip,
        Err(_) => {
            return None;
        },
    };
    let tcp = match parse_tcp(ip.payload.as_slice()) {
        Ok(t) => t,
        Err(_) => {
            return None;
        },
    };
    match kind {
        ProbeKind::Syn => {
            if tcp.dst_port == src_port {
                if tcp.flags.syn && tcp.flags.ack {
                    Some(PortState::Open)
                } else if tcp.flags.rst {
                    Some(PortState::Closed)
                } else {
                    None
                }
            } else {
                None
            }
        },
        ProbeKind::Window => {
            if tcp.flags.rst {
                Some(if tcp.window > 0 { PortState::Open } else { PortState::Closed })
            } else {
                None
            }
        },
        _ => {
            if tcp.flags.rst {
                Some(PortState::Closed)
            } else {
                None
            }
        },
    }
}

/// What silence until the time limit says of the port: filtered for SYN,
/// ACK and window scans, open or filtered for the others.
pub open spec fn silent_state(k: ProbeKind) -> PortState {
    match k {
        ProbeKind::Syn | ProbeKind::Ack | ProbeKind::Window => PortState::Filtered,
        _ => PortState::OpenFiltered,
    }
}

/// The scan type of a probe kind.
pub open spec fn probe_scan_type(k: ProbeKind) -> ScanType {
    match k {
        ProbeKind::Syn => ScanType::TcpSyn,
        ProbeKind::Null => ScanType::TcpNull,
        ProbeKind::Fin => ScanType::TcpFin,
        ProbeKind::Xmas => ScanType::TcpXmas,
        ProbeKind::Ack => ScanType::TcpAck,
        ProbeKind::Window => ScanType::TcpWindow,
        ProbeKind::Maimon => ScanType::TcpMaimon,
    }
}

impl ProbeKind {
    /// The scan type of the probe kind.
    pub fn scan_type(&self) -> (r: ScanType)
        ensures
            r == probe_scan_type(*self),
    {
        match self {
            ProbeKind::Syn => ScanType::TcpSyn,
            ProbeKind::Null => ScanType::TcpNull,
            ProbeKind::Fin => ScanType::TcpFin,
            ProbeKind::Xmas => ScanType::TcpXmas,
            ProbeKind::Ack => ScanType::TcpAck,
            ProbeKind::Window => ScanType::TcpWindow,
            ProbeKind::Maimon => ScanType::TcpMaimon,
        }
    }

    /// The result for a port: the settling reply's state and round-trip time
    /// where one came, else the state that silence shows. An ACK scan notes
    /// whether the port is filtered.
    pub fn scan_result(&self, target: IpAddr, port: Port, reply: Option<(PortState, u64)>) -> (r: PortScanResult)
        ensures
            r.target == bare_target(target),
            r.port == port,
            r.protocol == Protocol::Tcp,
            match reply {
                Some((s, t)) => r.state == s && r.rtt == Some(t),
                None => r.state == silent_state(*self) && r.rtt is None,
            },
            *self == ProbeKind::Ack ==> (r.info matches Some(i) && i@ == (if r.state == PortState::Closed {
                "unfiltered"@
            } else {
                "filtered"@
            })),
            *self != ProbeKind::Ack ==> r.info is None,
    {
        let (state, rtt) = match reply {
            Some((s, t)) => (s, Some(t)),
            None => (
                match self {
                    ProbeKind::Syn | ProbeKind::Ack | ProbeKind::Window => PortState::Filtered,
                    _ => PortState::OpenFiltered,
                },
                None,
            ),
        };
        let info = if *self == ProbeKind::Ack {
            Some(if state == PortState::Closed { string_from("unfiltered") } else { string_from("filtered") })
        } else {
            None
        };
        PortScanResult { target: Target::new(target), port, protocol: Protocol::Tcp, state, rtt, info }
    }
}

} // verus!
