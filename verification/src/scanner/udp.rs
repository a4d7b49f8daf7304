//! UDP scans: an ICMP port-unreachable message shows a closed port;
//! silence shows an open or filtered one.

use vstd::prelude::*;
use crate::addr::IpAddr;
use crate::packet::parsers::{ipv4_payload_of, parse_icmp, parse_ipv4};
use crate::packet::types::IcmpType;
use crate::scan::ScanType;
use crate::scanner::{PortScanResult, ScannerConfig};
use crate::types::{Port, PortState, Protocol, Target, bare_target};

verus! {

/// The payload sent to a UDP port: a DNS query header to port 53, the start
/// of an SNMP request to port 161, nothing elsewhere.
pub open spec fn udp_payload(port: u16) -> Seq<u8> {
    if port == 53 {
        seq![0x00u8, 0x00, 0x01, 0x00, 0x00, 0x01, 0x00, 0x00, 0x00, 0x00, 0x00, 0x00]
    } else if port == 161 {
        seq![0x30u8, 0x26, 0x02, 0x01, 0x00, 0x04, 0x06, 0x70, 0x75, 0x62, 0x6c, 0x69, 0x63, 0xa0, 0x19, 0x02]
    } else {
        Seq::empty()
    }
}

/// A received datagram is an ICMP port-unreachable message: IPv4, protocol
/// 1, type 3 (destination unreachable), code 3.
pub open spec fn is_port_unreachable(data: Seq<u8>) -> bool {
    &&& data.len() >= 20 && data[0] / 16 == 4
    &&& data[9] == 1
    &&& ipv4_payload_of(data).len() >= 4
    &&& ipv4_payload_of(data)[0] == 3
    &&& ipv4_payload_of(data)[1] == 3
}

/// Scans UDP ports.
pub struct UdpScanner {
    config: ScannerConfig,
}

impl UdpScanner {
    /// The scanner's configuration.
    pub closed spec fn config_spec(&self) -> ScannerConfig {
        self.config
    }

    pub fn new(config: ScannerConfig) -> (r: Self)
        ensures
            r.config_spec() == config,
    {
        UdpScanner { config }
    }

    /// The scanner's configuration.
    pub fn config(&self) -> (r: ScannerConfig)
        ensures
            r == self.config_spec(),
    {
        self.config
    }

    /// The payload sent to a UDP port.
    pub fn get_udp_payload(port: u16) -> (r: Vec<u8>)
        ensures
            r@ == udp_payload(port),
    {
        match port {
            53 => {
                let v: Vec<u8> = vec![0x00u8, 0x00, 0x01, 0x00, 0x00, 0x01, 0x00, 0x00, 0x00, 0x00, 0x00, 0x00];
                assert(v@ =~= udp_payload(port));
                v
            },
            161 => {
                let v: Vec<u8> = vec![0x30u8, 0x26, 0x02, 0x01, 0x00, 0x04, 0x06, 0x70, 0x75, 0x62, 0x6c, 0x69, 0x63, 0xa0, 0x19, 0x02];
                assert(v@ =~= udp_payload(port));
                v
            },
            _ => Vec::new(),
        }
    }

    /// Tells whether a received datagram is an ICMP port-unreachable message.
    pub fn read_reply(data: &[u8]) -> (r: bool)
        ensures
            r == is_port_unreachable(data@),
    {
        let ip = match parse_ipv4(data) {
            Ok(ip) => ip,
            Err(_) => {
                return false;
            },
        };
        if ip.protocol != 1 {
            return false;
        }
        let msg = match parse_icmp(ip.payload.as_slice()) {
            Ok(m) => m,
            Err(_) => {
                return false;
            },
        };
        match msg.icmp_type {
            IcmpType::DestinationUnreachable => msg.code == 3,
            _ => false,
        }
    }

    /// The result for a UDP port: closed, with the round-trip time, where a
    /// port-unreachable message came, else open or filtered.
    pub fn scan_result(&self, target: IpAddr, port: Port, unreachable_after: Option<u64>) -> (r: PortScanResult)
        ensures
            r.target == bare_target(target),
            r.port == port,
            r.protocol == Protocol::Udp,
            r.info is None,
            match unreachable_after {
                Some(t) => r.state == PortState::Closed && r.rtt == Some(t),
                None => r.state == PortState::OpenFiltered && r.rtt is None,
            },
    {
        let state = match unreachable_after {
            Some(_) => PortState::Closed,
            None => PortState::OpenFiltered,
        };
        PortScanResult { target: Target::new(target), port, protocol: Protocol::Udp, state, rtt: unreachable_after, info: None }
    }

    pub fn scan_type(&self) -> (r: ScanType)
        ensures
            r == ScanType::Udp,
    {
        ScanType::Udp
    }
}

} // verus!
