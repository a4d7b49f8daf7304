use apexscan::addr::{IpAddr, Ipv4Addr, Ipv6Addr};
use apexscan::discovery::ping::{
    echo_request_packet, echo_result, read_echo_reply, read_timestamp_reply, request_target, timestamp_request_packet,
    timestamp_result,
};
use apexscan::discovery::{failed_discovery, methods_for, ArpDiscovery, DiscoveryConfig, DiscoveryMethod};
use apexscan::error::Error;
use apexscan::packet::builders::{IcmpPacketBuilder, Ipv4PacketBuilder, PacketBuilder, TcpPacketBuilder};
use apexscan::packet::parsers::{parse_icmp, parse_ipv4, parse_tcp};
use apexscan::packet::types::{IcmpType, TcpFlags};
use apexscan::scan::ScanType;
use apexscan::scanner::probe::{build_probe, is_reply_readable, read_reply, source_port, ProbeKind};
use apexscan::scanner::udp::UdpScanner;
use apexscan::scanner::{failed_scan_result, ipv6_unsupported, xorshift, ConnectOutcome, ScannerConfig, TcpConnectScanner};
use apexscan::types::{Port, PortState, Protocol};

fn host() -> Ipv4Addr {
    Ipv4Addr::new(10, 0, 0, 5)
}

/// A TCP reply inside an IPv4 datagram.
fn tcp_reply(src_port: u16, dst_port: u16, flags: TcpFlags, window: u16) -> Vec<u8> {
    let segment = TcpPacketBuilder::new(host(), Ipv4Addr::new(10, 0, 0, 9), src_port, dst_port)
        .flags(flags)
        .window(window)
        .build()
        .unwrap();
    Ipv4PacketBuilder::new(host(), Ipv4Addr::new(10, 0, 0, 9), 6).payload(segment).build().unwrap()
}

/// An ICMP message inside an IPv4 datagram.
fn icmp_reply(t: IcmpType, code: u8, payload: Vec<u8>) -> Vec<u8> {
    let message = IcmpPacketBuilder::new(t, code).payload(payload).build().unwrap();
    Ipv4PacketBuilder::new(host(), Ipv4Addr::new(10, 0, 0, 9), 1).payload(message).build().unwrap()
}

#[test]
fn syn_probe_layout() {
    let seq = 123_456;
    let datagram = build_probe(ProbeKind::Syn, host(), 443, seq);
    assert_eq!(datagram.len(), 40);
    let ip = parse_ipv4(&datagram).unwrap();
    assert_eq!(ip.protocol, 6);
    assert_eq!(ip.dst_ip, host());
    let tcp = parse_tcp(&ip.payload).unwrap();
    assert_eq!(tcp.dst_port, 443);
    assert_eq!(tcp.src_port, source_port(seq));
    assert_eq!(tcp.src_port, 40000 + (seq % 20000) as u16);
    assert_eq!(tcp.seq, seq);
    assert_eq!(tcp.flags, TcpFlags::syn());
    assert_eq!(tcp.window, 65535);
}

#[test]
fn covert_probe_flags() {
    let tcp_of = |k: ProbeKind| parse_tcp(&parse_ipv4(&build_probe(k, host(), 80, 1)).unwrap().payload).unwrap();
    assert_eq!(tcp_of(ProbeKind::Xmas).flags, TcpFlags::xmas());
    assert_eq!(tcp_of(ProbeKind::Null).flags, TcpFlags::null());
    let maimon = tcp_of(ProbeKind::Maimon).flags;
    assert!(maimon.fin && maimon.ack && !maimon.syn);
    assert_eq!(tcp_of(ProbeKind::Window).window, 1024);
}

#[test]
fn replies_settle_port_states() {
    let syn_ack = TcpFlags { syn: true, ack: true, ..TcpFlags::new() };
    let data = tcp_reply(80, 40001, syn_ack, 100);
    assert!(is_reply_readable(&data));
    assert_eq!(read_reply(ProbeKind::Syn, &data, 40001), Some(PortState::Open));
    assert_eq!(read_reply(ProbeKind::Syn, &data, 40002), None);
    let rst = tcp_reply(80, 40001, TcpFlags::rst(), 0);
    assert_eq!(read_reply(ProbeKind::Syn, &rst, 40001), Some(PortState::Closed));
    assert_eq!(read_reply(ProbeKind::Fin, &rst, 9), Some(PortState::Closed));
    assert_eq!(read_reply(ProbeKind::Window, &rst, 9), Some(PortState::Closed));
    let rst_window = tcp_reply(80, 40001, TcpFlags::rst(), 512);
    assert_eq!(read_reply(ProbeKind::Window, &rst_window, 9), Some(PortState::Open));
    assert_eq!(read_reply(ProbeKind::Ack, &data, 9), None);
    assert_eq!(read_reply(ProbeKind::Ack, &[1, 2, 3], 9), None);
}

#[test]
fn probe_results() {
    let ip = IpAddr::V4(host());
    let port = Port::new(80).unwrap();
    let open = ProbeKind::Syn.scan_result(ip, port, Some((PortState::Open, 250)));
    assert_eq!(open.state, PortState::Open);
    assert_eq!(open.rtt, Some(250));
    assert!(open.info.is_none());
    let silent = ProbeKind::Fin.scan_result(ip, port, None);
    assert_eq!(silent.state, PortState::OpenFiltered);
    assert_eq!(silent.rtt, None);
    let ack = ProbeKind::Ack.scan_result(ip, port, None);
    assert_eq!(ack.state, PortState::Filtered);
    assert_eq!(ack.info, Some("filtered".to_string()));
    let ack_closed = ProbeKind::Ack.scan_result(ip, port, Some((PortState::Closed, 9)));
    assert_eq!(ack_closed.info, Some("unfiltered".to_string()));
    assert_eq!(ProbeKind::Maimon.scan_type(), ScanType::TcpMaimon);
}

#[test]
fn connect_outcomes() {
    let scanner = TcpConnectScanner::new(ScannerConfig::default());
    let ip = IpAddr::V4(host());
    let port = Port::new(22).unwrap();
    assert_eq!(scanner.scan_result(ip, port, ConnectOutcome::Connected(10)).state, PortState::Open);
    let refused = scanner.scan_result(ip, port, ConnectOutcome::Refused(20));
    assert_eq!(refused.state, PortState::Closed);
    assert_eq!(refused.rtt, Some(20));
    let timed_out = scanner.scan_result(ip, port, ConnectOutcome::TimedOut);
    assert_eq!(timed_out.state, PortState::Filtered);
    assert_eq!(timed_out.protocol, Protocol::Tcp);
    assert_eq!(scanner.config().timeout, 2000);
    assert_eq!(scanner.scan_type(), ScanType::TcpConnect);
}

#[test]
fn udp_probe_and_reply() {
    assert_eq!(UdpScanner::get_udp_payload(53).len(), 12);
    assert_eq!(UdpScanner::get_udp_payload(161)[0], 0x30);
    assert!(UdpScanner::get_udp_payload(9).is_empty());
    let unreachable = icmp_reply(IcmpType::DestinationUnreachable, 3, vec![0, 0, 0, 0]);
    assert!(UdpScanner::read_reply(&unreachable));
    let host_unreachable = icmp_reply(IcmpType::DestinationUnreachable, 1, vec![0, 0, 0, 0]);
    assert!(!UdpScanner::read_reply(&host_unreachable));
    let scanner = UdpScanner::new(ScannerConfig::default());
    let port = Port::new(53).unwrap();
    let closed = scanner.scan_result(IpAddr::V4(host()), port, Some(77));
    assert_eq!(closed.state, PortState::Closed);
    assert_eq!(closed.protocol, Protocol::Udp);
    assert_eq!(scanner.scan_result(IpAddr::V4(host()), port, None).state, PortState::OpenFiltered);
}

#[test]
fn scanner_helpers() {
    let failed = failed_scan_result(IpAddr::V4(host()), Port::new(1).unwrap());
    assert_eq!(failed.state, PortState::Unknown);
    assert_eq!(failed.info, Some("Scan error".to_string()));
    assert_eq!(ipv6_unsupported(), Error::InvalidInput("IPv6 not yet supported".to_string()));
    assert_eq!(xorshift(1), 270369);
    assert_ne!(xorshift(123456789), 0);
}

#[test]
fn echo_request_round_trip() {
    let datagram = echo_request_packet(host(), 0x1234, 7);
    let ip = parse_ipv4(&datagram).unwrap();
    assert_eq!(ip.protocol, 1);
    let msg = parse_icmp(&ip.payload).unwrap();
    assert_eq!(msg.icmp_type, IcmpType::EchoRequest);
    assert_eq!(msg.payload, vec![0x12, 0x34, 0x00, 0x07]);
    let ts = timestamp_request_packet(host(), 1, 2);
    let ts_msg = parse_icmp(&parse_ipv4(&ts).unwrap().payload).unwrap();
    assert_eq!(ts_msg.icmp_type, IcmpType::TimestampRequest);
    assert_eq!(ts_msg.payload.len(), 16);
}

#[test]
fn echo_and_timestamp_replies() {
    let reply = icmp_reply(IcmpType::EchoReply, 0, vec![0x12, 0x34, 0x00, 0x07]);
    assert!(read_echo_reply(&reply, 7));
    assert!(!read_echo_reply(&reply, 8));
    assert!(!read_timestamp_reply(&reply));
    let ts = icmp_reply(IcmpType::TimestampReply, 0, vec![0; 16]);
    assert!(read_timestamp_reply(&ts));
    assert!(!read_echo_reply(&[0u8; 10], 7));
}

#[test]
fn discovery_results() {
    let ip = IpAddr::V4(host());
    let up = echo_result(ip, Some(1500));
    assert!(up.is_alive);
    assert_eq!(up.rtt, Some(1500));
    assert_eq!(up.info, Some("ICMP Echo Reply received".to_string()));
    let down = timestamp_result(ip, None);
    assert!(!down.is_alive);
    assert_eq!(down.method, DiscoveryMethod::IcmpTimestamp);
    assert_eq!(down.info, Some("No ICMP Timestamp Reply".to_string()));
    let failed = failed_discovery(ip);
    assert_eq!(failed.info, Some("Discovery failed".to_string()));
    let arp = ArpDiscovery::new(2000).unwrap().discover(ip).unwrap();
    assert!(!arp.is_alive);
    assert_eq!(arp.method, DiscoveryMethod::ArpRequest);
    assert_eq!(DiscoveryMethod::TcpSyn.to_string(), "TCP SYN");
}

#[test]
fn request_targets() {
    assert_eq!(request_target(IpAddr::V4(host()), true), Ok(host()));
    let v6 = IpAddr::V6(Ipv6Addr { segments: [0, 0, 0, 0, 0, 0, 0, 1] });
    assert_eq!(
        request_target(v6, true),
        Err(Error::InvalidInput("IPv6 not yet supported for ICMP discovery".to_string()))
    );
    assert_eq!(request_target(v6, false), Err(Error::InvalidInput("IPv6 not yet supported".to_string())));
}

#[test]
fn discovery_method_plan() {
    let config = DiscoveryConfig::default();
    assert_eq!(
        methods_for(&config),
        vec![DiscoveryMethod::IcmpEcho, DiscoveryMethod::ArpRequest, DiscoveryMethod::TcpSyn]
    );
    let mut no_ports = DiscoveryConfig::default();
    no_ports.tcp_ports.clear();
    no_ports.use_icmp = false;
    assert_eq!(methods_for(&no_ports), vec![DiscoveryMethod::ArpRequest]);
}

#[test]
fn syn_ack_from_the_scanned_port_shows_it_open() {
    let syn_ack = TcpFlags { syn: true, ack: true, ..TcpFlags::new() };
    let reply = tcp_reply(80, 40000, syn_ack, 29200);
    let state = read_reply(ProbeKind::Syn, &reply, 40000);
    assert_eq!(state, Some(PortState::Open));
    let port = Port::new(80).unwrap();
    let r = ProbeKind::Syn.scan_result(IpAddr::V4(host()), port, state.map(|s| (s, 120)));
    assert_eq!(r.state, PortState::Open);
    assert!(r.rtt.is_some());
    assert_eq!(r.port, port);
    assert_eq!(r.protocol, Protocol::Tcp);
    let rst = tcp_reply(80, 40000, TcpFlags::rst(), 0);
    assert_eq!(read_reply(ProbeKind::Syn, &rst, 40000), Some(PortState::Closed));
    // A segment addressed to another port says nothing of this probe.
    assert_eq!(read_reply(ProbeKind::Syn, &reply, 40001), None);
}
