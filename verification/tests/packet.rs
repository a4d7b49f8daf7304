use apexscan::addr::Ipv4Addr;
use apexscan::packet::builders::{IcmpPacketBuilder, PacketBuilder, TcpPacketBuilder, UdpPacketBuilder};
use apexscan::packet::checksum::calculate_checksum;
use apexscan::packet::parsers::{parse_tcp, parse_udp};
use apexscan::packet::types::TcpFlags;

#[test]
fn test_checksum() {
    let data = vec![0x45, 0x00, 0x00, 0x3c, 0x1c, 0x46, 0x40, 0x00];
    let checksum = calculate_checksum(&data);
    assert_ne!(checksum, 0);
}

#[test]
fn test_checksum_odd_length() {
    let data = vec![0x45, 0x00, 0x00, 0x3c, 0x1c, 0x46, 0x40];
    let checksum = calculate_checksum(&data);
    assert_ne!(checksum, 0);
}

#[test]
fn checksum_exact_value() {
    // 0x4500 + 0x003c + 0x1c46 + 0x4000 = 0xa182; its complement is 0x5e7d.
    let data = vec![0x45, 0x00, 0x00, 0x3c, 0x1c, 0x46, 0x40, 0x00];
    assert_eq!(calculate_checksum(&data), 0x5e7d);
}

#[test]
fn checksum_with_carry_fold() {
    // 0xffff + 0x0001 = 0x10000, folded to 0x0001, complemented to 0xfffe.
    let data = vec![0xff, 0xff, 0x00, 0x01];
    assert_eq!(calculate_checksum(&data), 0xfffe);
}

#[test]
fn checksum_of_data_with_its_checksum_is_zero() {
    let mut data = vec![0x45, 0x00, 0x00, 0x3c, 0x1c, 0x46, 0x40, 0x00];
    let c = calculate_checksum(&data);
    data.push((c >> 8) as u8);
    data.push((c & 0xff) as u8);
    assert_eq!(calculate_checksum(&data), 0);
}

#[test]
fn test_tcp_syn_builder() {
    let builder = TcpPacketBuilder::new(
        Ipv4Addr::new(192, 168, 1, 1),
        Ipv4Addr::new(192, 168, 1, 2),
        12345,
        80,
    )
    .flags(TcpFlags::syn())
    .seq(1000);

    let packet = builder.build().unwrap();
    assert!(packet.len() >= 20);
}

#[test]
fn tcp_builder_roundtrips_through_parser() {
    let packet = TcpPacketBuilder::new(
        Ipv4Addr::new(10, 0, 0, 1),
        Ipv4Addr::new(10, 0, 0, 2),
        40000,
        443,
    )
    .flags(TcpFlags::syn())
    .seq(7)
    .window(1024)
    .build()
    .unwrap();
    assert_eq!(packet.len(), 20);
    let parsed = parse_tcp(&packet).unwrap();
    assert_eq!(parsed.src_port, 40000);
    assert_eq!(parsed.dst_port, 443);
    assert_eq!(parsed.seq, 7);
    assert_eq!(parsed.window, 1024);
    assert!(parsed.flags.syn);
    assert!(!parsed.flags.ack);
}

#[test]
fn test_icmp_echo_builder() {
    let builder = IcmpPacketBuilder::echo_request(1, 1);
    let packet = builder.build().unwrap();
    assert_eq!(packet.len(), 8);
    assert_eq!(packet[0], 8);
}

#[test]
fn icmp_echo_checksum_verifies() {
    let packet = IcmpPacketBuilder::echo_request(0x1234, 7).build().unwrap();
    assert_eq!(calculate_checksum(&packet), 0);
}

#[test]
fn test_udp_builder() {
    let builder = UdpPacketBuilder::new(
        Ipv4Addr::new(192, 168, 1, 1),
        Ipv4Addr::new(192, 168, 1, 2),
        12345,
        53,
    )
    .payload(vec![1, 2, 3, 4]);

    let packet = builder.build().unwrap();
    assert_eq!(packet.len(), 12);
}

#[test]
fn udp_builder_roundtrips_through_parser() {
    let packet = UdpPacketBuilder::new(
        Ipv4Addr::new(192, 168, 1, 1),
        Ipv4Addr::new(192, 168, 1, 2),
        12345,
        53,
    )
    .payload(vec![9, 8, 7])
    .build()
    .unwrap();
    let parsed = parse_udp(&packet).unwrap();
    assert_eq!(parsed.src_port, 12345);
    assert_eq!(parsed.dst_port, 53);
    assert_eq!(parsed.payload, vec![9, 8, 7]);
}

#[test]
fn test_parse_tcp() {
    let data = vec![
        0x00, 0x50, 0x30, 0x39, 0x00, 0x00, 0x00, 0x00, 0x00, 0x00, 0x00, 0x00, 0x50, 0x02, 0xFF,
        0xFF, 0x00, 0x00, 0x00, 0x00,
    ];

    let packet = parse_tcp(&data).unwrap();
    assert_eq!(packet.src_port, 80);
    assert_eq!(packet.dst_port, 12345);
    assert!(packet.flags.syn);
}

#[test]
fn parse_tcp_too_short() {
    let data = vec![0x00, 0x50, 0x30];
    assert!(parse_tcp(&data).is_err());
}

#[test]
fn tcp_flags_byte_roundtrip() {
    let f = TcpFlags::xmas();
    assert_eq!(TcpFlags::from_u8(f.to_u8()), f);
    assert_eq!(TcpFlags::syn().to_u8(), 0x02);
}

#[test]
fn checksum_of_no_bytes() {
    assert_eq!(calculate_checksum(&[]), 0xFFFF);
}

#[test]
fn largest_tcp_segment_builds_and_parses_back() {
    let payload = vec![0xffu8; 65515];
    let bytes = TcpPacketBuilder::new(Ipv4Addr::new(10, 0, 0, 1), Ipv4Addr::new(10, 0, 0, 2), 40000, 80)
        .flags(TcpFlags::syn())
        .seq(7)
        .payload(payload.clone())
        .build()
        .unwrap();
    assert_eq!(bytes.len(), 65535);
    let p = parse_tcp(&bytes).unwrap();
    assert_eq!((p.src_port, p.dst_port, p.seq), (40000, 80, 7));
    assert_eq!(p.payload, payload);
}
