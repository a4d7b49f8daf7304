use apexscan::net::ports::{top_100, top_1000};
use apexscan::addr::{IpAddr, Ipv4Addr, Ipv6Addr};
use apexscan::error::Error;
use apexscan::net::{expand_ipv4_cidr, parse_cidr, parse_port_range};
use apexscan::text::chars_of;
use apexscan::addr::parse_ip_text;

#[test]
fn test_parse_port_range() {
    let ports = parse_port_range("80").unwrap();
    assert_eq!(ports.len(), 1);
    assert_eq!(ports[0].value(), 80);

    let ports = parse_port_range("80,443,8080").unwrap();
    assert_eq!(ports.len(), 3);

    let ports = parse_port_range("1-10").unwrap();
    assert_eq!(ports.len(), 10);

    let ports = parse_port_range("80,443,8000-8010").unwrap();
    assert_eq!(ports.len(), 13);
}

#[test]
fn port_range_values_in_order() {
    let ports = parse_port_range("22,80,1-3").unwrap();
    let values: Vec<u16> = ports.iter().map(|p| p.value()).collect();
    assert_eq!(values, vec![22, 80, 1, 2, 3]);
}

#[test]
fn port_range_errors() {
    assert!(matches!(parse_port_range("abc"), Err(Error::InvalidInput(_))));
    assert!(matches!(parse_port_range("0"), Err(Error::InvalidInput(_))));
    assert!(matches!(parse_port_range("10-5"), Err(Error::InvalidInput(_))));
    assert!(matches!(parse_port_range("70000"), Err(Error::InvalidInput(_))));
}

#[test]
fn port_range_rejects_zero_and_spaces() {
    assert!(matches!(parse_port_range("0-2"), Err(Error::InvalidInput(_))));
    assert!(matches!(parse_port_range("22, 80"), Err(Error::InvalidInput(_))));
    assert!(matches!(parse_port_range("1-2-3"), Err(Error::InvalidInput(_))));
}

#[test]
fn port_range_error_message() {
    let e = parse_port_range("x").unwrap_err();
    assert_eq!(e.message(), "Invalid input: Invalid port: invalid digit found in string");
}

#[test]
fn test_parse_cidr() {
    let ips = parse_cidr("192.168.1.0/30").unwrap();
    assert_eq!(ips.len(), 4);

    let ips = parse_cidr("10.0.0.0/24").unwrap();
    assert_eq!(ips.len(), 256);
}

#[test]
fn cidr_addresses_are_the_block() {
    let ips = parse_cidr("192.168.1.77/30").unwrap();
    assert_eq!(ips[0], IpAddr::V4(Ipv4Addr::new(192, 168, 1, 76)));
    assert_eq!(ips[3], IpAddr::V4(Ipv4Addr::new(192, 168, 1, 79)));
    let one = parse_cidr("10.1.2.3/32").unwrap();
    assert_eq!(one, vec![IpAddr::V4(Ipv4Addr::new(10, 1, 2, 3))]);
}

#[test]
fn cidr_errors() {
    assert!(matches!(parse_cidr("10.0.0.0"), Err(Error::InvalidInput(_))));
    assert!(matches!(parse_cidr("10.0.0.300/24"), Err(Error::InvalidInput(_))));
    assert!(matches!(parse_cidr("10.0.0.0/33"), Err(Error::InvalidInput(_))));
    assert!(matches!(parse_cidr("10.0.0.0/x"), Err(Error::InvalidInput(_))));
}

#[test]
fn cidr_ipv6_gives_the_address() {
    let ips = parse_cidr("::1/64").unwrap();
    assert_eq!(ips.len(), 1);
    assert_eq!(ips[0], IpAddr::V6(Ipv6Addr { segments: [0, 0, 0, 0, 0, 0, 0, 1] }));
}

#[test]
fn expand_small_block() {
    let ips = expand_ipv4_cidr(Ipv4Addr::new(172, 16, 0, 9), 31).unwrap();
    assert_eq!(ips, vec![
        IpAddr::V4(Ipv4Addr::new(172, 16, 0, 8)),
        IpAddr::V4(Ipv4Addr::new(172, 16, 0, 9)),
    ]);
}

#[test]
fn ip_text_parsing_and_display() {
    let ip = parse_ip_text(&chars_of("192.168.0.254")).unwrap();
    assert_eq!(ip.to_string(), "192.168.0.254");
    let v6 = parse_ip_text(&chars_of("2001:db8::1")).unwrap();
    assert_eq!(v6.to_string(), "2001:db8::1");
    let v6b = parse_ip_text(&chars_of("fe80:0:0:1:0:0:0:2")).unwrap();
    assert_eq!(v6b.to_string(), "fe80:0:0:1::2");
    assert!(parse_ip_text(&chars_of("1.2.3")).is_none());
    assert!(parse_ip_text(&chars_of("01.2.3.4")).is_none());
}

#[test]
fn ipv4_u32_roundtrip() {
    let ip = Ipv4Addr::new(10, 20, 30, 40);
    assert_eq!(ip.to_u32(), 0x0a141e28);
    assert_eq!(Ipv4Addr::from_u32(ip.to_u32()), ip);
}

#[test]
fn address_text_reads_back() {
    let v4 = [
        Ipv4Addr::new(0, 0, 0, 0),
        Ipv4Addr::new(255, 255, 255, 255),
        Ipv4Addr::new(10, 0, 100, 9),
        Ipv4Addr::new(1, 20, 199, 250),
    ];
    for a in v4 {
        let ip = IpAddr::V4(a);
        assert_eq!(parse_ip_text(&chars_of(&ip.to_string())), Some(ip));
    }
    let v6 = [
        [0, 0, 0, 0, 0, 0, 0, 0],
        [0, 0, 0, 0, 0, 0, 0, 1],
        [0x2001, 0xdb8, 0, 0, 1, 0, 0, 1],
        [0xfe80, 0, 0, 0, 0x1ff, 0xfe23, 0x4567, 0x890a],
        [0, 0, 0, 0, 0, 0xffff, 0xc0a8, 0x0101],
        [1, 2, 3, 4, 5, 6, 7, 8],
        [1, 0, 2, 0, 3, 0, 4, 0],
    ];
    for segments in v6 {
        let ip = IpAddr::V6(Ipv6Addr { segments });
        assert_eq!(parse_ip_text(&chars_of(&ip.to_string())), Some(ip));
    }
    assert_eq!(IpAddr::V6(Ipv6Addr { segments: [0, 0, 0, 0, 0, 0xffff, 0xc0a8, 0x0101] }).to_string(), "::ffff:192.168.1.1");
    assert_eq!(IpAddr::V6(Ipv6Addr { segments: [0x2001, 0xdb8, 0, 0, 1, 0, 0, 1] }).to_string(), "2001:db8::1:0:0:1");
}

#[test]
fn top_port_lists_hold_distinct_common_ports() {
    let t100: Vec<u16> = top_100().iter().map(|p| p.value()).collect();
    assert_eq!(t100.len(), 100);
    let set100: std::collections::HashSet<u16> = t100.iter().copied().collect();
    assert_eq!(set100.len(), 100);
    assert!(!t100.contains(&0));
    for p in [21, 22, 23, 25, 53, 80, 110, 111, 135, 139, 143, 443, 445, 993, 995, 1723, 3306, 3389, 5900, 8080] {
        assert!(t100.contains(&p));
    }
    let t1000: Vec<u16> = top_1000().iter().map(|p| p.value()).collect();
    assert_eq!(t1000.len(), 1000);
    let set1000: std::collections::HashSet<u16> = t1000.iter().copied().collect();
    assert_eq!(set1000.len(), 1000);
    assert!(!t1000.contains(&0));
    assert_eq!(&t1000[..100], &t100[..]);
    // After the top hundred come the lowest-numbered other ports.
    assert_eq!(&t1000[100..105], &[1, 2, 3, 4, 5]);
    assert_eq!(t1000[999], 942);
}
