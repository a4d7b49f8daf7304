use apexscan::addr::{IpAddr, Ipv4Addr};
use apexscan::output::csv::format_csv;
use apexscan::output::grepable::{format_grepable, format_host_grepable};
use apexscan::output::xml::format_xml;
use apexscan::output::{OutputFormat, ReportTimes};
use apexscan::scan::{HostResult, PortResult, ScanConfig, ScanResults};
use apexscan::types::{HostState, Port, PortState, Protocol, Target};

fn port(n: u16, service: Option<&str>, version: Option<&str>) -> PortResult {
    PortResult {
        port: Port::new(n).unwrap(),
        protocol: Protocol::Tcp,
        state: PortState::Open,
        service: service.map(|s| s.to_string()),
        version: version.map(|s| s.to_string()),
        extra_info: None,
        confidence: 90,
        patch_level: None,
        security_posture: None,
        impact_score: None,
        cve_ids: None,
    }
}

fn times() -> ReportTimes {
    ReportTimes {
        started_text: "2024-01-01 00:00:00 UTC".to_string(),
        ended_text: "2024-01-01 00:00:05 UTC".to_string(),
        finished_secs: 1704067205,
        finished_text: "Mon Jan  1 00:00:05 2024".to_string(),
        elapsed_text: "5.00".to_string(),
    }
}

#[test]
fn test_grepable_format() {
    let mut results = ScanResults::new(ScanConfig::default());

    let mut host = HostResult::new(Target::new(IpAddr::V4(Ipv4Addr::new(192, 168, 1, 1))));
    host.state = HostState::Up;

    let port_result = port(80, Some("http"), Some("Apache 2.4"));

    host.ports.push(port_result);
    results.hosts.push(host);

    let output = format_grepable(&results, &times());

    assert!(output.contains("Host: 192.168.1.1"));
    assert!(output.contains("Status: Up"));
    assert!(output.contains("Ports: 80/open/tcp/http/Apache 2.4"));
}

#[test]
fn test_grepable_multiple_ports() {
    let mut host = HostResult::new(Target::new(IpAddr::V4(Ipv4Addr::new(10, 0, 0, 1))));
    host.state = HostState::Up;

    host.ports.push(port(22, Some("ssh"), None));
    host.ports.push(port(80, Some("http"), None));

    let line = format_host_grepable(&host);

    assert!(line.contains("22/open/tcp/ssh"));
    assert!(line.contains("80/open/tcp/http"));
    assert!(line.contains(", "));
}

#[test]
fn test_grepable_no_ports() {
    let host = HostResult::new(Target::new(IpAddr::V4(Ipv4Addr::new(10, 0, 0, 1))));

    let line = format_host_grepable(&host);

    assert!(line.contains("Host: 10.0.0.1"));
    assert!(line.contains("Status:"));
    assert!(!line.contains("Ports:"));
}

#[test]
fn grepable_exact_lines() {
    let mut host = HostResult::new(Target::new(IpAddr::V4(Ipv4Addr::new(10, 0, 0, 2))));
    host.state = HostState::Down;
    host.ports.push(port(22, Some("ssh"), Some("OpenSSH 8.2")));
    host.ports.push(port(25, None, None));
    assert_eq!(
        format_host_grepable(&host),
        "Host: 10.0.0.2\tStatus: Down\tPorts: 22/open/tcp/ssh/OpenSSH 8.2, 25/open/tcp/"
    );
    let mut results = ScanResults::new(ScanConfig::default());
    results.hosts.push(host);
    assert_eq!(
        format_grepable(&results, &times()),
        "# ApexScan grepable output\n# Command: apexscan\n# Scan started at: 2024-01-01 00:00:00 UTC\n\
         Host: 10.0.0.2\tStatus: Down\tPorts: 22/open/tcp/ssh/OpenSSH 8.2, 25/open/tcp/\n\
         # Scan finished at: 2024-01-01 00:00:05 UTC (5.00s elapsed)\n"
    );
}

#[test]
fn csv_rows_per_port() {
    let mut host = HostResult::new(Target::new(IpAddr::V4(Ipv4Addr::new(10, 0, 0, 3))));
    host.ports.push(port(443, Some("https"), Some("nginx")));
    host.ports.push(port(8080, None, None));
    let mut results = ScanResults::new(ScanConfig::default());
    results.hosts.push(host);
    let csv = format_csv(&results).unwrap();
    assert_eq!(
        csv,
        "IP Address,Port,Protocol,State,Service,Version\n10.0.0.3,443,TCP,open,https,nginx\n10.0.0.3,8080,TCP,open,unknown,\n"
    );
}

#[test]
fn xml_report_shape() {
    let mut host = HostResult::new(Target::new(IpAddr::V4(Ipv4Addr::new(10, 0, 0, 4))));
    host.state = HostState::Up;
    host.ports.push(port(22, Some("ssh"), None));
    let mut results = ScanResults::new(ScanConfig::default());
    results.hosts.push(host);
    let xml = format_xml(&results, &times()).unwrap();
    assert!(xml.starts_with("<?xml version=\"1.0\" encoding=\"UTF-8\"?>\n"));
    assert!(xml.contains("<address addr=\"10.0.0.4\" addrtype=\"ipv4\"/>"));
    assert!(xml.contains("<port protocol=\"tcp\" portid=\"22\">"));
    assert!(xml.ends_with("</nmaprun>\n"));
}

#[test]
fn output_format_names() {
    assert!(matches!(OutputFormat::from_str("json"), Some(OutputFormat::Json)));
    assert!(matches!(OutputFormat::from_str("XML"), Some(OutputFormat::Xml)));
    assert!(OutputFormat::from_str("yaml").is_none());
}

#[test]
fn grepable_line_names_the_host() {
    let mut results = ScanResults::new(ScanConfig::default());
    let mut host = HostResult::new(
        Target::new(IpAddr::V4(Ipv4Addr::new(192, 168, 1, 1))).with_hostname("router".to_string()),
    );
    host.state = HostState::Up;
    assert_eq!(format_host_grepable(&host), "Host: 192.168.1.1 (router)\tStatus: Up");
    results.hosts = vec![host];
    assert!(format_grepable(&results, &times()).contains("Host: 192.168.1.1 (router)\tStatus: Up"));
}
