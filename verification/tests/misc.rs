use apexscan::output::OutputFormat;
use apexscan::addr::{IpAddr, Ipv4Addr};
use apexscan::error::Error;
use apexscan::output::console::{console_segments, host_result_segments, Paint, Segment};
use apexscan::scan::{HostResult, PortResult, ScanConfig, ScanResults};
use apexscan::scripting::{NseCompatibility, ScriptCategory, ScriptContext, ScriptResult};
use apexscan::text::to_lowercase;
use apexscan::types::{HostState, MacAddr, Port, PortState, Protocol, Target, TimingTemplate};

#[test]
fn error_messages() {
    assert_eq!(Error::Timeout.message(), "Operation timed out");
    assert_eq!(Error::Network("down".to_string()).message(), "Network error: down");
    assert_eq!(Error::Other("plain".to_string()).message(), "plain");
    assert_eq!(Error::Script("x".to_string()).message(), "Script error: x");
}

#[test]
fn lowercase_text() {
    assert_eq!(to_lowercase("HeLLo ÄÖ"), "hello äö");
}

#[test]
fn timing_templates_slow_down_to_speed_up() {
    assert_eq!(TimingTemplate::T0.base_rtt_timeout(), 5000);
    assert_eq!(TimingTemplate::T5.base_rtt_timeout(), 100);
    assert_eq!(TimingTemplate::T0.max_parallelism(), 1);
    assert_eq!(TimingTemplate::T4.max_parallelism(), 1000);
    assert_eq!(TimingTemplate::T2.scan_delay(), 400);
    assert_eq!(TimingTemplate::T3.scan_delay(), 0);
    assert_eq!(TimingTemplate::T3.to_string(), "T3 (Normal)");
}

#[test]
fn ports_are_never_zero() {
    assert!(Port::new(0).is_none());
    assert_eq!(Port::new(8080).unwrap().value(), 8080);
    assert_eq!(Port::new(8080).unwrap().to_string(), "8080");
}

#[test]
fn target_and_hardware_address_text() {
    let mac = MacAddr([0x00, 0x1a, 0x2b, 0x3c, 0x4d, 0xff]);
    assert_eq!(mac.to_string(), "00:1a:2b:3c:4d:ff");
    let t = Target::new(IpAddr::V4(Ipv4Addr::new(10, 0, 0, 1))).with_hostname("gw".to_string()).with_mac(mac);
    assert_eq!(t.to_string(), "gw (10.0.0.1)");
    assert_eq!(Target::new(IpAddr::V4(Ipv4Addr::new(10, 0, 0, 1))).to_string(), "10.0.0.1");
    assert_eq!(Protocol::Udp.to_string(), "UDP");
    assert_eq!(PortState::OpenFiltered.to_string(), "open|filtered");
    assert_eq!(HostState::Down.to_string(), "down");
}

#[test]
fn script_categories() {
    assert_eq!(ScriptCategory::from_str("VULN"), Some(ScriptCategory::Vuln));
    assert_eq!(ScriptCategory::from_str("nope"), None);
    assert_eq!(ScriptCategory::Broadcast.to_string(), "broadcast");
}

#[test]
fn script_context_builders() {
    let ctx = ScriptContext::new("10.0.0.1".to_string())
        .with_port(80)
        .with_service("http".to_string(), Some("1.0".to_string()))
        .with_os("Linux".to_string())
        .with_banner("hi".to_string());
    assert_eq!(ctx.target_port, Some(80));
    assert_eq!(ctx.service_name, Some("http".to_string()));
    assert_eq!(ctx.service_version, Some("1.0".to_string()));
    assert_eq!(ctx.os_name, Some("Linux".to_string()));
    assert_eq!(ctx.banner, Some("hi".to_string()));
}

#[test]
fn failed_script_and_nse_bridge() {
    let r = ScriptResult::failed("a.py", &Error::Script("boom".to_string()));
    assert!(!r.success);
    assert_eq!(r.error, Some("Script error: boom".to_string()));
    let nse = NseCompatibility::new();
    let converted = nse.convert_nse_to_python("-- lua").unwrap();
    assert!(converted.contains("def main(context):"));
    let ran = nse.execute_nse_script("x.nse", &ScriptContext::new("1.2.3.4".to_string())).unwrap();
    assert_eq!(ran.output, "NSE support pending");
    assert!(!ran.success);
}

fn port(n: u16, state: PortState) -> PortResult {
    PortResult::probed(Port::new(n).unwrap(), Protocol::Tcp, state)
}

#[test]
fn statistics_count_hosts_and_ports() {
    let mut results = ScanResults::new(ScanConfig::default());
    let mut a = HostResult::new(Target::new(IpAddr::V4(Ipv4Addr::new(10, 0, 0, 1))));
    a.state = HostState::Up;
    a.ports = vec![port(22, PortState::Open), port(23, PortState::Closed), port(24, PortState::OpenFiltered)];
    let mut b = HostResult::new(Target::new(IpAddr::V4(Ipv4Addr::new(10, 0, 0, 2))));
    b.state = HostState::Down;
    b.ports = vec![port(80, PortState::Filtered), port(81, PortState::Open)];
    assert_eq!(a.open_ports().len(), 1);
    assert_eq!(a.closed_ports().len(), 1);
    assert_eq!(b.filtered_ports().len(), 1);
    results.hosts = vec![a, b];
    results.calculate_stats();
    assert_eq!(results.stats.total_hosts, 2);
    assert_eq!(results.stats.hosts_up, 1);
    assert_eq!(results.stats.hosts_down, 1);
    assert_eq!(results.stats.open_ports, 2);
    assert_eq!(results.stats.closed_ports, 1);
    assert_eq!(results.stats.filtered_ports, 1);
    assert_eq!(results.stats.total_ports, 4);
}

fn text_of(segments: &[Segment]) -> String {
    let mut s = String::new();
    for seg in segments {
        match seg {
            Segment::Text(t, _) => s.push_str(t),
            Segment::RttMillis(us) => s.push_str(&format!("<{}us>", us)),
            Segment::Seconds(ms) => s.push_str(&format!("<{}ms>", ms)),
        }
    }
    s
}

#[test]
fn console_layout_of_a_host() {
    let mut h = HostResult::new(Target::new(IpAddr::V4(Ipv4Addr::new(10, 0, 0, 7))));
    h.state = HostState::Up;
    h.latency = Some(1234);
    let mut p = port(22, PortState::Open);
    p.service = Some("ssh".to_string());
    p.version = Some("OpenSSH 9".to_string());
    h.ports = vec![p, port(23, PortState::Closed)];
    let segs = host_result_segments(&h);
    let text = text_of(&segs);
    assert!(text.contains("10.0.0.7"));
    assert!(text.contains("UP"));
    assert!(text.contains("<1234us>"));
    assert!(text.contains("(1 open)"));
    assert!(text.contains("22/TCP"));
    assert!(text.contains("ssh"));
    assert!(text.contains(" (OpenSSH 9)"));
    assert!(!text.contains("23/TCP"));
    assert!(segs.iter().any(|s| matches!(s, Segment::Text(t, Paint::BrightGreenBold) if t == "UP")));
}

#[test]
fn console_report_summary() {
    let mut results = ScanResults::new(ScanConfig::default());
    results.duration = 2500;
    results.calculate_stats();
    let text = text_of(&console_segments(&results));
    assert!(text.contains("ApexScan v0.1.0 - Scan Complete"));
    assert!(text.contains("Total hosts:     0"));
    assert!(text.contains("<2500ms>"));
}

#[test]
fn category_and_format_names_in_any_case() {
    assert_eq!(ScriptCategory::from_str("VULN"), Some(ScriptCategory::Vuln));
    assert_eq!(ScriptCategory::from_str("Safe"), Some(ScriptCategory::Safe));
    assert_eq!(ScriptCategory::from_str("bogus"), None);
    assert_eq!(ScriptCategory::from_lowercase("discovery"), Some(ScriptCategory::Discovery));
    assert_eq!(ScriptCategory::from_lowercase("Discovery"), None);
    assert_eq!(OutputFormat::from_str("XML"), Some(OutputFormat::Xml));
    assert_eq!(OutputFormat::from_lowercase("grep"), Some(OutputFormat::Grepable));
    assert_eq!(OutputFormat::from_lowercase("JSON"), None);
}
