use apexscan::addr::{IpAddr, Ipv4Addr};
use apexscan::cli::{listed_scripts, output_format_or_console, parse_ports, parse_timing, run_scan_config, scan_type_of, ScanRequest};
use apexscan::fingerprint::avm::CveDatabase;
use apexscan::fingerprint::ServiceInfo;
use apexscan::output::OutputFormat;
use apexscan::pipeline::{
    chained_label, chained_script_context, create_scan_config, elapsed_ms, enrich_port, host_stages, keep_reported_ports,
    needs_detection,
    parse_targets, posture_of, script_context_for, script_path, select_scripts_for_port, PipelineConfig,
};
use apexscan::scan::{PortResult, ScanType, Timestamp};
use apexscan::types::{Port, PortState, Protocol, TimingTemplate};

fn request() -> ScanRequest {
    ScanRequest {
        connect_scan: false,
        udp_scan: false,
        null_scan: false,
        fin_scan: false,
        xmas_scan: false,
        ack_scan: false,
        window_scan: false,
        maimon_scan: false,
        ports: "22,80".to_string(),
        os_detection: false,
        version_detection: true,
        script_scan: false,
        scripts: vec![],
        aggressive: false,
        timing: None,
    }
}

#[test]
fn scan_type_follows_first_flag() {
    let mut r = request();
    assert_eq!(scan_type_of(&r), ScanType::TcpSyn);
    r.xmas_scan = true;
    r.maimon_scan = true;
    assert_eq!(scan_type_of(&r), ScanType::TcpXmas);
    r.udp_scan = true;
    assert_eq!(scan_type_of(&r), ScanType::Udp);
}

#[test]
fn run_config_from_request() {
    let mut r = request();
    r.aggressive = true;
    r.timing = Some(TimingTemplate::T4);
    let c = run_scan_config(&r).unwrap();
    assert_eq!(c.ports.iter().map(|p| p.value()).collect::<Vec<_>>(), vec![22, 80]);
    assert!(c.os_detection && c.version_detection && c.script_scan);
    assert_eq!(c.timing, TimingTemplate::T4);
    assert_eq!(c.max_concurrent_hosts, 10);
    let plain = run_scan_config(&request()).unwrap();
    assert_eq!(plain.timing, TimingTemplate::T3);
    assert!(!plain.os_detection && plain.version_detection);
    let mut bad = request();
    bad.ports = "0".to_string();
    assert_eq!(
        run_scan_config(&bad).unwrap_err(),
        "Invalid port specification: Invalid input: Invalid port: 0"
    );
}

#[test]
fn named_port_sets() {
    assert_eq!(parse_ports("top100").unwrap().len(), 100);
    assert_eq!(parse_ports("top1000").unwrap().len(), 1000);
    let all = parse_ports("all").unwrap();
    assert_eq!(all.len(), 65535);
    assert_eq!(all[0].value(), 1);
    assert_eq!(all[65534].value(), 65535);
    assert!(parse_ports("x").unwrap_err().starts_with("Invalid port specification: "));
}

#[test]
fn timing_digits() {
    assert_eq!(parse_timing("0"), Ok(TimingTemplate::T0));
    assert_eq!(parse_timing("5"), Ok(TimingTemplate::T5));
    assert_eq!(parse_timing("6"), Err("Invalid timing template: 6 (must be 0-5)".to_string()));
}

#[test]
fn output_format_fallback() {
    assert_eq!(output_format_or_console("CSV"), OutputFormat::Csv);
    assert_eq!(output_format_or_console("grep"), OutputFormat::Grepable);
    assert_eq!(output_format_or_console("pdf"), OutputFormat::Console);
}

#[test]
fn script_listing_filters_by_category() {
    let all = listed_scripts(None);
    assert_eq!(all.len(), 3);
    let vuln = listed_scripts(Some("vuln"));
    assert_eq!(vuln.len(), 1);
    assert_eq!(vuln[0].0, "ftp-anon");
    assert_eq!(listed_scripts(Some("safe")).len(), 2);
}

#[test]
fn targets_expand() {
    let ips = parse_targets(&vec!["10.0.0.0/31".to_string(), "192.168.1.5".to_string()]).unwrap();
    assert_eq!(
        ips,
        vec![
            IpAddr::V4(Ipv4Addr::new(10, 0, 0, 0)),
            IpAddr::V4(Ipv4Addr::new(10, 0, 0, 1)),
            IpAddr::V4(Ipv4Addr::new(192, 168, 1, 5)),
        ]
    );
    let e = parse_targets(&vec!["example.com".to_string()]).unwrap_err();
    assert_eq!(e.message(), "Invalid input: Invalid IP address: example.com");
}

fn probed(n: u16, state: PortState) -> PortResult {
    PortResult::probed(Port::new(n).unwrap(), Protocol::Tcp, state)
}

#[test]
fn reported_ports_keep_order() {
    let kept = keep_reported_ports(vec![
        probed(1, PortState::Closed),
        probed(2, PortState::Open),
        probed(3, PortState::Filtered),
        probed(4, PortState::Unknown),
        probed(5, PortState::OpenFiltered),
    ]);
    let ports: Vec<u16> = kept.iter().map(|p| p.port.value()).collect();
    assert_eq!(ports, vec![2, 3, 5]);
}

#[test]
fn posture_thresholds() {
    assert_eq!(posture_of(81), "Strong");
    assert_eq!(posture_of(80), "Moderate");
    assert_eq!(posture_of(41), "Weak");
    assert_eq!(posture_of(40), "Poor");
}

fn service(name: Option<&str>, version: Option<&str>, banner: &str) -> ServiceInfo {
    ServiceInfo {
        port: 80,
        protocol: "tcp".to_string(),
        service_name: name.map(|s| s.to_string()),
        version: version.map(|s| s.to_string()),
        product: None,
        extra_info: None,
        banner: banner.to_string(),
        confidence: 90,
    }
}

#[test]
fn enrich_web_port_with_vulnerabilities() {
    let db = CveDatabase::load_mock();
    let info = service(Some("http"), Some("Apache 2.4.49"), "HTTP/1.1 200 OK\r\nServer: Apache/2.4.49\r\n");
    let p = enrich_port(probed(80, PortState::Open), &info, &db);
    assert_eq!(p.service, Some("http".to_string()));
    assert_eq!(p.extra_info, Some("HTTP/1.1 200 OK\r\nServer: Apache/2.4.49\r\n".to_string()));
    assert_eq!(p.confidence, 90);
    assert_eq!(p.security_posture, Some("Weak".to_string()));
    assert!(p.patch_level.is_some());
}

#[test]
fn enrich_other_port_without_profile() {
    let db = CveDatabase::load_mock();
    let info = service(Some("ssh"), None, "SSH-2.0-Foo");
    let p = enrich_port(probed(22, PortState::Open), &info, &db);
    assert!(p.patch_level.is_none());
    assert!(p.security_posture.is_none());
}

fn config(scripts: Vec<String>) -> PipelineConfig {
    PipelineConfig {
        scan_type: ScanType::TcpConnect,
        ports: vec![Port::new(21).unwrap(), Port::new(8443).unwrap()],
        os_detection: false,
        version_detection: false,
        script_scan: true,
        scripts,
        timing: TimingTemplate::T2,
        max_concurrent_hosts: 10,
    }
}

#[test]
fn scripts_chosen_per_port() {
    let c = config(vec![]);
    assert_eq!(select_scripts_for_port(&c, &probed(21, PortState::Open)), vec!["ftp-anon".to_string()]);
    assert_eq!(select_scripts_for_port(&c, &probed(8443, PortState::Open)), vec!["http-title".to_string()]);
    assert!(select_scripts_for_port(&c, &probed(25, PortState::Open)).is_empty());
    let chosen = config(vec!["x".to_string()]);
    assert_eq!(select_scripts_for_port(&chosen, &probed(21, PortState::Open)), vec!["x".to_string()]);
}

#[test]
fn scan_config_of_a_run() {
    let s = create_scan_config(&config(vec!["a".to_string()]));
    assert_eq!(s.scan_type, ScanType::TcpConnect);
    assert_eq!(s.ports.len(), 2);
    assert_eq!(s.timeout, 2000);
    assert_eq!(s.max_retries, 2);
    assert!(s.targets.is_empty());
}

#[test]
fn script_contexts_and_names() {
    let ip = IpAddr::V4(Ipv4Addr::new(10, 1, 1, 1));
    let mut p = probed(22, PortState::Open);
    p.service = Some("ssh".to_string());
    let ctx = script_context_for(ip, &p);
    assert_eq!(ctx.target_ip, "10.1.1.1");
    assert_eq!(ctx.target_port, Some(22));
    assert_eq!(ctx.service_name, Some("ssh".to_string()));
    let chained = chained_script_context(ip, 22, &vec![p.clone()]);
    assert_eq!(chained.service_name, Some("ssh".to_string()));
    let missing = chained_script_context(ip, 23, &vec![p]);
    assert_eq!(missing.target_port, Some(23));
    assert_eq!(missing.service_name, None);
    assert_eq!(script_path("http-title"), "scripts/http-title.py");
    assert_eq!(chained_label("x"), "x [chained]");
}

#[test]
fn elapsed_milliseconds() {
    let a = Timestamp { secs: 100, nanos: 500_000_000 };
    let b = Timestamp { secs: 102, nanos: 250_000_000 };
    assert_eq!(elapsed_ms(a, b), 1750);
    assert_eq!(elapsed_ms(b, a), 0);
}

#[test]
fn host_stages_follow_switches_and_ports() {
    let mut config = PipelineConfig::default();
    config.version_detection = true;
    config.script_scan = true;
    let none: Vec<PortResult> = Vec::new();
    let s = host_stages(&config, &none);
    assert!(!s.detect_versions && !s.chain && !s.run_scripts && !s.detect_os);
    let open = PortResult::probed(Port::new(22).unwrap(), Protocol::Tcp, PortState::Open);
    let closed = PortResult::probed(Port::new(23).unwrap(), Protocol::Tcp, PortState::Closed);
    config.os_detection = true;
    let s = host_stages(&config, &vec![open.clone(), closed.clone()]);
    assert!(s.detect_versions && s.chain && s.run_scripts && s.detect_os);
    assert!(needs_detection(&open));
    assert!(!needs_detection(&closed));
}
