use std::time::Duration;

use apexscan::fingerprint::avm::{CveDatabase, Severity, VersionRange};
use apexscan::fingerprint::banner::{extract_service_from_banner, extract_version_from_banner, BannerGrabber};
use apexscan::fingerprint::asset::{AssetProfile, TlsProfile};
use apexscan::fingerprint::cap::HttpProfile;
use apexscan::fingerprint::os::{OsDetector, TcpFingerprint};
use apexscan::fingerprint::service::ServiceDetector;
use apexscan::fingerprint::signatures::SignatureDatabase;

/// A CVSS score written as a decimal number, in the tenths the library takes.
fn tenths(score: f64) -> u16 {
    (score * 10.0).round() as u16
}

#[test]
fn test_version_range_matching() {
    let range = VersionRange {
        min_version: Some("2.4.0".to_string()),
        max_version: Some("2.4.50".to_string()),
        specific_versions: vec![],
    };

    assert!(range.matches("2.4.25"));
    assert!(range.matches("2.4.49"));
    assert!(!range.matches("2.4.51"));
    assert!(!range.matches("2.3.0"));
}

#[test]
fn version_range_bounds_and_specific_versions() {
    let range = VersionRange {
        min_version: Some("1.0".to_string()),
        max_version: Some("1.2".to_string()),
        specific_versions: vec![],
    };
    assert!(range.matches("1.0"));
    assert!(range.matches("1.1 beta"));
    assert!(!range.matches("1.3"));
    // The upper bound is exclusive, however it is written.
    assert!(!range.matches("1.2"));
    assert!(!range.matches("1.2.0"));
    assert!(range.matches("1.1.9"));
    let specific = VersionRange {
        min_version: None,
        max_version: None,
        specific_versions: vec!["2.3.4".to_string()],
    };
    assert!(specific.matches("vsftpd 2.3.4"));
    assert!(!specific.matches("2.3.5"));
    let open = VersionRange { min_version: None, max_version: None, specific_versions: vec![] };
    assert!(open.matches("anything"));
}

#[test]
fn version_comparisons() {
    assert!(VersionRange::version_gte("2.4.10", "2.4.9"));
    assert!(VersionRange::version_gte("2.4", "2.4.0"));
    assert!(VersionRange::version_lt("8.2p1", "8.3"));
    assert!(!VersionRange::version_lt("8.3", "8.3"));
    assert!(!VersionRange::version_lt("8.3.0", "8.3"));
}

#[test]
fn test_cve_database_query() {
    let db = CveDatabase::load_mock();

    let impact = db.query("apache", Some("2.4.49"));
    assert!(!impact.cves.is_empty());
    assert!(impact.score > 0);
}

#[test]
fn cve_query_details() {
    let db = CveDatabase::load_mock();
    let impact = db.query("Apache", Some("2.4.49"));
    assert_eq!(impact.score, tenths(9.8));
    assert_eq!(impact.max_severity, Severity::Critical);
    assert!(impact.cves.iter().any(|c| c.cve_id == "CVE-2021-41773"));
    let none = db.query("no-such-service", None);
    assert!(none.cves.is_empty());
    assert_eq!(none.score, 0);
    assert_eq!(none.max_severity, Severity::Info);
    assert_eq!(none.risk_assessment, "No known vulnerabilities");
    assert_eq!(none.colored_severity(), "\x1b[90mINFO\x1b[0m");
}

#[test]
fn test_severity_from_cvss() {
    assert_eq!(Severity::from_cvss(tenths(9.5)), Severity::Critical);
    assert_eq!(Severity::from_cvss(tenths(7.5)), Severity::High);
    assert_eq!(Severity::from_cvss(tenths(5.0)), Severity::Medium);
    assert_eq!(Severity::from_cvss(tenths(2.0)), Severity::Low);
}

#[test]
fn severity_thresholds() {
    assert_eq!(Severity::from_cvss(90), Severity::Critical);
    assert_eq!(Severity::from_cvss(89), Severity::High);
    assert_eq!(Severity::from_cvss(40), Severity::Medium);
    assert_eq!(Severity::from_cvss(0), Severity::Info);
    assert_eq!(Severity::High.to_string(), "HIGH");
}

#[test]
fn test_extract_service() {
    assert_eq!(
        extract_service_from_banner("SSH-2.0-OpenSSH_8.2p1", 22),
        Some("ssh".to_string())
    );
    assert_eq!(
        extract_service_from_banner("HTTP/1.1 200 OK\r\nServer: nginx", 80),
        Some("http".to_string())
    );
}

#[test]
fn extract_service_other_banners() {
    assert_eq!(extract_service_from_banner("220 ProFTPD 1.3.5 Server", 21), Some("ftp".to_string()));
    assert_eq!(extract_service_from_banner("hello", 9999), None);
}

#[test]
fn test_extract_version() {
    assert_eq!(
        extract_version_from_banner("SSH-2.0-OpenSSH_8.2p1 Ubuntu", "ssh"),
        Some("8.2p1".to_string())
    );
}

#[test]
fn extract_version_http_server() {
    assert_eq!(
        extract_version_from_banner("HTTP/1.1 200 OK\r\nServer: nginx/1.18.0\r\n", "http"),
        Some("nginx/1.18.0".to_string())
    );
    assert_eq!(
        extract_version_from_banner("220 ProFTPD 1.3.5 Server", "ftp"),
        Some("ProFTPD 1.3.5".to_string())
    );
    assert_eq!(extract_version_from_banner("SSH-2.0-dropbear", "ssh"), None);
}

#[test]
fn banner_from_bytes_is_lossy_and_trimmed() {
    let grabber = BannerGrabber::new(Duration::from_secs(2));
    let text = grabber.banner_from_bytes(&vec![b' ', b'o', b'k', 0xff, b'\n']).unwrap();
    assert_eq!(text, " ok\u{fffd}\n");
    assert!(grabber.banner_from_bytes(&vec![]).is_err());
    assert_eq!(grabber.timeout(), Duration::from_secs(2));
}

#[test]
fn test_guess_service() {
    let detector = ServiceDetector::new(Duration::from_secs(5));
    assert_eq!(detector.guess_service_by_port(22), Some("ssh".to_string()));
    assert_eq!(detector.guess_service_by_port(80), Some("http".to_string()));
}

#[test]
fn guess_service_unknown_port() {
    let detector = ServiceDetector::new(Duration::from_secs(5));
    assert_eq!(detector.guess_service_by_port(1), None);
}

#[test]
fn test_os_detection() {
    let detector = OsDetector::new();

    let linux_fp = TcpFingerprint {
        ttl: 64,
        window_size: 65535,
        ..Default::default()
    };

    let os_info = detector.analyze_fingerprint(&linux_fp);
    assert_eq!(os_info.os_family, Some("Unix".to_string()));

    let windows_fp = TcpFingerprint {
        ttl: 128,
        window_size: 8192,
        ..Default::default()
    };

    let os_info = detector.analyze_fingerprint(&windows_fp);
    assert_eq!(os_info.os_family, Some("Windows".to_string()));
}

#[test]
fn os_detection_names_and_confidence() {
    let detector = OsDetector::new();
    let fp = TcpFingerprint { ttl: 64, window_size: 65535, ..Default::default() };
    let info = detector.analyze_fingerprint(&fp);
    assert_eq!(info.os_name, "Linux");
    assert_eq!(info.confidence, 60);
    assert_eq!(info.details, vec!["TTL: 64 range".to_string(), "Window: 65535".to_string()]);
    let unknown = TcpFingerprint { ttl: 30, ..Default::default() };
    let info = detector.analyze_fingerprint(&unknown);
    assert_eq!(info.os_name, "Unknown");
    assert_eq!(info.os_family, None);
    assert_eq!(info.confidence, 10);
}

#[test]
fn test_http_profile_from_headers() {
    let headers = "Server: nginx/1.25.3\n\
                   X-Powered-By: PHP/8.2.0\n\
                   Strict-Transport-Security: max-age=31536000; includeSubDomains\n\
                   X-Frame-Options: SAMEORIGIN\n\
                   Content-Security-Policy: default-src 'self'";

    let profile = HttpProfile::from_headers(headers);

    assert_eq!(profile.server_version, Some("nginx/1.25.3".to_string()));
    assert_eq!(profile.powered_by, Some("PHP/8.2.0".to_string()));
    assert!(profile.security_headers.len() >= 3);
    assert!(profile.patch_level_confidence > 70);
}

#[test]
fn http_profile_confidence_exact() {
    let profile = HttpProfile::from_headers("Server: Apache/2.2.15\nX-Powered-By: ASP.NET");
    assert_eq!(profile.patch_level_confidence, 50);
    assert!(profile.security_headers.is_empty());
    assert_eq!(profile.infer_patch_level(), "Unknown patch level (mixed indicators)");
}

#[test]
fn signature_database_matches() {
    let db = SignatureDatabase::new();
    let sig = db.match_service("SSH-2.0-OpenSSH_8.9").unwrap();
    assert_eq!(sig.service, "ssh");
    assert!(db.match_service("zzz").is_none());
    let os = db.match_os(128, 8192).unwrap();
    assert_eq!(os.os_name, "Windows 10");
    assert!(db.match_os(128, 8193).is_none());
}

#[test]
fn test_asset_profile_risk_detection() {
    let headers = "Server: Apache/2.2.15\nX-Powered-By: ASP.NET";
    let http_profile = HttpProfile::from_headers(headers);

    let asset_profile = AssetProfile::new().with_http_profile(http_profile);

    assert!(!asset_profile.risk_indicators.is_empty());
}

#[test]
fn asset_posture_from_profiles() {
    let weak = AssetProfile::new().with_http_profile(HttpProfile::from_headers("Server: Apache/2.2.15\nX-Powered-By: ASP.NET"));
    assert_eq!(
        weak.risk_indicators,
        vec!["No security headers detected".to_string(), "Information disclosure via X-Powered-By".to_string()]
    );
    // (0.5 + 0.5) / 2 = 0.5
    assert_eq!(weak.security_posture, "Weak");
    let strong_headers = "Server: nginx\n\
                          Strict-Transport-Security: max-age=1; includeSubDomains\n\
                          X-Frame-Options: DENY\n\
                          X-Content-Type-Options: nosniff\n\
                          Content-Security-Policy: default-src 'self'";
    let good = AssetProfile::new().with_http_profile(HttpProfile::from_headers(strong_headers));
    assert!(good.risk_indicators.is_empty());
    // (0.5 + 0.95) / 2 = 0.725
    assert_eq!(good.security_posture, "Moderate");
    let with_tls = good.with_tls_profile(TlsProfile::placeholder());
    // (0.725 + 0.5) / 2 = 0.6125
    assert_eq!(with_tls.security_posture, "Moderate");
    let with_os = with_tls.with_os_inference("Linux".to_string(), 60);
    assert_eq!(with_os.os_inference, Some("Linux".to_string()));
    assert_eq!(with_os.os_confidence, 60);
    assert_eq!(AssetProfile::default().security_posture, "Unknown");
}

#[test]
fn version_range_upper_bound_is_exclusive() {
    let r = VersionRange {
        min_version: Some("2.4.0".to_string()),
        max_version: Some("2.4.50".to_string()),
        specific_versions: vec![],
    };
    assert!(!r.matches("2.4.50"));
    assert!(r.matches("2.4.0"));
    assert!(r.matches("2.4.49"));
}

#[test]
fn ascii_banner_comes_back_as_its_text() {
    let grabber = BannerGrabber::new(Duration::from_secs(1));
    let text = grabber.banner_from_bytes(&b"SSH-2.0-OpenSSH_8.9".to_vec()).unwrap();
    assert_eq!(text, "SSH-2.0-OpenSSH_8.9");
}

#[test]
fn header_names_in_capitals_are_read_in_lowercase() {
    let profile = HttpProfile::from_headers("SERVER: nginx/1.18.0\nX-Powered-By: PHP/7.4");
    assert_eq!(profile.server_version, Some("nginx/1.18.0".to_string()));
    assert_eq!(profile.powered_by, Some("PHP/7.4".to_string()));
}
