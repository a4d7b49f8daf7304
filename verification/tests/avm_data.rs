use apexscan::avm_data::{load_avm_data, lookup_all_avm, lookup_avm, AVMEntry};

#[test]
fn test_load_avm_data() {
    let data = load_avm_data();
    assert!(!data.is_empty());
    assert!(data.len() >= 5);
}

#[test]
fn test_apache_vulnerability_match() {
    let data = load_avm_data();
    let result = lookup_avm(&data, "Apache", "2.4.49");
    assert!(result.is_some());

    let entry = result.unwrap();
    assert_eq!(entry.impact_score, 98);
    assert!(entry.cve_ids.contains(&"CVE-2021-41773".to_string()));
}

#[test]
fn test_vsftpd_backdoor_match() {
    let data = load_avm_data();
    let result = lookup_avm(&data, "vsftpd", "2.3.4");
    assert!(result.is_some());

    let entry = result.unwrap();
    assert_eq!(entry.impact_score, 100);
    assert!(entry.cve_ids.contains(&"CVE-2011-2523".to_string()));
}

#[test]
fn test_openssh_vulnerability_match() {
    let data = load_avm_data();
    let result = lookup_avm(&data, "OpenSSH", "8.2");
    assert!(result.is_some());

    let entry = result.unwrap();
    assert_eq!(entry.impact_score, 81);
}

#[test]
fn test_no_match_safe_version() {
    let data = load_avm_data();
    let result = lookup_avm(&data, "Apache", "2.4.52");
    assert!(result.is_none());
}

#[test]
fn test_case_insensitive_service_match() {
    let data = load_avm_data();
    let result = lookup_avm(&data, "apache", "2.4.49");
    assert!(result.is_some());
}

#[test]
fn test_lookup_all_multiple_matches() {
    let data = load_avm_data();
    let results = lookup_all_avm(&data, "Apache httpd", "2.4.30");
    assert!(!results.is_empty());
}

#[test]
fn lookup_all_keeps_table_order() {
    let data = load_avm_data();
    let results = lookup_all_avm(&data, "Apache", "2.4.49");
    let scores: Vec<u16> = results.iter().map(|e| e.impact_score).collect();
    assert_eq!(scores, vec![98, 75]);
}

#[test]
fn entry_with_invalid_pattern_matches_as_text() {
    let e = AVMEntry::new("Demo".to_string(), "1.(".to_string(), 50, vec![]);
    assert!(e.matches("demo", "v1.(beta)"));
    assert!(!e.matches("demo", "1.2"));
    assert!(!e.matches("other", "1.("));
}

#[test]
fn entry_regex_is_applied() {
    let e = AVMEntry::new("OpenSSH".to_string(), "^8\\.[0-4]".to_string(), 81, vec![]);
    assert!(e.matches("openssh", "8.3p1"));
    assert!(!e.matches("openssh", "9.8"));
    assert!(!e.matches("openssh", "v8.3"));
}
