use apexscan::addr::{IpAddr, Ipv4Addr};
use apexscan::chaining::engine::{ChainedTaskType, ChainingEngine};
use apexscan::chaining::matcher::{evaluate_condition, matches_rule};
use apexscan::chaining::{Action, ActionType, ChainConfig, Condition, ConditionOperator, RuleSet, RuleValue, ScanRule};
use apexscan::scan::PortResult;
use apexscan::types::{Port, PortState, Protocol};

/// The outcome of comparing a result's impact score with a condition's
/// threshold, as the scanner computes it before asking the matcher.
fn impact_verdict(port_result: &PortResult, condition: &Condition) -> bool {
    let impact = match port_result.impact_score {
        Some(tenths) => tenths as f64 / 10.0,
        None => return false,
    };
    let threshold = match condition.value.as_ref().map(|v| v.parse::<f64>()) {
        Some(Ok(t)) => t,
        _ => return false,
    };
    match condition.operator {
        ConditionOperator::GreaterThanOrEqual => impact >= threshold,
        ConditionOperator::Equals => (impact - threshold).abs() < 0.1,
        _ => false,
    }
}

fn http_result() -> PortResult {
    PortResult {
        port: Port::new(80).unwrap(),
        protocol: Protocol::Tcp,
        state: PortState::Open,
        service: Some("http".to_string()),
        version: None,
        extra_info: None,
        confidence: 90,
        patch_level: None,
        security_posture: None,
        impact_score: None,
        cve_ids: None,
    }
}

fn condition(field: &str, operator: ConditionOperator, value: Option<&str>) -> Condition {
    Condition { field: field.to_string(), operator, value: value.map(|v| v.to_string()), values: None }
}

#[test]
fn test_service_equals_condition() {
    let port_result = http_result();

    let condition = Condition {
        field: "service".to_string(),
        operator: ConditionOperator::Equals,
        value: Some("http".to_string()),
        values: None,
    };

    let verdict = impact_verdict(&port_result, &condition);
    assert!(evaluate_condition(&port_result, &condition, verdict));
}

#[test]
fn test_impact_score_gte_condition() {
    let port_result = PortResult {
        port: Port::new(22).unwrap(),
        protocol: Protocol::Tcp,
        state: PortState::Open,
        service: Some("ssh".to_string()),
        version: Some("OpenSSH 7.4".to_string()),
        extra_info: None,
        confidence: 90,
        patch_level: None,
        security_posture: None,
        impact_score: Some(98),
        cve_ids: Some(vec!["CVE-2023-38408".to_string()]),
    };

    let condition = Condition {
        field: "impact_score".to_string(),
        operator: ConditionOperator::GreaterThanOrEqual,
        value: Some("9.0".to_string()),
        values: None,
    };

    let verdict = impact_verdict(&port_result, &condition);
    assert!(evaluate_condition(&port_result, &condition, verdict));
}

#[test]
fn conditions_on_each_field() {
    let p = http_result();
    assert!(evaluate_condition(&p, &condition("service", ConditionOperator::Equals, Some("HTTP")), false));
    assert!(evaluate_condition(&p, &condition("service", ConditionOperator::Contains, Some("tt")), false));
    assert!(!evaluate_condition(&p, &condition("service", ConditionOperator::In, Some("http")), false));
    assert!(evaluate_condition(&p, &condition("port", ConditionOperator::Equals, Some("80")), false));
    assert!(!evaluate_condition(&p, &condition("port", ConditionOperator::Equals, Some("x")), false));
    assert!(evaluate_condition(&p, &condition("state", ConditionOperator::Equals, Some("Open")), false));
    assert!(!evaluate_condition(&p, &condition("nonsense", ConditionOperator::Equals, Some("x")), false));
    // A result without an impact score never meets an impact condition.
    assert!(!evaluate_condition(&p, &condition("impact_score", ConditionOperator::GreaterThanOrEqual, Some("1")), true));
    let listed = Condition {
        field: "port".to_string(),
        operator: ConditionOperator::In,
        value: None,
        values: Some(vec![RuleValue::Text("80".to_string()), RuleValue::Number(443), RuleValue::Number(80)]),
    };
    assert!(evaluate_condition(&p, &listed, false));
}

#[test]
fn posture_in_list() {
    let mut p = http_result();
    p.security_posture = Some("Weak".to_string());
    let c = Condition {
        field: "security_posture".to_string(),
        operator: ConditionOperator::In,
        value: None,
        values: Some(vec![RuleValue::Number(1), RuleValue::Text("weak".to_string())]),
    };
    assert!(evaluate_condition(&p, &c, false));
}

fn rule(name: &str, service: &str, script: &str) -> ScanRule {
    ScanRule {
        name: name.to_string(),
        description: None,
        conditions: vec![condition("service", ConditionOperator::Equals, Some(service))],
        actions: vec![Action {
            action_type: ActionType::RunScript,
            script: Some(script.to_string()),
            scan_type: None,
            level: None,
        }],
    }
}

#[test]
fn matches_rule_needs_every_condition() {
    let p = http_result();
    let mut r = rule("web", "http", "http-title");
    assert!(matches_rule(&p, &r, &vec![false]));
    r.conditions.push(condition("port", ConditionOperator::Equals, Some("8080")));
    assert!(!matches_rule(&p, &r, &vec![false, false]));
}

#[test]
fn engine_chains_up_to_depth_limit() {
    let rules = vec![rule("a", "http", "one"), rule("b", "ssh", "two"), rule("c", "http", "three")];
    let config = ChainConfig { enabled: true, max_depth: 1, timeout: 300, parallel: true, verbose_logging: false };
    let mut engine = ChainingEngine::from_rule_set(RuleSet { version: "1".to_string(), rules, config });
    let ip = IpAddr::V4(Ipv4Addr::new(10, 0, 0, 1));
    let verdicts = vec![vec![false], vec![false], vec![false]];
    assert!(engine.is_enabled());
    let tasks = engine.process_port_result(ip, &http_result(), &verdicts);
    assert_eq!(tasks.len(), 1);
    assert_eq!(tasks[0].rule_name, "a");
    assert_eq!(tasks[0].port, 80);
    assert!(matches!(&tasks[0].task_type, ChainedTaskType::RunScript { script_name } if script_name == "one"));
    // The limit is reached: nothing more is chained until the depth is reset.
    assert!(!engine.is_enabled());
    assert!(engine.process_port_result(ip, &http_result(), &verdicts).is_empty());
    engine.reset_depth();
    assert!(engine.is_enabled());
}

#[test]
fn engine_collects_every_matching_rule() {
    let rules = vec![rule("a", "http", "one"), rule("b", "ssh", "two"), rule("c", "http", "three")];
    let mut engine = ChainingEngine::from_rule_set(RuleSet {
        version: "1".to_string(),
        rules,
        config: ChainConfig::default(),
    });
    let verdicts = vec![vec![false], vec![false], vec![false]];
    let tasks = engine.process_port_result(IpAddr::V4(Ipv4Addr::new(10, 0, 0, 1)), &http_result(), &verdicts);
    let names: Vec<&str> = tasks.iter().map(|t| t.rule_name.as_str()).collect();
    assert_eq!(names, vec!["a", "c"]);
}

#[test]
fn disabled_engine_does_nothing() {
    let mut engine = ChainingEngine::disabled();
    assert!(!engine.is_enabled());
    assert!(engine.rules().is_empty());
    let tasks = engine.process_port_result(IpAddr::V4(Ipv4Addr::new(1, 1, 1, 1)), &http_result(), &vec![]);
    assert!(tasks.is_empty());
}
