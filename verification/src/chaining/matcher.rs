//! Whether a port result meets the conditions of a rule.
//!
//! Impact scores are compared in floating point, which is done where the
//! rules are applied; the outcome of that comparison comes in here as a
//! verdict for each condition, and counts only for impact score conditions.

use vstd::prelude::*;
use crate::chaining::{Condition, ConditionOperator, RuleValue, ScanRule};
use crate::scan::PortResult;
use crate::text::{chars_of, contains, contains_exec, eq_str, lowercase, to_lowercase, parse_unsigned, parse_unsigned_exec,
    lemma_contains_at, decimal_chars, is_digit};
use crate::addr::lemma_decimal_chars_facts;
use crate::types::PortState;

verus! {

/// A port state's variant name, in lowercase.
pub open spec fn state_name(s: PortState) -> Seq<char> {
    match s {
        PortState::Open => "open"@,
        PortState::Closed => "closed"@,
        PortState::Filtered => "filtered"@,
        PortState::OpenFiltered => "openfiltered"@,
        PortState::ClosedFiltered => "closedfiltered"@,
        PortState::Unknown => "unknown"@,
    }
}

/// The two texts are the same in lowercase.
pub open spec fn same_lower(a: Seq<char>, b: Seq<char>) -> bool {
    lowercase(a) == lowercase(b)
}

/// A service condition: the name equals, or contains, the value, in
/// lowercase.
pub open spec fn service_holds(p: PortResult, c: Condition) -> bool {
    match (p.service, c.value) {
        (Some(s), Some(v)) => match c.operator {
            ConditionOperator::Equals => same_lower(s@, v@),
            ConditionOperator::Contains => contains(lowercase(s@), lowercase(v@)),
            _ => false,
        },
        _ => false,
    }
}

/// A listed value is a number that, modulo 65536, is the port.
pub open spec fn number_is(v: RuleValue, port: u16) -> bool {
    match v {
        RuleValue::Number(n) => n % 65536 == port,
        _ => false,
    }
}

/// A listed value is a string that is the text, in lowercase.
pub open spec fn text_is(v: RuleValue, s: Seq<char>) -> bool {
    match v {
        RuleValue::Text(t) => same_lower(s, t@),
        _ => false,
    }
}

/// One of the listed values is a number that, modulo 65536, is the port.
pub open spec fn port_listed(vs: Seq<RuleValue>, port: u16) -> bool {
    exists|k: int| 0 <= k < vs.len() && #[trigger] number_is(vs[k], port)
}

/// One of the listed values is a string that is the text, in lowercase.
pub open spec fn text_listed(vs: Seq<RuleValue>, s: Seq<char>) -> bool {
    exists|k: int| 0 <= k < vs.len() && #[trigger] text_is(vs[k], s)
}

/// A port condition: the port equals the value, or is one of the listed
/// numbers taken modulo 65536.
pub open spec fn port_holds(p: PortResult, c: Condition) -> bool {
    match c.operator {
        ConditionOperator::Equals => match c.value {
            Some(v) => parse_unsigned(v@, 65535) == Some(p.port@ as nat),
            None => false,
        },
        ConditionOperator::In => match c.values {
            Some(vs) => port_listed(vs@, p.port@),
            None => false,
        },
        _ => false,
    }
}

/// A state condition: the state's name equals the value, in lowercase.
pub open spec fn state_holds(p: PortResult, c: Condition) -> bool {
    match c.value {
        Some(v) => state_name(p.state) == lowercase(v@),
        None => false,
    }
}

/// A security posture condition: the posture equals the value, or one of
/// the listed strings, in lowercase.
pub open spec fn posture_holds(p: PortResult, c: Condition) -> bool {
    match p.security_posture {
        Some(s) => match c.operator {
            ConditionOperator::Equals => match c.value {
                Some(v) => same_lower(s@, v@),
                None => false,
            },
            ConditionOperator::In => match c.values {
                Some(vs) => text_listed(vs@, s@),
                None => false,
            },
            _ => false,
        },
        None => false,
    }
}

/// A condition holds of a port result; for an impact score condition, where
/// the result has a score, `impact_verdict` is the comparison's outcome.
pub open spec fn condition_holds(p: PortResult, c: Condition, impact_verdict: bool) -> bool {
    if c.field@ == "service"@ {
        service_holds(p, c)
    } else if c.field@ == "port"@ {
        port_holds(p, c)
    } else if c.field@ == "state"@ {
        state_holds(p, c)
    } else if c.field@ == "impact_score"@ {
        p.impact_score is Some && impact_verdict
    } else if c.field@ == "security_posture"@ {
        posture_holds(p, c)
    } else {
        false
    }
}

/// A service condition holds only of a port with a service name, against
/// a value: `Equals` exactly when the two are the same text in lowercase,
/// `Contains` exactly when the lowercase name holds the lowercase value, and
/// no other comparison. So an `Equals` that holds makes the `Contains` of
/// the same value hold too.
pub proof fn lemma_service_condition(p: PortResult, c: Condition, verdict: bool)
    requires
        c.field@ == "service"@,
    ensures
        condition_holds(p, c, verdict) ==> p.service is Some && c.value is Some,
        (p.service is Some && c.value is Some && c.operator == ConditionOperator::Equals)
            ==> (condition_holds(p, c, verdict) <==> lowercase(p.service.unwrap()@) == lowercase(c.value.unwrap()@)),
        (p.service is Some && c.value is Some && c.operator == ConditionOperator::Contains)
            ==> (condition_holds(p, c, verdict) <==> contains(lowercase(p.service.unwrap()@), lowercase(
                c.value.unwrap()@,
            ))),
        c.operator != ConditionOperator::Equals && c.operator != ConditionOperator::Contains
            ==> !condition_holds(p, c, verdict),
        (c.operator == ConditionOperator::Equals && condition_holds(p, c, verdict))
            ==> condition_holds(p, Condition { operator: ConditionOperator::Contains, ..c }, verdict),
{
    if c.operator == ConditionOperator::Equals && condition_holds(p, c, verdict) {
        let s = p.service.unwrap();
        let l = lowercase(s@);
        assert(l.subrange(0, l.len() as int) =~= l);
        lemma_contains_at(l, l, 0);
    }
}

/// A port condition `Equals` holds of a port written as its own decimal
/// number, and one that holds names the port's number.
pub proof fn lemma_port_condition_own_number(p: PortResult, c: Condition, verdict: bool)
    requires
        c.field@ == "port"@,
        c.operator == ConditionOperator::Equals,
        c.value is Some,
    ensures
        c.value.unwrap()@ == decimal_chars(p.port@ as nat) ==> condition_holds(p, c, verdict),
        condition_holds(p, c, verdict) ==> parse_unsigned(c.value.unwrap()@, 65535) == Some(p.port@ as nat),
{
    reveal_strlit("port");
    reveal_strlit("service");
    assert("port"@.len() == 4);
    assert("service"@.len() == 7);
    assert(c.field@ != "service"@);
    assert(condition_holds(p, c, verdict) == port_holds(p, c));
    let d = decimal_chars(p.port@ as nat);
    lemma_decimal_chars_facts(p.port@ as nat);
    assert(is_digit(d[0]));
}

/// A state condition holds of ports in one state only: two ports in
/// different states never both meet the same state condition, and one that
/// holds has the value, in lowercase, naming the port's state.
pub proof fn lemma_state_condition(p: PortResult, q: PortResult, c: Condition, verdict: bool)
    requires
        c.field@ == "state"@,
        p.state != q.state,
    ensures
        !(condition_holds(p, c, verdict) && condition_holds(q, c, verdict)),
        condition_holds(p, c, verdict) ==> c.value is Some && lowercase(c.value.unwrap()@) == state_name(p.state),
{
    reveal_strlit("state");
    reveal_strlit("port");
    reveal_strlit("service");
    reveal_strlit("open");
    reveal_strlit("closed");
    reveal_strlit("filtered");
    reveal_strlit("openfiltered");
    reveal_strlit("closedfiltered");
    reveal_strlit("unknown");
    assert(c.field@.len() == 5);
    assert(c.field@ != "service"@ && c.field@ != "port"@);
    assert(condition_holds(p, c, verdict) == state_holds(p, c));
    assert(condition_holds(q, c, verdict) == state_holds(q, c));
    assert(state_name(p.state) != state_name(q.state)) by {
        assert(state_name(p.state).len() != state_name(q.state).len());
    }
}

/// Every condition of a rule holds of a port result.
pub open spec fn rule_holds(p: PortResult, r: ScanRule, verdicts: Seq<bool>) -> bool {
    forall|k: int| 0 <= k < r.conditions@.len() ==> condition_holds(p, #[trigger] r.conditions@[k], verdicts[k])
}

fn same_lower_exec(a: &String, b: &String) -> (r: bool)
    ensures
        r == same_lower(a@, b@),
{
    let x = to_lowercase(a.as_str());
    let y = to_lowercase(b.as_str());
    x == y
}

fn service_condition(p: &PortResult, c: &Condition) -> (r: bool)
    ensures
        r == service_holds(*p, *c),
{
    match (&p.service, &c.value) {
        (Some(s), Some(v)) => match c.operator {
            ConditionOperator::Equals => same_lower_exec(s, v),
            ConditionOperator::Contains => {
                let x = to_lowercase(s.as_str());
                let y = to_lowercase(v.as_str());
                let xs = chars_of(x.as_str());
                let ys = chars_of(y.as_str());
                contains_exec(&xs, &ys)
            },
            _ => false,
        },
        _ => false,
    }
}

fn port_condition(p: &PortResult, c: &Condition) -> (r: bool)
    ensures
        r == port_holds(*p, *c),
{
    let port = p.port.value();
    match c.operator {
        ConditionOperator::Equals => match &c.value {
            Some(v) => {
                let t = chars_of(v.as_str());
                match parse_unsigned_exec(&t, 65535) {
                    Some(n) => n == port as u64,
                    None => false,
                }
            },
            None => false,
        },
        ConditionOperator::In => match &c.values {
            Some(vs) => {
                let mut k: usize = 0;
                while k < vs.len()
                    invariant
                        k <= vs@.len(),
                        port == p.port@,
                        c.values == Some(*vs),
                        c.operator == ConditionOperator::In,
                        forall|j: int| 0 <= j < k ==> !#[trigger] number_is(vs@[j], port),
                    decreases vs.len() - k,
                {
                    match &vs[k] {
                        RuleValue::Number(n) => {
                            if *n % 65536 == port as u64 {
                                assert(number_is(vs@[k as int], p.port@));
                                assert(c.values == Some(*vs));
                                assert(port_listed(vs@, p.port@));
                                return true;
                            }
                        },
                        _ => {},
                    }
                    k = k + 1;
                }
                false
            },
            None => false,
        },
        _ => false,
    }
}

fn state_condition(p: &PortResult, c: &Condition) -> (r: bool)
    ensures
        r == state_holds(*p, *c),
{
    match &c.value {
        Some(v) => {
            let lower = to_lowercase(v.as_str());
            let lv = chars_of(lower.as_str());
            match p.state {
                PortState::Open => eq_str(&lv, "open"),
                PortState::Closed => eq_str(&lv, "closed"),
                PortState::Filtered => eq_str(&lv, "filtered"),
                PortState::OpenFiltered => eq_str(&lv, "openfiltered"),
                PortState::ClosedFiltered => eq_str(&lv, "closedfiltered"),
                PortState::Unknown => eq_str(&lv, "unknown"),
            }
        },
        None => false,
    }
}

fn posture_condition(p: &PortResult, c: &Condition) -> (r: bool)
    ensures
        r == posture_holds(*p, *c),
{
    match &p.security_posture {
        Some(s) => match c.operator {
            ConditionOperator::Equals => match &c.value {
                Some(v) => same_lower_exec(s, v),
                None => false,
            },
            ConditionOperator::In => match &c.values {
                Some(vs) => {
                    let mut k: usize = 0;
                    while k < vs.len()
                        invariant
                            k <= vs@.len(),
                            c.values == Some(*vs),
                            c.operator == ConditionOperator::In,
                            p.security_posture == Some(*s),
                            forall|j: int| 0 <= j < k ==> !#[trigger] text_is(vs@[j], s@),
                        decreases vs.len() - k,
                    {
                        match &vs[k] {
                            RuleValue::Text(t) => {
                                if same_lower_exec(s, t) {
                                    assert(text_is(vs@[k as int], s@));
                                    assert(c.values == Some(*vs));
                                    assert(p.security_posture == Some(*s));
                                    assert(text_listed(vs@, s@));
                                    return true;
                                }
                            },
                            _ => {},
                        }
                        k = k + 1;
                    }
                    false
                },
                None => false,
            },
            _ => false,
        },
        None => false,
    }
}

/// Whether a condition holds of a port result; `impact_verdict` is the
/// outcome of comparing the impact score, used for impact score conditions
/// of results that have a score.
pub fn evaluate_condition(port_result: &PortResult, condition: &Condition, impact_verdict: bool) -> (r: bool)
    ensures
        r == condition_holds(*port_result, *condition, impact_verdict),
{
    let f = chars_of(condition.field.as_str());
    if eq_str(&f, "service") {
        service_condition(port_result, condition)
    } else if eq_str(&f, "port") {
        port_condition(port_result, condition)
    } else if eq_str(&f, "state") {
        state_condition(port_result, condition)
    } else if eq_str(&f, "impact_score") {
        port_result.impact_score.is_some() && impact_verdict
    } else if eq_str(&f, "security_posture") {
        posture_condition(port_result, condition)
    } else {
        false
    }
}

/// Whether every condition of a rule holds; `impact_verdicts` holds one
/// impact comparison outcome per condition.
pub fn matches_rule(port_result: &PortResult, rule: &ScanRule, impact_verdicts: &Vec<bool>) -> (r: bool)
    requires
        impact_verdicts@.len() >= rule.conditions@.len(),
    ensures
        r == rule_holds(*port_result, *rule, impact_verdicts@),
{
    let mut k: usize = 0;
    while k < rule.conditions.len()
        invariant
            k <= rule.conditions@.len(),
            impact_verdicts@.len() >= rule.conditions@.len(),
            forall|j: int| 0 <= j < k ==> condition_holds(*port_result, #[trigger] rule.conditions@[j], impact_verdicts@[j]),
        decreases rule.conditions.len() - k,
    {
        if !evaluate_condition(port_result, &rule.conditions[k], impact_verdicts[k]) {
            return false;
        }
        k = k + 1;
    }
    true
}

} // verus!
