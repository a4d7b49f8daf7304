//! Follow-up scans chained on detection results by rules.

pub mod matcher;
pub mod engine;

use vstd::prelude::*;

verus! {

/// A rule set as loaded from a rules file.
#[derive(Debug, Clone)]
pub struct RuleSet {
    pub version: String,
    pub rules: Vec<ScanRule>,
    pub config: ChainConfig,
}

/// How chaining behaves; the time limit is in seconds.
#[derive(Debug, Clone, Copy)]
pub struct ChainConfig {
    pub enabled: bool,
    pub max_depth: u32,
    pub timeout: u64,
    pub parallel: bool,
    pub verbose_logging: bool,
}

impl Default for ChainConfig {
    /// Enabled, at most three chained steps, five minutes, in parallel,
    /// without verbose logging.
    fn default() -> (r: Self)
        ensures
            r.enabled && r.max_depth == 3 && r.timeout == 300 && r.parallel && !r.verbose_logging,
    {
        ChainConfig { enabled: true, max_depth: 3, timeout: 300, parallel: true, verbose_logging: false }
    }
}

/// A rule: when every condition holds of a port, its actions are taken.
#[derive(Debug, Clone)]
pub struct ScanRule {
    pub name: String,
    pub description: Option<String>,
    pub conditions: Vec<Condition>,
    pub actions: Vec<Action>,
}

/// A value of a condition's list, as the rules file gives it: what the logic
/// reads of it is an unsigned integer or a string.
#[derive(Debug, Clone)]
pub enum RuleValue {
    /// A number that is an unsigned integer.
    Number(u64),
    /// A string.
    Text(String),
    /// Anything else.
    Other,
}

/// A condition on one field of a port result.
#[derive(Debug, Clone)]
pub struct Condition {
    pub field: String,
    pub operator: ConditionOperator,
    pub value: Option<String>,
    pub values: Option<Vec<RuleValue>>,
}

/// The comparisons a condition makes.
#[derive(Debug, Clone, Copy, PartialEq, Eq, Structural)]
pub enum ConditionOperator {
    Equals,
    Contains,
    In,
    GreaterThanOrEqual,
}

/// Something to do when a rule matches.
#[derive(Debug, Clone)]
pub struct Action {
    pub action_type: ActionType,
    pub script: Option<String>,
    pub scan_type: Option<String>,
    pub level: Option<String>,
}

/// The kinds of actions.
#[derive(Debug, Clone, Copy, PartialEq, Eq, Structural)]
pub enum ActionType {
    RunScript,
    Rescan,
    IncreaseVerbosity,
}

} // verus!
