//! The chaining engine: the tasks that matching rules call for, up to a
//! depth limit.

use vstd::prelude::*;
use crate::addr::IpAddr;
use crate::chaining::{Action, ActionType, RuleSet, ScanRule};
use crate::chaining::matcher::{matches_rule, rule_holds};
use crate::scan::PortResult;
use crate::text::string_from;

verus! {

/// A follow-up task.
#[derive(Debug, Clone)]
pub struct ChainedTask {
    pub ip: IpAddr,
    pub port: u16,
    pub task_type: ChainedTaskType,
    pub rule_name: String,
}

/// The kinds of follow-up tasks.
#[derive(Debug, Clone)]
pub enum ChainedTaskType {
    RunScript { script_name: String },
    Rescan { scan_type: String },
    IncreaseVerbosity { level: String },
}

/// A follow-up task as plain values: address, port, kind with its
/// argument, and the name of the rule that called for it.
pub enum TaskKind {
    RunScript(Seq<char>),
    Rescan(Seq<char>),
    IncreaseVerbosity(Seq<char>),
}

pub struct TaskModel {
    pub ip: IpAddr,
    pub port: u16,
    pub kind: TaskKind,
    pub rule_name: Seq<char>,
}

impl View for ChainedTask {
    type V = TaskModel;

    open spec fn view(&self) -> TaskModel {
        TaskModel {
            ip: self.ip,
            port: self.port,
            kind: match self.task_type {
                ChainedTaskType::RunScript { script_name } => TaskKind::RunScript(script_name@),
                ChainedTaskType::Rescan { scan_type } => TaskKind::Rescan(scan_type@),
                ChainedTaskType::IncreaseVerbosity { level } => TaskKind::IncreaseVerbosity(level@),
            },
            rule_name: self.rule_name@,
        }
    }
}

/// The plain values of a list of tasks.
pub open spec fn task_models(ts: Seq<ChainedTask>) -> Seq<TaskModel> {
    ts.map_values(|t: ChainedTask| t@)
}

/// The text of an optional string, or `default` where there is none.
pub open spec fn text_or(o: Option<String>, default: Seq<char>) -> Seq<char> {
    match o {
        Some(s) => s@,
        None => default,
    }
}

/// The task that an action of a rule calls for on a port: a script to run,
/// a scan to repeat (empty where unnamed), or a verbosity level (`debug`
/// where unnamed).
pub open spec fn action_task(ip: IpAddr, port: u16, a: Action, rule_name: Seq<char>) -> TaskModel {
    TaskModel {
        ip,
        port,
        kind: match a.action_type {
            ActionType::RunScript => TaskKind::RunScript(text_or(a.script, Seq::empty())),
            ActionType::Rescan => TaskKind::Rescan(text_or(a.scan_type, Seq::empty())),
            ActionType::IncreaseVerbosity => TaskKind::IncreaseVerbosity(text_or(a.level, "debug"@)),
        },
        rule_name,
    }
}

/// The tasks of the actions from position `i` on, in order.
pub open spec fn action_tasks(ip: IpAddr, port: u16, actions: Seq<Action>, rule_name: Seq<char>) -> Seq<TaskModel>
    decreases actions.len(),
{
    if actions.len() == 0 {
        Seq::empty()
    } else {
        action_tasks(ip, port, actions.drop_last(), rule_name).push(action_task(ip, port, actions.last(), rule_name))
    }
}

/// The tasks that the rules from position `i` on call for, and the depth
/// reached: each matching rule adds its tasks and one step of depth, and
/// the walk stops once the depth reaches `max`.
pub open spec fn chain_from(
    rules: Seq<ScanRule>,
    verdicts: Seq<Seq<bool>>,
    p: PortResult,
    ip: IpAddr,
    i: int,
    depth: nat,
    max: nat,
) -> (Seq<TaskModel>, nat)
    decreases rules.len() - i,
{
    if i < 0 || i >= rules.len() {
        (Seq::empty(), depth)
    } else if rule_holds(p, rules[i], verdicts[i]) {
        let here = action_tasks(ip, p.port@, rules[i].actions@, rules[i].name@);
        if depth + 1 >= max {
            (here, depth + 1)
        } else {
            let rest = chain_from(rules, verdicts, p, ip, i + 1, depth + 1, max);
            (here + rest.0, rest.1)
        }
    } else {
        chain_from(rules, verdicts, p, ip, i + 1, depth, max)
    }
}

/// Chaining never goes past its depth limit: started below the limit, the
/// depth reached is at most the limit, and never less than at the start.
pub proof fn lemma_chain_depth_bounded(
    rules: Seq<ScanRule>,
    verdicts: Seq<Seq<bool>>,
    p: PortResult,
    ip: IpAddr,
    i: int,
    depth: nat,
    max: nat,
)
    requires
        depth < max,
    ensures
        depth <= chain_from(rules, verdicts, p, ip, i, depth, max).1 <= max,
    decreases rules.len() - i,
{
    if i < 0 || i >= rules.len() {
    } else if rule_holds(p, rules[i], verdicts[i]) {
        if depth + 1 < max {
            lemma_chain_depth_bounded(rules, verdicts, p, ip, i + 1, depth + 1, max);
        }
    } else {
        lemma_chain_depth_bounded(rules, verdicts, p, ip, i + 1, depth, max);
    }
}

impl ChainedTask {
    /// The task that an action of a rule calls for on a port.
    pub fn from_action(ip: IpAddr, port: u16, action: &Action, rule_name: String) -> (r: Self)
        ensures
            r@ == action_task(ip, port, *action, rule_name@),
    {
        let task_type = match action.action_type {
            ActionType::RunScript => ChainedTaskType::RunScript {
                script_name: match &action.script {
                    Some(s) => s.clone(),
                    None => String::new(),
                },
            },
            ActionType::Rescan => ChainedTaskType::Rescan {
                scan_type: match &action.scan_type {
                    Some(s) => s.clone(),
                    None => String::new(),
                },
            },
            ActionType::IncreaseVerbosity => ChainedTaskType::IncreaseVerbosity {
                level: match &action.level {
                    Some(s) => s.clone(),
                    None => string_from("debug"),
                },
            },
        };
        ChainedTask { ip, port, task_type, rule_name }
    }
}

/// Applies chaining rules to port results, up to a depth limit.
pub struct ChainingEngine {
    rules: Vec<ScanRule>,
    enabled: bool,
    max_depth: u32,
    current_depth: u32,
}

impl ChainingEngine {
    /// The rules, in order.
    pub closed spec fn rules_spec(&self) -> Seq<ScanRule> {
        self.rules@
    }

    /// Whether chaining is switched on.
    pub closed spec fn enabled_spec(&self) -> bool {
        self.enabled
    }

    /// The depth limit.
    pub closed spec fn max_depth_spec(&self) -> u32 {
        self.max_depth
    }

    /// The depth reached so far.
    pub closed spec fn depth_spec(&self) -> u32 {
        self.current_depth
    }

    /// An engine with the rules and settings of a rule set, at depth 0.
    pub fn from_rule_set(rule_set: RuleSet) -> (r: Self)
        ensures
            r.rules_spec() == rule_set.rules@,
            r.enabled_spec() == rule_set.config.enabled,
            r.max_depth_spec() == rule_set.config.max_depth,
            r.depth_spec() == 0,
    {
        ChainingEngine {
            rules: rule_set.rules,
            enabled: rule_set.config.enabled,
            max_depth: rule_set.config.max_depth,
            current_depth: 0,
        }
    }

    /// An engine that never chains.
    pub fn disabled() -> (r: Self)
        ensures
            r.rules_spec().len() == 0,
            !r.enabled_spec(),
            r.max_depth_spec() == 0,
            r.depth_spec() == 0,
    {
        ChainingEngine { rules: Vec::new(), enabled: false, max_depth: 0, current_depth: 0 }
    }

    /// The rules, in order.
    pub fn rules(&self) -> (r: &Vec<ScanRule>)
        ensures
            r@ == self.rules_spec(),
    {
        &self.rules
    }

    /// Chaining is switched on and the depth limit is not reached.
    pub fn is_enabled(&self) -> (r: bool)
        ensures
            r == (self.enabled_spec() && self.depth_spec() < self.max_depth_spec()),
    {
        self.enabled && self.current_depth < self.max_depth
    }

    fn tasks_of_rule(ip: IpAddr, port: u16, rule: &ScanRule, out: &mut Vec<ChainedTask>)
        ensures
            task_models(final(out)@) == task_models(old(out)@) + action_tasks(ip, port, rule.actions@, rule.name@),
    {
        let ghost start = task_models(out@);
        let mut k: usize = 0;
        while k < rule.actions.len()
            invariant
                k <= rule.actions@.len(),
                task_models(out@) == start + action_tasks(ip, port, rule.actions@.take(k as int), rule.name@),
            decreases rule.actions.len() - k,
        {
            assert(rule.actions@.take(k + 1).drop_last() =~= rule.actions@.take(k as int));
            assert(rule.actions@.take(k + 1).last() == rule.actions@[k as int]);
            let t = ChainedTask::from_action(ip, port, &rule.actions[k], rule.name.clone());
            let ghost before = task_models(out@);
            out.push(t);
            assert(task_models(out@) =~= before.push(t@));
            assert(task_models(out@) =~= start + action_tasks(ip, port, rule.actions@.take(k + 1), rule.name@));
            k = k + 1;
        }
        assert(rule.actions@.take(rule.actions@.len() as int) =~= rule.actions@);
    }

    /// The tasks that the rules matching a port result call for, in order;
    /// each matching rule adds one step of depth, and matching stops at the
    /// depth limit. Nothing is done while chaining is off or at the limit.
    /// `impact_verdicts` holds, per rule, the impact comparison outcome of
    /// each condition.
    pub fn process_port_result(&mut self, ip: IpAddr, port_result: &PortResult, impact_verdicts: &Vec<Vec<bool>>) -> (r: Vec<ChainedTask>)
        requires
            impact_verdicts@.len() >= old(self).rules_spec().len(),
            forall|i: int| 0 <= i < old(self).rules_spec().len()
                ==> #[trigger] impact_verdicts@[i]@.len() >= old(self).rules_spec()[i].conditions@.len(),
        ensures
            final(self).rules_spec() == old(self).rules_spec(),
            final(self).enabled_spec() == old(self).enabled_spec(),
            final(self).max_depth_spec() == old(self).max_depth_spec(),
            !old(self).is_enabled_spec() ==> r@.len() == 0 && final(self).depth_spec() == old(self).depth_spec(),
            old(self).is_enabled_spec() ==> ({
                let c = chain_from(
                    old(self).rules_spec(),
                    impact_verdicts@.map_values(|v: Vec<bool>| v@),
                    *port_result,
                    ip,
                    0,
                    old(self).depth_spec() as nat,
                    old(self).max_depth_spec() as nat,
                );
                &&& task_models(r@) == c.0
                &&& final(self).depth_spec() == c.1
            }),
    {
        let mut tasks: Vec<ChainedTask> = Vec::new();
        if !self.is_enabled() {
            return tasks;
        }
        let ghost verdicts = impact_verdicts@.map_values(|v: Vec<bool>| v@);
        let ghost d0 = self.current_depth as nat;
        let ghost max = self.max_depth as nat;
        let mut i: usize = 0;
        while i < self.rules.len()
            invariant
                i <= self.rules@.len(),
                self.rules@ == old(self).rules@,
                self.enabled == old(self).enabled,
                self.max_depth == old(self).max_depth,
                max == self.max_depth,
                self.current_depth < self.max_depth,
                old(self).enabled && old(self).current_depth < old(self).max_depth,
                d0 == old(self).current_depth,
                verdicts == impact_verdicts@.map_values(|v: Vec<bool>| v@),
                impact_verdicts@.len() >= self.rules@.len(),
                forall|j: int| 0 <= j < self.rules@.len() ==> #[trigger] impact_verdicts@[j]@.len() >= self.rules@[j].conditions@.len(),
                ({
                    let whole = chain_from(self.rules@, verdicts, *port_result, ip, 0, d0, max);
                    let rest = chain_from(self.rules@, verdicts, *port_result, ip, i as int, self.current_depth as nat, max);
                    &&& whole.0 == task_models(tasks@) + rest.0
                    &&& whole.1 == rest.1
                }),
            decreases self.rules.len() - i,
        {
            let ghost before = task_models(tasks@);
            let ghost depth_before = self.current_depth as nat;
            assert(verdicts[i as int] == impact_verdicts@[i as int]@);
            if matches_rule(port_result, &self.rules[i], &impact_verdicts[i]) {
                Self::tasks_of_rule(ip, port_result.port.value(), &self.rules[i], &mut tasks);
                self.current_depth = self.current_depth + 1;
                if self.current_depth >= self.max_depth {
                    let ghost here = action_tasks(ip, port_result.port@, self.rules@[i as int].actions@, self.rules@[i as int].name@);
                    assert(chain_from(self.rules@, verdicts, *port_result, ip, i as int, depth_before, max) == (here, depth_before + 1));
                    assert(task_models(tasks@) =~= before + here);
                    return tasks;
                }
            }
            i = i + 1;
        }
        tasks
    }

    /// Chaining is switched on and the depth limit is not reached.
    pub closed spec fn is_enabled_spec(&self) -> bool {
        self.enabled && self.current_depth < self.max_depth
    }

    /// Back to depth 0, for a new target.
    pub fn reset_depth(&mut self)
        ensures
            final(self).rules_spec() == old(self).rules_spec(),
            final(self).enabled_spec() == old(self).enabled_spec(),
            final(self).max_depth_spec() == old(self).max_depth_spec(),
            final(self).depth_spec() == 0,
    {
        self.current_depth = 0;
    }
}

} // verus!
