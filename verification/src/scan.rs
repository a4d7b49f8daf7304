//! Scan configurations and results. Durations are held in milliseconds, a
//! host's latency in microseconds, confidences in percent and impact scores
//! in tenths of a CVSS point.

use vstd::prelude::*;
use crate::types::{HostState, Port, PortState, Protocol, Target, TimingTemplate};

verus! {

/// The kind of probe that a scan sends.
#[derive(Debug, Clone, Copy, PartialEq, Eq, Structural)]
pub enum ScanType {
    /// TCP SYN scan (-sS)
    TcpSyn,
    /// TCP connect scan (-sT)
    TcpConnect,
    /// UDP scan (-sU)
    Udp,
    /// TCP NULL scan (-sN)
    TcpNull,
    /// TCP FIN scan (-sF)
    TcpFin,
    /// TCP Xmas scan (-sX)
    TcpXmas,
    /// TCP ACK scan (-sA)
    TcpAck,
    /// TCP window scan (-sW)
    TcpWindow,
    /// TCP Maimon scan (-sM)
    TcpMaimon,
}

/// What a scan is asked to do.
#[derive(Debug, Clone)]
pub struct ScanConfig {
    pub scan_type: ScanType,
    pub targets: Vec<Target>,
    pub ports: Vec<Port>,
    pub os_detection: bool,
    pub version_detection: bool,
    pub script_scan: bool,
    pub scripts: Vec<String>,
    pub timing: TimingTemplate,
    pub max_retries: u32,
    /// Time limit of each probe, in milliseconds.
    pub timeout: u64,
    pub verbose: bool,
}

impl Default for ScanConfig {
    /// A SYN scan of nothing yet, at normal timing, with three retries and
    /// two seconds per probe.
    fn default() -> (r: Self)
        ensures
            r.scan_type == ScanType::TcpSyn,
            r.targets@.len() == 0,
            r.ports@.len() == 0,
            !r.os_detection,
            !r.version_detection,
            !r.script_scan,
            r.scripts@.len() == 0,
            r.timing == TimingTemplate::T3,
            r.max_retries == 3,
            r.timeout == 2000,
            !r.verbose,
    {
        ScanConfig {
            scan_type: ScanType::TcpSyn,
            targets: Vec::new(),
            ports: Vec::new(),
            os_detection: false,
            version_detection: false,
            script_scan: false,
            scripts: Vec::new(),
            timing: TimingTemplate::T3,
            max_retries: 3,
            timeout: 2000,
            verbose: false,
        }
    }
}

/// A point in time: seconds since the Unix epoch, and nanoseconds within
/// the second.
#[derive(Debug, Clone, Copy, PartialEq, Eq, Structural)]
pub struct Timestamp {
    pub secs: i64,
    pub nanos: u32,
}

/// Calls `chrono::Utc::now`: the time it reads is not claimed, only that it
/// lies after the epoch and that its nanoseconds are those within a second
/// (it is built from the system clock's whole seconds and their fraction).
#[verifier::external_body]
pub(crate) fn now() -> (r: Timestamp)
    ensures
        r.secs >= 0,
        r.nanos < 1_000_000_000,
{
    let t = chrono::Utc::now();
    Timestamp { secs: t.timestamp(), nanos: t.timestamp_subsec_nanos() }
}

/// What was learned about one port.
#[derive(Debug, Clone)]
pub struct PortResult {
    pub port: Port,
    pub protocol: Protocol,
    pub state: PortState,
    pub service: Option<String>,
    pub version: Option<String>,
    pub extra_info: Option<String>,
    /// Confidence in percent.
    pub confidence: u8,
    pub patch_level: Option<String>,
    pub security_posture: Option<String>,
    /// Impact in tenths of a CVSS point.
    pub impact_score: Option<u16>,
    pub cve_ids: Option<Vec<String>>,
}

impl PortResult {
    /// The result of a probe: the port's state and nothing else known yet.
    pub fn probed(port: Port, protocol: Protocol, state: PortState) -> (r: Self)
        ensures
            r.port == port,
            r.protocol == protocol,
            r.state == state,
            r.service is None,
            r.version is None,
            r.extra_info is None,
            r.confidence == 0,
            r.patch_level is None,
            r.security_posture is None,
            r.impact_score is None,
            r.cve_ids is None,
    {
        PortResult {
            port,
            protocol,
            state,
            service: None,
            version: None,
            extra_info: None,
            confidence: 0,
            patch_level: None,
            security_posture: None,
            impact_score: None,
            cve_ids: None,
        }
    }
}

/// What was learned about a host's operating system.
#[derive(Debug, Clone)]
pub struct OsResult {
    pub name: String,
    pub family: Option<String>,
    pub version: Option<String>,
    /// Confidence in percent.
    pub confidence: u8,
    /// Named details; no name occurs twice.
    pub details: Vec<(String, String)>,
}

/// The outcome of one script.
#[derive(Debug, Clone)]
pub struct ScriptResult {
    pub script: String,
    pub output: String,
    /// Run time in milliseconds.
    pub duration: u64,
    pub success: bool,
}

/// Everything learned about one host.
#[derive(Debug, Clone)]
pub struct HostResult {
    pub target: Target,
    pub state: HostState,
    pub ports: Vec<PortResult>,
    pub os: Vec<OsResult>,
    pub scripts: Vec<ScriptResult>,
    pub start_time: Timestamp,
    pub end_time: Timestamp,
    /// Scan time in milliseconds.
    pub duration: u64,
    /// Round-trip time in microseconds.
    pub latency: Option<u64>,
}

/// The ports of a list that are in the given state, in order.
pub open spec fn ports_in_state(ports: Seq<PortResult>, state: PortState) -> Seq<PortResult>
    decreases ports.len(),
{
    if ports.len() == 0 {
        Seq::empty()
    } else {
        let front = ports_in_state(ports.drop_last(), state);
        if ports.last().state == state { front.push(ports.last()) } else { front }
    }
}

impl HostResult {
    /// A result for `target` with nothing learned yet, started and ended now.
    pub fn new(target: Target) -> (r: Self)
        ensures
            r.target == target,
            r.state == HostState::Unknown,
            r.ports@.len() == 0,
            r.os@.len() == 0,
            r.scripts@.len() == 0,
            r.start_time == r.end_time,
            r.duration == 0,
            r.latency is None,
    {
        let t = now();
        HostResult {
            target,
            state: HostState::Unknown,
            ports: Vec::new(),
            os: Vec::new(),
            scripts: Vec::new(),
            start_time: t,
            end_time: t,
            duration: 0,
            latency: None,
        }
    }

    fn ports_with_state(&self, state: PortState) -> (r: Vec<&PortResult>)
        ensures
            r@.map_values(|p: &PortResult| *p) == ports_in_state(self.ports@, state),
    {
        let mut out: Vec<&PortResult> = Vec::new();
        let mut i: usize = 0;
        while i < self.ports.len()
            invariant
                i <= self.ports@.len(),
                out@.map_values(|p: &PortResult| *p) == ports_in_state(self.ports@.take(i as int), state),
            decreases self.ports.len() - i,
        {
            assert(self.ports@.take(i + 1).drop_last() =~= self.ports@.take(i as int));
            assert(self.ports@.take(i + 1).last() == self.ports@[i as int]);
            if self.ports[i].state == state {
                let ghost before = out@;
                out.push(&self.ports[i]);
                assert(out@.map_values(|p: &PortResult| *p) =~= before.map_values(|p: &PortResult| *p).push(self.ports@[i as int]));
            }
            i = i + 1;
        }
        assert(self.ports@.take(self.ports@.len() as int) =~= self.ports@);
        out
    }

    /// The open ports, in order.
    pub fn open_ports(&self) -> (r: Vec<&PortResult>)
        ensures
            r@.map_values(|p: &PortResult| *p) == ports_in_state(self.ports@, PortState::Open),
    {
        self.ports_with_state(PortState::Open)
    }

    /// The closed ports, in order.
    pub fn closed_ports(&self) -> (r: Vec<&PortResult>)
        ensures
            r@.map_values(|p: &PortResult| *p) == ports_in_state(self.ports@, PortState::Closed),
    {
        self.ports_with_state(PortState::Closed)
    }

    /// The filtered ports, in order.
    pub fn filtered_ports(&self) -> (r: Vec<&PortResult>)
        ensures
            r@.map_values(|p: &PortResult| *p) == ports_in_state(self.ports@, PortState::Filtered),
    {
        self.ports_with_state(PortState::Filtered)
    }
}

/// Counts of a finished scan. The packet loss rate is in hundredths of a
/// percent.
#[derive(Debug, Clone)]
pub struct ScanStats {
    pub total_hosts: usize,
    pub hosts_up: usize,
    pub hosts_down: usize,
    pub total_ports: usize,
    pub open_ports: usize,
    pub closed_ports: usize,
    pub filtered_ports: usize,
    pub packets_sent: u64,
    pub packets_received: u64,
    pub packet_loss_rate: u32,
}

impl Default for ScanStats {
    /// Every count zero.
    fn default() -> (r: Self)
        ensures
            r.total_hosts == 0 && r.hosts_up == 0 && r.hosts_down == 0,
            r.total_ports == 0 && r.open_ports == 0 && r.closed_ports == 0 && r.filtered_ports == 0,
            r.packets_sent == 0 && r.packets_received == 0 && r.packet_loss_rate == 0,
    {
        ScanStats {
            total_hosts: 0,
            hosts_up: 0,
            hosts_down: 0,
            total_ports: 0,
            open_ports: 0,
            closed_ports: 0,
            filtered_ports: 0,
            packets_sent: 0,
            packets_received: 0,
            packet_loss_rate: 0,
        }
    }
}

/// Everything a scan found.
#[derive(Debug, Clone)]
pub struct ScanResults {
    pub config: ScanConfig,
    pub hosts: Vec<HostResult>,
    pub start_time: Timestamp,
    pub end_time: Timestamp,
    /// Scan time in milliseconds.
    pub duration: u64,
    pub stats: ScanStats,
}

/// How many hosts are in the given state.
pub open spec fn hosts_in_state(hosts: Seq<HostResult>, state: HostState) -> nat
    decreases hosts.len(),
{
    if hosts.len() == 0 {
        0
    } else {
        hosts_in_state(hosts.drop_last(), state) + if hosts.last().state == state { 1nat } else { 0nat }
    }
}

/// How many ports of the hosts are in the given state.
pub open spec fn ports_of_hosts_in_state(hosts: Seq<HostResult>, state: PortState) -> nat
    decreases hosts.len(),
{
    if hosts.len() == 0 {
        0
    } else {
        ports_of_hosts_in_state(hosts.drop_last(), state) + ports_in_state(hosts.last().ports@, state).len()
    }
}

/// How many ports the hosts have in all.
pub open spec fn port_count(hosts: Seq<HostResult>) -> nat
    decreases hosts.len(),
{
    if hosts.len() == 0 {
        0
    } else {
        port_count(hosts.drop_last()) + hosts.last().ports@.len()
    }
}

proof fn lemma_hosts_in_state_le(hosts: Seq<HostResult>, state: HostState)
    ensures
        hosts_in_state(hosts, state) <= hosts.len(),
    decreases hosts.len(),
{
    if hosts.len() > 0 {
        lemma_hosts_in_state_le(hosts.drop_last(), state);
    }
}

proof fn lemma_ports_in_state_le(ports: Seq<PortResult>, state: PortState)
    ensures
        ports_in_state(ports, state).len() <= ports.len(),
    decreases ports.len(),
{
    if ports.len() > 0 {
        lemma_ports_in_state_le(ports.drop_last(), state);
    }
}

/// Each port is in one state: the open, closed and filtered ports of a list
/// together are no more than the list.
pub proof fn lemma_port_states_partition(ports: Seq<PortResult>)
    ensures
        ports_in_state(ports, PortState::Open).len() + ports_in_state(ports, PortState::Closed).len()
            + ports_in_state(ports, PortState::Filtered).len() <= ports.len(),
    decreases ports.len(),
{
    if ports.len() > 0 {
        lemma_port_states_partition(ports.drop_last());
    }
}

proof fn lemma_hosts_partition(hosts: Seq<HostResult>)
    ensures
        ports_of_hosts_in_state(hosts, PortState::Open) + ports_of_hosts_in_state(hosts, PortState::Closed)
            + ports_of_hosts_in_state(hosts, PortState::Filtered) <= port_count(hosts),
    decreases hosts.len(),
{
    if hosts.len() > 0 {
        lemma_hosts_partition(hosts.drop_last());
        lemma_port_states_partition(hosts.last().ports@);
    }
}

impl ScanResults {
    /// Results of a scan that starts now, with no host yet.
    pub fn new(config: ScanConfig) -> (r: Self)
        ensures
            r.config == config,
            r.hosts@.len() == 0,
            r.start_time == r.end_time,
            r.duration == 0,
            r.stats.total_hosts == 0 && r.stats.hosts_up == 0 && r.stats.hosts_down == 0,
            r.stats.total_ports == 0 && r.stats.open_ports == 0,
            r.stats.closed_ports == 0 && r.stats.filtered_ports == 0,
            r.stats.packets_sent == 0 && r.stats.packets_received == 0 && r.stats.packet_loss_rate == 0,
    {
        let t = now();
        ScanResults { config, hosts: Vec::new(), start_time: t, end_time: t, duration: 0, stats: ScanStats::default() }
    }

    /// Counts the hosts up and down and the open, closed and filtered ports;
    /// the total of ports counts those three states only.
    pub fn calculate_stats(&mut self)
        requires
            port_count(old(self).hosts@) <= usize::MAX,
        ensures
            final(self).hosts == old(self).hosts,
            final(self).config == old(self).config,
            final(self).start_time == old(self).start_time,
            final(self).end_time == old(self).end_time,
            final(self).duration == old(self).duration,
            final(self).stats.total_hosts == old(self).hosts@.len(),
            final(self).stats.hosts_up == hosts_in_state(old(self).hosts@, HostState::Up),
            final(self).stats.hosts_down == hosts_in_state(old(self).hosts@, HostState::Down),
            final(self).stats.open_ports == ports_of_hosts_in_state(old(self).hosts@, PortState::Open),
            final(self).stats.closed_ports == ports_of_hosts_in_state(old(self).hosts@, PortState::Closed),
            final(self).stats.filtered_ports == ports_of_hosts_in_state(old(self).hosts@, PortState::Filtered),
            final(self).stats.total_ports == ports_of_hosts_in_state(old(self).hosts@, PortState::Open)
                + ports_of_hosts_in_state(old(self).hosts@, PortState::Closed)
                + ports_of_hosts_in_state(old(self).hosts@, PortState::Filtered),
            final(self).stats.packets_sent == old(self).stats.packets_sent,
            final(self).stats.packets_received == old(self).stats.packets_received,
            final(self).stats.packet_loss_rate == old(self).stats.packet_loss_rate,
    {
        let ghost hs = self.hosts@;
        let mut up: usize = 0;
        let mut down: usize = 0;
        let mut open: usize = 0;
        let mut closed: usize = 0;
        let mut filtered: usize = 0;
        let mut i: usize = 0;
        while i < self.hosts.len()
            invariant
                i <= hs.len(),
                hs == self.hosts@,
                port_count(hs) <= usize::MAX,
                up == hosts_in_state(hs.take(i as int), HostState::Up),
                down == hosts_in_state(hs.take(i as int), HostState::Down),
                open == ports_of_hosts_in_state(hs.take(i as int), PortState::Open),
                closed == ports_of_hosts_in_state(hs.take(i as int), PortState::Closed),
                filtered == ports_of_hosts_in_state(hs.take(i as int), PortState::Filtered),
                open + closed + filtered + (port_count(hs) - port_count(hs.take(i as int))) <= port_count(hs),
            decreases hs.len() - i,
        {
            let ghost pre = hs.take(i as int);
            let ghost post = hs.take(i + 1);
            assert(post.drop_last() =~= pre);
            assert(post.last() == hs[i as int]);
            proof {
                lemma_hosts_in_state_le(pre, HostState::Up);
                lemma_hosts_in_state_le(pre, HostState::Down);
                lemma_port_count_prefix(hs, i as int);
            }
            let host = &self.hosts[i];
            if host.state == HostState::Up {
                up = up + 1;
            } else if host.state == HostState::Down {
                down = down + 1;
            }
            let ghost ports = host.ports@;
            let mut o: usize = 0;
            let mut c: usize = 0;
            let mut f: usize = 0;
            let mut j: usize = 0;
            while j < host.ports.len()
                invariant
                    j <= ports.len(),
                    ports == host.ports@,
                    o == ports_in_state(ports.take(j as int), PortState::Open).len(),
                    c == ports_in_state(ports.take(j as int), PortState::Closed).len(),
                    f == ports_in_state(ports.take(j as int), PortState::Filtered).len(),
                    o + c + f <= j,
                decreases ports.len() - j,
            {
                assert(ports.take(j + 1).drop_last() =~= ports.take(j as int));
                assert(ports.take(j + 1).last() == ports[j as int]);
                match host.ports[j].state {
                    PortState::Open => {
                        o = o + 1;
                    },
                    PortState::Closed => {
                        c = c + 1;
                    },
                    PortState::Filtered => {
                        f = f + 1;
                    },
                    _ => {},
                }
                j = j + 1;
            }
            assert(ports.take(ports.len() as int) =~= ports);
            open = open + o;
            closed = closed + c;
            filtered = filtered + f;
            i = i + 1;
        }
        assert(hs.take(hs.len() as int) =~= hs);
        self.stats.total_hosts = self.hosts.len();
        self.stats.hosts_up = up;
        self.stats.hosts_down = down;
        self.stats.open_ports = open;
        self.stats.closed_ports = closed;
        self.stats.filtered_ports = filtered;
        self.stats.total_ports = open + closed + filtered;
    }
}

proof fn lemma_port_count_prefix(hs: Seq<HostResult>, i: int)
    requires
        0 <= i < hs.len(),
    ensures
        port_count(hs.take(i + 1)) == port_count(hs.take(i)) + hs[i].ports@.len(),
        port_count(hs.take(i + 1)) <= port_count(hs),
    decreases hs.len() - i,
{
    assert(hs.take(i + 1).drop_last() =~= hs.take(i));
    if i + 1 < hs.len() {
        lemma_port_count_prefix(hs, i + 1);
    } else {
        assert(hs.take(i + 1) =~= hs);
    }
}

} // verus!
