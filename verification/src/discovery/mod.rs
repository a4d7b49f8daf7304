//! Host discovery: which methods to try, and what their probes and replies
//! mean. Times are in microseconds, time limits in milliseconds.

pub mod ping;

use vstd::prelude::*;
use crate::addr::IpAddr;
use crate::error::Result;
use crate::text::string_from;
use crate::types::{Target, bare_target};

verus! {

/// The ways of finding out whether a host is up.
#[derive(Debug, Clone, Copy, PartialEq, Eq, Structural)]
pub enum DiscoveryMethod {
    IcmpEcho,
    IcmpTimestamp,
    IcmpNetmask,
    ArpRequest,
    TcpSyn,
    TcpAck,
    UdpProbe,
}

/// The name of a method.
pub open spec fn method_text(m: DiscoveryMethod) -> Seq<char> {
    match m {
        DiscoveryMethod::IcmpEcho => "ICMP Echo"@,
        DiscoveryMethod::IcmpTimestamp => "ICMP Timestamp"@,
        DiscoveryMethod::IcmpNetmask => "ICMP Netmask"@,
        DiscoveryMethod::ArpRequest => "ARP Request"@,
        DiscoveryMethod::TcpSyn => "TCP SYN"@,
        DiscoveryMethod::TcpAck => "TCP ACK"@,
        DiscoveryMethod::UdpProbe => "UDP Probe"@,
    }
}

impl DiscoveryMethod {
    /// The name of the method.
    pub fn to_string(&self) -> (r: String)
        ensures
            r@ == method_text(*self),
    {
        match self {
            DiscoveryMethod::IcmpEcho => string_from("ICMP Echo"),
            DiscoveryMethod::IcmpTimestamp => string_from("ICMP Timestamp"),
            DiscoveryMethod::IcmpNetmask => string_from("ICMP Netmask"),
            DiscoveryMethod::ArpRequest => string_from("ARP Request"),
            DiscoveryMethod::TcpSyn => string_from("TCP SYN"),
            DiscoveryMethod::TcpAck => string_from("TCP ACK"),
            DiscoveryMethod::UdpProbe => string_from("UDP Probe"),
        }
    }
}

/// Whether a host answered, and how.
#[derive(Debug, Clone)]
pub struct DiscoveryResult {
    pub target: Target,
    pub is_alive: bool,
    /// Round-trip time in microseconds.
    pub rtt: Option<u64>,
    pub method: DiscoveryMethod,
    pub info: Option<String>,
}

/// How hosts are discovered. The time limit is in milliseconds.
#[derive(Debug, Clone)]
pub struct DiscoveryConfig {
    pub timeout: u64,
    pub retries: u32,
    pub use_icmp: bool,
    pub use_arp: bool,
    pub use_tcp: bool,
    pub tcp_ports: Vec<u16>,
    pub use_udp: bool,
    pub udp_ports: Vec<u16>,
    pub max_concurrency: usize,
}

impl Default for DiscoveryConfig {
    /// Two seconds per probe, one retry, ICMP, ARP and TCP to ports 80 and
    /// 443, no UDP, a hundred probes at once.
    fn default() -> (r: Self)
        ensures
            r.timeout == 2000,
            r.retries == 1,
            r.use_icmp && r.use_arp && r.use_tcp && !r.use_udp,
            r.tcp_ports@ == seq![80u16, 443u16],
            r.udp_ports@.len() == 0,
            r.max_concurrency == 100,
    {
        let tcp_ports: Vec<u16> = vec![80, 443];
        assert(tcp_ports@ =~= seq![80u16, 443u16]);
        DiscoveryConfig {
            timeout: 2000,
            retries: 1,
            use_icmp: true,
            use_arp: true,
            use_tcp: true,
            tcp_ports,
            use_udp: false,
            udp_ports: Vec::new(),
            max_concurrency: 100,
        }
    }
}

/// The methods that a configuration enables, in the order they are tried:
/// ICMP echo, ARP, then TCP SYN where there are ports to probe.
pub open spec fn planned_methods(c: DiscoveryConfig) -> Seq<DiscoveryMethod> {
    (if c.use_icmp { seq![DiscoveryMethod::IcmpEcho] } else { Seq::empty() })
        + (if c.use_arp { seq![DiscoveryMethod::ArpRequest] } else { Seq::empty() })
        + (if c.use_tcp && c.tcp_ports@.len() > 0 { seq![DiscoveryMethod::TcpSyn] } else { Seq::empty() })
}

/// The methods that a configuration enables, in the order they are tried.
pub fn methods_for(config: &DiscoveryConfig) -> (r: Vec<DiscoveryMethod>)
    ensures
        r@ == planned_methods(*config),
{
    let mut v: Vec<DiscoveryMethod> = Vec::new();
    if config.use_icmp {
        v.push(DiscoveryMethod::IcmpEcho);
    }
    if config.use_arp {
        v.push(DiscoveryMethod::ArpRequest);
    }
    if config.use_tcp && config.tcp_ports.len() > 0 {
        v.push(DiscoveryMethod::TcpSyn);
    }
    assert(v@ =~= planned_methods(*config));
    v
}

/// A result that says the host did not answer.
pub open spec fn silent_result(r: DiscoveryResult, target: IpAddr, method: DiscoveryMethod, info: Seq<char>) -> bool {
    &&& r.target == bare_target(target)
    &&& !r.is_alive
    &&& r.rtt is None
    &&& r.method == method
    &&& r.info matches Some(i) && i@ == info
}

fn not_alive(target: IpAddr, method: DiscoveryMethod, info: &str) -> (r: DiscoveryResult)
    ensures
        silent_result(r, target, method, info@),
{
    DiscoveryResult { target: Target::new(target), is_alive: false, rtt: None, method, info: Some(string_from(info)) }
}

/// The result given for a host whose discovery failed.
pub fn failed_discovery(target: IpAddr) -> (r: DiscoveryResult)
    ensures
        silent_result(r, target, DiscoveryMethod::IcmpEcho, "Discovery failed"@),
{
    not_alive(target, DiscoveryMethod::IcmpEcho, "Discovery failed")
}

/// Discovery by ARP requests, which this build does not send.
pub struct ArpDiscovery {
    timeout: u64,
}

impl ArpDiscovery {
    pub fn new(timeout_duration: u64) -> (r: Result<Self>)
        ensures
            r matches Ok(d) && d.timeout_spec() == timeout_duration,
    {
        Ok(ArpDiscovery { timeout: timeout_duration })
    }

    /// The time limit in milliseconds.
    pub closed spec fn timeout_spec(&self) -> u64 {
        self.timeout
    }

    /// The answer for any target: not found, with a note that ARP needs a
    /// link-layer library.
    pub fn discover(&self, target: IpAddr) -> (r: Result<DiscoveryResult>)
        ensures
            r matches Ok(d) && silent_result(d, target, DiscoveryMethod::ArpRequest, "ARP discovery requires pnet integration"@),
    {
        Ok(not_alive(target, DiscoveryMethod::ArpRequest, "ARP discovery requires pnet integration"))
    }

    pub fn method(&self) -> (r: DiscoveryMethod)
        ensures
            r == DiscoveryMethod::ArpRequest,
    {
        DiscoveryMethod::ArpRequest
    }
}

/// Discovery by TCP SYN probes to some ports, which this build does not send.
pub struct TcpSynDiscovery {
    timeout: u64,
    ports: Vec<u16>,
}

impl TcpSynDiscovery {
    pub fn new(timeout_duration: u64, ports: Vec<u16>) -> (r: Result<Self>)
        ensures
            r matches Ok(d) && d.timeout_spec() == timeout_duration && d.ports_spec() == ports@,
    {
        Ok(TcpSynDiscovery { timeout: timeout_duration, ports })
    }

    /// The time limit in milliseconds.
    pub closed spec fn timeout_spec(&self) -> u64 {
        self.timeout
    }

    /// The ports probed.
    pub closed spec fn ports_spec(&self) -> Seq<u16> {
        self.ports@
    }

    /// The answer for any target: not found, the probes being pending.
    pub fn discover(&self, target: IpAddr) -> (r: Result<DiscoveryResult>)
        ensures
            r matches Ok(d) && silent_result(d, target, DiscoveryMethod::TcpSyn, "TCP SYN discovery pending full implementation"@),
    {
        Ok(not_alive(target, DiscoveryMethod::TcpSyn, "TCP SYN discovery pending full implementation"))
    }

    pub fn method(&self) -> (r: DiscoveryMethod)
        ensures
            r == DiscoveryMethod::TcpSyn,
    {
        DiscoveryMethod::TcpSyn
    }
}

/// Discovery by UDP probes to some ports, which this build does not send.
pub struct UdpDiscovery {
    timeout: u64,
    ports: Vec<u16>,
}

impl UdpDiscovery {
    pub fn new(timeout_duration: u64, ports: Vec<u16>) -> (r: Result<Self>)
        ensures
            r matches Ok(d) && d.timeout_spec() == timeout_duration && d.ports_spec() == ports@,
    {
        Ok(UdpDiscovery { timeout: timeout_duration, ports })
    }

    /// The time limit in milliseconds.
    pub closed spec fn timeout_spec(&self) -> u64 {
        self.timeout
    }

    /// The ports probed.
    pub closed spec fn ports_spec(&self) -> Seq<u16> {
        self.ports@
    }

    /// The answer for any target: not found, UDP discovery being missing.
    pub fn discover(&self, target: IpAddr) -> (r: Result<DiscoveryResult>)
        ensures
            r matches Ok(d) && silent_result(d, target, DiscoveryMethod::UdpProbe, "UDP discovery not yet implemented"@),
    {
        Ok(not_alive(target, DiscoveryMethod::UdpProbe, "UDP discovery not yet implemented"))
    }

    pub fn method(&self) -> (r: DiscoveryMethod)
        ensures
            r == DiscoveryMethod::UdpProbe,
    {
        DiscoveryMethod::UdpProbe
    }
}

} // verus!
