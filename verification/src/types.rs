//! Common type definitions: targets, ports, protocols, states and timing
//! templates.

use vstd::prelude::*;
use crate::addr::{IpAddr, ip_display};
use crate::text::{string_from, hex2_chars, push_hex2, push_str};

verus! {

/// A hardware (MAC) address.
#[derive(Debug, Clone, Copy, PartialEq, Eq, Hash)]
pub struct MacAddr(pub [u8; 6]);

/// A scan target: an address, and a hostname and hardware address where known.
#[derive(Debug, Clone, PartialEq, Eq, Hash)]
pub struct Target {
    pub ip: IpAddr,
    pub hostname: Option<String>,
    pub mac: Option<MacAddr>,
}

/// A hardware address as six two-digit hexadecimal bytes separated by colons.
pub open spec fn mac_display(m: MacAddr) -> Seq<char> {
    hex2_chars(m.0[0]) + ":"@ + hex2_chars(m.0[1]) + ":"@ + hex2_chars(m.0[2]) + ":"@ + hex2_chars(m.0[3]) + ":"@
        + hex2_chars(m.0[4]) + ":"@ + hex2_chars(m.0[5])
}

impl MacAddr {
    /// The address as six two-digit hexadecimal bytes separated by colons.
    pub fn to_string(&self) -> (r: String)
        ensures
            r@ == mac_display(*self),
    {
        let mut s = String::new();
        push_hex2(&mut s, self.0[0]);
        push_str(&mut s, ":");
        push_hex2(&mut s, self.0[1]);
        push_str(&mut s, ":");
        push_hex2(&mut s, self.0[2]);
        push_str(&mut s, ":");
        push_hex2(&mut s, self.0[3]);
        push_str(&mut s, ":");
        push_hex2(&mut s, self.0[4]);
        push_str(&mut s, ":");
        push_hex2(&mut s, self.0[5]);
        s
    }
}

/// The target that is an address alone.
pub open spec fn bare_target(ip: IpAddr) -> Target {
    Target { ip, hostname: None, mac: None }
}

/// A target as text: its hostname with the address in brackets, or the
/// address alone.
pub open spec fn target_display(t: Target) -> Seq<char> {
    match t.hostname {
        Some(h) => h@ + " ("@ + ip_display(t.ip) + ")"@,
        None => ip_display(t.ip),
    }
}

impl Target {
    /// The target as text: its hostname with the address in brackets, or
    /// the address alone.
    pub fn to_string(&self) -> (r: String)
        ensures
            r@ == target_display(*self),
    {
        let ip = self.ip.to_string();
        match &self.hostname {
            Some(h) => {
                let mut s = String::new();
                push_str(&mut s, h.as_str());
                push_str(&mut s, " (");
                push_str(&mut s, ip.as_str());
                push_str(&mut s, ")");
                s
            },
            None => ip,
        }
    }

    pub fn new(ip: IpAddr) -> (r: Self)
        ensures
            r.ip == ip,
            r.hostname is None,
            r.mac is None,
    {
        Target { ip, hostname: None, mac: None }
    }

    pub fn with_hostname(self, hostname: String) -> (r: Self)
        ensures
            r.ip == self.ip,
            r.hostname == Some(hostname),
            r.mac == self.mac,
    {
        Target { ip: self.ip, hostname: Some(hostname), mac: self.mac }
    }

    pub fn with_mac(self, mac: MacAddr) -> (r: Self)
        ensures
            r.ip == self.ip,
            r.hostname == self.hostname,
            r.mac == Some(mac),
    {
        Target { ip: self.ip, hostname: self.hostname, mac: Some(mac) }
    }
}

/// A port number, never zero.
#[derive(Debug, Clone, Copy, PartialEq, Eq, Hash, PartialOrd, Ord)]
pub struct Port(u16);

impl View for Port {
    type V = u16;

    closed spec fn view(&self) -> u16 {
        self.0
    }
}

impl Port {
    #[verifier::type_invariant]
    closed spec fn nonzero(self) -> bool {
        self.0 != 0
    }

    /// The port with this number, or `None` for 0.
    pub fn new(port: u16) -> (r: Option<Self>)
        ensures
            r is None <==> port == 0,
            r matches Some(p) ==> p@ == port,
    {
        if port == 0 {
            None
        } else {
            Some(Port(port))
        }
    }

    pub fn value(&self) -> (r: u16)
        ensures
            r == self@,
            r != 0,
    {
        proof {
            use_type_invariant(self);
        }
        self.0
    }

    /// The decimal number of the port.
    pub fn to_string(&self) -> (r: String)
        ensures
            r@ == crate::text::decimal_chars(self@ as nat),
    {
        let mut s = String::new();
        crate::text::push_decimal(&mut s, self.0 as u64);
        s
    }
}

/// The numbers of a sequence of ports.
pub open spec fn port_values(ports: Seq<Port>) -> Seq<u16> {
    ports.map_values(|p: Port| p@)
}

/// Transport protocols.
#[derive(Debug, Clone, Copy, PartialEq, Eq, Hash, Structural)]
pub enum Protocol {
    Tcp,
    Udp,
    Icmp,
    Sctp,
}

pub open spec fn protocol_text(p: Protocol) -> Seq<char> {
    match p {
        Protocol::Tcp => "TCP"@,
        Protocol::Udp => "UDP"@,
        Protocol::Icmp => "ICMP"@,
        Protocol::Sctp => "SCTP"@,
    }
}

impl Protocol {
    /// The protocol's name in capitals.
    pub fn to_string(&self) -> (r: String)
        ensures
            r@ == protocol_text(*self),
    {
        match self {
            Protocol::Tcp => string_from("TCP"),
            Protocol::Udp => string_from("UDP"),
            Protocol::Icmp => string_from("ICMP"),
            Protocol::Sctp => string_from("SCTP"),
        }
    }
}

/// State of a port.
#[derive(Debug, Clone, Copy, PartialEq, Eq, Structural)]
pub enum PortState {
    /// Open and accepting connections
    Open,
    /// Closed
    Closed,
    /// Filtered by a firewall or other filtering
    Filtered,
    /// Open or filtered (cannot tell which)
    OpenFiltered,
    /// Closed or filtered (cannot tell which)
    ClosedFiltered,
    /// Unknown
    Unknown,
}

pub open spec fn port_state_text(s: PortState) -> Seq<char> {
    match s {
        PortState::Open => "open"@,
        PortState::Closed => "closed"@,
        PortState::Filtered => "filtered"@,
        PortState::OpenFiltered => "open|filtered"@,
        PortState::ClosedFiltered => "closed|filtered"@,
        PortState::Unknown => "unknown"@,
    }
}

impl PortState {
    pub fn to_string(&self) -> (r: String)
        ensures
            r@ == port_state_text(*self),
    {
        match self {
            PortState::Open => string_from("open"),
            PortState::Closed => string_from("closed"),
            PortState::Filtered => string_from("filtered"),
            PortState::OpenFiltered => string_from("open|filtered"),
            PortState::ClosedFiltered => string_from("closed|filtered"),
            PortState::Unknown => string_from("unknown"),
        }
    }
}

/// State of a host.
#[derive(Debug, Clone, Copy, PartialEq, Eq, Structural)]
pub enum HostState {
    /// Up and responding
    Up,
    /// Down or not responding
    Down,
    /// Unknown
    Unknown,
}

pub open spec fn host_state_text(s: HostState) -> Seq<char> {
    match s {
        HostState::Up => "up"@,
        HostState::Down => "down"@,
        HostState::Unknown => "unknown"@,
    }
}

impl HostState {
    pub fn to_string(&self) -> (r: String)
        ensures
            r@ == host_state_text(*self),
    {
        match self {
            HostState::Up => string_from("up"),
            HostState::Down => string_from("down"),
            HostState::Unknown => string_from("unknown"),
        }
    }
}

/// Timing templates, from paranoid (T0) to insane (T5).
#[derive(Debug, Clone, Copy, PartialEq, Eq, Structural)]
pub enum TimingTemplate {
    /// Paranoid: very slow, IDS evasion
    T0,
    /// Sneaky: slow, IDS evasion
    T1,
    /// Polite: slow, less bandwidth
    T2,
    /// Normal (the default)
    T3,
    /// Aggressive: fast, assumes a fast network
    T4,
    /// Insane: very fast, may miss results
    T5,
}

pub open spec fn base_rtt_timeout_ms(t: TimingTemplate) -> u64 {
    match t {
        TimingTemplate::T0 => 5000,
        TimingTemplate::T1 => 3000,
        TimingTemplate::T2 => 1000,
        TimingTemplate::T3 => 500,
        TimingTemplate::T4 => 200,
        TimingTemplate::T5 => 100,
    }
}

pub open spec fn max_parallelism_of(t: TimingTemplate) -> usize {
    match t {
        TimingTemplate::T0 => 1,
        TimingTemplate::T1 => 10,
        TimingTemplate::T2 => 50,
        TimingTemplate::T3 => 100,
        TimingTemplate::T4 => 1000,
        TimingTemplate::T5 => 5000,
    }
}

pub open spec fn scan_delay_ms(t: TimingTemplate) -> u64 {
    match t {
        TimingTemplate::T0 => 5000,
        TimingTemplate::T1 => 1000,
        TimingTemplate::T2 => 400,
        _ => 0,
    }
}

pub open spec fn timing_text(t: TimingTemplate) -> Seq<char> {
    match t {
        TimingTemplate::T0 => "T0 (Paranoid)"@,
        TimingTemplate::T1 => "T1 (Sneaky)"@,
        TimingTemplate::T2 => "T2 (Polite)"@,
        TimingTemplate::T3 => "T3 (Normal)"@,
        TimingTemplate::T4 => "T4 (Aggressive)"@,
        TimingTemplate::T5 => "T5 (Insane)"@,
    }
}

impl TimingTemplate {
    /// The base RTT timeout of the template, in milliseconds.
    pub fn base_rtt_timeout(&self) -> (r: u64)
        ensures
            r == base_rtt_timeout_ms(*self),
    {
        match self {
            TimingTemplate::T0 => 5000,
            TimingTemplate::T1 => 3000,
            TimingTemplate::T2 => 1000,
            TimingTemplate::T3 => 500,
            TimingTemplate::T4 => 200,
            TimingTemplate::T5 => 100,
        }
    }

    /// The largest number of probes in flight at once.
    pub fn max_parallelism(&self) -> (r: usize)
        ensures
            r == max_parallelism_of(*self),
    {
        match self {
            TimingTemplate::T0 => 1,
            TimingTemplate::T1 => 10,
            TimingTemplate::T2 => 50,
            TimingTemplate::T3 => 100,
            TimingTemplate::T4 => 1000,
            TimingTemplate::T5 => 5000,
        }
    }

    /// The delay between probes, in milliseconds.
    pub fn scan_delay(&self) -> (r: u64)
        ensures
            r == scan_delay_ms(*self),
    {
        match self {
            TimingTemplate::T0 => 5000,
            TimingTemplate::T1 => 1000,
            TimingTemplate::T2 => 400,
            TimingTemplate::T3 => 0,
            TimingTemplate::T4 => 0,
            TimingTemplate::T5 => 0,
        }
    }

    pub fn to_string(&self) -> (r: String)
        ensures
            r@ == timing_text(*self),
    {
        match self {
            TimingTemplate::T0 => string_from("T0 (Paranoid)"),
            TimingTemplate::T1 => string_from("T1 (Sneaky)"),
            TimingTemplate::T2 => string_from("T2 (Polite)"),
            TimingTemplate::T3 => string_from("T3 (Normal)"),
            TimingTemplate::T4 => string_from("T4 (Aggressive)"),
            TimingTemplate::T5 => string_from("T5 (Insane)"),
        }
    }
}

impl Default for TimingTemplate {
    fn default() -> (r: Self)
        ensures
            r == TimingTemplate::T3,
    {
        TimingTemplate::T3
    }
}

/// Slower templates wait at least as long and send no more probes at once.
pub proof fn lemma_timing_monotone(a: TimingTemplate, b: TimingTemplate)
    requires
        timing_rank(a) <= timing_rank(b),
    ensures
        base_rtt_timeout_ms(a) >= base_rtt_timeout_ms(b),
        scan_delay_ms(a) >= scan_delay_ms(b),
        max_parallelism_of(a) <= max_parallelism_of(b),
{
}

/// The template's number, 0 to 5.
pub open spec fn timing_rank(t: TimingTemplate) -> nat {
    match t {
        TimingTemplate::T0 => 0,
        TimingTemplate::T1 => 1,
        TimingTemplate::T2 => 2,
        TimingTemplate::T3 => 3,
        TimingTemplate::T4 => 4,
        TimingTemplate::T5 => 5,
    }
}

} // verus!
