//! Port scanning: probes, the reading of replies, and results. The sockets
//! and the waiting are done by the caller; here is what to send and what a
//! reply or its absence means. Times are in microseconds, time limits in
//! milliseconds.

pub mod probe;
pub mod udp;
pub mod state;

use vstd::prelude::*;
use crate::addr::IpAddr;
use crate::error::{Error, Result};
use crate::scan::ScanType;
use crate::text::string_from;
use crate::types::{Port, PortState, Protocol, Target, bare_target};

verus! {

/// The outcome of scanning one port.
#[derive(Debug, Clone)]
pub struct PortScanResult {
    pub target: Target,
    pub port: Port,
    pub protocol: Protocol,
    pub state: PortState,
    /// Round-trip time in microseconds.
    pub rtt: Option<u64>,
    pub info: Option<String>,
}

/// How scanners behave: the time limit of each probe in milliseconds, the
/// retries, and how many probes may be under way at once.
#[derive(Debug, Clone, Copy)]
pub struct ScannerConfig {
    pub timeout: u64,
    pub max_retries: u32,
    pub max_concurrent: usize,
}

impl Default for ScannerConfig {
    /// Two seconds per probe, two retries, a thousand probes at once.
    fn default() -> (r: Self)
        ensures
            r.timeout == 2000,
            r.max_retries == 2,
            r.max_concurrent == 1000,
    {
        ScannerConfig { timeout: 2000, max_retries: 2, max_concurrent: 1000 }
    }
}

/// The result given for a port whose scan failed.
pub fn failed_scan_result(target: IpAddr, port: Port) -> (r: PortScanResult)
    ensures
        r.target == bare_target(target),
        r.port == port,
        r.protocol == Protocol::Tcp,
        r.state == PortState::Unknown,
        r.rtt is None,
        r.info matches Some(i) && i@ == "Scan error"@,
{
    PortScanResult {
        target: Target::new(target),
        port,
        protocol: Protocol::Tcp,
        state: PortState::Unknown,
        rtt: None,
        info: Some(string_from("Scan error")),
    }
}

/// The outcome of opening a connection.
#[derive(Debug, Clone, Copy, PartialEq, Eq, Structural)]
pub enum ConnectOutcome {
    /// The connection was made after the given microseconds.
    Connected(u64),
    /// The connection was refused after the given microseconds.
    Refused(u64),
    /// No answer came within the time limit.
    TimedOut,
}

/// Scans by opening ordinary connections.
pub struct TcpConnectScanner {
    config: ScannerConfig,
}

impl TcpConnectScanner {
    /// The scanner's configuration.
    pub closed spec fn config_spec(&self) -> ScannerConfig {
        self.config
    }

    pub fn new(config: ScannerConfig) -> (r: Self)
        ensures
            r.config_spec() == config,
    {
        TcpConnectScanner { config }
    }

    /// The scanner's configuration.
    pub fn config(&self) -> (r: ScannerConfig)
        ensures
            r == self.config_spec(),
    {
        self.config
    }

    /// What a connection attempt shows: a made connection an open port, a
    /// refused one a closed port, no answer a filtered port.
    pub fn scan_result(&self, target: IpAddr, port: Port, outcome: ConnectOutcome) -> (r: PortScanResult)
        ensures
            r.target == bare_target(target),
            r.port == port,
            r.protocol == Protocol::Tcp,
            r.info is None,
            match outcome {
                ConnectOutcome::Connected(t) => r.state == PortState::Open && r.rtt == Some(t),
                ConnectOutcome::Refused(t) => r.state == PortState::Closed && r.rtt == Some(t),
                ConnectOutcome::TimedOut => r.state == PortState::Filtered && r.rtt is None,
            },
    {
        let (state, rtt) = match outcome {
            ConnectOutcome::Connected(t) => (PortState::Open, Some(t)),
            ConnectOutcome::Refused(t) => (PortState::Closed, Some(t)),
            ConnectOutcome::TimedOut => (PortState::Filtered, None),
        };
        PortScanResult { target: Target::new(target), port, protocol: Protocol::Tcp, state, rtt, info: None }
    }

    pub fn scan_type(&self) -> (r: ScanType)
        ensures
            r == ScanType::TcpConnect,
    {
        ScanType::TcpConnect
    }
}

/// The error given for an IPv6 target, which the raw scanners do not handle.
pub fn ipv6_unsupported() -> (r: Error)
    ensures
        r matches Error::InvalidInput(m) && m@ == "IPv6 not yet supported"@,
{
    Error::InvalidInput(string_from("IPv6 not yet supported"))
}

/// The next value of a 32-bit xorshift generator.
pub open spec fn xorshift_next(seed: u32) -> u32 {
    let a = seed ^ (seed << 13u32);
    let b = a ^ (a >> 17u32);
    b ^ (b << 5u32)
}

/// The next value of a 32-bit xorshift generator (shifts by 13, 17 and 5),
/// used to pick starting sequence numbers.
pub fn xorshift(seed: u32) -> (r: u32)
    ensures
        r == xorshift_next(seed),
{
    let mut s = seed;
    s = s ^ (s << 13u32);
    s = s ^ (s >> 17u32);
    s = s ^ (s << 5u32);
    s
}

/// A nonzero seed never leads to zero, so the generator never gets stuck.
pub proof fn lemma_xorshift_nonzero(seed: u32)
    requires
        seed != 0,
    ensures
        xorshift_next(seed) != 0,
{
    assert(seed != 0 ==> (seed ^ (seed << 13u32)) != 0) by (bit_vector);
    let a = seed ^ (seed << 13u32);
    assert(a != 0 ==> (a ^ (a >> 17u32)) != 0) by (bit_vector);
    let b = a ^ (a >> 17u32);
    assert(b != 0 ==> (b ^ (b << 5u32)) != 0) by (bit_vector);
}

} // verus!
