//! Service version detection and operating system fingerprinting.

pub mod banner;
pub mod service;
pub mod os;
pub mod signatures;
pub mod avm;
pub mod cap;
pub mod asset;

use vstd::prelude::*;
use crate::addr::IpAddr;

verus! {

/// What was learned about the service behind one port. The confidence is
/// in percent.
#[derive(Debug, Clone)]
pub struct ServiceInfo {
    pub port: u16,
    pub protocol: String,
    pub service_name: Option<String>,
    pub version: Option<String>,
    pub product: Option<String>,
    pub extra_info: Option<String>,
    pub banner: String,
    pub confidence: u8,
}

/// What was learned about a host's operating system. The confidence is in
/// percent.
#[derive(Debug, Clone)]
pub struct OsInfo {
    pub os_name: String,
    pub os_family: Option<String>,
    pub os_version: Option<String>,
    pub os_cpe: Option<String>,
    pub confidence: u8,
    pub details: Vec<String>,
}

/// Everything learned about one host.
#[derive(Debug, Clone)]
pub struct FingerprintResult {
    pub target: IpAddr,
    pub services: Vec<ServiceInfo>,
    pub os: Option<OsInfo>,
}

} // verus!
