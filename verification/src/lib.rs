//! Verified core of a network auditing toolkit: packet construction and
//! parsing, port and address specifications, service and OS fingerprinting
//! rules, vulnerability lookup and scan chaining rules.

pub mod addr;
pub mod addr_text;
pub mod error;
pub mod packet;
pub mod text;
pub mod types;
pub mod net;
pub mod fingerprint;
pub mod avm_data;
pub mod scan;
pub mod output;
pub mod scanner;
pub mod discovery;
pub mod chaining;
pub mod scripting;
pub mod pipeline;
pub mod cli;
pub mod timing;
