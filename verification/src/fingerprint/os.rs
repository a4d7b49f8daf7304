//! Operating system fingerprinting from TCP/IP stack traits.

use vstd::prelude::*;
use crate::addr::IpAddr;
use crate::error::Result;
use crate::fingerprint::OsInfo;
use crate::text::{decimal_chars, string_from, push_str, push_decimal};

verus! {

/// Traits of a host's TCP/IP stack, read from its replies.
#[derive(Debug, Clone)]
pub struct TcpFingerprint {
    pub ttl: u8,
    pub window_size: u16,
    pub df_flag: bool,
    pub initial_seq: u32,
    pub mss: Option<u16>,
    pub window_scale: Option<u8>,
    pub sack_permitted: bool,
    pub tcp_options: Vec<u8>,
}

impl TcpFingerprint {
    /// A fingerprint with every trait zero, false or absent.
    pub fn new() -> (r: Self)
        ensures
            r.ttl == 0,
            r.window_size == 0,
            !r.df_flag,
            r.initial_seq == 0,
            r.mss is None,
            r.window_scale is None,
            !r.sack_permitted,
            r.tcp_options@.len() == 0,
    {
        TcpFingerprint {
            ttl: 0,
            window_size: 0,
            df_flag: false,
            initial_seq: 0,
            mss: None,
            window_scale: None,
            sack_permitted: false,
            tcp_options: Vec::new(),
        }
    }
}

impl Default for TcpFingerprint {
    fn default() -> (r: Self)
        ensures
            r.ttl == 0,
            r.window_size == 0,
            !r.df_flag,
            r.initial_seq == 0,
            r.mss is None,
            r.window_scale is None,
            !r.sack_permitted,
            r.tcp_options@.len() == 0,
    {
        Self::new()
    }
}

/// The family of systems that a fingerprint points to, by its TTL and
/// window size.
pub enum OsGuess {
    Linux,
    Unix,
    Windows,
    Cisco,
    Unknown,
}

/// Linux and other Unix systems start at TTL 64, Windows at 128, network
/// devices at 255; a Linux stack also opens a large window.
pub open spec fn os_guess(ttl: u8, window: u16) -> OsGuess {
    if 60 <= ttl <= 64 {
        if window == 65535 || window > 29200 {
            OsGuess::Linux
        } else {
            OsGuess::Unix
        }
    } else if 120 <= ttl <= 128 {
        OsGuess::Windows
    } else if ttl >= 250 {
        OsGuess::Cisco
    } else {
        OsGuess::Unknown
    }
}

/// The name that a guess reports.
pub open spec fn guess_name(g: OsGuess) -> Seq<char> {
    match g {
        OsGuess::Linux => "Linux"@,
        OsGuess::Unix => "Unix"@,
        OsGuess::Windows => "Windows"@,
        OsGuess::Cisco => "Cisco IOS"@,
        OsGuess::Unknown => "Unknown"@,
    }
}

/// The family that a guess reports.
pub open spec fn guess_family(g: OsGuess) -> Option<Seq<char>> {
    match g {
        OsGuess::Linux => Some("Unix"@),
        OsGuess::Unix => Some("Unix"@),
        OsGuess::Windows => Some("Windows"@),
        OsGuess::Cisco => Some("Network Device"@),
        OsGuess::Unknown => None,
    }
}

/// The observations that a guess rests on.
pub open spec fn guess_details(g: OsGuess, ttl: u8, window: u16) -> Seq<Seq<char>> {
    match g {
        OsGuess::Linux => seq!["TTL: 64 range"@, "Window: "@ + decimal_chars(window as nat)],
        OsGuess::Unix => seq!["TTL: 64 range"@],
        OsGuess::Windows => seq!["TTL: 128 range"@, "Window: "@ + decimal_chars(window as nat)],
        OsGuess::Cisco => seq!["TTL: 255 range"@],
        OsGuess::Unknown => seq!["TTL: "@ + decimal_chars(ttl as nat)],
    }
}

/// What a fingerprint reports by its TTL range: a TTL of 60 to 64 is Linux
/// when the window is above 29200 (and so also at 65535), with the window
/// noted, else another Unix; 120 to 128 is Windows; 250 and up is a Cisco
/// device; any other TTL is unknown, with the TTL noted.
pub proof fn lemma_os_guess_by_ranges(ttl: u8, window: u16)
    ensures
        60 <= ttl <= 64 && window > 29200 ==> {
            &&& guess_name(os_guess(ttl, window)) == "Linux"@
            &&& guess_family(os_guess(ttl, window)) == Some("Unix"@)
            &&& guess_details(os_guess(ttl, window), ttl, window) == seq!["TTL: 64 range"@, "Window: "@ + decimal_chars(window as nat)]
        },
        60 <= ttl <= 64 && window <= 29200 ==> {
            &&& guess_name(os_guess(ttl, window)) == "Unix"@
            &&& guess_family(os_guess(ttl, window)) == Some("Unix"@)
            &&& guess_details(os_guess(ttl, window), ttl, window) == seq!["TTL: 64 range"@]
        },
        120 <= ttl <= 128 ==> {
            &&& guess_name(os_guess(ttl, window)) == "Windows"@
            &&& guess_family(os_guess(ttl, window)) == Some("Windows"@)
        },
        ttl >= 250 ==> {
            &&& guess_name(os_guess(ttl, window)) == "Cisco IOS"@
            &&& guess_family(os_guess(ttl, window)) == Some("Network Device"@)
        },
        !(60 <= ttl <= 64) && !(120 <= ttl <= 128) && ttl < 250 ==> {
            &&& guess_name(os_guess(ttl, window)) == "Unknown"@
            &&& guess_family(os_guess(ttl, window)) is None
        },
{
}

/// Guesses operating systems from fingerprints.
pub struct OsDetector {}

impl OsDetector {
    pub fn new() -> (r: Self) {
        OsDetector {}
    }

    /// The system that a fingerprint points to: 60% confident for a known
    /// family, 10% otherwise.
    pub fn analyze_fingerprint(&self, fp: &TcpFingerprint) -> (r: OsInfo)
        ensures
            r.os_name@ == guess_name(os_guess(fp.ttl, fp.window_size)),
            r.os_family.deep_view() == guess_family(os_guess(fp.ttl, fp.window_size)),
            r.details.deep_view() == guess_details(os_guess(fp.ttl, fp.window_size), fp.ttl, fp.window_size),
            r.os_version is None,
            r.os_cpe is None,
            r.confidence == (if os_guess(fp.ttl, fp.window_size) is Unknown { 10u8 } else { 60u8 }),
            60 <= fp.ttl <= 64 && fp.window_size > 29200 ==> r.os_name@ == "Linux"@ && r.details@.len() == 2,
            60 <= fp.ttl <= 64 ==> r.confidence == 60,
    {
        let ghost g = os_guess(fp.ttl, fp.window_size);
        let mut details: Vec<String> = Vec::new();
        let (os_name, os_family, known) = if fp.ttl >= 60 && fp.ttl <= 64 {
            details.push(string_from("TTL: 64 range"));
            if fp.window_size == 65535 || fp.window_size > 29200 {
                let mut w = string_from("Window: ");
                push_decimal(&mut w, fp.window_size as u64);
                details.push(w);
                (string_from("Linux"), Some(string_from("Unix")), true)
            } else {
                (string_from("Unix"), Some(string_from("Unix")), true)
            }
        } else if fp.ttl >= 120 && fp.ttl <= 128 {
            details.push(string_from("TTL: 128 range"));
            let mut w = string_from("Window: ");
            push_decimal(&mut w, fp.window_size as u64);
            details.push(w);
            (string_from("Windows"), Some(string_from("Windows")), true)
        } else if fp.ttl >= 250 {
            details.push(string_from("TTL: 255 range"));
            (string_from("Cisco IOS"), Some(string_from("Network Device")), true)
        } else {
            let mut t = string_from("TTL: ");
            push_decimal(&mut t, fp.ttl as u64);
            details.push(t);
            (string_from("Unknown"), None, false)
        };
        assert(details.deep_view() =~= guess_details(g, fp.ttl, fp.window_size));
        let confidence: u8 = if known { 60 } else { 10 };
        OsInfo {
            os_name,
            os_family,
            os_version: None,
            os_cpe: None,
            confidence,
            details,
        }
    }

    /// The operating system of `target`, from its fingerprint.
    pub fn detect_os(&self, target: IpAddr, fingerprint_data: &TcpFingerprint) -> (r: Result<OsInfo>)
        ensures
            r matches Ok(info) && info.os_name@ == guess_name(os_guess(fingerprint_data.ttl, fingerprint_data.window_size))
                && info.os_family.deep_view() == guess_family(os_guess(fingerprint_data.ttl, fingerprint_data.window_size))
                && info.details.deep_view() == guess_details(
                    os_guess(fingerprint_data.ttl, fingerprint_data.window_size),
                    fingerprint_data.ttl,
                    fingerprint_data.window_size,
                )
                && info.os_version is None && info.os_cpe is None
                && info.confidence == (if os_guess(fingerprint_data.ttl, fingerprint_data.window_size) is Unknown { 10u8 } else { 60u8 }),
    {
        Ok(self.analyze_fingerprint(fingerprint_data))
    }
}

impl Default for OsDetector {
    fn default() -> (r: Self) {
        Self::new()
    }
}

} // verus!
