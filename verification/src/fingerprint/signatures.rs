//! Service and operating system signatures.

use vstd::prelude::*;
use crate::text::{chars_of, contains, contains_exec, string_from};

verus! {

/// A service signature: a greeting that holds `banner_pattern` comes from
/// `service`.
#[derive(Debug, Clone)]
pub struct ServiceSignature {
    pub service: String,
    pub product: Option<String>,
    pub version_regex: String,
    pub banner_pattern: String,
}

/// An operating system signature: a TTL range and a window size.
#[derive(Debug)]
pub struct OsSignature {
    pub os_name: String,
    pub os_family: String,
    pub ttl_range: (u8, u8),
    pub window_size: u16,
    pub tcp_options: Vec<u8>,
}

impl Clone for OsSignature {
    fn clone(&self) -> (r: Self)
        ensures
            r.os_name == self.os_name,
            r.os_family == self.os_family,
            r.ttl_range == self.ttl_range,
            r.window_size == self.window_size,
            r.tcp_options@ == self.tcp_options@,
    {
        OsSignature {
            os_name: self.os_name.clone(),
            os_family: self.os_family.clone(),
            ttl_range: self.ttl_range,
            window_size: self.window_size,
            tcp_options: self.tcp_options.clone(),
        }
    }
}

/// The text of one service signature: service, product, version pattern and
/// greeting pattern.
pub open spec fn service_sig_is(s: ServiceSignature, service: Seq<char>, product: Seq<char>, regex: Seq<char>, pattern: Seq<char>) -> bool {
    &&& s.service@ == service
    &&& s.product.deep_view() == Some(product)
    &&& s.version_regex@ == regex
    &&& s.banner_pattern@ == pattern
}

/// The service signatures that the database starts with.
pub open spec fn builtin_service_signatures(s: Seq<ServiceSignature>) -> bool {
    &&& s.len() == 3
    &&& service_sig_is(s[0], "ssh"@, "OpenSSH"@, "OpenSSH_(\\d+\\.\\d+p?\\d*)"@, "SSH-2.0-OpenSSH"@)
    &&& service_sig_is(s[1], "http"@, "Apache"@, "Apache/([\\d.]+)"@, "Server: Apache"@)
    &&& service_sig_is(s[2], "http"@, "nginx"@, "nginx/([\\d.]+)"@, "Server: nginx"@)
}

/// The text of one operating system signature.
pub open spec fn os_sig_is(s: OsSignature, name: Seq<char>, family: Seq<char>, ttl: u8, window: u16) -> bool {
    &&& s.os_name@ == name
    &&& s.os_family@ == family
    &&& s.ttl_range == (ttl, ttl)
    &&& s.window_size == window
    &&& s.tcp_options@.len() == 0
}

/// The operating system signatures that the database starts with.
pub open spec fn builtin_os_signatures(s: Seq<OsSignature>) -> bool {
    &&& s.len() == 2
    &&& os_sig_is(s[0], "Linux 4.x/5.x"@, "Linux"@, 64, 65535)
    &&& os_sig_is(s[1], "Windows 10"@, "Windows"@, 128, 8192)
}

/// The first service signature from `i` on whose pattern the greeting holds.
pub open spec fn first_service_match(sigs: Seq<ServiceSignature>, banner: Seq<char>, i: int) -> Option<int>
    decreases sigs.len() - i,
{
    if i < 0 || i >= sigs.len() {
        None
    } else if contains(banner, sigs[i].banner_pattern@) {
        Some(i)
    } else {
        first_service_match(sigs, banner, i + 1)
    }
}

/// An operating system signature that a TTL and window size fit.
pub open spec fn os_sig_fits(sig: OsSignature, ttl: u8, window: u16) -> bool {
    sig.ttl_range.0 <= ttl <= sig.ttl_range.1 && window == sig.window_size
}

/// The first operating system signature from `i` on that fits.
pub open spec fn first_os_match(sigs: Seq<OsSignature>, ttl: u8, window: u16, i: int) -> Option<int>
    decreases sigs.len() - i,
{
    if i < 0 || i >= sigs.len() {
        None
    } else if os_sig_fits(sigs[i], ttl, window) {
        Some(i)
    } else {
        first_os_match(sigs, ttl, window, i + 1)
    }
}

/// A database of signatures.
pub struct SignatureDatabase {
    service_signatures: Vec<ServiceSignature>,
    os_signatures: Vec<OsSignature>,
}

impl SignatureDatabase {
    /// The service signatures, in order.
    pub closed spec fn service_sigs(&self) -> Seq<ServiceSignature> {
        self.service_signatures@
    }

    /// The operating system signatures, in order.
    pub closed spec fn os_sigs(&self) -> Seq<OsSignature> {
        self.os_signatures@
    }

    /// The database with the built-in signatures.
    pub fn new() -> (r: Self)
        ensures
            builtin_service_signatures(r.service_sigs()),
            builtin_os_signatures(r.os_sigs()),
    {
        SignatureDatabase {
            service_signatures: Self::load_service_signatures(),
            os_signatures: Self::load_os_signatures(),
        }
    }

    pub fn load_service_signatures() -> (r: Vec<ServiceSignature>)
        ensures
            builtin_service_signatures(r@),
    {
        let mut v: Vec<ServiceSignature> = Vec::new();
        v.push(ServiceSignature {
            service: string_from("ssh"),
            product: Some(string_from("OpenSSH")),
            version_regex: string_from("OpenSSH_(\\d+\\.\\d+p?\\d*)"),
            banner_pattern: string_from("SSH-2.0-OpenSSH"),
        });
        v.push(ServiceSignature {
            service: string_from("http"),
            product: Some(string_from("Apache")),
            version_regex: string_from("Apache/([\\d.]+)"),
            banner_pattern: string_from("Server: Apache"),
        });
        v.push(ServiceSignature {
            service: string_from("http"),
            product: Some(string_from("nginx")),
            version_regex: string_from("nginx/([\\d.]+)"),
            banner_pattern: string_from("Server: nginx"),
        });
        v
    }

    pub fn load_os_signatures() -> (r: Vec<OsSignature>)
        ensures
            builtin_os_signatures(r@),
    {
        let mut v: Vec<OsSignature> = Vec::new();
        v.push(OsSignature {
            os_name: string_from("Linux 4.x/5.x"),
            os_family: string_from("Linux"),
            ttl_range: (64, 64),
            window_size: 65535,
            tcp_options: Vec::new(),
        });
        v.push(OsSignature {
            os_name: string_from("Windows 10"),
            os_family: string_from("Windows"),
            ttl_range: (128, 128),
            window_size: 8192,
            tcp_options: Vec::new(),
        });
        v
    }

    /// The first service signature whose greeting pattern the greeting holds.
    pub fn match_service(&self, banner: &str) -> (r: Option<&ServiceSignature>)
        ensures
            match first_service_match(self.service_sigs(), banner@, 0) {
                Some(k) => r == Some(&self.service_sigs()[k]),
                None => r is None,
            },
    {
        let b = chars_of(banner);
        let mut i: usize = 0;
        while i < self.service_signatures.len()
            invariant
                i <= self.service_signatures@.len(),
                first_service_match(self.service_sigs(), banner@, 0) == first_service_match(self.service_sigs(), banner@, i as int),
                b@ == banner@,
            decreases self.service_signatures.len() - i,
        {
            let sig = &self.service_signatures[i];
            let pat = chars_of(sig.banner_pattern.as_str());
            if contains_exec(&b, &pat) {
                return Some(sig);
            }
            i = i + 1;
        }
        None
    }

    /// The first operating system signature that the TTL and window size fit.
    pub fn match_os(&self, ttl: u8, window: u16) -> (r: Option<&OsSignature>)
        ensures
            match first_os_match(self.os_sigs(), ttl, window, 0) {
                Some(k) => r == Some(&self.os_sigs()[k]),
                None => r is None,
            },
    {
        let mut i: usize = 0;
        while i < self.os_signatures.len()
            invariant
                i <= self.os_signatures@.len(),
                first_os_match(self.os_sigs(), ttl, window, 0) == first_os_match(self.os_sigs(), ttl, window, i as int),
            decreases self.os_signatures.len() - i,
        {
            let sig = &self.os_signatures[i];
            if ttl >= sig.ttl_range.0 && ttl <= sig.ttl_range.1 && window == sig.window_size {
                return Some(sig);
            }
            i = i + 1;
        }
        None
    }
}

impl Default for SignatureDatabase {
    fn default() -> (r: Self)
        ensures
            builtin_service_signatures(r.service_sigs()),
            builtin_os_signatures(r.os_sigs()),
    {
        Self::new()
    }
}

} // verus!
