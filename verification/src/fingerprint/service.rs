//! Service version detection.

use vstd::prelude::*;
use core::time::Duration;
use crate::error::Result;
use crate::fingerprint::ServiceInfo;
use crate::fingerprint::banner::{BannerGrabber, banner_service, banner_version, version_readable,
    extract_service_from_banner, extract_version_from_banner};
use crate::text::{chars_of, find, trim, find_str, eq_str, string_from, string_of, trim_exec, slice_vec};

verus! {

/// The service usually found on a well-known port.
pub open spec fn port_service_guess(port: u16) -> Option<Seq<char>> {
    match port {
        21 => Some("ftp"@),
        22 => Some("ssh"@),
        23 => Some("telnet"@),
        25 => Some("smtp"@),
        53 => Some("dns"@),
        80 => Some("http"@),
        110 => Some("pop3"@),
        143 => Some("imap"@),
        443 => Some("https"@),
        445 => Some("microsoft-ds"@),
        3306 => Some("mysql"@),
        3389 => Some("ms-wbt-server"@),
        5432 => Some("postgresql"@),
        6379 => Some("redis"@),
        8080 => Some("http-proxy"@),
        _ => None,
    }
}

/// The product and the extra information that a greeting shows: the
/// server software of a `Server:` line split at its `/`, or OpenSSH and
/// what follows its version.
pub open spec fn product_info(b: Seq<char>, service: Option<Seq<char>>) -> (Option<Seq<char>>, Option<Seq<char>>) {
    if service == Some("http"@) {
        match find(b, "Server:"@) {
            Some(i) => {
                let line = b.skip(i + 7);
                match find(line, "\r"@) {
                    Some(e) => {
                        let server = trim(line.take(e));
                        match find(server, "/"@) {
                            Some(sl) => {
                                let product = server.take(sl);
                                let rest = server.skip(sl + 1);
                                match find(rest, " "@) {
                                    Some(sp) => (Some(product), Some(rest.skip(sp + 1))),
                                    None => (Some(product), Some(rest)),
                                }
                            },
                            None => (None, None),
                        }
                    },
                    None => (None, None),
                }
            },
            None => (None, None),
        }
    } else if service == Some("ssh"@) {
        match find(b, "OpenSSH"@) {
            Some(i) => {
                let rest = b.skip(i);
                match find(rest, " "@) {
                    Some(sp) => (Some("OpenSSH"@), Some(trim(rest.skip(sp + 1)))),
                    None => (None, None),
                }
            },
            None => (None, None),
        }
    } else {
        (None, None)
    }
}

/// The greetings that can be analysed: where the greeting names a service,
/// its version can be read.
pub open spec fn analysis_readable(b: Seq<char>, port: u16) -> bool {
    match banner_service(b, port) {
        Some(s) => version_readable(b, s),
        None => true,
    }
}

/// The version that a greeting reveals, once its service is known.
pub open spec fn analysed_version(b: Seq<char>, port: u16) -> Option<Seq<char>> {
    match banner_service(b, port) {
        Some(s) => banner_version(b, s),
        None => None,
    }
}

/// The confidence, in percent, that a detection earns: high with a version,
/// medium with a service name alone, low without either.
pub open spec fn detection_confidence(service: Option<Seq<char>>, version: Option<Seq<char>>) -> u8 {
    if version is Some {
        90
    } else if service is Some {
        50
    } else {
        10
    }
}

/// Detects services by their greetings.
pub struct ServiceDetector {
    banner_grabber: BannerGrabber,
}

impl ServiceDetector {
    /// The time limit of each connection and read.
    pub closed spec fn timeout_spec(&self) -> Duration {
        self.banner_grabber.timeout_spec()
    }

    pub fn new(timeout: Duration) -> (r: Self)
        ensures
            r.timeout_spec() == timeout,
    {
        ServiceDetector { banner_grabber: BannerGrabber::new(timeout) }
    }

    /// The reader of greetings that the detector uses.
    pub fn banner_grabber(&self) -> (r: &BannerGrabber)
        ensures
            r.timeout_spec() == self.timeout_spec(),
    {
        &self.banner_grabber
    }

    /// What a greeting read from `port` shows: the service, its version, the
    /// product and extra information.
    pub fn analyze_banner(&self, banner: &str, port: u16) -> (r: (Option<String>, Option<String>, Option<String>, Option<String>))
        requires
            analysis_readable(banner@, port),
        ensures
            r.0.deep_view() == banner_service(banner@, port),
            r.1.deep_view() == analysed_version(banner@, port),
            r.2.deep_view() == product_info(banner@, banner_service(banner@, port)).0,
            r.3.deep_view() == product_info(banner@, banner_service(banner@, port)).1,
    {
        let service = extract_service_from_banner(banner, port);
        let version = match &service {
            Some(svc) => extract_version_from_banner(banner, svc.as_str()),
            None => None,
        };
        let (product, extra_info) = self.extract_product_info(banner, &service);
        (service, version, product, extra_info)
    }

    /// The product and extra information that a greeting of the named
    /// service shows.
    pub fn extract_product_info(&self, banner: &str, service: &Option<String>) -> (r: (Option<String>, Option<String>))
        ensures
            r.0.deep_view() == product_info(banner@, service.deep_view()).0,
            r.1.deep_view() == product_info(banner@, service.deep_view()).1,
    {
        proof {
            reveal_strlit("Server:");
            reveal_strlit("/");
            reveal_strlit(" ");
        }
        let b = chars_of(banner);
        let is_http = match service {
            Some(s) => {
                let sv = chars_of(s.as_str());
                eq_str(&sv, "http")
            },
            None => false,
        };
        let is_ssh = match service {
            Some(s) => {
                let sv = chars_of(s.as_str());
                eq_str(&sv, "ssh")
            },
            None => false,
        };
        assert(is_http == (service.deep_view() == Some("http"@)));
        assert(is_ssh == (service.deep_view() == Some("ssh"@)));
        if is_http {
            if let Some(start) = find_str(&b, "Server:") {
                let n: usize = b.len();
                let line = slice_vec(&b, start + 7, n);
                assert(line@ =~= b@.skip(start + 7));
                if let Some(end) = find_str(&line, "\r") {
                    let raw = slice_vec(&line, 0, end);
                    assert(raw@ =~= line@.take(end as int));
                    let server = trim_exec(&raw);
                    if let Some(slash) = find_str(&server, "/") {
                        let product = slice_vec(&server, 0, slash);
                        assert(product@ =~= server@.take(slash as int));
                        let m: usize = server.len();
                        let rest = slice_vec(&server, slash + 1, m);
                        assert(rest@ =~= server@.skip(slash + 1));
                        if let Some(space) = find_str(&rest, " ") {
                            let k: usize = rest.len();
                            let extra = slice_vec(&rest, space + 1, k);
                            assert(extra@ =~= rest@.skip(space + 1));
                            return (Some(string_of(&product)), Some(string_of(&extra)));
                        } else {
                            return (Some(string_of(&product)), Some(string_of(&rest)));
                        }
                    }
                }
            }
        } else if is_ssh {
            if let Some(pos) = find_str(&b, "OpenSSH") {
                let n: usize = b.len();
                let rest = slice_vec(&b, pos, n);
                assert(rest@ =~= b@.skip(pos as int));
                if let Some(space) = find_str(&rest, " ") {
                    let k: usize = rest.len();
                    let tail = slice_vec(&rest, space + 1, k);
                    assert(tail@ =~= rest@.skip(space + 1));
                    let extra = trim_exec(&tail);
                    return (Some(string_from("OpenSSH")), Some(string_of(&extra)));
                }
            }
        }
        (None, None)
    }

    /// The service usually found on a well-known port.
    pub fn guess_service_by_port(&self, port: u16) -> (r: Option<String>)
        ensures
            r.deep_view() == port_service_guess(port),
    {
        match port {
            21 => Some(string_from("ftp")),
            22 => Some(string_from("ssh")),
            23 => Some(string_from("telnet")),
            25 => Some(string_from("smtp")),
            53 => Some(string_from("dns")),
            80 => Some(string_from("http")),
            110 => Some(string_from("pop3")),
            143 => Some(string_from("imap")),
            443 => Some(string_from("https")),
            445 => Some(string_from("microsoft-ds")),
            3306 => Some(string_from("mysql")),
            3389 => Some(string_from("ms-wbt-server")),
            5432 => Some(string_from("postgresql")),
            6379 => Some(string_from("redis")),
            8080 => Some(string_from("http-proxy")),
            _ => None,
        }
    }

    /// What is known of the TCP service on `port`, from the outcome of
    /// reading its greeting: the greeting's analysis where one was read, the
    /// port's usual service where none was.
    pub fn service_info(&self, port: u16, banner_result: Result<String>) -> (r: ServiceInfo)
        requires
            banner_result matches Ok(b) ==> analysis_readable(b@, port),
        ensures
            r.port == port,
            r.protocol@ == "tcp"@,
            banner_result matches Ok(b) ==> {
                &&& r.banner@ == b@
                &&& r.service_name.deep_view() == banner_service(b@, port)
                &&& r.version.deep_view() == analysed_version(b@, port)
                &&& r.product.deep_view() == product_info(b@, banner_service(b@, port)).0
                &&& r.extra_info.deep_view() == product_info(b@, banner_service(b@, port)).1
            },
            banner_result is Err ==> {
                &&& r.banner@ == Seq::<char>::empty()
                &&& r.service_name.deep_view() == port_service_guess(port)
                &&& r.version is None
                &&& r.product is None
                &&& r.extra_info is None
            },
            r.confidence == detection_confidence(r.service_name.deep_view(), r.version.deep_view()),
    {
        let (banner, service_name, version, product, extra_info) = match banner_result {
            Ok(banner) => {
                let (svc, ver, prod, extra) = self.analyze_banner(banner.as_str(), port);
                (banner, svc, ver, prod, extra)
            },
            Err(_) => (String::new(), self.guess_service_by_port(port), None, None, None),
        };
        let confidence: u8 = if version.is_some() {
            90
        } else if service_name.is_some() {
            50
        } else {
            10
        };
        ServiceInfo {
            port,
            protocol: string_from("tcp"),
            service_name,
            version,
            product,
            extra_info,
            banner,
            confidence,
        }
    }
}

} // verus!
