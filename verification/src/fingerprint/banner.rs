//! Reading what a service's greeting says about the service.

use vstd::prelude::*;
use core::time::Duration;
use crate::error::{Error, Result};
use crate::text::{chars_of, contains, starts_with, find, trim, contains_str, starts_with_str, find_str,
    eq_str, string_from, string_of, string_of_range, trim_exec, slice_vec, push_str, push_all};

verus! {

/// The text that `String::from_utf8_lossy` makes of `bytes`: the bytes
/// decoded as UTF-8, each malformed sequence replaced by U+FFFD.
pub uninterp spec fn utf8_lossy(bytes: Seq<u8>) -> Seq<char>;

/// Every byte is ASCII.
pub open spec fn ascii_bytes(bytes: Seq<u8>) -> bool {
    forall|i: int| 0 <= i < bytes.len() ==> #[trigger] bytes[i] < 128
}

/// ASCII bytes read as the characters they encode.
pub open spec fn ascii_text(bytes: Seq<u8>) -> Seq<char> {
    bytes.map_values(|b: u8| b as char)
}

/// Calls `String::from_utf8_lossy` and takes the text it returns: the
/// contract claims that the text depends on the bytes alone, and that ASCII
/// bytes, which are valid UTF-8, come back as their characters. How
/// malformed sequences are replaced is not restated.
#[verifier::external_body]
fn decode_lossy(bytes: &Vec<u8>) -> (r: String)
    ensures
        r@ == utf8_lossy(bytes@),
        ascii_bytes(bytes@) ==> r@ == ascii_text(bytes@),
{
    String::from_utf8_lossy(bytes.as_slice()).into_owned()
}

/// The request sent to web ports before reading: `GET / HTTP/1.0`, then an
/// empty line.
pub open spec fn http_get_probe() -> Seq<u8> {
    seq![71u8, 69, 84, 32, 47, 32, 72, 84, 84, 80, 47, 49, 46, 48, 13, 10, 13, 10]
}

/// Reads service greetings within a time limit.
pub struct BannerGrabber {
    timeout: Duration,
}

impl BannerGrabber {
    /// The time limit of each connection and read.
    pub closed spec fn timeout_spec(&self) -> Duration {
        self.timeout
    }

    pub fn new(timeout_duration: Duration) -> (r: Self)
        ensures
            r.timeout_spec() == timeout_duration,
    {
        BannerGrabber { timeout: timeout_duration }
    }

    /// The time limit of each connection and read.
    pub fn timeout(&self) -> (r: Duration)
        ensures
            r == self.timeout_spec(),
    {
        self.timeout
    }

    /// What to send before reading a greeting: an HTTP request on the web
    /// ports 80, 8080 and 8000, nothing elsewhere.
    pub fn get_probe_for_port(&self, port: u16) -> (r: Option<Vec<u8>>)
        ensures
            r is Some <==> (port == 80 || port == 8080 || port == 8000),
            r matches Some(v) ==> v@ == http_get_probe(),
    {
        match port {
            80 | 8080 | 8000 => {
                let v: Vec<u8> = vec![71u8, 69, 84, 32, 47, 32, 72, 84, 84, 80, 47, 49, 46, 48, 13, 10, 13, 10];
                Some(v)
            },
            _ => None,
        }
    }

    /// The greeting made of the bytes that were read: an error where none
    /// were, else their text.
    pub fn banner_from_bytes(&self, data: &Vec<u8>) -> (r: Result<String>)
        ensures
            data@.len() == 0 ==> (r matches Err(Error::Network(m)) && m@ == "No banner received"@),
            data@.len() > 0 ==> (r matches Ok(s) && s@ == utf8_lossy(data@)),
            data@.len() > 0 && ascii_bytes(data@) ==> (r matches Ok(s) && s@ == ascii_text(data@)),
    {
        if data.len() == 0 {
            return Err(Error::Network(string_from("No banner received")));
        }
        Ok(decode_lossy(data))
    }
}

/// The service that a greeting reveals.
pub open spec fn banner_service(b: Seq<char>, port: u16) -> Option<Seq<char>> {
    if contains(b, "HTTP/"@) {
        Some("http"@)
    } else if starts_with(b, "SSH-"@) {
        Some("ssh"@)
    } else if contains(b, "FTP"@) || contains(b, "220"@) {
        Some("ftp"@)
    } else if contains(b, "SMTP"@) || (port == 25 && contains(b, "220"@)) {
        Some("smtp"@)
    } else if contains(b, "mysql"@) || (b.len() > 0 && b[0] == '\n') {
        Some("mysql"@)
    } else if contains(b, "PostgreSQL"@) {
        Some("postgresql"@)
    } else {
        None
    }
}

/// Each mark of a greeting names its service, an earlier mark in this list
/// taking precedence: `HTTP/` gives http, a leading `SSH-` ssh, `FTP` or
/// `220` ftp, `SMTP` smtp, `mysql` or a leading newline mysql, and
/// `PostgreSQL` postgresql; a greeting with none of them names no service.
pub proof fn lemma_banner_marks(b: Seq<char>, port: u16)
    ensures
        contains(b, "HTTP/"@) ==> banner_service(b, port) == Some("http"@),
        !contains(b, "HTTP/"@) && starts_with(b, "SSH-"@) ==> banner_service(b, port) == Some("ssh"@),
        !contains(b, "HTTP/"@) && !starts_with(b, "SSH-"@) && (contains(b, "FTP"@) || contains(b, "220"@))
            ==> banner_service(b, port) == Some("ftp"@),
        !contains(b, "HTTP/"@) && !starts_with(b, "SSH-"@) && !contains(b, "FTP"@) && !contains(b, "220"@)
            && contains(b, "SMTP"@) ==> banner_service(b, port) == Some("smtp"@),
        !contains(b, "HTTP/"@) && !starts_with(b, "SSH-"@) && !contains(b, "FTP"@) && !contains(b, "220"@)
            && !contains(b, "SMTP"@) && contains(b, "mysql"@) ==> banner_service(b, port) == Some("mysql"@),
        !contains(b, "HTTP/"@) && !starts_with(b, "SSH-"@) && !contains(b, "FTP"@) && !contains(b, "220"@)
            && !contains(b, "SMTP"@) && !contains(b, "mysql"@) && !(b.len() > 0 && b[0] == '\n')
            && contains(b, "PostgreSQL"@) ==> banner_service(b, port) == Some("postgresql"@),
        !contains(b, "HTTP/"@) && !starts_with(b, "SSH-"@) && !contains(b, "FTP"@) && !contains(b, "220"@)
            && !contains(b, "SMTP"@) && !contains(b, "mysql"@) && !(b.len() > 0 && b[0] == '\n')
            && !contains(b, "PostgreSQL"@) ==> banner_service(b, port) is None,
{
}

/// The greetings whose version can be read without slicing through a
/// character: after `ProFTPD` in an FTP greeting there must be a one-byte
/// character, which the version reading skips.
pub open spec fn version_readable(b: Seq<char>, service: Seq<char>) -> bool {
    service == "ftp"@ ==> match find(b, "ProFTPD"@) {
        Some(i) => i + 7 < b.len() && (b[i + 7] as u32) < 0x80,
        None => true,
    }
}

/// The text from the end of `from` in `b` up to the first `to` after it.
pub open spec fn text_after(b: Seq<char>, from: Seq<char>, skip: int, to: Seq<char>) -> Option<Seq<char>> {
    match find(b, from) {
        Some(i) => {
            let rest = b.skip(i + skip);
            match find(rest, to) {
                Some(e) => Some(rest.take(e)),
                None => None,
            }
        },
        None => None,
    }
}

/// The version that a greeting of the named service reveals.
pub open spec fn banner_version(b: Seq<char>, service: Seq<char>) -> Option<Seq<char>> {
    if service == "ssh"@ {
        text_after(b, "OpenSSH_"@, 8, " "@)
    } else if service == "http"@ {
        match text_after(b, "Server:"@, 7, "\r"@) {
            Some(t) => Some(trim(t)),
            None => None,
        }
    } else if service == "ftp"@ {
        match text_after(b, "ProFTPD"@, 8, " "@) {
            Some(t) => Some("ProFTPD "@ + t),
            None => None,
        }
    } else {
        None
    }
}

/// Tells whether `extract_version_from_banner` can read this greeting.
pub fn is_version_readable(banner: &str, service: &str) -> (r: bool)
    ensures
        r == version_readable(banner@, service@),
{
    let b = chars_of(banner);
    let svc = chars_of(service);
    if !eq_str(&svc, "ftp") {
        return true;
    }
    match find_str(&b, "ProFTPD") {
        Some(i) => {
            proof {
                reveal_strlit("ProFTPD");
            }
            let n: usize = b.len();
            if n - i > 7 {
                (b[i + 7] as u32) < 0x80
            } else {
                false
            }
        },
        None => true,
    }
}

/// The service that a greeting reveals, by the marks that its protocol
/// puts in it.
pub fn extract_service_from_banner(banner: &str, port: u16) -> (r: Option<String>)
    ensures
        r.deep_view() == banner_service(banner@, port),
{
    let b = chars_of(banner);
    if contains_str(&b, "HTTP/") {
        return Some(string_from("http"));
    }
    if starts_with_str(&b, "SSH-") {
        return Some(string_from("ssh"));
    }
    if contains_str(&b, "FTP") || contains_str(&b, "220") {
        return Some(string_from("ftp"));
    }
    if contains_str(&b, "SMTP") || (port == 25 && contains_str(&b, "220")) {
        return Some(string_from("smtp"));
    }
    if contains_str(&b, "mysql") || (b.len() > 0 && b[0] == '\n') {
        return Some(string_from("mysql"));
    }
    if contains_str(&b, "PostgreSQL") {
        return Some(string_from("postgresql"));
    }
    None
}

/// The text after the first `from` in `b`, skipping `skip` characters from
/// where it starts, up to the first `to`.
fn text_after_exec(b: &Vec<char>, from: &str, skip: usize, to: &str) -> (r: Option<Vec<char>>)
    requires
        from@.len() <= skip,
        skip > from@.len() ==> (find(b@, from@) matches Some(i) ==> i + skip <= b@.len()),
    ensures
        r matches Some(t) ==> text_after(b@, from@, skip as int, to@) == Some(t@),
        r is None ==> text_after(b@, from@, skip as int, to@) is None,
{
    match find_str(b, from) {
        Some(start) => {
            let n: usize = b.len();
            let rest = slice_vec(b, start + skip, n);
            assert(rest@ =~= b@.skip(start + skip));
            match find_str(&rest, to) {
                Some(end) => {
                    let t = slice_vec(&rest, 0, end);
                    assert(t@ =~= rest@.take(end as int));
                    Some(t)
                },
                None => None,
            }
        },
        None => None,
    }
}

/// The version that a greeting of the named service reveals: OpenSSH's
/// version, a web server's `Server:` line, or ProFTPD's version.
pub fn extract_version_from_banner(banner: &str, service: &str) -> (r: Option<String>)
    requires
        version_readable(banner@, service@),
    ensures
        r.deep_view() == banner_version(banner@, service@),
{
    proof {
        reveal_strlit("OpenSSH_");
        reveal_strlit("Server:");
        reveal_strlit("ProFTPD");
    }
    let b = chars_of(banner);
    let svc = chars_of(service);
    if eq_str(&svc, "ssh") {
        match text_after_exec(&b, "OpenSSH_", 8, " ") {
            Some(t) => Some(string_of(&t)),
            None => None,
        }
    } else if eq_str(&svc, "http") {
        match text_after_exec(&b, "Server:", 7, "\r") {
            Some(t) => {
                let v = trim_exec(&t);
                Some(string_of(&v))
            },
            None => None,
        }
    } else if eq_str(&svc, "ftp") {
        match text_after_exec(&b, "ProFTPD", 8, " ") {
            Some(t) => {
                let mut s = String::new();
                push_str(&mut s, "ProFTPD ");
                push_all(&mut s, &t);
                Some(s)
            },
            None => None,
        }
    } else {
        None
    }
}

} // verus!
