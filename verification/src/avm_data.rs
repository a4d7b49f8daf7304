//! Known vulnerabilities described by the versions they affect, given as
//! regular expressions. Impact scores are held in tenths of a CVSS point
//! (98 stands for 9.8).

use vstd::prelude::*;
use regex::Regex;
use crate::text::{chars_of, contains, contains_exec, lowercase, to_lowercase, string_from};

verus! {

#[verifier::external_type_specification]
#[verifier::external_body]
pub struct ExRegex(Regex);

/// Whether `Regex::new` accepts a pattern, which depends on the pattern
/// alone (its syntax, and the default size limit).
pub uninterp spec fn regex_valid(pattern: Seq<char>) -> bool;

/// Whether the regular expression compiled from `pattern` matches somewhere
/// in `text` (`Regex::is_match`).
pub uninterp spec fn regex_matches(pattern: Seq<char>, text: Seq<char>) -> bool;

/// A regular expression together with the pattern it was compiled from.
pub struct CompiledRegex {
    re: Regex,
    pattern: String,
}

impl View for CompiledRegex {
    type V = Seq<char>;

    /// The pattern that the expression was compiled from.
    closed spec fn view(&self) -> Seq<char> {
        self.pattern@
    }
}

/// Calls `Regex::new`: the contract claims that it succeeds exactly for the
/// patterns that `regex_valid` names, and keeps the pattern beside the
/// expression.
#[verifier::external_body]
fn compile_regex(pattern: &str) -> (r: Option<CompiledRegex>)
    ensures
        r is Some <==> regex_valid(pattern@),
        r matches Some(c) ==> c@ == pattern@,
{
    match Regex::new(pattern) {
        Ok(re) => Some(CompiledRegex { re, pattern: pattern.to_string() }),
        Err(_) => None,
    }
}

/// Calls `Regex::is_match`: the contract claims that the result is what
/// `regex_matches` names for the expression's pattern and the text.
#[verifier::external_body]
fn regex_is_match(re: &CompiledRegex, text: &str) -> (r: bool)
    ensures
        r == regex_matches(re@, text@),
{
    re.re.is_match(text)
}

/// A known vulnerability: the service it affects, the pattern of the
/// affected versions, its impact in tenths of a CVSS point and its CVE
/// identifiers.
#[derive(Debug, Clone)]
pub struct AVMEntry {
    pub service_name: String,
    pub version_regex: String,
    pub impact_score: u16,
    pub cve_ids: Vec<String>,
}

impl View for AVMEntry {
    type V = (Seq<char>, Seq<char>, u16, Seq<Seq<char>>);

    open spec fn view(&self) -> (Seq<char>, Seq<char>, u16, Seq<Seq<char>>) {
        (self.service_name@, self.version_regex@, self.impact_score, self.cve_ids.deep_view())
    }
}

/// An entry holds a service and version: its service name contains the
/// asked name, both in lowercase, and its pattern matches the version, or,
/// where the pattern is no valid expression, occurs in the version as text.
pub open spec fn avm_matches(entry: (Seq<char>, Seq<char>, u16, Seq<Seq<char>>), service: Seq<char>, version: Seq<char>) -> bool {
    &&& contains(lowercase(entry.0), lowercase(service))
    &&& if regex_valid(entry.1) {
        regex_matches(entry.1, version)
    } else {
        contains(version, entry.1)
    }
}

impl AVMEntry {
    pub fn new(service_name: String, version_regex: String, impact_score: u16, cve_ids: Vec<String>) -> (r: Self)
        ensures
            r@ == (service_name@, version_regex@, impact_score, cve_ids.deep_view()),
    {
        AVMEntry { service_name, version_regex, impact_score, cve_ids }
    }

    /// The expression compiled from the entry's pattern, where it is valid.
    fn get_regex(&self) -> (r: Option<CompiledRegex>)
        ensures
            r is Some <==> regex_valid(self.version_regex@),
            r matches Some(c) ==> c@ == self.version_regex@,
    {
        compile_regex(self.version_regex.as_str())
    }

    /// The entry holds the service and version.
    pub fn matches(&self, service: &str, version: &str) -> (r: bool)
        ensures
            r == avm_matches(self@, service@, version@),
    {
        let own = to_lowercase(self.service_name.as_str());
        let asked = to_lowercase(service);
        let a = chars_of(own.as_str());
        let b = chars_of(asked.as_str());
        if !contains_exec(&a, &b) {
            return false;
        }
        match self.get_regex() {
            Some(re) => regex_is_match(&re, version),
            None => {
                let v = chars_of(version);
                let p = chars_of(self.version_regex.as_str());
                contains_exec(&v, &p)
            },
        }
    }
}

/// The built-in vulnerabilities, in order.
pub open spec fn avm_table() -> Seq<(Seq<char>, Seq<char>, u16, Seq<Seq<char>>)> {
    seq![
        ("Apache httpd"@, "2\\.4\\.(49|50)"@, 98u16, seq!["CVE-2021-41773"@, "CVE-2021-42013"@]),
        ("Apache httpd"@, "2\\.4\\.(([0-4][0-9])|50)"@, 75u16, seq!["CVE-2021-44790"@, "CVE-2021-39275"@]),
        ("OpenSSH"@, "^[1-7]\\.|^8\\.[0-4]"@, 81u16, seq!["CVE-2021-28041"@, "CVE-2020-14145"@]),
        ("nginx"@, "^1\\.(1[0-9]\\.|20\\.0)"@, 77u16, seq!["CVE-2021-23017"@]),
        ("vsftpd"@, "2\\.3\\.4"@, 100u16, seq!["CVE-2011-2523"@]),
        ("ProFTPD"@, "1\\.3\\.[0-5]"@, 98u16, seq!["CVE-2019-12815"@, "CVE-2020-9273"@]),
        ("MySQL"@, "5\\.7\\.(([0-2][0-9])|3[0-4])"@, 75u16, seq!["CVE-2021-2389"@, "CVE-2021-2372"@]),
        ("PostgreSQL"@, "^(9\\.|1[0-2]\\.|13\\.[0-3])"@, 65u16, seq!["CVE-2021-32027"@]),
        ("Samba"@, "4\\.(([0-9]|1[0-2])\\.|13\\.(([0-9]|1[0-3])[^0-9]))"@, 99u16, seq!["CVE-2021-44142"@]),
        ("Microsoft-IIS"@, "10\\.0"@, 98u16, seq!["CVE-2021-31166"@]),
    ]
}

/// The plain values of a list of entries.
pub open spec fn avm_views(s: Seq<AVMEntry>) -> Seq<(Seq<char>, Seq<char>, u16, Seq<Seq<char>>)> {
    s.map_values(|e: AVMEntry| e@)
}

fn entry(service: &str, pattern: &str, score: u16, ids: Vec<String>) -> (r: AVMEntry)
    ensures
        r@ == (service@, pattern@, score, ids.deep_view()),
{
    AVMEntry::new(string_from(service), string_from(pattern), score, ids)
}

fn ids1(a: &str) -> (r: Vec<String>)
    ensures
        r.deep_view() == seq![a@],
{
    let r = vec![string_from(a)];
    assert(r.deep_view() =~= seq![a@]);
    r
}

fn ids2(a: &str, b: &str) -> (r: Vec<String>)
    ensures
        r.deep_view() == seq![a@, b@],
{
    let r = vec![string_from(a), string_from(b)];
    assert(r.deep_view() =~= seq![a@, b@]);
    r
}

/// The built-in vulnerabilities.
pub fn load_avm_data() -> (r: Vec<AVMEntry>)
    ensures
        avm_views(r@) == avm_table(),
{
    let r = vec![
        entry("Apache httpd", "2\\.4\\.(49|50)", 98, ids2("CVE-2021-41773", "CVE-2021-42013")),
        entry("Apache httpd", "2\\.4\\.(([0-4][0-9])|50)", 75, ids2("CVE-2021-44790", "CVE-2021-39275")),
        entry("OpenSSH", "^[1-7]\\.|^8\\.[0-4]", 81, ids2("CVE-2021-28041", "CVE-2020-14145")),
        entry("nginx", "^1\\.(1[0-9]\\.|20\\.0)", 77, ids1("CVE-2021-23017")),
        entry("vsftpd", "2\\.3\\.4", 100, ids1("CVE-2011-2523")),
        entry("ProFTPD", "1\\.3\\.[0-5]", 98, ids2("CVE-2019-12815", "CVE-2020-9273")),
        entry("MySQL", "5\\.7\\.(([0-2][0-9])|3[0-4])", 75, ids2("CVE-2021-2389", "CVE-2021-2372")),
        entry("PostgreSQL", "^(9\\.|1[0-2]\\.|13\\.[0-3])", 65, ids1("CVE-2021-32027")),
        entry("Samba", "4\\.(([0-9]|1[0-2])\\.|13\\.(([0-9]|1[0-3])[^0-9]))", 99, ids1("CVE-2021-44142")),
        entry("Microsoft-IIS", "10\\.0", 98, ids1("CVE-2021-31166")),
    ];
    assert(avm_views(r@) =~= avm_table());
    r
}

/// The first entry from position `i` on that holds the service and version.
pub open spec fn first_avm_match(data: Seq<AVMEntry>, service: Seq<char>, version: Seq<char>, i: int) -> Option<int>
    decreases data.len() - i,
{
    if i < 0 || i >= data.len() {
        None
    } else if avm_matches(data[i]@, service, version) {
        Some(i)
    } else {
        first_avm_match(data, service, version, i + 1)
    }
}

/// The entries that hold the service and version, in order.
pub open spec fn all_avm_matches(data: Seq<AVMEntry>, service: Seq<char>, version: Seq<char>) -> Seq<AVMEntry>
    decreases data.len(),
{
    if data.len() == 0 {
        Seq::empty()
    } else {
        let front = all_avm_matches(data.drop_last(), service, version);
        if avm_matches(data.last()@, service, version) { front.push(data.last()) } else { front }
    }
}

/// The first entry that holds the service and version.
pub fn lookup_avm<'a>(avm_data: &'a [AVMEntry], service: &str, version: &str) -> (r: Option<&'a AVMEntry>)
    ensures
        match first_avm_match(avm_data@, service@, version@, 0) {
            Some(k) => r == Some(&avm_data@[k]),
            None => r is None,
        },
{
    let mut i: usize = 0;
    while i < avm_data.len()
        invariant
            i <= avm_data@.len(),
            first_avm_match(avm_data@, service@, version@, 0) == first_avm_match(avm_data@, service@, version@, i as int),
        decreases avm_data.len() - i,
    {
        if avm_data[i].matches(service, version) {
            return Some(&avm_data[i]);
        }
        i = i + 1;
    }
    None
}

/// Every entry that holds the service and version, in order.
pub fn lookup_all_avm<'a>(avm_data: &'a [AVMEntry], service: &str, version: &str) -> (r: Vec<&'a AVMEntry>)
    ensures
        r@.map_values(|e: &AVMEntry| *e) == all_avm_matches(avm_data@, service@, version@),
{
    let mut out: Vec<&'a AVMEntry> = Vec::new();
    let mut i: usize = 0;
    while i < avm_data.len()
        invariant
            i <= avm_data@.len(),
            out@.map_values(|e: &AVMEntry| *e) == all_avm_matches(avm_data@.take(i as int), service@, version@),
        decreases avm_data.len() - i,
    {
        assert(avm_data@.take(i + 1).drop_last() =~= avm_data@.take(i as int));
        assert(avm_data@.take(i + 1).last() == avm_data@[i as int]);
        if avm_data[i].matches(service, version) {
            let ghost before = out@;
            out.push(&avm_data[i]);
            assert(out@.map_values(|e: &AVMEntry| *e) =~= before.map_values(|e: &AVMEntry| *e).push(avm_data@[i as int]));
        }
        i = i + 1;
    }
    assert(avm_data@.take(avm_data@.len() as int) =~= avm_data@);
    out
}

} // verus!
