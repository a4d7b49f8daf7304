//! Vulnerability mapping: known vulnerabilities matched against detected
//! service versions, with an impact score. CVSS scores are held in tenths of
//! a point (75 stands for 7.5).

use vstd::prelude::*;
use crate::text::{chars_of, contains, contains_exec, contains_str, is_space, is_space_exec, trim, trim_exec,
    split_on, split_exec, parse_unsigned, parse_unsigned_exec, eq_chars, string_from, slice_vec,
    decimal_chars, push_str, push_decimal, lowercase, to_lowercase, is_ascii_text, ascii_lowercase};

verus! {

// ---------------------------------------------------------------------------
// Version ranges
// ---------------------------------------------------------------------------

/// The versions that a vulnerability affects: from `min_version` (included)
/// up to `max_version`, or the versions that hold one of
/// `specific_versions`, where there are any.
#[derive(Debug)]
pub struct VersionRange {
    pub min_version: Option<String>,
    pub max_version: Option<String>,
    pub specific_versions: Vec<String>,
}

/// A version range as plain text.
pub struct RangeModel {
    pub min_version: Option<Seq<char>>,
    pub max_version: Option<Seq<char>>,
    pub specific_versions: Seq<Seq<char>>,
}

impl View for VersionRange {
    type V = RangeModel;

    open spec fn view(&self) -> RangeModel {
        RangeModel {
            min_version: self.min_version.deep_view(),
            max_version: self.max_version.deep_view(),
            specific_versions: self.specific_versions.deep_view(),
        }
    }
}

impl Clone for VersionRange {
    fn clone(&self) -> (r: Self)
        ensures
            r@ == self@,
    {
        let specific_versions = self.specific_versions.clone();
        assert(specific_versions@ =~= self.specific_versions@);
        VersionRange {
            min_version: self.min_version.clone(),
            max_version: self.max_version.clone(),
            specific_versions,
        }
    }
}

/// Number of characters of `s` before its first whitespace.
pub open spec fn word_len(s: Seq<char>) -> nat
    decreases s.len(),
{
    if s.len() == 0 || is_space(s[0]) {
        0
    } else {
        1 + word_len(s.drop_first())
    }
}

/// The first whitespace-separated word of `s`, or `s` itself where it has
/// none (`split_whitespace().next().unwrap_or(s)`).
pub open spec fn first_word(s: Seq<char>) -> Seq<char> {
    let t = trim(s);
    if t.len() == 0 {
        s
    } else {
        t.take(word_len(t) as int)
    }
}

/// The numbers among the pieces, in order: the pieces that read as a `u32`.
pub open spec fn numeric_parts(parts: Seq<Seq<char>>) -> Seq<u32>
    decreases parts.len(),
{
    if parts.len() == 0 {
        Seq::empty()
    } else {
        let front = numeric_parts(parts.drop_last());
        match parse_unsigned(parts.last(), 0xffff_ffff) {
            Some(n) => front.push(n as u32),
            None => front,
        }
    }
}

/// The numbers of a dotted version.
pub open spec fn version_numbers(v: Seq<char>) -> Seq<u32> {
    numeric_parts(split_on(v, '.'))
}

/// The `i`-th number, or 0 past the end.
pub open spec fn number_at(a: Seq<u32>, i: int) -> u32 {
    if 0 <= i < a.len() { a[i] } else { 0 }
}

/// `a` from position `i` on is at least `b`, comparing number by number
/// and taking missing numbers as 0.
pub open spec fn numbers_gte(a: Seq<u32>, b: Seq<u32>, i: int) -> bool
    decreases a.len() + b.len() - i,
{
    if i < 0 || (i >= a.len() && i >= b.len()) {
        true
    } else if number_at(a, i) < number_at(b, i) {
        false
    } else if number_at(a, i) > number_at(b, i) {
        true
    } else {
        numbers_gte(a, b, i + 1)
    }
}

/// Version `v1` is at least version `v2`.
pub open spec fn version_gte(v1: Seq<char>, v2: Seq<char>) -> bool {
    numbers_gte(version_numbers(v1), version_numbers(v2), 0)
}

/// Version `v1` is below version `v2`: it is not at least `v2`.
pub open spec fn version_lt(v1: Seq<char>, v2: Seq<char>) -> bool {
    !version_gte(v1, v2)
}

/// The range holds the version: the lower bound is inclusive, the upper
/// bound exclusive.
pub open spec fn range_matches(r: RangeModel, version: Seq<char>) -> bool {
    if r.specific_versions.len() > 0 {
        exists|k: int| 0 <= k < r.specific_versions.len() && #[trigger] contains(version, r.specific_versions[k])
    } else {
        let v = first_word(version);
        &&& (r.min_version matches Some(min) ==> version_gte(v, min))
        &&& (r.max_version matches Some(max) ==> version_lt(v, max))
    }
}

proof fn lemma_word_len(s: Seq<char>, i: int)
    requires
        0 <= i <= s.len(),
        forall|k: int| 0 <= k < i ==> !is_space(#[trigger] s[k]),
    ensures
        word_len(s) == i + word_len(s.subrange(i, s.len() as int)),
    decreases i,
{
    if i > 0 {
        lemma_word_len(s.drop_first(), i - 1);
        assert(s.drop_first().subrange(i - 1, s.len() - 1) =~= s.subrange(i, s.len() as int));
    } else {
        assert(s.subrange(0, s.len() as int) =~= s);
    }
}

/// The first whitespace-separated word of `v`, or `v` itself.
fn first_word_exec(v: &Vec<char>) -> (r: Vec<char>)
    ensures
        r@ == first_word(v@),
{
    let t = trim_exec(v);
    if t.len() == 0 {
        return slice_vec(v, 0, v.len());
    }
    let mut i: usize = 0;
    while i < t.len() && !is_space_exec(t[i])
        invariant
            i <= t@.len(),
            forall|k: int| 0 <= k < i ==> !is_space(#[trigger] t@[k]),
        decreases t.len() - i,
    {
        i = i + 1;
    }
    proof {
        lemma_word_len(t@, i as int);
        let rest = t@.subrange(i as int, t@.len() as int);
        if i < t.len() {
            assert(rest[0] == t@[i as int]);
        }
        assert(word_len(rest) == 0);
        assert(v@.subrange(0, v@.len() as int) =~= v@);
    }
    let r = slice_vec(&t, 0, i);
    assert(r@ =~= t@.take(i as int));
    r
}

/// The numbers of a dotted version.
fn version_numbers_exec(v: &Vec<char>) -> (r: Vec<u32>)
    ensures
        r@ == version_numbers(v@),
{
    let parts = split_exec(v, '.');
    let ghost pv = split_on(v@, '.');
    let mut nums: Vec<u32> = Vec::new();
    let mut i: usize = 0;
    while i < parts.len()
        invariant
            i <= parts@.len(),
            parts@.len() == pv.len(),
            pv == split_on(v@, '.'),
            forall|k: int| 0 <= k < parts@.len() ==> #[trigger] parts@[k]@ == pv[k],
            nums@ == numeric_parts(pv.take(i as int)),
        decreases parts.len() - i,
    {
        assert(pv.take(i + 1).drop_last() =~= pv.take(i as int));
        assert(pv.take(i + 1).last() == parts@[i as int]@);
        match parse_unsigned_exec(&parts[i], 0xffff_ffff) {
            Some(n) => {
                nums.push(n as u32);
            },
            None => {},
        }
        i = i + 1;
    }
    assert(pv.take(pv.len() as int) =~= pv);
    nums
}

impl VersionRange {
    /// The range holds the version: one of the specific versions occurs in
    /// it, or else its first word lies between the bounds.
    pub fn matches(&self, version: &str) -> (r: bool)
        ensures
            r == range_matches(self@, version@),
    {
        let v = chars_of(version);
        if self.specific_versions.len() > 0 {
            let mut k: usize = 0;
            while k < self.specific_versions.len()
                invariant
                    k <= self.specific_versions@.len(),
                    v@ == version@,
                    forall|j: int| 0 <= j < k ==> !contains(version@, #[trigger] self@.specific_versions[j]),
                decreases self.specific_versions.len() - k,
            {
                let p = chars_of(self.specific_versions[k].as_str());
                assert(p@ == self@.specific_versions[k as int]);
                if contains_exec(&v, &p) {
                    return true;
                }
                k = k + 1;
            }
            return false;
        }
        let clean = first_word_exec(&v);
        if let Some(min) = &self.min_version {
            let m = chars_of(min.as_str());
            if !gte_chars(&clean, &m) {
                return false;
            }
        }
        if let Some(max) = &self.max_version {
            let m = chars_of(max.as_str());
            if !lt_chars(&clean, &m) {
                return false;
            }
        }
        true
    }

    /// Version `v1` is at least version `v2`, comparing their dotted
    /// numbers one by one, a missing number counting as 0.
    pub fn version_gte(v1: &str, v2: &str) -> (r: bool)
        ensures
            r == version_gte(v1@, v2@),
    {
        let a = chars_of(v1);
        let b = chars_of(v2);
        gte_chars(&a, &b)
    }

    /// Version `v1` is below version `v2`: not at least `v2`.
    pub fn version_lt(v1: &str, v2: &str) -> (r: bool)
        ensures
            r == version_lt(v1@, v2@),
    {
        let a = chars_of(v1);
        let b = chars_of(v2);
        lt_chars(&a, &b)
    }
}

/// Version `v1` is at least version `v2`.
fn gte_chars(v1: &Vec<char>, v2: &Vec<char>) -> (r: bool)
    ensures
        r == version_gte(v1@, v2@),
{
    let x = version_numbers_exec(v1);
    let y = version_numbers_exec(v2);
    let n: usize = if x.len() > y.len() { x.len() } else { y.len() };
    let mut i: usize = 0;
    while i < n
        invariant
            n == (if x@.len() > y@.len() { x@.len() } else { y@.len() }),
            i <= n,
            numbers_gte(x@, y@, 0) == numbers_gte(x@, y@, i as int),
            x@ == version_numbers(v1@),
            y@ == version_numbers(v2@),
        decreases n - i,
    {
        let a: u32 = if i < x.len() { x[i] } else { 0 };
        let c: u32 = if i < y.len() { y[i] } else { 0 };
        assert(number_at(x@, i as int) == a && number_at(y@, i as int) == c);
        if a < c {
            return false;
        } else if a > c {
            return true;
        }
        i = i + 1;
    }
    true
}

/// Version `v1` is below version `v2`.
fn lt_chars(v1: &Vec<char>, v2: &Vec<char>) -> (r: bool)
    ensures
        r == version_lt(v1@, v2@),
{
    !gte_chars(v1, v2)
}

/// Every version is at least itself.
pub proof fn lemma_version_gte_reflexive(v: Seq<char>)
    ensures
        version_gte(v, v),
{
    lemma_numbers_gte_reflexive(version_numbers(v), 0);
}

proof fn lemma_numbers_gte_reflexive(a: Seq<u32>, i: int)
    requires
        0 <= i,
    ensures
        numbers_gte(a, a, i),
    decreases a.len() + a.len() - i,
{
    if i < a.len() {
        lemma_numbers_gte_reflexive(a, i + 1);
    }
}

/// Of two versions, one is at least the other.
pub proof fn lemma_version_gte_total(v1: Seq<char>, v2: Seq<char>)
    ensures
        version_gte(v1, v2) || version_gte(v2, v1),
{
    lemma_numbers_gte_total(version_numbers(v1), version_numbers(v2), 0);
}

proof fn lemma_numbers_gte_total(a: Seq<u32>, b: Seq<u32>, i: int)
    requires
        0 <= i,
    ensures
        numbers_gte(a, b, i) || numbers_gte(b, a, i),
    decreases a.len() + b.len() - i,
{
    if !(i >= a.len() && i >= b.len()) && number_at(a, i) == number_at(b, i) {
        lemma_numbers_gte_total(a, b, i + 1);
    }
}

/// The upper bound is exclusive: no version is below itself, so a range
/// whose upper bound is a version does not hold that version.
pub proof fn lemma_version_lt_irreflexive(v: Seq<char>)
    ensures
        !version_lt(v, v),
{
    lemma_version_gte_reflexive(v);
}

// ---------------------------------------------------------------------------
// Severity
// ---------------------------------------------------------------------------

/// Severity levels.
#[derive(Debug, Clone, Copy, PartialEq, Eq, Structural)]
pub enum Severity {
    Critical,
    High,
    Medium,
    Low,
    Info,
}

/// The severity of a CVSS score given in tenths.
pub open spec fn severity_of(score: u16) -> Severity {
    if score >= 90 {
        Severity::Critical
    } else if score >= 70 {
        Severity::High
    } else if score >= 40 {
        Severity::Medium
    } else if score >= 1 {
        Severity::Low
    } else {
        Severity::Info
    }
}

/// The terminal colour code of a severity.
pub open spec fn severity_color(s: Severity) -> Seq<char> {
    match s {
        Severity::Critical => "\x1b[1;31m"@,
        Severity::High => "\x1b[33m"@,
        Severity::Medium => "\x1b[36m"@,
        Severity::Low => "\x1b[37m"@,
        Severity::Info => "\x1b[90m"@,
    }
}

/// The name of a severity, in capitals.
pub open spec fn severity_text(s: Severity) -> Seq<char> {
    match s {
        Severity::Critical => "CRITICAL"@,
        Severity::High => "HIGH"@,
        Severity::Medium => "MEDIUM"@,
        Severity::Low => "LOW"@,
        Severity::Info => "INFO"@,
    }
}

impl Severity {
    /// The severity of a CVSS score given in tenths of a point.
    pub fn from_cvss(score: u16) -> (r: Self)
        ensures
            r == severity_of(score),
    {
        if score >= 90 {
            Severity::Critical
        } else if score >= 70 {
            Severity::High
        } else if score >= 40 {
            Severity::Medium
        } else if score >= 1 {
            Severity::Low
        } else {
            Severity::Info
        }
    }

    /// The terminal colour code of the severity.
    pub fn color_code(&self) -> (r: &'static str)
        ensures
            r@ == severity_color(*self),
    {
        match self {
            Severity::Critical => "\x1b[1;31m",
            Severity::High => "\x1b[33m",
            Severity::Medium => "\x1b[36m",
            Severity::Low => "\x1b[37m",
            Severity::Info => "\x1b[90m",
        }
    }

    /// The name of the severity, in capitals.
    pub fn to_string(&self) -> (r: String)
        ensures
            r@ == severity_text(*self),
    {
        match self {
            Severity::Critical => string_from("CRITICAL"),
            Severity::High => string_from("HIGH"),
            Severity::Medium => string_from("MEDIUM"),
            Severity::Low => string_from("LOW"),
            Severity::Info => string_from("INFO"),
        }
    }
}

/// A higher score never gets a lower severity.
pub proof fn lemma_severity_monotone(a: u16, b: u16)
    requires
        a <= b,
    ensures
        severity_rank(severity_of(a)) <= severity_rank(severity_of(b)),
{
}

/// The rank of a severity, from 0 for `Info` to 4 for `Critical`.
pub open spec fn severity_rank(s: Severity) -> int {
    match s {
        Severity::Critical => 4,
        Severity::High => 3,
        Severity::Medium => 2,
        Severity::Low => 1,
        Severity::Info => 0,
    }
}


// ---------------------------------------------------------------------------
// Vulnerabilities
// ---------------------------------------------------------------------------

/// A known vulnerability of a service. The CVSS score is in tenths.
#[derive(Debug)]
pub struct CveEntry {
    pub cve_id: String,
    pub service: String,
    pub version_range: VersionRange,
    pub cvss_score: u16,
    pub severity: Severity,
    pub description: String,
    pub exploit_available: bool,
}

/// A vulnerability as plain values.
pub struct CveModel {
    pub cve_id: Seq<char>,
    pub service: Seq<char>,
    pub version_range: RangeModel,
    pub cvss_score: u16,
    pub severity: Severity,
    pub description: Seq<char>,
    pub exploit_available: bool,
}

impl View for CveEntry {
    type V = CveModel;

    open spec fn view(&self) -> CveModel {
        CveModel {
            cve_id: self.cve_id@,
            service: self.service@,
            version_range: self.version_range@,
            cvss_score: self.cvss_score,
            severity: self.severity,
            description: self.description@,
            exploit_available: self.exploit_available,
        }
    }
}

impl Clone for CveEntry {
    fn clone(&self) -> (r: Self)
        ensures
            r@ == self@,
    {
        CveEntry {
            cve_id: self.cve_id.clone(),
            service: self.service.clone(),
            version_range: self.version_range.clone(),
            cvss_score: self.cvss_score,
            severity: self.severity,
            description: self.description.clone(),
            exploit_available: self.exploit_available,
        }
    }
}

/// The plain values of a list of vulnerabilities.
pub open spec fn cve_models(s: Seq<CveEntry>) -> Seq<CveModel> {
    s.map_values(|e: CveEntry| e@)
}

/// A vulnerability affecting the versions from `min` up to `max`.
pub open spec fn cve_model(
    id: Seq<char>,
    service: Seq<char>,
    min: Option<Seq<char>>,
    max: Option<Seq<char>>,
    cvss: u16,
    severity: Severity,
    description: Seq<char>,
    exploit: bool,
) -> CveModel {
    CveModel {
        cve_id: id,
        service,
        version_range: RangeModel { min_version: min, max_version: max, specific_versions: Seq::empty() },
        cvss_score: cvss,
        severity,
        description,
        exploit_available: exploit,
    }
}

/// The text of an optional string.
pub open spec fn opt_text(o: Option<&str>) -> Option<Seq<char>> {
    match o {
        Some(t) => Some(t@),
        None => None,
    }
}

fn opt_string(o: Option<&str>) -> (r: Option<String>)
    ensures
        r.deep_view() == opt_text(o),
{
    match o {
        Some(t) => Some(string_from(t)),
        None => None,
    }
}

fn new_cve(
    id: &str,
    service: &str,
    min: Option<&str>,
    max: Option<&str>,
    cvss: u16,
    severity: Severity,
    description: &str,
    exploit: bool,
) -> (r: CveEntry)
    ensures
        r@ == cve_model(id@, service@, opt_text(min), opt_text(max), cvss, severity, description@, exploit),
{
    let specific_versions: Vec<String> = Vec::new();
    assert(specific_versions.deep_view() =~= Seq::<Seq<char>>::empty());
    CveEntry {
        cve_id: string_from(id),
        service: string_from(service),
        version_range: VersionRange { min_version: opt_string(min), max_version: opt_string(max), specific_versions },
        cvss_score: cvss,
        severity,
        description: string_from(description),
        exploit_available: exploit,
    }
}

/// The impact of the vulnerabilities found for a service. The score is the
/// highest CVSS score among them, in tenths.
#[derive(Debug)]
pub struct ImpactScore {
    pub cves: Vec<CveEntry>,
    pub score: u16,
    pub max_severity: Severity,
    pub exploitable_count: usize,
    pub risk_assessment: String,
}

/// The highest CVSS score of a list of vulnerabilities, 0 for none.
pub open spec fn max_cvss(s: Seq<CveModel>) -> u16
    decreases s.len(),
{
    if s.len() == 0 {
        0
    } else {
        let m = max_cvss(s.drop_last());
        if s.last().cvss_score > m { s.last().cvss_score } else { m }
    }
}

/// How many of the vulnerabilities have a known exploit.
pub open spec fn exploitable(s: Seq<CveModel>) -> nat
    decreases s.len(),
{
    if s.len() == 0 {
        0
    } else {
        exploitable(s.drop_last()) + if s.last().exploit_available { 1nat } else { 0nat }
    }
}

/// The assessment written for `n` vulnerabilities of which `ex` have a
/// known exploit.
pub open spec fn risk_text(n: nat, ex: nat) -> Seq<char> {
    if ex > 0 {
        decimal_chars(n) + " known vulnerabilities ("@ + decimal_chars(ex) + " exploitable)"@
    } else {
        decimal_chars(n) + " known vulnerabilities"@
    }
}

impl ImpactScore {
    /// The impact of no vulnerability at all.
    pub fn none() -> (r: Self)
        ensures
            r.cves@.len() == 0,
            r.score == 0,
            r.max_severity == Severity::Info,
            r.exploitable_count == 0,
            r.risk_assessment@ == "No known vulnerabilities"@,
    {
        ImpactScore {
            cves: Vec::new(),
            score: 0,
            max_severity: Severity::Info,
            exploitable_count: 0,
            risk_assessment: string_from("No known vulnerabilities"),
        }
    }

    /// The highest severity, between its terminal colour code and the code
    /// that resets the colour.
    pub fn colored_severity(&self) -> (r: String)
        ensures
            r@ == severity_color(self.max_severity) + severity_text(self.max_severity) + "\x1b[0m"@,
    {
        let mut s = String::new();
        push_str(&mut s, self.max_severity.color_code());
        let name = self.max_severity.to_string();
        push_str(&mut s, name.as_str());
        push_str(&mut s, "\x1b[0m");
        s
    }
}

/// The vulnerabilities whose range holds the version, in order.
pub open spec fn matching(s: Seq<CveModel>, version: Seq<char>) -> Seq<CveModel>
    decreases s.len(),
{
    if s.len() == 0 {
        Seq::empty()
    } else {
        let front = matching(s.drop_last(), version);
        if range_matches(s.last().version_range, version) { front.push(s.last()) } else { front }
    }
}

/// The database key of a service name, already in lowercase: web servers by
/// their product, SSH, MySQL and MariaDB, FTP, or the name itself.
pub open spec fn service_key(k: Seq<char>) -> Seq<char> {
    if contains(k, "http"@) {
        if contains(k, "nginx"@) {
            "nginx"@
        } else if contains(k, "apache"@) {
            "apache"@
        } else {
            "http"@
        }
    } else if contains(k, "ssh"@) {
        "ssh"@
    } else if contains(k, "mysql"@) || contains(k, "mariadb"@) {
        "mysql"@
    } else if contains(k, "ftp"@) {
        "ftp"@
    } else {
        k
    }
}

/// The key a lowercase service name is filed under: a web server name
/// (one holding `http`) by its product, nginx before Apache, else plain
/// http; then any name holding `ssh` under ssh; `mysql` or `mariadb` under
/// mysql; `ftp` under ftp; any other name under itself.
pub proof fn lemma_service_key_marks(k: Seq<char>)
    ensures
        contains(k, "http"@) && contains(k, "nginx"@) ==> service_key(k) == "nginx"@,
        contains(k, "http"@) && !contains(k, "nginx"@) && contains(k, "apache"@) ==> service_key(k) == "apache"@,
        contains(k, "http"@) && !contains(k, "nginx"@) && !contains(k, "apache"@) ==> service_key(k) == "http"@,
        !contains(k, "http"@) && contains(k, "ssh"@) ==> service_key(k) == "ssh"@,
        !contains(k, "http"@) && !contains(k, "ssh"@) && (contains(k, "mysql"@) || contains(k, "mariadb"@))
            ==> service_key(k) == "mysql"@,
        !contains(k, "http"@) && !contains(k, "ssh"@) && !contains(k, "mysql"@) && !contains(k, "mariadb"@)
            && contains(k, "ftp"@) ==> service_key(k) == "ftp"@,
        !contains(k, "http"@) && !contains(k, "ssh"@) && !contains(k, "mysql"@) && !contains(k, "mariadb"@)
            && !contains(k, "ftp"@) ==> service_key(k) == k,
{
}

/// In the built-in database, a lowercase name holding `ssh` and not `http`
/// (such as `openssh`) finds, with no version known, the one SSH
/// vulnerability: CVE-2023-38408, scored 9.8 and exploitable.
pub proof fn lemma_mock_ssh_lookup(k: Seq<char>)
    requires
        contains(k, "ssh"@),
        !contains(k, "http"@),
    ensures
        query_cves_lowered(mock_cve_table(), k, None) == seq![
            cve_model("CVE-2023-38408"@, "ssh"@, Some("9.0"@), Some("9.3p2"@), 98, Severity::Critical,
                "Remote code execution via ssh-agent"@, true),
        ],
        max_cvss(query_cves_lowered(mock_cve_table(), k, None)) == 98,
        exploitable(query_cves_lowered(mock_cve_table(), k, None)) == 1,
{
    reveal_strlit("apache");
    reveal_strlit("nginx");
    reveal_strlit("ssh");
    let t = mock_cve_table();
    assert(service_key(k) == "ssh"@);
    assert(t[0].0 != "ssh"@);
    assert(t[1].0 != "ssh"@);
    assert(t[2].0 == "ssh"@);
    assert(lookup_from(t, "ssh"@, 2) == Some(t[2].1));
    assert(lookup_from(t, "ssh"@, 1) == Some(t[2].1));
    assert(lookup_from(t, "ssh"@, 0) == Some(t[2].1));
    let c = t[2].1;
    assert(c.drop_last() =~= Seq::<CveModel>::empty());
    reveal_with_fuel(max_cvss, 2);
    reveal_with_fuel(exploitable, 2);
}

/// The vulnerabilities filed under `key`, looking from position `i` on.
pub open spec fn lookup_from(table: Seq<(Seq<char>, Seq<CveModel>)>, key: Seq<char>, i: int) -> Option<Seq<CveModel>>
    decreases table.len() - i,
{
    if i < 0 || i >= table.len() {
        None
    } else if table[i].0 == key {
        Some(table[i].1)
    } else {
        lookup_from(table, key, i + 1)
    }
}

/// The vulnerabilities that a query for a service and version finds: those
/// filed under the service's key whose range holds the version, or all of
/// them where no version is known.
pub open spec fn query_cves(table: Seq<(Seq<char>, Seq<CveModel>)>, service: Seq<char>, version: Option<Seq<char>>) -> Seq<CveModel> {
    query_cves_lowered(table, lowercase(service), version)
}

/// The vulnerabilities that a query finds for a service name already in
/// lowercase.
pub open spec fn query_cves_lowered(table: Seq<(Seq<char>, Seq<CveModel>)>, service: Seq<char>, version: Option<Seq<char>>) -> Seq<CveModel> {
    match lookup_from(table, service_key(service), 0) {
        Some(entries) => match version {
            Some(v) => matching(entries, v),
            None => entries,
        },
        None => Seq::empty(),
    }
}

/// The vulnerabilities that the built-in database holds, by service key.
pub open spec fn mock_cve_table() -> Seq<(Seq<char>, Seq<CveModel>)> {
    seq![
        ("apache"@, seq![
            cve_model("CVE-2021-41773"@, "apache"@, Some("2.4.49"@), Some("2.4.51"@), 75, Severity::High,
                "Path traversal and RCE vulnerability"@, true),
            cve_model("CVE-2022-31813"@, "apache"@, Some("2.4.0"@), Some("2.4.54"@), 98, Severity::Critical,
                "mod_proxy X-Forwarded-For vulnerability"@, false),
        ]),
        ("nginx"@, seq![
            cve_model("CVE-2021-23017"@, "nginx"@, Some("0.6.18"@), Some("1.21.0"@), 81, Severity::High,
                "DNS resolver off-by-one heap write"@, true),
        ]),
        ("ssh"@, seq![
            cve_model("CVE-2023-38408"@, "ssh"@, Some("9.0"@), Some("9.3p2"@), 98, Severity::Critical,
                "Remote code execution via ssh-agent"@, true),
        ]),
        ("mysql"@, seq![
            cve_model("CVE-2023-22015"@, "mysql"@, Some("8.0.0"@), Some("8.0.33"@), 71, Severity::High,
                "Privilege escalation vulnerability"@, false),
        ]),
        ("ftp"@, seq![
            cve_model("CVE-2023-ANON-FTP"@, "ftp"@, None, None, 75, Severity::High,
                "Anonymous FTP access enabled"@, true),
        ]),
    ]
}

/// No key is filed twice.
pub open spec fn keys_distinct(table: Seq<(Seq<char>, Seq<CveModel>)>) -> bool {
    forall|i: int, j: int| 0 <= i < j < table.len() ==> table[i].0 != table[j].0
}

/// A database of known vulnerabilities, filed by service key.
pub struct CveDatabase {
    entries: Vec<(String, Vec<CveEntry>)>,
}

impl CveDatabase {
    /// The database as plain values: each key with its vulnerabilities.
    pub closed spec fn table(&self) -> Seq<(Seq<char>, Seq<CveModel>)> {
        self.entries@.map_values(|p: (String, Vec<CveEntry>)| (p.0@, cve_models(p.1@)))
    }

    /// The built-in database.
    pub fn load_mock() -> (r: Self)
        ensures
            r.table() == mock_cve_table(),
            keys_distinct(r.table()),
    {
        let mut entries: Vec<(String, Vec<CveEntry>)> = Vec::new();
        let apache = vec![
            new_cve("CVE-2021-41773", "apache", Some("2.4.49"), Some("2.4.51"), 75, Severity::High,
                "Path traversal and RCE vulnerability", true),
            new_cve("CVE-2022-31813", "apache", Some("2.4.0"), Some("2.4.54"), 98, Severity::Critical,
                "mod_proxy X-Forwarded-For vulnerability", false),
        ];
        let nginx = vec![
            new_cve("CVE-2021-23017", "nginx", Some("0.6.18"), Some("1.21.0"), 81, Severity::High,
                "DNS resolver off-by-one heap write", true),
        ];
        let ssh = vec![
            new_cve("CVE-2023-38408", "ssh", Some("9.0"), Some("9.3p2"), 98, Severity::Critical,
                "Remote code execution via ssh-agent", true),
        ];
        let mysql = vec![
            new_cve("CVE-2023-22015", "mysql", Some("8.0.0"), Some("8.0.33"), 71, Severity::High,
                "Privilege escalation vulnerability", false),
        ];
        let ftp = vec![
            new_cve("CVE-2023-ANON-FTP", "ftp", None, None, 75, Severity::High,
                "Anonymous FTP access enabled", true),
        ];
        let ghost ta = cve_models(apache@);
        let ghost tn = cve_models(nginx@);
        let ghost ts = cve_models(ssh@);
        let ghost tm = cve_models(mysql@);
        let ghost tf = cve_models(ftp@);
        entries.push((string_from("apache"), apache));
        entries.push((string_from("nginx"), nginx));
        entries.push((string_from("ssh"), ssh));
        entries.push((string_from("mysql"), mysql));
        entries.push((string_from("ftp"), ftp));
        proof {
            reveal_strlit("apache");
            reveal_strlit("nginx");
            reveal_strlit("ssh");
            reveal_strlit("mysql");
            reveal_strlit("ftp");
            let t = mock_cve_table();
            assert(ta =~= t[0].1);
            assert(tn =~= t[1].1);
            assert(ts =~= t[2].1);
            assert(tm =~= t[3].1);
            assert(tf =~= t[4].1);
            assert("nginx"@[0] != "mysql"@[0]);
            assert("ssh"@[0] != "ftp"@[0]);
            assert(keys_distinct(t));
        }
        let r = CveDatabase { entries };
        assert(r.table() =~= mock_cve_table());
        r
    }
}


/// The database key of a service name that is already in lowercase.
fn service_key_exec(k: &Vec<char>) -> (r: Vec<char>)
    ensures
        r@ == service_key(k@),
{
    if contains_str(k, "http") {
        if contains_str(k, "nginx") {
            chars_of("nginx")
        } else if contains_str(k, "apache") {
            chars_of("apache")
        } else {
            chars_of("http")
        }
    } else if contains_str(k, "ssh") {
        chars_of("ssh")
    } else if contains_str(k, "mysql") || contains_str(k, "mariadb") {
        chars_of("mysql")
    } else if contains_str(k, "ftp") {
        chars_of("ftp")
    } else {
        slice_vec(k, 0, k.len())
    }
}

/// Copies of the vulnerabilities, in order.
fn clone_all(list: &Vec<CveEntry>) -> (r: Vec<CveEntry>)
    ensures
        cve_models(r@) == cve_models(list@),
{
    let ghost m = cve_models(list@);
    let mut out: Vec<CveEntry> = Vec::new();
    let mut j: usize = 0;
    while j < list.len()
        invariant
            j <= list@.len(),
            m == cve_models(list@),
            cve_models(out@) == m.take(j as int),
        decreases list.len() - j,
    {
        let e = list[j].clone();
        let ghost before = out@;
        out.push(e);
        assert(cve_models(out@) =~= cve_models(before).push(e@));
        assert(m.take(j + 1) =~= m.take(j as int).push(m[j as int]));
        j = j + 1;
    }
    assert(m.take(m.len() as int) =~= m);
    out
}

/// Copies of the vulnerabilities whose range holds the version, in order.
fn filter_matching(list: &Vec<CveEntry>, version: &str) -> (r: Vec<CveEntry>)
    ensures
        cve_models(r@) == matching(cve_models(list@), version@),
{
    let ghost m = cve_models(list@);
    let mut out: Vec<CveEntry> = Vec::new();
    let mut j: usize = 0;
    while j < list.len()
        invariant
            j <= list@.len(),
            m == cve_models(list@),
            cve_models(out@) == matching(m.take(j as int), version@),
        decreases list.len() - j,
    {
        assert(m.take(j + 1).drop_last() =~= m.take(j as int));
        assert(m.take(j + 1).last() == list@[j as int]@);
        if list[j].version_range.matches(version) {
            let e = list[j].clone();
            let ghost before = out@;
            out.push(e);
            assert(cve_models(out@) =~= cve_models(before).push(e@));
        }
        j = j + 1;
    }
    assert(m.take(m.len() as int) =~= m);
    out
}

/// The highest CVSS score of the vulnerabilities.
fn max_score(list: &Vec<CveEntry>) -> (r: u16)
    ensures
        r == max_cvss(cve_models(list@)),
{
    let ghost m = cve_models(list@);
    let mut best: u16 = 0;
    let mut j: usize = 0;
    while j < list.len()
        invariant
            j <= list@.len(),
            m == cve_models(list@),
            best == max_cvss(m.take(j as int)),
        decreases list.len() - j,
    {
        assert(m.take(j + 1).drop_last() =~= m.take(j as int));
        assert(m.take(j + 1).last() == list@[j as int]@);
        if list[j].cvss_score > best {
            best = list[j].cvss_score;
        }
        j = j + 1;
    }
    assert(m.take(m.len() as int) =~= m);
    best
}

proof fn lemma_exploitable_le(s: Seq<CveModel>)
    ensures
        exploitable(s) <= s.len(),
    decreases s.len(),
{
    if s.len() > 0 {
        lemma_exploitable_le(s.drop_last());
    }
}

/// How many of the vulnerabilities have a known exploit.
fn count_exploitable(list: &Vec<CveEntry>) -> (r: usize)
    ensures
        r == exploitable(cve_models(list@)),
{
    let ghost m = cve_models(list@);
    let mut n: usize = 0;
    let mut j: usize = 0;
    while j < list.len()
        invariant
            j <= list@.len(),
            m == cve_models(list@),
            n == exploitable(m.take(j as int)),
        decreases list.len() - j,
    {
        assert(m.take(j + 1).drop_last() =~= m.take(j as int));
        assert(m.take(j + 1).last() == list@[j as int]@);
        proof {
            lemma_exploitable_le(m.take(j as int));
        }
        if list[j].exploit_available {
            n = n + 1;
        }
        j = j + 1;
    }
    assert(m.take(m.len() as int) =~= m);
    n
}

impl CveDatabase {
    /// The position of the vulnerabilities filed under `key`.
    fn find_key(&self, key: &Vec<char>) -> (r: Option<usize>)
        ensures
            r matches Some(i) ==> i < self.table().len() && lookup_from(self.table(), key@, 0) == Some(self.table()[i as int].1),
            r is None ==> lookup_from(self.table(), key@, 0) is None,
    {
        let mut i: usize = 0;
        while i < self.entries.len()
            invariant
                i <= self.entries@.len(),
                self.table().len() == self.entries@.len(),
                lookup_from(self.table(), key@, 0) == lookup_from(self.table(), key@, i as int),
            decreases self.entries.len() - i,
        {
            let k = chars_of(self.entries[i].0.as_str());
            assert(self.table()[i as int].0 == k@);
            if eq_chars(&k, key) {
                return Some(i);
            }
            i = i + 1;
        }
        None
    }

    /// The vulnerabilities known for a service, and their impact. The name
    /// is looked up in lowercase under its key; with a version, only the
    /// vulnerabilities whose range holds it count.
    pub fn query(&self, service_name: &str, version: Option<&str>) -> (r: ImpactScore)
        ensures
            cve_models(r.cves@) == query_cves(self.table(), service_name@, opt_text(version)),
            is_ascii_text(service_name@) ==> cve_models(r.cves@) == query_cves_lowered(self.table(),
                ascii_lowercase(service_name@), opt_text(version)),
            ({
                let c = query_cves(self.table(), service_name@, opt_text(version));
                &&& c.len() == 0 ==> {
                    &&& r.score == 0
                    &&& r.max_severity == Severity::Info
                    &&& r.exploitable_count == 0
                    &&& r.risk_assessment@ == "No known vulnerabilities"@
                }
                &&& c.len() > 0 ==> {
                    &&& r.score == max_cvss(c)
                    &&& r.max_severity == severity_of(max_cvss(c))
                    &&& r.exploitable_count == exploitable(c)
                    &&& r.risk_assessment@ == risk_text(c.len(), exploitable(c))
                }
            }),
    {
        let lower = to_lowercase(service_name);
        let k = chars_of(lower.as_str());
        let key = service_key_exec(&k);
        let cves: Vec<CveEntry> = match self.find_key(&key) {
            Some(i) => {
                let list = &self.entries[i].1;
                assert(cve_models(list@) == self.table()[i as int].1);
                match version {
                    Some(v) => filter_matching(list, v),
                    None => clone_all(list),
                }
            },
            None => Vec::new(),
        };
        let ghost c = cve_models(cves@);
        if cves.len() == 0 {
            return ImpactScore::none();
        }
        let score = max_score(&cves);
        let max_severity = Severity::from_cvss(score);
        let exploitable_count = count_exploitable(&cves);
        let mut risk_assessment = String::new();
        push_decimal(&mut risk_assessment, cves.len() as u64);
        if exploitable_count > 0 {
            push_str(&mut risk_assessment, " known vulnerabilities (");
            push_decimal(&mut risk_assessment, exploitable_count as u64);
            push_str(&mut risk_assessment, " exploitable)");
        } else {
            push_str(&mut risk_assessment, " known vulnerabilities");
        }
        ImpactScore { cves, score, max_severity, exploitable_count, risk_assessment }
    }
}

} // verus!
