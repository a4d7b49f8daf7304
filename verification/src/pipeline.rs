//! The decisions of a scan run: which addresses the targets name, which
//! ports are reported, what a detected service adds to a port, which
//! scripts run and with what context.

use vstd::prelude::*;
use crate::addr::{IpAddr, ip_text, parse_ip_text, ip_display};
use crate::error::{Error, Result};
use crate::fingerprint::ServiceInfo;
use crate::fingerprint::avm::{CveDatabase, CveModel, cve_models, max_cvss, opt_text, query_cves};
use crate::fingerprint::cap::{HttpProfile, header_pairs, pairs_map, patch_confidence, patch_level_text, security_names, text_lines};
use crate::net::{cidr_addresses, cidr_error, parse_cidr};
use crate::scan::{PortResult, ScanConfig, ScanType, Timestamp};
use crate::scanner::ScannerConfig;
use crate::scripting::ScriptContext;
use crate::text::{chars_of, contains, contains_str, eq_str, push_str, string_from};
use crate::types::{Port, PortState, TimingTemplate};

verus! {

/// What a scan run does.
#[derive(Debug, Clone)]
pub struct PipelineConfig {
    pub scan_type: ScanType,
    pub ports: Vec<Port>,
    pub os_detection: bool,
    pub version_detection: bool,
    pub script_scan: bool,
    pub scripts: Vec<String>,
    pub timing: TimingTemplate,
    pub max_concurrent_hosts: usize,
}

impl Default for PipelineConfig {
    /// A SYN scan of no ports yet, nothing more, normal timing, ten hosts at
    /// once.
    fn default() -> (r: Self)
        ensures
            r.scan_type == ScanType::TcpSyn,
            r.ports@.len() == 0,
            !r.os_detection && !r.version_detection && !r.script_scan,
            r.scripts@.len() == 0,
            r.timing == TimingTemplate::T3,
            r.max_concurrent_hosts == 10,
    {
        PipelineConfig {
            scan_type: ScanType::TcpSyn,
            ports: Vec::new(),
            os_detection: false,
            version_detection: false,
            script_scan: false,
            scripts: Vec::new(),
            timing: TimingTemplate::T3,
            max_concurrent_hosts: 10,
        }
    }
}

/// The addresses that one target names: every address of a CIDR block, or
/// a single address.
pub open spec fn target_addresses(t: Seq<char>) -> Option<Seq<IpAddr>> {
    if contains(t, "/"@) {
        cidr_addresses(t)
    } else {
        match ip_text(t) {
            Some(a) => Some(seq![a]),
            None => None,
        }
    }
}

/// The message of the error for a refused target: that of its CIDR block,
/// or a note that it is no address.
pub open spec fn target_error(t: Seq<char>) -> Seq<char> {
    if contains(t, "/"@) {
        cidr_error(t)
    } else {
        "Invalid IP address: "@ + t
    }
}

/// The message of the error for the first refused target.
pub open spec fn targets_error(ts: Seq<Seq<char>>) -> Seq<char>
    decreases ts.len(),
{
    if ts.len() == 0 {
        Seq::empty()
    } else if target_addresses(ts[0]) is None {
        target_error(ts[0])
    } else {
        targets_error(ts.drop_first())
    }
}

proof fn lemma_targets_error(ts: Seq<Seq<char>>, i: int)
    requires
        0 <= i < ts.len(),
        forall|k: int| 0 <= k < i ==> #[trigger] target_addresses(ts[k]) is Some,
        target_addresses(ts[i]) is None,
    ensures
        targets_error(ts) == target_error(ts[i]),
    decreases i,
{
    if i > 0 {
        assert(target_addresses(ts[0]) is Some);
        let rest = ts.drop_first();
        assert forall|k: int| 0 <= k < i - 1 implies #[trigger] target_addresses(rest[k]) is Some by {
            assert(rest[k] == ts[k + 1]);
        }
        assert(rest[i - 1] == ts[i]);
        lemma_targets_error(rest, i - 1);
    }
}

/// The addresses that the targets name, in order; `None` where one of them
/// is refused.
pub open spec fn targets_addresses(ts: Seq<Seq<char>>) -> Option<Seq<IpAddr>>
    decreases ts.len(),
{
    if ts.len() == 0 {
        Some(Seq::empty())
    } else {
        match (targets_addresses(ts.drop_last()), target_addresses(ts.last())) {
            (Some(a), Some(b)) => Some(a + b),
            _ => None,
        }
    }
}

/// The texts of a list of strings.
pub open spec fn texts(v: Seq<String>) -> Seq<Seq<char>> {
    v.map_values(|s: String| s@)
}

/// The addresses that the targets name: CIDR blocks expanded, single
/// addresses read as they are.
pub fn parse_targets(targets: &Vec<String>) -> (r: Result<Vec<IpAddr>>)
    ensures
        r is Ok <==> targets_addresses(texts(targets@)) is Some,
        r matches Ok(v) ==> targets_addresses(texts(targets@)) == Some(v@),
        r matches Err(e) ==> (e matches Error::InvalidInput(m) && m@ == targets_error(texts(targets@))),
{
    let ghost ts = texts(targets@);
    let mut ips: Vec<IpAddr> = Vec::new();
    let mut i: usize = 0;
    while i < targets.len()
        invariant
            i <= targets@.len(),
            ts == texts(targets@),
            targets_addresses(ts.take(i as int)) == Some(ips@),
            forall|k: int| 0 <= k < i ==> #[trigger] target_addresses(ts[k]) is Some,
        decreases targets.len() - i,
    {
        assert(ts.take(i + 1).drop_last() =~= ts.take(i as int));
        assert(ts.take(i + 1).last() == targets@[i as int]@);
        let t = chars_of(targets[i].as_str());
        if contains_str(&t, "/") {
            match parse_cidr(targets[i].as_str()) {
                Ok(mut more) => {
                    let ghost before = ips@;
                    let ghost added = more@;
                    ips.append(&mut more);
                    assert(ips@ == before + added);
                },
                Err(e) => {
                    proof {
                        lemma_targets_fail(ts, i as int);
                        lemma_targets_error(ts, i as int);
                    }
                    return Err(e);
                },
            }
        } else {
            match parse_ip_text(&t) {
                Some(ip) => {
                    let ghost before = ips@;
                    ips.push(ip);
                    assert(ips@ == before + seq![ip]);
                },
                None => {
                    proof {
                        lemma_targets_fail(ts, i as int);
                        lemma_targets_error(ts, i as int);
                    }
                    let mut msg = String::new();
                    push_str(&mut msg, "Invalid IP address: ");
                    push_str(&mut msg, targets[i].as_str());
                    return Err(Error::InvalidInput(msg));
                },
            }
        }
        i = i + 1;
    }
    assert(ts.take(ts.len() as int) =~= ts);
    Ok(ips)
}

proof fn lemma_targets_fail(ts: Seq<Seq<char>>, i: int)
    requires
        0 <= i < ts.len(),
        target_addresses(ts[i]) is None,
    ensures
        targets_addresses(ts) is None,
    decreases ts.len(),
{
    if i < ts.len() - 1 {
        lemma_targets_fail(ts.drop_last(), i);
    }
}

/// The states that a host's report shows: open, open or filtered, filtered.
pub open spec fn reported_state(s: PortState) -> bool {
    s == PortState::Open || s == PortState::OpenFiltered || s == PortState::Filtered
}

/// The ports of a list whose state is reported, in order.
pub open spec fn reported_ports(ps: Seq<PortResult>) -> Seq<PortResult>
    decreases ps.len(),
{
    if ps.len() == 0 {
        Seq::empty()
    } else {
        let front = reported_ports(ps.drop_last());
        if reported_state(ps.last().state) { front.push(ps.last()) } else { front }
    }
}

/// The stages that a host's scan runs after its ports are scanned.
#[derive(Debug, Clone, Copy, PartialEq, Eq, Structural)]
pub struct HostStages {
    /// Services and versions are detected on the open ports.
    pub detect_versions: bool,
    /// The port results are put to the chaining rules.
    pub chain: bool,
    /// The operating system is guessed.
    pub detect_os: bool,
    /// Scripts are run on the open ports.
    pub run_scripts: bool,
}

/// The stages that run for a host with these reported ports: version
/// detection and scripts where switched on and some port is reported,
/// chaining where some port is reported, OS detection where switched on.
pub open spec fn host_stages_for(config: PipelineConfig, ports_reported: nat) -> HostStages {
    HostStages {
        detect_versions: config.version_detection && ports_reported > 0,
        chain: ports_reported > 0,
        detect_os: config.os_detection,
        run_scripts: config.script_scan && ports_reported > 0,
    }
}

/// The stages that run for a host once its ports are scanned.
pub fn host_stages(config: &PipelineConfig, ports: &Vec<PortResult>) -> (r: HostStages)
    ensures
        r == host_stages_for(*config, ports@.len()),
{
    let any = ports.len() > 0;
    HostStages {
        detect_versions: config.version_detection && any,
        chain: any,
        detect_os: config.os_detection,
        run_scripts: config.script_scan && any,
    }
}

/// Whether service detection probes a port: only open ports are.
pub fn needs_detection(port: &PortResult) -> (r: bool)
    ensures
        r == (port.state == PortState::Open),
{
    port.state == PortState::Open
}

/// The ports whose state is reported, in order.
pub fn keep_reported_ports(ports: Vec<PortResult>) -> (r: Vec<PortResult>)
    ensures
        r@ == reported_ports(ports@),
{
    let mut out: Vec<PortResult> = Vec::new();
    let mut ports = ports;
    let ghost all = ports@;
    let mut rev: Vec<PortResult> = Vec::new();
    while ports.len() > 0
        invariant
            all == ports@ + rev@.reverse(),
        decreases ports.len(),
    {
        let ghost before = ports@;
        let p = ports.pop().unwrap();
        let ghost before_rev = rev@;
        rev.push(p);
        assert(before =~= ports@.push(p));
        assert(rev@.reverse() =~= seq![p] + before_rev.reverse());
        assert(all =~= ports@ + rev@.reverse());
    }
    assert(all =~= rev@.reverse());
    let ghost order = rev@.reverse();
    let mut k: usize = 0;
    let n = rev.len();
    while rev.len() > 0
        invariant
            rev@.len() + k == n,
            n == order.len(),
            forall|j: int| 0 <= j < rev@.len() ==> #[trigger] rev@[j] == order[n - 1 - j],
            out@ == reported_ports(order.take(k as int)),
        decreases rev.len(),
    {
        let ghost before = rev@;
        let p = rev.pop().unwrap();
        assert(p == order[k as int]);
        assert(order.take(k + 1).drop_last() =~= order.take(k as int));
        assert(order.take(k + 1).last() == order[k as int]);
        if p.state == PortState::Open || p.state == PortState::OpenFiltered || p.state == PortState::Filtered {
            out.push(p);
        }
        k = k + 1;
        assert forall|j: int| 0 <= j < rev@.len() implies #[trigger] rev@[j] == order[n - 1 - j] by {
            assert(rev@[j] == before[j]);
        }
    }
    assert(order.take(n as int) =~= order);
    assert(order =~= all);
    out
}

/// The scanner settings used for each host: two seconds, two retries, a
/// hundred probes at once.
pub fn host_scanner_config() -> (r: ScannerConfig)
    ensures
        r.timeout == 2000 && r.max_retries == 2 && r.max_concurrent == 100,
{
    ScannerConfig { timeout: 2000, max_retries: 2, max_concurrent: 100 }
}

/// The security posture that a patch level confidence, in hundredths,
/// shows.
pub open spec fn posture_text(c: u8) -> Seq<char> {
    if c > 80 {
        "Strong"@
    } else if c > 60 {
        "Moderate"@
    } else if c > 40 {
        "Weak"@
    } else {
        "Poor"@
    }
}

/// The security posture that a patch level confidence, in hundredths,
/// shows.
pub fn posture_of(confidence: u8) -> (r: String)
    ensures
        r@ == posture_text(confidence),
{
    if confidence > 80 {
        string_from("Strong")
    } else if confidence > 60 {
        string_from("Moderate")
    } else if confidence > 40 {
        string_from("Weak")
    } else {
        string_from("Poor")
    }
}

/// The patch level confidence that a web server's headers earn.
pub open spec fn headers_confidence(b: Seq<char>) -> u8 {
    let pairs = header_pairs(text_lines(b));
    patch_confidence(pairs_map(pairs), security_names(pairs).len())
}

/// The CVE identifiers of a list of vulnerabilities.
pub open spec fn cve_ids_of(c: Seq<CveModel>) -> Seq<Seq<char>> {
    c.map_values(|m: CveModel| m.cve_id)
}

/// The service is a web service.
pub open spec fn is_web(s: Option<Seq<char>>) -> bool {
    s == Some("http"@) || s == Some("https"@)
}

/// A port result with what service detection found: service, version,
/// greeting and confidence; for a web service, the patch level and security
/// posture its headers show; and, where known vulnerabilities match the
/// service and version, the highest impact and their identifiers.
pub fn enrich_port(port: PortResult, info: &ServiceInfo, db: &CveDatabase) -> (r: PortResult)
    ensures
        r.port == port.port && r.protocol == port.protocol && r.state == port.state,
        r.service == info.service_name,
        r.version == info.version,
        r.extra_info == Some(info.banner),
        r.confidence == info.confidence,
        is_web(info.service_name.deep_view()) ==> ((r.patch_level matches Some(p) && p@ == patch_level_text(headers_confidence(info.banner@)))
            && (r.security_posture matches Some(s) && s@ == posture_text(headers_confidence(info.banner@)))),
        !is_web(info.service_name.deep_view()) ==> r.patch_level == port.patch_level && r.security_posture == port.security_posture,
        ({
            let c = match info.service_name {
                Some(s) => query_cves(db.table(), s@, info.version.deep_view()),
                None => Seq::empty(),
            };
            &&& c.len() > 0 ==> (r.impact_score == Some(max_cvss(c)) && (r.cve_ids matches Some(ids) && ids.deep_view() == cve_ids_of(c)))
            &&& c.len() == 0 ==> r.impact_score == port.impact_score && r.cve_ids == port.cve_ids
        }),
{
    let mut p = port;
    p.service = info.service_name.clone();
    p.version = info.version.clone();
    p.extra_info = Some(info.banner.clone());
    p.confidence = info.confidence;
    match &info.service_name {
        Some(svc) => {
            let sv = chars_of(svc.as_str());
            if eq_str(&sv, "http") || eq_str(&sv, "https") {
                let profile = HttpProfile::from_headers(info.banner.as_str());
                p.patch_level = Some(profile.infer_patch_level());
                p.security_posture = Some(posture_of(profile.patch_level_confidence));
            }
            let version: Option<&str> = match &info.version {
                Some(v) => Some(v.as_str()),
                None => None,
            };
            assert(opt_text(version) == info.version.deep_view());
            let impact = db.query(svc.as_str(), version);
            if impact.cves.len() > 0 {
                p.impact_score = Some(impact.score);
                let mut ids: Vec<String> = Vec::new();
                let mut k: usize = 0;
                let ghost c = cve_models(impact.cves@);
                while k < impact.cves.len()
                    invariant
                        k <= impact.cves@.len(),
                        c == cve_models(impact.cves@),
                        ids.deep_view() == cve_ids_of(c.take(k as int)),
                    decreases impact.cves.len() - k,
                {
                    let id = impact.cves[k].cve_id.clone();
                    let ghost before = ids.deep_view();
                    ids.push(id);
                    assert(ids.deep_view() =~= before.push(impact.cves@[k as int].cve_id@));
                    assert(cve_ids_of(c.take(k + 1)) =~= cve_ids_of(c.take(k as int)).push(c[k as int].cve_id));
                    k = k + 1;
                }
                assert(c.take(c.len() as int) =~= c);
                p.cve_ids = Some(ids);
            }
        },
        None => {},
    }
    p
}

/// Copies of the strings, in order.
pub fn clone_strings(v: &Vec<String>) -> (r: Vec<String>)
    ensures
        r.deep_view() == v.deep_view(),
{
    let mut out: Vec<String> = Vec::new();
    let mut k: usize = 0;
    while k < v.len()
        invariant
            k <= v@.len(),
            out@.len() == k,
            forall|j: int| 0 <= j < k ==> #[trigger] out@[j]@ == v@[j]@,
        decreases v.len() - k,
    {
        out.push(v[k].clone());
        k = k + 1;
    }
    assert(out.deep_view() =~= v.deep_view());
    out
}

/// The scripts to run on a port: those asked for, or else one chosen by the
/// port: anonymous FTP on 21, SSH authentication methods on 22, the page
/// title on the web ports.
pub open spec fn scripts_for(asked: Seq<Seq<char>>, port: u16) -> Seq<Seq<char>> {
    if asked.len() > 0 {
        asked
    } else if port == 21 {
        seq!["ftp-anon"@]
    } else if port == 22 {
        seq!["ssh-auth-methods"@]
    } else if port == 80 || port == 443 || port == 8080 || port == 8000 || port == 8443 {
        seq!["http-title"@]
    } else {
        Seq::empty()
    }
}

/// The scripts to run on a port.
pub fn select_scripts_for_port(config: &PipelineConfig, port_result: &PortResult) -> (r: Vec<String>)
    ensures
        r.deep_view() == scripts_for(config.scripts.deep_view(), port_result.port@),
{
    if config.scripts.len() > 0 {
        return clone_strings(&config.scripts);
    }
    let mut scripts: Vec<String> = Vec::new();
    let port = port_result.port.value();
    if port == 21 {
        scripts.push(string_from("ftp-anon"));
    } else if port == 22 {
        scripts.push(string_from("ssh-auth-methods"));
    } else if port == 80 || port == 443 || port == 8080 || port == 8000 || port == 8443 {
        scripts.push(string_from("http-title"));
    }
    assert(scripts.deep_view() =~= scripts_for(config.scripts.deep_view(), port_result.port@));
    scripts
}

/// The scan configuration that a run records: its own settings, no
/// targets, two retries, two seconds per probe.
pub fn create_scan_config(config: &PipelineConfig) -> (r: ScanConfig)
    ensures
        r.scan_type == config.scan_type,
        r.targets@.len() == 0,
        r.ports@ == config.ports@,
        r.os_detection == config.os_detection,
        r.version_detection == config.version_detection,
        r.script_scan == config.script_scan,
        r.scripts.deep_view() == config.scripts.deep_view(),
        r.timing == config.timing,
        r.max_retries == 2,
        r.timeout == 2000,
        !r.verbose,
{
    let scripts = clone_strings(&config.scripts);
    let mut ports: Vec<Port> = Vec::new();
    let mut j: usize = 0;
    while j < config.ports.len()
        invariant
            j <= config.ports@.len(),
            ports@ == config.ports@.take(j as int),
        decreases config.ports.len() - j,
    {
        ports.push(config.ports[j]);
        assert(ports@ =~= config.ports@.take(j + 1));
        j = j + 1;
    }
    assert(config.ports@.take(config.ports@.len() as int) =~= config.ports@);
    ScanConfig {
        scan_type: config.scan_type,
        targets: Vec::new(),
        ports,
        os_detection: config.os_detection,
        version_detection: config.version_detection,
        script_scan: config.script_scan,
        scripts,
        timing: config.timing,
        max_retries: 2,
        timeout: 2000,
        verbose: false,
    }
}

/// The context a script gets for a port: the address, the port, and the
/// port's service, version and greeting where known.
pub fn script_context_for(ip: IpAddr, port_result: &PortResult) -> (r: ScriptContext)
    ensures
        r.target_ip@ == ip_display(ip),
        r.target_port == Some(port_result.port@),
        r.service_name == port_result.service,
        r.service_version == port_result.version,
        r.os_name is None,
        r.banner == port_result.extra_info,
{
    ScriptContext {
        target_ip: ip.to_string(),
        target_port: Some(port_result.port.value()),
        service_name: port_result.service.clone(),
        service_version: port_result.version.clone(),
        os_name: None,
        banner: port_result.extra_info.clone(),
    }
}

/// The first port result of the list for the port, from position `i` on.
pub open spec fn find_port(ps: Seq<PortResult>, port: u16, i: int) -> Option<int>
    decreases ps.len() - i,
{
    if i < 0 || i >= ps.len() {
        None
    } else if ps[i].port@ == port {
        Some(i)
    } else {
        find_port(ps, port, i + 1)
    }
}

/// The context a chained script gets: the address and port, and the service,
/// version and greeting of the first result for that port, where there is
/// one.
pub fn chained_script_context(ip: IpAddr, port: u16, ports: &Vec<PortResult>) -> (r: ScriptContext)
    ensures
        r.target_ip@ == ip_display(ip),
        r.target_port == Some(port),
        r.os_name is None,
        match find_port(ports@, port, 0) {
            Some(k) => r.service_name == ports@[k].service && r.service_version == ports@[k].version
                && r.banner == ports@[k].extra_info,
            None => r.service_name is None && r.service_version is None && r.banner is None,
        },
{
    let mut i: usize = 0;
    while i < ports.len()
        invariant
            i <= ports@.len(),
            find_port(ports@, port, 0) == find_port(ports@, port, i as int),
        decreases ports.len() - i,
    {
        if ports[i].port.value() == port {
            let p = &ports[i];
            return ScriptContext {
                target_ip: ip.to_string(),
                target_port: Some(port),
                service_name: p.service.clone(),
                service_version: p.version.clone(),
                os_name: None,
                banner: p.extra_info.clone(),
            };
        }
        i = i + 1;
    }
    ScriptContext {
        target_ip: ip.to_string(),
        target_port: Some(port),
        service_name: None,
        service_version: None,
        os_name: None,
        banner: None,
    }
}

/// The path of a script: `scripts/<name>.py`.
pub fn script_path(name: &str) -> (r: String)
    ensures
        r@ == "scripts/"@ + name@ + ".py"@,
{
    let mut s = string_from("scripts/");
    push_str(&mut s, name);
    push_str(&mut s, ".py");
    s
}

/// The name under which a chained script's result is kept.
pub fn chained_label(name: &str) -> (r: String)
    ensures
        r@ == name@ + " [chained]"@,
{
    let mut s = string_from(name);
    push_str(&mut s, " [chained]");
    s
}

/// Nanoseconds since the epoch.
pub open spec fn instant_nanos(t: Timestamp) -> int {
    t.secs * 1_000_000_000 + t.nanos
}

/// The whole milliseconds from `start` to `end`, or 0 where `end` comes
/// first.
pub open spec fn elapsed_millis(start: Timestamp, end: Timestamp) -> int {
    let d = instant_nanos(end) - instant_nanos(start);
    if d < 0 { 0 } else { d / 1_000_000 }
}

/// The whole milliseconds from `start` to `end`, or 0 where `end` comes
/// first; at most `u64::MAX`.
pub fn elapsed_ms(start: Timestamp, end: Timestamp) -> (r: u64)
    requires
        start.nanos < 1_000_000_000,
        end.nanos < 1_000_000_000,
    ensures
        elapsed_millis(start, end) <= u64::MAX ==> r == elapsed_millis(start, end),
        elapsed_millis(start, end) > u64::MAX ==> r == u64::MAX,
{
    let a: i128 = start.secs as i128 * 1_000_000_000 + start.nanos as i128;
    let b: i128 = end.secs as i128 * 1_000_000_000 + end.nanos as i128;
    let d: i128 = b - a;
    if d < 0 {
        0
    } else {
        let ms: i128 = d / 1_000_000;
        if ms > u64::MAX as i128 { u64::MAX } else { ms as u64 }
    }
}

} // verus!
