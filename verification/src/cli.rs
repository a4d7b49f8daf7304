//! The decisions of the command line: which scan the options ask for,
//! which ports, which timing, and which scripts are listed.

use vstd::prelude::*;
use crate::error::error_text;
use crate::net::{parse_port_range, port_list_error, port_spec_values};
use crate::net::ports::{all, top_100, top_1000, first_ports, top_100_values, top_1000_values};
use crate::output::OutputFormat;
use crate::pipeline::{PipelineConfig, clone_strings};
use crate::scan::ScanType;
use crate::text::{chars_of, contains, contains_exec, eq_str, push_str, string_from, lowercase, split_on};
use crate::types::{Port, TimingTemplate, port_values};

verus! {

/// The scan options of the command line, as plain values.
#[derive(Debug, Clone)]
pub struct ScanRequest {
    pub connect_scan: bool,
    pub udp_scan: bool,
    pub null_scan: bool,
    pub fin_scan: bool,
    pub xmas_scan: bool,
    pub ack_scan: bool,
    pub window_scan: bool,
    pub maimon_scan: bool,
    pub ports: String,
    pub os_detection: bool,
    pub version_detection: bool,
    pub script_scan: bool,
    pub scripts: Vec<String>,
    pub aggressive: bool,
    pub timing: Option<TimingTemplate>,
}

/// The scan type that the options ask for: the first one set of connect,
/// UDP, NULL, FIN, Xmas, ACK, window and Maimon, else SYN.
pub open spec fn requested_scan_type(r: ScanRequest) -> ScanType {
    if r.connect_scan {
        ScanType::TcpConnect
    } else if r.udp_scan {
        ScanType::Udp
    } else if r.null_scan {
        ScanType::TcpNull
    } else if r.fin_scan {
        ScanType::TcpFin
    } else if r.xmas_scan {
        ScanType::TcpXmas
    } else if r.ack_scan {
        ScanType::TcpAck
    } else if r.window_scan {
        ScanType::TcpWindow
    } else if r.maimon_scan {
        ScanType::TcpMaimon
    } else {
        ScanType::TcpSyn
    }
}

/// The scan type that the options ask for.
pub fn scan_type_of(req: &ScanRequest) -> (r: ScanType)
    ensures
        r == requested_scan_type(*req),
{
    if req.connect_scan {
        ScanType::TcpConnect
    } else if req.udp_scan {
        ScanType::Udp
    } else if req.null_scan {
        ScanType::TcpNull
    } else if req.fin_scan {
        ScanType::TcpFin
    } else if req.xmas_scan {
        ScanType::TcpXmas
    } else if req.ack_scan {
        ScanType::TcpAck
    } else if req.window_scan {
        ScanType::TcpWindow
    } else if req.maimon_scan {
        ScanType::TcpMaimon
    } else {
        ScanType::TcpSyn
    }
}

/// The ports that a port option names: a named set, or a port
/// specification.
pub open spec fn ports_named(s: Seq<char>) -> Option<Seq<u16>> {
    if s == "top100"@ {
        Some(top_100_values())
    } else if s == "top1000"@ {
        Some(top_1000_values())
    } else if s == "all"@ {
        Some(first_ports(65535))
    } else {
        port_spec_values(s)
    }
}

/// The ports that a port option names: `top100`, `top1000`, `all`, or a
/// specification such as `1-1000` or `22,80,443`. A refused specification
/// gives a message that says why.
pub fn parse_ports(port_spec: &str) -> (r: Result<Vec<Port>, String>)
    requires
        (port_spec@.len() + 1) * 65536 <= usize::MAX,
    ensures
        r is Ok <==> ports_named(port_spec@) is Some,
        r matches Ok(v) ==> Some(port_values(v@)) == ports_named(port_spec@),
        r matches Err(m) ==> m@ == "Invalid port specification: Invalid input: "@ + port_list_error(split_on(port_spec@, ',')),
{
    let s = chars_of(port_spec);
    if eq_str(&s, "top100") || eq_str(&s, "top1000") {
        if eq_str(&s, "top100") {
            Ok(top_100())
        } else {
            Ok(top_1000())
        }
    } else if eq_str(&s, "all") {
        Ok(all())
    } else {
        match parse_port_range(port_spec) {
            Ok(v) => Ok(v),
            Err(e) => {
                let mut m = string_from("Invalid port specification: ");
                let t = e.message();
                push_str(&mut m, t.as_str());
                proof {
                    reveal_strlit("Invalid port specification: ");
                    reveal_strlit("Invalid input: ");
                    reveal_strlit("Invalid port specification: Invalid input: ");
                    assert(m@ =~= "Invalid port specification: Invalid input: "@ + port_list_error(split_on(port_spec@, ',')));
                }
                Err(m)
            },
        }
    }
}

/// The timing template that a digit from 0 to 5 names.
pub open spec fn timing_named(s: Seq<char>) -> Option<TimingTemplate> {
    if s == "0"@ {
        Some(TimingTemplate::T0)
    } else if s == "1"@ {
        Some(TimingTemplate::T1)
    } else if s == "2"@ {
        Some(TimingTemplate::T2)
    } else if s == "3"@ {
        Some(TimingTemplate::T3)
    } else if s == "4"@ {
        Some(TimingTemplate::T4)
    } else if s == "5"@ {
        Some(TimingTemplate::T5)
    } else {
        None
    }
}

/// The timing template that a digit from 0 to 5 names.
pub fn parse_timing(s: &str) -> (r: Result<TimingTemplate, String>)
    ensures
        timing_named(s@) matches Some(t) ==> r == Ok::<TimingTemplate, String>(t),
        timing_named(s@) is None ==> (r matches Err(m) && m@ == "Invalid timing template: "@ + s@ + " (must be 0-5)"@),
{
    let v = chars_of(s);
    if eq_str(&v, "0") {
        Ok(TimingTemplate::T0)
    } else if eq_str(&v, "1") {
        Ok(TimingTemplate::T1)
    } else if eq_str(&v, "2") {
        Ok(TimingTemplate::T2)
    } else if eq_str(&v, "3") {
        Ok(TimingTemplate::T3)
    } else if eq_str(&v, "4") {
        Ok(TimingTemplate::T4)
    } else if eq_str(&v, "5") {
        Ok(TimingTemplate::T5)
    } else {
        let mut m = string_from("Invalid timing template: ");
        push_str(&mut m, s);
        push_str(&mut m, " (must be 0-5)");
        Err(m)
    }
}

/// The run that the options ask for: the scan type, the ports, detection of
/// operating systems, versions and scripts (all three in aggressive mode),
/// the scripts asked for, the timing (normal by default), ten hosts at once.
/// A refused port option gives its message.
pub fn run_scan_config(req: &ScanRequest) -> (r: Result<PipelineConfig, String>)
    requires
        (req.ports@.len() + 1) * 65536 <= usize::MAX,
    ensures
        r is Ok <==> ports_named(req.ports@) is Some,
        r matches Ok(c) ==> {
            &&& c.scan_type == requested_scan_type(*req)
            &&& Some(port_values(c.ports@)) == ports_named(req.ports@)
            &&& c.os_detection == (req.aggressive || req.os_detection)
            &&& c.version_detection == (req.aggressive || req.version_detection)
            &&& c.script_scan == (req.aggressive || req.script_scan)
            &&& c.scripts.deep_view() == req.scripts.deep_view()
            &&& c.timing == (match req.timing { Some(t) => t, None => TimingTemplate::T3 })
            &&& c.max_concurrent_hosts == 10
        },
        r matches Err(m) ==> m@ == "Invalid port specification: Invalid input: "@ + port_list_error(split_on(req.ports@, ',')),
{
    let scan_type = scan_type_of(req);
    let ports = match parse_ports(req.ports.as_str()) {
        Ok(p) => p,
        Err(e) => {
            return Err(e);
        },
    };
    let (os_detection, version_detection, script_scan) = if req.aggressive {
        (true, true, true)
    } else {
        (req.os_detection, req.version_detection, req.script_scan)
    };
    let timing = match req.timing {
        Some(t) => t,
        None => TimingTemplate::T3,
    };
    Ok(PipelineConfig {
        scan_type,
        ports,
        os_detection,
        version_detection,
        script_scan,
        scripts: clone_strings(&req.scripts),
        timing,
        max_concurrent_hosts: 10,
    })
}

/// The report format that an option names, the console where it names none.
pub fn output_format_or_console(name: &str) -> (r: OutputFormat)
    ensures
        r == (match crate::output::format_named(lowercase(name@)) {
            Some(f) => f,
            None => OutputFormat::Console,
        }),
{
    match OutputFormat::from_str(name) {
        Some(f) => f,
        None => OutputFormat::Console,
    }
}

/// The scripts that come with the scanner: name, categories, description.
pub open spec fn script_catalog() -> Seq<(Seq<char>, Seq<char>, Seq<char>)> {
    seq![
        ("http-title"@, "discovery, safe"@, "Grabs HTML title from web servers"@),
        ("ssh-auth-methods"@, "discovery, safe"@, "Lists SSH authentication methods"@),
        ("ftp-anon"@, "auth, vuln"@, "Checks for anonymous FTP login"@),
    ]
}

/// The catalog entries whose categories hold the filter, in order.
pub open spec fn catalog_listed(entries: Seq<(Seq<char>, Seq<char>, Seq<char>)>, filter: Option<Seq<char>>) -> Seq<(Seq<char>, Seq<char>, Seq<char>)>
    decreases entries.len(),
{
    if entries.len() == 0 {
        Seq::empty()
    } else {
        let front = catalog_listed(entries.drop_last(), filter);
        match filter {
            Some(f) => if contains(entries.last().1, f) { front.push(entries.last()) } else { front },
            None => front.push(entries.last()),
        }
    }
}

/// The plain values of listed scripts.
pub open spec fn listing_views(v: Seq<(String, String, String)>) -> Seq<(Seq<char>, Seq<char>, Seq<char>)> {
    v.map_values(|e: (String, String, String)| (e.0@, e.1@, e.2@))
}

/// The scripts to list: those of the catalog whose categories hold the
/// filter, or all of them.
pub fn listed_scripts(category: Option<&str>) -> (r: Vec<(String, String, String)>)
    ensures
        listing_views(r@) == catalog_listed(script_catalog(), match category {
            Some(c) => Some(c@),
            None => None,
        }),
{
    let ghost filter = match category {
        Some(c) => Some(c@),
        None => None::<Seq<char>>,
    };
    let names = ["http-title", "ssh-auth-methods", "ftp-anon"];
    let cats = ["discovery, safe", "discovery, safe", "auth, vuln"];
    let descs = ["Grabs HTML title from web servers", "Lists SSH authentication methods", "Checks for anonymous FTP login"];
    let ghost cat = script_catalog();
    assert(cat[0] == (names[0]@, cats[0]@, descs[0]@));
    assert(cat[1] == (names[1]@, cats[1]@, descs[1]@));
    assert(cat[2] == (names[2]@, cats[2]@, descs[2]@));
    let mut out: Vec<(String, String, String)> = Vec::new();
    let mut k: usize = 0;
    while k < 3
        invariant
            k <= 3,
            cat == script_catalog(),
            forall|j: int| 0 <= j < 3 ==> #[trigger] cat[j] == (names@[j]@, cats@[j]@, descs@[j]@),
            filter == (match category {
                Some(c) => Some(c@),
                None => None::<Seq<char>>,
            }),
            listing_views(out@) == catalog_listed(cat.take(k as int), filter),
        decreases 3 - k,
    {
        assert(cat.take(k + 1).drop_last() =~= cat.take(k as int));
        assert(cat.take(k + 1).last() == cat[k as int]);
        let keep = match category {
            Some(f) => {
                let c = chars_of(cats[k]);
                let fv = chars_of(f);
                contains_exec(&c, &fv)
            },
            None => true,
        };
        if keep {
            let ghost before = listing_views(out@);
            out.push((string_from(names[k]), string_from(cats[k]), string_from(descs[k])));
            assert(listing_views(out@) =~= before.push(cat[k as int]));
        }
        k = k + 1;
    }
    assert(cat.take(3) =~= cat);
    out
}

} // verus!
