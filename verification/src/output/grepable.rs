//! Grepable reports: one line per host.

use vstd::prelude::*;
use crate::addr::ip_display;
use crate::output::{ReportTimes, protocol_lower, protocol_lower_str};
use crate::scan::{HostResult, PortResult, ScanResults};
use crate::text::{decimal_chars, push_str, push_decimal, contains, lemma_contains_part};
use crate::types::{HostState, port_state_text};

verus! {

/// A host's state as the grepable format writes it.
pub open spec fn grep_status(s: HostState) -> Seq<char> {
    match s {
        HostState::Up => "Up"@,
        HostState::Down => "Down"@,
        HostState::Unknown => "Unknown"@,
    }
}

/// One port as `port/state/protocol/service`.
pub open spec fn grep_port_head(p: PortResult) -> Seq<char> {
    decimal_chars(p.port@ as nat) + "/"@ + port_state_text(p.state) + "/"@ + protocol_lower(p.protocol) + "/"@
        + match p.service { Some(s) => s@, None => Seq::empty() }
}

/// `/version`, where the port's version is known and not empty.
pub open spec fn grep_port_version(p: PortResult) -> Seq<char> {
    match p.version {
        Some(v) => if v@.len() > 0 { "/"@ + v@ } else { Seq::empty() },
        None => Seq::empty(),
    }
}

/// One port as `port/state/protocol/service`, with `/version` where the
/// version is known and not empty.
pub open spec fn grep_port(p: PortResult) -> Seq<char> {
    grep_port_head(p) + grep_port_version(p)
}

/// The ports, separated by `, `.
pub open spec fn grep_ports(ps: Seq<PortResult>) -> Seq<char>
    decreases ps.len(),
{
    if ps.len() == 0 {
        Seq::empty()
    } else if ps.len() == 1 {
        grep_port(ps[0])
    } else {
        grep_ports(ps.drop_last()) + ", "@ + grep_port(ps.last())
    }
}

/// ` (hostname)`, where the host's name is known.
pub open spec fn grep_hostname(h: HostResult) -> Seq<char> {
    match h.target.hostname {
        Some(n) => " ("@ + n@ + ")"@,
        None => Seq::empty(),
    }
}

/// A host's line: its address, its name in brackets where known, its
/// status, and its ports where it has any.
pub open spec fn grep_host(h: HostResult) -> Seq<char> {
    "Host: "@ + ip_display(h.target.ip) + grep_hostname(h) + "\tStatus: "@ + grep_status(h.state)
        + if h.ports@.len() > 0 { "\tPorts: "@ + grep_ports(h.ports@) } else { Seq::empty() }
}

/// A host's line starts with its address and gives its status by name:
/// `Status: Up`, `Status: Down` or `Status: Unknown`.
pub proof fn lemma_grep_host_status(h: HostResult)
    ensures
        grep_host(h).take(6) == "Host: "@,
        h.state == HostState::Up ==> contains(grep_host(h), "Status: Up"@),
        h.state == HostState::Down ==> contains(grep_host(h), "Status: Down"@),
        h.state == HostState::Unknown ==> contains(grep_host(h), "Status: Unknown"@),
{
    reveal_strlit("Host: ");
    reveal_strlit("\tStatus: ");
    reveal_strlit("\t");
    reveal_strlit("Status: ");
    reveal_strlit("Up");
    reveal_strlit("Down");
    reveal_strlit("Unknown");
    reveal_strlit("Status: Up");
    reveal_strlit("Status: Down");
    reveal_strlit("Status: Unknown");
    let a = "Host: "@ + ip_display(h.target.ip) + grep_hostname(h) + "\t"@;
    let pat = "Status: "@ + grep_status(h.state);
    let rest = if h.ports@.len() > 0 { "\tPorts: "@ + grep_ports(h.ports@) } else { Seq::empty() };
    assert("\tStatus: "@ =~= "\t"@ + "Status: "@);
    assert(grep_host(h) =~= a + pat + rest);
    lemma_contains_part(a, pat, rest);
    assert(grep_host(h).take(6) =~= "Host: "@);
    match h.state {
        HostState::Up => assert(pat =~= "Status: Up"@),
        HostState::Down => assert(pat =~= "Status: Down"@),
        HostState::Unknown => assert(pat =~= "Status: Unknown"@),
    }
}

/// The host lines, each ended by a newline.
pub open spec fn grep_hosts(hs: Seq<HostResult>) -> Seq<char>
    decreases hs.len(),
{
    if hs.len() == 0 { Seq::empty() } else { grep_hosts(hs.drop_last()) + grep_host(hs.last()) + "\n"@ }
}

/// A whole report.
pub open spec fn grep_report(r: ScanResults, started: Seq<char>, ended: Seq<char>, elapsed: Seq<char>) -> Seq<char> {
    "# ApexScan grepable output\n# Command: apexscan\n# Scan started at: "@ + started + "\n"@ + grep_hosts(r.hosts@)
        + "# Scan finished at: "@ + ended + " ("@ + elapsed + "s elapsed)\n"@
}

fn push_grep_port(out: &mut String, p: &PortResult)
    ensures
        final(out)@ == old(out)@ + grep_port(*p),
{
    let ghost start = out@;
    push_decimal(out, p.port.value() as u64);
    push_str(out, "/");
    let st = p.state.to_string();
    push_str(out, st.as_str());
    push_str(out, "/");
    push_str(out, protocol_lower_str(p.protocol));
    push_str(out, "/");
    match &p.service {
        Some(s) => push_str(out, s.as_str()),
        None => {},
    }
    assert(out@ =~= start + grep_port_head(*p));
    let ghost mid = out@;
    match &p.version {
        Some(v) => {
            if v.as_str().unicode_len() > 0 {
                push_str(out, "/");
                push_str(out, v.as_str());
            }
        },
        None => {},
    }
    assert(out@ =~= mid + grep_port_version(*p));
    assert(out@ =~= start + grep_port(*p));
}

/// A host's line.
pub fn format_host_grepable(host: &HostResult) -> (r: String)
    ensures
        r@ == grep_host(*host),
{
    let mut line = String::new();
    push_str(&mut line, "Host: ");
    let ip = host.target.ip.to_string();
    push_str(&mut line, ip.as_str());
    match &host.target.hostname {
        Some(n) => {
            push_str(&mut line, " (");
            push_str(&mut line, n.as_str());
            push_str(&mut line, ")");
        },
        None => {},
    }
    push_str(&mut line, "\tStatus: ");
    match host.state {
        HostState::Up => push_str(&mut line, "Up"),
        HostState::Down => push_str(&mut line, "Down"),
        HostState::Unknown => push_str(&mut line, "Unknown"),
    }
    let ghost head = line@;
    if host.ports.len() > 0 {
        push_str(&mut line, "\tPorts: ");
        let ghost p0 = line@;
        let mut i: usize = 0;
        while i < host.ports.len()
            invariant
                i <= host.ports@.len(),
                line@ == p0 + grep_ports(host.ports@.take(i as int)),
            decreases host.ports.len() - i,
        {
            let ghost before = line@;
            assert(host.ports@.take(i + 1).drop_last() =~= host.ports@.take(i as int));
            if i > 0 {
                push_str(&mut line, ", ");
            }
            push_grep_port(&mut line, &host.ports[i]);
            proof {
                if i == 0 {
                    assert(host.ports@.take(1) =~= seq![host.ports@[0]]);
                    assert(line@ =~= p0 + grep_ports(host.ports@.take(1)));
                } else {
                    assert(line@ =~= p0 + grep_ports(host.ports@.take(i + 1)));
                }
            }
            i = i + 1;
        }
        assert(host.ports@.take(host.ports@.len() as int) =~= host.ports@);
    }
    assert(line@ =~= grep_host(*host));
    line
}

/// The grepable report of a scan, with the times already written as text.
pub fn format_grepable(results: &ScanResults, times: &ReportTimes) -> (r: String)
    ensures
        r@ == grep_report(*results, times.started_text@, times.ended_text@, times.elapsed_text@),
{
    let mut output = String::new();
    push_str(&mut output, "# ApexScan grepable output\n# Command: apexscan\n# Scan started at: ");
    push_str(&mut output, times.started_text.as_str());
    push_str(&mut output, "\n");
    let ghost h0 = output@;
    let mut i: usize = 0;
    while i < results.hosts.len()
        invariant
            i <= results.hosts@.len(),
            output@ == h0 + grep_hosts(results.hosts@.take(i as int)),
        decreases results.hosts.len() - i,
    {
        assert(results.hosts@.take(i + 1).drop_last() =~= results.hosts@.take(i as int));
        let line = format_host_grepable(&results.hosts[i]);
        push_str(&mut output, line.as_str());
        push_str(&mut output, "\n");
        assert(output@ =~= h0 + grep_hosts(results.hosts@.take(i + 1)));
        i = i + 1;
    }
    assert(results.hosts@.take(results.hosts@.len() as int) =~= results.hosts@);
    let ghost t0 = output@;
    push_str(&mut output, "# Scan finished at: ");
    push_str(&mut output, times.ended_text.as_str());
    push_str(&mut output, " (");
    push_str(&mut output, times.elapsed_text.as_str());
    push_str(&mut output, "s elapsed)\n");
    assert(output@ =~= grep_report(*results, times.started_text@, times.ended_text@, times.elapsed_text@));
    output
}

} // verus!
