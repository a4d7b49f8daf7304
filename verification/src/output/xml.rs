//! Nmap-compatible XML reports.

use vstd::prelude::*;
use crate::addr::ip_display;
use crate::error::Result;
use crate::output::{ReportTimes, protocol_lower, protocol_lower_str};
use crate::scan::{HostResult, OsResult, PortResult, ScanResults};
use crate::text::{decimal_chars, signed_chars, push_str, push_decimal, push_signed, contains, lemma_contains_part};
use crate::types::{HostState, mac_display, port_state_text};

verus! {

/// The element of one port.
pub open spec fn port_xml(p: PortResult) -> Seq<char> {
    "      <port protocol=\""@ + protocol_lower(p.protocol) + "\" portid=\""@ + decimal_chars(p.port@ as nat) + "\">\n"@
        + "        <state state=\""@ + port_state_text(p.state) + "\" reason=\"syn-ack\" reason_ttl=\"64\"/>\n"@
        + match p.service {
        Some(s) => "        <service name=\""@ + s@ + match p.version {
            Some(v) => " product=\""@ + v@ + "\""@,
            None => Seq::empty(),
        } + " method=\"probed\" conf=\"10\"/>\n"@,
        None => "        <service name=\"unknown\" method=\"table\" conf=\"3\"/>\n"@,
    } + "      </port>\n"@
}

/// The elements of several ports, in order.
pub open spec fn ports_xml(ps: Seq<PortResult>) -> Seq<char>
    decreases ps.len(),
{
    if ps.len() == 0 { Seq::empty() } else { ports_xml(ps.drop_last()) + port_xml(ps.last()) }
}

/// The element of one operating system match.
pub open spec fn os_xml(o: OsResult) -> Seq<char> {
    "      <osmatch name=\""@ + o.name@ + "\" accuracy=\""@ + decimal_chars(o.confidence as nat) + "\"/>\n"@
}

/// The elements of several operating system matches, in order.
pub open spec fn oses_xml(os: Seq<OsResult>) -> Seq<char>
    decreases os.len(),
{
    if os.len() == 0 { Seq::empty() } else { oses_xml(os.drop_last()) + os_xml(os.last()) }
}

/// The opening of a host's element: its times, status and address.
pub open spec fn host_open_xml(h: HostResult) -> Seq<char> {
    "  <host starttime=\""@ + signed_chars(h.start_time.secs as int) + "\" endtime=\""@ + signed_chars(h.end_time.secs as int)
        + "\">\n"@
        + "    <status state=\""@ + (if h.state == HostState::Up { "up"@ } else { "down"@ })
        + "\" reason=\"echo-reply\" reason_ttl=\"64\"/>\n"@
        + "    <address addr=\""@ + ip_display(h.target.ip) + "\" addrtype=\"ipv4\"/>\n"@
}

/// A host's element says `state="up"` for a host that is up and
/// `state="down"` for any other host.
pub proof fn lemma_host_status_xml(h: HostResult)
    ensures
        h.state == HostState::Up ==> contains(host_open_xml(h), "state=\"up\""@),
        h.state != HostState::Up ==> contains(host_open_xml(h), "state=\"down\""@),
{
    reveal_strlit("  <host starttime=\"");
    reveal_strlit("\" endtime=\"");
    reveal_strlit("\">\n");
    reveal_strlit("    <status state=\"");
    reveal_strlit("    <status ");
    reveal_strlit("up");
    reveal_strlit("down");
    reveal_strlit("state=\"up\"");
    reveal_strlit("state=\"down\"");
    reveal_strlit("state=\"");
    reveal_strlit("\"");
    reveal_strlit("\" reason=\"echo-reply\" reason_ttl=\"64\"/>\n");
    reveal_strlit(" reason=\"echo-reply\" reason_ttl=\"64\"/>\n");
    let w = if h.state == HostState::Up { "up"@ } else { "down"@ };
    let a = "  <host starttime=\""@ + signed_chars(h.start_time.secs as int) + "\" endtime=\""@
        + signed_chars(h.end_time.secs as int) + "\">\n"@ + "    <status "@;
    let pat = "state=\""@ + w + "\""@;
    let rest = " reason=\"echo-reply\" reason_ttl=\"64\"/>\n"@ + "    <address addr=\""@ + ip_display(h.target.ip)
        + "\" addrtype=\"ipv4\"/>\n"@;
    assert("    <status state=\""@ =~= "    <status "@ + "state=\""@);
    assert("\" reason=\"echo-reply\" reason_ttl=\"64\"/>\n"@ =~= "\""@ + " reason=\"echo-reply\" reason_ttl=\"64\"/>\n"@);
    assert(host_open_xml(h) =~= a + pat + rest);
    lemma_contains_part(a, pat, rest);
    if h.state == HostState::Up {
        assert(pat =~= "state=\"up\""@);
    } else {
        assert(pat =~= "state=\"down\""@);
    }
}

/// A host's hardware address, where known.
pub open spec fn host_mac_xml(h: HostResult) -> Seq<char> {
    match h.target.mac {
        Some(m) => "    <address addr=\""@ + mac_display(m) + "\" addrtype=\"mac\"/>\n"@,
        None => Seq::empty(),
    }
}

/// A host's name, where known.
pub open spec fn host_names_xml(h: HostResult) -> Seq<char> {
    match h.target.hostname {
        Some(n) => "    <hostnames>\n"@ + "      <hostname name=\""@ + n@ + "\" type=\"PTR\"/>\n"@ + "    </hostnames>\n"@,
        None => "    <hostnames/>\n"@,
    }
}

/// A host's ports, where it has any.
pub open spec fn host_ports_xml(h: HostResult) -> Seq<char> {
    if h.ports@.len() > 0 { "    <ports>\n"@ + ports_xml(h.ports@) + "    </ports>\n"@ } else { Seq::empty() }
}

/// A host's operating system matches, where it has any.
pub open spec fn host_os_xml(h: HostResult) -> Seq<char> {
    if h.os@.len() > 0 { "    <os>\n"@ + oses_xml(h.os@) + "    </os>\n"@ } else { Seq::empty() }
}

/// A host's round-trip time, where known.
pub open spec fn host_times_xml(h: HostResult) -> Seq<char> {
    match h.latency {
        Some(us) => "    <times srtt=\""@ + decimal_chars(us as nat) + "\" rttvar=\"5000\" to=\"100000\"/>\n"@,
        None => Seq::empty(),
    }
}

/// The element of one host.
pub open spec fn host_xml(h: HostResult) -> Seq<char> {
    host_open_xml(h) + host_mac_xml(h) + host_names_xml(h) + host_ports_xml(h) + host_os_xml(h) + host_times_xml(h)
        + "  </host>\n"@
}

/// The elements of several hosts, in order.
pub open spec fn hosts_xml(hs: Seq<HostResult>) -> Seq<char>
    decreases hs.len(),
{
    if hs.len() == 0 { Seq::empty() } else { hosts_xml(hs.drop_last()) + host_xml(hs.last()) }
}

/// The prologue of a report.
pub open spec fn xml_head(r: ScanResults) -> Seq<char> {
    "<?xml version=\"1.0\" encoding=\"UTF-8\"?>\n"@ + "<!DOCTYPE nmaprun>\n"@
        + "<?xml-stylesheet href=\"file:///usr/local/bin/../share/nmap/nmap.xsl\" type=\"text/xsl\"?>\n"@
        + "<nmaprun scanner=\"apexscan\" args=\"apexscan\" start=\""@ + signed_chars(r.start_time.secs as int)
        + "\" version=\"0.1.0\">\n"@
        + "  <scaninfo type=\"syn\" protocol=\"tcp\" numservices=\"1000\" services=\"1-65535\"/>\n"@
        + "  <verbose level=\"0\"/>\n"@ + "  <debugging level=\"0\"/>\n"@
}

/// The summary sentence of the run statistics.
pub open spec fn xml_summary(r: ScanResults, elapsed_text: Seq<char>) -> Seq<char> {
    "ApexScan done"@ + "; "@ + decimal_chars(r.stats.total_hosts as nat) + " IP address"@
        + (if r.stats.total_hosts != 1 { "es"@ } else { Seq::empty() })
        + " ("@ + decimal_chars(r.stats.hosts_up as nat) + " host"@ + (if r.stats.hosts_up != 1 { "s"@ } else { Seq::empty() })
        + " up) scanned in "@ + elapsed_text + " seconds"@
}

/// The line that says when the report was finished.
pub open spec fn xml_finished(r: ScanResults, finished_secs: i64, finished_text: Seq<char>, elapsed_text: Seq<char>) -> Seq<char> {
    "    <finished time=\""@ + signed_chars(finished_secs as int) + "\" timestr=\""@ + finished_text
        + "\" elapsed=\""@ + decimal_chars((r.duration / 1000) as nat) + "\" summary=\""@ + xml_summary(r, elapsed_text)
        + "\"/>\n"@
}

/// The line that counts the hosts.
pub open spec fn xml_hosts_line(r: ScanResults) -> Seq<char> {
    "    <hosts up=\""@ + decimal_chars(r.stats.hosts_up as nat) + "\" down=\""@ + decimal_chars(r.stats.hosts_down as nat)
        + "\" total=\""@ + decimal_chars(r.stats.total_hosts as nat) + "\"/>\n"@
}

/// The run statistics that close a report.
pub open spec fn xml_tail(r: ScanResults, finished_secs: i64, finished_text: Seq<char>, elapsed_text: Seq<char>) -> Seq<char> {
    "  <runstats>\n"@ + xml_finished(r, finished_secs, finished_text, elapsed_text) + xml_hosts_line(r)
        + "  </runstats>\n"@ + "</nmaprun>\n"@
}

/// A whole report.
pub open spec fn xml_report(r: ScanResults, finished_secs: i64, finished_text: Seq<char>, elapsed_text: Seq<char>) -> Seq<char> {
    xml_head(r) + hosts_xml(r.hosts@) + xml_tail(r, finished_secs, finished_text, elapsed_text)
}

fn push_port_xml(out: &mut String, p: &PortResult)
    ensures
        final(out)@ == old(out)@ + port_xml(*p),
{
    let ghost start = out@;
    push_str(out, "      <port protocol=\"");
    push_str(out, protocol_lower_str(p.protocol));
    push_str(out, "\" portid=\"");
    push_decimal(out, p.port.value() as u64);
    push_str(out, "\">\n");
    push_str(out, "        <state state=\"");
    let st = p.state.to_string();
    push_str(out, st.as_str());
    push_str(out, "\" reason=\"syn-ack\" reason_ttl=\"64\"/>\n");
    let ghost mid = out@;
    match &p.service {
        Some(s) => {
            push_str(out, "        <service name=\"");
            push_str(out, s.as_str());
            let ghost mid2 = out@;
            match &p.version {
                Some(v) => {
                    push_str(out, " product=\"");
                    push_str(out, v.as_str());
                    push_str(out, "\"");
                },
                None => {},
            }
            push_str(out, " method=\"probed\" conf=\"10\"/>\n");
        },
        None => {
            push_str(out, "        <service name=\"unknown\" method=\"table\" conf=\"3\"/>\n");
        },
    }
    push_str(out, "      </port>\n");
    assert(out@ =~= start + port_xml(*p));
}

fn push_host_open_xml(out: &mut String, h: &HostResult)
    ensures
        final(out)@ == old(out)@ + host_open_xml(*h),
{
    let ghost start = out@;
    push_str(out, "  <host starttime=\"");
    push_signed(out, h.start_time.secs);
    push_str(out, "\" endtime=\"");
    push_signed(out, h.end_time.secs);
    push_str(out, "\">\n");
    push_str(out, "    <status state=\"");
    if h.state == HostState::Up {
        push_str(out, "up");
    } else {
        push_str(out, "down");
    }
    push_str(out, "\" reason=\"echo-reply\" reason_ttl=\"64\"/>\n");
    push_str(out, "    <address addr=\"");
    let ip = h.target.ip.to_string();
    push_str(out, ip.as_str());
    push_str(out, "\" addrtype=\"ipv4\"/>\n");
    assert(out@ =~= start + host_open_xml(*h));
}

fn push_host_mac_xml(out: &mut String, h: &HostResult)
    ensures
        final(out)@ == old(out)@ + host_mac_xml(*h),
{
    let ghost start = out@;
    match &h.target.mac {
        Some(m) => {
            push_str(out, "    <address addr=\"");
            let ms = m.to_string();
            push_str(out, ms.as_str());
            push_str(out, "\" addrtype=\"mac\"/>\n");
        },
        None => {},
    }
    assert(out@ =~= start + host_mac_xml(*h));
}

fn push_host_names_xml(out: &mut String, h: &HostResult)
    ensures
        final(out)@ == old(out)@ + host_names_xml(*h),
{
    let ghost start = out@;
    match &h.target.hostname {
        Some(n) => {
            push_str(out, "    <hostnames>\n");
            push_str(out, "      <hostname name=\"");
            push_str(out, n.as_str());
            push_str(out, "\" type=\"PTR\"/>\n");
            push_str(out, "    </hostnames>\n");
        },
        None => {
            push_str(out, "    <hostnames/>\n");
        },
    }
    assert(out@ =~= start + host_names_xml(*h));
}

fn push_host_ports_xml(out: &mut String, h: &HostResult)
    ensures
        final(out)@ == old(out)@ + host_ports_xml(*h),
{
    let ghost start = out@;
    if h.ports.len() > 0 {
        push_str(out, "    <ports>\n");
        let ghost p0 = out@;
        let mut i: usize = 0;
        while i < h.ports.len()
            invariant
                i <= h.ports@.len(),
                out@ == p0 + ports_xml(h.ports@.take(i as int)),
            decreases h.ports.len() - i,
        {
            assert(h.ports@.take(i + 1).drop_last() =~= h.ports@.take(i as int));
            let ghost before = out@;
            push_port_xml(out, &h.ports[i]);
            assert(out@ =~= p0 + ports_xml(h.ports@.take(i + 1)));
            i = i + 1;
        }
        assert(h.ports@.take(h.ports@.len() as int) =~= h.ports@);
        push_str(out, "    </ports>\n");
    }
    assert(out@ =~= start + host_ports_xml(*h));
}

fn push_host_os_xml(out: &mut String, h: &HostResult)
    ensures
        final(out)@ == old(out)@ + host_os_xml(*h),
{
    let ghost start = out@;
    if h.os.len() > 0 {
        push_str(out, "    <os>\n");
        let ghost o0 = out@;
        let mut i: usize = 0;
        while i < h.os.len()
            invariant
                i <= h.os@.len(),
                out@ == o0 + oses_xml(h.os@.take(i as int)),
            decreases h.os.len() - i,
        {
            assert(h.os@.take(i + 1).drop_last() =~= h.os@.take(i as int));
            let ghost before = out@;
            let o = &h.os[i];
            push_str(out, "      <osmatch name=\"");
            push_str(out, o.name.as_str());
            push_str(out, "\" accuracy=\"");
            push_decimal(out, o.confidence as u64);
            push_str(out, "\"/>\n");
            assert(out@ =~= before + os_xml(*o));
            assert(out@ =~= o0 + oses_xml(h.os@.take(i + 1)));
            i = i + 1;
        }
        assert(h.os@.take(h.os@.len() as int) =~= h.os@);
        push_str(out, "    </os>\n");
    }
    assert(out@ =~= start + host_os_xml(*h));
}

fn push_host_times_xml(out: &mut String, h: &HostResult)
    ensures
        final(out)@ == old(out)@ + host_times_xml(*h),
{
    let ghost start = out@;
    match h.latency {
        Some(us) => {
            push_str(out, "    <times srtt=\"");
            push_decimal(out, us);
            push_str(out, "\" rttvar=\"5000\" to=\"100000\"/>\n");
        },
        None => {},
    }
    assert(out@ =~= start + host_times_xml(*h));
}

fn push_host_xml(out: &mut String, h: &HostResult)
    ensures
        final(out)@ == old(out)@ + host_xml(*h),
{
    let ghost start = out@;
    push_host_open_xml(out, h);
    push_host_mac_xml(out, h);
    push_host_names_xml(out, h);
    push_host_ports_xml(out, h);
    push_host_os_xml(out, h);
    push_host_times_xml(out, h);
    push_str(out, "  </host>\n");
    assert(out@ =~= start + host_xml(*h));
}

fn push_xml_summary(out: &mut String, results: &ScanResults, times: &ReportTimes)
    ensures
        final(out)@ == old(out)@ + xml_summary(*results, times.elapsed_text@),
{
    let ghost start = out@;
    push_str(out, "ApexScan done");
    push_str(out, "; ");
    push_decimal(out, results.stats.total_hosts as u64);
    push_str(out, " IP address");
    if results.stats.total_hosts != 1 {
        push_str(out, "es");
    }
    let ghost mid = out@;
    assert(mid =~= start + "ApexScan done"@ + "; "@ + decimal_chars(results.stats.total_hosts as nat) + " IP address"@
        + (if results.stats.total_hosts != 1 { "es"@ } else { Seq::empty() }));
    push_str(out, " (");
    push_decimal(out, results.stats.hosts_up as u64);
    push_str(out, " host");
    if results.stats.hosts_up != 1 {
        push_str(out, "s");
    }
    push_str(out, " up) scanned in ");
    push_str(out, times.elapsed_text.as_str());
    push_str(out, " seconds");
    assert(out@ =~= start + xml_summary(*results, times.elapsed_text@));
}

fn push_xml_finished(out: &mut String, results: &ScanResults, times: &ReportTimes)
    ensures
        final(out)@ == old(out)@ + xml_finished(*results, times.finished_secs, times.finished_text@, times.elapsed_text@),
{
    let ghost start = out@;
    push_str(out, "    <finished time=\"");
    push_signed(out, times.finished_secs);
    push_str(out, "\" timestr=\"");
    push_str(out, times.finished_text.as_str());
    push_str(out, "\" elapsed=\"");
    push_decimal(out, results.duration / 1000);
    push_str(out, "\" summary=\"");
    push_xml_summary(out, results, times);
    push_str(out, "\"/>\n");
    assert(out@ =~= start + xml_finished(*results, times.finished_secs, times.finished_text@, times.elapsed_text@));
}

fn push_xml_hosts_line(out: &mut String, results: &ScanResults)
    ensures
        final(out)@ == old(out)@ + xml_hosts_line(*results),
{
    let ghost start = out@;
    push_str(out, "    <hosts up=\"");
    push_decimal(out, results.stats.hosts_up as u64);
    push_str(out, "\" down=\"");
    push_decimal(out, results.stats.hosts_down as u64);
    push_str(out, "\" total=\"");
    push_decimal(out, results.stats.total_hosts as u64);
    push_str(out, "\"/>\n");
    assert(out@ =~= start + xml_hosts_line(*results));
}

fn push_xml_tail(out: &mut String, results: &ScanResults, times: &ReportTimes)
    ensures
        final(out)@ == old(out)@ + xml_tail(*results, times.finished_secs, times.finished_text@, times.elapsed_text@),
{
    let ghost start = out@;
    push_str(out, "  <runstats>\n");
    push_xml_finished(out, results, times);
    push_xml_hosts_line(out, results);
    push_str(out, "  </runstats>\n");
    push_str(out, "</nmaprun>\n");
    assert(out@ =~= start + xml_tail(*results, times.finished_secs, times.finished_text@, times.elapsed_text@));
}

/// The XML report of a scan, with the times already written as text.
pub fn format_xml(results: &ScanResults, times: &ReportTimes) -> (r: Result<String>)
    ensures
        r matches Ok(s) && s@ == xml_report(*results, times.finished_secs, times.finished_text@, times.elapsed_text@),
{
    let mut xml = String::new();
    push_str(&mut xml, "<?xml version=\"1.0\" encoding=\"UTF-8\"?>\n");
    push_str(&mut xml, "<!DOCTYPE nmaprun>\n");
    push_str(&mut xml, "<?xml-stylesheet href=\"file:///usr/local/bin/../share/nmap/nmap.xsl\" type=\"text/xsl\"?>\n");
    push_str(&mut xml, "<nmaprun scanner=\"apexscan\" args=\"apexscan\" start=\"");
    push_signed(&mut xml, results.start_time.secs);
    push_str(&mut xml, "\" version=\"0.1.0\">\n");
    push_str(&mut xml, "  <scaninfo type=\"syn\" protocol=\"tcp\" numservices=\"1000\" services=\"1-65535\"/>\n");
    push_str(&mut xml, "  <verbose level=\"0\"/>\n");
    push_str(&mut xml, "  <debugging level=\"0\"/>\n");
    assert(xml@ =~= xml_head(*results));
    let ghost h0 = xml@;
    let mut i: usize = 0;
    while i < results.hosts.len()
        invariant
            i <= results.hosts@.len(),
            xml@ == h0 + hosts_xml(results.hosts@.take(i as int)),
        decreases results.hosts.len() - i,
    {
        assert(results.hosts@.take(i + 1).drop_last() =~= results.hosts@.take(i as int));
        push_host_xml(&mut xml, &results.hosts[i]);
        i = i + 1;
    }
    assert(results.hosts@.take(results.hosts@.len() as int) =~= results.hosts@);
    let ghost t0 = xml@;
    push_xml_tail(&mut xml, results, times);
    assert(xml@ =~= xml_report(*results, times.finished_secs, times.finished_text@, times.elapsed_text@));
    Ok(xml)
}

} // verus!
