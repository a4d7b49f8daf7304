//! CSV reports: one row per port.

use vstd::prelude::*;
use crate::addr::ip_display;
use crate::error::Result;
use crate::scan::{HostResult, PortResult, ScanResults};
use crate::text::{decimal_chars, push_str, push_decimal};
use crate::types::{port_state_text, protocol_text};

verus! {

/// The row of one port of a host whose address reads `ip`.
pub open spec fn csv_row(ip: Seq<char>, p: PortResult) -> Seq<char> {
    ip + ","@ + decimal_chars(p.port@ as nat) + ","@ + protocol_text(p.protocol) + ","@ + port_state_text(p.state) + ","@
        + match p.service { Some(s) => s@, None => "unknown"@ } + ","@
        + match p.version { Some(v) => v@, None => Seq::empty() } + "\n"@
}

/// The rows of a host's ports, in order.
pub open spec fn csv_rows(ip: Seq<char>, ps: Seq<PortResult>) -> Seq<char>
    decreases ps.len(),
{
    if ps.len() == 0 { Seq::empty() } else { csv_rows(ip, ps.drop_last()) + csv_row(ip, ps.last()) }
}

/// The rows of the hosts, in order.
pub open spec fn csv_hosts(hs: Seq<HostResult>) -> Seq<char>
    decreases hs.len(),
{
    if hs.len() == 0 {
        Seq::empty()
    } else {
        csv_hosts(hs.drop_last()) + csv_rows(ip_display(hs.last().target.ip), hs.last().ports@)
    }
}

fn push_csv_row(out: &mut String, ip: &str, p: &PortResult)
    ensures
        final(out)@ == old(out)@ + csv_row(ip@, *p),
{
    let ghost start = out@;
    push_str(out, ip);
    push_str(out, ",");
    push_decimal(out, p.port.value() as u64);
    push_str(out, ",");
    let proto = p.protocol.to_string();
    push_str(out, proto.as_str());
    push_str(out, ",");
    let st = p.state.to_string();
    push_str(out, st.as_str());
    push_str(out, ",");
    match &p.service {
        Some(s) => push_str(out, s.as_str()),
        None => push_str(out, "unknown"),
    }
    push_str(out, ",");
    match &p.version {
        Some(v) => push_str(out, v.as_str()),
        None => {},
    }
    push_str(out, "\n");
    assert(out@ =~= start + csv_row(ip@, *p));
}

/// The CSV report of a scan: a header, then one row per port.
pub fn format_csv(results: &ScanResults) -> (r: Result<String>)
    ensures
        r matches Ok(s) && s@ == "IP Address,Port,Protocol,State,Service,Version\n"@ + csv_hosts(results.hosts@),
{
    let mut csv = String::new();
    push_str(&mut csv, "IP Address,Port,Protocol,State,Service,Version\n");
    let ghost h0 = csv@;
    let mut i: usize = 0;
    while i < results.hosts.len()
        invariant
            i <= results.hosts@.len(),
            csv@ == h0 + csv_hosts(results.hosts@.take(i as int)),
        decreases results.hosts.len() - i,
    {
        assert(results.hosts@.take(i + 1).drop_last() =~= results.hosts@.take(i as int));
        let host = &results.hosts[i];
        let ip = host.target.ip.to_string();
        let ghost r0 = csv@;
        let mut j: usize = 0;
        while j < host.ports.len()
            invariant
                j <= host.ports@.len(),
                csv@ == r0 + csv_rows(ip@, host.ports@.take(j as int)),
            decreases host.ports.len() - j,
        {
            assert(host.ports@.take(j + 1).drop_last() =~= host.ports@.take(j as int));
            push_csv_row(&mut csv, ip.as_str(), &host.ports[j]);
            assert(csv@ =~= r0 + csv_rows(ip@, host.ports@.take(j + 1)));
            j = j + 1;
        }
        assert(host.ports@.take(host.ports@.len() as int) =~= host.ports@);
        assert(csv@ =~= h0 + csv_hosts(results.hosts@.take(i + 1)));
        i = i + 1;
    }
    assert(results.hosts@.take(results.hosts@.len() as int) =~= results.hosts@);
    Ok(csv)
}

} // verus!
