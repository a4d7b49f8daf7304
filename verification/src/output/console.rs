//! Console reports. A report is laid out here as a list of segments, each a
//! piece of text with the colour it is painted in, or a time to be written
//! with two decimals; the terminal painting is done where the report is
//! printed.

use vstd::prelude::*;
use crate::scan::{HostResult, PortResult, ScanResults, ports_in_state};
use crate::text::{decimal_chars, push_char, push_str, push_decimal, string_from};
use crate::types::{HostState, PortState, protocol_text, target_display};

verus! {

/// Terminal colours and weights.
#[derive(Debug, Clone, Copy, PartialEq, Eq, Structural)]
pub enum Paint {
    Plain,
    BrightBlue,
    BrightCyan,
    BrightCyanBold,
    BrightWhite,
    BrightWhiteBold,
    BrightBlack,
    BrightGreen,
    BrightGreenBold,
    BrightRed,
    BrightYellow,
    Yellow,
}

/// A piece of a console report.
#[derive(Debug)]
pub enum Segment {
    /// Text in a colour.
    Text(String, Paint),
    /// A round-trip time given in microseconds, written in milliseconds with
    /// two decimals.
    RttMillis(u64),
    /// A duration given in milliseconds, written in seconds with two
    /// decimals.
    Seconds(u64),
}

/// A piece of a console report as plain values.
pub enum SegmentView {
    Text(Seq<char>, Paint),
    RttMillis(u64),
    Seconds(u64),
}

impl View for Segment {
    type V = SegmentView;

    open spec fn view(&self) -> SegmentView {
        match self {
            Segment::Text(t, p) => SegmentView::Text(t@, *p),
            Segment::RttMillis(us) => SegmentView::RttMillis(*us),
            Segment::Seconds(ms) => SegmentView::Seconds(*ms),
        }
    }
}

/// The plain values of a list of segments.
pub open spec fn segment_views(s: Seq<Segment>) -> Seq<SegmentView> {
    s.map_values(|g: Segment| g@)
}

/// Plain text.
pub open spec fn plain(t: Seq<char>) -> SegmentView {
    SegmentView::Text(t, Paint::Plain)
}

/// A host's status word and its colour.
pub open spec fn status_segment(s: HostState) -> SegmentView {
    match s {
        HostState::Up => SegmentView::Text("UP"@, Paint::BrightGreenBold),
        HostState::Down => SegmentView::Text("DOWN"@, Paint::BrightRed),
        HostState::Unknown => SegmentView::Text("UNKNOWN"@, Paint::Yellow),
    }
}

/// The line of one open (or open|filtered) port.
pub open spec fn port_line(p: PortResult) -> Seq<SegmentView> {
    seq![
        plain("    "@),
        SegmentView::Text("\u{25b8}"@, Paint::BrightCyan),
        plain(" "@),
        SegmentView::Text(decimal_chars(p.port@ as nat) + "/"@ + protocol_text(p.protocol), Paint::BrightYellow),
        plain(" "@),
        if p.state == PortState::Open {
            SegmentView::Text("open"@, Paint::BrightGreen)
        } else {
            SegmentView::Text("open|filtered"@, Paint::Yellow)
        },
        plain(" "@),
        SegmentView::Text(match p.service { Some(s) => s@, None => "unknown"@ }, Paint::BrightWhite),
        match p.version {
            Some(v) => SegmentView::Text(" ("@ + v@ + ")"@, Paint::BrightBlack),
            None => plain(Seq::empty()),
        },
        plain("\n"@),
    ]
}

/// The lines of the open (and open|filtered) ports, in order.
pub open spec fn port_lines(ps: Seq<PortResult>) -> Seq<SegmentView>
    decreases ps.len(),
{
    if ps.len() == 0 {
        Seq::empty()
    } else {
        port_lines(ps.drop_last()) + if ps.last().state == PortState::Open || ps.last().state == PortState::OpenFiltered {
            port_line(ps.last())
        } else {
            Seq::empty()
        }
    }
}

/// The heading of a host: its name and status.
pub open spec fn host_heading(h: HostResult) -> Seq<SegmentView> {
    seq![
        plain("\n"@),
        SegmentView::Text("\u{25c6}"@, Paint::BrightCyan),
        plain(" "@),
        SegmentView::Text(target_display(h.target), Paint::BrightWhiteBold),
        plain(" ["@),
        status_segment(h.state),
        plain("]\n"@),
    ]
}

/// A host's round-trip time, where known.
pub open spec fn host_rtt(h: HostResult) -> Seq<SegmentView> {
    match h.latency {
        Some(us) => seq![plain("  "@), SegmentView::Text("RTT:"@, Paint::BrightBlack), plain(" "@), SegmentView::RttMillis(us), plain("ms\n"@)],
        None => Seq::empty(),
    }
}

/// A host's first operating system match, where it has one.
pub open spec fn host_os(h: HostResult) -> Seq<SegmentView> {
    if h.os@.len() > 0 {
        seq![
            plain("\n  "@),
            SegmentView::Text("OS:"@, Paint::BrightYellow),
            plain(" "@),
            SegmentView::Text(h.os@[0].name@, Paint::BrightWhite),
            plain("\n"@),
            plain("      "@),
            SegmentView::Text("Confidence:"@, Paint::BrightBlack),
            plain(" "@ + decimal_chars(h.os@[0].confidence as nat) + "%\n"@),
        ]
    } else {
        Seq::empty()
    }
}

/// A host's ports: how many are open, and a line for each open one.
pub open spec fn host_ports(h: HostResult) -> Seq<SegmentView> {
    if h.ports@.len() > 0 {
        seq![
            plain("\n  "@),
            SegmentView::Text("Ports:"@, Paint::BrightCyanBold),
            plain(" ("@ + decimal_chars(ports_in_state(h.ports@, PortState::Open).len()) + " open)\n"@),
        ] + port_lines(h.ports@)
    } else {
        Seq::empty()
    }
}

/// Everything shown of one host.
pub open spec fn host_segments(h: HostResult) -> Seq<SegmentView> {
    host_heading(h) + host_rtt(h) + host_os(h) + host_ports(h)
}

fn text(t: &str, p: Paint) -> (r: Segment)
    ensures
        r@ == SegmentView::Text(t@, p),
{
    Segment::Text(string_from(t), p)
}

fn push_port_line(out: &mut Vec<Segment>, p: &PortResult)
    requires
        p.state == PortState::Open || p.state == PortState::OpenFiltered,
    ensures
        segment_views(final(out)@) == segment_views(old(out)@) + port_line(*p),
{
    let ghost start = segment_views(out@);
    out.push(text("    ", Paint::Plain));
    out.push(text("\u{25b8}", Paint::BrightCyan));
    out.push(text(" ", Paint::Plain));
    let mut ps = String::new();
    push_decimal(&mut ps, p.port.value() as u64);
    push_str(&mut ps, "/");
    let proto = p.protocol.to_string();
    push_str(&mut ps, proto.as_str());
    out.push(Segment::Text(ps, Paint::BrightYellow));
    out.push(text(" ", Paint::Plain));
    if p.state == PortState::Open {
        out.push(text("open", Paint::BrightGreen));
    } else {
        out.push(text("open|filtered", Paint::Yellow));
    }
    out.push(text(" ", Paint::Plain));
    match &p.service {
        Some(s) => out.push(Segment::Text(s.clone(), Paint::BrightWhite)),
        None => out.push(text("unknown", Paint::BrightWhite)),
    }
    match &p.version {
        Some(v) => {
            let mut vs = String::new();
            push_str(&mut vs, " (");
            push_str(&mut vs, v.as_str());
            push_str(&mut vs, ")");
            out.push(Segment::Text(vs, Paint::BrightBlack));
        },
        None => out.push(Segment::Text(String::new(), Paint::Plain)),
    }
    out.push(text("\n", Paint::Plain));
    assert(segment_views(out@) =~= start + port_line(*p));
}

fn push_host_heading(out: &mut Vec<Segment>, h: &HostResult)
    ensures
        segment_views(final(out)@) == segment_views(old(out)@) + host_heading(*h),
{
    let ghost start = segment_views(out@);
    out.push(text("\n", Paint::Plain));
    out.push(text("\u{25c6}", Paint::BrightCyan));
    out.push(text(" ", Paint::Plain));
    out.push(Segment::Text(h.target.to_string(), Paint::BrightWhiteBold));
    out.push(text(" [", Paint::Plain));
    match h.state {
        HostState::Up => out.push(text("UP", Paint::BrightGreenBold)),
        HostState::Down => out.push(text("DOWN", Paint::BrightRed)),
        HostState::Unknown => out.push(text("UNKNOWN", Paint::Yellow)),
    }
    out.push(text("]\n", Paint::Plain));
    assert(segment_views(out@) =~= start + host_heading(*h));
}

fn push_host_details(out: &mut Vec<Segment>, h: &HostResult)
    ensures
        segment_views(final(out)@) == segment_views(old(out)@) + host_rtt(*h) + host_os(*h),
{
    let ghost start = segment_views(out@);
    match h.latency {
        Some(us) => {
            out.push(text("  ", Paint::Plain));
            out.push(text("RTT:", Paint::BrightBlack));
            out.push(text(" ", Paint::Plain));
            out.push(Segment::RttMillis(us));
            out.push(text("ms\n", Paint::Plain));
        },
        None => {},
    }
    assert(segment_views(out@) =~= start + host_rtt(*h));
    let ghost mid = segment_views(out@);
    if h.os.len() > 0 {
        let os = &h.os[0];
        out.push(text("\n  ", Paint::Plain));
        out.push(text("OS:", Paint::BrightYellow));
        out.push(text(" ", Paint::Plain));
        out.push(Segment::Text(os.name.clone(), Paint::BrightWhite));
        out.push(text("\n", Paint::Plain));
        out.push(text("      ", Paint::Plain));
        out.push(text("Confidence:", Paint::BrightBlack));
        let mut c = String::new();
        push_str(&mut c, " ");
        push_decimal(&mut c, os.confidence as u64);
        push_str(&mut c, "%\n");
        out.push(Segment::Text(c, Paint::Plain));
    }
    assert(segment_views(out@) =~= mid + host_os(*h));
}

fn push_host_ports(out: &mut Vec<Segment>, h: &HostResult)
    ensures
        segment_views(final(out)@) == segment_views(old(out)@) + host_ports(*h),
{
    let ghost start = segment_views(out@);
    if h.ports.len() > 0 {
        let open = h.open_ports();
        assert(open@.len() == ports_in_state(h.ports@, PortState::Open).len());
        out.push(text("\n  ", Paint::Plain));
        out.push(text("Ports:", Paint::BrightCyanBold));
        let mut c = String::new();
        push_str(&mut c, " (");
        push_decimal(&mut c, open.len() as u64);
        push_str(&mut c, " open)\n");
        out.push(Segment::Text(c, Paint::Plain));
        let ghost p0 = segment_views(out@);
        let mut i: usize = 0;
        while i < h.ports.len()
            invariant
                i <= h.ports@.len(),
                segment_views(out@) == p0 + port_lines(h.ports@.take(i as int)),
            decreases h.ports.len() - i,
        {
            assert(h.ports@.take(i + 1).drop_last() =~= h.ports@.take(i as int));
            let p = &h.ports[i];
            if p.state == PortState::Open || p.state == PortState::OpenFiltered {
                push_port_line(out, p);
            }
            assert(segment_views(out@) =~= p0 + port_lines(h.ports@.take(i + 1)));
            i = i + 1;
        }
        assert(h.ports@.take(h.ports@.len() as int) =~= h.ports@);
    }
    assert(segment_views(out@) =~= start + host_ports(*h));
}

/// Everything shown of one host, as segments.
pub fn host_result_segments(host: &HostResult) -> (r: Vec<Segment>)
    ensures
        segment_views(r@) == host_segments(*host),
{
    let mut out: Vec<Segment> = Vec::new();
    push_host_heading(&mut out, host);
    push_host_details(&mut out, host);
    push_host_ports(&mut out, host);
    assert(segment_views(out@) =~= host_segments(*host));
    out
}

/// `n` copies of `c`.
pub open spec fn repeated(c: char, n: nat) -> Seq<char> {
    Seq::new(n, |i: int| c)
}

fn repeat_char(c: char, n: usize) -> (r: String)
    ensures
        r@ == repeated(c, n as nat),
{
    let mut s = String::new();
    let mut i: usize = 0;
    while i < n
        invariant
            i <= n,
            s@ == repeated(c, i as nat),
        decreases n - i,
    {
        push_char(&mut s, c);
        assert(repeated(c, (i + 1) as nat) =~= repeated(c, i as nat).push(c));
        i = i + 1;
    }
    s
}

/// The banner that opens a report.
pub open spec fn console_head() -> Seq<SegmentView> {
    seq![
        plain("\n"@),
        SegmentView::Text(repeated('\u{2550}', 70), Paint::BrightBlue),
        plain("\n"@),
        SegmentView::Text("ApexScan v0.1.0 - Scan Complete"@, Paint::BrightCyanBold),
        plain("\n"@),
        SegmentView::Text(repeated('\u{2550}', 70), Paint::BrightBlue),
        plain("\n\n"@),
    ]
}

/// The hosts of a report, each followed by an empty line.
pub open spec fn console_hosts(hs: Seq<HostResult>) -> Seq<SegmentView>
    decreases hs.len(),
{
    if hs.len() == 0 {
        Seq::empty()
    } else {
        console_hosts(hs.drop_last()) + host_segments(hs.last()) + seq![plain("\n"@)]
    }
}

/// The summary that closes a report.
pub open spec fn console_summary(r: ScanResults) -> Seq<SegmentView> {
    seq![
        SegmentView::Text(repeated('\u{2500}', 70), Paint::BrightBlack),
        plain("\n"@),
        SegmentView::Text("Scan Summary"@, Paint::BrightWhiteBold),
        plain("\n"@),
        SegmentView::Text(repeated('\u{2500}', 70), Paint::BrightBlack),
        plain("\n"@),
        plain("Total hosts:     "@ + decimal_chars(r.stats.total_hosts as nat) + "\n"@),
        plain("Hosts up:        "@),
        SegmentView::Text(decimal_chars(r.stats.hosts_up as nat), Paint::BrightGreen),
        plain(" "@),
        SegmentView::Text(if r.stats.hosts_up > 0 { "\u{2713}"@ } else { Seq::empty() }, Paint::BrightGreen),
        plain("\n"@),
        plain("Hosts down:      "@ + decimal_chars(r.stats.hosts_down as nat) + "\n"@),
        plain("Open ports:      "@),
        SegmentView::Text(decimal_chars(r.stats.open_ports as nat), Paint::BrightGreenBold),
        plain(" "@),
        SegmentView::Text(if r.stats.open_ports > 0 { "\u{26a0}"@ } else { Seq::empty() }, Paint::Yellow),
        plain("\n"@),
        plain("Closed ports:    "@ + decimal_chars(r.stats.closed_ports as nat) + "\n"@),
        plain("Filtered ports:  "@ + decimal_chars(r.stats.filtered_ports as nat) + "\n"@),
        plain("Scan duration:   "@),
        SegmentView::Seconds(r.duration),
        plain("s\n"@),
        SegmentView::Text(repeated('\u{2550}', 70), Paint::BrightBlue),
        plain("\n"@),
    ]
}

/// A whole console report.
pub open spec fn console_report(r: ScanResults) -> Seq<SegmentView> {
    console_head() + console_hosts(r.hosts@) + console_summary(r)
}

fn counted_line(label: &str, n: usize) -> (r: Segment)
    ensures
        r@ == plain(label@ + decimal_chars(n as nat) + "\n"@),
{
    let mut s = String::new();
    push_str(&mut s, label);
    push_decimal(&mut s, n as u64);
    push_str(&mut s, "\n");
    Segment::Text(s, Paint::Plain)
}

fn number(n: usize, p: Paint) -> (r: Segment)
    ensures
        r@ == SegmentView::Text(decimal_chars(n as nat), p),
{
    let mut s = String::new();
    push_decimal(&mut s, n as u64);
    Segment::Text(s, p)
}

fn push_console_summary(out: &mut Vec<Segment>, results: &ScanResults)
    ensures
        segment_views(final(out)@) == segment_views(old(out)@) + console_summary(*results),
{
    let ghost start = segment_views(out@);
    out.push(Segment::Text(repeat_char('\u{2500}', 70), Paint::BrightBlack));
    out.push(text("\n", Paint::Plain));
    out.push(text("Scan Summary", Paint::BrightWhiteBold));
    out.push(text("\n", Paint::Plain));
    out.push(Segment::Text(repeat_char('\u{2500}', 70), Paint::BrightBlack));
    out.push(text("\n", Paint::Plain));
    out.push(counted_line("Total hosts:     ", results.stats.total_hosts));
    out.push(text("Hosts up:        ", Paint::Plain));
    out.push(number(results.stats.hosts_up, Paint::BrightGreen));
    out.push(text(" ", Paint::Plain));
    if results.stats.hosts_up > 0 {
        out.push(text("\u{2713}", Paint::BrightGreen));
    } else {
        out.push(Segment::Text(String::new(), Paint::BrightGreen));
    }
    out.push(text("\n", Paint::Plain));
    out.push(counted_line("Hosts down:      ", results.stats.hosts_down));
    out.push(text("Open ports:      ", Paint::Plain));
    out.push(number(results.stats.open_ports, Paint::BrightGreenBold));
    out.push(text(" ", Paint::Plain));
    if results.stats.open_ports > 0 {
        out.push(text("\u{26a0}", Paint::Yellow));
    } else {
        out.push(Segment::Text(String::new(), Paint::Yellow));
    }
    out.push(text("\n", Paint::Plain));
    out.push(counted_line("Closed ports:    ", results.stats.closed_ports));
    out.push(counted_line("Filtered ports:  ", results.stats.filtered_ports));
    out.push(text("Scan duration:   ", Paint::Plain));
    out.push(Segment::Seconds(results.duration));
    out.push(text("s\n", Paint::Plain));
    out.push(Segment::Text(repeat_char('\u{2550}', 70), Paint::BrightBlue));
    out.push(text("\n", Paint::Plain));
    assert(segment_views(out@) =~= start + console_summary(*results));
}

/// A whole console report, as segments.
pub fn console_segments(results: &ScanResults) -> (r: Vec<Segment>)
    ensures
        segment_views(r@) == console_report(*results),
{
    let mut out: Vec<Segment> = Vec::new();
    out.push(text("\n", Paint::Plain));
    out.push(Segment::Text(repeat_char('\u{2550}', 70), Paint::BrightBlue));
    out.push(text("\n", Paint::Plain));
    out.push(text("ApexScan v0.1.0 - Scan Complete", Paint::BrightCyanBold));
    out.push(text("\n", Paint::Plain));
    out.push(Segment::Text(repeat_char('\u{2550}', 70), Paint::BrightBlue));
    out.push(text("\n\n", Paint::Plain));
    assert(segment_views(out@) =~= console_head());
    let ghost h0 = segment_views(out@);
    let mut i: usize = 0;
    while i < results.hosts.len()
        invariant
            i <= results.hosts@.len(),
            segment_views(out@) == h0 + console_hosts(results.hosts@.take(i as int)),
        decreases results.hosts.len() - i,
    {
        assert(results.hosts@.take(i + 1).drop_last() =~= results.hosts@.take(i as int));
        let ghost before = segment_views(out@);
        let mut segs = host_result_segments(&results.hosts[i]);
        let ghost added = segs@;
        let ghost old_out = out@;
        out.append(&mut segs);
        assert(out@ == old_out + added);
        assert(segment_views(out@) =~= before + segment_views(added));
        let ghost mid = segment_views(out@);
        out.push(text("\n", Paint::Plain));
        assert(segment_views(out@) =~= mid + seq![plain("\n"@)]);
        assert(results.hosts@.take(i + 1).last() == results.hosts@[i as int]);
        assert(console_hosts(results.hosts@.take(i + 1)) == console_hosts(results.hosts@.take(i as int))
            + host_segments(results.hosts@[i as int]) + seq![plain("\n"@)]);
        assert(segment_views(out@) =~= h0 + console_hosts(results.hosts@.take(i + 1)));
        i = i + 1;
    }
    assert(results.hosts@.take(results.hosts@.len() as int) =~= results.hosts@);
    push_console_summary(&mut out, results);
    assert(segment_views(out@) =~= console_report(*results));
    out
}

} // verus!
