//! Report formats.

pub mod xml;
pub mod grepable;
pub mod csv;
pub mod console;

use vstd::prelude::*;
use crate::text::{chars_of, eq_str, lowercase, to_lowercase, is_ascii_text, ascii_lowercase};
use crate::types::Protocol;

verus! {

/// Report formats.
#[derive(Debug, Clone, Copy, PartialEq, Eq, Structural)]
pub enum OutputFormat {
    Json,
    Xml,
    Csv,
    Console,
    Grepable,
}

/// The format that a name, in lowercase, selects.
pub open spec fn format_named(name: Seq<char>) -> Option<OutputFormat> {
    if name == "json"@ {
        Some(OutputFormat::Json)
    } else if name == "xml"@ {
        Some(OutputFormat::Xml)
    } else if name == "csv"@ {
        Some(OutputFormat::Csv)
    } else if name == "txt"@ || name == "console"@ {
        Some(OutputFormat::Console)
    } else if name == "grepable"@ || name == "grep"@ {
        Some(OutputFormat::Grepable)
    } else {
        None
    }
}

impl OutputFormat {
    /// The format that a name already in lowercase selects.
    pub fn from_lowercase(name: &str) -> (r: Option<Self>)
        ensures
            r == format_named(name@),
    {
        let v = chars_of(name);
        if eq_str(&v, "json") {
            Some(OutputFormat::Json)
        } else if eq_str(&v, "xml") {
            Some(OutputFormat::Xml)
        } else if eq_str(&v, "csv") {
            Some(OutputFormat::Csv)
        } else if eq_str(&v, "txt") || eq_str(&v, "console") {
            Some(OutputFormat::Console)
        } else if eq_str(&v, "grepable") || eq_str(&v, "grep") {
            Some(OutputFormat::Grepable)
        } else {
            None
        }
    }

    /// The format named `s`, in any case.
    pub fn from_str(s: &str) -> (r: Option<Self>)
        ensures
            r == format_named(lowercase(s@)),
            is_ascii_text(s@) ==> r == format_named(ascii_lowercase(s@)),
    {
        let lower = to_lowercase(s);
        Self::from_lowercase(lower.as_str())
    }
}

/// Where and how reports are written.
pub struct OutputManager {
    format: OutputFormat,
    output_file: Option<String>,
}

impl OutputManager {
    /// The report format.
    pub closed spec fn format_spec(&self) -> OutputFormat {
        self.format
    }

    /// The file that reports go to, or none for the terminal.
    pub closed spec fn output_file_spec(&self) -> Option<Seq<char>> {
        self.output_file.deep_view()
    }

    pub fn new(format: OutputFormat, output_file: Option<String>) -> (r: Self)
        ensures
            r.format_spec() == format,
            r.output_file_spec() == output_file.deep_view(),
    {
        OutputManager { format, output_file }
    }

    /// The report format.
    pub fn format(&self) -> (r: OutputFormat)
        ensures
            r == self.format_spec(),
    {
        self.format
    }

    /// The file that reports go to, or none for the terminal.
    pub fn output_file(&self) -> (r: &Option<String>)
        ensures
            r.deep_view() == self.output_file_spec(),
    {
        &self.output_file
    }

    /// Each host's result is shown as it comes only on a console report to
    /// the terminal.
    pub fn streams_host_results(&self) -> (r: bool)
        ensures
            r == (self.format_spec() == OutputFormat::Console && self.output_file_spec() is None),
    {
        self.format == OutputFormat::Console && self.output_file.is_none()
    }
}

/// The times that a report shows, already written as text: when the scan
/// started and ended, when the report was finished (seconds since the
/// epoch, and as a date), and the scan time in seconds with two decimals.
pub struct ReportTimes {
    pub started_text: String,
    pub ended_text: String,
    pub finished_secs: i64,
    pub finished_text: String,
    pub elapsed_text: String,
}

/// A protocol's name in lowercase.
pub open spec fn protocol_lower(p: Protocol) -> Seq<char> {
    match p {
        Protocol::Tcp => "tcp"@,
        Protocol::Udp => "udp"@,
        Protocol::Icmp => "icmp"@,
        Protocol::Sctp => "sctp"@,
    }
}

/// A protocol's name in lowercase.
pub fn protocol_lower_str(p: Protocol) -> (r: &'static str)
    ensures
        r@ == protocol_lower(p),
{
    match p {
        Protocol::Tcp => "tcp",
        Protocol::Udp => "udp",
        Protocol::Icmp => "icmp",
        Protocol::Sctp => "sctp",
    }
}

} // verus!
