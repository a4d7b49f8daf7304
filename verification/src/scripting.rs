//! Scripts: the context they are given, their results and categories, and
//! the bridge for Nmap scripts.

use vstd::prelude::*;
use crate::error::{Error, Result, error_text};
use crate::text::{chars_of, eq_str, lowercase, to_lowercase, string_from, is_ascii_text, ascii_lowercase,
    ascii_uppercase, lemma_ascii_case_fold, lemma_ascii_lowercase_keeps};

verus! {

/// What a script gave back. The data hold named values; no name occurs
/// twice.
#[derive(Debug, Clone)]
pub struct ScriptResult {
    pub script_name: String,
    pub output: String,
    pub data: Vec<(String, String)>,
    pub success: bool,
    pub error: Option<String>,
}

impl ScriptResult {
    /// The result of a script that could not be run: no output, no data,
    /// and the error's text.
    pub fn failed(script_name: &str, error: &Error) -> (r: Self)
        ensures
            r.script_name@ == script_name@,
            r.output@.len() == 0,
            r.data@.len() == 0,
            !r.success,
            r.error matches Some(e) && e@ == error_text(*error),
    {
        ScriptResult {
            script_name: string_from(script_name),
            output: String::new(),
            data: Vec::new(),
            success: false,
            error: Some(error.message()),
        }
    }
}

/// What a script is told about its target.
#[derive(Debug, Clone)]
pub struct ScriptContext {
    pub target_ip: String,
    pub target_port: Option<u16>,
    pub service_name: Option<String>,
    pub service_version: Option<String>,
    pub os_name: Option<String>,
    pub banner: Option<String>,
}

impl ScriptContext {
    /// A context with the target's address and nothing else.
    pub fn new(target_ip: String) -> (r: Self)
        ensures
            r.target_ip == target_ip,
            r.target_port is None,
            r.service_name is None,
            r.service_version is None,
            r.os_name is None,
            r.banner is None,
    {
        ScriptContext {
            target_ip,
            target_port: None,
            service_name: None,
            service_version: None,
            os_name: None,
            banner: None,
        }
    }

    pub fn with_port(self, port: u16) -> (r: Self)
        ensures
            r == (ScriptContext { target_port: Some(port), ..self }),
    {
        let mut c = self;
        c.target_port = Some(port);
        c
    }

    pub fn with_service(self, service: String, version: Option<String>) -> (r: Self)
        ensures
            r == (ScriptContext { service_name: Some(service), service_version: version, ..self }),
    {
        let mut c = self;
        c.service_name = Some(service);
        c.service_version = version;
        c
    }

    pub fn with_os(self, os: String) -> (r: Self)
        ensures
            r == (ScriptContext { os_name: Some(os), ..self }),
    {
        let mut c = self;
        c.os_name = Some(os);
        c
    }

    pub fn with_banner(self, banner: String) -> (r: Self)
        ensures
            r == (ScriptContext { banner: Some(banner), ..self }),
    {
        let mut c = self;
        c.banner = Some(banner);
        c
    }
}

/// Script categories, as Nmap names them.
#[derive(Debug, Clone, Copy, PartialEq, Eq, Structural)]
pub enum ScriptCategory {
    Auth,
    Broadcast,
    Brute,
    Default,
    Discovery,
    Dos,
    Exploit,
    External,
    Fuzzer,
    Intrusive,
    Malware,
    Safe,
    Version,
    Vuln,
}

/// The name of a category.
pub open spec fn category_text(c: ScriptCategory) -> Seq<char> {
    match c {
        ScriptCategory::Auth => "auth"@,
        ScriptCategory::Broadcast => "broadcast"@,
        ScriptCategory::Brute => "brute"@,
        ScriptCategory::Default => "default"@,
        ScriptCategory::Discovery => "discovery"@,
        ScriptCategory::Dos => "dos"@,
        ScriptCategory::Exploit => "exploit"@,
        ScriptCategory::External => "external"@,
        ScriptCategory::Fuzzer => "fuzzer"@,
        ScriptCategory::Intrusive => "intrusive"@,
        ScriptCategory::Malware => "malware"@,
        ScriptCategory::Safe => "safe"@,
        ScriptCategory::Version => "version"@,
        ScriptCategory::Vuln => "vuln"@,
    }
}

/// The category that a name, in lowercase, selects.
pub open spec fn category_named(name: Seq<char>) -> Option<ScriptCategory> {
    if name == "auth"@ {
        Some(ScriptCategory::Auth)
    } else if name == "broadcast"@ {
        Some(ScriptCategory::Broadcast)
    } else if name == "brute"@ {
        Some(ScriptCategory::Brute)
    } else if name == "default"@ {
        Some(ScriptCategory::Default)
    } else if name == "discovery"@ {
        Some(ScriptCategory::Discovery)
    } else if name == "dos"@ {
        Some(ScriptCategory::Dos)
    } else if name == "exploit"@ {
        Some(ScriptCategory::Exploit)
    } else if name == "external"@ {
        Some(ScriptCategory::External)
    } else if name == "fuzzer"@ {
        Some(ScriptCategory::Fuzzer)
    } else if name == "intrusive"@ {
        Some(ScriptCategory::Intrusive)
    } else if name == "malware"@ {
        Some(ScriptCategory::Malware)
    } else if name == "safe"@ {
        Some(ScriptCategory::Safe)
    } else if name == "version"@ {
        Some(ScriptCategory::Version)
    } else if name == "vuln"@ {
        Some(ScriptCategory::Vuln)
    } else {
        None
    }
}

impl ScriptCategory {
    /// The category that a name already in lowercase selects.
    pub fn from_lowercase(name: &str) -> (r: Option<Self>)
        ensures
            r == category_named(name@),
    {
        let v = chars_of(name);
        if eq_str(&v, "auth") {
            Some(ScriptCategory::Auth)
        } else if eq_str(&v, "broadcast") {
            Some(ScriptCategory::Broadcast)
        } else if eq_str(&v, "brute") {
            Some(ScriptCategory::Brute)
        } else if eq_str(&v, "default") {
            Some(ScriptCategory::Default)
        } else if eq_str(&v, "discovery") {
            Some(ScriptCategory::Discovery)
        } else if eq_str(&v, "dos") {
            Some(ScriptCategory::Dos)
        } else if eq_str(&v, "exploit") {
            Some(ScriptCategory::Exploit)
        } else if eq_str(&v, "external") {
            Some(ScriptCategory::External)
        } else if eq_str(&v, "fuzzer") {
            Some(ScriptCategory::Fuzzer)
        } else if eq_str(&v, "intrusive") {
            Some(ScriptCategory::Intrusive)
        } else if eq_str(&v, "malware") {
            Some(ScriptCategory::Malware)
        } else if eq_str(&v, "safe") {
            Some(ScriptCategory::Safe)
        } else if eq_str(&v, "version") {
            Some(ScriptCategory::Version)
        } else if eq_str(&v, "vuln") {
            Some(ScriptCategory::Vuln)
        } else {
            None
        }
    }

    /// The category named `s`, in any case.
    pub fn from_str(s: &str) -> (r: Option<Self>)
        ensures
            r == category_named(lowercase(s@)),
            is_ascii_text(s@) ==> r == category_named(ascii_lowercase(s@)),
    {
        let lower = to_lowercase(s);
        Self::from_lowercase(lower.as_str())
    }

    /// The name of the category.
    pub fn to_string(&self) -> (r: String)
        ensures
            r@ == category_text(*self),
    {
        match self {
            ScriptCategory::Auth => string_from("auth"),
            ScriptCategory::Broadcast => string_from("broadcast"),
            ScriptCategory::Brute => string_from("brute"),
            ScriptCategory::Default => string_from("default"),
            ScriptCategory::Discovery => string_from("discovery"),
            ScriptCategory::Dos => string_from("dos"),
            ScriptCategory::Exploit => string_from("exploit"),
            ScriptCategory::External => string_from("external"),
            ScriptCategory::Fuzzer => string_from("fuzzer"),
            ScriptCategory::Intrusive => string_from("intrusive"),
            ScriptCategory::Malware => string_from("malware"),
            ScriptCategory::Safe => string_from("safe"),
            ScriptCategory::Version => string_from("version"),
            ScriptCategory::Vuln => string_from("vuln"),
        }
    }
}

/// What is known of a script.
#[derive(Debug, Clone)]
pub struct ScriptMetadata {
    pub name: String,
    pub description: String,
    pub author: String,
    pub categories: Vec<ScriptCategory>,
    pub requires_port: bool,
    pub requires_service: bool,
}

/// A category's name reads back as the category, in any ASCII case: its
/// name in capitals is ASCII and lowers to the name again.
pub proof fn lemma_category_name_reads_back(c: ScriptCategory)
    ensures
        category_named(category_text(c)) == Some(c),
        is_ascii_text(ascii_uppercase(category_text(c))),
        category_named(ascii_lowercase(ascii_uppercase(category_text(c)))) == Some(c),
{
    reveal_strlit("auth");
    reveal_strlit("broadcast");
    reveal_strlit("brute");
    reveal_strlit("default");
    reveal_strlit("discovery");
    reveal_strlit("dos");
    reveal_strlit("exploit");
    reveal_strlit("external");
    reveal_strlit("fuzzer");
    reveal_strlit("intrusive");
    reveal_strlit("malware");
    reveal_strlit("safe");
    reveal_strlit("version");
    reveal_strlit("vuln");
    let t = category_text(c);
    let names = seq!["auth"@, "broadcast"@, "brute"@, "default"@, "discovery"@, "dos"@, "exploit"@,
        "external"@, "fuzzer"@, "intrusive"@, "malware"@, "safe"@, "version"@, "vuln"@];
    assert forall|i: int, j: int| 0 <= i < j < 14 implies names[i] != names[j] by {
        let a = names[i];
        let b = names[j];
        assert(a.len() != b.len() || a[0] != b[0] || a[1] != b[1] || a[2] != b[2]);
    }
    assert forall|i: int| 0 <= i < t.len() implies (#[trigger] t[i] as u32) < 128 && !(65 <= (t[i] as u32) <= 90) by {}
    lemma_ascii_case_fold(t);
    lemma_ascii_lowercase_keeps(t);
}

/// The script that stands in for a converted Nmap script.
pub open spec fn nse_placeholder() -> Seq<char> {
    "\n# Converted from NSE script\ndef main(context):\n    return {\n        'output': 'NSE conversion not implemented',\n        'success': False,\n        'error': 'NSE compatibility pending'\n    }\n"@
}

/// The bridge for Nmap scripts, which are neither converted nor run yet.
pub struct NseCompatibility {}

impl NseCompatibility {
    pub fn new() -> (r: Self) {
        NseCompatibility {}
    }

    /// The script that stands in for the conversion of an Nmap script.
    pub fn convert_nse_to_python(&self, nse_script: &str) -> (r: Result<String>)
        ensures
            r matches Ok(s) && s@ == nse_placeholder(),
    {
        Ok(string_from(
            "\n# Converted from NSE script\ndef main(context):\n    return {\n        'output': 'NSE conversion not implemented',\n        'success': False,\n        'error': 'NSE compatibility pending'\n    }\n",
        ))
    }

    /// The result of running an Nmap script: not run, with a note saying so.
    pub fn execute_nse_script(&self, script_path: &str, context: &ScriptContext) -> (r: Result<ScriptResult>)
        ensures
            r matches Ok(s) && s.script_name@ == script_path@ && s.output@ == "NSE support pending"@ && s.data@.len() == 0
                && !s.success && (s.error matches Some(e) && e@ == "NSE compatibility not yet implemented"@),
    {
        Ok(ScriptResult {
            script_name: string_from(script_path),
            output: string_from("NSE support pending"),
            data: Vec::new(),
            success: false,
            error: Some(string_from("NSE compatibility not yet implemented")),
        })
    }
}

impl Default for NseCompatibility {
    fn default() -> (r: Self) {
        Self::new()
    }
}

} // verus!
