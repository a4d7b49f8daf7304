//! Asset profiling: what a web server's response headers tell about its
//! configuration and upkeep. Confidences are in hundredths (80 stands for
//! 0.80).

use vstd::prelude::*;
use crate::text::{chars_of, contains, starts_with, find, trim, split_on, split_exec, contains_str, starts_with_str,
    find_str, eq_str, trim_exec, slice_vec, string_of, string_from, lowercase, to_lowercase, is_ascii_text,
    ascii_lowercase};

verus! {

// ---------------------------------------------------------------------------
// Lines and headers
// ---------------------------------------------------------------------------

/// A line without the carriage return that ends it, if one does.
pub open spec fn strip_cr(l: Seq<char>) -> Seq<char> {
    if l.len() > 0 && l.last() == '\r' { l.drop_last() } else { l }
}

/// The lines of a text (`str::lines`): the pieces between newlines, a
/// carriage return before a newline dropped, and no empty last line.
pub open spec fn text_lines(s: Seq<char>) -> Seq<Seq<char>> {
    let p = split_on(s, '\n');
    let body = Seq::new((p.len() - 1) as nat, |k: int| strip_cr(p[k]));
    if p.last().len() == 0 { body } else { body.push(p.last()) }
}

/// The header that a line holds: the name before its first colon, trimmed
/// and in lowercase, and the value after it, trimmed.
pub open spec fn header_of_line(l: Seq<char>) -> Option<(Seq<char>, Seq<char>)> {
    match find(l, ":"@) {
        Some(i) => Some((lowercase(trim(l.take(i))), trim(l.skip(i + 1)))),
        None => None,
    }
}

/// The header that a line holds, its ASCII name turned to small letters.
pub open spec fn header_of_line_ascii(l: Seq<char>) -> Option<(Seq<char>, Seq<char>)> {
    match find(l, ":"@) {
        Some(i) => Some((ascii_lowercase(trim(l.take(i))), trim(l.skip(i + 1)))),
        None => None,
    }
}

/// The name of the header that a line holds, if it holds one, is ASCII.
pub open spec fn header_name_ascii(l: Seq<char>) -> bool {
    match find(l, ":"@) {
        Some(i) => is_ascii_text(trim(l.take(i))),
        None => true,
    }
}

/// Every header name of the lines is ASCII.
pub open spec fn header_names_ascii(lines: Seq<Seq<char>>) -> bool {
    forall|k: int| 0 <= k < lines.len() ==> #[trigger] header_name_ascii(lines[k])
}

/// The headers of the lines, in order, their ASCII names turned to small
/// letters.
pub open spec fn header_pairs_ascii(lines: Seq<Seq<char>>) -> Seq<(Seq<char>, Seq<char>)>
    decreases lines.len(),
{
    if lines.len() == 0 {
        Seq::empty()
    } else {
        let front = header_pairs_ascii(lines.drop_last());
        match header_of_line_ascii(lines.last()) {
            Some(h) => front.push(h),
            None => front,
        }
    }
}

/// The headers of the lines, in order.
pub open spec fn header_pairs(lines: Seq<Seq<char>>) -> Seq<(Seq<char>, Seq<char>)>
    decreases lines.len(),
{
    if lines.len() == 0 {
        Seq::empty()
    } else {
        let front = header_pairs(lines.drop_last());
        match header_of_line(lines.last()) {
            Some(h) => front.push(h),
            None => front,
        }
    }
}

/// The value of each header name: the last one given.
pub open spec fn pairs_map(pairs: Seq<(Seq<char>, Seq<char>)>) -> Map<Seq<char>, Seq<char>>
    decreases pairs.len(),
{
    if pairs.len() == 0 {
        Map::empty()
    } else {
        pairs_map(pairs.drop_last()).insert(pairs.last().0, pairs.last().1)
    }
}

/// No name occurs twice.
pub open spec fn names_distinct(pairs: Seq<(Seq<char>, Seq<char>)>) -> bool {
    forall|i: int, j: int| 0 <= i < j < pairs.len() ==> pairs[i].0 != pairs[j].0
}

/// The headers that attest a hardened configuration.
pub open spec fn is_security_header(k: Seq<char>) -> bool {
    ||| k == "strict-transport-security"@
    ||| k == "x-frame-options"@
    ||| k == "x-content-type-options"@
    ||| k == "content-security-policy"@
    ||| k == "x-xss-protection"@
    ||| k == "referrer-policy"@
}

/// The security headers among the given ones, in order, as often as given.
pub open spec fn security_names(pairs: Seq<(Seq<char>, Seq<char>)>) -> Seq<Seq<char>>
    decreases pairs.len(),
{
    if pairs.len() == 0 {
        Seq::empty()
    } else {
        let front = security_names(pairs.drop_last());
        if is_security_header(pairs.last().0) { front.push(pairs.last().0) } else { front }
    }
}

/// The value of a header, where given.
pub open spec fn header_value(m: Map<Seq<char>, Seq<char>>, k: Seq<char>) -> Option<Seq<char>> {
    if m.dom().contains(k) { Some(m[k]) } else { None }
}

/// The style of an entity tag.
pub open spec fn etag_kind(e: Seq<char>) -> Seq<char> {
    if contains(e, "-"@) {
        "Apache-style"@
    } else if starts_with(e, "W"@) {
        "Weak-validator"@
    } else {
        "Strong-validator"@
    }
}

/// The proxy or cache that the headers reveal.
pub open spec fn proxy_of(m: Map<Seq<char>, Seq<char>>) -> Option<Seq<char>> {
    match header_value(m, "via"@) {
        Some(v) => Some(v),
        None => match header_value(m, "x-cache"@) {
            Some(v) => Some(v),
            None => header_value(m, "x-proxy-cache"@),
        },
    }
}

/// The notes on the configuration that the server and framework headers
/// give rise to.
pub open spec fn config_notes_of(server: Option<Seq<char>>, powered_by: Option<Seq<char>>) -> Seq<Seq<char>> {
    let n1: Seq<Seq<char>> = match server {
        Some(s) => if contains(s, "nginx"@) && contains(s, "/"@) { seq!["Nginx version disclosed in Server header"@] } else { Seq::empty() },
        None => Seq::empty(),
    };
    let n2: Seq<Seq<char>> = match server {
        Some(s) => if contains(s, "Apache"@) && contains(s, "OpenSSL"@) { seq!["Apache with OpenSSL detected"@] } else { Seq::empty() },
        None => Seq::empty(),
    };
    let n3: Seq<Seq<char>> = if powered_by is Some { seq!["X-Powered-By header disclosure detected"@] } else { Seq::empty() };
    n1 + n2 + n3
}

/// The three additions to the base confidence of 50: for the number of
/// security headers, for HSTS with a max-age over subdomains, and for a
/// content security policy.
pub open spec fn confidence_steps(m: Map<Seq<char>, Seq<char>>, security_count: nat) -> (u8, u8, u8) {
    (
        if security_count >= 4 { 30u8 } else if security_count >= 2 { 15u8 } else { 0u8 },
        match header_value(m, "strict-transport-security"@) {
            Some(h) => if contains(h, "max-age"@) && contains(h, "includeSubDomains"@) { 10u8 } else { 0u8 },
            None => 0u8,
        },
        if m.dom().contains("content-security-policy"@) { 5u8 } else { 0u8 },
    )
}

/// The confidence that the server is kept patched: 50 plus the steps, at
/// most 100.
pub open spec fn patch_confidence(m: Map<Seq<char>, Seq<char>>, security_count: nat) -> u8 {
    let s = confidence_steps(m, security_count);
    let total = 50 + s.0 + s.1 + s.2;
    if total > 100 { 100 } else { total as u8 }
}

/// The confidence is a share of 100: at least 50 with no evidence, at most
/// 95 with every piece of it, and more security headers never lower it.
pub proof fn lemma_patch_confidence_bounds(m: Map<Seq<char>, Seq<char>>, fewer: nat, more: nat)
    requires
        fewer <= more,
    ensures
        50 <= patch_confidence(m, more) <= 95,
        patch_confidence(m, fewer) <= patch_confidence(m, more),
{
}

/// The description of a patch level confidence.
pub open spec fn patch_level_text(c: u8) -> Seq<char> {
    if c > 80 {
        "Likely well-patched (modern security headers)"@
    } else if c > 60 {
        "Possibly patched (some security headers)"@
    } else if c > 40 {
        "Unknown patch level (mixed indicators)"@
    } else {
        "Possibly outdated (lacking security headers)"@
    }
}

/// The headers as plain pairs.
pub open spec fn header_views(v: Seq<(String, String)>) -> Seq<(Seq<char>, Seq<char>)> {
    v.map_values(|p: (String, String)| (p.0@, p.1@))
}

proof fn lemma_pairs_map_update(v: Seq<(Seq<char>, Seq<char>)>, i: int, val: Seq<char>)
    requires
        names_distinct(v),
        0 <= i < v.len(),
    ensures
        pairs_map(v.update(i, (v[i].0, val))) == pairs_map(v).insert(v[i].0, val),
    decreases v.len(),
{
    let u = v.update(i, (v[i].0, val));
    if i == v.len() - 1 {
        assert(u.drop_last() =~= v.drop_last());
        assert(pairs_map(u) =~= pairs_map(v).insert(v[i].0, val));
    } else {
        let d = v.drop_last();
        assert(names_distinct(d));
        lemma_pairs_map_update(d, i, val);
        assert(u.drop_last() =~= d.update(i, (v[i].0, val)));
        assert(v.last().0 != v[i].0);
        assert(pairs_map(u) =~= pairs_map(v).insert(v[i].0, val));
    }
}

proof fn lemma_pairs_map_lookup(v: Seq<(Seq<char>, Seq<char>)>, i: int)
    requires
        names_distinct(v),
        0 <= i < v.len(),
    ensures
        pairs_map(v).dom().contains(v[i].0),
        pairs_map(v)[v[i].0] == v[i].1,
    decreases v.len(),
{
    if i < v.len() - 1 {
        lemma_pairs_map_lookup(v.drop_last(), i);
    }
}

proof fn lemma_pairs_map_absent(v: Seq<(Seq<char>, Seq<char>)>, k: Seq<char>)
    requires
        forall|j: int| 0 <= j < v.len() ==> v[j].0 != k,
    ensures
        !pairs_map(v).dom().contains(k),
    decreases v.len(),
{
    if v.len() > 0 {
        lemma_pairs_map_absent(v.drop_last(), k);
    }
}

/// Files `value` under `key`, in place of an earlier value under it.
fn insert_header(headers: &mut Vec<(String, String)>, key: String, value: String)
    requires
        names_distinct(header_views(old(headers)@)),
    ensures
        names_distinct(header_views(final(headers)@)),
        pairs_map(header_views(final(headers)@)) == pairs_map(header_views(old(headers)@)).insert(key@, value@),
{
    let ghost hv = header_views(headers@);
    let mut i: usize = 0;
    while i < headers.len()
        invariant
            i <= headers@.len(),
            hv == header_views(headers@),
            headers@ == old(headers)@,
            names_distinct(hv),
            forall|j: int| 0 <= j < i ==> hv[j].0 != key@,
        decreases headers.len() - i,
    {
        let same = headers[i].0 == key;
        if same {
            assert(hv[i as int] == (headers@[i as int].0@, headers@[i as int].1@));
            assert(hv[i as int].0 == key@);
            proof {
                lemma_pairs_map_update(hv, i as int, value@);
            }
            let ghost k = key@;
            let ghost val = value@;
            headers[i] = (key, value);
            assert(header_views(headers@) =~= hv.update(i as int, (hv[i as int].0, val)));
            return;
        }
        i = i + 1;
    }
    let ghost k = key@;
    let ghost val = value@;
    headers.push((key, value));
    assert(header_views(headers@) =~= hv.push((k, val)));
    assert(header_views(headers@).drop_last() =~= hv);
}

/// The value filed under `key`.
fn header_get<'a>(headers: &'a Vec<(String, String)>, key: &str) -> (r: Option<&'a String>)
    requires
        names_distinct(header_views(headers@)),
    ensures
        r.deep_view() == header_value(pairs_map(header_views(headers@)), key@),
{
    let ghost hv = header_views(headers@);
    let k = string_from(key);
    let mut i: usize = 0;
    while i < headers.len()
        invariant
            i <= headers@.len(),
            hv == header_views(headers@),
            names_distinct(hv),
            k@ == key@,
            forall|j: int| 0 <= j < i ==> hv[j].0 != key@,
        decreases headers.len() - i,
    {
        if headers[i].0 == k {
            proof {
                lemma_pairs_map_lookup(hv, i as int);
            }
            return Some(&headers[i].1);
        }
        i = i + 1;
    }
    proof {
        lemma_pairs_map_absent(hv, key@);
    }
    None
}

/// The lines of a text, as `str::lines` gives them.
fn lines_of(v: &Vec<char>) -> (r: Vec<Vec<char>>)
    ensures
        r.deep_view() == text_lines(v@),
{
    let parts = split_exec(v, '\n');
    let ghost p = split_on(v@, '\n');
    proof {
        crate::text::lemma_split_nonempty(v@, '\n');
    }
    let n = parts.len();
    let mut out: Vec<Vec<char>> = Vec::new();
    let mut k: usize = 0;
    while k + 1 < n
        invariant
            n == parts@.len(),
            n == p.len(),
            n >= 1,
            k + 1 <= n,
            forall|j: int| 0 <= j < n ==> #[trigger] parts@[j]@ == p[j],
            out.deep_view() == Seq::new(k as nat, |j: int| strip_cr(p[j])),
            out@.len() == k,
        decreases n - k,
    {
        let piece = &parts[k];
        let m = piece.len();
        let line = if m > 0 && piece[m - 1] == '\r' { slice_vec(piece, 0, m - 1) } else { slice_vec(piece, 0, m) };
        assert(line@ =~= strip_cr(p[k as int]));
        assert(line.deep_view() =~= line@);
        let ghost before = out.deep_view();
        let ghost old_out = out@;
        let ghost lv = line.deep_view();
        out.push(line);
        assert(out@ == old_out.push(out@[k as int]));
        assert forall|j: int| 0 <= j < k + 1 implies #[trigger] out.deep_view()[j] == strip_cr(p[j]) by {
            if j < k {
                assert(out@[j] == old_out[j]);
                assert(before[j] == old_out[j].deep_view());
            }
        }
        assert(out.deep_view() =~= Seq::new((k + 1) as nat, |j: int| strip_cr(p[j])));
        k = k + 1;
    }
    let last = &parts[n - 1];
    if last.len() > 0 {
        let ghost before = out.deep_view();
        let line = slice_vec(last, 0, last.len());
        assert(line.deep_view() =~= line@);
        assert(line@ =~= p.last());
        out.push(line);
        assert(out.deep_view() =~= before.push(p.last()));
    }
    out
}

/// The header that a line holds, if it has a colon.
fn header_of_line_exec(l: &Vec<char>) -> (r: Option<(String, String)>)
    ensures
        match header_of_line(l@) {
            Some(h) => r matches Some(p) && p.0@ == h.0 && p.1@ == h.1,
            None => r is None,
        },
        header_name_ascii(l@) ==> header_of_line(l@) == header_of_line_ascii(l@),
{
    proof {
        reveal_strlit(":");
    }
    match find_str(l, ":") {
        Some(i) => {
            let name = slice_vec(l, 0, i);
            assert(name@ =~= l@.take(i as int));
            let n: usize = l.len();
            let rest = slice_vec(l, i + 1, n);
            assert(rest@ =~= l@.skip(i + 1));
            let tn = trim_exec(&name);
            let tn_s = string_of(&tn);
            let key = to_lowercase(tn_s.as_str());
            let tv = trim_exec(&rest);
            Some((key, string_of(&tv)))
        },
        None => None,
    }
}


fn is_security_header_exec(k: &String) -> (r: bool)
    ensures
        r == is_security_header(k@),
{
    let v = chars_of(k.as_str());
    eq_str(&v, "strict-transport-security") || eq_str(&v, "x-frame-options") || eq_str(&v, "x-content-type-options")
        || eq_str(&v, "content-security-policy") || eq_str(&v, "x-xss-protection") || eq_str(&v, "referrer-policy")
}

fn clone_opt(o: Option<&String>) -> (r: Option<String>)
    ensures
        r.deep_view() == o.deep_view(),
{
    match o {
        Some(s) => Some(s.clone()),
        None => None,
    }
}

/// What a web server's response headers show. Header names are held in
/// lowercase, each once, with the last value given; the patch level
/// confidence is in hundredths.
#[derive(Debug, Clone)]
pub struct HttpProfile {
    pub headers: Vec<(String, String)>,
    pub server_version: Option<String>,
    pub powered_by: Option<String>,
    pub etag_format: Option<String>,
    pub proxy_detected: Option<String>,
    pub patch_level_confidence: u8,
    pub security_headers: Vec<String>,
    pub config_notes: Vec<String>,
}

/// The three additions to the base confidence, from the headers and the
/// security headers found among them.
pub fn patch_confidence_steps(headers: &Vec<(String, String)>, security_headers: &Vec<String>) -> (r: (u8, u8, u8))
    requires
        names_distinct(header_views(headers@)),
    ensures
        r == confidence_steps(pairs_map(header_views(headers@)), security_headers@.len()),
{
    let a: u8 = if security_headers.len() >= 4 {
        30
    } else if security_headers.len() >= 2 {
        15
    } else {
        0
    };
    let b: u8 = match header_get(headers, "strict-transport-security") {
        Some(h) => {
            let v = chars_of(h.as_str());
            if contains_str(&v, "max-age") && contains_str(&v, "includeSubDomains") { 10 } else { 0 }
        },
        None => 0,
    };
    let c: u8 = if header_get(headers, "content-security-policy").is_some() { 5 } else { 0 };
    (a, b, c)
}

impl HttpProfile {
    /// The profile of a block of response headers, one per line.
    pub fn from_headers(headers: &str) -> (r: Self)
        ensures
            ({
                let pairs = header_pairs(text_lines(headers@));
                let m = pairs_map(pairs);
                &&& names_distinct(header_views(r.headers@))
                &&& pairs_map(header_views(r.headers@)) == m
                &&& r.security_headers.deep_view() == security_names(pairs)
                &&& r.server_version.deep_view() == header_value(m, "server"@)
                &&& r.powered_by.deep_view() == header_value(m, "x-powered-by"@)
                &&& r.etag_format.deep_view() == (match header_value(m, "etag"@) {
                    Some(e) => Some(etag_kind(e)),
                    None => None,
                })
                &&& r.proxy_detected.deep_view() == proxy_of(m)
                &&& r.config_notes.deep_view() == config_notes_of(header_value(m, "server"@), header_value(m, "x-powered-by"@))
                &&& r.patch_level_confidence == patch_confidence(m, security_names(pairs).len())
            }),
            header_names_ascii(text_lines(headers@)) ==> header_pairs(text_lines(headers@)) == header_pairs_ascii(
                text_lines(headers@),
            ),
    {
        let text = chars_of(headers);
        let lines = lines_of(&text);
        let ghost ls = text_lines(headers@);
        let mut header_map: Vec<(String, String)> = Vec::new();
        let mut security_headers: Vec<String> = Vec::new();
        let mut k: usize = 0;
        assert(header_views(header_map@) =~= Seq::<(Seq<char>, Seq<char>)>::empty());
        assert(pairs_map(header_views(header_map@)) =~= pairs_map(header_pairs(ls.take(0))));
        while k < lines.len()
            invariant
                k <= lines@.len(),
                lines.deep_view() == ls,
                names_distinct(header_views(header_map@)),
                pairs_map(header_views(header_map@)) == pairs_map(header_pairs(ls.take(k as int))),
                security_headers.deep_view() == security_names(header_pairs(ls.take(k as int))),
                header_names_ascii(ls) ==> header_pairs(ls.take(k as int)) == header_pairs_ascii(ls.take(k as int)),
            decreases lines.len() - k,
        {
            assert(ls.take(k + 1).drop_last() =~= ls.take(k as int));
            assert(ls.take(k + 1).last() == ls[k as int]);
            assert(lines@[k as int]@ =~= ls[k as int]) by {
                assert(lines.deep_view()[k as int] == lines@[k as int].deep_view());
            }
            let ghost prev = header_pairs(ls.take(k as int));
            match header_of_line_exec(&lines[k]) {
                Some((key, value)) => {
                    let ghost kv = key@;
                    let ghost vv = value@;
                    assert(header_of_line(ls[k as int]) == Some((kv, vv)));
                    assert(header_pairs(ls.take(k + 1)) == prev.push((kv, vv)));
                    assert(prev.push((kv, vv)).drop_last() =~= prev);
                    assert(security_names(prev.push((kv, vv))) == if is_security_header(kv) {
                        security_names(prev).push(kv)
                    } else {
                        security_names(prev)
                    });
                    assert(pairs_map(prev.push((kv, vv))) == pairs_map(prev).insert(kv, vv));
                    if is_security_header_exec(&key) {
                        let ghost before = security_headers.deep_view();
                        security_headers.push(key.clone());
                        assert(security_headers.deep_view() =~= before.push(kv));
                    }
                    insert_header(&mut header_map, key, value);
                },
                None => {
                    assert(header_pairs(ls.take(k + 1)) == prev);
                },
            }
            k = k + 1;
        }
        assert(ls.take(ls.len() as int) =~= ls);
        let server_version = clone_opt(header_get(&header_map, "server"));
        let powered_by = clone_opt(header_get(&header_map, "x-powered-by"));
        let etag_format = match header_get(&header_map, "etag") {
            Some(e) => {
                let v = chars_of(e.as_str());
                if contains_str(&v, "-") {
                    Some(string_from("Apache-style"))
                } else if starts_with_str(&v, "W") {
                    Some(string_from("Weak-validator"))
                } else {
                    Some(string_from("Strong-validator"))
                }
            },
            None => None,
        };
        let proxy_detected = match header_get(&header_map, "via") {
            Some(v) => Some(v.clone()),
            None => match header_get(&header_map, "x-cache") {
                Some(v) => Some(v.clone()),
                None => clone_opt(header_get(&header_map, "x-proxy-cache")),
            },
        };
        let config_notes = Self::notes_for(&server_version, &powered_by);
        let patch_level_confidence = Self::calculate_patch_confidence(&header_map, &security_headers);
        HttpProfile {
            headers: header_map,
            server_version,
            powered_by,
            etag_format,
            proxy_detected,
            patch_level_confidence,
            security_headers,
            config_notes,
        }
    }

    fn notes_for(server: &Option<String>, powered_by: &Option<String>) -> (r: Vec<String>)
        ensures
            r.deep_view() == config_notes_of(server.deep_view(), powered_by.deep_view()),
    {
        let mut notes: Vec<String> = Vec::new();
        let ghost n0 = notes.deep_view();
        match server {
            Some(s) => {
                let v = chars_of(s.as_str());
                if contains_str(&v, "nginx") && contains_str(&v, "/") {
                    notes.push(string_from("Nginx version disclosed in Server header"));
                }
                let ghost n1 = notes.deep_view();
                if contains_str(&v, "Apache") && contains_str(&v, "OpenSSL") {
                    notes.push(string_from("Apache with OpenSSL detected"));
                }
                assert(notes.deep_view() =~= n1 + (if contains(s@, "Apache"@) && contains(s@, "OpenSSL"@) {
                    seq!["Apache with OpenSSL detected"@]
                } else {
                    Seq::<Seq<char>>::empty()
                }));
            },
            None => {},
        }
        let ghost n2 = notes.deep_view();
        if powered_by.is_some() {
            notes.push(string_from("X-Powered-By header disclosure detected"));
        }
        assert(notes.deep_view() =~= n2 + (if powered_by.is_some() {
            seq!["X-Powered-By header disclosure detected"@]
        } else {
            Seq::<Seq<char>>::empty()
        }));
        assert(notes.deep_view() =~= config_notes_of(server.deep_view(), powered_by.deep_view()));
        notes
    }

    /// The confidence that the server is kept patched, in hundredths: 50,
    /// plus 30 for four security headers or 15 for two, 10 for HSTS with a
    /// max-age over subdomains and 5 for a content security policy, at most
    /// 100.
    pub fn calculate_patch_confidence(headers: &Vec<(String, String)>, security_headers: &Vec<String>) -> (r: u8)
        requires
            names_distinct(header_views(headers@)),
        ensures
            r == patch_confidence(pairs_map(header_views(headers@)), security_headers@.len()),
    {
        let (a, b, c) = patch_confidence_steps(headers, security_headers);
        let total: u8 = 50 + a + b + c;
        if total > 100 { 100 } else { total }
    }

    /// The probable patch level, in words.
    pub fn infer_patch_level(&self) -> (r: String)
        ensures
            r@ == patch_level_text(self.patch_level_confidence),
    {
        if self.patch_level_confidence > 80 {
            string_from("Likely well-patched (modern security headers)")
        } else if self.patch_level_confidence > 60 {
            string_from("Possibly patched (some security headers)")
        } else if self.patch_level_confidence > 40 {
            string_from("Unknown patch level (mixed indicators)")
        } else {
            string_from("Possibly outdated (lacking security headers)")
        }
    }
}

} // verus!
