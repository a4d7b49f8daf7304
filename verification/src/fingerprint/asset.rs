//! Asset profiles: what the web and TLS profiles of a service say about its
//! security posture. Scores and confidences are in hundredths.

use vstd::prelude::*;
use crate::fingerprint::cap::HttpProfile;
use crate::text::string_from;

verus! {

/// TLS configuration profile; the security score is in hundredths.
#[derive(Debug, Clone)]
pub struct TlsProfile {
    pub tls_version: Option<String>,
    pub cipher_suite: Option<String>,
    pub cert_subject: Option<String>,
    pub cert_issuer: Option<String>,
    pub cert_valid: bool,
    pub security_score: u8,
    pub notes: Vec<String>,
}

impl TlsProfile {
    /// The profile given while TLS handshakes are not inspected: TLS 1.2 or
    /// later, an unknown cipher, a valid certificate, a middling score.
    pub fn placeholder() -> (r: Self)
        ensures
            r.tls_version matches Some(v) && v@ == "TLS 1.2+"@,
            r.cipher_suite matches Some(c) && c@ == "Unknown"@,
            r.cert_subject is None && r.cert_issuer is None,
            r.cert_valid,
            r.security_score == 50,
            r.notes.deep_view() == seq!["TLS inspection not yet implemented"@],
    {
        let notes = vec![string_from("TLS inspection not yet implemented")];
        assert(notes.deep_view() =~= seq!["TLS inspection not yet implemented"@]);
        TlsProfile {
            tls_version: Some(string_from("TLS 1.2+")),
            cipher_suite: Some(string_from("Unknown")),
            cert_subject: None,
            cert_issuer: None,
            cert_valid: true,
            security_score: 50,
            notes,
        }
    }
}

/// The combined profile of an asset; the OS confidence is in hundredths.
#[derive(Debug, Clone)]
pub struct AssetProfile {
    pub http_profile: Option<HttpProfile>,
    pub tls_profile: Option<TlsProfile>,
    pub os_inference: Option<String>,
    pub os_confidence: u8,
    pub security_posture: String,
    pub risk_indicators: Vec<String>,
}

/// The posture score in four-hundredths: one half to start with, averaged
/// with the web patch level confidence and then with the TLS score, where
/// there are such profiles.
pub open spec fn posture_score(http: Option<u8>, tls: Option<u8>) -> int {
    let s = match http {
        Some(c) => (200 + 4 * c) / 2,
        None => 200,
    };
    match tls {
        Some(t) => (s + 4 * t) / 2,
        None => s,
    }
}

/// The name of a posture score given in four-hundredths: over 0.8 strong,
/// over 0.6 moderate, over 0.4 weak, else poor.
pub open spec fn posture_name(score: int) -> Seq<char> {
    if score > 320 {
        "Strong"@
    } else if score > 240 {
        "Moderate"@
    } else if score > 160 {
        "Weak"@
    } else {
        "Poor"@
    }
}

/// The posture that an asset's profiles show.
pub open spec fn asset_posture(http: Option<HttpProfile>, tls: Option<TlsProfile>) -> Seq<char> {
    posture_name(posture_score(
        match http {
            Some(h) => Some(h.patch_level_confidence),
            None => None,
        },
        match tls {
            Some(t) => Some(t.security_score),
            None => None,
        },
    ))
}

/// The risks that a web profile shows: no security headers, a framework
/// named in `X-Powered-By`, a patch level confidence under one half.
pub open spec fn http_risks(p: HttpProfile) -> Seq<Seq<char>> {
    (if p.security_headers@.len() == 0 { seq!["No security headers detected"@] } else { Seq::empty() })
        + (if p.powered_by is Some { seq!["Information disclosure via X-Powered-By"@] } else { Seq::empty() })
        + (if p.patch_level_confidence < 50 { seq!["Potentially outdated configuration"@] } else { Seq::empty() })
}

fn posture_of_scores(http: Option<u8>, tls: Option<u8>) -> (r: String)
    ensures
        r@ == posture_name(posture_score(http, tls)),
{
    let mut score: u32 = 200;
    match http {
        Some(c) => {
            score = (score + 4 * c as u32) / 2;
        },
        None => {},
    }
    match tls {
        Some(t) => {
            score = (score + 4 * t as u32) / 2;
        },
        None => {},
    }
    if score > 320 {
        string_from("Strong")
    } else if score > 240 {
        string_from("Moderate")
    } else if score > 160 {
        string_from("Weak")
    } else {
        string_from("Poor")
    }
}

impl AssetProfile {
    /// A profile with nothing known: no web or TLS profile, no OS, an
    /// unknown posture, no risks.
    pub fn new() -> (r: Self)
        ensures
            r.http_profile is None && r.tls_profile is None && r.os_inference is None,
            r.os_confidence == 0,
            r.security_posture@ == "Unknown"@,
            r.risk_indicators@.len() == 0,
    {
        AssetProfile {
            http_profile: None,
            tls_profile: None,
            os_inference: None,
            os_confidence: 0,
            security_posture: string_from("Unknown"),
            risk_indicators: Vec::new(),
        }
    }

    fn update_security_posture(&mut self)
        ensures
            final(self).http_profile == old(self).http_profile,
            final(self).tls_profile == old(self).tls_profile,
            final(self).os_inference == old(self).os_inference,
            final(self).os_confidence == old(self).os_confidence,
            final(self).risk_indicators == old(self).risk_indicators,
            final(self).security_posture@ == asset_posture(old(self).http_profile, old(self).tls_profile),
    {
        let http = match &self.http_profile {
            Some(h) => Some(h.patch_level_confidence),
            None => None,
        };
        let tls = match &self.tls_profile {
            Some(t) => Some(t.security_score),
            None => None,
        };
        self.security_posture = posture_of_scores(http, tls);
    }

    /// The profile with a web profile added: its risks noted after those
    /// known, and the posture worked out again.
    pub fn with_http_profile(self, profile: HttpProfile) -> (r: Self)
        ensures
            r.http_profile == Some(profile),
            r.tls_profile == self.tls_profile,
            r.os_inference == self.os_inference,
            r.os_confidence == self.os_confidence,
            r.risk_indicators.deep_view() == self.risk_indicators.deep_view() + http_risks(profile),
            r.security_posture@ == asset_posture(Some(profile), self.tls_profile),
    {
        let mut p = self;
        let ghost before = p.risk_indicators.deep_view();
        if profile.security_headers.len() == 0 {
            p.risk_indicators.push(string_from("No security headers detected"));
        }
        let ghost mid1 = p.risk_indicators.deep_view();
        if profile.powered_by.is_some() {
            p.risk_indicators.push(string_from("Information disclosure via X-Powered-By"));
        }
        let ghost mid2 = p.risk_indicators.deep_view();
        if profile.patch_level_confidence < 50 {
            p.risk_indicators.push(string_from("Potentially outdated configuration"));
        }
        proof {
            let a = if profile.security_headers@.len() == 0 { seq!["No security headers detected"@] } else { Seq::<Seq<char>>::empty() };
            let b = if profile.powered_by is Some { seq!["Information disclosure via X-Powered-By"@] } else { Seq::<Seq<char>>::empty() };
            let c = if profile.patch_level_confidence < 50 { seq!["Potentially outdated configuration"@] } else { Seq::<Seq<char>>::empty() };
            assert(mid1 =~= before + a);
            assert(mid2 =~= before + a + b);
            assert(p.risk_indicators.deep_view() =~= before + a + b + c);
            assert(before + a + b + c =~= before + http_risks(profile));
        }
        p.http_profile = Some(profile);
        p.update_security_posture();
        p
    }

    /// The profile with a TLS profile added, and the posture worked out
    /// again.
    pub fn with_tls_profile(self, profile: TlsProfile) -> (r: Self)
        ensures
            r.http_profile == self.http_profile,
            r.tls_profile == Some(profile),
            r.os_inference == self.os_inference,
            r.os_confidence == self.os_confidence,
            r.risk_indicators == self.risk_indicators,
            r.security_posture@ == asset_posture(self.http_profile, Some(profile)),
    {
        let mut p = self;
        p.tls_profile = Some(profile);
        p.update_security_posture();
        p
    }

    /// The profile with the inferred operating system and its confidence.
    pub fn with_os_inference(self, os: String, confidence: u8) -> (r: Self)
        ensures
            r.http_profile == self.http_profile,
            r.tls_profile == self.tls_profile,
            r.os_inference == Some(os),
            r.os_confidence == confidence,
            r.security_posture == self.security_posture,
            r.risk_indicators == self.risk_indicators,
    {
        AssetProfile { os_inference: Some(os), os_confidence: confidence, ..self }
    }
}

impl Default for AssetProfile {
    fn default() -> (r: Self)
        ensures
            r.http_profile is None && r.tls_profile is None && r.os_inference is None,
            r.os_confidence == 0,
            r.security_posture@ == "Unknown"@,
            r.risk_indicators@.len() == 0,
    {
        Self::new()
    }
}

/// A better web profile never worsens the posture: the posture score grows
/// with the patch level confidence and with the TLS score.
pub proof fn lemma_posture_score_monotone(c1: u8, c2: u8, t1: u8, t2: u8)
    requires
        c1 <= c2,
        t1 <= t2,
    ensures
        posture_score(Some(c1), Some(t1)) <= posture_score(Some(c2), Some(t2)),
        posture_score(Some(c1), None) <= posture_score(Some(c2), None),
        posture_score(None, Some(t1)) <= posture_score(None, Some(t2)),
{
}

} // verus!
