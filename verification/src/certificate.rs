//! CertificateAuditor: a heuristic transport-security assessment. One GET is
//! issued against the HTTPS form of the target by the surrounding
//! application; the assessment itself depends only on the target text. A
//! target that is not reachable over HTTPS is graded `F` with one
//! vulnerability note; otherwise the simple path grades `A`. The more
//! detailed scoring routine (`calculate_grade`, `check_vulnerabilities`) is
//! kept, verified, for callers that collect TLS versions and cipher suites,
//! but the simple path does not exercise it.

use vstd::prelude::*;
use vstd::string::StringExecFns;
use crate::models::SslAnalysis;
use crate::outside::fresh_id;
use crate::text::{bytes_of, contains_seq, match_at, str_contains, str_starts_with};

verus! {

/// The URL the assessment targets: the host as given when it already carries
/// a scheme, else its HTTPS form.
pub open spec fn spec_ssl_target_url(hostname: Seq<char>) -> Seq<char> {
    if match_at(bytes_of(hostname), bytes_of("http"@), 0) {
        hostname
    } else {
        "https://"@ + hostname
    }
}

/// Whether the assessed URL form of this host is HTTPS: a host given with an
/// explicit scheme keeps it; a bare host is probed over HTTPS.
pub open spec fn spec_target_is_https(hostname: Seq<char>) -> bool {
    if match_at(bytes_of(hostname), bytes_of("http"@), 0) {
        match_at(bytes_of(hostname), bytes_of("https://"@), 0)
    } else {
        true
    }
}

/// Build the URL the assessment targets.
pub fn ssl_target_url(hostname: &str) -> (r: String)
    ensures
        r@ == spec_ssl_target_url(hostname@),
{
    if str_starts_with(hostname, "http") {
        String::from_str(hostname)
    } else {
        let mut u = String::from_str("https://");
        u.append(hostname);
        u
    }
}

/// The transport-security assessment of one target. `F` with one note about
/// missing encryption when the target is not assessed over HTTPS, `A`
/// otherwise.
pub fn scan_ssl(task_id: &str, hostname: &str, now: i64) -> (r: SslAnalysis)
    ensures
        r.task_id@ == task_id@,
        r.certificate_subject is Some && r.certificate_subject->0@ == hostname@,
        r.certificate_issuer is None,
        r.valid_from is None,
        r.valid_to is None,
        r.signature_algorithm is None,
        r.tls_versions is Some && r.tls_versions->0@.len() == 1 && r.tls_versions->0@[0]@
            == "TLS 1.2+"@,
        r.cipher_suites is None,
        r.created_at == now,
        r.grade is Some,
        r.vulnerabilities is Some,
        spec_target_is_https(hostname@) ==> r.grade->0@ == "A"@ && r.vulnerabilities->0@.len()
            == 0,
        !spec_target_is_https(hostname@) ==> r.grade->0@ == "F"@ && r.vulnerabilities->0@.len()
            == 1 && r.vulnerabilities->0@[0]@ == "No HTTPS encrypted transport"@,
{
    let https = if str_starts_with(hostname, "http") {
        str_starts_with(hostname, "https://")
    } else {
        true
    };
    let mut versions: Vec<String> = Vec::new();
    versions.push(String::from_str("TLS 1.2+"));
    let mut vulnerabilities: Vec<String> = Vec::new();
    let grade = if https {
        String::from_str("A")
    } else {
        vulnerabilities.push(String::from_str("No HTTPS encrypted transport"));
        String::from_str("F")
    };
    SslAnalysis {
        id: fresh_id(),
        task_id: String::from_str(task_id),
        certificate_issuer: None,
        certificate_subject: Some(String::from_str(hostname)),
        valid_from: None,
        valid_to: None,
        signature_algorithm: None,
        tls_versions: Some(versions),
        cipher_suites: None,
        vulnerabilities: Some(vulnerabilities),
        grade: Some(grade),
        created_at: now,
    }
}

/// Some string in the vector contains this marker.
pub open spec fn any_contains(v: Seq<String>, needle: Seq<char>) -> bool {
    exists|i: int| 0 <= i < v.len() && contains_seq(bytes_of(v[i]@), bytes_of(needle))
}

/// Executable check that some string in the vector contains the marker.
pub fn vec_any_contains(v: &Vec<String>, needle: &str) -> (r: bool)
    ensures
        r == any_contains(v@, needle@),
{
    let n = v.len();
    let mut i: usize = 0;
    while i < n
        invariant
            n == v@.len(),
            i <= n,
            forall|k: int|
                0 <= k < i ==> !contains_seq(bytes_of(v@[k]@), bytes_of(needle@)),
        decreases n - i,
    {
        if str_contains(v[i].as_str(), needle) {
            return true;
        }
        i = i + 1;
    }
    false
}

/// Score the assessment: start from 100, deduct 20 for a deprecated TLS 1.0
/// or 1.1 offering, 10 for a missing TLS 1.3 offering, and 30 for an RC4 or
/// 3DES cipher suite.
pub open spec fn spec_score(a: SslAnalysis) -> int {
    let after_versions = if a.tls_versions is Some {
        let vs = a.tls_versions->0@;
        100 - (if any_contains(vs, "TLS1_0"@) || any_contains(vs, "TLS1_1"@) {
            20int
        } else {
            0int
        }) - (if !any_contains(vs, "TLS1_3"@) {
            10int
        } else {
            0int
        })
    } else {
        100int
    };
    if a.cipher_suites is Some {
        let cs = a.cipher_suites->0@;
        after_versions - (if any_contains(cs, "RC4"@) || any_contains(cs, "3DES"@) {
            30int
        } else {
            0int
        })
    } else {
        after_versions
    }
}

/// Letter grade of a score.
pub open spec fn spec_grade_of(score: int) -> Seq<char> {
    if 90 <= score {
        "A+"@
    } else if 80 <= score {
        "A"@
    } else if 70 <= score {
        "B"@
    } else if 60 <= score {
        "C"@
    } else if 50 <= score {
        "D"@
    } else {
        "F"@
    }
}

/// The detailed grading routine: weight TLS versions and cipher-suite
/// strength into a letter grade.
pub fn calculate_grade(analysis: &SslAnalysis) -> (r: String)
    ensures
        r@ == spec_grade_of(spec_score(*analysis)),
{
    let mut score: i32 = 100;
    match &analysis.tls_versions {
        Some(vs) => {
            if vec_any_contains(vs, "TLS1_0") || vec_any_contains(vs, "TLS1_1") {
                score = score - 20;
            }
            if !vec_any_contains(vs, "TLS1_3") {
                score = score - 10;
            }
        },
        None => {},
    }
    match &analysis.cipher_suites {
        Some(cs) => {
            if vec_any_contains(cs, "RC4") || vec_any_contains(cs, "3DES") {
                score = score - 30;
            }
        },
        None => {},
    }
    if 90 <= score {
        String::from_str("A+")
    } else if 80 <= score {
        String::from_str("A")
    } else if 70 <= score {
        String::from_str("B")
    } else if 60 <= score {
        String::from_str("C")
    } else if 50 <= score {
        String::from_str("D")
    } else {
        String::from_str("F")
    }
}

/// The notes `check_vulnerabilities` owes: one per weak offering found.
pub open spec fn spec_vuln_notes(a: SslAnalysis) -> Seq<Seq<char>> {
    let vs: Seq<Seq<char>> = Seq::empty();
    let vs = if a.tls_versions is Some && any_contains(a.tls_versions->0@, "TLS1_0"@) {
        vs.push("Deprecated TLS 1.0 offered (POODLE exposure)"@)
    } else {
        vs
    };
    let vs = if a.tls_versions is Some && any_contains(a.tls_versions->0@, "TLS1_1"@) {
        vs.push("Deprecated TLS 1.1 offered"@)
    } else {
        vs
    };
    let vs = if a.cipher_suites is Some && any_contains(a.cipher_suites->0@, "RC4"@) {
        vs.push("Insecure RC4 cipher offered"@)
    } else {
        vs
    };
    if a.cipher_suites is Some && any_contains(a.cipher_suites->0@, "3DES"@) {
        vs.push("Weak 3DES cipher offered"@)
    } else {
        vs
    }
}

/// List the weak TLS versions and cipher suites an assessment records.
pub fn check_vulnerabilities(analysis: &SslAnalysis) -> (r: Vec<String>)
    ensures
        r@.len() == spec_vuln_notes(*analysis).len(),
        forall|i: int| 0 <= i < r@.len() ==> (#[trigger] r@[i])@ == spec_vuln_notes(*analysis)[i],
{
    let mut vulns: Vec<String> = Vec::new();
    match &analysis.tls_versions {
        Some(vs) => {
            if vec_any_contains(vs, "TLS1_0") {
                vulns.push(String::from_str("Deprecated TLS 1.0 offered (POODLE exposure)"));
            }
            if vec_any_contains(vs, "TLS1_1") {
                vulns.push(String::from_str("Deprecated TLS 1.1 offered"));
            }
        },
        None => {},
    }
    match &analysis.cipher_suites {
        Some(cs) => {
            if vec_any_contains(cs, "RC4") {
                vulns.push(String::from_str("Insecure RC4 cipher offered"));
            }
            if vec_any_contains(cs, "3DES") {
                vulns.push(String::from_str("Weak 3DES cipher offered"));
            }
        },
        None => {},
    }
    vulns
}

} // verus!
