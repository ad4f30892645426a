//! VulnerabilityProbeEngine: the ten ordered OWASP-style probe batteries.
//! Each battery's HTTP requests are issued by the surrounding application,
//! which hands back plain observations (status codes, bodies, headers,
//! cookies); every decision that turns those observations into findings is
//! verified here, as is the fixed order in which the batteries report. The
//! payload and path tables are part of the library, so the application
//! builds its probe URLs from them.

use vstd::prelude::*;
use vstd::string::{StrSliceExecFns, StringExecFns};
use crate::models::{ResultType, ScanResult, Severity};
use crate::outside::{fresh_id, regex_match_of, regex_valid_of, url_encode, urlencoded_of};
use crate::technology::{body_has, body_has_exact};
use crate::text::{
    bytes_eq, bytes_of, lower_bytes, match_at, str_contains, str_contains_lower, str_starts_with,
    to_lower_vec,
};

verus! {

/// One probe's observation: the response status and body text.
#[derive(Debug, Clone)]
pub struct ProbeResponse {
    pub status: u16,
    pub body: String,
}

/// One cookie as observed on a response.
#[derive(Debug, Clone)]
pub struct CookieObs {
    pub name: String,
    pub value: String,
    pub secure: bool,
    pub http_only: bool,
}

/// The body and cookies of one fetched page.
#[derive(Debug, Clone)]
pub struct PageObservations {
    pub body: String,
    pub cookies: Vec<CookieObs>,
}

/// What one finding record must carry: the owning scan's id, the vulnerability
/// record kind, and the expected severity, title and description, stamped at
/// this time. Raw evidence is not recorded by the probe engine.
pub open spec fn finding_wf(
    f: ScanResult,
    task_id: Seq<char>,
    e: (Severity, Seq<char>, Seq<char>, Seq<char>),
    now: i64,
) -> bool {
    &&& f.task_id@ == task_id
    &&& f.result_type == ResultType::Vulnerability
    &&& f.severity == Some(e.0)
    &&& f.title@ == e.1
    &&& f.description is Some && f.description->0@ == e.2
    &&& f.raw_data is Some && f.raw_data->0@ == e.3
    &&& f.created_at == now
}

/// The whole vector matches the expected findings, element for element.
pub open spec fn findings_match(
    fs: Seq<ScanResult>,
    task_id: Seq<char>,
    expected: Seq<(Severity, Seq<char>, Seq<char>, Seq<char>)>,
    now: i64,
) -> bool {
    &&& fs.len() == expected.len()
    &&& forall|i: int|
        0 <= i < fs.len() ==> finding_wf(#[trigger] fs[i], task_id, expected[i], now)
}

/// One expected finding, or nothing.
pub open spec fn entry(
    hit: bool,
    severity: Severity,
    title: Seq<char>,
    description: Seq<char>,
    evidence: Seq<char>,
) -> Seq<(Severity, Seq<char>, Seq<char>, Seq<char>)> {
    if hit {
        seq![(severity, title, description, evidence)]
    } else {
        Seq::empty()
    }
}

/// Push one finding record.
fn push_finding(
    out: &mut Vec<ScanResult>,
    task_id: &str,
    severity: Severity,
    title: String,
    description: &str,
    evidence: String,
    now: i64,
)
    ensures
        final(out)@.len() == old(out)@.len() + 1,
        forall|k: int| 0 <= k < old(out)@.len() ==> final(out)@[k] == old(out)@[k],
        finding_wf(
            final(out)@[old(out)@.len() as int],
            task_id@,
            (severity, title@, description@, evidence@),
            now,
        ),
{
    let f = ScanResult {
        id: fresh_id(),
        task_id: String::from_str(task_id),
        result_type: ResultType::Vulnerability,
        severity: Some(severity),
        title: title,
        description: Some(String::from_str(description)),
        raw_data: Some(evidence),
        created_at: now,
    };
    out.push(f);
}

/// A title built from a fixed prefix and a detail.
fn title_with(prefix: &str, detail: &str) -> (r: String)
    ensures
        r@ == prefix@ + detail@,
{
    let mut s = String::from_str(prefix);
    s.append(detail);
    s
}

/// Evidence text built from a prefix, a detail and a suffix.
fn text_with3(prefix: &str, detail: &str, suffix: &str) -> (r: String)
    ensures
        r@ == prefix@ + detail@ + suffix@,
{
    let mut s = String::from_str(prefix);
    s.append(detail);
    s.append(suffix);
    s
}

/// Some marker of the list occurs in the lower-cased body.
pub open spec fn any_lower_hit(body: Seq<char>, pats: Seq<Seq<char>>) -> bool {
    exists|i: int| 0 <= i < pats.len() && body_has(body, pats[i])
}

/// Some marker of the list occurs in the body, case-sensitively.
pub open spec fn any_exact_hit(body: Seq<char>, pats: Seq<Seq<char>>) -> bool {
    exists|i: int| 0 <= i < pats.len() && body_has_exact(body, pats[i])
}

/// Check a lower-case marker table against the lower-cased body.
fn body_any_lower(body: &str, pats: &Vec<String>, Ghost(table): Ghost<Seq<Seq<char>>>) -> (r: bool)
    requires
        pats@.len() == table.len(),
        forall|i: int| 0 <= i < table.len() ==> (#[trigger] pats@[i])@ == table[i],
    ensures
        r == any_lower_hit(body@, table),
{
    let n = pats.len();
    let mut i: usize = 0;
    while i < n
        invariant
            n == pats@.len(),
            n == table.len(),
            forall|k: int| 0 <= k < table.len() ==> (#[trigger] pats@[k])@ == table[k],
            i <= n,
            forall|k: int| 0 <= k < i ==> !body_has(body@, table[k]),
        decreases n - i,
    {
        if str_contains_lower(body, pats[i].as_str()) {
            return true;
        }
        i = i + 1;
    }
    false
}

/// Check a marker table against the body, case-sensitively.
fn body_any_exact(body: &str, pats: &Vec<String>, Ghost(table): Ghost<Seq<Seq<char>>>) -> (r: bool)
    requires
        pats@.len() == table.len(),
        forall|i: int| 0 <= i < table.len() ==> (#[trigger] pats@[i])@ == table[i],
    ensures
        r == any_exact_hit(body@, table),
{
    let n = pats.len();
    let mut i: usize = 0;
    while i < n
        invariant
            n == pats@.len(),
            n == table.len(),
            forall|k: int| 0 <= k < table.len() ==> (#[trigger] pats@[k])@ == table[k],
            i <= n,
            forall|k: int| 0 <= k < i ==> !body_has_exact(body@, table[k]),
        decreases n - i,
    {
        if str_contains(body, pats[i].as_str()) {
            return true;
        }
        i = i + 1;
    }
    false
}

/// The admin-interface paths the access-control battery probes.
pub open spec fn spec_admin_paths() -> Seq<Seq<char>> {
    seq![
        "/admin"@,
        "/administrator"@,
        "/admin.php"@,
        "/admin/"@,
        "/wp-admin"@,
        "/adminpanel"@,
        "/cpanel"@,
        "/controlpanel"@,
        "/dashboard"@,
        "/manage"@,
        "/manager"@,
        "/backend"@,
    ]
}

/// Executable form of the `admin_paths` table.
pub fn admin_paths() -> (r: Vec<String>)
    ensures
        r@.len() == 12,
        forall|i: int| 0 <= i < 12 ==> (#[trigger] r@[i])@ == spec_admin_paths()[i],
{
    let mut out: Vec<String> = Vec::new();
    out.push(String::from_str("/admin"));
    out.push(String::from_str("/administrator"));
    out.push(String::from_str("/admin.php"));
    out.push(String::from_str("/admin/"));
    out.push(String::from_str("/wp-admin"));
    out.push(String::from_str("/adminpanel"));
    out.push(String::from_str("/cpanel"));
    out.push(String::from_str("/controlpanel"));
    out.push(String::from_str("/dashboard"));
    out.push(String::from_str("/manage"));
    out.push(String::from_str("/manager"));
    out.push(String::from_str("/backend"));
    out
}

/// The query patterns of the IDOR (insecure direct object reference) probes.
pub open spec fn spec_idor_patterns() -> Seq<Seq<char>> {
    seq![
        "?id=1"@,
        "?user_id=1"@,
        "?doc_id=1"@,
        "?file_id=1"@,
    ]
}

/// Executable form of the `idor_patterns` table.
pub fn idor_patterns() -> (r: Vec<String>)
    ensures
        r@.len() == 4,
        forall|i: int| 0 <= i < 4 ==> (#[trigger] r@[i])@ == spec_idor_patterns()[i],
{
    let mut out: Vec<String> = Vec::new();
    out.push(String::from_str("?id=1"));
    out.push(String::from_str("?user_id=1"));
    out.push(String::from_str("?doc_id=1"));
    out.push(String::from_str("?file_id=1"));
    out
}

/// User-data markers whose presence in an IDOR probe response counts as a hit.
pub open spec fn spec_idor_markers() -> Seq<Seq<char>> {
    seq![
        "email"@,
        "username"@,
        "user"@,
    ]
}

/// Executable form of the `idor_markers` table.
pub fn idor_markers() -> (r: Vec<String>)
    ensures
        r@.len() == 3,
        forall|i: int| 0 <= i < 3 ==> (#[trigger] r@[i])@ == spec_idor_markers()[i],
{
    let mut out: Vec<String> = Vec::new();
    out.push(String::from_str("email"));
    out.push(String::from_str("username"));
    out.push(String::from_str("user"));
    out
}

/// The path-traversal payloads, probed via a file parameter.
pub open spec fn spec_traversal_payloads() -> Seq<Seq<char>> {
    seq![
        "../../../etc/passwd"@,
        "..\\..\\..\\windows\\system32\\config\\sam"@,
        "....//....//....//etc/passwd"@,
    ]
}

/// Executable form of the `traversal_payloads` table.
pub fn traversal_payloads() -> (r: Vec<String>)
    ensures
        r@.len() == 3,
        forall|i: int| 0 <= i < 3 ==> (#[trigger] r@[i])@ == spec_traversal_payloads()[i],
{
    let mut out: Vec<String> = Vec::new();
    out.push(String::from_str("../../../etc/passwd"));
    out.push(String::from_str("..\\..\\..\\windows\\system32\\config\\sam"));
    out.push(String::from_str("....//....//....//etc/passwd"));
    out
}

/// System-file markers whose presence confirms a traversal hit.
pub open spec fn spec_traversal_markers() -> Seq<Seq<char>> {
    seq![
        "root:"@,
        "[boot loader]"@,
    ]
}

/// Executable form of the `traversal_markers` table.
pub fn traversal_markers() -> (r: Vec<String>)
    ensures
        r@.len() == 2,
        forall|i: int| 0 <= i < 2 ==> (#[trigger] r@[i])@ == spec_traversal_markers()[i],
{
    let mut out: Vec<String> = Vec::new();
    out.push(String::from_str("root:"));
    out.push(String::from_str("[boot loader]"));
    out
}

/// Regular expressions for disclosed keys and tokens in page source.
pub open spec fn spec_secret_patterns() -> Seq<Seq<char>> {
    seq![
        "(?i)api[_-]?key['\\\"]?\\s*[:=]\\s*['\\\"]([a-zA-Z0-9_\\-]{20,})"@,
        "(?i)secret[_-]?key['\\\"]?\\s*[:=]\\s*['\\\"]([a-zA-Z0-9_\\-]{20,})"@,
        "(?i)access[_-]?token['\\\"]?\\s*[:=]\\s*['\\\"]([a-zA-Z0-9_\\-]{20,})"@,
        "(?i)password['\\\"]?\\s*[:=]\\s*['\\\"]([^'\\\"]{3,})"@,
        "(?i)aws[_-]?access[_-]?key['\\\"]?\\s*[:=]\\s*['\\\"]([A-Z0-9]{20})"@,
        "(?i)private[_-]?key['\\\"]?\\s*[:=]"@,
        "-----BEGIN (RSA |DSA )?PRIVATE KEY-----"@,
    ]
}

/// Executable form of the `secret_patterns` table.
pub fn secret_patterns() -> (r: Vec<String>)
    ensures
        r@.len() == 7,
        forall|i: int| 0 <= i < 7 ==> (#[trigger] r@[i])@ == spec_secret_patterns()[i],
{
    let mut out: Vec<String> = Vec::new();
    out.push(String::from_str("(?i)api[_-]?key['\\\"]?\\s*[:=]\\s*['\\\"]([a-zA-Z0-9_\\-]{20,})"));
    out.push(String::from_str("(?i)secret[_-]?key['\\\"]?\\s*[:=]\\s*['\\\"]([a-zA-Z0-9_\\-]{20,})"));
    out.push(String::from_str("(?i)access[_-]?token['\\\"]?\\s*[:=]\\s*['\\\"]([a-zA-Z0-9_\\-]{20,})"));
    out.push(String::from_str("(?i)password['\\\"]?\\s*[:=]\\s*['\\\"]([^'\\\"]{3,})"));
    out.push(String::from_str("(?i)aws[_-]?access[_-]?key['\\\"]?\\s*[:=]\\s*['\\\"]([A-Z0-9]{20})"));
    out.push(String::from_str("(?i)private[_-]?key['\\\"]?\\s*[:=]"));
    out.push(String::from_str("-----BEGIN (RSA |DSA )?PRIVATE KEY-----"));
    out
}

/// The names of the disclosed-secret kinds, in pattern order.
pub open spec fn spec_secret_names() -> Seq<Seq<char>> {
    seq![
        "API Key"@,
        "Secret Key"@,
        "Access Token"@,
        "Password"@,
        "AWS Access Key"@,
        "Private Key"@,
        "PEM Private Key"@,
    ]
}

/// Executable form of the `secret_names` table.
pub fn secret_names() -> (r: Vec<String>)
    ensures
        r@.len() == 7,
        forall|i: int| 0 <= i < 7 ==> (#[trigger] r@[i])@ == spec_secret_names()[i],
{
    let mut out: Vec<String> = Vec::new();
    out.push(String::from_str("API Key"));
    out.push(String::from_str("Secret Key"));
    out.push(String::from_str("Access Token"));
    out.push(String::from_str("Password"));
    out.push(String::from_str("AWS Access Key"));
    out.push(String::from_str("Private Key"));
    out.push(String::from_str("PEM Private Key"));
    out
}

/// The SQL-injection payloads, probed via an id parameter.
pub open spec fn spec_sql_payloads() -> Seq<Seq<char>> {
    seq![
        "' OR '1'='1"@,
        "' OR '1'='1' --"@,
        "1' OR '1' = '1"@,
        "admin'--"@,
        "' UNION SELECT NULL--"@,
        "' AND 1=0 UNION ALL SELECT 'admin', '81dc9bdb52d04dc20036dbd8313ed055'"@,
        "1' AND SLEEP(5)--"@,
    ]
}

/// Executable form of the `sql_payloads` table.
pub fn sql_payloads() -> (r: Vec<String>)
    ensures
        r@.len() == 7,
        forall|i: int| 0 <= i < 7 ==> (#[trigger] r@[i])@ == spec_sql_payloads()[i],
{
    let mut out: Vec<String> = Vec::new();
    out.push(String::from_str("' OR '1'='1"));
    out.push(String::from_str("' OR '1'='1' --"));
    out.push(String::from_str("1' OR '1' = '1"));
    out.push(String::from_str("admin'--"));
    out.push(String::from_str("' UNION SELECT NULL--"));
    out.push(String::from_str("' AND 1=0 UNION ALL SELECT 'admin', '81dc9bdb52d04dc20036dbd8313ed055'"));
    out.push(String::from_str("1' AND SLEEP(5)--"));
    out
}

/// Short names of the SQL-injection payloads, in payload order.
pub open spec fn spec_sql_descs() -> Seq<Seq<char>> {
    seq![
        "Basic OR injection"@,
        "OR injection with comment"@,
        "Numeric OR injection"@,
        "Admin bypass"@,
        "UNION injection"@,
        "UNION hash injection"@,
        "Time-based blind injection"@,
    ]
}

/// Executable form of the `sql_descs` table.
pub fn sql_descs() -> (r: Vec<String>)
    ensures
        r@.len() == 7,
        forall|i: int| 0 <= i < 7 ==> (#[trigger] r@[i])@ == spec_sql_descs()[i],
{
    let mut out: Vec<String> = Vec::new();
    out.push(String::from_str("Basic OR injection"));
    out.push(String::from_str("OR injection with comment"));
    out.push(String::from_str("Numeric OR injection"));
    out.push(String::from_str("Admin bypass"));
    out.push(String::from_str("UNION injection"));
    out.push(String::from_str("UNION hash injection"));
    out.push(String::from_str("Time-based blind injection"));
    out
}

/// Database error markers sought in the lower-cased response body.
pub open spec fn spec_sql_markers() -> Seq<Seq<char>> {
    seq![
        "sql syntax"@,
        "mysql"@,
        "postgresql"@,
        "sqlite"@,
        "syntax error"@,
        "odbc"@,
        "jdbc"@,
        "oracle"@,
        "warning: mysql"@,
        "unclosed quotation"@,
        "quoted string not properly terminated"@,
        "sqlexception"@,
    ]
}

/// Executable form of the `sql_markers` table.
pub fn sql_markers() -> (r: Vec<String>)
    ensures
        r@.len() == 12,
        forall|i: int| 0 <= i < 12 ==> (#[trigger] r@[i])@ == spec_sql_markers()[i],
{
    let mut out: Vec<String> = Vec::new();
    out.push(String::from_str("sql syntax"));
    out.push(String::from_str("mysql"));
    out.push(String::from_str("postgresql"));
    out.push(String::from_str("sqlite"));
    out.push(String::from_str("syntax error"));
    out.push(String::from_str("odbc"));
    out.push(String::from_str("jdbc"));
    out.push(String::from_str("oracle"));
    out.push(String::from_str("warning: mysql"));
    out.push(String::from_str("unclosed quotation"));
    out.push(String::from_str("quoted string not properly terminated"));
    out.push(String::from_str("sqlexception"));
    out
}

/// The reflected-XSS payloads, probed via a q parameter.
pub open spec fn spec_xss_payloads() -> Seq<Seq<char>> {
    seq![
        "<script>alert('XSS')</script>"@,
        "<img src=x onerror=alert('XSS')>"@,
        "javascript:alert('XSS')"@,
        "<svg onload=alert('XSS')>"@,
        "<iframe src=javascript:alert('XSS')>"@,
        "'><script>alert(String.fromCharCode(88,83,83))</script>"@,
    ]
}

/// Executable form of the `xss_payloads` table.
pub fn xss_payloads() -> (r: Vec<String>)
    ensures
        r@.len() == 6,
        forall|i: int| 0 <= i < 6 ==> (#[trigger] r@[i])@ == spec_xss_payloads()[i],
{
    let mut out: Vec<String> = Vec::new();
    out.push(String::from_str("<script>alert('XSS')</script>"));
    out.push(String::from_str("<img src=x onerror=alert('XSS')>"));
    out.push(String::from_str("javascript:alert('XSS')"));
    out.push(String::from_str("<svg onload=alert('XSS')>"));
    out.push(String::from_str("<iframe src=javascript:alert('XSS')>"));
    out.push(String::from_str("'><script>alert(String.fromCharCode(88,83,83))</script>"));
    out
}

/// The XSS payloads with single quotes swapped for double quotes; a reflection of either form counts.
pub open spec fn spec_xss_alts() -> Seq<Seq<char>> {
    seq![
        "<script>alert(\"XSS\")</script>"@,
        "<img src=x onerror=alert(\"XSS\")>"@,
        "javascript:alert(\"XSS\")"@,
        "<svg onload=alert(\"XSS\")>"@,
        "<iframe src=javascript:alert(\"XSS\")>"@,
        "\"><script>alert(String.fromCharCode(88,83,83))</script>"@,
    ]
}

/// Executable form of the `xss_alts` table.
pub fn xss_alts() -> (r: Vec<String>)
    ensures
        r@.len() == 6,
        forall|i: int| 0 <= i < 6 ==> (#[trigger] r@[i])@ == spec_xss_alts()[i],
{
    let mut out: Vec<String> = Vec::new();
    out.push(String::from_str("<script>alert(\"XSS\")</script>"));
    out.push(String::from_str("<img src=x onerror=alert(\"XSS\")>"));
    out.push(String::from_str("javascript:alert(\"XSS\")"));
    out.push(String::from_str("<svg onload=alert(\"XSS\")>"));
    out.push(String::from_str("<iframe src=javascript:alert(\"XSS\")>"));
    out.push(String::from_str("\"><script>alert(String.fromCharCode(88,83,83))</script>"));
    out
}

/// Short names of the XSS payloads, in payload order.
pub open spec fn spec_xss_descs() -> Seq<Seq<char>> {
    seq![
        "Basic XSS"@,
        "Image XSS"@,
        "JavaScript protocol"@,
        "SVG XSS"@,
        "Iframe XSS"@,
        "Encoded XSS"@,
    ]
}

/// Executable form of the `xss_descs` table.
pub fn xss_descs() -> (r: Vec<String>)
    ensures
        r@.len() == 6,
        forall|i: int| 0 <= i < 6 ==> (#[trigger] r@[i])@ == spec_xss_descs()[i],
{
    let mut out: Vec<String> = Vec::new();
    out.push(String::from_str("Basic XSS"));
    out.push(String::from_str("Image XSS"));
    out.push(String::from_str("JavaScript protocol"));
    out.push(String::from_str("SVG XSS"));
    out.push(String::from_str("Iframe XSS"));
    out.push(String::from_str("Encoded XSS"));
    out
}

/// The OS command-injection payloads, probed via a cmd parameter.
pub open spec fn spec_cmd_payloads() -> Seq<Seq<char>> {
    seq![
        ";ls"@,
        "| ls"@,
        "$(ls)"@,
        "`ls`"@,
        "&& ls"@,
        "|| ls"@,
    ]
}

/// Executable form of the `cmd_payloads` table.
pub fn cmd_payloads() -> (r: Vec<String>)
    ensures
        r@.len() == 6,
        forall|i: int| 0 <= i < 6 ==> (#[trigger] r@[i])@ == spec_cmd_payloads()[i],
{
    let mut out: Vec<String> = Vec::new();
    out.push(String::from_str(";ls"));
    out.push(String::from_str("| ls"));
    out.push(String::from_str("$(ls)"));
    out.push(String::from_str("`ls`"));
    out.push(String::from_str("&& ls"));
    out.push(String::from_str("|| ls"));
    out
}

/// Short names of the command-injection payloads, in payload order.
pub open spec fn spec_cmd_descs() -> Seq<Seq<char>> {
    seq![
        "Semicolon command separator"@,
        "Pipe operator"@,
        "Command substitution"@,
        "Backtick execution"@,
        "AND operator"@,
        "OR operator"@,
    ]
}

/// Executable form of the `cmd_descs` table.
pub fn cmd_descs() -> (r: Vec<String>)
    ensures
        r@.len() == 6,
        forall|i: int| 0 <= i < 6 ==> (#[trigger] r@[i])@ == spec_cmd_descs()[i],
{
    let mut out: Vec<String> = Vec::new();
    out.push(String::from_str("Semicolon command separator"));
    out.push(String::from_str("Pipe operator"));
    out.push(String::from_str("Command substitution"));
    out.push(String::from_str("Backtick execution"));
    out.push(String::from_str("AND operator"));
    out.push(String::from_str("OR operator"));
    out
}

/// Directory-listing markers whose presence counts as command execution.
pub open spec fn spec_cmd_markers() -> Seq<Seq<char>> {
    seq![
        "bin"@,
        "usr"@,
        "etc"@,
    ]
}

/// Executable form of the `cmd_markers` table.
pub fn cmd_markers() -> (r: Vec<String>)
    ensures
        r@.len() == 3,
        forall|i: int| 0 <= i < 3 ==> (#[trigger] r@[i])@ == spec_cmd_markers()[i],
{
    let mut out: Vec<String> = Vec::new();
    out.push(String::from_str("bin"));
    out.push(String::from_str("usr"));
    out.push(String::from_str("etc"));
    out
}

/// The LDAP-injection payloads, probed via a user parameter.
pub open spec fn spec_ldap_payloads() -> Seq<Seq<char>> {
    seq![
        "*"@,
        "admin*)(uid=*"@,
        "*)(uid=*))(|(uid=*"@,
    ]
}

/// Executable form of the `ldap_payloads` table.
pub fn ldap_payloads() -> (r: Vec<String>)
    ensures
        r@.len() == 3,
        forall|i: int| 0 <= i < 3 ==> (#[trigger] r@[i])@ == spec_ldap_payloads()[i],
{
    let mut out: Vec<String> = Vec::new();
    out.push(String::from_str("*"));
    out.push(String::from_str("admin*)(uid=*"));
    out.push(String::from_str("*)(uid=*))(|(uid=*"));
    out
}

/// Short names of the LDAP-injection payloads, in payload order.
pub open spec fn spec_ldap_descs() -> Seq<Seq<char>> {
    seq![
        "Wildcard"@,
        "LDAP filter injection"@,
        "Complex LDAP injection"@,
    ]
}

/// Executable form of the `ldap_descs` table.
pub fn ldap_descs() -> (r: Vec<String>)
    ensures
        r@.len() == 3,
        forall|i: int| 0 <= i < 3 ==> (#[trigger] r@[i])@ == spec_ldap_descs()[i],
{
    let mut out: Vec<String> = Vec::new();
    out.push(String::from_str("Wildcard"));
    out.push(String::from_str("LDAP filter injection"));
    out.push(String::from_str("Complex LDAP injection"));
    out
}

/// Messages that distinguish unknown users from wrong passwords.
pub open spec fn spec_enumeration_markers() -> Seq<Seq<char>> {
    seq![
        "User not found"@,
        "Invalid username"@,
    ]
}

/// Executable form of the `enumeration_markers` table.
pub fn enumeration_markers() -> (r: Vec<String>)
    ensures
        r@.len() == 2,
        forall|i: int| 0 <= i < 2 ==> (#[trigger] r@[i])@ == spec_enumeration_markers()[i],
{
    let mut out: Vec<String> = Vec::new();
    out.push(String::from_str("User not found"));
    out.push(String::from_str("Invalid username"));
    out
}

/// The sensitive file paths the misconfiguration battery probes.
pub open spec fn spec_sensitive_files() -> Seq<Seq<char>> {
    seq![
        "/.git/config"@,
        "/.env"@,
        "/config.php"@,
        "/wp-config.php"@,
        "/.htaccess"@,
        "/phpinfo.php"@,
        "/web.config"@,
        "/backup.sql"@,
        "/database.sql"@,
        "/.DS_Store"@,
        "/robots.txt"@,
        "/sitemap.xml"@,
    ]
}

/// Executable form of the `sensitive_files` table.
pub fn sensitive_files() -> (r: Vec<String>)
    ensures
        r@.len() == 12,
        forall|i: int| 0 <= i < 12 ==> (#[trigger] r@[i])@ == spec_sensitive_files()[i],
{
    let mut out: Vec<String> = Vec::new();
    out.push(String::from_str("/.git/config"));
    out.push(String::from_str("/.env"));
    out.push(String::from_str("/config.php"));
    out.push(String::from_str("/wp-config.php"));
    out.push(String::from_str("/.htaccess"));
    out.push(String::from_str("/phpinfo.php"));
    out.push(String::from_str("/web.config"));
    out.push(String::from_str("/backup.sql"));
    out.push(String::from_str("/database.sql"));
    out.push(String::from_str("/.DS_Store"));
    out.push(String::from_str("/robots.txt"));
    out.push(String::from_str("/sitemap.xml"));
    out
}

/// What each sensitive file is, in path order.
pub open spec fn spec_sensitive_file_names() -> Seq<Seq<char>> {
    seq![
        "Git configuration file"@,
        "Environment variable file"@,
        "PHP configuration file"@,
        "WordPress configuration"@,
        "Apache configuration"@,
        "PHP info page"@,
        "IIS configuration"@,
        "Database backup"@,
        "Database backup"@,
        "macOS metadata file"@,
        "Robots file"@,
        "Site map"@,
    ]
}

/// Executable form of the `sensitive_file_names` table.
pub fn sensitive_file_names() -> (r: Vec<String>)
    ensures
        r@.len() == 12,
        forall|i: int| 0 <= i < 12 ==> (#[trigger] r@[i])@ == spec_sensitive_file_names()[i],
{
    let mut out: Vec<String> = Vec::new();
    out.push(String::from_str("Git configuration file"));
    out.push(String::from_str("Environment variable file"));
    out.push(String::from_str("PHP configuration file"));
    out.push(String::from_str("WordPress configuration"));
    out.push(String::from_str("Apache configuration"));
    out.push(String::from_str("PHP info page"));
    out.push(String::from_str("IIS configuration"));
    out.push(String::from_str("Database backup"));
    out.push(String::from_str("Database backup"));
    out.push(String::from_str("macOS metadata file"));
    out.push(String::from_str("Robots file"));
    out.push(String::from_str("Site map"));
    out
}

/// The directories probed for a listing page.
pub open spec fn spec_directory_paths() -> Seq<Seq<char>> {
    seq![
        "/uploads"@,
        "/images"@,
        "/static"@,
        "/assets"@,
        "/backup"@,
        "/tmp"@,
    ]
}

/// Executable form of the `directory_paths` table.
pub fn directory_paths() -> (r: Vec<String>)
    ensures
        r@.len() == 6,
        forall|i: int| 0 <= i < 6 ==> (#[trigger] r@[i])@ == spec_directory_paths()[i],
{
    let mut out: Vec<String> = Vec::new();
    out.push(String::from_str("/uploads"));
    out.push(String::from_str("/images"));
    out.push(String::from_str("/static"));
    out.push(String::from_str("/assets"));
    out.push(String::from_str("/backup"));
    out.push(String::from_str("/tmp"));
    out
}

/// Markers of an enabled directory listing.
pub open spec fn spec_directory_markers() -> Seq<Seq<char>> {
    seq![
        "Index of"@,
        "Directory listing"@,
        "Parent Directory"@,
    ]
}

/// Executable form of the `directory_markers` table.
pub fn directory_markers() -> (r: Vec<String>)
    ensures
        r@.len() == 3,
        forall|i: int| 0 <= i < 3 ==> (#[trigger] r@[i])@ == spec_directory_markers()[i],
{
    let mut out: Vec<String> = Vec::new();
    out.push(String::from_str("Index of"));
    out.push(String::from_str("Directory listing"));
    out.push(String::from_str("Parent Directory"));
    out
}

/// Lower-case body markers of outdated libraries, in table order.
pub open spec fn spec_component_patterns() -> Seq<Seq<char>> {
    seq![
        "jquery-1."@,
        "jquery-2."@,
        "angular.js/1.0"@,
        "angular.js/1.2"@,
        "bootstrap/3."@,
        "wp-content/plugins/"@,
        "lodash@4.17.1"@,
        "moment.js/2.19."@,
    ]
}

/// Executable form of the `component_patterns` table.
pub fn component_patterns() -> (r: Vec<String>)
    ensures
        r@.len() == 8,
        forall|i: int| 0 <= i < 8 ==> (#[trigger] r@[i])@ == spec_component_patterns()[i],
{
    let mut out: Vec<String> = Vec::new();
    out.push(String::from_str("jquery-1."));
    out.push(String::from_str("jquery-2."));
    out.push(String::from_str("angular.js/1.0"));
    out.push(String::from_str("angular.js/1.2"));
    out.push(String::from_str("bootstrap/3."));
    out.push(String::from_str("wp-content/plugins/"));
    out.push(String::from_str("lodash@4.17.1"));
    out.push(String::from_str("moment.js/2.19."));
    out
}

/// The outdated libraries, in table order.
pub open spec fn spec_component_names() -> Seq<Seq<char>> {
    seq![
        "jQuery 1.x"@,
        "jQuery 2.x"@,
        "AngularJS 1.0"@,
        "AngularJS 1.2"@,
        "Bootstrap 3"@,
        "WordPress Plugins"@,
        "Lodash 4.17.1"@,
        "Moment.js 2.19.x"@,
    ]
}

/// Executable form of the `component_names` table.
pub fn component_names() -> (r: Vec<String>)
    ensures
        r@.len() == 8,
        forall|i: int| 0 <= i < 8 ==> (#[trigger] r@[i])@ == spec_component_names()[i],
{
    let mut out: Vec<String> = Vec::new();
    out.push(String::from_str("jQuery 1.x"));
    out.push(String::from_str("jQuery 2.x"));
    out.push(String::from_str("AngularJS 1.0"));
    out.push(String::from_str("AngularJS 1.2"));
    out.push(String::from_str("Bootstrap 3"));
    out.push(String::from_str("WordPress Plugins"));
    out.push(String::from_str("Lodash 4.17.1"));
    out.push(String::from_str("Moment.js 2.19.x"));
    out
}

/// Why each outdated library is flagged, in table order.
pub open spec fn spec_component_issues() -> Seq<Seq<char>> {
    seq![
        "Known XSS vulnerabilities, CVE-2015-9251"@,
        "Known security issues"@,
        "End of life"@,
        "End of life"@,
        "No further security updates"@,
        "Plugin versions need review"@,
        "Known prototype pollution vulnerability"@,
        "Unmaintained; consider a replacement"@,
    ]
}

/// Executable form of the `component_issues` table.
pub fn component_issues() -> (r: Vec<String>)
    ensures
        r@.len() == 8,
        forall|i: int| 0 <= i < 8 ==> (#[trigger] r@[i])@ == spec_component_issues()[i],
{
    let mut out: Vec<String> = Vec::new();
    out.push(String::from_str("Known XSS vulnerabilities, CVE-2015-9251"));
    out.push(String::from_str("Known security issues"));
    out.push(String::from_str("End of life"));
    out.push(String::from_str("End of life"));
    out.push(String::from_str("No further security updates"));
    out.push(String::from_str("Plugin versions need review"));
    out.push(String::from_str("Known prototype pollution vulnerability"));
    out.push(String::from_str("Unmaintained; consider a replacement"));
    out
}

/// The login paths the authentication battery probes.
pub open spec fn spec_login_paths() -> Seq<Seq<char>> {
    seq![
        "/login"@,
        "/signin"@,
        "/auth"@,
        "/user/login"@,
    ]
}

/// Executable form of the `login_paths` table.
pub fn login_paths() -> (r: Vec<String>)
    ensures
        r@.len() == 4,
        forall|i: int| 0 <= i < 4 ==> (#[trigger] r@[i])@ == spec_login_paths()[i],
{
    let mut out: Vec<String> = Vec::new();
    out.push(String::from_str("/login"));
    out.push(String::from_str("/signin"));
    out.push(String::from_str("/auth"));
    out.push(String::from_str("/user/login"));
    out
}

/// Name fragments that mark a cookie as session-like.
pub open spec fn spec_session_markers() -> Seq<Seq<char>> {
    seq![
        "session"@,
        "sess"@,
    ]
}

/// Executable form of the `session_markers` table.
pub fn session_markers() -> (r: Vec<String>)
    ensures
        r@.len() == 2,
        forall|i: int| 0 <= i < 2 ==> (#[trigger] r@[i])@ == spec_session_markers()[i],
{
    let mut out: Vec<String> = Vec::new();
    out.push(String::from_str("session"));
    out.push(String::from_str("sess"));
    out
}

/// Nonexistent or invalid paths probed for verbose error pages.
pub open spec fn spec_error_paths() -> Seq<Seq<char>> {
    seq![
        "/nonexistent-page-12345"@,
        "/?id=99999999"@,
        "/<script>alert(1)</script>"@,
    ]
}

/// Executable form of the `error_paths` table.
pub fn error_paths() -> (r: Vec<String>)
    ensures
        r@.len() == 3,
        forall|i: int| 0 <= i < 3 ==> (#[trigger] r@[i])@ == spec_error_paths()[i],
{
    let mut out: Vec<String> = Vec::new();
    out.push(String::from_str("/nonexistent-page-12345"));
    out.push(String::from_str("/?id=99999999"));
    out.push(String::from_str("/<script>alert(1)</script>"));
    out
}

/// Stack-trace and query markers sought in lower-cased error bodies.
pub open spec fn spec_leak_markers() -> Seq<Seq<char>> {
    seq![
        "stack trace"@,
        "traceback"@,
        "exception"@,
        "line "@,
        "file:"@,
        "at "@,
        "sql"@,
        "query"@,
        "database"@,
    ]
}

/// Executable form of the `leak_markers` table.
pub fn leak_markers() -> (r: Vec<String>)
    ensures
        r@.len() == 9,
        forall|i: int| 0 <= i < 9 ==> (#[trigger] r@[i])@ == spec_leak_markers()[i],
{
    let mut out: Vec<String> = Vec::new();
    out.push(String::from_str("stack trace"));
    out.push(String::from_str("traceback"));
    out.push(String::from_str("exception"));
    out.push(String::from_str("line "));
    out.push(String::from_str("file:"));
    out.push(String::from_str("at "));
    out.push(String::from_str("sql"));
    out.push(String::from_str("query"));
    out.push(String::from_str("database"));
    out
}

/// The parameter names the SSRF battery probes.
pub open spec fn spec_ssrf_params() -> Seq<Seq<char>> {
    seq![
        "url"@,
        "uri"@,
        "path"@,
        "dest"@,
        "redirect"@,
        "fetch"@,
        "file"@,
        "document"@,
    ]
}

/// Executable form of the `ssrf_params` table.
pub fn ssrf_params() -> (r: Vec<String>)
    ensures
        r@.len() == 8,
        forall|i: int| 0 <= i < 8 ==> (#[trigger] r@[i])@ == spec_ssrf_params()[i],
{
    let mut out: Vec<String> = Vec::new();
    out.push(String::from_str("url"));
    out.push(String::from_str("uri"));
    out.push(String::from_str("path"));
    out.push(String::from_str("dest"));
    out.push(String::from_str("redirect"));
    out.push(String::from_str("fetch"));
    out.push(String::from_str("file"));
    out.push(String::from_str("document"));
    out
}

/// The SSRF payloads aimed at loopback and metadata endpoints.
pub open spec fn spec_ssrf_payloads() -> Seq<Seq<char>> {
    seq![
        "http://localhost"@,
        "http://127.0.0.1"@,
        "http://169.254.169.254"@,
        "http://metadata.google.internal"@,
        "http://[::1]"@,
        "file:///etc/passwd"@,
    ]
}

/// Executable form of the `ssrf_payloads` table.
pub fn ssrf_payloads() -> (r: Vec<String>)
    ensures
        r@.len() == 6,
        forall|i: int| 0 <= i < 6 ==> (#[trigger] r@[i])@ == spec_ssrf_payloads()[i],
{
    let mut out: Vec<String> = Vec::new();
    out.push(String::from_str("http://localhost"));
    out.push(String::from_str("http://127.0.0.1"));
    out.push(String::from_str("http://169.254.169.254"));
    out.push(String::from_str("http://metadata.google.internal"));
    out.push(String::from_str("http://[::1]"));
    out.push(String::from_str("file:///etc/passwd"));
    out
}

/// Short names of the SSRF payloads, in payload order.
pub open spec fn spec_ssrf_descs() -> Seq<Seq<char>> {
    seq![
        "Localhost"@,
        "Loopback IP"@,
        "AWS Metadata"@,
        "GCP Metadata"@,
        "IPv6 Loopback"@,
        "File Protocol"@,
    ]
}

/// Executable form of the `ssrf_descs` table.
pub fn ssrf_descs() -> (r: Vec<String>)
    ensures
        r@.len() == 6,
        forall|i: int| 0 <= i < 6 ==> (#[trigger] r@[i])@ == spec_ssrf_descs()[i],
{
    let mut out: Vec<String> = Vec::new();
    out.push(String::from_str("Localhost"));
    out.push(String::from_str("Loopback IP"));
    out.push(String::from_str("AWS Metadata"));
    out.push(String::from_str("GCP Metadata"));
    out.push(String::from_str("IPv6 Loopback"));
    out.push(String::from_str("File Protocol"));
    out
}

/// Internal-resource markers sought in lower-cased SSRF responses.
pub open spec fn spec_ssrf_markers() -> Seq<Seq<char>> {
    seq![
        "root:"@,
        "localhost"@,
        "127.0.0.1"@,
        "ami-id"@,
        "instance-id"@,
        "kube-env"@,
    ]
}

/// Executable form of the `ssrf_markers` table.
pub fn ssrf_markers() -> (r: Vec<String>)
    ensures
        r@.len() == 6,
        forall|i: int| 0 <= i < 6 ==> (#[trigger] r@[i])@ == spec_ssrf_markers()[i],
{
    let mut out: Vec<String> = Vec::new();
    out.push(String::from_str("root:"));
    out.push(String::from_str("localhost"));
    out.push(String::from_str("127.0.0.1"));
    out.push(String::from_str("ami-id"));
    out.push(String::from_str("instance-id"));
    out.push(String::from_str("kube-env"));
    out
}

/// External-domain payloads for the open-redirect probe.
pub open spec fn spec_redirect_payloads() -> Seq<Seq<char>> {
    seq![
        "https://evil.com"@,
        "//evil.com"@,
        "/\\evil.com"@,
    ]
}

/// Executable form of the `redirect_payloads` table.
pub fn redirect_payloads() -> (r: Vec<String>)
    ensures
        r@.len() == 3,
        forall|i: int| 0 <= i < 3 ==> (#[trigger] r@[i])@ == spec_redirect_payloads()[i],
{
    let mut out: Vec<String> = Vec::new();
    out.push(String::from_str("https://evil.com"));
    out.push(String::from_str("//evil.com"));
    out.push(String::from_str("/\\evil.com"));
    out
}

/// The probe sub-batteries that stop at their first matching payload.
#[derive(Debug, Clone, Copy, PartialEq, Eq, Structural)]
pub enum ProbeKind {
    Sql,
    Xss,
    Cmd,
    Ldap,
    Traversal,
    Idor,
    ErrorLeak,
    Ssrf,
}

/// Whether the i-th probe of a battery hit: the request came back and its
/// response carries that battery's vulnerable markers.
pub open spec fn probe_hit(k: ProbeKind, i: int, resp: Option<ProbeResponse>) -> bool {
    resp is Some && {
        let r = resp->0;
        match k {
            ProbeKind::Sql => any_lower_hit(r.body@, spec_sql_markers()),
            ProbeKind::Xss => 0 <= i < 6 && (body_has_exact(r.body@, spec_xss_payloads()[i])
                || body_has_exact(r.body@, spec_xss_alts()[i])),
            ProbeKind::Cmd => any_exact_hit(r.body@, spec_cmd_markers()),
            ProbeKind::Ldap => body_has(r.body@, "ldap"@) || r.status == 500,
            ProbeKind::Traversal => any_exact_hit(r.body@, spec_traversal_markers()),
            ProbeKind::Idor => 200 <= r.status < 300 && any_exact_hit(
                r.body@,
                spec_idor_markers(),
            ),
            ProbeKind::ErrorLeak => any_lower_hit(r.body@, spec_leak_markers()),
            ProbeKind::Ssrf => any_lower_hit(r.body@, spec_ssrf_markers()),
        }
    }
}

/// Index of the first hit at or after position i.
pub open spec fn first_hit_from(k: ProbeKind, s: Seq<Option<ProbeResponse>>, i: int) -> Option<
    int,
>
    decreases s.len() - i,
{
    if i < 0 || i >= s.len() {
        None
    } else if probe_hit(k, i, s[i]) {
        Some(i)
    } else {
        first_hit_from(k, s, i + 1)
    }
}

/// Index of the first probe of the battery that hit, if any. The batteries
/// stop probing at their first hit, so only this index yields a finding.
pub open spec fn first_hit(k: ProbeKind, s: Seq<Option<ProbeResponse>>) -> Option<int> {
    first_hit_from(k, s, 0)
}

/// Executable probe-hit check.
fn probe_hit_exec(k: ProbeKind, i: usize, resp: &Option<ProbeResponse>) -> (r: bool)
    requires
        k == ProbeKind::Xss ==> i < 6,
    ensures
        r == probe_hit(k, i as int, *resp),
{
    match resp {
        None => false,
        Some(p) => {
            match k {
                ProbeKind::Sql => {
                    let t = sql_markers();
                    body_any_lower(p.body.as_str(), &t, Ghost(spec_sql_markers()))
                },
                ProbeKind::Xss => {
                    let pays = xss_payloads();
                    let alts = xss_alts();
                    str_contains(p.body.as_str(), pays[i].as_str()) || str_contains(
                        p.body.as_str(),
                        alts[i].as_str(),
                    )
                },
                ProbeKind::Cmd => {
                    let t = cmd_markers();
                    body_any_exact(p.body.as_str(), &t, Ghost(spec_cmd_markers()))
                },
                ProbeKind::Ldap => str_contains_lower(p.body.as_str(), "ldap") || p.status == 500,
                ProbeKind::Traversal => {
                    let t = traversal_markers();
                    body_any_exact(p.body.as_str(), &t, Ghost(spec_traversal_markers()))
                },
                ProbeKind::Idor => {
                    if 200 <= p.status && p.status < 300 {
                        let t = idor_markers();
                        body_any_exact(p.body.as_str(), &t, Ghost(spec_idor_markers()))
                    } else {
                        false
                    }
                },
                ProbeKind::ErrorLeak => {
                    let t = leak_markers();
                    body_any_lower(p.body.as_str(), &t, Ghost(spec_leak_markers()))
                },
                ProbeKind::Ssrf => {
                    let t = ssrf_markers();
                    body_any_lower(p.body.as_str(), &t, Ghost(spec_ssrf_markers()))
                },
            }
        },
    }
}

/// Scan a battery's observations for the first hit.
fn first_probe_hit(k: ProbeKind, probes: &Vec<Option<ProbeResponse>>) -> (r: Option<usize>)
    requires
        k == ProbeKind::Xss ==> probes@.len() <= 6,
    ensures
        match r {
            Some(i) => i < probes@.len() && first_hit(k, probes@) == Some(i as int),
            None => first_hit(k, probes@) is None,
        },
{
    let n = probes.len();
    let mut i: usize = 0;
    while i < n
        invariant
            n == probes@.len(),
            i <= n,
            k == ProbeKind::Xss ==> n <= 6,
            first_hit(k, probes@) == first_hit_from(k, probes@, i as int),
        decreases n - i,
    {
        if probe_hit_exec(k, i, &probes[i]) {
            return Some(i);
        }
        i = i + 1;
    }
    None
}

/// Description of an accessible admin path.
pub open spec fn spec_admin_desc() -> Seq<char> {
    "An administrative interface is reachable; restrict it with strong authentication, an allow list, or an unpredictable path"@
}

/// The expected admin-path findings: paths answering 200 are High, paths
/// answering 403 are Medium, in path order.
pub open spec fn spec_admin_expected(statuses: Seq<Option<u16>>) -> Seq<
    (Severity, Seq<char>, Seq<char>, Seq<char>),
>
    decreases statuses.len(),
{
    if statuses.len() == 0 {
        Seq::empty()
    } else {
        let i = statuses.len() - 1;
        spec_admin_expected(statuses.drop_last()) + (match statuses.last() {
            Some(st) => {
                if st == 200 {
                    entry(
                        true,
                        Severity::High,
                        "Admin path found: "@ + spec_admin_paths()[i],
                        spec_admin_desc(),
                        "A01 admin path "@ + spec_admin_paths()[i] + " answered HTTP 200"@,
                    )
                } else if st == 403 {
                    entry(
                        true,
                        Severity::Medium,
                        "Admin path found: "@ + spec_admin_paths()[i],
                        spec_admin_desc(),
                        "A01 admin path "@ + spec_admin_paths()[i] + " answered HTTP 403"@,
                    )
                } else {
                    Seq::empty()
                }
            },
            None => Seq::empty(),
        })
    }
}

/// The expected A01 findings: admin paths, then the first IDOR hit, then the
/// first path-traversal hit.
pub open spec fn spec_a01_expected(
    admin_statuses: Seq<Option<u16>>,
    idor: Seq<Option<ProbeResponse>>,
    traversal: Seq<Option<ProbeResponse>>,
) -> Seq<(Severity, Seq<char>, Seq<char>, Seq<char>)> {
    spec_admin_expected(admin_statuses) + (match first_hit(ProbeKind::Idor, idor) {
        Some(i) => entry(
            true,
            Severity::High,
            "Potential IDOR via parameter probe: "@ + spec_idor_patterns()[i],
            "An object id parameter returns user data; enforce per-object authorization"@,
            "A01 query pattern "@ + spec_idor_patterns()[i],
        ),
        None => Seq::empty(),
    }) + (match first_hit(ProbeKind::Traversal, traversal) {
        Some(i) => entry(
            true,
            Severity::Critical,
            "Path traversal vulnerability"@,
            "A file parameter reads system files; canonicalize and validate file paths"@,
            "A01 payload "@ + spec_traversal_payloads()[i],
        ),
        None => Seq::empty(),
    })
}

/// A01 Broken Access Control: admin-path exposure, IDOR probing and path
/// traversal. `admin_statuses`, `idor` and `traversal` hold one observation
/// per table entry, in table order (shorter when probing stopped early);
/// `None` marks a failed request.
pub fn a01_broken_access_control(
    task_id: &str,
    admin_statuses: &Vec<Option<u16>>,
    idor: &Vec<Option<ProbeResponse>>,
    traversal: &Vec<Option<ProbeResponse>>,
    now: i64,
) -> (r: Vec<ScanResult>)
    requires
        admin_statuses@.len() <= 12,
        idor@.len() <= 4,
        traversal@.len() <= 3,
    ensures
        findings_match(
            r@,
            task_id@,
            spec_a01_expected(admin_statuses@, idor@, traversal@),
            now,
        ),
{
    let paths = admin_paths();
    let mut out: Vec<ScanResult> = Vec::new();
    let mut i: usize = 0;
    proof {
        assert(admin_statuses@.subrange(0, 0) =~= Seq::<Option<u16>>::empty());
    }
    while i < admin_statuses.len()
        invariant
            admin_statuses@.len() <= 12,
            paths@.len() == 12,
            forall|k: int| 0 <= k < 12 ==> (#[trigger] paths@[k])@ == spec_admin_paths()[k],
            i <= admin_statuses@.len(),
            findings_match(
                out@,
                task_id@,
                spec_admin_expected(admin_statuses@.subrange(0, i as int)),
                now,
            ),
        decreases admin_statuses@.len() - i,
    {
        proof {
            let pre = admin_statuses@.subrange(0, i + 1 as int);
            assert(pre.drop_last() =~= admin_statuses@.subrange(0, i as int));
            assert(pre.last() == admin_statuses@[i as int]);
        }
        match admin_statuses[i] {
            Some(st) => {
                if st == 200 {
                    push_finding(
                        &mut out,
                        task_id,
                        Severity::High,
                        title_with("Admin path found: ", paths[i].as_str()),
                        "An administrative interface is reachable; restrict it with strong authentication, an allow list, or an unpredictable path",
                        text_with3("A01 admin path ", paths[i].as_str(), " answered HTTP 200"),
                        now,
                    );
                } else if st == 403 {
                    push_finding(
                        &mut out,
                        task_id,
                        Severity::Medium,
                        title_with("Admin path found: ", paths[i].as_str()),
                        "An administrative interface is reachable; restrict it with strong authentication, an allow list, or an unpredictable path",
                        text_with3("A01 admin path ", paths[i].as_str(), " answered HTTP 403"),
                        now,
                    );
                }
            },
            None => {},
        }
        i = i + 1;
    }
    proof {
        assert(admin_statuses@.subrange(0, admin_statuses@.len() as int) =~= admin_statuses@);
    }
    let idor_names = idor_patterns();
    match first_probe_hit(ProbeKind::Idor, idor) {
        Some(i) => {
            push_finding(
                &mut out,
                task_id,
                Severity::High,
                title_with("Potential IDOR via parameter probe: ", idor_names[i].as_str()),
                "An object id parameter returns user data; enforce per-object authorization",
                title_with("A01 query pattern ", idor_names[i].as_str()),
                now,
            );
        },
        None => {},
    }
    let traversal_names = traversal_payloads();
    match first_probe_hit(ProbeKind::Traversal, traversal) {
        Some(i) => {
            push_finding(
                &mut out,
                task_id,
                Severity::Critical,
                String::from_str("Path traversal vulnerability"),
                "A file parameter reads system files; canonicalize and validate file paths",
                title_with("A01 payload ", traversal_names[i].as_str()),
                now,
            );
        },
        None => {},
    }
    out
}

/// Description texts of the A02 findings.
pub open spec fn spec_no_https_desc() -> Seq<char> {
    "Traffic is not encrypted; credentials and personal data can be intercepted. Enable HTTPS and redirect to it"@
}

/// The expected disclosed-secret findings for the first n patterns, in
/// pattern order; a pattern that does not compile yields nothing.
pub open spec fn spec_secret_expected(body: Seq<char>, n: int) -> Seq<
    (Severity, Seq<char>, Seq<char>, Seq<char>),
>
    decreases n,
{
    if n <= 0 {
        Seq::empty()
    } else {
        spec_secret_expected(body, n - 1) + entry(
            regex_valid_of(spec_secret_patterns()[n - 1]) && regex_match_of(
                spec_secret_patterns()[n - 1],
                body,
            ),
            Severity::Critical,
            "Source discloses "@ + spec_secret_names()[n - 1],
            "The page source embeds a credential; remove it and rotate the exposed secret"@,
            "A02 pattern "@ + spec_secret_patterns()[n - 1],
        )
    }
}

/// Evidence text of the redirect check: the Location header the plain-HTTP
/// probe answered with, if any.
pub open spec fn spec_redirect_evidence(loc: Option<String>) -> Seq<char> {
    match loc {
        Some(l) => "A02 Location "@ + l@,
        None => "A02 no Location header"@,
    }
}

/// The expected A02 findings: plain-HTTP transport, a missing HTTP-to-HTTPS
/// redirect, disclosed secrets in the page source, and a password input left
/// open to autocompletion.
pub open spec fn spec_a02_expected(
    target: Seq<char>,
    redirect_location: Option<Option<String>>,
    page_body: Option<String>,
) -> Seq<(Severity, Seq<char>, Seq<char>, Seq<char>)> {
    entry(
        !match_at(bytes_of(target), bytes_of("https://"@), 0),
        Severity::High,
        "No HTTPS encryption in use"@,
        spec_no_https_desc(),
        "A02 target "@ + target,
    ) + (if match_at(bytes_of(target), bytes_of("https://"@), 0) {
        match redirect_location {
            Some(loc) => entry(
                !(loc is Some && match_at(bytes_of(loc->0@), bytes_of("https://"@), 0)),
                Severity::Medium,
                "HTTP does not redirect to HTTPS"@,
                "Plain-HTTP requests are not redirected to HTTPS; users can browse unencrypted"@,
                spec_redirect_evidence(loc),
            ),
            None => Seq::empty(),
        }
    } else {
        Seq::empty()
    }) + (match page_body {
        Some(b) => spec_secret_expected(b@, 7) + entry(
            body_has_exact(b@, "type=\"password\""@) && !body_has_exact(
                b@,
                "autocomplete=\"off\""@,
            ),
            Severity::Low,
            "Password input allows autocompletion"@,
            "The password field does not disable autocompletion; the browser may cache the password"@,
            "A02 password input without autocomplete=off"@,
        ),
        None => Seq::empty(),
    })
}

/// A02 Cryptographic Failures: transport encryption, redirect behaviour and
/// secrets disclosed in the page source. `redirect_location` is the Location
/// header of the plain-HTTP probe (outer `None`: the request failed or was
/// not made); `page_body` is the fetched page (`None`: the request failed).
pub fn a02_cryptographic_failures(
    task_id: &str,
    target: &str,
    redirect_location: &Option<Option<String>>,
    page_body: &Option<String>,
    now: i64,
) -> (r: Vec<ScanResult>)
    ensures
        findings_match(
            r@,
            task_id@,
            spec_a02_expected(target@, *redirect_location, *page_body),
            now,
        ),
{
    let mut out: Vec<ScanResult> = Vec::new();
    let ghost mut done: Seq<(Severity, Seq<char>, Seq<char>, Seq<char>)> = Seq::empty();
    let https = str_starts_with(target, "https://");
    if !https {
        push_finding(
            &mut out,
            task_id,
            Severity::High,
            String::from_str("No HTTPS encryption in use"),
            "Traffic is not encrypted; credentials and personal data can be intercepted. Enable HTTPS and redirect to it",
            title_with("A02 target ", target),
            now,
        );
    }
    proof {
        done = done + entry(
            !match_at(bytes_of(target@), bytes_of("https://"@), 0),
            Severity::High,
            "No HTTPS encryption in use"@,
            spec_no_https_desc(),
            "A02 target "@ + target@,
        );
        assert(findings_match(out@, task_id@, done, now));
    }
    if https {
        match redirect_location {
            Some(loc) => {
                let redirected = match loc {
                    Some(l) => str_starts_with(l.as_str(), "https://"),
                    None => false,
                };
                if !redirected {
                    let evidence = match loc {
                        Some(l) => title_with("A02 Location ", l.as_str()),
                        None => String::from_str("A02 no Location header"),
                    };
                    push_finding(
                        &mut out,
                        task_id,
                        Severity::Medium,
                        String::from_str("HTTP does not redirect to HTTPS"),
                        "Plain-HTTP requests are not redirected to HTTPS; users can browse unencrypted",
                        evidence,
                        now,
                    );
                }
            },
            None => {},
        }
    }
    proof {
        done = done + (if match_at(bytes_of(target@), bytes_of("https://"@), 0) {
            match redirect_location {
                Some(loc) => entry(
                    !(loc is Some && match_at(bytes_of(loc->0@), bytes_of("https://"@), 0)),
                    Severity::Medium,
                    "HTTP does not redirect to HTTPS"@,
                    "Plain-HTTP requests are not redirected to HTTPS; users can browse unencrypted"@,
                    spec_redirect_evidence(*loc),
                ),
                None => Seq::<(Severity, Seq<char>, Seq<char>, Seq<char>)>::empty(),
            }
        } else {
            Seq::<(Severity, Seq<char>, Seq<char>, Seq<char>)>::empty()
        });
        assert(findings_match(out@, task_id@, done, now));
    }
    match page_body {
        Some(b) => {
            let patterns = secret_patterns();
            let names = secret_names();
            let mut i: usize = 0;
            let ghost base = done;
            while i < 7
                invariant
                    patterns@.len() == 7,
                    names@.len() == 7,
                    forall|k: int|
                        0 <= k < 7 ==> (#[trigger] patterns@[k])@ == spec_secret_patterns()[k],
                    forall|k: int|
                        0 <= k < 7 ==> (#[trigger] names@[k])@ == spec_secret_names()[k],
                    i <= 7,
                    findings_match(
                        out@,
                        task_id@,
                        base + spec_secret_expected(b@, i as int),
                        now,
                    ),
                decreases 7 - i,
            {
                let hit = match crate::outside::regex_is_match(
                    patterns[i].as_str(),
                    b.as_str(),
                ) {
                    Some(m) => m,
                    None => false,
                };
                if hit {
                    push_finding(
                        &mut out,
                        task_id,
                        Severity::Critical,
                        title_with("Source discloses ", names[i].as_str()),
                        "The page source embeds a credential; remove it and rotate the exposed secret",
                        title_with("A02 pattern ", patterns[i].as_str()),
                        now,
                    );
                }
                i = i + 1;
            }
            proof {
                done = base + spec_secret_expected(b@, 7);
            }
            let exposed = str_contains(b.as_str(), "type=\"password\"") && !str_contains(
                b.as_str(),
                "autocomplete=\"off\"",
            );
            if exposed {
                push_finding(
                    &mut out,
                    task_id,
                    Severity::Low,
                    String::from_str("Password input allows autocompletion"),
                    "The password field does not disable autocompletion; the browser may cache the password",
                    String::from_str("A02 password input without autocomplete=off"),
                    now,
                );
            }
            proof {
                done = done + entry(
                    body_has_exact(b@, "type=\"password\""@) && !body_has_exact(
                        b@,
                        "autocomplete=\"off\""@,
                    ),
                    Severity::Low,
                    "Password input allows autocompletion"@,
                    "The password field does not disable autocompletion; the browser may cache the password"@,
                    "A02 password input without autocomplete=off"@,
                );
                assert(findings_match(out@, task_id@, done, now));
            }
        },
        None => {},
    }
    proof {
        assert(done =~= spec_a02_expected(target@, *redirect_location, *page_body));
    }
    out
}

/// The expected A03 findings: the first hit of each injection sub-battery,
/// in sub-battery order (SQL, XSS, command, LDAP).
pub open spec fn spec_a03_expected(
    sql: Seq<Option<ProbeResponse>>,
    xss: Seq<Option<ProbeResponse>>,
    cmd: Seq<Option<ProbeResponse>>,
    ldap: Seq<Option<ProbeResponse>>,
) -> Seq<(Severity, Seq<char>, Seq<char>, Seq<char>)> {
    (match first_hit(ProbeKind::Sql, sql) {
        Some(i) => entry(
            true,
            Severity::Critical,
            "SQL injection: "@ + spec_sql_descs()[i],
            "A payload triggered a database error message; use parameterized queries and input validation"@,
            "A03 payload "@ + spec_sql_payloads()[i],
        ),
        None => Seq::empty(),
    }) + (match first_hit(ProbeKind::Xss, xss) {
        Some(i) => entry(
            true,
            Severity::High,
            "Cross-site scripting (XSS): "@ + spec_xss_descs()[i],
            "Input is reflected into HTML without encoding; encode output and set a CSP"@,
            "A03 payload "@ + spec_xss_payloads()[i],
        ),
        None => Seq::empty(),
    }) + (match first_hit(ProbeKind::Cmd, cmd) {
        Some(i) => entry(
            true,
            Severity::Critical,
            "Command injection: "@ + spec_cmd_descs()[i],
            "A payload appears to reach a shell; avoid system calls and validate against an allow list"@,
            "A03 payload "@ + spec_cmd_payloads()[i],
        ),
        None => Seq::empty(),
    }) + (match first_hit(ProbeKind::Ldap, ldap) {
        Some(i) => entry(
            true,
            Severity::High,
            "Potential LDAP injection: "@ + spec_ldap_descs()[i],
            "Directory queries may be injectable; escape LDAP filter metacharacters"@,
            "A03 payload "@ + spec_ldap_payloads()[i],
        ),
        None => Seq::empty(),
    })
}

/// A03 Injection: SQL, reflected XSS, OS command and LDAP probes, each over
/// its fixed payload list; the first matching payload of each sub-battery
/// yields one finding.
pub fn a03_injection(
    task_id: &str,
    sql: &Vec<Option<ProbeResponse>>,
    xss: &Vec<Option<ProbeResponse>>,
    cmd: &Vec<Option<ProbeResponse>>,
    ldap: &Vec<Option<ProbeResponse>>,
    now: i64,
) -> (r: Vec<ScanResult>)
    requires
        sql@.len() <= 7,
        xss@.len() <= 6,
        cmd@.len() <= 6,
        ldap@.len() <= 3,
    ensures
        findings_match(r@, task_id@, spec_a03_expected(sql@, xss@, cmd@, ldap@), now),
{
    let mut out: Vec<ScanResult> = Vec::new();
    let ghost mut done: Seq<(Severity, Seq<char>, Seq<char>, Seq<char>)> = Seq::empty();
    let sql_names = sql_descs();
    let sql_pay = sql_payloads();
    match first_probe_hit(ProbeKind::Sql, sql) {
        Some(i) => {
            push_finding(
                &mut out,
                task_id,
                Severity::Critical,
                title_with("SQL injection: ", sql_names[i].as_str()),
                "A payload triggered a database error message; use parameterized queries and input validation",
                title_with("A03 payload ", sql_pay[i].as_str()),
                now,
            );
        },
        None => {},
    }
    proof {
        done = done + (match first_hit(ProbeKind::Sql, sql@) {
            Some(i) => entry(
                true,
                Severity::Critical,
                "SQL injection: "@ + spec_sql_descs()[i],
                "A payload triggered a database error message; use parameterized queries and input validation"@,
                "A03 payload "@ + spec_sql_payloads()[i],
            ),
            None => Seq::<(Severity, Seq<char>, Seq<char>, Seq<char>)>::empty(),
        });
        assert(findings_match(out@, task_id@, done, now));
    }
    let xss_names = xss_descs();
    let xss_pay = xss_payloads();
    match first_probe_hit(ProbeKind::Xss, xss) {
        Some(i) => {
            push_finding(
                &mut out,
                task_id,
                Severity::High,
                title_with("Cross-site scripting (XSS): ", xss_names[i].as_str()),
                "Input is reflected into HTML without encoding; encode output and set a CSP",
                title_with("A03 payload ", xss_pay[i].as_str()),
                now,
            );
        },
        None => {},
    }
    proof {
        done = done + (match first_hit(ProbeKind::Xss, xss@) {
            Some(i) => entry(
                true,
                Severity::High,
                "Cross-site scripting (XSS): "@ + spec_xss_descs()[i],
                "Input is reflected into HTML without encoding; encode output and set a CSP"@,
                "A03 payload "@ + spec_xss_payloads()[i],
            ),
            None => Seq::<(Severity, Seq<char>, Seq<char>, Seq<char>)>::empty(),
        });
        assert(findings_match(out@, task_id@, done, now));
    }
    let cmd_names = cmd_descs();
    let cmd_pay = cmd_payloads();
    match first_probe_hit(ProbeKind::Cmd, cmd) {
        Some(i) => {
            push_finding(
                &mut out,
                task_id,
                Severity::Critical,
                title_with("Command injection: ", cmd_names[i].as_str()),
                "A payload appears to reach a shell; avoid system calls and validate against an allow list",
                title_with("A03 payload ", cmd_pay[i].as_str()),
                now,
            );
        },
        None => {},
    }
    proof {
        done = done + (match first_hit(ProbeKind::Cmd, cmd@) {
            Some(i) => entry(
                true,
                Severity::Critical,
                "Command injection: "@ + spec_cmd_descs()[i],
                "A payload appears to reach a shell; avoid system calls and validate against an allow list"@,
                "A03 payload "@ + spec_cmd_payloads()[i],
            ),
            None => Seq::<(Severity, Seq<char>, Seq<char>, Seq<char>)>::empty(),
        });
        assert(findings_match(out@, task_id@, done, now));
    }
    let ldap_names = ldap_descs();
    let ldap_pay = ldap_payloads();
    match first_probe_hit(ProbeKind::Ldap, ldap) {
        Some(i) => {
            push_finding(
                &mut out,
                task_id,
                Severity::High,
                title_with("Potential LDAP injection: ", ldap_names[i].as_str()),
                "Directory queries may be injectable; escape LDAP filter metacharacters",
                title_with("A03 payload ", ldap_pay[i].as_str()),
                now,
            );
        },
        None => {},
    }
    proof {
        done = done + (match first_hit(ProbeKind::Ldap, ldap@) {
            Some(i) => entry(
                true,
                Severity::High,
                "Potential LDAP injection: "@ + spec_ldap_descs()[i],
                "Directory queries may be injectable; escape LDAP filter metacharacters"@,
                "A03 payload "@ + spec_ldap_payloads()[i],
            ),
            None => Seq::<(Severity, Seq<char>, Seq<char>, Seq<char>)>::empty(),
        });
        assert(findings_match(out@, task_id@, done, now));
        assert(done =~= spec_a03_expected(sql@, xss@, cmd@, ldap@));
    }
    out
}

/// A04 Insecure Design expected findings: ten rapid probes all succeeding
/// marks missing rate limiting; distinct login-failure messages mark user
/// enumeration. Nothing is reported when the page could not be fetched.
pub open spec fn spec_a04_expected(main_body: Option<String>, success_count: u8) -> Seq<
    (Severity, Seq<char>, Seq<char>, Seq<char>),
> {
    match main_body {
        Some(b) => entry(
            success_count == 10,
            Severity::Medium,
            "No rate limiting detected"@,
            "Ten rapid requests all succeeded; add request rate limits to resist brute force"@,
            "A04 ten rapid identical requests all succeeded"@,
        ) + entry(
            any_exact_hit(b@, spec_enumeration_markers()),
            Severity::Medium,
            "User enumeration possible"@,
            "Login failures distinguish unknown users from wrong passwords; use one uniform message"@,
            "A04 distinct login-failure messages in the page body"@,
        ),
        None => Seq::empty(),
    }
}

/// A04 Insecure Design: rate-limiting and user-enumeration checks.
/// `success_count` counts how many of ten rapid identical requests
/// succeeded.
pub fn a04_insecure_design(
    task_id: &str,
    main_body: &Option<String>,
    success_count: u8,
    now: i64,
) -> (r: Vec<ScanResult>)
    ensures
        findings_match(r@, task_id@, spec_a04_expected(*main_body, success_count), now),
{
    let mut out: Vec<ScanResult> = Vec::new();
    match main_body {
        Some(b) => {
            if success_count == 10 {
                push_finding(
                    &mut out,
                    task_id,
                    Severity::Medium,
                    String::from_str("No rate limiting detected"),
                    "Ten rapid requests all succeeded; add request rate limits to resist brute force",
                    String::from_str("A04 ten rapid identical requests all succeeded"),
                    now,
                );
            }
            let markers = enumeration_markers();
            if body_any_exact(b.as_str(), &markers, Ghost(spec_enumeration_markers())) {
                push_finding(
                    &mut out,
                    task_id,
                    Severity::Medium,
                    String::from_str("User enumeration possible"),
                    "Login failures distinguish unknown users from wrong passwords; use one uniform message",
                    String::from_str("A04 distinct login-failure messages in the page body"),
                    now,
                );
            }
        },
        None => {},
    }
    out
}

/// Severity of each sensitive file, in path order.
pub open spec fn spec_file_severities() -> Seq<Severity> {
    seq![
        Severity::Critical,
        Severity::Critical,
        Severity::High,
        Severity::High,
        Severity::Medium,
        Severity::High,
        Severity::High,
        Severity::Critical,
        Severity::Critical,
        Severity::Low,
        Severity::Info,
        Severity::Info,
    ]
}

/// Executable form of the sensitive-file severity table.
pub fn file_severities() -> (r: Vec<Severity>)
    ensures
        r@.len() == 12,
        forall|i: int| 0 <= i < 12 ==> #[trigger] r@[i] == spec_file_severities()[i],
{
    let mut out: Vec<Severity> = Vec::new();
    out.push(Severity::Critical);
    out.push(Severity::Critical);
    out.push(Severity::High);
    out.push(Severity::High);
    out.push(Severity::Medium);
    out.push(Severity::High);
    out.push(Severity::High);
    out.push(Severity::Critical);
    out.push(Severity::Critical);
    out.push(Severity::Low);
    out.push(Severity::Info);
    out.push(Severity::Info);
    out
}

/// The expected accessible-sensitive-file findings, in path order: one per
/// file whose probe succeeded, at that file's preset severity.
pub open spec fn spec_files_expected(statuses: Seq<Option<u16>>) -> Seq<
    (Severity, Seq<char>, Seq<char>, Seq<char>),
>
    decreases statuses.len(),
{
    if statuses.len() == 0 {
        Seq::empty()
    } else {
        let i = statuses.len() - 1;
        spec_files_expected(statuses.drop_last()) + (match statuses.last() {
            Some(st) => entry(
                200 <= st < 300,
                spec_file_severities()[i],
                "Accessible sensitive file: "@ + spec_sensitive_file_names()[i],
                "A configuration or backup file is publicly readable; block access to it"@,
                "A05 path "@ + spec_sensitive_files()[i],
            ),
            None => Seq::empty(),
        })
    }
}

/// The expected directory-listing findings, in directory order.
pub open spec fn spec_dirs_expected(probes: Seq<Option<ProbeResponse>>) -> Seq<
    (Severity, Seq<char>, Seq<char>, Seq<char>),
>
    decreases probes.len(),
{
    if probes.len() == 0 {
        Seq::empty()
    } else {
        let i = probes.len() - 1;
        spec_dirs_expected(probes.drop_last()) + (match probes.last() {
            Some(p) => entry(
                any_exact_hit(p.body@, spec_directory_markers()),
                Severity::Medium,
                "Directory listing found: "@ + spec_directory_paths()[i],
                "Directory listing is enabled; it discloses file names and structure"@,
                "A05 path "@ + spec_directory_paths()[i],
            ),
            None => Seq::empty(),
        })
    }
}

/// The expected missing-header findings of the misconfiguration battery.
pub open spec fn spec_misconfig_headers_expected(hs: Option<Vec<(String, String)>>) -> Seq<
    (Severity, Seq<char>, Seq<char>, Seq<char>),
> {
    match hs {
        Some(h) => entry(
            crate::headers::spec_lookup(h@, bytes_of("strict-transport-security"@)) is None,
            Severity::Medium,
            "Missing Strict-Transport-Security header"@,
            "Without HSTS the browser may fall back to plain HTTP; add the header"@,
            "A05 header strict-transport-security absent"@,
        ) + entry(
            crate::headers::spec_lookup(h@, bytes_of("x-frame-options"@)) is None
                && crate::headers::spec_lookup(h@, bytes_of("content-security-policy"@)) is None,
            Severity::Medium,
            "Missing clickjacking protection"@,
            "Neither X-Frame-Options nor a CSP frame-ancestors directive is set"@,
            "A05 headers x-frame-options and content-security-policy absent"@,
        ) + entry(
            crate::headers::spec_lookup(h@, bytes_of("content-security-policy"@)) is None,
            Severity::Low,
            "Missing Content-Security-Policy header"@,
            "Without a CSP the site cannot mitigate script and data injection"@,
            "A05 header content-security-policy absent"@,
        ),
        None => Seq::empty(),
    }
}

/// The expected A05 findings: sensitive files, directory listings, then
/// missing security headers.
pub open spec fn spec_a05_expected(
    file_statuses: Seq<Option<u16>>,
    dirs: Seq<Option<ProbeResponse>>,
    hs: Option<Vec<(String, String)>>,
) -> Seq<(Severity, Seq<char>, Seq<char>, Seq<char>)> {
    spec_files_expected(file_statuses) + spec_dirs_expected(dirs)
        + spec_misconfig_headers_expected(hs)
}

/// A05 Security Misconfiguration: sensitive-file exposure, directory
/// listings and missing security headers. Observations come one per table
/// entry, in table order; `None` marks a failed request. `main_headers` are
/// the response headers of the base page (`None`: that request failed).
pub fn a05_security_misconfiguration(
    task_id: &str,
    file_statuses: &Vec<Option<u16>>,
    dirs: &Vec<Option<ProbeResponse>>,
    main_headers: &Option<Vec<(String, String)>>,
    now: i64,
) -> (r: Vec<ScanResult>)
    requires
        file_statuses@.len() <= 12,
        dirs@.len() <= 6,
    ensures
        findings_match(
            r@,
            task_id@,
            spec_a05_expected(file_statuses@, dirs@, *main_headers),
            now,
        ),
{
    let file_names = sensitive_file_names();
    let file_paths = sensitive_files();
    let severities = file_severities();
    let mut out: Vec<ScanResult> = Vec::new();
    let mut i: usize = 0;
    proof {
        assert(file_statuses@.subrange(0, 0) =~= Seq::<Option<u16>>::empty());
    }
    while i < file_statuses.len()
        invariant
            file_statuses@.len() <= 12,
            file_names@.len() == 12,
            file_paths@.len() == 12,
            severities@.len() == 12,
            forall|k: int|
                0 <= k < 12 ==> (#[trigger] file_names@[k])@ == spec_sensitive_file_names()[k],
            forall|k: int|
                0 <= k < 12 ==> (#[trigger] file_paths@[k])@ == spec_sensitive_files()[k],
            forall|k: int| 0 <= k < 12 ==> #[trigger] severities@[k] == spec_file_severities()[k],
            i <= file_statuses@.len(),
            findings_match(
                out@,
                task_id@,
                spec_files_expected(file_statuses@.subrange(0, i as int)),
                now,
            ),
        decreases file_statuses@.len() - i,
    {
        proof {
            let pre = file_statuses@.subrange(0, i + 1 as int);
            assert(pre.drop_last() =~= file_statuses@.subrange(0, i as int));
            assert(pre.last() == file_statuses@[i as int]);
        }
        match file_statuses[i] {
            Some(st) => {
                if 200 <= st && st < 300 {
                    push_finding(
                        &mut out,
                        task_id,
                        severities[i],
                        title_with("Accessible sensitive file: ", file_names[i].as_str()),
                        "A configuration or backup file is publicly readable; block access to it",
                        title_with("A05 path ", file_paths[i].as_str()),
                        now,
                    );
                }
            },
            None => {},
        }
        i = i + 1;
    }
    proof {
        assert(file_statuses@.subrange(0, file_statuses@.len() as int) =~= file_statuses@);
    }
    let dir_names = directory_paths();
    let dir_marks = directory_markers();
    let ghost files_done = spec_files_expected(file_statuses@);
    let mut j: usize = 0;
    proof {
        assert(dirs@.subrange(0, 0) =~= Seq::<Option<ProbeResponse>>::empty());
    }
    while j < dirs.len()
        invariant
            dirs@.len() <= 6,
            dir_names@.len() == 6,
            dir_marks@.len() == 3,
            forall|k: int|
                0 <= k < 6 ==> (#[trigger] dir_names@[k])@ == spec_directory_paths()[k],
            forall|k: int|
                0 <= k < 3 ==> (#[trigger] dir_marks@[k])@ == spec_directory_markers()[k],
            j <= dirs@.len(),
            findings_match(
                out@,
                task_id@,
                files_done + spec_dirs_expected(dirs@.subrange(0, j as int)),
                now,
            ),
        decreases dirs@.len() - j,
    {
        proof {
            let pre = dirs@.subrange(0, j + 1 as int);
            assert(pre.drop_last() =~= dirs@.subrange(0, j as int));
            assert(pre.last() == dirs@[j as int]);
        }
        match &dirs[j] {
            Some(p) => {
                if body_any_exact(p.body.as_str(), &dir_marks, Ghost(spec_directory_markers())) {
                    push_finding(
                        &mut out,
                        task_id,
                        Severity::Medium,
                        title_with("Directory listing found: ", dir_names[j].as_str()),
                        "Directory listing is enabled; it discloses file names and structure",
                        title_with("A05 path ", dir_names[j].as_str()),
                        now,
                    );
                }
            },
            None => {},
        }
        j = j + 1;
    }
    proof {
        assert(dirs@.subrange(0, dirs@.len() as int) =~= dirs@);
    }
    let ghost dirs_done = files_done + spec_dirs_expected(dirs@);
    match main_headers {
        Some(h) => {
            if crate::headers::lookup_header(h, "strict-transport-security").is_none() {
                push_finding(
                    &mut out,
                    task_id,
                    Severity::Medium,
                    String::from_str("Missing Strict-Transport-Security header"),
                    "Without HSTS the browser may fall back to plain HTTP; add the header",
                    String::from_str("A05 header strict-transport-security absent"),
                    now,
                );
            }
            let no_xfo = crate::headers::lookup_header(h, "x-frame-options").is_none();
            let no_csp = crate::headers::lookup_header(h, "content-security-policy").is_none();
            if no_xfo && no_csp {
                push_finding(
                    &mut out,
                    task_id,
                    Severity::Medium,
                    String::from_str("Missing clickjacking protection"),
                    "Neither X-Frame-Options nor a CSP frame-ancestors directive is set",
                    String::from_str("A05 headers x-frame-options and content-security-policy absent"),
                    now,
                );
            }
            if no_csp {
                push_finding(
                    &mut out,
                    task_id,
                    Severity::Low,
                    String::from_str("Missing Content-Security-Policy header"),
                    "Without a CSP the site cannot mitigate script and data injection",
                    String::from_str("A05 header content-security-policy absent"),
                    now,
                );
            }
        },
        None => {},
    }
    proof {
        assert(findings_match(
            out@,
            task_id@,
            dirs_done + spec_misconfig_headers_expected(*main_headers),
            now,
        ));
    }
    out
}

/// Severity of each outdated-component signature, in table order.
pub open spec fn spec_component_severities() -> Seq<Severity> {
    seq![
        Severity::High,
        Severity::Medium,
        Severity::High,
        Severity::High,
        Severity::Medium,
        Severity::Medium,
        Severity::High,
        Severity::Low,
    ]
}

/// Executable form of the outdated-component severity table.
pub fn component_severities() -> (r: Vec<Severity>)
    ensures
        r@.len() == 8,
        forall|i: int| 0 <= i < 8 ==> #[trigger] r@[i] == spec_component_severities()[i],
{
    let mut out: Vec<Severity> = Vec::new();
    out.push(Severity::High);
    out.push(Severity::Medium);
    out.push(Severity::High);
    out.push(Severity::High);
    out.push(Severity::Medium);
    out.push(Severity::Medium);
    out.push(Severity::High);
    out.push(Severity::Low);
    out
}

/// The expected outdated-component findings for the first n signatures.
pub open spec fn spec_components_expected(body: Seq<char>, n: int) -> Seq<
    (Severity, Seq<char>, Seq<char>, Seq<char>),
>
    decreases n,
{
    if n <= 0 {
        Seq::empty()
    } else {
        spec_components_expected(body, n - 1) + entry(
            body_has(body, spec_component_patterns()[n - 1]),
            spec_component_severities()[n - 1],
            "Outdated component: "@ + spec_component_names()[n - 1],
            spec_component_issues()[n - 1],
            "A06 marker "@ + spec_component_patterns()[n - 1],
        )
    }
}

/// The expected A06 findings: outdated components in the body, then a
/// version-disclosing server header.
pub open spec fn spec_a06_expected(
    main_body: Option<String>,
    server_header: Option<String>,
) -> Seq<(Severity, Seq<char>, Seq<char>, Seq<char>)> {
    (match main_body {
        Some(b) => spec_components_expected(b@, 8),
        None => Seq::empty(),
    }) + (match server_header {
        Some(s) => entry(
            body_has_exact(s@, "/"@),
            Severity::Low,
            "Server header discloses version"@,
            "The Server header carries a version string; hide it to reduce the attack surface"@,
            "A06 Server header "@ + s@,
        ),
        None => Seq::empty(),
    })
}

/// A06 Vulnerable and Outdated Components: curated signatures of outdated
/// libraries in the page body, and a version-disclosing `server` header.
pub fn a06_vulnerable_components(
    task_id: &str,
    main_body: &Option<String>,
    server_header: &Option<String>,
    now: i64,
) -> (r: Vec<ScanResult>)
    ensures
        findings_match(r@, task_id@, spec_a06_expected(*main_body, *server_header), now),
{
    let mut out: Vec<ScanResult> = Vec::new();
    match main_body {
        Some(b) => {
            let patterns = component_patterns();
            let names = component_names();
            let issues = component_issues();
            let severities = component_severities();
            let mut i: usize = 0;
            while i < 8
                invariant
                    patterns@.len() == 8,
                    names@.len() == 8,
                    issues@.len() == 8,
                    severities@.len() == 8,
                    forall|k: int|
                        0 <= k < 8 ==> (#[trigger] patterns@[k])@ == spec_component_patterns()[k],
                    forall|k: int|
                        0 <= k < 8 ==> (#[trigger] names@[k])@ == spec_component_names()[k],
                    forall|k: int|
                        0 <= k < 8 ==> (#[trigger] issues@[k])@ == spec_component_issues()[k],
                    forall|k: int|
                        0 <= k < 8 ==> #[trigger] severities@[k]
                            == spec_component_severities()[k],
                    i <= 8,
                    findings_match(out@, task_id@, spec_components_expected(b@, i as int), now),
                decreases 8 - i,
            {
                if str_contains_lower(b.as_str(), patterns[i].as_str()) {
                    push_finding(
                        &mut out,
                        task_id,
                        severities[i],
                        title_with("Outdated component: ", names[i].as_str()),
                        issues[i].as_str(),
                        title_with("A06 marker ", patterns[i].as_str()),
                        now,
                    );
                }
                i = i + 1;
            }
        },
        None => {},
    }
    match server_header {
        Some(s) => {
            if str_contains(s.as_str(), "/") {
                push_finding(
                    &mut out,
                    task_id,
                    Severity::Low,
                    String::from_str("Server header discloses version"),
                    "The Server header carries a version string; hide it to reduce the attack surface",
                    title_with("A06 Server header ", s.as_str()),
                    now,
                );
            }
        },
        None => {},
    }
    out
}

/// A cookie whose name marks it as session-like.
pub open spec fn spec_session_like(name: Seq<char>) -> bool {
    ||| body_has(name, "session"@)
    ||| body_has(name, "sess"@)
    ||| lower_bytes(bytes_of(name)) == bytes_of("phpsessid"@)
}

/// Whether a cookie name is session-like, case-insensitively.
fn session_like(name: &str) -> (r: bool)
    ensures
        r == spec_session_like(name@),
{
    if str_contains_lower(name, "session") || str_contains_lower(name, "sess") {
        true
    } else {
        let folded = to_lower_vec(name.as_bytes());
        bytes_eq(folded.as_slice(), "phpsessid".as_bytes())
    }
}

/// The expected login-page findings, in login-path order: a password form
/// without CSRF markers, and one without password-policy hints.
pub open spec fn spec_login_expected(probes: Seq<Option<ProbeResponse>>) -> Seq<
    (Severity, Seq<char>, Seq<char>, Seq<char>),
>
    decreases probes.len(),
{
    if probes.len() == 0 {
        Seq::empty()
    } else {
        let i = probes.len() - 1;
        spec_login_expected(probes.drop_last()) + (match probes.last() {
            Some(p) => {
                if 200 <= p.status < 300 && body_has(p.body@, "password"@) {
                    entry(
                        !(body_has_exact(p.body@, "csrf"@) || body_has_exact(p.body@, "token"@)
                            || body_has_exact(p.body@, "_token"@)),
                        Severity::High,
                        "Login form lacks CSRF protection"@,
                        "The login form carries no CSRF token; add per-session token validation"@,
                        "A07 login path "@ + spec_login_paths()[i],
                    ) + entry(
                        !body_has(p.body@, "password"@) || !body_has_exact(p.body@, "minimum"@),
                        Severity::Medium,
                        "No password policy hints shown"@,
                        "The login page shows no password strength requirements; display and enforce a policy"@,
                        "A07 login path "@ + spec_login_paths()[i],
                    )
                } else {
                    Seq::empty()
                }
            },
            None => Seq::empty(),
        })
    }
}

/// The expected session-cookie findings, in cookie order: a session-like
/// cookie missing its Secure flag, and one missing HttpOnly.
pub open spec fn spec_cookie_flags_expected(cookies: Seq<CookieObs>) -> Seq<
    (Severity, Seq<char>, Seq<char>, Seq<char>),
>
    decreases cookies.len(),
{
    if cookies.len() == 0 {
        Seq::empty()
    } else {
        let c = cookies.last();
        spec_cookie_flags_expected(cookies.drop_last()) + (if spec_session_like(c.name@) {
            entry(
                !c.secure,
                Severity::High,
                "Session cookie missing Secure flag: "@ + c.name@,
                "The session cookie can travel over plain HTTP; set the Secure flag"@,
                "A07 cookie "@ + c.name@,
            ) + entry(
                !c.http_only,
                Severity::High,
                "Session cookie missing HttpOnly flag: "@ + c.name@,
                "The session cookie is readable from script; set the HttpOnly flag"@,
                "A07 cookie "@ + c.name@,
            )
        } else {
            Seq::empty()
        })
    }
}

/// The expected A07 findings: login-form checks, session-cookie flags, and
/// the standing reminder to test default credentials.
pub open spec fn spec_a07_expected(
    login_probes: Seq<Option<ProbeResponse>>,
    main_page: Option<PageObservations>,
) -> Seq<(Severity, Seq<char>, Seq<char>, Seq<char>)> {
    spec_login_expected(login_probes) + (match main_page {
        Some(pg) => spec_cookie_flags_expected(pg.cookies@),
        None => Seq::empty(),
    }) + entry(
        true,
        Severity::Info,
        "Test default credentials"@,
        "Manually verify that no default credential pair (such as admin/admin) is accepted"@,
        "A07 default credential pairs untested"@,
    )
}

/// A07 Identification and Authentication Failures: login-form probing,
/// session-cookie flags, and an informational default-credentials reminder
/// that is always emitted.
pub fn a07_authentication_failures(
    task_id: &str,
    login_probes: &Vec<Option<ProbeResponse>>,
    main_page: &Option<PageObservations>,
    now: i64,
) -> (r: Vec<ScanResult>)
    requires
        login_probes@.len() <= 4,
    ensures
        findings_match(r@, task_id@, spec_a07_expected(login_probes@, *main_page), now),
{
    let login_names = login_paths();
    let mut out: Vec<ScanResult> = Vec::new();
    let mut i: usize = 0;
    proof {
        assert(login_probes@.subrange(0, 0) =~= Seq::<Option<ProbeResponse>>::empty());
    }
    while i < login_probes.len()
        invariant
            login_probes@.len() <= 4,
            login_names@.len() == 4,
            forall|k: int| 0 <= k < 4 ==> (#[trigger] login_names@[k])@ == spec_login_paths()[k],
            i <= login_probes@.len(),
            findings_match(
                out@,
                task_id@,
                spec_login_expected(login_probes@.subrange(0, i as int)),
                now,
            ),
        decreases login_probes@.len() - i,
    {
        proof {
            let pre = login_probes@.subrange(0, i + 1 as int);
            assert(pre.drop_last() =~= login_probes@.subrange(0, i as int));
            assert(pre.last() == login_probes@[i as int]);
        }
        match &login_probes[i] {
            Some(p) => {
                if 200 <= p.status && p.status < 300 && str_contains_lower(
                    p.body.as_str(),
                    "password",
                ) {
                    let has_token = str_contains(p.body.as_str(), "csrf") || str_contains(
                        p.body.as_str(),
                        "token",
                    ) || str_contains(p.body.as_str(), "_token");
                    if !has_token {
                        push_finding(
                            &mut out,
                            task_id,
                            Severity::High,
                            String::from_str("Login form lacks CSRF protection"),
                            "The login form carries no CSRF token; add per-session token validation",
                            title_with("A07 login path ", login_names[i].as_str()),
                            now,
                        );
                    }
                    let hinted = str_contains_lower(p.body.as_str(), "password")
                        && str_contains(p.body.as_str(), "minimum");
                    if !hinted {
                        push_finding(
                            &mut out,
                            task_id,
                            Severity::Medium,
                            String::from_str("No password policy hints shown"),
                            "The login page shows no password strength requirements; display and enforce a policy",
                            title_with("A07 login path ", login_names[i].as_str()),
                            now,
                        );
                    }
                }
            },
            None => {},
        }
        i = i + 1;
    }
    proof {
        assert(login_probes@.subrange(0, login_probes@.len() as int) =~= login_probes@);
    }
    let ghost login_done = spec_login_expected(login_probes@);
    match main_page {
        Some(pg) => {
            let mut j: usize = 0;
            proof {
                assert(pg.cookies@.subrange(0, 0) =~= Seq::<CookieObs>::empty());
            }
            while j < pg.cookies.len()
                invariant
                    j <= pg.cookies@.len(),
                    findings_match(
                        out@,
                        task_id@,
                        login_done + spec_cookie_flags_expected(
                            pg.cookies@.subrange(0, j as int),
                        ),
                        now,
                    ),
                decreases pg.cookies@.len() - j,
            {
                proof {
                    let pre = pg.cookies@.subrange(0, j + 1 as int);
                    assert(pre.drop_last() =~= pg.cookies@.subrange(0, j as int));
                    assert(pre.last() == pg.cookies@[j as int]);
                }
                let c = &pg.cookies[j];
                if session_like(c.name.as_str()) {
                    if !c.secure {
                        push_finding(
                            &mut out,
                            task_id,
                            Severity::High,
                            title_with("Session cookie missing Secure flag: ", c.name.as_str()),
                            "The session cookie can travel over plain HTTP; set the Secure flag",
                            title_with("A07 cookie ", c.name.as_str()),
                            now,
                        );
                    }
                    if !c.http_only {
                        push_finding(
                            &mut out,
                            task_id,
                            Severity::High,
                            title_with("Session cookie missing HttpOnly flag: ", c.name.as_str()),
                            "The session cookie is readable from script; set the HttpOnly flag",
                            title_with("A07 cookie ", c.name.as_str()),
                            now,
                        );
                    }
                }
                j = j + 1;
            }
            proof {
                assert(pg.cookies@.subrange(0, pg.cookies@.len() as int) =~= pg.cookies@);
            }
        },
        None => {},
    }
    push_finding(
        &mut out,
        task_id,
        Severity::Info,
        String::from_str("Test default credentials"),
        "Manually verify that no default credential pair (such as admin/admin) is accepted",
        String::from_str("A07 default credential pairs untested"),
        now,
    );
    out
}

/// The expected serialized-cookie findings, in cookie order.
pub open spec fn spec_serialized_cookies_expected(cookies: Seq<CookieObs>) -> Seq<
    (Severity, Seq<char>, Seq<char>, Seq<char>),
>
    decreases cookies.len(),
{
    if cookies.len() == 0 {
        Seq::empty()
    } else {
        let c = cookies.last();
        spec_serialized_cookies_expected(cookies.drop_last()) + entry(
            bytes_of(c.value@).len() > 50 && (match_at(bytes_of(c.value@), bytes_of("O:"@), 0)
                || match_at(bytes_of(c.value@), bytes_of("rO0"@), 0) || body_has_exact(
                c.value@,
                "__pickle"@,
            ) || body_has_exact(c.value@, "__reduce"@)),
            Severity::High,
            "Serialized data in cookie: "@ + c.name@,
            "The cookie carries a serialized object; deserializing it can execute code. Use signed JSON or JWT"@,
            "A08 cookie "@ + c.name@,
        )
    }
}

/// The expected A08 findings: insecure resource loading, missing
/// subresource integrity, and serialized objects in cookies.
pub open spec fn spec_a08_expected(page: Option<PageObservations>) -> Seq<
    (Severity, Seq<char>, Seq<char>, Seq<char>),
> {
    match page {
        Some(pg) => entry(
            body_has_exact(pg.body@, "http://"@) && (body_has_exact(pg.body@, ".js"@)
                || body_has_exact(pg.body@, ".css"@)),
            Severity::High,
            "External resources loaded over HTTP"@,
            "Scripts or styles load over plain HTTP and can be tampered with in transit; use HTTPS and SRI"@,
            "A08 plain-HTTP resource references in the page body"@,
        ) + entry(
            (body_has_exact(pg.body@, "<script src=\"http"@) || body_has_exact(
                pg.body@,
                "<link"@,
            )) && !(body_has_exact(pg.body@, "integrity=\""@) && body_has_exact(
                pg.body@,
                "sha"@,
            )),
            Severity::Medium,
            "External resources lack SRI"@,
            "Resources from outside origins carry no integrity attribute; add Subresource Integrity hashes"@,
            "A08 outside resources without integrity attributes"@,
        ) + spec_serialized_cookies_expected(pg.cookies@),
        None => Seq::empty(),
    }
}

/// A08 Software and Data Integrity Failures: HTTP-sourced resources on the
/// page, missing Subresource Integrity, and serialized objects in cookies.
pub fn a08_integrity_failures(
    task_id: &str,
    page: &Option<PageObservations>,
    now: i64,
) -> (r: Vec<ScanResult>)
    ensures
        findings_match(r@, task_id@, spec_a08_expected(*page), now),
{
    let mut out: Vec<ScanResult> = Vec::new();
    match page {
        Some(pg) => {
            let b = pg.body.as_str();
            if str_contains(b, "http://") && (str_contains(b, ".js") || str_contains(b, ".css")) {
                push_finding(
                    &mut out,
                    task_id,
                    Severity::High,
                    String::from_str("External resources loaded over HTTP"),
                    "Scripts or styles load over plain HTTP and can be tampered with in transit; use HTTPS and SRI",
                    String::from_str("A08 plain-HTTP resource references in the page body"),
                    now,
                );
            }
            let has_external = str_contains(b, "<script src=\"http") || str_contains(b, "<link");
            let has_sri = str_contains(b, "integrity=\"") && str_contains(b, "sha");
            if has_external && !has_sri {
                push_finding(
                    &mut out,
                    task_id,
                    Severity::Medium,
                    String::from_str("External resources lack SRI"),
                    "Resources from outside origins carry no integrity attribute; add Subresource Integrity hashes",
                    String::from_str("A08 outside resources without integrity attributes"),
                    now,
                );
            }
            let ghost base = spec_a08_expected(*page).subrange(
                0,
                spec_a08_expected(*page).len() - spec_serialized_cookies_expected(
                    pg.cookies@,
                ).len(),
            );
            let ghost head = entry(
                body_has_exact(pg.body@, "http://"@) && (body_has_exact(pg.body@, ".js"@)
                    || body_has_exact(pg.body@, ".css"@)),
                Severity::High,
                "External resources loaded over HTTP"@,
                "Scripts or styles load over plain HTTP and can be tampered with in transit; use HTTPS and SRI"@,
                "A08 plain-HTTP resource references in the page body"@,
            ) + entry(
                (body_has_exact(pg.body@, "<script src=\"http"@) || body_has_exact(
                    pg.body@,
                    "<link"@,
                )) && !(body_has_exact(pg.body@, "integrity=\""@) && body_has_exact(
                    pg.body@,
                    "sha"@,
                )),
                Severity::Medium,
                "External resources lack SRI"@,
                "Resources from outside origins carry no integrity attribute; add Subresource Integrity hashes"@,
                "A08 outside resources without integrity attributes"@,
            );
            let mut j: usize = 0;
            proof {
                assert(pg.cookies@.subrange(0, 0) =~= Seq::<CookieObs>::empty());
                assert(findings_match(out@, task_id@, head, now));
            }
            while j < pg.cookies.len()
                invariant
                    j <= pg.cookies@.len(),
                    findings_match(
                        out@,
                        task_id@,
                        head + spec_serialized_cookies_expected(
                            pg.cookies@.subrange(0, j as int),
                        ),
                        now,
                    ),
                decreases pg.cookies@.len() - j,
            {
                proof {
                    let pre = pg.cookies@.subrange(0, j + 1 as int);
                    assert(pre.drop_last() =~= pg.cookies@.subrange(0, j as int));
                    assert(pre.last() == pg.cookies@[j as int]);
                }
                let c = &pg.cookies[j];
                let v = c.value.as_str();
                let serialized = v.as_bytes().len() > 50 && (str_starts_with(v, "O:")
                    || str_starts_with(v, "rO0") || str_contains(v, "__pickle") || str_contains(
                    v,
                    "__reduce",
                ));
                if serialized {
                    push_finding(
                        &mut out,
                        task_id,
                        Severity::High,
                        title_with("Serialized data in cookie: ", c.name.as_str()),
                        "The cookie carries a serialized object; deserializing it can execute code. Use signed JSON or JWT",
                        title_with("A08 cookie ", c.name.as_str()),
                        now,
                    );
                }
                j = j + 1;
            }
            proof {
                assert(pg.cookies@.subrange(0, pg.cookies@.len() as int) =~= pg.cookies@);
                assert(head + spec_serialized_cookies_expected(pg.cookies@) =~= spec_a08_expected(
                    *page,
                ));
            }
        },
        None => {},
    }
    out
}

/// The expected A09 findings: one leak finding when some probed error page
/// discloses internals, and the standing logging reminder.
pub open spec fn spec_a09_expected(error_probes: Seq<Option<ProbeResponse>>) -> Seq<
    (Severity, Seq<char>, Seq<char>, Seq<char>),
> {
    (match first_hit(ProbeKind::ErrorLeak, error_probes) {
        Some(i) => entry(
            true,
            Severity::Medium,
            "Error page discloses details"@,
            "Error responses show stack traces or query text; log them instead and show a generic page"@,
            "A09 path "@ + spec_error_paths()[i],
        ),
        None => Seq::empty(),
    }) + entry(
        true,
        Severity::Info,
        "Adopt security logging and monitoring"@,
        "Record login failures, access to sensitive resources, validation failures and denied authorizations"@,
        "A09 logging practice unverified by probing"@,
    )
}

/// A09 Security Logging and Monitoring Failures: probe error pages for
/// leaked internals, and always remind about logging practice.
pub fn a09_logging_failures(
    task_id: &str,
    error_probes: &Vec<Option<ProbeResponse>>,
    now: i64,
) -> (r: Vec<ScanResult>)
    requires
        error_probes@.len() <= 3,
    ensures
        findings_match(r@, task_id@, spec_a09_expected(error_probes@), now),
{
    let error_names = error_paths();
    let mut out: Vec<ScanResult> = Vec::new();
    match first_probe_hit(ProbeKind::ErrorLeak, error_probes) {
        Some(i) => {
            push_finding(
                &mut out,
                task_id,
                Severity::Medium,
                String::from_str("Error page discloses details"),
                "Error responses show stack traces or query text; log them instead and show a generic page",
                title_with("A09 path ", error_names[i].as_str()),
                now,
            );
        },
        None => {},
    }
    push_finding(
        &mut out,
        task_id,
        Severity::Info,
        String::from_str("Adopt security logging and monitoring"),
        "Record login failures, access to sensitive resources, validation failures and denied authorizations",
        String::from_str("A09 logging practice unverified by probing"),
        now,
    );
    out
}

/// The expected SSRF findings, one per probed parameter whose payload row
/// hit, in parameter order.
pub open spec fn spec_ssrf_expected(rows: Seq<Vec<Option<ProbeResponse>>>) -> Seq<
    (Severity, Seq<char>, Seq<char>, Seq<char>),
>
    decreases rows.len(),
{
    if rows.len() == 0 {
        Seq::empty()
    } else {
        let p = rows.len() - 1;
        spec_ssrf_expected(rows.drop_last()) + (match first_hit(
            ProbeKind::Ssrf,
            rows.last()@,
        ) {
            Some(i) => entry(
                true,
                Severity::Critical,
                "SSRF vulnerability: "@ + spec_ssrf_descs()[i],
                "A URL parameter fetches internal resources; validate destinations against an allow list"@,
                "A10 parameter "@ + spec_ssrf_params()[p] + " payload "@ + spec_ssrf_payloads()[i],
            ),
            None => Seq::empty(),
        })
    }
}

/// Some open-redirect probe answered with an external Location.
pub open spec fn spec_redirect_hit(locations: Seq<Option<Option<String>>>) -> bool {
    exists|i: int|
        0 <= i < locations.len() && locations[i] is Some && locations[i]->0 is Some
            && body_has_exact(locations[i]->0->0@, "evil.com"@)
}

/// The expected A10 findings: SSRF hits per parameter, then one
/// open-redirect finding.
pub open spec fn spec_a10_expected(
    rows: Seq<Vec<Option<ProbeResponse>>>,
    locations: Seq<Option<Option<String>>>,
) -> Seq<(Severity, Seq<char>, Seq<char>, Seq<char>)> {
    spec_ssrf_expected(rows) + entry(
        spec_redirect_hit(locations),
        Severity::Medium,
        "Open redirect vulnerability"@,
        "A redirect parameter forwards to outside domains; validate redirect targets"@,
        "A10 redirect parameter answered with an external Location"@,
    )
}

/// A10 Server-Side Request Forgery: one payload row per probed parameter
/// name, in parameter order, plus the open-redirect probe's Location
/// headers. A row's first hit yields one critical finding for that
/// parameter.
pub fn a10_ssrf(
    task_id: &str,
    rows: &Vec<Vec<Option<ProbeResponse>>>,
    locations: &Vec<Option<Option<String>>>,
    now: i64,
) -> (r: Vec<ScanResult>)
    requires
        rows@.len() <= 8,
        forall|p: int| 0 <= p < rows@.len() ==> (#[trigger] rows@[p])@.len() <= 6,
    ensures
        findings_match(r@, task_id@, spec_a10_expected(rows@, locations@), now),
{
    let descs = ssrf_descs();
    let params = ssrf_params();
    let payloads = ssrf_payloads();
    let mut out: Vec<ScanResult> = Vec::new();
    let mut p: usize = 0;
    proof {
        assert(rows@.subrange(0, 0) =~= Seq::<Vec<Option<ProbeResponse>>>::empty());
    }
    while p < rows.len()
        invariant
            rows@.len() <= 8,
            descs@.len() == 6,
            params@.len() == 8,
            payloads@.len() == 6,
            forall|k: int| 0 <= k < 6 ==> (#[trigger] descs@[k])@ == spec_ssrf_descs()[k],
            forall|k: int| 0 <= k < 8 ==> (#[trigger] params@[k])@ == spec_ssrf_params()[k],
            forall|k: int| 0 <= k < 6 ==> (#[trigger] payloads@[k])@ == spec_ssrf_payloads()[k],
            forall|k: int| 0 <= k < rows@.len() ==> (#[trigger] rows@[k])@.len() <= 6,
            p <= rows@.len(),
            findings_match(
                out@,
                task_id@,
                spec_ssrf_expected(rows@.subrange(0, p as int)),
                now,
            ),
        decreases rows@.len() - p,
    {
        proof {
            let pre = rows@.subrange(0, p + 1 as int);
            assert(pre.drop_last() =~= rows@.subrange(0, p as int));
            assert(pre.last() == rows@[p as int]);
        }
        match first_probe_hit(ProbeKind::Ssrf, &rows[p]) {
            Some(i) => {
                let mut evidence = String::from_str("A10 parameter ");
                evidence.append(params[p].as_str());
                evidence.append(" payload ");
                evidence.append(payloads[i].as_str());
                push_finding(
                    &mut out,
                    task_id,
                    Severity::Critical,
                    title_with("SSRF vulnerability: ", descs[i].as_str()),
                    "A URL parameter fetches internal resources; validate destinations against an allow list",
                    evidence,
                    now,
                );
            },
            None => {},
        }
        p = p + 1;
    }
    proof {
        assert(rows@.subrange(0, rows@.len() as int) =~= rows@);
    }
    let mut hit = false;
    let mut j: usize = 0;
    while j < locations.len()
        invariant
            j <= locations@.len(),
            hit == exists|k: int|
                0 <= k < j && locations@[k] is Some && locations@[k]->0 is Some
                    && body_has_exact(locations@[k]->0->0@, "evil.com"@),
        decreases locations@.len() - j,
    {
        match &locations[j] {
            Some(loc) => {
                match loc {
                    Some(l) => {
                        if str_contains(l.as_str(), "evil.com") {
                            hit = true;
                        }
                    },
                    None => {},
                }
            },
            None => {},
        }
        j = j + 1;
    }
    if hit {
        push_finding(
            &mut out,
            task_id,
            Severity::Medium,
            String::from_str("Open redirect vulnerability"),
            "A redirect parameter forwards to outside domains; validate redirect targets",
            String::from_str("A10 redirect parameter answered with an external Location"),
            now,
        );
    }
    proof {
        assert(hit == spec_redirect_hit(locations@));
    }
    out
}

/// Everything the application gathered for one vulnerability scan: one
/// observation slot per probe of each battery, in that battery's table
/// order. A `None` marks a request that failed or was not made; a shorter
/// vector marks a battery that stopped probing early.
#[derive(Debug, Clone)]
pub struct ProbeObservations {
    pub admin_statuses: Vec<Option<u16>>,
    pub idor_probes: Vec<Option<ProbeResponse>>,
    pub traversal_probes: Vec<Option<ProbeResponse>>,
    pub redirect_location: Option<Option<String>>,
    pub page_body: Option<String>,
    pub sql_probes: Vec<Option<ProbeResponse>>,
    pub xss_probes: Vec<Option<ProbeResponse>>,
    pub cmd_probes: Vec<Option<ProbeResponse>>,
    pub ldap_probes: Vec<Option<ProbeResponse>>,
    pub design_body: Option<String>,
    pub rapid_success_count: u8,
    pub file_statuses: Vec<Option<u16>>,
    pub dir_probes: Vec<Option<ProbeResponse>>,
    pub main_headers: Option<Vec<(String, String)>>,
    pub components_body: Option<String>,
    pub server_header: Option<String>,
    pub login_probes: Vec<Option<ProbeResponse>>,
    pub auth_page: Option<PageObservations>,
    pub integrity_page: Option<PageObservations>,
    pub error_probes: Vec<Option<ProbeResponse>>,
    pub ssrf_rows: Vec<Vec<Option<ProbeResponse>>>,
    pub redirect_probes: Vec<Option<Option<String>>>,
}

impl ProbeObservations {
    /// The observation vectors are no longer than their payload tables.
    pub open spec fn wf(self) -> bool {
        &&& self.admin_statuses@.len() <= 12
        &&& self.idor_probes@.len() <= 4
        &&& self.traversal_probes@.len() <= 3
        &&& self.sql_probes@.len() <= 7
        &&& self.xss_probes@.len() <= 6
        &&& self.cmd_probes@.len() <= 6
        &&& self.ldap_probes@.len() <= 3
        &&& self.file_statuses@.len() <= 12
        &&& self.dir_probes@.len() <= 6
        &&& self.login_probes@.len() <= 4
        &&& self.error_probes@.len() <= 3
        &&& self.ssrf_rows@.len() <= 8
        &&& forall|p: int|
            0 <= p < self.ssrf_rows@.len() ==> (#[trigger] self.ssrf_rows@[p])@.len() <= 6
    }

}

/// The expected output of the whole engine: the ten batteries' expected
/// findings, concatenated in fixed A01 -> A10 order.
pub open spec fn spec_scan_all_expected(target: Seq<char>, obs: ProbeObservations) -> Seq<
    (Severity, Seq<char>, Seq<char>, Seq<char>),
> {
    spec_a01_expected(obs.admin_statuses@, obs.idor_probes@, obs.traversal_probes@)
        + spec_a02_expected(target, obs.redirect_location, obs.page_body) + spec_a03_expected(
        obs.sql_probes@,
        obs.xss_probes@,
        obs.cmd_probes@,
        obs.ldap_probes@,
    ) + spec_a04_expected(obs.design_body, obs.rapid_success_count) + spec_a05_expected(
        obs.file_statuses@,
        obs.dir_probes@,
        obs.main_headers,
    ) + spec_a06_expected(obs.components_body, obs.server_header) + spec_a07_expected(
        obs.login_probes@,
        obs.auth_page,
    ) + spec_a08_expected(obs.integrity_page) + spec_a09_expected(obs.error_probes@)
        + spec_a10_expected(obs.ssrf_rows@, obs.redirect_probes@)
}

/// Append one battery's findings, extending the expected sequence.
fn append_findings(
    out: &mut Vec<ScanResult>,
    more: Vec<ScanResult>,
    now: i64,
    Ghost(task): Ghost<Seq<char>>,
    Ghost(done): Ghost<Seq<(Severity, Seq<char>, Seq<char>, Seq<char>)>>,
    Ghost(extra): Ghost<Seq<(Severity, Seq<char>, Seq<char>, Seq<char>)>>,
)
    requires
        findings_match(old(out)@, task, done, now),
        findings_match(more@, task, extra, now),
    ensures
        findings_match(final(out)@, task, done + extra, now),
{
    let ghost base = out@;
    let ghost added = more@;
    let mut more = more;
    out.append(&mut more);
    proof {
        assert(out@ =~= base + added);
        assert forall|i: int| 0 <= i < out@.len() implies finding_wf(
            #[trigger] out@[i],
            task,
            (done + extra)[i],
            now,
        ) by {
            if i < base.len() {
                assert(out@[i] == base[i] && (done + extra)[i] == done[i]);
            } else {
                assert(out@[i] == added[i - base.len()]);
                assert((done + extra)[i] == extra[i - base.len()]);
            }
        }
    }
}

/// Run the whole probe engine over one scan's observations: all ten
/// batteries, reported in fixed A01 -> A10 order.
pub fn scan_all(task_id: &str, target: &str, obs: &ProbeObservations, now: i64) -> (r: Vec<
    ScanResult,
>)
    requires
        obs.wf(),
    ensures
        findings_match(r@, task_id@, spec_scan_all_expected(target@, *obs), now),
{
    let ghost task = task_id@;
    let mut out = a01_broken_access_control(
        task_id,
        &obs.admin_statuses,
        &obs.idor_probes,
        &obs.traversal_probes,
        now,
    );
    let ghost mut done = spec_a01_expected(
        obs.admin_statuses@,
        obs.idor_probes@,
        obs.traversal_probes@,
    );
    let a2 = a02_cryptographic_failures(
        task_id,
        target,
        &obs.redirect_location,
        &obs.page_body,
        now,
    );
    append_findings(
        &mut out,
        a2,
        now,
        Ghost(task),
        Ghost(done),
        Ghost(spec_a02_expected(target@, obs.redirect_location, obs.page_body)),
    );
    proof {
        done = done + spec_a02_expected(target@, obs.redirect_location, obs.page_body);
    }
    let a3 = a03_injection(
        task_id,
        &obs.sql_probes,
        &obs.xss_probes,
        &obs.cmd_probes,
        &obs.ldap_probes,
        now,
    );
    append_findings(
        &mut out,
        a3,
        now,
        Ghost(task),
        Ghost(done),
        Ghost(
            spec_a03_expected(obs.sql_probes@, obs.xss_probes@, obs.cmd_probes@, obs.ldap_probes@),
        ),
    );
    proof {
        done = done + spec_a03_expected(
            obs.sql_probes@,
            obs.xss_probes@,
            obs.cmd_probes@,
            obs.ldap_probes@,
        );
    }
    let a4 = a04_insecure_design(task_id, &obs.design_body, obs.rapid_success_count, now);
    append_findings(
        &mut out,
        a4,
        now,
        Ghost(task),
        Ghost(done),
        Ghost(spec_a04_expected(obs.design_body, obs.rapid_success_count)),
    );
    proof {
        done = done + spec_a04_expected(obs.design_body, obs.rapid_success_count);
    }
    let a5 = a05_security_misconfiguration(
        task_id,
        &obs.file_statuses,
        &obs.dir_probes,
        &obs.main_headers,
        now,
    );
    append_findings(
        &mut out,
        a5,
        now,
        Ghost(task),
        Ghost(done),
        Ghost(spec_a05_expected(obs.file_statuses@, obs.dir_probes@, obs.main_headers)),
    );
    proof {
        done = done + spec_a05_expected(obs.file_statuses@, obs.dir_probes@, obs.main_headers);
    }
    let a6 = a06_vulnerable_components(task_id, &obs.components_body, &obs.server_header, now);
    append_findings(
        &mut out,
        a6,
        now,
        Ghost(task),
        Ghost(done),
        Ghost(spec_a06_expected(obs.components_body, obs.server_header)),
    );
    proof {
        done = done + spec_a06_expected(obs.components_body, obs.server_header);
    }
    let a7 = a07_authentication_failures(task_id, &obs.login_probes, &obs.auth_page, now);
    append_findings(
        &mut out,
        a7,
        now,
        Ghost(task),
        Ghost(done),
        Ghost(spec_a07_expected(obs.login_probes@, obs.auth_page)),
    );
    proof {
        done = done + spec_a07_expected(obs.login_probes@, obs.auth_page);
    }
    let a8 = a08_integrity_failures(task_id, &obs.integrity_page, now);
    append_findings(
        &mut out,
        a8,
        now,
        Ghost(task),
        Ghost(done),
        Ghost(spec_a08_expected(obs.integrity_page)),
    );
    proof {
        done = done + spec_a08_expected(obs.integrity_page);
    }
    let a9 = a09_logging_failures(task_id, &obs.error_probes, now);
    append_findings(
        &mut out,
        a9,
        now,
        Ghost(task),
        Ghost(done),
        Ghost(spec_a09_expected(obs.error_probes@)),
    );
    proof {
        done = done + spec_a09_expected(obs.error_probes@);
    }
    let a10 = a10_ssrf(task_id, &obs.ssrf_rows, &obs.redirect_probes, now);
    append_findings(
        &mut out,
        a10,
        now,
        Ghost(task),
        Ghost(done),
        Ghost(spec_a10_expected(obs.ssrf_rows@, obs.redirect_probes@)),
    );
    proof {
        done = done + spec_a10_expected(obs.ssrf_rows@, obs.redirect_probes@);
        assert(done =~= spec_scan_all_expected(target@, *obs));
    }
    out
}

/// A probe URL: the base target with one query parameter carrying a
/// percent-encoded payload.
pub fn probe_url(base: &str, param: &str, payload: &str) -> (r: String)
    ensures
        r@ == base@ + "?"@ + param@ + "="@ + urlencoded_of(payload@),
{
    let mut url = String::from_str(base);
    url.append("?");
    url.append(param);
    url.append("=");
    let encoded = url_encode(payload);
    url.append(encoded.as_str());
    url
}

/// How many characters of the text remain after the trailing slashes.
pub open spec fn spec_len_without_trailing_slashes(u: Seq<char>) -> int
    decreases u.len(),
{
    if u.len() == 0 {
        0
    } else if u.last() == '/' {
        spec_len_without_trailing_slashes(u.drop_last())
    } else {
        u.len() as int
    }
}

/// Character count of the base target once trailing slashes are dropped.
fn trimmed_len(base: &str) -> (e: usize)
    ensures
        e as int == spec_len_without_trailing_slashes(base@),
        e <= base@.len(),
{
    let n = base.unicode_len();
    let mut e = n;
    proof {
        assert(base@.subrange(0, n as int) =~= base@);
    }
    loop
        invariant
            n == base@.len(),
            e <= n,
            spec_len_without_trailing_slashes(base@) == spec_len_without_trailing_slashes(
                base@.subrange(0, e as int),
            ),
        decreases e,
    {
        if e == 0 {
            proof {
                assert(base@.subrange(0, 0) =~= Seq::<char>::empty());
            }
            return 0;
        }
        proof {
            assert(base@.subrange(0, e as int).last() == base@[e - 1]);
            assert(base@.subrange(0, e as int).drop_last() =~= base@.subrange(0, e - 1 as int));
        }
        if base.get_char(e - 1) != '/' {
            proof {
                assert(spec_len_without_trailing_slashes(base@.subrange(0, e as int))
                    == e as int);
            }
            return e;
        }
        e = e - 1;
    }
}

/// A path URL: the base target without its trailing slashes, then the path.
pub fn path_url(base: &str, path: &str) -> (r: String)
    ensures
        r@ == base@.subrange(0, spec_len_without_trailing_slashes(base@)) + path@,
{
    let e = trimmed_len(base);
    let mut url = base.substring_char(0, e).to_owned();
    url.append(path);
    url
}

/// No admin path that answered 200 or 403 means no admin finding.
proof fn lemma_admin_clean(statuses: Seq<Option<u16>>)
    requires
        forall|i: int|
            0 <= i < statuses.len() ==> ((#[trigger] statuses[i]) is Some ==> statuses[i]->0
                != 200 && statuses[i]->0 != 403),
    ensures
        spec_admin_expected(statuses).len() == 0,
    decreases statuses.len(),
{
    if statuses.len() == 0 {
    } else {
        assert(forall|i: int|
            0 <= i < statuses.drop_last().len() ==> #[trigger] statuses.drop_last()[i]
                == statuses[i]);
        lemma_admin_clean(statuses.drop_last());
    }
}

/// No pattern matching means no disclosed-secret finding.
proof fn lemma_secrets_clean(body: Seq<char>, n: int)
    requires
        forall|p: int|
            0 <= p < n ==> !(regex_valid_of(#[trigger] spec_secret_patterns()[p])
                && regex_match_of(spec_secret_patterns()[p], body)),
    ensures
        spec_secret_expected(body, n).len() == 0,
    decreases n,
{
    if n <= 0 {
    } else {
        lemma_secrets_clean(body, n - 1);
    }
}

/// No reachable sensitive file means no file finding.
proof fn lemma_files_clean(statuses: Seq<Option<u16>>)
    requires
        forall|i: int|
            0 <= i < statuses.len() ==> ((#[trigger] statuses[i]) is Some ==> !(200 <= statuses[i]->0 < 300)),
    ensures
        spec_files_expected(statuses).len() == 0,
    decreases statuses.len(),
{
    if statuses.len() == 0 {
    } else {
        assert(forall|i: int|
            0 <= i < statuses.drop_last().len() ==> #[trigger] statuses.drop_last()[i]
                == statuses[i]);
        lemma_files_clean(statuses.drop_last());
    }
}

/// No listing markers means no directory finding.
proof fn lemma_dirs_clean(probes: Seq<Option<ProbeResponse>>)
    requires
        forall|i: int|
            0 <= i < probes.len() ==> ((#[trigger] probes[i]) is Some ==> !any_exact_hit(
                probes[i]->0.body@,
                spec_directory_markers(),
            )),
    ensures
        spec_dirs_expected(probes).len() == 0,
    decreases probes.len(),
{
    if probes.len() == 0 {
    } else {
        assert(forall|i: int|
            0 <= i < probes.drop_last().len() ==> #[trigger] probes.drop_last()[i] == probes[i]);
        lemma_dirs_clean(probes.drop_last());
    }
}

/// No outdated-library marker means no component finding.
proof fn lemma_components_clean(body: Seq<char>, n: int)
    requires
        forall|p: int| 0 <= p < n ==> !body_has(body, #[trigger] spec_component_patterns()[p]),
    ensures
        spec_components_expected(body, n).len() == 0,
    decreases n,
{
    if n <= 0 {
    } else {
        lemma_components_clean(body, n - 1);
    }
}

/// No reachable password form means no login finding.
proof fn lemma_login_clean(probes: Seq<Option<ProbeResponse>>)
    requires
        forall|i: int|
            0 <= i < probes.len() ==> ((#[trigger] probes[i]) is Some ==> !(200 <= probes[i]->0.status < 300 && body_has(probes[i]->0.body@, "password"@))),
    ensures
        spec_login_expected(probes).len() == 0,
    decreases probes.len(),
{
    if probes.len() == 0 {
    } else {
        assert(forall|i: int|
            0 <= i < probes.drop_last().len() ==> #[trigger] probes.drop_last()[i] == probes[i]);
        lemma_login_clean(probes.drop_last());
    }
}

/// No session-like cookie means no cookie-flag finding.
proof fn lemma_cookie_flags_clean(cookies: Seq<CookieObs>)
    requires
        forall|c: int|
            0 <= c < cookies.len() ==> !spec_session_like((#[trigger] cookies[c]).name@),
    ensures
        spec_cookie_flags_expected(cookies).len() == 0,
    decreases cookies.len(),
{
    if cookies.len() == 0 {
    } else {
        assert(forall|c: int|
            0 <= c < cookies.drop_last().len() ==> #[trigger] cookies.drop_last()[c] == cookies[c]);
        lemma_cookie_flags_clean(cookies.drop_last());
    }
}

/// A cookie value that carries a serialized-object signature.
pub open spec fn spec_cookie_serialized(c: CookieObs) -> bool {
    bytes_of(c.value@).len() > 50 && (match_at(bytes_of(c.value@), bytes_of("O:"@), 0)
        || match_at(bytes_of(c.value@), bytes_of("rO0"@), 0) || body_has_exact(
        c.value@,
        "__pickle"@,
    ) || body_has_exact(c.value@, "__reduce"@))
}

/// No serialized cookie value means no serialization finding.
proof fn lemma_serialized_clean(cookies: Seq<CookieObs>)
    requires
        forall|c: int| 0 <= c < cookies.len() ==> !spec_cookie_serialized(#[trigger] cookies[c]),
    ensures
        spec_serialized_cookies_expected(cookies).len() == 0,
    decreases cookies.len(),
{
    if cookies.len() == 0 {
    } else {
        assert(forall|c: int|
            0 <= c < cookies.drop_last().len() ==> #[trigger] cookies.drop_last()[c] == cookies[c]);
        lemma_serialized_clean(cookies.drop_last());
        assert(!spec_cookie_serialized(cookies.last()));
    }
}

/// No SSRF marker in any row means no SSRF finding.
proof fn lemma_ssrf_clean(rows: Seq<Vec<Option<ProbeResponse>>>)
    requires
        forall|p: int|
            0 <= p < rows.len() ==> first_hit(
                ProbeKind::Ssrf,
                (#[trigger] rows[p])@,
            ) is None,
    ensures
        spec_ssrf_expected(rows).len() == 0,
    decreases rows.len(),
{
    if rows.len() == 0 {
    } else {
        assert(forall|p: int|
            0 <= p < rows.drop_last().len() ==> #[trigger] rows.drop_last()[p] == rows[p]);
        lemma_ssrf_clean(rows.drop_last());
    }
}

/// Law: a scan of an encrypted target whose probe observations carry no
/// vulnerable marker yields exactly the two standing informational
/// reminders -- the default-credentials note and the logging note -- and
/// nothing of any higher severity.
pub proof fn lemma_clean_scan_informational(target: Seq<char>, obs: ProbeObservations)
    requires
        match_at(bytes_of(target), bytes_of("https://"@), 0),
        obs.redirect_location is Some ==> obs.redirect_location->0 is Some && match_at(
            bytes_of(obs.redirect_location->0->0@),
            bytes_of("https://"@),
            0,
        ),
        obs.page_body is Some ==> forall|p: int|
            0 <= p < 7 ==> !(regex_valid_of(#[trigger] spec_secret_patterns()[p])
                && regex_match_of(spec_secret_patterns()[p], obs.page_body->0@)),
        obs.page_body is Some ==> !(body_has_exact(obs.page_body->0@, "type=\"password\""@)
            && !body_has_exact(obs.page_body->0@, "autocomplete=\"off\""@)),
        forall|i: int|
            0 <= i < obs.admin_statuses@.len() ==> ((#[trigger] obs.admin_statuses@[i]) is Some
                ==> obs.admin_statuses@[i]->0 != 200 && obs.admin_statuses@[i]->0 != 403),
        first_hit(ProbeKind::Idor, obs.idor_probes@) is None,
        first_hit(ProbeKind::Traversal, obs.traversal_probes@) is None,
        first_hit(ProbeKind::Sql, obs.sql_probes@) is None,
        first_hit(ProbeKind::Xss, obs.xss_probes@) is None,
        first_hit(ProbeKind::Cmd, obs.cmd_probes@) is None,
        first_hit(ProbeKind::Ldap, obs.ldap_probes@) is None,
        obs.design_body is Some ==> obs.rapid_success_count != 10 && !any_exact_hit(
            obs.design_body->0@,
            spec_enumeration_markers(),
        ),
        forall|i: int|
            0 <= i < obs.file_statuses@.len() ==> ((#[trigger] obs.file_statuses@[i]) is Some
                ==> !(200 <= obs.file_statuses@[i]->0 < 300)),
        forall|i: int|
            0 <= i < obs.dir_probes@.len() ==> ((#[trigger] obs.dir_probes@[i]) is Some
                ==> !any_exact_hit(obs.dir_probes@[i]->0.body@, spec_directory_markers())),
        obs.main_headers is Some ==> crate::headers::spec_lookup(
            obs.main_headers->0@,
            bytes_of("strict-transport-security"@),
        ) is Some && crate::headers::spec_lookup(
            obs.main_headers->0@,
            bytes_of("x-frame-options"@),
        ) is Some && crate::headers::spec_lookup(
            obs.main_headers->0@,
            bytes_of("content-security-policy"@),
        ) is Some,
        obs.components_body is Some ==> forall|p: int|
            0 <= p < 8 ==> !body_has(obs.components_body->0@, #[trigger] spec_component_patterns()[p]),
        obs.server_header is Some ==> !body_has_exact(obs.server_header->0@, "/"@),
        forall|i: int|
            0 <= i < obs.login_probes@.len() ==> ((#[trigger] obs.login_probes@[i]) is Some
                ==> !(200 <= obs.login_probes@[i]->0.status < 300 && body_has(
                obs.login_probes@[i]->0.body@,
                "password"@,
            ))),
        obs.auth_page is Some ==> forall|c: int|
            0 <= c < obs.auth_page->0.cookies@.len() ==> !spec_session_like(
                (#[trigger] obs.auth_page->0.cookies@[c]).name@,
            ),
        obs.integrity_page is Some ==> !(body_has_exact(obs.integrity_page->0.body@, "http://"@)
            && (body_has_exact(obs.integrity_page->0.body@, ".js"@) || body_has_exact(
            obs.integrity_page->0.body@,
            ".css"@,
        ))),
        obs.integrity_page is Some ==> !((body_has_exact(
            obs.integrity_page->0.body@,
            "<script src=\"http"@,
        ) || body_has_exact(obs.integrity_page->0.body@, "<link"@)) && !(body_has_exact(
            obs.integrity_page->0.body@,
            "integrity=\""@,
        ) && body_has_exact(obs.integrity_page->0.body@, "sha"@))),
        obs.integrity_page is Some ==> forall|c: int|
            0 <= c < obs.integrity_page->0.cookies@.len() ==> !spec_cookie_serialized(
                #[trigger] obs.integrity_page->0.cookies@[c],
            ),
        first_hit(ProbeKind::ErrorLeak, obs.error_probes@) is None,
        forall|p: int|
            0 <= p < obs.ssrf_rows@.len() ==> first_hit(
                ProbeKind::Ssrf,
                (#[trigger] obs.ssrf_rows@[p])@,
            ) is None,
        !spec_redirect_hit(obs.redirect_probes@),
    ensures
        spec_scan_all_expected(target, obs).len() == 2,
        spec_scan_all_expected(target, obs)[0].0 == Severity::Info,
        spec_scan_all_expected(target, obs)[1].0 == Severity::Info,
        spec_scan_all_expected(target, obs)[0].1 == "Test default credentials"@,
        spec_scan_all_expected(target, obs)[1].1 == "Adopt security logging and monitoring"@,
{
    lemma_admin_clean(obs.admin_statuses@);
    assert(spec_a01_expected(obs.admin_statuses@, obs.idor_probes@, obs.traversal_probes@) =~= Seq::<
        (Severity, Seq<char>, Seq<char>, Seq<char>),
    >::empty());
    match obs.page_body {
        Some(b) => {
            lemma_secrets_clean(b@, 7);
        },
        None => {},
    }
    assert(spec_a02_expected(target, obs.redirect_location, obs.page_body) =~= Seq::<
        (Severity, Seq<char>, Seq<char>, Seq<char>),
    >::empty());
    assert(spec_a03_expected(obs.sql_probes@, obs.xss_probes@, obs.cmd_probes@, obs.ldap_probes@)
        =~= Seq::<(Severity, Seq<char>, Seq<char>, Seq<char>)>::empty());
    assert(spec_a04_expected(obs.design_body, obs.rapid_success_count) =~= Seq::<
        (Severity, Seq<char>, Seq<char>, Seq<char>),
    >::empty());
    lemma_files_clean(obs.file_statuses@);
    lemma_dirs_clean(obs.dir_probes@);
    assert(spec_a05_expected(obs.file_statuses@, obs.dir_probes@, obs.main_headers) =~= Seq::<
        (Severity, Seq<char>, Seq<char>, Seq<char>),
    >::empty());
    match obs.components_body {
        Some(b) => {
            lemma_components_clean(b@, 8);
        },
        None => {},
    }
    assert(spec_a06_expected(obs.components_body, obs.server_header) =~= Seq::<
        (Severity, Seq<char>, Seq<char>, Seq<char>),
    >::empty());
    lemma_login_clean(obs.login_probes@);
    match obs.auth_page {
        Some(pg) => {
            lemma_cookie_flags_clean(pg.cookies@);
        },
        None => {},
    }
    let reminder7 = entry(
        true,
        Severity::Info,
        "Test default credentials"@,
        "Manually verify that no default credential pair (such as admin/admin) is accepted"@,
        "A07 default credential pairs untested"@,
    );
    assert(spec_a07_expected(obs.login_probes@, obs.auth_page) =~= reminder7);
    match obs.integrity_page {
        Some(pg) => {
            lemma_serialized_clean(pg.cookies@);
        },
        None => {},
    }
    assert(spec_a08_expected(obs.integrity_page) =~= Seq::<
        (Severity, Seq<char>, Seq<char>, Seq<char>),
    >::empty());
    let reminder9 = entry(
        true,
        Severity::Info,
        "Adopt security logging and monitoring"@,
        "Record login failures, access to sensitive resources, validation failures and denied authorizations"@,
        "A09 logging practice unverified by probing"@,
    );
    assert(spec_a09_expected(obs.error_probes@) =~= reminder9);
    lemma_ssrf_clean(obs.ssrf_rows@);
    assert(spec_a10_expected(obs.ssrf_rows@, obs.redirect_probes@) =~= Seq::<
        (Severity, Seq<char>, Seq<char>, Seq<char>),
    >::empty());
    assert(spec_scan_all_expected(target, obs) =~= reminder7 + reminder9);
}

} // verus!
