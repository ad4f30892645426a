//! Data model of the scanner: scan tasks, findings, header checks,
//! transport-security assessments, detected technologies, and the stable
//! lowercase string encodings of the enums that outside consumers rely on.

use vstd::prelude::*;
use vstd::string::StringExecFns;
use crate::text::str_eq;

verus! {

/// The kind of scan a caller may request.
#[derive(Debug, Clone, Copy, PartialEq, Eq, Structural)]
pub enum ScanType {
    Full,
    Quick,
    Vulnerability,
    Port,
    Ssl,
    Headers,
}

/// Lifecycle state of a scan task. Transitions only move forward:
/// Pending -> Running -> (Completed | Failed).
#[derive(Debug, Clone, Copy, PartialEq, Eq, Structural)]
pub enum ScanStatus {
    Pending,
    Running,
    Completed,
    Failed,
}

/// Severity of a finding, in the total order
/// Critical > High > Medium > Low > Info.
#[derive(Debug, Clone, Copy, PartialEq, Eq, Structural)]
pub enum Severity {
    Critical,
    High,
    Medium,
    Low,
    Info,
}

/// What kind of record a finding is.
#[derive(Debug, Clone, Copy, PartialEq, Eq, Structural)]
pub enum ResultType {
    Port,
    Vulnerability,
    Ssl,
    Header,
    Technology,
}

/// Category of a fingerprinted technology.
#[derive(Debug, Clone, Copy, PartialEq, Eq, Structural)]
pub enum TechnologyCategory {
    Framework,
    Cms,
    Server,
    Analytics,
    Cdn,
    Language,
    Database,
}

/// Transport protocol of an open port record.
#[derive(Debug, Clone, Copy, PartialEq, Eq, Structural)]
pub enum Protocol {
    Tcp,
    Udp,
}

/// Output format of a rendered report.
#[derive(Debug, Clone, Copy, PartialEq, Eq, Structural)]
pub enum ReportType {
    Pdf,
    Html,
    Json,
    Markdown,
}

/// Rank of a severity in the total order Critical > High > Medium > Low > Info.
pub open spec fn spec_severity_rank(s: Severity) -> int {
    match s {
        Severity::Critical => 4,
        Severity::High => 3,
        Severity::Medium => 2,
        Severity::Low => 1,
        Severity::Info => 0,
    }
}

/// Executable severity rank.
pub fn severity_rank(s: Severity) -> (r: u8)
    ensures
        r as int == spec_severity_rank(s),
{
    match s {
        Severity::Critical => 4,
        Severity::High => 3,
        Severity::Medium => 2,
        Severity::Low => 1,
        Severity::Info => 0,
    }
}

impl ScanType {
    /// The stable lowercase encoding of this kind.
    pub open spec fn spec_name(self) -> Seq<char> {
        match self {
            ScanType::Full => "full"@,
            ScanType::Quick => "quick"@,
            ScanType::Vulnerability => "vulnerability"@,
            ScanType::Port => "port"@,
            ScanType::Ssl => "ssl"@,
            ScanType::Headers => "headers"@,
        }
    }

    pub fn name(&self) -> (r: String)
        ensures
            r@ == self.spec_name(),
    {
        match self {
            ScanType::Full => String::from_str("full"),
            ScanType::Quick => String::from_str("quick"),
            ScanType::Vulnerability => String::from_str("vulnerability"),
            ScanType::Port => String::from_str("port"),
            ScanType::Ssl => String::from_str("ssl"),
            ScanType::Headers => String::from_str("headers"),
        }
    }

    /// Which kind, if any, a request string denotes.
    pub open spec fn spec_parse(s: Seq<char>) -> Option<ScanType> {
        if s == "full"@ {
            Some(ScanType::Full)
        } else if s == "quick"@ {
            Some(ScanType::Quick)
        } else if s == "vulnerability"@ {
            Some(ScanType::Vulnerability)
        } else if s == "port"@ {
            Some(ScanType::Port)
        } else if s == "ssl"@ {
            Some(ScanType::Ssl)
        } else if s == "headers"@ {
            Some(ScanType::Headers)
        } else {
            None
        }
    }

    pub fn parse(s: &str) -> (r: Option<ScanType>)
        ensures
            r == ScanType::spec_parse(s@),
    {
        if str_eq(s, "full") {
            Some(ScanType::Full)
        } else if str_eq(s, "quick") {
            Some(ScanType::Quick)
        } else if str_eq(s, "vulnerability") {
            Some(ScanType::Vulnerability)
        } else if str_eq(s, "port") {
            Some(ScanType::Port)
        } else if str_eq(s, "ssl") {
            Some(ScanType::Ssl)
        } else if str_eq(s, "headers") {
            Some(ScanType::Headers)
        } else {
            None
        }
    }
}

impl ScanStatus {
    /// A terminal status is never left again.
    pub open spec fn is_terminal(self) -> bool {
        self == ScanStatus::Completed || self == ScanStatus::Failed
    }

    /// Forward progress of the lifecycle; both terminal states share the top
    /// rank, and a terminal task additionally never changes status at all.
    pub open spec fn spec_rank(self) -> int {
        match self {
            ScanStatus::Pending => 0,
            ScanStatus::Running => 1,
            ScanStatus::Completed => 2,
            ScanStatus::Failed => 2,
        }
    }

    /// The stable lowercase encoding of this status.
    pub open spec fn spec_name(self) -> Seq<char> {
        match self {
            ScanStatus::Pending => "pending"@,
            ScanStatus::Running => "running"@,
            ScanStatus::Completed => "completed"@,
            ScanStatus::Failed => "failed"@,
        }
    }

    pub fn name(&self) -> (r: String)
        ensures
            r@ == self.spec_name(),
    {
        match self {
            ScanStatus::Pending => String::from_str("pending"),
            ScanStatus::Running => String::from_str("running"),
            ScanStatus::Completed => String::from_str("completed"),
            ScanStatus::Failed => String::from_str("failed"),
        }
    }

    /// Which status an import record denotes; anything unrecognized is read
    /// as a finished scan.
    pub open spec fn spec_parse_lenient(s: Seq<char>) -> ScanStatus {
        if s == "pending"@ {
            ScanStatus::Pending
        } else if s == "running"@ {
            ScanStatus::Running
        } else if s == "completed"@ {
            ScanStatus::Completed
        } else if s == "failed"@ {
            ScanStatus::Failed
        } else {
            ScanStatus::Completed
        }
    }

    pub fn parse_lenient(s: &str) -> (r: ScanStatus)
        ensures
            r == ScanStatus::spec_parse_lenient(s@),
    {
        if str_eq(s, "pending") {
            ScanStatus::Pending
        } else if str_eq(s, "running") {
            ScanStatus::Running
        } else if str_eq(s, "completed") {
            ScanStatus::Completed
        } else if str_eq(s, "failed") {
            ScanStatus::Failed
        } else {
            ScanStatus::Completed
        }
    }
}

impl Severity {
    /// The stable lowercase encoding of this severity.
    pub open spec fn spec_name(self) -> Seq<char> {
        match self {
            Severity::Critical => "critical"@,
            Severity::High => "high"@,
            Severity::Medium => "medium"@,
            Severity::Low => "low"@,
            Severity::Info => "info"@,
        }
    }

    pub fn name(&self) -> (r: String)
        ensures
            r@ == self.spec_name(),
    {
        match self {
            Severity::Critical => String::from_str("critical"),
            Severity::High => String::from_str("high"),
            Severity::Medium => String::from_str("medium"),
            Severity::Low => String::from_str("low"),
            Severity::Info => String::from_str("info"),
        }
    }

    /// Which severity an import record denotes; anything unrecognized is read
    /// as informational.
    pub open spec fn spec_parse_lenient(s: Seq<char>) -> Severity {
        if s == "critical"@ {
            Severity::Critical
        } else if s == "high"@ {
            Severity::High
        } else if s == "medium"@ {
            Severity::Medium
        } else if s == "low"@ {
            Severity::Low
        } else {
            Severity::Info
        }
    }

    pub fn parse_lenient(s: &str) -> (r: Severity)
        ensures
            r == Severity::spec_parse_lenient(s@),
    {
        if str_eq(s, "critical") {
            Severity::Critical
        } else if str_eq(s, "high") {
            Severity::High
        } else if str_eq(s, "medium") {
            Severity::Medium
        } else if str_eq(s, "low") {
            Severity::Low
        } else {
            Severity::Info
        }
    }
}

impl ResultType {
    /// The stable lowercase encoding of this record kind.
    pub open spec fn spec_name(self) -> Seq<char> {
        match self {
            ResultType::Port => "port"@,
            ResultType::Vulnerability => "vulnerability"@,
            ResultType::Ssl => "ssl"@,
            ResultType::Header => "header"@,
            ResultType::Technology => "technology"@,
        }
    }

    pub fn name(&self) -> (r: String)
        ensures
            r@ == self.spec_name(),
    {
        match self {
            ResultType::Port => String::from_str("port"),
            ResultType::Vulnerability => String::from_str("vulnerability"),
            ResultType::Ssl => String::from_str("ssl"),
            ResultType::Header => String::from_str("header"),
            ResultType::Technology => String::from_str("technology"),
        }
    }

    /// Which record kind an import record denotes; anything unrecognized is
    /// read as a vulnerability.
    pub open spec fn spec_parse_lenient(s: Seq<char>) -> ResultType {
        if s == "port"@ {
            ResultType::Port
        } else if s == "vulnerability"@ {
            ResultType::Vulnerability
        } else if s == "ssl"@ {
            ResultType::Ssl
        } else if s == "header"@ {
            ResultType::Header
        } else if s == "technology"@ {
            ResultType::Technology
        } else {
            ResultType::Vulnerability
        }
    }

    pub fn parse_lenient(s: &str) -> (r: ResultType)
        ensures
            r == ResultType::spec_parse_lenient(s@),
    {
        if str_eq(s, "port") {
            ResultType::Port
        } else if str_eq(s, "vulnerability") {
            ResultType::Vulnerability
        } else if str_eq(s, "ssl") {
            ResultType::Ssl
        } else if str_eq(s, "header") {
            ResultType::Header
        } else if str_eq(s, "technology") {
            ResultType::Technology
        } else {
            ResultType::Vulnerability
        }
    }
}

/// One scan task and its lifecycle state. Timestamps are milliseconds since
/// the Unix epoch.
#[derive(Debug, Clone)]
pub struct ScanTask {
    pub id: String,
    pub target_url: String,
    pub scan_type: ScanType,
    pub status: ScanStatus,
    pub started_at: Option<i64>,
    pub completed_at: Option<i64>,
    pub created_at: i64,
}

impl ScanTask {
    /// Well-formedness of one task: the optional timestamps exist exactly for
    /// the lifecycle states that have been passed, and they are ordered
    /// `created_at <= started_at <= completed_at`.
    pub open spec fn wf(self) -> bool {
        &&& (self.status == ScanStatus::Pending ==> self.started_at is None
            && self.completed_at is None)
        &&& (self.status == ScanStatus::Running ==> self.started_at is Some
            && self.completed_at is None)
        &&& (self.status.is_terminal() ==> self.started_at is Some && self.completed_at is Some)
        &&& (self.started_at is Some ==> self.created_at <= self.started_at->0)
        &&& (self.started_at is Some && self.completed_at is Some ==> self.started_at->0
            <= self.completed_at->0)
        &&& (self.completed_at is Some ==> self.started_at is Some)
    }

    /// An owned copy equal to `self`.
    pub fn snapshot(&self) -> (t: ScanTask)
        ensures
            t == *self,
    {
        ScanTask {
            id: self.id.clone(),
            target_url: self.target_url.clone(),
            scan_type: self.scan_type,
            status: self.status,
            started_at: self.started_at,
            completed_at: self.completed_at,
            created_at: self.created_at,
        }
    }
}

/// One reported security observation (a finding).
#[derive(Debug, Clone)]
pub struct ScanResult {
    pub id: String,
    pub task_id: String,
    pub result_type: ResultType,
    pub severity: Option<Severity>,
    pub title: String,
    pub description: Option<String>,
    pub raw_data: Option<String>,
    pub created_at: i64,
}

impl ScanResult {
    /// Severity used for ordering: absent severity counts as informational.
    pub open spec fn spec_effective_severity(self) -> Severity {
        match self.severity {
            Some(s) => s,
            None => Severity::Info,
        }
    }

    pub fn effective_severity(&self) -> (r: Severity)
        ensures
            r == self.spec_effective_severity(),
    {
        match self.severity {
            Some(s) => s,
            None => Severity::Info,
        }
    }
}

/// Result of checking one security-relevant HTTP response header.
#[derive(Debug, Clone)]
pub struct SecurityHeader {
    pub id: String,
    pub task_id: String,
    pub header_name: String,
    pub header_value: Option<String>,
    pub is_present: bool,
    pub is_secure: bool,
    pub recommendation: Option<String>,
    pub created_at: i64,
}

/// Transport-security assessment of one target.
#[derive(Debug, Clone)]
pub struct SslAnalysis {
    pub id: String,
    pub task_id: String,
    pub certificate_issuer: Option<String>,
    pub certificate_subject: Option<String>,
    pub valid_from: Option<i64>,
    pub valid_to: Option<i64>,
    pub signature_algorithm: Option<String>,
    pub tls_versions: Option<Vec<String>>,
    pub cipher_suites: Option<Vec<String>>,
    pub vulnerabilities: Option<Vec<String>>,
    pub grade: Option<String>,
    pub created_at: i64,
}

/// One fingerprinted technology with a fixed per-signature confidence.
#[derive(Debug, Clone)]
pub struct DetectedTechnology {
    pub id: String,
    pub task_id: String,
    pub technology_name: String,
    pub technology_version: Option<String>,
    pub category: TechnologyCategory,
    pub confidence: u8,
    pub created_at: i64,
}

/// An open-port record.
#[derive(Debug, Clone)]
pub struct OpenPort {
    pub id: String,
    pub task_id: String,
    pub port: u16,
    pub protocol: Protocol,
    pub service_name: Option<String>,
    pub service_version: Option<String>,
    pub banner: Option<String>,
    pub created_at: i64,
}

/// Summary header of a rendered report.
#[derive(Debug, Clone)]
pub struct Report {
    pub id: String,
    pub task_id: String,
    pub report_type: ReportType,
    pub file_path: Option<String>,
    pub executive_summary: Option<String>,
    pub total_vulnerabilities: i32,
    pub critical_count: i32,
    pub high_count: i32,
    pub medium_count: i32,
    pub low_count: i32,
    pub info_count: i32,
    pub created_at: i64,
}

/// Progress notification for a running scan stage.
#[derive(Debug, Clone)]
pub struct ScanProgress {
    pub task_id: String,
    pub stage: String,
    pub progress: u8,
    pub message: String,
}

/// Owned copy of an optional string, equal to the original.
pub fn clone_opt_string(o: &Option<String>) -> (r: Option<String>)
    ensures
        r == *o,
{
    match o {
        Some(s) => Some(s.clone()),
        None => None,
    }
}

/// Owned copy of a string vector, equal to the original.
pub fn clone_strings(v: &Vec<String>) -> (r: Vec<String>)
    ensures
        r@ == v@,
{
    let mut out: Vec<String> = Vec::new();
    let mut i: usize = 0;
    while i < v.len()
        invariant
            i <= v@.len(),
            out@ =~= v@.subrange(0, i as int),
        decreases v@.len() - i,
    {
        out.push(v[i].clone());
        i = i + 1;
    }
    proof {
        assert(v@.subrange(0, v@.len() as int) =~= v@);
    }
    out
}

/// Two optional string vectors hold the same strings.
pub open spec fn opt_strings_eq(a: Option<Vec<String>>, b: Option<Vec<String>>) -> bool {
    &&& (a is Some <==> b is Some)
    &&& (a is Some ==> a->0@ == b->0@)
}

/// Owned copy of an optional string vector, holding the same strings.
pub fn clone_opt_strings(o: &Option<Vec<String>>) -> (r: Option<Vec<String>>)
    ensures
        opt_strings_eq(r, *o),
{
    match o {
        Some(v) => Some(clone_strings(v)),
        None => None,
    }
}

impl SecurityHeader {
    /// An owned copy equal to `self`.
    pub fn snapshot(&self) -> (r: SecurityHeader)
        ensures
            r == *self,
    {
        SecurityHeader {
            id: self.id.clone(),
            task_id: self.task_id.clone(),
            header_name: self.header_name.clone(),
            header_value: clone_opt_string(&self.header_value),
            is_present: self.is_present,
            is_secure: self.is_secure,
            recommendation: clone_opt_string(&self.recommendation),
            created_at: self.created_at,
        }
    }
}

/// Two assessments agree on every field; the string-vector fields are
/// compared by their contents.
pub open spec fn ssl_eq(a: SslAnalysis, b: SslAnalysis) -> bool {
    &&& a.id == b.id
    &&& a.task_id == b.task_id
    &&& a.certificate_issuer == b.certificate_issuer
    &&& a.certificate_subject == b.certificate_subject
    &&& a.valid_from == b.valid_from
    &&& a.valid_to == b.valid_to
    &&& a.signature_algorithm == b.signature_algorithm
    &&& opt_strings_eq(a.tls_versions, b.tls_versions)
    &&& opt_strings_eq(a.cipher_suites, b.cipher_suites)
    &&& opt_strings_eq(a.vulnerabilities, b.vulnerabilities)
    &&& a.grade == b.grade
    &&& a.created_at == b.created_at
}

impl SslAnalysis {
    /// An owned copy agreeing with `self` on every field.
    pub fn snapshot(&self) -> (r: SslAnalysis)
        ensures
            ssl_eq(r, *self),
    {
        SslAnalysis {
            id: self.id.clone(),
            task_id: self.task_id.clone(),
            certificate_issuer: clone_opt_string(&self.certificate_issuer),
            certificate_subject: clone_opt_string(&self.certificate_subject),
            valid_from: self.valid_from,
            valid_to: self.valid_to,
            signature_algorithm: clone_opt_string(&self.signature_algorithm),
            tls_versions: clone_opt_strings(&self.tls_versions),
            cipher_suites: clone_opt_strings(&self.cipher_suites),
            vulnerabilities: clone_opt_strings(&self.vulnerabilities),
            grade: clone_opt_string(&self.grade),
            created_at: self.created_at,
        }
    }
}

impl DetectedTechnology {
    /// An owned copy equal to `self`.
    pub fn snapshot(&self) -> (r: DetectedTechnology)
        ensures
            r == *self,
    {
        DetectedTechnology {
            id: self.id.clone(),
            task_id: self.task_id.clone(),
            technology_name: self.technology_name.clone(),
            technology_version: clone_opt_string(&self.technology_version),
            category: self.category,
            confidence: self.confidence,
            created_at: self.created_at,
        }
    }
}

impl ScanResult {
    /// An owned copy equal to `self`.
    pub fn snapshot(&self) -> (r: ScanResult)
        ensures
            r == *self,
    {
        ScanResult {
            id: self.id.clone(),
            task_id: self.task_id.clone(),
            result_type: self.result_type,
            severity: self.severity,
            title: self.title.clone(),
            description: clone_opt_string(&self.description),
            raw_data: clone_opt_string(&self.raw_data),
            created_at: self.created_at,
        }
    }
}

/// Owned copy of a header-check vector, equal to the original.
pub fn snapshot_headers(v: &Vec<SecurityHeader>) -> (r: Vec<SecurityHeader>)
    ensures
        r@ == v@,
{
    let mut out: Vec<SecurityHeader> = Vec::new();
    let mut i: usize = 0;
    while i < v.len()
        invariant
            i <= v@.len(),
            out@ =~= v@.subrange(0, i as int),
        decreases v@.len() - i,
    {
        out.push(v[i].snapshot());
        i = i + 1;
    }
    proof {
        assert(v@.subrange(0, v@.len() as int) =~= v@);
    }
    out
}

/// Owned copy of a technology vector, equal to the original.
pub fn snapshot_technologies(v: &Vec<DetectedTechnology>) -> (r: Vec<DetectedTechnology>)
    ensures
        r@ == v@,
{
    let mut out: Vec<DetectedTechnology> = Vec::new();
    let mut i: usize = 0;
    while i < v.len()
        invariant
            i <= v@.len(),
            out@ =~= v@.subrange(0, i as int),
        decreases v@.len() - i,
    {
        out.push(v[i].snapshot());
        i = i + 1;
    }
    proof {
        assert(v@.subrange(0, v@.len() as int) =~= v@);
    }
    out
}

/// Owned copy of a finding vector, equal to the original.
pub fn snapshot_results(v: &Vec<ScanResult>) -> (r: Vec<ScanResult>)
    ensures
        r@ == v@,
{
    let mut out: Vec<ScanResult> = Vec::new();
    let mut i: usize = 0;
    while i < v.len()
        invariant
            i <= v@.len(),
            out@ =~= v@.subrange(0, i as int),
        decreases v@.len() - i,
    {
        out.push(v[i].snapshot());
        i = i + 1;
    }
    proof {
        assert(v@.subrange(0, v@.len() as int) =~= v@);
    }
    out
}

/// Accumulated output of one scan: a snapshot of its task and the output of
/// each stage. One report exists per task id once the scan begins; each stage
/// commits its output here after finishing its local computation.
#[derive(Debug, Clone)]
pub struct ScanReport {
    pub task: ScanTask,
    pub headers: Vec<SecurityHeader>,
    pub ssl_analysis: Option<SslAnalysis>,
    pub technologies: Vec<DetectedTechnology>,
    pub vulnerabilities: Vec<ScanResult>,
}

impl ScanReport {
    /// Whether any stage produced usable output: header checks, an
    /// assessment, technologies, or findings. Counting a recorded transport
    /// assessment as output is a deliberate reading of the finalization
    /// rule: it is the certificate stage's entire product, and without it a
    /// successful transport-only scan could never complete.
    pub open spec fn spec_has_output(self) -> bool {
        ||| self.headers@.len() > 0
        ||| self.vulnerabilities@.len() > 0
        ||| self.technologies@.len() > 0
        ||| self.ssl_analysis is Some
    }

    pub fn has_output(&self) -> (r: bool)
        ensures
            r == self.spec_has_output(),
    {
        self.headers.len() > 0 || self.vulnerabilities.len() > 0 || self.technologies.len() > 0
            || self.ssl_analysis.is_some()
    }

    /// An empty report for a task that has just begun.
    pub fn begin(task: ScanTask) -> (r: ScanReport)
        ensures
            r.task == task,
            r.headers@ =~= Seq::<SecurityHeader>::empty(),
            r.ssl_analysis is None,
            r.technologies@ =~= Seq::<DetectedTechnology>::empty(),
            r.vulnerabilities@ =~= Seq::<ScanResult>::empty(),
    {
        ScanReport {
            task: task,
            headers: Vec::new(),
            ssl_analysis: None,
            technologies: Vec::new(),
            vulnerabilities: Vec::new(),
        }
    }

    /// An owned copy agreeing with `self` on every field.
    pub fn snapshot(&self) -> (r: ScanReport)
        ensures
            report_eq(r, *self),
    {
        let ssl = match &self.ssl_analysis {
            Some(a) => Some(a.snapshot()),
            None => None,
        };
        ScanReport {
            task: self.task.snapshot(),
            headers: snapshot_headers(&self.headers),
            ssl_analysis: ssl,
            technologies: snapshot_technologies(&self.technologies),
            vulnerabilities: snapshot_results(&self.vulnerabilities),
        }
    }
}

/// Two optional assessments agree.
pub open spec fn opt_ssl_eq(a: Option<SslAnalysis>, b: Option<SslAnalysis>) -> bool {
    &&& (a is Some <==> b is Some)
    &&& (a is Some ==> ssl_eq(a->0, b->0))
}

/// Two reports agree: same task snapshot and the same stage output,
/// element for element.
pub open spec fn report_eq(a: ScanReport, b: ScanReport) -> bool {
    &&& a.task == b.task
    &&& a.headers@ == b.headers@
    &&& opt_ssl_eq(a.ssl_analysis, b.ssl_analysis)
    &&& a.technologies@ == b.technologies@
    &&& a.vulnerabilities@ == b.vulnerabilities@
}

/// A scanner-level error, carried as a human-readable message.
#[derive(Debug, Clone)]
pub struct ScannerError {
    pub message: String,
}

impl ScannerError {
    /// The message, prefixed as the scanner reports it.
    pub fn render(&self) -> (r: String)
        ensures
            r@ == "Scanner Error: "@ + self.message@,
    {
        let mut out = String::from_str("Scanner Error: ");
        out.append(self.message.as_str());
        out
    }
}

} // verus!
