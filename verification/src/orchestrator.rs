//! Orchestrator: validates scan requests, creates tasks, dispatches the
//! stages each scan kind requires, and finalizes task status from what the
//! stages produced. The surrounding application runs each scan concurrently
//! and performs the network traffic; it drives one scan through
//! `begin_scan`, the `record_*` operations and `finalize_scan`, all of which
//! commit to the stores only after the stage's local computation is done.

use vstd::prelude::*;
use vstd::string::StringExecFns;
use crate::models::{
    report_eq, DetectedTechnology, ScanReport, ScanResult, ScanStatus, ScanTask, ScanType,
    SecurityHeader, SslAnalysis,
};
use crate::outside::{fresh_id, now_millis};
use crate::store::{
    spec_has_report, spec_has_task, spec_finish, spec_run, ReportStore, TaskStore,
};
use crate::text::{bytes_of, match_at, str_starts_with};

verus! {

/// Why a caller-facing operation failed.
#[derive(Debug, Clone, Copy, PartialEq, Eq, Structural)]
pub enum ScanError {
    /// The target does not begin with an accepted scheme.
    InvalidTarget,
    /// The requested scan kind is not recognized.
    UnknownKind,
    /// No task or report exists under the given id.
    NotFound,
    /// A freshly generated task id collided with an existing one.
    DuplicateId,
}

impl ScanError {
    /// The human-readable message of this error.
    pub fn message(&self) -> (r: String)
        ensures
            r@ == self.spec_message(),
    {
        match self {
            ScanError::InvalidTarget => String::from_str(
                "invalid URL format: the target must start with http:// or https://",
            ),
            ScanError::UnknownKind => String::from_str("unknown scan type"),
            ScanError::NotFound => String::from_str("no such task"),
            ScanError::DuplicateId => String::from_str("generated task id already in use"),
        }
    }

    pub open spec fn spec_message(self) -> Seq<char> {
        match self {
            ScanError::InvalidTarget => {
                "invalid URL format: the target must start with http:// or https://"@
            },
            ScanError::UnknownKind => "unknown scan type"@,
            ScanError::NotFound => "no such task"@,
            ScanError::DuplicateId => "generated task id already in use"@,
        }
    }
}

/// A target is acceptable when it begins with an accepted scheme.
pub open spec fn spec_valid_target(t: Seq<char>) -> bool {
    ||| match_at(bytes_of(t), bytes_of("http://"@), 0)
    ||| match_at(bytes_of(t), bytes_of("https://"@), 0)
}

/// Executable target validation.
pub fn valid_target(url: &str) -> (r: bool)
    ensures
        r == spec_valid_target(url@),
{
    str_starts_with(url, "http://") || str_starts_with(url, "https://")
}

/// Which stages one scan kind dispatches.
#[derive(Debug, Clone, Copy, PartialEq, Eq, Structural)]
pub struct StagePlan {
    pub headers: bool,
    pub certificate: bool,
    pub vulnerability: bool,
    pub technology: bool,
    pub unimplemented: bool,
}

/// The stage-dispatch table: headers scans run the header audit alone, ssl
/// scans the certificate audit alone, vulnerability scans the probe engine
/// alone, full scans run everything (the certificate audit only for an
/// encrypted target), and quick/port scans are accepted but unimplemented.
pub open spec fn spec_plan_for(kind: ScanType, target: Seq<char>) -> StagePlan {
    match kind {
        ScanType::Headers => StagePlan {
            headers: true,
            certificate: false,
            vulnerability: false,
            technology: false,
            unimplemented: false,
        },
        ScanType::Ssl => StagePlan {
            headers: false,
            certificate: true,
            vulnerability: false,
            technology: false,
            unimplemented: false,
        },
        ScanType::Vulnerability => StagePlan {
            headers: false,
            certificate: false,
            vulnerability: true,
            technology: false,
            unimplemented: false,
        },
        ScanType::Full => StagePlan {
            headers: true,
            certificate: match_at(bytes_of(target), bytes_of("https://"@), 0),
            vulnerability: true,
            technology: true,
            unimplemented: false,
        },
        ScanType::Quick => StagePlan {
            headers: false,
            certificate: false,
            vulnerability: false,
            technology: false,
            unimplemented: true,
        },
        ScanType::Port => StagePlan {
            headers: false,
            certificate: false,
            vulnerability: false,
            technology: false,
            unimplemented: true,
        },
    }
}

/// Compute the stage plan for one scan.
pub fn plan_for(kind: ScanType, target: &str) -> (r: StagePlan)
    ensures
        r == spec_plan_for(kind, target@),
{
    match kind {
        ScanType::Headers => StagePlan {
            headers: true,
            certificate: false,
            vulnerability: false,
            technology: false,
            unimplemented: false,
        },
        ScanType::Ssl => StagePlan {
            headers: false,
            certificate: true,
            vulnerability: false,
            technology: false,
            unimplemented: false,
        },
        ScanType::Vulnerability => StagePlan {
            headers: false,
            certificate: false,
            vulnerability: true,
            technology: false,
            unimplemented: false,
        },
        ScanType::Full => StagePlan {
            headers: true,
            certificate: str_starts_with(target, "https://"),
            vulnerability: true,
            technology: true,
            unimplemented: false,
        },
        ScanType::Quick => StagePlan {
            headers: false,
            certificate: false,
            vulnerability: false,
            technology: false,
            unimplemented: true,
        },
        ScanType::Port => StagePlan {
            headers: false,
            certificate: false,
            vulnerability: false,
            technology: false,
            unimplemented: true,
        },
    }
}

/// The scan orchestration engine: the task registry and the report registry,
/// injected as one context object.
pub struct Orchestrator {
    pub tasks: TaskStore,
    pub reports: ReportStore,
}

impl Orchestrator {
    pub open spec fn wf(self) -> bool {
        &&& self.tasks.wf()
        &&& self.reports.wf()
    }

    pub fn new() -> (s: Orchestrator)
        ensures
            s.wf(),
            s.tasks.tasks@ =~= Seq::<ScanTask>::empty(),
            s.reports.reports@ =~= Seq::<ScanReport>::empty(),
    {
        Orchestrator { tasks: TaskStore::new(), reports: ReportStore::new() }
    }

    /// Create a Pending task under a caller-supplied id. Fails exactly on a
    /// bad scheme, an unknown kind, or an id already in use, in that order,
    /// and then changes nothing; no task is ever created for a rejected
    /// request.
    pub fn start_scan_with_id(
        &mut self,
        url: &str,
        scan_type: &str,
        id: String,
        now: i64,
    ) -> (r: Result<ScanType, ScanError>)
        requires
            old(self).wf(),
        ensures
            final(self).wf(),
            final(self).reports == old(self).reports,
            !spec_valid_target(url@) ==> r == Err::<ScanType, ScanError>(ScanError::InvalidTarget)
                && final(self).tasks == old(self).tasks,
            spec_valid_target(url@) && ScanType::spec_parse(scan_type@) is None ==> r == Err::<
                ScanType,
                ScanError,
            >(ScanError::UnknownKind) && final(self).tasks == old(self).tasks,
            spec_valid_target(url@) && ScanType::spec_parse(scan_type@) is Some && spec_has_task(
                old(self).tasks.tasks@,
                id@,
            ) ==> r == Err::<ScanType, ScanError>(ScanError::DuplicateId) && final(self).tasks.tasks@ == old(self).tasks.tasks@,
            spec_valid_target(url@) && ScanType::spec_parse(scan_type@) is Some && !spec_has_task(
                old(self).tasks.tasks@,
                id@,
            ) ==> {
                let ts = final(self).tasks.tasks@;
                &&& r == Ok::<ScanType, ScanError>(ScanType::spec_parse(scan_type@)->0)
                &&& ts.len() == old(self).tasks.tasks@.len() + 1
                &&& (forall|j: int|
                    0 <= j < old(self).tasks.tasks@.len() ==> ts[j] == old(self).tasks.tasks@[j])
                &&& ts.last().id == id
                &&& ts.last().target_url@ == url@
                &&& ts.last().scan_type == ScanType::spec_parse(scan_type@)->0
                &&& ts.last().status == ScanStatus::Pending
                &&& ts.last().started_at is None
                &&& ts.last().completed_at is None
                &&& ts.last().created_at == now
            },
    {
        if !valid_target(url) {
            return Err(ScanError::InvalidTarget);
        }
        let kind = match ScanType::parse(scan_type) {
            Some(k) => k,
            None => {
                return Err(ScanError::UnknownKind);
            },
        };
        let created = self.tasks.create(id, url.to_owned(), kind, now);
        if created {
            Ok(kind)
        } else {
            Err(ScanError::DuplicateId)
        }
    }

    /// Start a scan: validate the request, then create a Pending task under
    /// a freshly generated id and return that id at once; the caller's
    /// thread never waits on scan execution. A request with a bad scheme or
    /// an unrecognized kind fails synchronously and creates no task; a
    /// fresh-id collision (never observed in practice, but nothing proves
    /// the generator unique) also creates no task.
    pub fn start_scan(&mut self, url: &str, scan_type: &str) -> (r: Result<String, ScanError>)
        requires
            old(self).wf(),
        ensures
            final(self).wf(),
            final(self).reports == old(self).reports,
            !spec_valid_target(url@) ==> r == Err::<String, ScanError>(ScanError::InvalidTarget)
                && final(self).tasks == old(self).tasks,
            spec_valid_target(url@) && ScanType::spec_parse(scan_type@) is None ==> r == Err::<
                String,
                ScanError,
            >(ScanError::UnknownKind) && final(self).tasks == old(self).tasks,
            spec_valid_target(url@) && ScanType::spec_parse(scan_type@) is Some && r is Err ==> r
                == Err::<String, ScanError>(ScanError::DuplicateId) && final(self).tasks.tasks@
                == old(self).tasks.tasks@,
            r is Ok ==> {
                let ts = final(self).tasks.tasks@;
                &&& spec_valid_target(url@)
                &&& ScanType::spec_parse(scan_type@) is Some
                &&& !spec_has_task(old(self).tasks.tasks@, (r->Ok_0)@)
                &&& ts.len() == old(self).tasks.tasks@.len() + 1
                &&& (forall|j: int|
                    0 <= j < old(self).tasks.tasks@.len() ==> ts[j] == old(self).tasks.tasks@[j])
                &&& ts.last().id@ == (r->Ok_0)@
                &&& ts.last().target_url@ == url@
                &&& ts.last().scan_type == ScanType::spec_parse(scan_type@)->0
                &&& ts.last().status == ScanStatus::Pending
                &&& ts.last().started_at is None
                &&& ts.last().completed_at is None
            },
    {
        let id = fresh_id();
        let now = now_millis();
        let handle = id.clone();
        match self.start_scan_with_id(url, scan_type, id, now) {
            Ok(_) => Ok(handle),
            Err(e) => Err(e),
        }
    }

    /// Look up one task. Fails with NotFound exactly when no task carries
    /// the id.
    pub fn get_scan_status(&self, task_id: &str) -> (r: Result<ScanTask, ScanError>)
        ensures
            match r {
                Ok(t) => spec_has_task(self.tasks.tasks@, task_id@) && t.id@ == task_id@ && exists|
                    i: int,
                |
                    0 <= i < self.tasks.tasks@.len() && self.tasks.tasks@[i] == t,
                Err(e) => e == ScanError::NotFound && !spec_has_task(self.tasks.tasks@, task_id@),
            },
    {
        match self.tasks.get(task_id) {
            Some(t) => Ok(t),
            None => Err(ScanError::NotFound),
        }
    }

    /// Snapshot of every task, in creation order.
    pub fn list_scans(&self) -> (r: Vec<ScanTask>)
        ensures
            r@ == self.tasks.tasks@,
    {
        self.tasks.list()
    }

    /// Look up one report. Fails with NotFound exactly when no report exists
    /// under the id; a report exists only once the scan body has begun.
    pub fn get_scan_report(&self, task_id: &str) -> (r: Result<ScanReport, ScanError>)
        ensures
            match r {
                Ok(rep) => spec_has_report(self.reports.reports@, task_id@) && rep.task.id@
                    == task_id@ && exists|i: int|
                    0 <= i < self.reports.reports@.len() && #[trigger] report_eq(
                        rep,
                        self.reports.reports@[i],
                    ),
                Err(e) => e == ScanError::NotFound && !spec_has_report(
                    self.reports.reports@,
                    task_id@,
                ),
            },
    {
        match self.reports.get(task_id) {
            Some(rep) => Ok(rep),
            None => Err(ScanError::NotFound),
        }
    }

    /// Begin the scan body for one scan: move it from Pending to Running and
    /// create its (empty) report, consistent with the running snapshot. A
    /// second begin for the same id changes the report store nothing.
    pub fn begin_scan(&mut self, task_id: &str, now: i64) -> (r: bool)
        requires
            old(self).wf(),
        ensures
            final(self).wf(),
            r == spec_has_task(old(self).tasks.tasks@, task_id@),
            final(self).tasks.tasks@.len() == old(self).tasks.tasks@.len(),
            forall|j: int|
                0 <= j < old(self).tasks.tasks@.len() && old(self).tasks.tasks@[j].id@ != task_id@
                    ==> final(self).tasks.tasks@[j] == old(self).tasks.tasks@[j],
            forall|j: int|
                0 <= j < old(self).tasks.tasks@.len() && old(self).tasks.tasks@[j].id@ == task_id@
                    ==> final(self).tasks.tasks@[j] == spec_run(old(self).tasks.tasks@[j], now),
            !r ==> final(self).reports == old(self).reports,
            r && spec_has_report(old(self).reports.reports@, task_id@) ==> final(self).reports.reports@ == old(self).reports.reports@,
            r && !spec_has_report(old(self).reports.reports@, task_id@) ==> {
                let rs = final(self).reports.reports@;
                &&& rs.len() == old(self).reports.reports@.len() + 1
                &&& (forall|k: int|
                    0 <= k < old(self).reports.reports@.len() ==> rs[k] == old(
                        self,
                    ).reports.reports@[k])
                &&& (forall|j: int|
                    0 <= j < old(self).tasks.tasks@.len() && old(self).tasks.tasks@[j].id@
                        == task_id@ ==> rs.last().task == spec_run(old(self).tasks.tasks@[j], now))
                &&& rs.last().headers@ =~= Seq::<SecurityHeader>::empty()
                &&& rs.last().ssl_analysis is None
                &&& rs.last().technologies@ =~= Seq::<DetectedTechnology>::empty()
                &&& rs.last().vulnerabilities@ =~= Seq::<ScanResult>::empty()
            },
    {
        let found = self.tasks.mark_running(task_id, now);
        if !found {
            return false;
        }
        match self.tasks.get(task_id) {
            Some(t) => {
                self.reports.put_new(ScanReport::begin(t));
            },
            None => {},
        }
        true
    }

    /// Commit the header-audit output for one scan.
    pub fn record_headers(&mut self, task_id: &str, checks: Vec<SecurityHeader>) -> (r: bool)
        requires
            old(self).wf(),
        ensures
            final(self).wf(),
            final(self).tasks == old(self).tasks,
            r == spec_has_report(old(self).reports.reports@, task_id@),
            final(self).reports.reports@.len() == old(self).reports.reports@.len(),
            forall|k: int|
                0 <= k < old(self).reports.reports@.len() && old(
                    self,
                ).reports.reports@[k].task.id@ != task_id@ ==> final(self).reports.reports@[k]
                    == old(self).reports.reports@[k],
            forall|k: int|
                0 <= k < old(self).reports.reports@.len() && old(
                    self,
                ).reports.reports@[k].task.id@ == task_id@ ==> {
                    let n = final(self).reports.reports@[k];
                    let o = old(self).reports.reports@[k];
                    &&& n.task == o.task
                    &&& n.headers == checks
                    &&& n.ssl_analysis == o.ssl_analysis
                    &&& n.technologies == o.technologies
                    &&& n.vulnerabilities == o.vulnerabilities
                },
    {
        self.reports.set_headers(task_id, checks)
    }

    /// Commit the transport-security assessment for one scan.
    pub fn record_certificate(&mut self, task_id: &str, analysis: SslAnalysis) -> (r: bool)
        requires
            old(self).wf(),
        ensures
            final(self).wf(),
            final(self).tasks == old(self).tasks,
            r == spec_has_report(old(self).reports.reports@, task_id@),
            final(self).reports.reports@.len() == old(self).reports.reports@.len(),
            forall|k: int|
                0 <= k < old(self).reports.reports@.len() && old(
                    self,
                ).reports.reports@[k].task.id@ != task_id@ ==> final(self).reports.reports@[k]
                    == old(self).reports.reports@[k],
            forall|k: int|
                0 <= k < old(self).reports.reports@.len() && old(
                    self,
                ).reports.reports@[k].task.id@ == task_id@ ==> {
                    let n = final(self).reports.reports@[k];
                    let o = old(self).reports.reports@[k];
                    &&& n.task == o.task
                    &&& n.headers == o.headers
                    &&& n.ssl_analysis == Some(analysis)
                    &&& n.technologies == o.technologies
                    &&& n.vulnerabilities == o.vulnerabilities
                },
    {
        self.reports.set_ssl(task_id, analysis)
    }

    /// Commit the fingerprinting output for one scan.
    pub fn record_technologies(
        &mut self,
        task_id: &str,
        technologies: Vec<DetectedTechnology>,
    ) -> (r: bool)
        requires
            old(self).wf(),
        ensures
            final(self).wf(),
            final(self).tasks == old(self).tasks,
            r == spec_has_report(old(self).reports.reports@, task_id@),
            final(self).reports.reports@.len() == old(self).reports.reports@.len(),
            forall|k: int|
                0 <= k < old(self).reports.reports@.len() && old(
                    self,
                ).reports.reports@[k].task.id@ != task_id@ ==> final(self).reports.reports@[k]
                    == old(self).reports.reports@[k],
            forall|k: int|
                0 <= k < old(self).reports.reports@.len() && old(
                    self,
                ).reports.reports@[k].task.id@ == task_id@ ==> {
                    let n = final(self).reports.reports@[k];
                    let o = old(self).reports.reports@[k];
                    &&& n.task == o.task
                    &&& n.headers == o.headers
                    &&& n.ssl_analysis == o.ssl_analysis
                    &&& n.technologies == technologies
                    &&& n.vulnerabilities == o.vulnerabilities
                },
    {
        self.reports.set_technologies(task_id, technologies)
    }

    /// Commit the merged, aggregated findings for one scan.
    pub fn record_findings(&mut self, task_id: &str, findings: Vec<ScanResult>) -> (r: bool)
        requires
            old(self).wf(),
        ensures
            final(self).wf(),
            final(self).tasks == old(self).tasks,
            r == spec_has_report(old(self).reports.reports@, task_id@),
            final(self).reports.reports@.len() == old(self).reports.reports@.len(),
            forall|k: int|
                0 <= k < old(self).reports.reports@.len() && old(
                    self,
                ).reports.reports@[k].task.id@ != task_id@ ==> final(self).reports.reports@[k]
                    == old(self).reports.reports@[k],
            forall|k: int|
                0 <= k < old(self).reports.reports@.len() && old(
                    self,
                ).reports.reports@[k].task.id@ == task_id@ ==> {
                    let n = final(self).reports.reports@[k];
                    let o = old(self).reports.reports@[k];
                    &&& n.task == o.task
                    &&& n.headers == o.headers
                    &&& n.ssl_analysis == o.ssl_analysis
                    &&& n.technologies == o.technologies
                    &&& n.vulnerabilities == findings
                },
    {
        self.reports.set_vulnerabilities(task_id, findings)
    }

    /// Finalize one task: Completed when some stage produced usable output
    /// (header checks, an assessment, technologies or findings), Failed
    /// otherwise; `completed_at` is stamped exactly once, and the report's
    /// task snapshot is re-synchronized with the task store. The data model
    /// carries no failure-reason text: which stages produced nothing is
    /// read off the finished report itself, and per-stage messages stay
    /// with the caller that ran the stages.
    pub fn finalize_scan(&mut self, task_id: &str, now: i64) -> (r: bool)
        requires
            old(self).wf(),
        ensures
            final(self).wf(),
            r == spec_has_task(old(self).tasks.tasks@, task_id@),
            final(self).tasks.tasks@.len() == old(self).tasks.tasks@.len(),
            forall|j: int|
                0 <= j < old(self).tasks.tasks@.len() && old(self).tasks.tasks@[j].id@ != task_id@
                    ==> final(self).tasks.tasks@[j] == old(self).tasks.tasks@[j],
            forall|j: int|
                0 <= j < old(self).tasks.tasks@.len() && old(self).tasks.tasks@[j].id@ == task_id@
                    ==> final(self).tasks.tasks@[j] == spec_finish(
                    old(self).tasks.tasks@[j],
                    spec_report_has_output(old(self).reports.reports@, task_id@),
                    now,
                ),
            final(self).reports.reports@.len() == old(self).reports.reports@.len(),
            forall|k: int|
                0 <= k < old(self).reports.reports@.len() && old(
                    self,
                ).reports.reports@[k].task.id@ != task_id@ ==> final(self).reports.reports@[k]
                    == old(self).reports.reports@[k],
            !r ==> final(self).reports == old(self).reports,
            forall|j: int, k: int|
                0 <= j < old(self).tasks.tasks@.len() && 0 <= k < old(
                    self,
                ).reports.reports@.len() && old(self).tasks.tasks@[j].id@ == task_id@ && old(
                    self,
                ).reports.reports@[k].task.id@ == task_id@ ==> {
                    let n = final(self).reports.reports@[k];
                    let o = old(self).reports.reports@[k];
                    &&& n.task == spec_finish(
                        old(self).tasks.tasks@[j],
                        spec_report_has_output(old(self).reports.reports@, task_id@),
                        now,
                    )
                    &&& n.headers == o.headers
                    &&& n.ssl_analysis == o.ssl_analysis
                    &&& n.technologies == o.technologies
                    &&& n.vulnerabilities == o.vulnerabilities
                },
    {
        let ok = match self.reports.get(task_id) {
            Some(rep) => rep.has_output(),
            None => false,
        };
        let found = self.tasks.mark_finished(task_id, ok, now);
        if !found {
            return false;
        }
        match self.tasks.get(task_id) {
            Some(t) => {
                self.reports.sync_task(t);
            },
            None => {},
        }
        true
    }
}

/// Some report under this id records usable output.
pub open spec fn spec_report_has_output(rs: Seq<ScanReport>, id: Seq<char>) -> bool {
    exists|i: int| 0 <= i < rs.len() && rs[i].task.id@ == id && rs[i].spec_has_output()
}


} // verus!
