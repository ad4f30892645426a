//! TaskStore and ReportStore: the registries of scan tasks and accumulated
//! reports. The stores own lifecycle progress: a task's status only moves
//! forward (Pending -> Running -> Completed | Failed), each timestamp is set
//! exactly once, on the corresponding transition, and the three timestamps of
//! a finished task are ordered `created_at <= started_at <= completed_at`.

use vstd::prelude::*;
use crate::models::{
    report_eq, DetectedTechnology, ScanReport, ScanResult, ScanStatus, ScanTask, ScanType,
    SecurityHeader, SslAnalysis,
};
use crate::text::str_eq;

verus! {

/// Some task in the sequence carries this id.
pub open spec fn spec_has_task(s: Seq<ScanTask>, id: Seq<char>) -> bool {
    exists|i: int| 0 <= i < s.len() && s[i].id@ == id
}

/// All task ids in the sequence are distinct.
pub open spec fn task_ids_unique(s: Seq<ScanTask>) -> bool {
    forall|i: int, j: int| 0 <= i < j < s.len() ==> s[i].id@ != s[j].id@
}

/// Timestamp stamped on the Pending -> Running transition: the wall clock,
/// clamped so it never precedes the creation time.
pub open spec fn spec_start_stamp(t: ScanTask, now: i64) -> i64 {
    if now < t.created_at {
        t.created_at
    } else {
        now
    }
}

/// Timestamp stamped on the Running -> terminal transition: the wall clock,
/// clamped so it never precedes the start time.
pub open spec fn spec_finish_stamp(t: ScanTask, now: i64) -> i64 {
    if t.started_at is Some && now < t.started_at->0 {
        t.started_at->0
    } else {
        now
    }
}

/// The Pending -> Running transition; any other status is left unchanged.
pub open spec fn spec_run(t: ScanTask, now: i64) -> ScanTask {
    if t.status == ScanStatus::Pending {
        ScanTask {
            id: t.id,
            target_url: t.target_url,
            scan_type: t.scan_type,
            status: ScanStatus::Running,
            started_at: Some(spec_start_stamp(t, now)),
            completed_at: t.completed_at,
            created_at: t.created_at,
        }
    } else {
        t
    }
}

/// The Running -> (Completed | Failed) transition; any other status is left
/// unchanged.
pub open spec fn spec_finish(t: ScanTask, ok: bool, now: i64) -> ScanTask {
    if t.status == ScanStatus::Running {
        ScanTask {
            id: t.id,
            target_url: t.target_url,
            scan_type: t.scan_type,
            status: if ok {
                ScanStatus::Completed
            } else {
                ScanStatus::Failed
            },
            started_at: t.started_at,
            completed_at: Some(spec_finish_stamp(t, now)),
            created_at: t.created_at,
        }
    } else {
        t
    }
}

/// Registry of scan tasks. It exclusively owns the task collection; callers
/// read tasks only through owned snapshots.
pub struct TaskStore {
    pub tasks: Vec<ScanTask>,
}

impl TaskStore {
    /// Well-formedness: ids are unique and every task is well formed.
    pub open spec fn wf(self) -> bool {
        &&& task_ids_unique(self.tasks@)
        &&& forall|i: int| 0 <= i < self.tasks@.len() ==> (#[trigger] self.tasks@[i]).wf()
    }

    pub fn new() -> (s: TaskStore)
        ensures
            s.wf(),
            s.tasks@ =~= Seq::<ScanTask>::empty(),
    {
        TaskStore { tasks: Vec::new() }
    }

    /// Index of the task carrying `id`, if any.
    fn index_of(&self, id: &str) -> (r: Option<usize>)
        ensures
            match r {
                Some(i) => i < self.tasks@.len() && self.tasks@[i as int].id@ == id@,
                None => !spec_has_task(self.tasks@, id@),
            },
    {
        let n = self.tasks.len();
        let mut i: usize = 0;
        while i < n
            invariant
                n == self.tasks@.len(),
                i <= n,
                forall|k: int| 0 <= k < i ==> self.tasks@[k].id@ != id@,
            decreases n - i,
        {
            if str_eq(self.tasks[i].id.as_str(), id) {
                return Some(i);
            }
            i = i + 1;
        }
        None
    }

    /// Insert a fresh Pending task. Returns false (and changes nothing) when
    /// a task with this id already exists, so ids stay unique.
    pub fn create(
        &mut self,
        id: String,
        target_url: String,
        scan_type: ScanType,
        now: i64,
    ) -> (r: bool)
        requires
            old(self).wf(),
        ensures
            final(self).wf(),
            r == !spec_has_task(old(self).tasks@, id@),
            r ==> final(self).tasks@ =~= old(self).tasks@.push(
                ScanTask {
                    id: id,
                    target_url: target_url,
                    scan_type: scan_type,
                    status: ScanStatus::Pending,
                    started_at: None,
                    completed_at: None,
                    created_at: now,
                },
            ),
            !r ==> final(self).tasks@ == old(self).tasks@,
    {
        match self.index_of(id.as_str()) {
            Some(_) => false,
            None => {
                let task = ScanTask {
                    id: id,
                    target_url: target_url,
                    scan_type: scan_type,
                    status: ScanStatus::Pending,
                    started_at: None,
                    completed_at: None,
                    created_at: now,
                };
                self.tasks.push(task);
                true
            },
        }
    }

    /// Insert a well-formed task as it stands (an imported record, already
    /// normalized). Returns false (and changes nothing) when a task with
    /// this id already exists, so ids stay unique.
    pub fn insert_task(&mut self, task: ScanTask) -> (r: bool)
        requires
            old(self).wf(),
            task.wf(),
        ensures
            final(self).wf(),
            r == !spec_has_task(old(self).tasks@, task.id@),
            r ==> final(self).tasks@ =~= old(self).tasks@.push(task),
            !r ==> final(self).tasks@ == old(self).tasks@,
    {
        match self.index_of(task.id.as_str()) {
            Some(_) => false,
            None => {
                self.tasks.push(task);
                true
            },
        }
    }

    /// Move the task with this id from Pending to Running, stamping
    /// `started_at` once. A task in any other state is left unchanged, so
    /// status only ever moves forward. Returns whether the id was found.
    pub fn mark_running(&mut self, id: &str, now: i64) -> (r: bool)
        requires
            old(self).wf(),
        ensures
            final(self).wf(),
            r == spec_has_task(old(self).tasks@, id@),
            final(self).tasks@.len() == old(self).tasks@.len(),
            forall|j: int|
                0 <= j < old(self).tasks@.len() && old(self).tasks@[j].id@ != id@
                    ==> final(self).tasks@[j] == old(self).tasks@[j],
            forall|j: int|
                0 <= j < old(self).tasks@.len() && old(self).tasks@[j].id@ == id@
                    ==> final(self).tasks@[j] == spec_run(old(self).tasks@[j], now),
            forall|j: int|
                0 <= j < old(self).tasks@.len() ==> (#[trigger] old(
                    self,
                ).tasks@[j]).status.spec_rank() <= final(self).tasks@[j].status.spec_rank(),
            forall|j: int|
                0 <= j < old(self).tasks@.len() && (#[trigger] old(
                    self,
                ).tasks@[j]).status.is_terminal() ==> final(self).tasks@[j] == old(self).tasks@[j],
    {
        match self.index_of(id) {
            Some(i) => {
                let t = &self.tasks[i];
                if matches!(t.status, ScanStatus::Pending) {
                    let stamp = if now < t.created_at {
                        t.created_at
                    } else {
                        now
                    };
                    let updated = ScanTask {
                        id: t.id.clone(),
                        target_url: t.target_url.clone(),
                        scan_type: t.scan_type,
                        status: ScanStatus::Running,
                        started_at: Some(stamp),
                        completed_at: t.completed_at,
                        created_at: t.created_at,
                    };
                    self.tasks[i] = updated;
                }
                true
            },
            None => false,
        }
    }

    /// Move the task with this id from Running to Completed (`ok`) or Failed
    /// (`!ok`), stamping `completed_at` once. A task in any other state is
    /// left unchanged: a terminal status never reverts. Returns whether the
    /// id was found.
    pub fn mark_finished(&mut self, id: &str, ok: bool, now: i64) -> (r: bool)
        requires
            old(self).wf(),
        ensures
            final(self).wf(),
            r == spec_has_task(old(self).tasks@, id@),
            final(self).tasks@.len() == old(self).tasks@.len(),
            forall|j: int|
                0 <= j < old(self).tasks@.len() && old(self).tasks@[j].id@ != id@
                    ==> final(self).tasks@[j] == old(self).tasks@[j],
            forall|j: int|
                0 <= j < old(self).tasks@.len() && old(self).tasks@[j].id@ == id@
                    ==> final(self).tasks@[j] == spec_finish(old(self).tasks@[j], ok, now),
            forall|j: int|
                0 <= j < old(self).tasks@.len() ==> (#[trigger] old(
                    self,
                ).tasks@[j]).status.spec_rank() <= final(self).tasks@[j].status.spec_rank(),
            forall|j: int|
                0 <= j < old(self).tasks@.len() && (#[trigger] old(
                    self,
                ).tasks@[j]).status.is_terminal() ==> final(self).tasks@[j] == old(self).tasks@[j],
    {
        match self.index_of(id) {
            Some(i) => {
                let t = &self.tasks[i];
                if matches!(t.status, ScanStatus::Running) {
                    let started = match t.started_at {
                        Some(s) => s,
                        None => t.created_at,
                    };
                    let stamp = if now < started {
                        started
                    } else {
                        now
                    };
                    let updated = ScanTask {
                        id: t.id.clone(),
                        target_url: t.target_url.clone(),
                        scan_type: t.scan_type,
                        status: if ok {
                            ScanStatus::Completed
                        } else {
                            ScanStatus::Failed
                        },
                        started_at: t.started_at,
                        completed_at: Some(stamp),
                        created_at: t.created_at,
                    };
                    self.tasks[i] = updated;
                }
                true
            },
            None => false,
        }
    }

    /// Owned snapshot of the task carrying this id.
    pub fn get(&self, id: &str) -> (r: Option<ScanTask>)
        ensures
            match r {
                Some(t) => spec_has_task(self.tasks@, id@) && t.id@ == id@ && exists|i: int|
                    0 <= i < self.tasks@.len() && self.tasks@[i] == t,
                None => !spec_has_task(self.tasks@, id@),
            },
    {
        match self.index_of(id) {
            Some(i) => Some(self.tasks[i].snapshot()),
            None => None,
        }
    }

    /// Owned snapshot of every task, in insertion order.
    pub fn list(&self) -> (r: Vec<ScanTask>)
        ensures
            r@ == self.tasks@,
    {
        let mut out: Vec<ScanTask> = Vec::new();
        let mut i: usize = 0;
        while i < self.tasks.len()
            invariant
                i <= self.tasks@.len(),
                out@ =~= self.tasks@.subrange(0, i as int),
            decreases self.tasks@.len() - i,
        {
            out.push(self.tasks[i].snapshot());
            i = i + 1;
        }
        proof {
            assert(self.tasks@.subrange(0, self.tasks@.len() as int) =~= self.tasks@);
        }
        out
    }
}

/// Some report in the sequence belongs to the given scan id.
pub open spec fn spec_has_report(s: Seq<ScanReport>, id: Seq<char>) -> bool {
    exists|i: int| 0 <= i < s.len() && s[i].task.id@ == id
}

/// All report keys (task ids) in the sequence are distinct.
pub open spec fn report_ids_unique(s: Seq<ScanReport>) -> bool {
    forall|i: int, j: int| 0 <= i < j < s.len() ==> s[i].task.id@ != s[j].task.id@
}

/// Registry of accumulated reports, one per task id. It exclusively owns the
/// report collection; callers read reports only through owned snapshots.
pub struct ReportStore {
    pub reports: Vec<ScanReport>,
}

impl ReportStore {
    /// Well-formedness: one report per task id.
    pub open spec fn wf(self) -> bool {
        report_ids_unique(self.reports@)
    }

    pub fn new() -> (s: ReportStore)
        ensures
            s.wf(),
            s.reports@ =~= Seq::<ScanReport>::empty(),
    {
        ReportStore { reports: Vec::new() }
    }

    /// Index of the report belonging to `id`, if any.
    fn index_of(&self, id: &str) -> (r: Option<usize>)
        ensures
            match r {
                Some(i) => i < self.reports@.len() && self.reports@[i as int].task.id@ == id@,
                None => !spec_has_report(self.reports@, id@),
            },
    {
        let n = self.reports.len();
        let mut i: usize = 0;
        while i < n
            invariant
                n == self.reports@.len(),
                i <= n,
                forall|k: int| 0 <= k < i ==> self.reports@[k].task.id@ != id@,
            decreases n - i,
        {
            if str_eq(self.reports[i].task.id.as_str(), id) {
                return Some(i);
            }
            i = i + 1;
        }
        None
    }

    /// Insert the report for a task that has just begun. Returns false (and
    /// changes nothing) when a report for the given scan id already exists.
    pub fn put_new(&mut self, report: ScanReport) -> (r: bool)
        requires
            old(self).wf(),
        ensures
            final(self).wf(),
            r == !spec_has_report(old(self).reports@, report.task.id@),
            r ==> final(self).reports@ =~= old(self).reports@.push(report),
            !r ==> final(self).reports@ == old(self).reports@,
    {
        match self.index_of(report.task.id.as_str()) {
            Some(_) => false,
            None => {
                self.reports.push(report);
                true
            },
        }
    }

    /// Commit the header-audit output into the report for the given scan id.
    /// Returns whether the id was found; no other report changes.
    pub fn set_headers(&mut self, id: &str, headers: Vec<SecurityHeader>) -> (r: bool)
        requires
            old(self).wf(),
        ensures
            final(self).wf(),
            r == spec_has_report(old(self).reports@, id@),
            final(self).reports@.len() == old(self).reports@.len(),
            forall|j: int|
                0 <= j < old(self).reports@.len() && old(self).reports@[j].task.id@ != id@
                    ==> final(self).reports@[j] == old(self).reports@[j],
            forall|j: int|
                0 <= j < old(self).reports@.len() && old(self).reports@[j].task.id@ == id@ ==> {
                    &&& final(self).reports@[j].task == old(self).reports@[j].task
                    &&& final(self).reports@[j].headers == headers
                    &&& final(self).reports@[j].ssl_analysis == old(self).reports@[j].ssl_analysis
                    &&& final(self).reports@[j].technologies == old(self).reports@[j].technologies
                    &&& final(self).reports@[j].vulnerabilities == old(
                        self,
                    ).reports@[j].vulnerabilities
                },
    {
        match self.index_of(id) {
            Some(i) => {
                let mut rep = self.reports.remove(i);
                rep.headers = headers;
                self.reports.insert(i, rep);
                proof {
                    assert(final(self).reports@ =~= old(self).reports@.update(
                        i as int,
                        final(self).reports@[i as int],
                    ));
                }
                true
            },
            None => false,
        }
    }

    /// Commit the transport-security assessment into the report for this
    /// task id. Returns whether the id was found; no other report changes.
    pub fn set_ssl(&mut self, id: &str, analysis: SslAnalysis) -> (r: bool)
        requires
            old(self).wf(),
        ensures
            final(self).wf(),
            r == spec_has_report(old(self).reports@, id@),
            final(self).reports@.len() == old(self).reports@.len(),
            forall|j: int|
                0 <= j < old(self).reports@.len() && old(self).reports@[j].task.id@ != id@
                    ==> final(self).reports@[j] == old(self).reports@[j],
            forall|j: int|
                0 <= j < old(self).reports@.len() && old(self).reports@[j].task.id@ == id@ ==> {
                    &&& final(self).reports@[j].task == old(self).reports@[j].task
                    &&& final(self).reports@[j].headers == old(self).reports@[j].headers
                    &&& final(self).reports@[j].ssl_analysis == Some(analysis)
                    &&& final(self).reports@[j].technologies == old(self).reports@[j].technologies
                    &&& final(self).reports@[j].vulnerabilities == old(
                        self,
                    ).reports@[j].vulnerabilities
                },
    {
        match self.index_of(id) {
            Some(i) => {
                let mut rep = self.reports.remove(i);
                rep.ssl_analysis = Some(analysis);
                self.reports.insert(i, rep);
                proof {
                    assert(final(self).reports@ =~= old(self).reports@.update(
                        i as int,
                        final(self).reports@[i as int],
                    ));
                }
                true
            },
            None => false,
        }
    }

    /// Commit the fingerprinting output into the report for the given scan id.
    /// Returns whether the id was found; no other report changes.
    pub fn set_technologies(&mut self, id: &str, technologies: Vec<DetectedTechnology>) -> (r:
        bool)
        requires
            old(self).wf(),
        ensures
            final(self).wf(),
            r == spec_has_report(old(self).reports@, id@),
            final(self).reports@.len() == old(self).reports@.len(),
            forall|j: int|
                0 <= j < old(self).reports@.len() && old(self).reports@[j].task.id@ != id@
                    ==> final(self).reports@[j] == old(self).reports@[j],
            forall|j: int|
                0 <= j < old(self).reports@.len() && old(self).reports@[j].task.id@ == id@ ==> {
                    &&& final(self).reports@[j].task == old(self).reports@[j].task
                    &&& final(self).reports@[j].headers == old(self).reports@[j].headers
                    &&& final(self).reports@[j].ssl_analysis == old(self).reports@[j].ssl_analysis
                    &&& final(self).reports@[j].technologies == technologies
                    &&& final(self).reports@[j].vulnerabilities == old(
                        self,
                    ).reports@[j].vulnerabilities
                },
    {
        match self.index_of(id) {
            Some(i) => {
                let mut rep = self.reports.remove(i);
                rep.technologies = technologies;
                self.reports.insert(i, rep);
                proof {
                    assert(final(self).reports@ =~= old(self).reports@.update(
                        i as int,
                        final(self).reports@[i as int],
                    ));
                }
                true
            },
            None => false,
        }
    }

    /// Commit probe findings by replacing the findings list of the report for
    /// the given scan id (the aggregator has already merged old and new findings).
    /// Returns whether the id was found; no other report changes.
    pub fn set_vulnerabilities(&mut self, id: &str, findings: Vec<ScanResult>) -> (r: bool)
        requires
            old(self).wf(),
        ensures
            final(self).wf(),
            r == spec_has_report(old(self).reports@, id@),
            final(self).reports@.len() == old(self).reports@.len(),
            forall|j: int|
                0 <= j < old(self).reports@.len() && old(self).reports@[j].task.id@ != id@
                    ==> final(self).reports@[j] == old(self).reports@[j],
            forall|j: int|
                0 <= j < old(self).reports@.len() && old(self).reports@[j].task.id@ == id@ ==> {
                    &&& final(self).reports@[j].task == old(self).reports@[j].task
                    &&& final(self).reports@[j].headers == old(self).reports@[j].headers
                    &&& final(self).reports@[j].ssl_analysis == old(self).reports@[j].ssl_analysis
                    &&& final(self).reports@[j].technologies == old(self).reports@[j].technologies
                    &&& final(self).reports@[j].vulnerabilities == findings
                },
    {
        match self.index_of(id) {
            Some(i) => {
                let mut rep = self.reports.remove(i);
                rep.vulnerabilities = findings;
                self.reports.insert(i, rep);
                proof {
                    assert(final(self).reports@ =~= old(self).reports@.update(
                        i as int,
                        final(self).reports@[i as int],
                    ));
                }
                true
            },
            None => false,
        }
    }

    /// Re-synchronize the report's task snapshot with the task store, keyed
    /// by the task's own id. Returns whether the id was found; no other
    /// report changes.
    pub fn sync_task(&mut self, task: ScanTask) -> (r: bool)
        requires
            old(self).wf(),
        ensures
            final(self).wf(),
            r == spec_has_report(old(self).reports@, task.id@),
            final(self).reports@.len() == old(self).reports@.len(),
            forall|j: int|
                0 <= j < old(self).reports@.len() && old(self).reports@[j].task.id@ != task.id@
                    ==> final(self).reports@[j] == old(self).reports@[j],
            forall|j: int|
                0 <= j < old(self).reports@.len() && old(self).reports@[j].task.id@ == task.id@
                    ==> {
                    &&& final(self).reports@[j].task == task
                    &&& final(self).reports@[j].headers == old(self).reports@[j].headers
                    &&& final(self).reports@[j].ssl_analysis == old(self).reports@[j].ssl_analysis
                    &&& final(self).reports@[j].technologies == old(self).reports@[j].technologies
                    &&& final(self).reports@[j].vulnerabilities == old(
                        self,
                    ).reports@[j].vulnerabilities
                },
    {
        match self.index_of(task.id.as_str()) {
            Some(i) => {
                let mut rep = self.reports.remove(i);
                rep.task = task;
                self.reports.insert(i, rep);
                proof {
                    assert(final(self).reports@ =~= old(self).reports@.update(
                        i as int,
                        final(self).reports@[i as int],
                    ));
                }
                true
            },
            None => false,
        }
    }

    /// Owned snapshot of the report belonging to the given scan id.
    pub fn get(&self, id: &str) -> (r: Option<ScanReport>)
        ensures
            match r {
                Some(rep) => spec_has_report(self.reports@, id@) && rep.task.id@ == id@
                    && exists|i: int|
                    0 <= i < self.reports@.len() && #[trigger] report_eq(rep, self.reports@[i]),
                None => !spec_has_report(self.reports@, id@),
            },
    {
        match self.index_of(id) {
            Some(i) => Some(self.reports[i].snapshot()),
            None => None,
        }
    }
}

/// Finalization always leaves a running task in a terminal status --
/// Completed exactly when some stage produced usable output -- and a task
/// already terminal is never touched again, so a caller that polls a task id
/// eventually observes Completed or Failed and never sees it revert.
pub proof fn lemma_finalize_terminal(t: ScanTask, ok: bool, now: i64)
    ensures
        t.status == ScanStatus::Running ==> spec_finish(t, ok, now).status.is_terminal(),
        t.status == ScanStatus::Running ==> (spec_finish(t, ok, now).status
            == ScanStatus::Completed <==> ok),
        t.status.is_terminal() ==> spec_finish(t, ok, now) == t && spec_run(t, now) == t,
{
}

/// The three timestamps of a well-formed finished task are ordered:
/// `created_at <= started_at <= completed_at` whenever all three are present.
/// The stores stamp them exactly this way, so every snapshot they hand out
/// satisfies it.
pub proof fn lemma_timestamps_ordered(t: ScanTask)
    requires
        t.wf(),
        t.started_at is Some,
        t.completed_at is Some,
    ensures
        t.created_at <= t.started_at->0,
        t.started_at->0 <= t.completed_at->0,
{
}

} // verus!
