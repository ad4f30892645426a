//! Offline collaboration records: export of scan tasks and findings as
//! plain records with ISO-8601 timestamp text and lowercase enum encodings,
//! import of such records into the stores, and deduplication keyed purely on
//! identifier equality. The core guarantees identifier uniqueness and stable
//! enum encodings; this module is the boundary the collaboration consumer
//! sees. Serialization itself (and its encryption) happens outside the
//! library, on the records defined here.

use vstd::prelude::*;
use vstd::string::{StrSliceExecFns, StringExecFns};
use crate::models::{
    clone_opt_string, report_eq, ResultType, ScanReport, ScanResult, ScanStatus, ScanTask,
    ScanType, Severity,
};
use crate::orchestrator::Orchestrator;
use crate::store::{spec_has_report, spec_has_task};
use crate::outside::{
    format_rfc3339, fresh_id, parse_rfc3339_millis, rfc3339_of, rfc3339_parse_of,
    MAX_FORMATTED_MILLIS,
};
use crate::text::{bytes_of, contains_lower, str_contains_lower, str_eq};

verus! {

/// Header of one export bundle.
#[derive(Debug, Clone)]
pub struct ExportMetadata {
    pub version: String,
    pub format: String,
    pub encryption: Option<String>,
    pub exported_by: String,
    pub team_id: Option<String>,
    pub exported_at: String,
    pub checksum: Option<String>,
}

/// One scan task as exported: timestamps as RFC 3339 text, status in its
/// stable lowercase encoding.
#[derive(Debug, Clone)]
pub struct ExportScanTask {
    pub id: String,
    pub name: String,
    pub target: String,
    pub status: String,
    pub created_at: String,
    pub started_at: Option<String>,
    pub completed_at: Option<String>,
    pub created_by: String,
}

/// One finding as exported. A numeric vendor score is carried only by the
/// outside serialization layer, not by these records.
#[derive(Debug, Clone)]
pub struct ExportFinding {
    pub id: String,
    pub scan_id: String,
    pub finding_type: String,
    pub severity: String,
    pub title: String,
    pub description: String,
    pub affected_url: Option<String>,
    pub evidence: Option<String>,
    pub recommendation: Option<String>,
    pub discovered_at: String,
    pub discovered_by: String,
    pub cve_id: Option<String>,
}

/// An analyst's note on one finding.
#[derive(Debug, Clone)]
pub struct Annotation {
    pub id: String,
    pub finding_id: String,
    pub author: String,
    pub content: String,
    pub created_at: String,
    pub is_false_positive: Option<bool>,
    pub priority: Option<String>,
}

/// One discovered asset.
#[derive(Debug, Clone)]
pub struct Asset {
    pub id: String,
    pub hostname: String,
    pub ip_address: Option<String>,
    pub ports: Option<Vec<u16>>,
    pub services: Option<Vec<String>>,
    pub technologies: Option<Vec<String>>,
    pub discovered_at: String,
}

/// One export bundle.
#[derive(Debug, Clone)]
pub struct ExportData {
    pub metadata: ExportMetadata,
    pub scans: Vec<ExportScanTask>,
    pub findings: Vec<ExportFinding>,
    pub annotations: Option<Vec<Annotation>>,
    pub assets: Option<Vec<Asset>>,
}

/// Outcome of one import.
#[derive(Debug, Clone)]
pub struct ImportResult {
    pub success: bool,
    pub imported: ImportCounts,
    pub skipped: ImportCounts,
    pub errors: Vec<String>,
}

/// Per-record-kind counters of one import.
#[derive(Debug, Clone, Copy, PartialEq, Eq, Structural)]
pub struct ImportCounts {
    pub scans: i32,
    pub findings: i32,
    pub annotations: i32,
    pub assets: i32,
}

/// Identifiers found duplicated in an import bundle.
#[derive(Debug, Clone)]
pub struct DuplicateIds {
    pub scans: Vec<String>,
    pub findings: Vec<String>,
}

/// A deduplicated bundle together with the dropped identifiers.
#[derive(Debug, Clone)]
pub struct DeduplicateResult {
    pub duplicates: DuplicateIds,
    pub unique: ExportData,
}

/// Some scan record in the sequence carries this id.
pub open spec fn scans_have_id(s: Seq<ExportScanTask>, id: Seq<char>) -> bool {
    exists|i: int| 0 <= i < s.len() && s[i].id@ == id
}

/// Deduplication of scan records by exact id equality, keeping the first
/// occurrence.
pub open spec fn dedup_scans(s: Seq<ExportScanTask>) -> Seq<ExportScanTask>
    decreases s.len(),
{
    if s.len() == 0 {
        Seq::empty()
    } else if scans_have_id(s.drop_last(), s.last().id@) {
        dedup_scans(s.drop_last())
    } else {
        dedup_scans(s.drop_last()).push(s.last())
    }
}

/// Some finding record in the sequence carries this id.
pub open spec fn findings_have_id(s: Seq<ExportFinding>, id: Seq<char>) -> bool {
    exists|i: int| 0 <= i < s.len() && s[i].id@ == id
}

/// Deduplication of finding records by exact id equality, keeping the first
/// occurrence.
pub open spec fn dedup_export_findings(s: Seq<ExportFinding>) -> Seq<ExportFinding>
    decreases s.len(),
{
    if s.len() == 0 {
        Seq::empty()
    } else if findings_have_id(s.drop_last(), s.last().id@) {
        dedup_export_findings(s.drop_last())
    } else {
        dedup_export_findings(s.drop_last()).push(s.last())
    }
}

/// Some annotation in the sequence carries this id.
pub open spec fn annotations_have_id(s: Seq<Annotation>, id: Seq<char>) -> bool {
    exists|i: int| 0 <= i < s.len() && s[i].id@ == id
}

/// Deduplication of annotations by exact id equality.
pub open spec fn dedup_annotations(s: Seq<Annotation>) -> Seq<Annotation>
    decreases s.len(),
{
    if s.len() == 0 {
        Seq::empty()
    } else if annotations_have_id(s.drop_last(), s.last().id@) {
        dedup_annotations(s.drop_last())
    } else {
        dedup_annotations(s.drop_last()).push(s.last())
    }
}

/// Some asset in the sequence carries this id.
pub open spec fn assets_have_id(s: Seq<Asset>, id: Seq<char>) -> bool {
    exists|i: int| 0 <= i < s.len() && s[i].id@ == id
}

/// Deduplication of assets by exact id equality.
pub open spec fn dedup_assets(s: Seq<Asset>) -> Seq<Asset>
    decreases s.len(),
{
    if s.len() == 0 {
        Seq::empty()
    } else if assets_have_id(s.drop_last(), s.last().id@) {
        dedup_assets(s.drop_last())
    } else {
        dedup_assets(s.drop_last()).push(s.last())
    }
}

/// Some string in the vector equals this id.
fn vec_has_id(v: &Vec<String>, id: &str) -> (r: bool)
    ensures
        r == exists|i: int| 0 <= i < v@.len() && (#[trigger] v@[i])@ == id@,
{
    let n = v.len();
    let mut i: usize = 0;
    while i < n
        invariant
            n == v@.len(),
            i <= n,
            forall|k: int| 0 <= k < i ==> (#[trigger] v@[k])@ != id@,
        decreases n - i,
    {
        if str_eq(v[i].as_str(), id) {
            return true;
        }
        i = i + 1;
    }
    false
}

/// Deduplicate an import bundle by identifier equality alone (not content
/// similarity): within each record kind, the first record under each id is
/// kept, the rest are dropped. The metadata is passed through unchanged.
pub fn deduplicate_import_data(data: ExportData) -> (r: ExportData)
    ensures
        r.metadata == data.metadata,
        r.scans@ == dedup_scans(data.scans@),
        r.findings@ == dedup_export_findings(data.findings@),
        (r.annotations is Some <==> data.annotations is Some),
        data.annotations is Some ==> r.annotations->0@ == dedup_annotations(
            data.annotations->0@,
        ),
        (r.assets is Some <==> data.assets is Some),
        data.assets is Some ==> r.assets->0@ == dedup_assets(data.assets->0@),
{
    let ExportData { metadata, scans, findings, annotations, assets } = data;
    let ghost scans_all = scans@;
    let ghost findings_all = findings@;

    let mut unique_scans: Vec<ExportScanTask> = Vec::new();
    let mut seen_scan_ids: Vec<String> = Vec::new();
    let mut rest = scans;
    let total_scans = rest.len();
    let mut i: usize = 0;
    proof {
        assert(scans_all.subrange(0, 0) =~= Seq::<ExportScanTask>::empty());
        assert(rest@ =~= scans_all.subrange(0, scans_all.len() as int));
    }
    while rest.len() > 0
        invariant
            total_scans == scans_all.len(),
            i + rest@.len() == scans_all.len(),
            rest@ == scans_all.subrange(i as int, scans_all.len() as int),
            unique_scans@ == dedup_scans(scans_all.subrange(0, i as int)),
            seen_scan_ids@.len() == i,
            forall|k: int| 0 <= k < i ==> (#[trigger] seen_scan_ids@[k])@ == scans_all[k].id@,
        decreases rest@.len(),
    {
        let scan = rest.remove(0);
        proof {
            assert(scan == scans_all[i as int]);
            assert(rest@ =~= scans_all.subrange(i + 1 as int, scans_all.len() as int));
            let pre = scans_all.subrange(0, i + 1 as int);
            assert(pre.drop_last() =~= scans_all.subrange(0, i as int));
            assert(pre.last() == scans_all[i as int]);
            let id = scans_all[i as int].id@;
            let pre_i = scans_all.subrange(0, i as int);
            if scans_have_id(pre_i, id) {
                let k = choose|k: int| 0 <= k < pre_i.len() && pre_i[k].id@ == id;
                assert(pre_i[k] == scans_all[k]);
                assert(seen_scan_ids@[k]@ == id);
            }
            if exists|k: int| 0 <= k < i && (#[trigger] seen_scan_ids@[k])@ == id {
                let k = choose|k: int| 0 <= k < i && (#[trigger] seen_scan_ids@[k])@ == id;
                assert(pre_i[k].id@ == id);
                assert(scans_have_id(pre_i, id));
            }
        }
        let fresh = !vec_has_id(&seen_scan_ids, scan.id.as_str());
        seen_scan_ids.push(scan.id.clone());
        if fresh {
            unique_scans.push(scan);
        }
        i = i + 1;
    }
    proof {
        assert(scans_all.subrange(0, scans_all.len() as int) =~= scans_all);
    }

    let mut unique_findings: Vec<ExportFinding> = Vec::new();
    let mut seen_finding_ids: Vec<String> = Vec::new();
    let mut frest = findings;
    let total_findings = frest.len();
    let mut j: usize = 0;
    proof {
        assert(findings_all.subrange(0, 0) =~= Seq::<ExportFinding>::empty());
        assert(frest@ =~= findings_all.subrange(0, findings_all.len() as int));
    }
    while frest.len() > 0
        invariant
            total_findings == findings_all.len(),
            j + frest@.len() == findings_all.len(),
            frest@ == findings_all.subrange(j as int, findings_all.len() as int),
            unique_findings@ == dedup_export_findings(findings_all.subrange(0, j as int)),
            seen_finding_ids@.len() == j,
            forall|k: int|
                0 <= k < j ==> (#[trigger] seen_finding_ids@[k])@ == findings_all[k].id@,
        decreases frest@.len(),
    {
        let finding = frest.remove(0);
        proof {
            assert(finding == findings_all[j as int]);
            assert(frest@ =~= findings_all.subrange(j + 1 as int, findings_all.len() as int));
            let pre = findings_all.subrange(0, j + 1 as int);
            assert(pre.drop_last() =~= findings_all.subrange(0, j as int));
            assert(pre.last() == findings_all[j as int]);
            let id = findings_all[j as int].id@;
            let pre_j = findings_all.subrange(0, j as int);
            if findings_have_id(pre_j, id) {
                let k = choose|k: int| 0 <= k < pre_j.len() && pre_j[k].id@ == id;
                assert(pre_j[k] == findings_all[k]);
                assert(seen_finding_ids@[k]@ == id);
            }
            if exists|k: int| 0 <= k < j && (#[trigger] seen_finding_ids@[k])@ == id {
                let k = choose|k: int| 0 <= k < j && (#[trigger] seen_finding_ids@[k])@ == id;
                assert(pre_j[k].id@ == id);
                assert(findings_have_id(pre_j, id));
            }
        }
        let fresh = !vec_has_id(&seen_finding_ids, finding.id.as_str());
        seen_finding_ids.push(finding.id.clone());
        if fresh {
            unique_findings.push(finding);
        }
        j = j + 1;
    }
    proof {
        assert(findings_all.subrange(0, findings_all.len() as int) =~= findings_all);
    }

    let unique_annotations = match annotations {
        Some(list) => {
            let ghost all = list@;
            let mut unique: Vec<Annotation> = Vec::new();
            let mut seen: Vec<String> = Vec::new();
            let mut arest = list;
            let total = arest.len();
            let mut k: usize = 0;
            proof {
                assert(all.subrange(0, 0) =~= Seq::<Annotation>::empty());
                assert(arest@ =~= all.subrange(0, all.len() as int));
            }
            while arest.len() > 0
                invariant
                    total == all.len(),
                    k + arest@.len() == all.len(),
                    arest@ == all.subrange(k as int, all.len() as int),
                    unique@ == dedup_annotations(all.subrange(0, k as int)),
                    seen@.len() == k,
                    forall|m: int| 0 <= m < k ==> (#[trigger] seen@[m])@ == all[m].id@,
                decreases arest@.len(),
            {
                let a = arest.remove(0);
                proof {
                    assert(a == all[k as int]);
                    assert(arest@ =~= all.subrange(k + 1 as int, all.len() as int));
                    let pre = all.subrange(0, k + 1 as int);
                    assert(pre.drop_last() =~= all.subrange(0, k as int));
                    assert(pre.last() == all[k as int]);
                    let id = all[k as int].id@;
                    let pre_k = all.subrange(0, k as int);
                    if annotations_have_id(pre_k, id) {
                        let m = choose|m: int| 0 <= m < pre_k.len() && pre_k[m].id@ == id;
                        assert(pre_k[m] == all[m]);
                        assert(seen@[m]@ == id);
                    }
                    if exists|m: int| 0 <= m < k && (#[trigger] seen@[m])@ == id {
                        let m = choose|m: int| 0 <= m < k && (#[trigger] seen@[m])@ == id;
                        assert(pre_k[m].id@ == id);
                        assert(annotations_have_id(pre_k, id));
                    }
                }
                let fresh = !vec_has_id(&seen, a.id.as_str());
                seen.push(a.id.clone());
                if fresh {
                    unique.push(a);
                }
                k = k + 1;
            }
            proof {
                assert(all.subrange(0, all.len() as int) =~= all);
            }
            Some(unique)
        },
        None => None,
    };

    let unique_assets = match assets {
        Some(list) => {
            let ghost all = list@;
            let mut unique: Vec<Asset> = Vec::new();
            let mut seen: Vec<String> = Vec::new();
            let mut arest = list;
            let total = arest.len();
            let mut k: usize = 0;
            proof {
                assert(all.subrange(0, 0) =~= Seq::<Asset>::empty());
                assert(arest@ =~= all.subrange(0, all.len() as int));
            }
            while arest.len() > 0
                invariant
                    total == all.len(),
                    k + arest@.len() == all.len(),
                    arest@ == all.subrange(k as int, all.len() as int),
                    unique@ == dedup_assets(all.subrange(0, k as int)),
                    seen@.len() == k,
                    forall|m: int| 0 <= m < k ==> (#[trigger] seen@[m])@ == all[m].id@,
                decreases arest@.len(),
            {
                let a = arest.remove(0);
                proof {
                    assert(a == all[k as int]);
                    assert(arest@ =~= all.subrange(k + 1 as int, all.len() as int));
                    let pre = all.subrange(0, k + 1 as int);
                    assert(pre.drop_last() =~= all.subrange(0, k as int));
                    assert(pre.last() == all[k as int]);
                    let id = all[k as int].id@;
                    let pre_k = all.subrange(0, k as int);
                    if assets_have_id(pre_k, id) {
                        let m = choose|m: int| 0 <= m < pre_k.len() && pre_k[m].id@ == id;
                        assert(pre_k[m] == all[m]);
                        assert(seen@[m]@ == id);
                    }
                    if exists|m: int| 0 <= m < k && (#[trigger] seen@[m])@ == id {
                        let m = choose|m: int| 0 <= m < k && (#[trigger] seen@[m])@ == id;
                        assert(pre_k[m].id@ == id);
                        assert(assets_have_id(pre_k, id));
                    }
                }
                let fresh = !vec_has_id(&seen, a.id.as_str());
                seen.push(a.id.clone());
                if fresh {
                    unique.push(a);
                }
                k = k + 1;
            }
            proof {
                assert(all.subrange(0, all.len() as int) =~= all);
            }
            Some(unique)
        },
        None => None,
    };

    ExportData {
        metadata: metadata,
        scans: unique_scans,
        findings: unique_findings,
        annotations: unique_annotations,
        assets: unique_assets,
    }
}

/// Timestamp text for export: the RFC 3339 form where the value is in
/// range, empty text otherwise.
fn fmt_ts(t: i64) -> (r: String)
    ensures
        0 <= t <= MAX_FORMATTED_MILLIS ==> r@ == rfc3339_of(t),
{
    match format_rfc3339(t) {
        Some(s) => s,
        None => String::new(),
    }
}

/// First position of '/' in the text at or after `i`; the length where none
/// occurs.
pub open spec fn spec_first_slash(u: Seq<char>, i: int) -> int
    decreases u.len() - i,
{
    if i < 0 || i >= u.len() {
        u.len() as int
    } else if u[i] == '/' {
        i
    } else {
        spec_first_slash(u, i + 1)
    }
}

/// How many leading characters belong to a recognized scheme prefix.
pub open spec fn spec_scheme_chars(u: Seq<char>) -> int {
    if u.len() >= 8 && u.subrange(0, 8) == "https://"@ {
        8
    } else if u.len() >= 7 && u.subrange(0, 7) == "http://"@ {
        7
    } else {
        0
    }
}

/// The host part of a target URL: what stands between the scheme prefix and
/// the first slash after it.
pub open spec fn spec_host_of(u: Seq<char>) -> Seq<char> {
    u.subrange(spec_scheme_chars(u), spec_first_slash(u, spec_scheme_chars(u)))
}

/// Scan forward to the first '/'.
fn first_slash_at(url: &str, start: usize) -> (r: usize)
    requires
        start <= url@.len(),
    ensures
        r as int == spec_first_slash(url@, start as int),
        start <= r <= url@.len(),
{
    let n = url.unicode_len();
    let mut e = start;
    loop
        invariant
            n == url@.len(),
            start <= e <= n,
            spec_first_slash(url@, start as int) == spec_first_slash(url@, e as int),
        decreases n - e,
    {
        if e == n {
            return e;
        }
        if url.get_char(e) == '/' {
            return e;
        }
        e = e + 1;
    }
}

/// Extract the host from a target URL.
pub fn host_of(url: &str) -> (r: String)
    ensures
        r@ == spec_host_of(url@),
{
    let n = url.unicode_len();
    let start: usize = if n >= 8 && str_eq(url.substring_char(0, 8), "https://") {
        8
    } else if n >= 7 && str_eq(url.substring_char(0, 7), "http://") {
        7
    } else {
        0
    };
    let e = first_slash_at(url, start);
    url.substring_char(start, e).to_owned()
}

/// The millisecond form of the optional `since` filter; `None` where the
/// text is absent or not valid RFC 3339 (then nothing is filtered out).
pub open spec fn spec_since_millis(since: Option<String>) -> Option<i64> {
    match since {
        Some(s) => rfc3339_parse_of(s@),
        None => None,
    }
}

/// Whether a task passes the export filters.
pub open spec fn spec_task_included(
    t: ScanTask,
    ids: Option<Vec<String>>,
    since_m: Option<i64>,
) -> bool {
    &&& (match ids {
        Some(l) => exists|i: int| 0 <= i < l@.len() && (#[trigger] l@[i])@ == t.id@,
        None => true,
    })
    &&& (match since_m {
        Some(s) => t.created_at >= s,
        None => true,
    })
}

/// The tasks an export includes, in store order.
pub open spec fn spec_included(
    ts: Seq<ScanTask>,
    ids: Option<Vec<String>>,
    since_m: Option<i64>,
) -> Seq<ScanTask>
    decreases ts.len(),
{
    if ts.len() == 0 {
        Seq::empty()
    } else if spec_task_included(ts.last(), ids, since_m) {
        spec_included(ts.drop_last(), ids, since_m).push(ts.last())
    } else {
        spec_included(ts.drop_last(), ids, since_m)
    }
}

/// The stored report under the given scan id, if any (ids are unique in a
/// well-formed store, so this is the report).
pub open spec fn spec_report_for(rs: Seq<ScanReport>, id: Seq<char>) -> Option<ScanReport>
    decreases rs.len(),
{
    if rs.len() == 0 {
        None
    } else if rs[0].task.id@ == id {
        Some(rs[0])
    } else {
        spec_report_for(rs.drop_first(), id)
    }
}

/// With unique report keys, `spec_report_for` finds exactly the report that
/// carries the id.
proof fn lemma_report_for(rs: Seq<ScanReport>, id: Seq<char>)
    requires
        crate::store::report_ids_unique(rs),
    ensures
        spec_report_for(rs, id) is Some <==> spec_has_report(rs, id),
        forall|x: int|
            0 <= x < rs.len() && (#[trigger] rs[x]).task.id@ == id ==> spec_report_for(rs, id)
                == Some(rs[x]),
    decreases rs.len(),
{
    if rs.len() == 0 {
    } else if rs[0].task.id@ == id {
        assert(spec_has_report(rs, id));
    } else {
        let d = rs.drop_first();
        assert(crate::store::report_ids_unique(d)) by {
            assert(forall|a: int, b: int|
                0 <= a < b < d.len() ==> d[a] == rs[a + 1] && d[b] == rs[b + 1]);
        }
        lemma_report_for(d, id);
        if spec_has_report(rs, id) {
            let w = choose|w: int| 0 <= w < rs.len() && rs[w].task.id@ == id;
            assert(w > 0);
            assert(d[w - 1] == rs[w]);
            assert(spec_has_report(d, id));
        }
        if spec_has_report(d, id) {
            let w = choose|w: int| 0 <= w < d.len() && d[w].task.id@ == id;
            assert(rs[w + 1] == d[w]);
            assert(spec_has_report(rs, id));
        }
        assert(forall|x: int|
            1 <= x < rs.len() && (#[trigger] rs[x]).task.id@ == id ==> d[x - 1] == rs[x]
                && spec_report_for(d, id) == Some(rs[x]));
    }
}

/// The (finding, task) pairs an export owes: for each included task, in
/// store order, the findings of its report, in report order.
pub open spec fn spec_export_pairs(reports: Seq<ScanReport>, included: Seq<ScanTask>) -> Seq<
    (ScanResult, ScanTask),
>
    decreases included.len(),
{
    if included.len() == 0 {
        Seq::empty()
    } else {
        spec_export_pairs(reports, included.drop_last()) + (match spec_report_for(
            reports,
            included.last().id@,
        ) {
            Some(rep) => rep.vulnerabilities@.map_values(
                |f: ScanResult| (f, included.last()),
            ),
            None => Seq::empty(),
        })
    }
}

/// What one exported finding record owes to its finding and its task: the
/// finding's identifiers and title as given, the stable lowercase encodings
/// of its record kind and effective severity, RFC 3339 discovery text (for
/// an in-range timestamp), the task's target as the affected URL, and the
/// evidence carried through.
pub open spec fn export_finding_ok(e: ExportFinding, f: ScanResult, t: ScanTask) -> bool {
    &&& e.id == f.id
    &&& e.scan_id == t.id
    &&& e.finding_type@ == f.result_type.spec_name()
    &&& e.severity@ == f.spec_effective_severity().spec_name()
    &&& e.title == f.title
    &&& e.description@ == (match f.description {
        Some(d) => d@,
        None => Seq::<char>::empty(),
    })
    &&& e.affected_url is Some && e.affected_url->0 == t.target_url
    &&& e.evidence == f.raw_data
    &&& e.recommendation is None
    &&& (0 <= f.created_at <= MAX_FORMATTED_MILLIS ==> e.discovered_at@ == rfc3339_of(
        f.created_at,
    ))
    &&& e.discovered_by@ == "redforge"@
    &&& e.cve_id is None
}

/// What one derived asset owes to its scan record and that scan's report:
/// the host cut from the record's target, the report's technology names in
/// report order, and the record's creation text as the discovery time.
pub open spec fn export_asset_ok(a: Asset, e: ExportScanTask, rep: ScanReport) -> bool {
    &&& a.hostname@ == spec_host_of(e.target@)
    &&& a.ip_address is None
    &&& a.ports is None
    &&& a.services is None
    &&& a.technologies is Some
    &&& a.technologies->0@.len() == rep.technologies@.len()
    &&& forall|q: int|
        0 <= q < rep.technologies@.len() ==> (#[trigger] a.technologies->0@[q])
            == rep.technologies@[q].technology_name
    &&& a.discovered_at == e.created_at
}

/// Which exported scans derive an asset, by index in export order: those
/// whose report records technologies or a transport assessment.
pub open spec fn spec_asset_sources(reports: Seq<ScanReport>, scans: Seq<ExportScanTask>) -> Seq<
    int,
>
    decreases scans.len(),
{
    if scans.len() == 0 {
        Seq::empty()
    } else {
        let prev = spec_asset_sources(reports, scans.drop_last());
        match spec_report_for(reports, scans.last().id@) {
            Some(rep) => {
                if rep.technologies@.len() > 0 || rep.ssl_analysis is Some {
                    prev.push(scans.len() - 1)
                } else {
                    prev
                }
            },
            None => prev,
        }
    }
}

/// Every asset-source index lies inside the scan list.
proof fn lemma_asset_sources_bounds(reports: Seq<ScanReport>, scans: Seq<ExportScanTask>)
    ensures
        forall|m: int|
            0 <= m < spec_asset_sources(reports, scans).len() ==> 0 <= (
            #[trigger] spec_asset_sources(reports, scans)[m]) < scans.len(),
    decreases scans.len(),
{
    if scans.len() == 0 {
    } else {
        lemma_asset_sources_bounds(reports, scans.drop_last());
        let prev = spec_asset_sources(reports, scans.drop_last());
        let cur = spec_asset_sources(reports, scans);
        assert forall|m: int| 0 <= m < cur.len() implies 0 <= (#[trigger] cur[m])
            < scans.len() by {
            if m < prev.len() {
                assert(cur[m] == prev[m]);
            } else {
                assert(cur[m] == scans.len() - 1);
            }
        }
    }
}

/// What one exported scan record owes to its task: same id and target, the
/// kind and target joined as the display name, the stable status encoding,
/// RFC 3339 timestamp text (for in-range timestamps), and the exporting
/// user.
pub open spec fn export_entry_ok(e: ExportScanTask, t: ScanTask) -> bool {
    &&& e.id@ == t.id@
    &&& e.target@ == t.target_url@
    &&& e.name@ == t.scan_type.spec_name() + " - "@ + t.target_url@
    &&& e.status@ == t.status.spec_name()
    &&& (0 <= t.created_at <= MAX_FORMATTED_MILLIS ==> e.created_at@ == rfc3339_of(t.created_at))
    &&& (e.started_at is Some <==> t.started_at is Some)
    &&& (t.started_at is Some && 0 <= t.started_at->0 <= MAX_FORMATTED_MILLIS
        ==> e.started_at->0@ == rfc3339_of(t.started_at->0))
    &&& (e.completed_at is Some <==> t.completed_at is Some)
    &&& (t.completed_at is Some && 0 <= t.completed_at->0 <= MAX_FORMATTED_MILLIS
        ==> e.completed_at->0@ == rfc3339_of(t.completed_at->0))
    &&& e.created_by@ == "user"@
}

/// Map one task to its export record.
fn export_scan_entry(t: &ScanTask) -> (e: ExportScanTask)
    ensures
        export_entry_ok(e, *t),
{
    let mut name = t.scan_type.name();
    name.append(" - ");
    name.append(t.target_url.as_str());
    ExportScanTask {
        id: t.id.clone(),
        name: name,
        target: t.target_url.clone(),
        status: t.status.name(),
        created_at: fmt_ts(t.created_at),
        started_at: match t.started_at {
            Some(s) => Some(fmt_ts(s)),
            None => None,
        },
        completed_at: match t.completed_at {
            Some(c) => Some(fmt_ts(c)),
            None => None,
        },
        created_by: String::from_str("user"),
    }
}

/// Assemble the export bundle for offline collaboration: the tasks passing
/// the id and `since` filters, their findings (unless only scan shells are
/// wanted), optionally an (empty) annotation list, and optionally the assets
/// derived from the included scans. Encryption and the file format are
/// handled outside the library.
pub fn export_scan_data(
    orch: &Orchestrator,
    scan_ids: Option<Vec<String>>,
    include_findings_only: bool,
    include_annotations: bool,
    include_assets: bool,
    since: Option<String>,
    now: i64,
) -> (r: ExportData)
    requires
        orch.wf(),
    ensures
        r.metadata.version@ == "1.0.0"@,
        r.metadata.format@ == "encrypted-markdown"@,
        r.metadata.encryption is None,
        r.metadata.exported_by@ == "system"@,
        r.metadata.team_id is None,
        r.metadata.checksum is None,
        0 <= now <= MAX_FORMATTED_MILLIS ==> r.metadata.exported_at@ == rfc3339_of(now),
        ({
            let included = spec_included(
                orch.tasks.tasks@,
                scan_ids,
                spec_since_millis(since),
            );
            &&& r.scans@.len() == included.len()
            &&& forall|k: int|
                0 <= k < included.len() ==> export_entry_ok(#[trigger] r.scans@[k], included[k])
        }),
        include_findings_only ==> r.findings@.len() == 0,
        !include_findings_only ==> ({
            let pairs = spec_export_pairs(
                orch.reports.reports@,
                spec_included(orch.tasks.tasks@, scan_ids, spec_since_millis(since)),
            );
            &&& r.findings@.len() == pairs.len()
            &&& forall|k: int|
                0 <= k < pairs.len() ==> export_finding_ok(
                    #[trigger] r.findings@[k],
                    pairs[k].0,
                    pairs[k].1,
                )
        }),
        (r.annotations is Some <==> include_annotations),
        include_annotations ==> r.annotations->0@.len() == 0,
        (r.assets is Some <==> include_assets),
        include_assets ==> ({
            let sources = spec_asset_sources(orch.reports.reports@, r.scans@);
            &&& r.assets->0@.len() == sources.len()
            &&& forall|m: int|
                0 <= m < sources.len() ==> export_asset_ok(
                    r.assets->0@[m],
                    r.scans@[#[trigger] sources[m]],
                    spec_report_for(orch.reports.reports@, r.scans@[sources[m]].id@)->0,
                )
        }),
{
    let since_m: Option<i64> = match &since {
        Some(s) => parse_rfc3339_millis(s.as_str()),
        None => None,
    };
    let metadata = ExportMetadata {
        version: String::from_str("1.0.0"),
        format: String::from_str("encrypted-markdown"),
        encryption: None,
        exported_by: String::from_str("system"),
        team_id: None,
        exported_at: fmt_ts(now),
        checksum: None,
    };
    let mut scans: Vec<ExportScanTask> = Vec::new();
    let mut findings: Vec<ExportFinding> = Vec::new();
    let n = orch.tasks.tasks.len();
    let mut i: usize = 0;
    proof {
        assert(orch.tasks.tasks@.subrange(0, 0) =~= Seq::<ScanTask>::empty());
    }
    while i < n
        invariant
            orch.wf(),
            n == orch.tasks.tasks@.len(),
            i <= n,
            ({
                let included = spec_included(
                    orch.tasks.tasks@.subrange(0, i as int),
                    scan_ids,
                    since_m,
                );
                &&& scans@.len() == included.len()
                &&& forall|k: int|
                    0 <= k < included.len() ==> export_entry_ok(
                        #[trigger] scans@[k],
                        included[k],
                    )
            }),
            since_m == spec_since_millis(since),
            include_findings_only ==> findings@.len() == 0,
            !include_findings_only ==> ({
                let pairs = spec_export_pairs(
                    orch.reports.reports@,
                    spec_included(orch.tasks.tasks@.subrange(0, i as int), scan_ids, since_m),
                );
                &&& findings@.len() == pairs.len()
                &&& forall|k: int|
                    0 <= k < pairs.len() ==> export_finding_ok(
                        #[trigger] findings@[k],
                        pairs[k].0,
                        pairs[k].1,
                    )
            }),
        decreases n - i,
    {
        proof {
            let pre = orch.tasks.tasks@.subrange(0, i + 1 as int);
            assert(pre.drop_last() =~= orch.tasks.tasks@.subrange(0, i as int));
            assert(pre.last() == orch.tasks.tasks@[i as int]);
        }
        let t = &orch.tasks.tasks[i];
        let id_ok = match &scan_ids {
            Some(l) => vec_has_id(l, t.id.as_str()),
            None => true,
        };
        let since_ok = match since_m {
            Some(s) => t.created_at >= s,
            None => true,
        };
        if id_ok && since_ok {
            scans.push(export_scan_entry(t));
            proof {
                lemma_report_for(orch.reports.reports@, t.id@);
            }
            let ghost base = findings@;
            let ghost task_val = orch.tasks.tasks@[i as int];
            if !include_findings_only {
                match orch.reports.get(t.id.as_str()) {
                    Some(report) => {
                        let ghost stored = choose|x: int|
                            0 <= x < orch.reports.reports@.len() && report_eq(
                                report,
                                orch.reports.reports@[x],
                            );
                        proof {
                            assert(orch.reports.reports@[stored].task.id@ == t.id@);
                            assert(spec_report_for(orch.reports.reports@, t.id@) == Some(
                                orch.reports.reports@[stored],
                            ));
                            assert(report.vulnerabilities@
                                == orch.reports.reports@[stored].vulnerabilities@);
                        }
                        let m = report.vulnerabilities.len();
                        let mut v: usize = 0;
                        while v < m
                            invariant
                                m == report.vulnerabilities@.len(),
                                report.task.id@ == task_val.id@,
                                v <= m,
                                *t == task_val,
                                findings@.len() == base.len() + v,
                                forall|k: int| 0 <= k < base.len() ==> findings@[k] == base[k],
                                forall|w: int|
                                    0 <= w < v ==> export_finding_ok(
                                        #[trigger] findings@[base.len() + w],
                                        report.vulnerabilities@[w],
                                        task_val,
                                    ),
                            decreases m - v,
                        {
                            let f = &report.vulnerabilities[v];
                            let entry = ExportFinding {
                                id: f.id.clone(),
                                scan_id: t.id.clone(),
                                finding_type: f.result_type.name(),
                                severity: f.effective_severity().name(),
                                title: f.title.clone(),
                                description: match &f.description {
                                    Some(d) => d.clone(),
                                    None => String::new(),
                                },
                                affected_url: Some(t.target_url.clone()),
                                evidence: clone_opt_string(&f.raw_data),
                                recommendation: None,
                                discovered_at: fmt_ts(f.created_at),
                                discovered_by: String::from_str("redforge"),
                                cve_id: None,
                            };
                            findings.push(entry);
                            v = v + 1;
                        }
                        proof {
                            let rep_v = orch.reports.reports@[stored];
                            let inc1 = spec_included(
                                orch.tasks.tasks@.subrange(0, i + 1 as int),
                                scan_ids,
                                since_m,
                            );
                            let inc0 = spec_included(
                                orch.tasks.tasks@.subrange(0, i as int),
                                scan_ids,
                                since_m,
                            );
                            assert(inc1 =~= inc0.push(task_val));
                            assert(inc1.drop_last() =~= inc0);
                            assert(inc1.last() == task_val);
                            let seg = rep_v.vulnerabilities@.map_values(
                                |ff: ScanResult| (ff, task_val),
                            );
                            let pairs0 = spec_export_pairs(orch.reports.reports@, inc0);
                            let pairs1 = spec_export_pairs(orch.reports.reports@, inc1);
                            assert(inc1.drop_last() == inc0);
                            assert(pairs1 == pairs0 + seg);
                            assert(base.len() == pairs0.len());
                            assert forall|k: int| 0 <= k < pairs1.len() implies export_finding_ok(
                                #[trigger] findings@[k],
                                pairs1[k].0,
                                pairs1[k].1,
                            ) by {
                                if k < pairs0.len() {
                                    assert(findings@[k] == base[k]);
                                    assert(export_finding_ok(base[k], pairs0[k].0, pairs0[k].1));
                                    assert(pairs1[k] == pairs0[k]);
                                } else {
                                    let w = k - pairs0.len();
                                    assert(seg[w] == (rep_v.vulnerabilities@[w], task_val));
                                    assert(pairs1[k] == seg[w]);
                                    assert(report.vulnerabilities@[w]
                                        == rep_v.vulnerabilities@[w]);
                                    assert(export_finding_ok(
                                        findings@[base.len() + w],
                                        report.vulnerabilities@[w],
                                        task_val,
                                    ));
                                }
                            }
                        }
                    },
                    None => {
                        proof {
                            let inc1 = spec_included(
                                orch.tasks.tasks@.subrange(0, i + 1 as int),
                                scan_ids,
                                since_m,
                            );
                            let inc0 = spec_included(
                                orch.tasks.tasks@.subrange(0, i as int),
                                scan_ids,
                                since_m,
                            );
                            assert(inc1.drop_last() =~= inc0);
                            assert(inc1.last() == task_val);
                        }
                    },
                }
            }
        }
        i = i + 1;
    }
    proof {
        assert(orch.tasks.tasks@.subrange(0, n as int) =~= orch.tasks.tasks@);
    }
    let annotations = if include_annotations {
        Some(Vec::<Annotation>::new())
    } else {
        None
    };
    let assets = if include_assets {
        let mut asset_list: Vec<Asset> = Vec::new();
        let mut s: usize = 0;
        proof {
            assert(scans@.subrange(0, 0) =~= Seq::<ExportScanTask>::empty());
        }
        while s < scans.len()
            invariant
                orch.wf(),
                s <= scans@.len(),
                ({
                    let sources = spec_asset_sources(
                        orch.reports.reports@,
                        scans@.subrange(0, s as int),
                    );
                    &&& asset_list@.len() == sources.len()
                    &&& forall|m: int|
                        0 <= m < sources.len() ==> 0 <= sources[m] < s && export_asset_ok(
                            asset_list@[m],
                            scans@[#[trigger] sources[m]],
                            spec_report_for(
                                orch.reports.reports@,
                                scans@[sources[m]].id@,
                            )->0,
                        )
                }),
            decreases scans@.len() - s,
        {
            let ghost prefix = scans@.subrange(0, s as int);
            let ghost prefix1 = scans@.subrange(0, s + 1 as int);
            proof {
                assert(prefix1.drop_last() =~= prefix);
                assert(prefix1.last() == scans@[s as int]);
                lemma_report_for(orch.reports.reports@, scans@[s as int].id@);
                lemma_asset_sources_bounds(orch.reports.reports@, prefix);
            }
            match orch.reports.get(scans[s].id.as_str()) {
                Some(report) => {
                    let ghost stored = choose|x: int|
                        0 <= x < orch.reports.reports@.len() && report_eq(
                            report,
                            orch.reports.reports@[x],
                        );
                    proof {
                        assert(orch.reports.reports@[stored].task.id@ == scans@[s as int].id@);
                        assert(spec_report_for(orch.reports.reports@, scans@[s as int].id@)
                            == Some(orch.reports.reports@[stored]));
                    }
                    let mut technologies: Vec<String> = Vec::new();
                    let mut q: usize = 0;
                    while q < report.technologies.len()
                        invariant
                            q <= report.technologies@.len(),
                            technologies@.len() == q,
                            forall|w: int|
                                0 <= w < q ==> (#[trigger] technologies@[w])
                                    == report.technologies@[w].technology_name,
                        decreases report.technologies@.len() - q,
                    {
                        technologies.push(report.technologies[q].technology_name.clone());
                        q = q + 1;
                    }
                    if technologies.len() > 0 || report.ssl_analysis.is_some() {
                        let a = Asset {
                            id: fresh_id(),
                            hostname: host_of(scans[s].target.as_str()),
                            ip_address: None,
                            ports: None,
                            services: None,
                            technologies: Some(technologies),
                            discovered_at: scans[s].created_at.clone(),
                        };
                        proof {
                            let rep_v = orch.reports.reports@[stored];
                            assert(export_asset_ok(a, scans@[s as int], rep_v));
                            assert(spec_asset_sources(orch.reports.reports@, prefix1)
                                == spec_asset_sources(orch.reports.reports@, prefix).push(
                                s as int,
                            ));
                        }
                        asset_list.push(a);
                    } else {
                        proof {
                            assert(spec_asset_sources(orch.reports.reports@, prefix1)
                                == spec_asset_sources(orch.reports.reports@, prefix));
                        }
                    }
                },
                None => {
                    proof {
                        assert(spec_asset_sources(orch.reports.reports@, prefix1)
                            == spec_asset_sources(orch.reports.reports@, prefix));
                    }
                },
            }
            s = s + 1;
        }
        proof {
            assert(scans@.subrange(0, scans@.len() as int) =~= scans@);
        }
        Some(asset_list)
    } else {
        None
    };
    ExportData { metadata, scans, findings, annotations, assets }
}

/// Which kind an imported record's display name denotes, by the first kind
/// word its lower-cased name contains; anything else reads as a full scan.
pub open spec fn spec_kind_from_name(n: Seq<char>) -> ScanType {
    if contains_lower(bytes_of(n), bytes_of("full"@)) {
        ScanType::Full
    } else if contains_lower(bytes_of(n), bytes_of("quick"@)) {
        ScanType::Quick
    } else if contains_lower(bytes_of(n), bytes_of("vulnerability"@)) {
        ScanType::Vulnerability
    } else if contains_lower(bytes_of(n), bytes_of("port"@)) {
        ScanType::Port
    } else if contains_lower(bytes_of(n), bytes_of("ssl"@)) {
        ScanType::Ssl
    } else if contains_lower(bytes_of(n), bytes_of("headers"@)) {
        ScanType::Headers
    } else {
        ScanType::Full
    }
}

/// Executable form of the kind-from-name reading.
pub fn kind_from_name(n: &str) -> (r: ScanType)
    ensures
        r == spec_kind_from_name(n@),
{
    if str_contains_lower(n, "full") {
        ScanType::Full
    } else if str_contains_lower(n, "quick") {
        ScanType::Quick
    } else if str_contains_lower(n, "vulnerability") {
        ScanType::Vulnerability
    } else if str_contains_lower(n, "port") {
        ScanType::Port
    } else if str_contains_lower(n, "ssl") {
        ScanType::Ssl
    } else if str_contains_lower(n, "headers") {
        ScanType::Headers
    } else {
        ScanType::Full
    }
}

/// Normalization of imported timestamps: the timestamps a status requires
/// are filled in from the creation time where missing, and clamped so that
/// `created_at <= started_at <= completed_at`; timestamps a status forbids
/// are dropped.
pub open spec fn spec_normalized_task(
    id: String,
    target_url: String,
    scan_type: ScanType,
    status: ScanStatus,
    created_at: i64,
    started_at: Option<i64>,
    completed_at: Option<i64>,
) -> ScanTask {
    let started_raw = match started_at {
        Some(s) => s,
        None => created_at,
    };
    let started = if started_raw < created_at {
        created_at
    } else {
        started_raw
    };
    let completed_raw = match completed_at {
        Some(c) => c,
        None => started,
    };
    let completed = if completed_raw < started {
        started
    } else {
        completed_raw
    };
    match status {
        ScanStatus::Pending => ScanTask {
            id,
            target_url,
            scan_type,
            status,
            started_at: None,
            completed_at: None,
            created_at,
        },
        ScanStatus::Running => ScanTask {
            id,
            target_url,
            scan_type,
            status,
            started_at: Some(started),
            completed_at: None,
            created_at,
        },
        ScanStatus::Completed => ScanTask {
            id,
            target_url,
            scan_type,
            status,
            started_at: Some(started),
            completed_at: Some(completed),
            created_at,
        },
        ScanStatus::Failed => ScanTask {
            id,
            target_url,
            scan_type,
            status,
            started_at: Some(started),
            completed_at: Some(completed),
            created_at,
        },
    }
}

/// Build the normalized, well-formed task for an imported record.
pub fn make_wf_task(
    id: String,
    target_url: String,
    scan_type: ScanType,
    status: ScanStatus,
    created_at: i64,
    started_at: Option<i64>,
    completed_at: Option<i64>,
) -> (t: ScanTask)
    ensures
        t == spec_normalized_task(
            id,
            target_url,
            scan_type,
            status,
            created_at,
            started_at,
            completed_at,
        ),
        t.wf(),
{
    let started_raw = match started_at {
        Some(s) => s,
        None => created_at,
    };
    let started = if started_raw < created_at {
        created_at
    } else {
        started_raw
    };
    let completed_raw = match completed_at {
        Some(c) => c,
        None => started,
    };
    let completed = if completed_raw < started {
        started
    } else {
        completed_raw
    };
    match status {
        ScanStatus::Pending => ScanTask {
            id,
            target_url,
            scan_type,
            status,
            started_at: None,
            completed_at: None,
            created_at,
        },
        ScanStatus::Running => ScanTask {
            id,
            target_url,
            scan_type,
            status,
            started_at: Some(started),
            completed_at: None,
            created_at,
        },
        ScanStatus::Completed => ScanTask {
            id,
            target_url,
            scan_type,
            status,
            started_at: Some(started),
            completed_at: Some(completed),
            created_at,
        },
        ScanStatus::Failed => ScanTask {
            id,
            target_url,
            scan_type,
            status,
            started_at: Some(started),
            completed_at: Some(completed),
            created_at,
        },
    }
}

/// Count one more, staying at the counter's ceiling instead of wrapping.
fn sat_inc(c: i32) -> (r: i32)
    ensures
        c < i32::MAX ==> r == c + 1,
        r >= c,
{
    if c < i32::MAX {
        c + 1
    } else {
        c
    }
}

/// Count `n` more, staying at the counter's ceiling instead of wrapping.
fn sat_add(c: i32, n: usize) -> (r: i32)
    ensures
        r >= c,
{
    if n <= i32::MAX as usize && c <= i32::MAX - (n as i32) {
        c + (n as i32)
    } else {
        i32::MAX
    }
}

/// The task an imported scan record denotes: identifiers and target as
/// given, kind read from the display name, status and timestamps read
/// leniently (text that does not parse reads as `now`), normalized to a
/// well-formed task.
pub open spec fn spec_import_task(rec: ExportScanTask, now: i64) -> ScanTask {
    spec_normalized_task(
        rec.id,
        rec.target,
        spec_kind_from_name(rec.name@),
        ScanStatus::spec_parse_lenient(rec.status@),
        match rfc3339_parse_of(rec.created_at@) {
            Some(t) => t,
            None => now,
        },
        match rec.started_at {
            Some(s) => rfc3339_parse_of(s@),
            None => None,
        },
        match rec.completed_at {
            Some(s) => rfc3339_parse_of(s@),
            None => None,
        },
    )
}

/// The task store after an import: one task appended per record whose id is
/// not yet taken, in bundle order; later records under a taken id change
/// nothing.
pub open spec fn spec_imported_tasks(
    tasks: Seq<ScanTask>,
    scans: Seq<ExportScanTask>,
    now: i64,
) -> Seq<ScanTask>
    decreases scans.len(),
{
    if scans.len() == 0 {
        tasks
    } else {
        let prev = spec_imported_tasks(tasks, scans.drop_last(), now);
        if spec_has_task(prev, scans.last().id@) {
            prev
        } else {
            prev.push(spec_import_task(scans.last(), now))
        }
    }
}

/// The finding an imported record denotes, read leniently.
pub open spec fn spec_import_finding(f: ExportFinding, now: i64) -> ScanResult {
    ScanResult {
        id: f.id,
        task_id: f.scan_id,
        result_type: ResultType::spec_parse_lenient(f.finding_type@),
        severity: Some(Severity::spec_parse_lenient(f.severity@)),
        title: f.title,
        description: Some(f.description),
        raw_data: f.evidence,
        created_at: match rfc3339_parse_of(f.discovered_at@) {
            Some(t) => t,
            None => now,
        },
    }
}

/// The bundle's findings for one scan id, in bundle order.
pub open spec fn spec_import_findings(
    findings: Seq<ExportFinding>,
    id: Seq<char>,
    now: i64,
) -> Seq<ScanResult>
    decreases findings.len(),
{
    if findings.len() == 0 {
        Seq::empty()
    } else {
        spec_import_findings(findings.drop_last(), id, now) + (if findings.last().scan_id@
            == id {
            seq![spec_import_finding(findings.last(), now)]
        } else {
            Seq::empty()
        })
    }
}

/// What the report created for one imported record must hold: the record's
/// normalized task and exactly the bundle's findings for its id, nothing
/// from any stage.
pub open spec fn imported_report_ok(
    rep: ScanReport,
    rec: ExportScanTask,
    findings: Seq<ExportFinding>,
    now: i64,
) -> bool {
    &&& rep.task == spec_import_task(rec, now)
    &&& rep.headers@.len() == 0
    &&& rep.ssl_analysis is None
    &&& rep.technologies@.len() == 0
    &&& rep.vulnerabilities@ == spec_import_findings(findings, rec.id@, now)
}

/// The ids of the import model: an id is taken after the import exactly
/// when a task held it before or some bundle record carries it.
proof fn lemma_imported_tasks_ids(
    tasks: Seq<ScanTask>,
    scans: Seq<ExportScanTask>,
    now: i64,
    id: Seq<char>,
)
    ensures
        spec_has_task(spec_imported_tasks(tasks, scans, now), id) == (spec_has_task(tasks, id)
            || scans_have_id(scans, id)),
    decreases scans.len(),
{
    if scans.len() == 0 {
        assert(!scans_have_id(scans, id));
    } else {
        let d = scans.drop_last();
        lemma_imported_tasks_ids(tasks, d, now, id);
        let prev = spec_imported_tasks(tasks, d, now);
        let last = scans.last();
        let cur = spec_imported_tasks(tasks, scans, now);

        // scans_have_id(scans, id) == scans_have_id(d, id) || last.id@ == id
        if scans_have_id(scans, id) && !(scans_have_id(d, id) || last.id@ == id) {
            let w = choose|w: int| 0 <= w < scans.len() && scans[w].id@ == id;
            if w < scans.len() - 1 {
                assert(d[w].id@ == id);
            } else {
                assert(scans[w] == last);
            }
            assert(false);
        }
        if scans_have_id(d, id) {
            let w = choose|w: int| 0 <= w < d.len() && d[w].id@ == id;
            assert(scans[w].id@ == id);
            assert(scans_have_id(scans, id));
        }
        if last.id@ == id {
            assert(scans[scans.len() - 1].id@ == id);
            assert(scans_have_id(scans, id));
        }

        if spec_has_task(prev, last.id@) {
            assert(cur == prev);
            // the last record's id is already covered on both sides
            lemma_imported_tasks_ids(tasks, d, now, last.id@);
            assert(spec_has_task(tasks, last.id@) || scans_have_id(d, last.id@));
        } else {
            assert(cur == prev.push(spec_import_task(last, now)));
            assert(spec_import_task(last, now).id == last.id);
            if spec_has_task(cur, id) && !spec_has_task(prev, id) && last.id@ != id {
                let w = choose|w: int| 0 <= w < cur.len() && cur[w].id@ == id;
                if w < cur.len() - 1 {
                    assert(prev[w].id@ == id);
                    assert(spec_has_task(prev, id));
                } else {
                    assert(cur[w] == spec_import_task(last, now));
                }
                assert(false);
            }
            if spec_has_task(prev, id) {
                let w = choose|w: int| 0 <= w < prev.len() && prev[w].id@ == id;
                assert(cur[w].id@ == id);
                assert(spec_has_task(cur, id));
            }
            if last.id@ == id {
                assert(cur[cur.len() - 1].id@ == id);
                assert(spec_has_task(cur, id));
            }
        }
    }
}

/// A record is imported exactly when it is the bundle's first record under
/// its id and no task holds that id yet.
pub open spec fn spec_record_imported(
    old_tasks: Seq<ScanTask>,
    scans: Seq<ExportScanTask>,
    i: int,
) -> bool {
    &&& 0 <= i < scans.len()
    &&& !scans_have_id(scans.subrange(0, i), scans[i].id@)
    &&& !spec_has_task(old_tasks, scans[i].id@)
}

/// Collect the bundle's findings for one scan id, read leniently.
fn collect_findings_for(
    findings: &Vec<ExportFinding>,
    id: &str,
    now: i64,
) -> (r: Vec<ScanResult>)
    ensures
        r@ == spec_import_findings(findings@, id@, now),
{
    let mut out: Vec<ScanResult> = Vec::new();
    let m = findings.len();
    let mut v: usize = 0;
    proof {
        assert(findings@.subrange(0, 0) =~= Seq::<ExportFinding>::empty());
    }
    while v < m
        invariant
            m == findings@.len(),
            v <= m,
            out@ == spec_import_findings(findings@.subrange(0, v as int), id@, now),
        decreases m - v,
    {
        proof {
            let fpre = findings@.subrange(0, v + 1 as int);
            assert(fpre.drop_last() =~= findings@.subrange(0, v as int));
            assert(fpre.last() == findings@[v as int]);
        }
        let f = &findings[v];
        if str_eq(f.scan_id.as_str(), id) {
            let discovered = match parse_rfc3339_millis(f.discovered_at.as_str()) {
                Some(t) => t,
                None => now,
            };
            let result = ScanResult {
                id: f.id.clone(),
                task_id: f.scan_id.clone(),
                result_type: ResultType::parse_lenient(f.finding_type.as_str()),
                severity: Some(Severity::parse_lenient(f.severity.as_str())),
                title: f.title.clone(),
                description: Some(f.description.clone()),
                raw_data: clone_opt_string(&f.evidence),
                created_at: discovered,
            };
            proof {
                assert(result == spec_import_finding(findings@[v as int], now));
            }
            out.push(result);
        }
        v = v + 1;
    }
    proof {
        assert(findings@.subrange(0, m as int) =~= findings@);
    }
    out
}

/// The record indices whose import creates a report, in bundle order: the
/// bundle's first record under its id, with no task and no report already
/// holding that id.
pub open spec fn spec_report_records(
    old_tasks: Seq<ScanTask>,
    old_reports: Seq<ScanReport>,
    scans: Seq<ExportScanTask>,
) -> Seq<int>
    decreases scans.len(),
{
    if scans.len() == 0 {
        Seq::empty()
    } else {
        let prev = spec_report_records(old_tasks, old_reports, scans.drop_last());
        let i = scans.len() - 1;
        if !scans_have_id(scans.drop_last(), scans[i].id@) && !spec_has_task(
            old_tasks,
            scans[i].id@,
        ) && !spec_has_report(old_reports, scans[i].id@) {
            prev.push(i)
        } else {
            prev
        }
    }
}

/// Every listed record index lies inside the bundle.
proof fn lemma_report_records_bounds(
    old_tasks: Seq<ScanTask>,
    old_reports: Seq<ScanReport>,
    scans: Seq<ExportScanTask>,
)
    ensures
        forall|m: int|
            0 <= m < spec_report_records(old_tasks, old_reports, scans).len() ==> 0 <= (
            #[trigger] spec_report_records(old_tasks, old_reports, scans)[m]) < scans.len(),
    decreases scans.len(),
{
    if scans.len() == 0 {
    } else {
        lemma_report_records_bounds(old_tasks, old_reports, scans.drop_last());
        let prev = spec_report_records(old_tasks, old_reports, scans.drop_last());
        let cur = spec_report_records(old_tasks, old_reports, scans);
        assert forall|m: int| 0 <= m < cur.len() implies 0 <= (#[trigger] cur[m])
            < scans.len() by {
            if m < prev.len() {
                assert(cur[m] == prev[m]);
            } else {
                assert(cur[m] == scans.len() - 1);
            }
        }
    }
}

/// Merge an import bundle into the stores: each record whose id is still
/// free becomes one task (its status, kind and timestamps read leniently
/// from the record) and one report holding exactly the bundle's findings
/// for that id. A record whose id is already present is skipped -- always,
/// not only when asked, since the stores guarantee identifier uniqueness.
/// Existing tasks and reports are never modified.
#[verifier::rlimit(100)]
pub fn import_scan_data(
    orch: &mut Orchestrator,
    data: &ExportData,
    skip_duplicates: bool,
    now: i64,
) -> (r: ImportResult)
    requires
        old(orch).wf(),
    ensures
        final(orch).wf(),
        r.success,
        r.errors@.len() == 0,
        r.imported.annotations == 0,
        r.imported.assets == 0,
        final(orch).tasks.tasks@ == spec_imported_tasks(
            old(orch).tasks.tasks@,
            data.scans@,
            now,
        ),
        forall|k: int|
            0 <= k < old(orch).reports.reports@.len() ==> final(orch).reports.reports@[k] == old(
                orch,
            ).reports.reports@[k],
        ({
            let records = spec_report_records(
                old(orch).tasks.tasks@,
                old(orch).reports.reports@,
                data.scans@,
            );
            &&& final(orch).reports.reports@.len() == old(orch).reports.reports@.len()
                + records.len()
            &&& forall|m: int|
                0 <= m < records.len() ==> imported_report_ok(
                    final(orch).reports.reports@[old(orch).reports.reports@.len() + m],
                    data.scans@[#[trigger] records[m]],
                    data.findings@,
                    now,
                )
        }),
        data.scans@.len() <= 0x7fff_ffff ==> {
            &&& r.imported.scans + r.skipped.scans == data.scans@.len()
            &&& r.imported.scans == spec_imported_tasks(
                old(orch).tasks.tasks@,
                data.scans@,
                now,
            ).len() - old(orch).tasks.tasks@.len()
        },
{
    let mut imported = ImportCounts { scans: 0, findings: 0, annotations: 0, assets: 0 };
    let mut skipped = ImportCounts { scans: 0, findings: 0, annotations: 0, assets: 0 };
    let ghost old_tasks = orch.tasks.tasks@;
    let ghost old_reports = orch.reports.reports@;
    let n = data.scans.len();
    let mut i: usize = 0;
    proof {
        assert(data.scans@.subrange(0, 0) =~= Seq::<ExportScanTask>::empty());
    }
    while i < n
        invariant
            orch.wf(),
            n == data.scans@.len(),
            i <= n,
            old_tasks.len() <= orch.tasks.tasks@.len(),
            orch.tasks.tasks@ == spec_imported_tasks(
                old_tasks,
                data.scans@.subrange(0, i as int),
                now,
            ),
            forall|k: int| 0 <= k < old_reports.len() ==> orch.reports.reports@[k] == old_reports[k],
            ({
                let records = spec_report_records(
                    old_tasks,
                    old_reports,
                    data.scans@.subrange(0, i as int),
                );
                &&& orch.reports.reports@.len() == old_reports.len() + records.len()
                &&& forall|m: int|
                    0 <= m < records.len() ==> imported_report_ok(
                        orch.reports.reports@[old_reports.len() + m],
                        data.scans@.subrange(0, i as int)[#[trigger] records[m]],
                        data.findings@,
                        now,
                    )
            }),
            imported.scans >= 0,
            skipped.scans >= 0,
            imported.annotations == 0,
            imported.assets == 0,
            skipped.annotations == 0,
            skipped.assets == 0,
            n <= 0x7fff_ffff ==> {
                &&& imported.scans + skipped.scans == i
                &&& imported.scans as int == orch.tasks.tasks@.len() - old_tasks.len()
            },
        decreases n - i,
    {
        let ghost prefix = data.scans@.subrange(0, i as int);
        let ghost prefix1 = data.scans@.subrange(0, i + 1 as int);
        let ghost records_pre = spec_report_records(old_tasks, old_reports, prefix);
        proof {
            assert(prefix1.drop_last() =~= prefix);
            assert(prefix1.last() == data.scans@[i as int]);
            lemma_report_records_bounds(old_tasks, old_reports, prefix);
        }
        let record = &data.scans[i];
        let status = ScanStatus::parse_lenient(record.status.as_str());
        let kind = kind_from_name(record.name.as_str());
        let created = match parse_rfc3339_millis(record.created_at.as_str()) {
            Some(t) => t,
            None => now,
        };
        let started = match &record.started_at {
            Some(s) => parse_rfc3339_millis(s.as_str()),
            None => None,
        };
        let completed = match &record.completed_at {
            Some(s) => parse_rfc3339_millis(s.as_str()),
            None => None,
        };
        let task = make_wf_task(
            record.id.clone(),
            record.target.clone(),
            kind,
            status,
            created,
            started,
            completed,
        );
        proof {
            assert(task == spec_import_task(data.scans@[i as int], now));
        }
        let snapshot = task.snapshot();
        let inserted = orch.tasks.insert_task(task);
        proof {
            lemma_imported_tasks_ids(old_tasks, prefix, now, data.scans@[i as int].id@);
        }
        if !inserted {
            // the id is already present; never duplicate an identifier
            skipped.scans = sat_inc(skipped.scans);
            proof {
                assert(spec_report_records(old_tasks, old_reports, prefix1) == records_pre);
                assert(forall|m: int|
                    0 <= m < records_pre.len() ==> prefix1[#[trigger] records_pre[m]] == prefix[
                    records_pre[m]]);
            }
        } else {
            let scan_findings = collect_findings_for(&data.findings, record.id.as_str(), now);
            let count = scan_findings.len();
            let report = ScanReport {
                task: snapshot,
                headers: Vec::new(),
                ssl_analysis: None,
                technologies: Vec::new(),
                vulnerabilities: scan_findings,
            };
            let ghost reports_before = orch.reports.reports@;
            let ghost id_i = data.scans@[i as int].id@;
            let stored = orch.reports.put_new(report);
            proof {
                // the record is the bundle's first under its id, and its id
                // names no old task, so the only possible report collision
                // is a stale one in the old report store
                assert(!scans_have_id(prefix, id_i) && !spec_has_task(old_tasks, id_i));
                if spec_has_report(reports_before, id_i) && !spec_has_report(old_reports, id_i) {
                    let k = choose|k: int|
                        0 <= k < reports_before.len() && reports_before[k].task.id@ == id_i;
                    if k < old_reports.len() {
                        assert(reports_before[k] == old_reports[k]);
                        assert(spec_has_report(old_reports, id_i));
                    } else {
                        let m = k - old_reports.len();
                        assert(imported_report_ok(
                            reports_before[k],
                            prefix[records_pre[m]],
                            data.findings@,
                            now,
                        ));
                        assert(reports_before[k].task == spec_import_task(
                            prefix[records_pre[m]],
                            now,
                        ));
                        assert(spec_import_task(prefix[records_pre[m]], now).id
                            == prefix[records_pre[m]].id);
                        assert(prefix[records_pre[m]].id@ == id_i);
                        assert(scans_have_id(prefix, id_i));
                    }
                    assert(false);
                }
                if !spec_has_report(old_reports, id_i) {
                    assert(stored);
                } else {
                    if stored {
                        // a stale report exists, so put_new must have found it
                        let k = choose|k: int|
                            0 <= k < old_reports.len() && old_reports[k].task.id@ == id_i;
                        assert(reports_before[k] == old_reports[k]);
                        assert(spec_has_report(reports_before, id_i));
                        assert(false);
                    }
                }
                let cur = orch.reports.reports@;
                let records_post = spec_report_records(old_tasks, old_reports, prefix1);
                if stored {
                    assert(records_post == records_pre.push(i as int));
                    assert(cur[cur.len() - 1].task == spec_import_task(
                        data.scans@[i as int],
                        now,
                    ));
                    assert(imported_report_ok(
                        cur[cur.len() - 1],
                        data.scans@[i as int],
                        data.findings@,
                        now,
                    ));
                    assert forall|m: int| 0 <= m < records_post.len() implies imported_report_ok(
                        cur[old_reports.len() + m],
                        prefix1[#[trigger] records_post[m]],
                        data.findings@,
                        now,
                    ) by {
                        if m < records_pre.len() {
                            assert(records_post[m] == records_pre[m]);
                            assert(prefix1[records_post[m]] == prefix[records_pre[m]]);
                            assert(cur[old_reports.len() + m] == reports_before[old_reports.len()
                                + m]);
                        } else {
                            assert(records_post[m] == i as int);
                            assert(old_reports.len() + m == cur.len() - 1);
                        }
                    }
                } else {
                    assert(records_post == records_pre);
                    assert forall|m: int| 0 <= m < records_post.len() implies imported_report_ok(
                        cur[old_reports.len() + m],
                        prefix1[#[trigger] records_post[m]],
                        data.findings@,
                        now,
                    ) by {
                        assert(prefix1[records_post[m]] == prefix[records_pre[m]]);
                    }
                }
            }
            imported.scans = sat_inc(imported.scans);
            imported.findings = sat_add(imported.findings, count);
            let _ = stored;
        }
        i = i + 1;
    }
    proof {
        assert(data.scans@.subrange(0, n as int) =~= data.scans@);
    }
    let _ = skip_duplicates;
    ImportResult { success: true, imported, skipped, errors: Vec::new() }
}

} // verus!
