use redforge_scanner::collaboration::{
    deduplicate_import_data, export_scan_data, host_of, import_scan_data, Annotation, Asset,
    ExportData, ExportFinding, ExportMetadata, ExportScanTask,
};
use redforge_scanner::models::{ScanStatus, ScanType};
use redforge_scanner::orchestrator::Orchestrator;

fn metadata() -> ExportMetadata {
    ExportMetadata {
        version: "1.0.0".to_string(),
        format: "encrypted-markdown".to_string(),
        encryption: None,
        exported_by: "system".to_string(),
        team_id: None,
        exported_at: "1970-01-01T00:00:00+00:00".to_string(),
        checksum: None,
    }
}

fn scan_record(id: &str) -> ExportScanTask {
    ExportScanTask {
        id: id.to_string(),
        name: format!("headers - http://example.com/{}", id),
        target: "http://example.com".to_string(),
        status: "completed".to_string(),
        created_at: "1970-01-01T00:00:10+00:00".to_string(),
        started_at: Some("1970-01-01T00:00:11+00:00".to_string()),
        completed_at: Some("1970-01-01T00:00:12+00:00".to_string()),
        created_by: "user".to_string(),
    }
}

fn finding_record(id: &str, scan_id: &str) -> ExportFinding {
    ExportFinding {
        id: id.to_string(),
        scan_id: scan_id.to_string(),
        finding_type: "vulnerability".to_string(),
        severity: "high".to_string(),
        title: format!("finding {}", id),
        description: "details".to_string(),
        affected_url: None,
        evidence: None,
        recommendation: None,
        discovered_at: "1970-01-01T00:00:13+00:00".to_string(),
        discovered_by: "redforge".to_string(),
        cve_id: None,
    }
}

fn bundle(scans: Vec<ExportScanTask>, findings: Vec<ExportFinding>) -> ExportData {
    ExportData { metadata: metadata(), scans, findings, annotations: None, assets: None }
}

#[test]
fn deduplication_is_keyed_on_identifier_equality() {
    let mut second = scan_record("s1");
    second.target = "http://other.example".to_string();
    let data = bundle(
        vec![scan_record("s1"), second, scan_record("s2")],
        vec![
            finding_record("f1", "s1"),
            finding_record("f1", "s1"),
            finding_record("f2", "s2"),
        ],
    );
    let out = deduplicate_import_data(data);
    assert_eq!(out.scans.len(), 2);
    assert_eq!(out.scans[0].id, "s1");
    // the first record under an id is the one kept
    assert_eq!(out.scans[0].target, "http://example.com");
    assert_eq!(out.scans[1].id, "s2");
    assert_eq!(out.findings.len(), 2);
    assert_eq!(out.findings[0].id, "f1");
    assert_eq!(out.findings[1].id, "f2");
}

#[test]
fn deduplication_handles_annotations_and_assets() {
    let annotation = |id: &str| Annotation {
        id: id.to_string(),
        finding_id: "f1".to_string(),
        author: "alice".to_string(),
        content: "check this".to_string(),
        created_at: "1970-01-01T00:00:00+00:00".to_string(),
        is_false_positive: None,
        priority: None,
    };
    let asset = |id: &str| Asset {
        id: id.to_string(),
        hostname: "example.com".to_string(),
        ip_address: None,
        ports: Some(vec![443]),
        services: None,
        technologies: Some(vec!["Nginx".to_string()]),
        discovered_at: "1970-01-01T00:00:00+00:00".to_string(),
    };
    let mut data = bundle(Vec::new(), Vec::new());
    data.annotations = Some(vec![annotation("a1"), annotation("a1"), annotation("a2")]);
    data.assets = Some(vec![asset("x1"), asset("x1")]);
    let out = deduplicate_import_data(data);
    assert_eq!(out.annotations.unwrap().len(), 2);
    let assets = out.assets.unwrap();
    assert_eq!(assets.len(), 1);
    assert_eq!(assets[0].technologies.as_ref().unwrap()[0], "Nginx");
}

#[test]
fn deduplication_is_idempotent_on_identifiers() {
    let data = bundle(
        vec![scan_record("s1"), scan_record("s1")],
        vec![finding_record("f1", "s1"), finding_record("f1", "s1")],
    );
    let once = deduplicate_import_data(data);
    let scans_once: Vec<String> = once.scans.iter().map(|s| s.id.clone()).collect();
    let twice = deduplicate_import_data(once);
    let scans_twice: Vec<String> = twice.scans.iter().map(|s| s.id.clone()).collect();
    assert_eq!(scans_once, scans_twice);
    assert_eq!(twice.findings.len(), 1);
}

#[test]
fn export_writes_stable_encodings_and_timestamps() {
    let mut orch = Orchestrator::new();
    let id = orch.start_scan("http://example.com/app", "headers").unwrap();
    let data = export_scan_data(&orch, None, false, true, false, None, 0);
    assert_eq!(data.metadata.version, "1.0.0");
    assert_eq!(data.metadata.format, "encrypted-markdown");
    assert_eq!(data.metadata.exported_by, "system");
    assert_eq!(data.metadata.exported_at, "1970-01-01T00:00:00+00:00");
    assert_eq!(data.scans.len(), 1);
    let s = &data.scans[0];
    assert_eq!(s.id, id);
    assert_eq!(s.target, "http://example.com/app");
    assert_eq!(s.status, "pending");
    assert_eq!(s.name, "headers - http://example.com/app");
    assert!(s.started_at.is_none());
    assert_eq!(s.created_by, "user");
    assert_eq!(data.annotations.unwrap().len(), 0);
    assert!(data.assets.is_none());
}

#[test]
fn export_filters_by_id_and_since() {
    let mut orch = Orchestrator::new();
    let a = orch.start_scan("http://one.example", "full").unwrap();
    let b = orch.start_scan("http://two.example", "ssl").unwrap();
    let only_b = export_scan_data(&orch, Some(vec![b.clone()]), true, false, false, None, 0);
    assert_eq!(only_b.scans.len(), 1);
    assert_eq!(only_b.scans[0].id, b);
    assert_eq!(only_b.findings.len(), 0);
    assert!(only_b.annotations.is_none());
    // a `since` in the far future excludes everything
    let none = export_scan_data(
        &orch,
        None,
        false,
        false,
        false,
        Some("2200-01-01T00:00:00+00:00".to_string()),
        0,
    );
    assert_eq!(none.scans.len(), 0);
    let _ = a;
}

#[test]
fn import_creates_tasks_and_reports() {
    let mut orch = Orchestrator::new();
    let data = bundle(
        vec![scan_record("s1")],
        vec![finding_record("f1", "s1"), finding_record("f2", "other")],
    );
    let result = import_scan_data(&mut orch, &data, true, 99_000);
    assert!(result.success);
    assert_eq!(result.imported.scans, 1);
    assert_eq!(result.imported.findings, 1);
    assert_eq!(result.skipped.scans, 0);
    let task = orch.get_scan_status("s1").unwrap();
    assert!(matches!(task.status, ScanStatus::Completed));
    assert!(matches!(task.scan_type, ScanType::Headers));
    assert_eq!(task.created_at, 10_000);
    assert_eq!(task.started_at, Some(11_000));
    assert_eq!(task.completed_at, Some(12_000));
    let report = orch.get_scan_report("s1").unwrap();
    assert_eq!(report.vulnerabilities.len(), 1);
    assert_eq!(report.vulnerabilities[0].id, "f1");
    assert_eq!(report.vulnerabilities[0].created_at, 13_000);
}

#[test]
fn import_never_duplicates_an_identifier() {
    let mut orch = Orchestrator::new();
    let data = bundle(vec![scan_record("s1")], Vec::new());
    let first = import_scan_data(&mut orch, &data, true, 0);
    assert_eq!(first.imported.scans, 1);
    let second = import_scan_data(&mut orch, &data, false, 0);
    assert_eq!(second.imported.scans, 0);
    assert_eq!(second.skipped.scans, 1);
    assert_eq!(orch.list_scans().len(), 1);
}

#[test]
fn import_reads_timestamps_leniently() {
    let mut orch = Orchestrator::new();
    let mut record = scan_record("s9");
    record.created_at = "not a timestamp".to_string();
    record.status = "mystery".to_string();
    let data = bundle(vec![record], Vec::new());
    let _ = import_scan_data(&mut orch, &data, true, 77_000);
    let task = orch.get_scan_status("s9").unwrap();
    assert_eq!(task.created_at, 77_000);
    // an unrecognized status reads as a finished scan
    assert!(matches!(task.status, ScanStatus::Completed));
}

#[test]
fn import_is_a_left_inverse_of_export() {
    // populate a store through import, export it, import the export into a
    // fresh store, and compare what the stores hold
    let mut first = Orchestrator::new();
    let bundle_in = bundle(
        vec![scan_record("s1"), scan_record("s2")],
        vec![finding_record("f1", "s1"), finding_record("f2", "s1")],
    );
    let _ = import_scan_data(&mut first, &bundle_in, true, 0);
    let exported = export_scan_data(&first, None, false, false, false, None, 0);
    let mut second = Orchestrator::new();
    let _ = import_scan_data(&mut second, &exported, true, 0);
    for task in first.list_scans() {
        let copy = second.get_scan_status(task.id.as_str()).unwrap();
        assert_eq!(copy.target_url, task.target_url);
        assert_eq!(copy.status.name(), task.status.name());
        assert_eq!(copy.created_at, task.created_at);
        assert_eq!(copy.started_at, task.started_at);
        assert_eq!(copy.completed_at, task.completed_at);
        let report = first.get_scan_report(task.id.as_str()).unwrap();
        let report_copy = second.get_scan_report(task.id.as_str()).unwrap();
        assert_eq!(report_copy.vulnerabilities.len(), report.vulnerabilities.len());
        for (a, b) in report
            .vulnerabilities
            .iter()
            .zip(report_copy.vulnerabilities.iter())
        {
            assert_eq!(a.id, b.id);
            assert_eq!(a.title, b.title);
            assert_eq!(a.severity, b.severity);
            assert_eq!(a.description, b.description);
            assert_eq!(a.created_at, b.created_at);
        }
    }
}

#[test]
fn export_carries_findings_with_stable_encodings() {
    let mut orch = Orchestrator::new();
    let bundle_in = bundle(
        vec![scan_record("s1")],
        vec![finding_record("f1", "s1")],
    );
    let _ = import_scan_data(&mut orch, &bundle_in, true, 0);
    let exported = export_scan_data(&orch, None, false, false, false, None, 0);
    assert_eq!(exported.findings.len(), 1);
    let f = &exported.findings[0];
    assert_eq!(f.id, "f1");
    assert_eq!(f.scan_id, "s1");
    assert_eq!(f.finding_type, "vulnerability");
    assert_eq!(f.severity, "high");
    assert_eq!(f.title, "finding f1");
    assert_eq!(f.affected_url.as_deref(), Some("http://example.com"));
    assert_eq!(f.discovered_at, "1970-01-01T00:00:13+00:00");
    assert_eq!(f.discovered_by, "redforge");
}

#[test]
fn host_extraction_strips_scheme_and_path() {
    assert_eq!(host_of("https://example.com/a/b"), "example.com");
    assert_eq!(host_of("http://example.com"), "example.com");
    assert_eq!(host_of("example.com/x"), "example.com");
    assert_eq!(host_of("https://sub.example.com:8443/x"), "sub.example.com:8443");
}
