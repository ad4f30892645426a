use redforge_scanner::models::{ScanStatus, ScanType};
use redforge_scanner::orchestrator::{plan_for, Orchestrator, ScanError};

#[test]
fn rejects_unsupported_scheme_and_creates_no_task() {
    let mut orch = Orchestrator::new();
    let r = orch.start_scan("ftp://x.com", "full");
    assert!(matches!(r, Err(ScanError::InvalidTarget)));
    assert_eq!(orch.list_scans().len(), 0);
}

#[test]
fn rejects_unknown_kind_and_creates_no_task() {
    let mut orch = Orchestrator::new();
    let r = orch.start_scan("http://example.com", "bogus-kind");
    assert!(matches!(r, Err(ScanError::UnknownKind)));
    assert_eq!(orch.list_scans().len(), 0);
}

#[test]
fn start_returns_id_immediately_and_status_is_pending() {
    let mut orch = Orchestrator::new();
    let id = orch.start_scan("http://example.com", "headers").unwrap();
    assert_eq!(id.len(), 36);
    let task = orch.get_scan_status(id.as_str()).unwrap();
    assert_eq!(task.id, id);
    assert_eq!(task.target_url, "http://example.com");
    assert!(matches!(task.scan_type, ScanType::Headers));
    assert!(matches!(task.status, ScanStatus::Pending));
    assert!(task.started_at.is_none());
    assert!(task.completed_at.is_none());
}

#[test]
fn unknown_id_fails_with_not_found() {
    let mut orch = Orchestrator::new();
    let _ = orch.start_scan("http://example.com", "full").unwrap();
    assert!(matches!(
        orch.get_scan_status("no-such-id"),
        Err(ScanError::NotFound)
    ));
    assert!(matches!(
        orch.get_scan_report("no-such-id"),
        Err(ScanError::NotFound)
    ));
}

#[test]
fn report_exists_only_once_scan_begins() {
    let mut orch = Orchestrator::new();
    let id = orch.start_scan("http://example.com", "headers").unwrap();
    assert!(matches!(
        orch.get_scan_report(id.as_str()),
        Err(ScanError::NotFound)
    ));
    assert!(orch.begin_scan(id.as_str(), 1_000));
    let report = orch.get_scan_report(id.as_str()).unwrap();
    assert_eq!(report.task.id, id);
    assert!(matches!(report.task.status, ScanStatus::Running));
    assert!(report.headers.is_empty());
    assert!(report.vulnerabilities.is_empty());
}

#[test]
fn completes_when_a_stage_produced_output() {
    let mut orch = Orchestrator::new();
    let id = orch.start_scan("http://example.com", "headers").unwrap();
    assert!(orch.begin_scan(id.as_str(), 1_000));
    let checks = redforge_scanner::headers::scan_headers(id.as_str(), &Vec::new(), 1_500);
    assert!(orch.record_headers(id.as_str(), checks));
    assert!(orch.finalize_scan(id.as_str(), 2_000));
    let task = orch.get_scan_status(id.as_str()).unwrap();
    assert!(matches!(task.status, ScanStatus::Completed));
    let report = orch.get_scan_report(id.as_str()).unwrap();
    assert!(matches!(report.task.status, ScanStatus::Completed));
    assert_eq!(report.headers.len(), 7);
}

#[test]
fn fails_when_no_stage_produced_output() {
    let mut orch = Orchestrator::new();
    let id = orch.start_scan("http://example.com", "quick").unwrap();
    assert!(orch.begin_scan(id.as_str(), 1_000));
    assert!(orch.finalize_scan(id.as_str(), 2_000));
    let task = orch.get_scan_status(id.as_str()).unwrap();
    assert!(matches!(task.status, ScanStatus::Failed));
}

#[test]
fn timestamps_are_ordered_once_terminal() {
    let mut orch = Orchestrator::new();
    let id = orch.start_scan("http://example.com", "headers").unwrap();
    let created = orch.get_scan_status(id.as_str()).unwrap().created_at;
    // a wall clock reading that went backwards is clamped, never reordered
    assert!(orch.begin_scan(id.as_str(), created - 50));
    assert!(orch.finalize_scan(id.as_str(), created - 100));
    let task = orch.get_scan_status(id.as_str()).unwrap();
    let started = task.started_at.unwrap();
    let completed = task.completed_at.unwrap();
    assert!(created <= started);
    assert!(started <= completed);
}

#[test]
fn terminal_status_never_reverts() {
    let mut orch = Orchestrator::new();
    let id = orch.start_scan("http://example.com", "headers").unwrap();
    assert!(orch.begin_scan(id.as_str(), 1_000));
    assert!(orch.finalize_scan(id.as_str(), 2_000));
    let before = orch.get_scan_status(id.as_str()).unwrap();
    assert!(matches!(before.status, ScanStatus::Failed));
    // a second begin or finalize must not move the task out of its terminal state
    assert!(orch.begin_scan(id.as_str(), 3_000));
    assert!(orch.finalize_scan(id.as_str(), 4_000));
    let after = orch.get_scan_status(id.as_str()).unwrap();
    assert!(matches!(after.status, ScanStatus::Failed));
    assert_eq!(after.completed_at, before.completed_at);
    assert_eq!(after.started_at, before.started_at);
}

#[test]
fn stage_plan_follows_the_dispatch_table() {
    let full_https = plan_for(ScanType::Full, "https://example.com");
    assert!(full_https.headers && full_https.certificate && full_https.vulnerability);
    assert!(full_https.technology && !full_https.unimplemented);
    let full_http = plan_for(ScanType::Full, "http://example.com");
    assert!(!full_http.certificate);
    let headers = plan_for(ScanType::Headers, "http://example.com");
    assert!(headers.headers && !headers.certificate && !headers.vulnerability);
    let ssl = plan_for(ScanType::Ssl, "https://example.com");
    assert!(ssl.certificate && !ssl.headers);
    let vuln = plan_for(ScanType::Vulnerability, "http://example.com");
    assert!(vuln.vulnerability && !vuln.technology);
    assert!(plan_for(ScanType::Quick, "http://example.com").unimplemented);
    assert!(plan_for(ScanType::Port, "http://example.com").unimplemented);
}

#[test]
fn list_scans_returns_tasks_in_creation_order() {
    let mut orch = Orchestrator::new();
    let a = orch.start_scan("http://one.example", "full").unwrap();
    let b = orch.start_scan("http://two.example", "ssl").unwrap();
    let listed = orch.list_scans();
    assert_eq!(listed.len(), 2);
    assert_eq!(listed[0].id, a);
    assert_eq!(listed[1].id, b);
}

#[test]
fn error_messages_are_descriptive() {
    assert!(ScanError::InvalidTarget.message().contains("http"));
    assert_eq!(ScanError::UnknownKind.message(), "unknown scan type");
    assert_eq!(ScanError::NotFound.message(), "no such task");
}

#[test]
fn enum_encodings_are_stable() {
    assert_eq!(ScanType::Full.name(), "full");
    assert_eq!(ScanType::Vulnerability.name(), "vulnerability");
    assert_eq!(ScanStatus::Pending.name(), "pending");
    assert_eq!(ScanStatus::Completed.name(), "completed");
    assert_eq!(
        redforge_scanner::models::Severity::Critical.name(),
        "critical"
    );
    assert_eq!(redforge_scanner::models::ResultType::Header.name(), "header");
    assert_eq!(ScanType::parse("ssl"), Some(ScanType::Ssl));
    assert_eq!(ScanType::parse("SSL"), None);
    assert_eq!(ScanType::parse(""), None);
}
