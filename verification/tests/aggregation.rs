use redforge_scanner::aggregate::{aggregate, dedup_findings, sort_findings};
use redforge_scanner::models::{ResultType, ScanResult, Severity};

fn finding(title: &str, severity: Option<Severity>) -> ScanResult {
    ScanResult {
        id: format!("id-{}", title),
        task_id: "task".to_string(),
        result_type: ResultType::Vulnerability,
        severity,
        title: title.to_string(),
        description: Some(format!("about {}", title)),
        raw_data: None,
        created_at: 0,
    }
}

fn titles(findings: &[ScanResult]) -> Vec<String> {
    findings.iter().map(|f| f.title.clone()).collect()
}

#[test]
fn severity_order_is_total_and_stable() {
    let input = vec![
        finding("low", Some(Severity::Low)),
        finding("critical", Some(Severity::Critical)),
        finding("info", Some(Severity::Info)),
        finding("high", Some(Severity::High)),
    ];
    let sorted = sort_findings(input);
    assert_eq!(titles(&sorted), vec!["critical", "high", "low", "info"]);
}

#[test]
fn sort_is_stable_for_equal_severities() {
    let input = vec![
        finding("first-high", Some(Severity::High)),
        finding("second-high", Some(Severity::High)),
        finding("a-critical", Some(Severity::Critical)),
        finding("third-high", Some(Severity::High)),
    ];
    let sorted = sort_findings(input);
    assert_eq!(
        titles(&sorted),
        vec!["a-critical", "first-high", "second-high", "third-high"]
    );
}

#[test]
fn missing_severity_sorts_as_info() {
    let input = vec![finding("none", None), finding("low", Some(Severity::Low))];
    let sorted = sort_findings(input);
    assert_eq!(titles(&sorted), vec!["low", "none"]);
}

#[test]
fn dedup_keeps_first_occurrence() {
    let mut a = finding("duplicate", Some(Severity::High));
    a.description = Some("kept".to_string());
    let mut b = finding("duplicate", Some(Severity::High));
    b.description = Some("dropped".to_string());
    let out = dedup_findings(vec![a, b, finding("other", Some(Severity::Low))]);
    assert_eq!(out.len(), 2);
    assert_eq!(out[0].title, "duplicate");
    assert_eq!(out[0].description.as_deref(), Some("kept"));
    assert_eq!(out[1].title, "other");
}

#[test]
fn aggregate_merges_sorts_and_dedups() {
    let primary = vec![
        finding("shared", Some(Severity::Medium)),
        finding("crit", Some(Severity::Critical)),
    ];
    let secondary = vec![
        finding("shared", Some(Severity::Medium)),
        finding("note", Some(Severity::Info)),
    ];
    let out = aggregate(primary, secondary);
    assert_eq!(titles(&out), vec!["crit", "shared", "note"]);
}

#[test]
fn aggregation_is_idempotent_on_its_own_output() {
    let primary = vec![
        finding("low", Some(Severity::Low)),
        finding("dup", Some(Severity::High)),
        finding("dup", Some(Severity::High)),
        finding("crit", Some(Severity::Critical)),
    ];
    let once = aggregate(primary, Vec::new());
    let twice = aggregate(once.clone(), Vec::new());
    assert_eq!(titles(&once), titles(&twice));
    let sev_once: Vec<Option<Severity>> = once.iter().map(|f| f.severity).collect();
    let sev_twice: Vec<Option<Severity>> = twice.iter().map(|f| f.severity).collect();
    assert_eq!(sev_once, sev_twice);
}

#[test]
fn dedup_by_title_collapses_distinct_evidence() {
    // the documented trade-off: same title, different evidence, one survivor
    let mut a = finding("same-title", Some(Severity::High));
    a.raw_data = Some("evidence-a".to_string());
    let mut b = finding("same-title", Some(Severity::High));
    b.raw_data = Some("evidence-b".to_string());
    let out = aggregate(vec![a], vec![b]);
    assert_eq!(out.len(), 1);
    assert_eq!(out[0].raw_data.as_deref(), Some("evidence-a"));
}
