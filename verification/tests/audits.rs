use redforge_scanner::certificate::{calculate_grade, check_vulnerabilities, scan_ssl, ssl_target_url};
use redforge_scanner::headers::{scan_headers, validate_header};
use redforge_scanner::models::{SecurityHeader, SslAnalysis, TechnologyCategory};
use redforge_scanner::technology::{detect, extract_version, has_tailwind_classes};

fn check_named<'a>(checks: &'a [SecurityHeader], name: &str) -> &'a SecurityHeader {
    checks
        .iter()
        .find(|c| c.header_name == name)
        .expect("checklist entry missing")
}

#[test]
fn bare_target_yields_seven_failing_checks() {
    let checks = scan_headers("t1", &Vec::new(), 42);
    assert_eq!(checks.len(), 7);
    for c in &checks {
        assert!(!c.is_present);
        assert!(!c.is_secure);
        assert!(c.header_value.is_none());
        assert!(c.recommendation.is_some());
        assert_eq!(c.task_id, "t1");
        assert_eq!(c.created_at, 42);
    }
    let names: Vec<&str> = checks.iter().map(|c| c.header_name.as_str()).collect();
    assert_eq!(
        names,
        vec![
            "strict-transport-security",
            "content-security-policy",
            "x-frame-options",
            "x-content-type-options",
            "referrer-policy",
            "permissions-policy",
            "x-xss-protection",
        ]
    );
}

#[test]
fn present_headers_are_validated_per_rule() {
    let headers = vec![
        (
            "Strict-Transport-Security".to_string(),
            "max-age=31536000; includeSubDomains".to_string(),
        ),
        ("X-Frame-Options".to_string(), "sameorigin".to_string()),
        ("x-content-type-options".to_string(), "NOSNIFF".to_string()),
        ("x-xss-protection".to_string(), "0".to_string()),
    ];
    let checks = scan_headers("t1", &headers, 0);
    assert_eq!(checks.len(), 7);
    let hsts = check_named(&checks, "strict-transport-security");
    assert!(hsts.is_present && hsts.is_secure);
    assert_eq!(
        hsts.recommendation.as_deref(),
        Some("Enable HSTS to force HTTPS; recommended: max-age=31536000; includeSubDomains")
    );
    let xfo = check_named(&checks, "x-frame-options");
    assert!(xfo.is_present && xfo.is_secure);
    let xcto = check_named(&checks, "x-content-type-options");
    assert!(xcto.is_present && xcto.is_secure);
    let xss = check_named(&checks, "x-xss-protection");
    assert!(xss.is_present && !xss.is_secure);
    let csp = check_named(&checks, "content-security-policy");
    assert!(!csp.is_present && !csp.is_secure);
}

#[test]
fn version_disclosing_headers_are_flagged() {
    let headers = vec![
        ("Server".to_string(), "nginx/1.18.0".to_string()),
        ("X-Powered-By".to_string(), "PHP/8.1".to_string()),
    ];
    let checks = scan_headers("t1", &headers, 0);
    assert_eq!(checks.len(), 9);
    assert_eq!(checks[7].header_name, "server");
    assert!(checks[7].is_present && !checks[7].is_secure);
    assert_eq!(checks[7].header_value.as_deref(), Some("nginx/1.18.0"));
    assert_eq!(checks[8].header_name, "x-powered-by");
    assert!(checks[8].is_present && !checks[8].is_secure);
}

#[test]
fn header_rules_match_the_specification() {
    assert!(validate_header(
        "strict-transport-security",
        "max-age=31536000; preload"
    ));
    assert!(!validate_header("strict-transport-security", "max-age=1"));
    assert!(!validate_header("strict-transport-security", "preload-only-directive"));
    assert!(validate_header("x-frame-options", "DENY"));
    assert!(validate_header("x-frame-options", "SameOrigin"));
    assert!(!validate_header("x-frame-options", "ALLOWALL"));
    assert!(validate_header("content-security-policy", "default-src 'self'"));
    assert!(!validate_header("content-security-policy", "short"));
    assert!(validate_header("referrer-policy", "no-referrer"));
    assert!(!validate_header("referrer-policy", ""));
    assert!(validate_header("x-xss-protection", "1; mode=block"));
    assert!(!validate_header("x-xss-protection", "0"));
}

#[test]
fn plain_http_target_is_graded_f_with_one_note() {
    let analysis = scan_ssl("t1", "http://example.com", 7);
    assert_eq!(analysis.grade.as_deref(), Some("F"));
    let notes = analysis.vulnerabilities.unwrap();
    assert_eq!(notes, vec!["No HTTPS encrypted transport".to_string()]);
    assert_eq!(analysis.certificate_subject.as_deref(), Some("http://example.com"));
    assert_eq!(analysis.task_id, "t1");
    assert_eq!(analysis.created_at, 7);
}

#[test]
fn https_target_is_graded_a() {
    let analysis = scan_ssl("t1", "example.com", 0);
    assert_eq!(analysis.grade.as_deref(), Some("A"));
    assert_eq!(analysis.vulnerabilities.unwrap().len(), 0);
    assert_eq!(
        analysis.tls_versions.unwrap(),
        vec!["TLS 1.2+".to_string()]
    );
}

#[test]
fn target_url_gets_https_scheme_when_bare() {
    assert_eq!(ssl_target_url("example.com"), "https://example.com");
    assert_eq!(ssl_target_url("http://example.com"), "http://example.com");
    assert_eq!(ssl_target_url("https://example.com"), "https://example.com");
}

fn assessment(versions: Vec<&str>, suites: Option<Vec<&str>>) -> SslAnalysis {
    SslAnalysis {
        id: "a".to_string(),
        task_id: "t".to_string(),
        certificate_issuer: None,
        certificate_subject: None,
        valid_from: None,
        valid_to: None,
        signature_algorithm: None,
        tls_versions: Some(versions.into_iter().map(|s| s.to_string()).collect()),
        cipher_suites: suites.map(|v| v.into_iter().map(|s| s.to_string()).collect()),
        vulnerabilities: None,
        grade: None,
        created_at: 0,
    }
}

#[test]
fn detailed_grade_weights_versions_and_ciphers() {
    // 100 - 20 (old TLS) - 10 (no 1.3) - 30 (weak cipher) = 40 => F
    let weak = assessment(vec!["TLS1_0", "TLS1_2"], Some(vec!["RC4-SHA"]));
    assert_eq!(calculate_grade(&weak), "F");
    // 100 with TLS 1.3 and clean ciphers => A+
    let strong = assessment(vec!["TLS1_3"], Some(vec!["AES128-GCM"]));
    assert_eq!(calculate_grade(&strong), "A+");
    // 100 - 10 (no 1.3) = 90 => A+ boundary holds at exactly 90
    let only12 = assessment(vec!["TLS1_2"], None);
    assert_eq!(calculate_grade(&only12), "A+");
    // 100 - 20 - 10 = 70 => B
    let old = assessment(vec!["TLS1_1"], None);
    assert_eq!(calculate_grade(&old), "B");
}

#[test]
fn vulnerability_notes_list_weak_offerings() {
    let weak = assessment(vec!["TLS1_0", "TLS1_1"], Some(vec!["RC4", "3DES-EDE"]));
    let notes = check_vulnerabilities(&weak);
    assert_eq!(notes.len(), 4);
    assert!(notes[0].contains("TLS 1.0"));
    assert!(notes[1].contains("TLS 1.1"));
    assert!(notes[2].contains("RC4"));
    assert!(notes[3].contains("3DES"));
    let clean = assessment(vec!["TLS1_3"], None);
    assert_eq!(check_vulnerabilities(&clean).len(), 0);
}

#[test]
fn fingerprints_frameworks_analytics_and_cdn() {
    let body = "<html><div id=__next></div>\
                <script src=https://www.googletagmanager.com/gtm.js></script>\
                <link href=bootstrap.min.css></html>";
    let headers = vec![("cf-ray".to_string(), "12345-LAX".to_string())];
    let found = detect("t1", body, &headers, 0);
    let names: Vec<&str> = found.iter().map(|t| t.technology_name.as_str()).collect();
    assert_eq!(
        names,
        vec!["Next.js", "Bootstrap", "Google Tag Manager", "Cloudflare"]
    );
    let cf = &found[3];
    assert!(matches!(cf.category, TechnologyCategory::Cdn));
    assert_eq!(cf.confidence, 90);
    assert_eq!(cf.task_id, "t1");
}

#[test]
fn tailwind_needs_three_distinct_utility_prefixes() {
    assert!(!has_tailwind_classes("<div class=\"bg-red-500\">"));
    assert!(!has_tailwind_classes("<div class=\"bg-red-500 text-sm\">"));
    assert!(has_tailwind_classes("<div class=\"bg-red-500 text-sm flex-row\">"));
    let found = detect("t1", "<div class=\"bg-x text-y flex-z\"></div>", &Vec::new(), 0);
    assert_eq!(found.len(), 1);
    assert_eq!(found[0].technology_name, "Tailwind CSS");
    assert_eq!(found[0].confidence, 75);
}

#[test]
fn versions_are_extracted_from_header_values() {
    assert_eq!(
        extract_version("nginx/1.18.0 (Ubuntu)", "nginx"),
        Some("1.18.0".to_string())
    );
    assert_eq!(extract_version("Apache", "apache"), None);
    assert_eq!(extract_version("PHP/8.1.2", "PHP"), Some("8.1.2".to_string()));
}
