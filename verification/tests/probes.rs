use redforge_scanner::models::Severity;
use redforge_scanner::owasp::{
    a01_broken_access_control, a02_cryptographic_failures, a03_injection, a04_insecure_design,
    a05_security_misconfiguration, a06_vulnerable_components, a07_authentication_failures,
    a08_integrity_failures, a09_logging_failures, a10_ssrf, admin_paths, path_url, probe_url,
    scan_all, sql_payloads, CookieObs, PageObservations, ProbeObservations, ProbeResponse,
};

fn resp(status: u16, body: &str) -> Option<ProbeResponse> {
    Some(ProbeResponse { status, body: body.to_string() })
}

fn benign_observations() -> ProbeObservations {
    ProbeObservations {
        admin_statuses: vec![Some(404), None],
        idor_probes: vec![resp(404, "not found")],
        traversal_probes: vec![resp(404, "not found")],
        redirect_location: None,
        page_body: Some("<html>plain page</html>".to_string()),
        sql_probes: vec![resp(200, "ok")],
        xss_probes: vec![resp(200, "ok")],
        cmd_probes: vec![resp(200, "ok")],
        ldap_probes: vec![resp(200, "ok")],
        design_body: None,
        rapid_success_count: 3,
        file_statuses: vec![Some(404), Some(404)],
        dir_probes: vec![resp(404, "gone")],
        main_headers: None,
        components_body: Some("<html>clean</html>".to_string()),
        server_header: None,
        login_probes: vec![resp(404, "gone")],
        auth_page: None,
        integrity_page: None,
        error_probes: vec![resp(404, "gone")],
        ssrf_rows: vec![vec![resp(200, "ok")]],
        redirect_probes: vec![Some(None)],
    }
}

#[test]
fn benign_https_target_yields_only_informational_findings() {
    let findings = scan_all("t1", "https://example.com", &benign_observations(), 0);
    let titles: Vec<&str> = findings.iter().map(|f| f.title.as_str()).collect();
    assert_eq!(
        titles,
        vec![
            "Test default credentials",
            "Adopt security logging and monitoring",
        ]
    );
    assert!(findings.iter().all(|f| f.severity == Some(Severity::Info)));
    assert!(findings.iter().all(|f| f.raw_data.is_some()));
}

#[test]
fn admin_paths_reported_at_the_right_severity() {
    let statuses = vec![Some(200), Some(403), Some(404), None];
    let findings =
        a01_broken_access_control("t1", &statuses, &Vec::new(), &Vec::new(), 5);
    assert_eq!(findings.len(), 2);
    assert_eq!(findings[0].title, "Admin path found: /admin");
    assert_eq!(findings[0].severity, Some(Severity::High));
    assert_eq!(
        findings[0].raw_data.as_deref(),
        Some("A01 admin path /admin answered HTTP 200")
    );
    assert_eq!(findings[1].title, "Admin path found: /administrator");
    assert_eq!(findings[1].severity, Some(Severity::Medium));
    assert_eq!(findings[0].task_id, "t1");
    assert_eq!(findings[0].created_at, 5);
}

#[test]
fn traversal_hit_is_critical() {
    let traversal = vec![resp(200, "root:x:0:0:root:/root:/bin/bash")];
    let findings =
        a01_broken_access_control("t1", &Vec::new(), &Vec::new(), &traversal, 0);
    assert_eq!(findings.len(), 1);
    assert_eq!(findings[0].title, "Path traversal vulnerability");
    assert_eq!(findings[0].severity, Some(Severity::Critical));
}

#[test]
fn idor_reports_only_the_first_matching_pattern() {
    let idor = vec![
        resp(404, "nothing"),
        resp(200, "username: alice, email: a@example.com"),
        resp(200, "username: bob"),
    ];
    let findings = a01_broken_access_control("t1", &Vec::new(), &idor, &Vec::new(), 0);
    assert_eq!(findings.len(), 1);
    assert_eq!(
        findings[0].title,
        "Potential IDOR via parameter probe: ?user_id=1"
    );
}

#[test]
fn plain_http_and_secrets_are_cryptographic_failures() {
    let body = "var config = { api_key = 'A0B1C2D3E4F5G6H7I8J9K0' };".to_string();
    let findings =
        a02_cryptographic_failures("t1", "http://example.com", &None, &Some(body), 0);
    assert_eq!(findings.len(), 2);
    assert_eq!(findings[0].title, "No HTTPS encryption in use");
    assert_eq!(findings[0].severity, Some(Severity::High));
    assert_eq!(findings[1].title, "Source discloses API Key");
    assert_eq!(findings[1].severity, Some(Severity::Critical));
}

#[test]
fn missing_https_redirect_is_reported_for_https_targets() {
    let findings = a02_cryptographic_failures(
        "t1",
        "https://example.com",
        &Some(Some("http://example.com/landing".to_string())),
        &None,
        0,
    );
    assert_eq!(findings.len(), 1);
    assert_eq!(findings[0].title, "HTTP does not redirect to HTTPS");
    let good = a02_cryptographic_failures(
        "t1",
        "https://example.com",
        &Some(Some("https://example.com/".to_string())),
        &None,
        0,
    );
    assert_eq!(good.len(), 0);
}

#[test]
fn password_autocomplete_is_a_low_finding() {
    let body = "<input type=\"password\" name=\"pw\">".to_string();
    let findings =
        a02_cryptographic_failures("t1", "https://example.com", &None, &Some(body), 0);
    assert_eq!(findings.len(), 1);
    assert_eq!(findings[0].title, "Password input allows autocompletion");
    assert_eq!(findings[0].severity, Some(Severity::Low));
    let hardened =
        "<input type=\"password\" autocomplete=\"off\">".to_string();
    let none =
        a02_cryptographic_failures("t1", "https://example.com", &None, &Some(hardened), 0);
    assert_eq!(none.len(), 0);
}

#[test]
fn first_matching_sql_payload_wins() {
    let probes = vec![
        resp(200, "fine"),
        resp(500, "You have an error in your SQL syntax near line 1"),
        resp(500, "warning: mysql"),
    ];
    let findings =
        a03_injection("t1", &probes, &Vec::new(), &Vec::new(), &Vec::new(), 0);
    assert_eq!(findings.len(), 1);
    assert_eq!(findings[0].title, "SQL injection: OR injection with comment");
    assert_eq!(findings[0].severity, Some(Severity::Critical));
    assert_eq!(findings[0].raw_data.as_deref(), Some("A03 payload ' OR '1'='1' --"));
}

#[test]
fn reflected_payload_is_cross_site_scripting() {
    let reflected = "<p>you searched for <script>alert('XSS')</script></p>";
    let probes = vec![resp(200, reflected)];
    let findings =
        a03_injection("t1", &Vec::new(), &probes, &Vec::new(), &Vec::new(), 0);
    assert_eq!(findings.len(), 1);
    assert_eq!(findings[0].title, "Cross-site scripting (XSS): Basic XSS");
    assert_eq!(findings[0].severity, Some(Severity::High));
}

#[test]
fn ldap_probe_counts_server_errors() {
    let probes = vec![resp(500, "internal error")];
    let findings =
        a03_injection("t1", &Vec::new(), &Vec::new(), &Vec::new(), &probes, 0);
    assert_eq!(findings.len(), 1);
    assert_eq!(findings[0].title, "Potential LDAP injection: Wildcard");
}

#[test]
fn ten_fast_successes_mean_no_rate_limiting() {
    let findings =
        a04_insecure_design("t1", &Some("<html>login</html>".to_string()), 10, 0);
    assert_eq!(findings.len(), 1);
    assert_eq!(findings[0].title, "No rate limiting detected");
    let fewer = a04_insecure_design("t1", &Some("<html></html>".to_string()), 9, 0);
    assert_eq!(fewer.len(), 0);
}

#[test]
fn distinct_login_failures_mean_enumeration() {
    let body = "<p>User not found</p>".to_string();
    let findings = a04_insecure_design("t1", &Some(body), 5, 0);
    assert_eq!(findings.len(), 1);
    assert_eq!(findings[0].title, "User enumeration possible");
}

#[test]
fn sensitive_files_carry_their_preset_severity() {
    let mut statuses: Vec<Option<u16>> = vec![None; 12];
    statuses[0] = Some(200); // git configuration => critical
    statuses[10] = Some(200); // robots file => info
    let findings =
        a05_security_misconfiguration("t1", &statuses, &Vec::new(), &None, 0);
    assert_eq!(findings.len(), 2);
    assert_eq!(
        findings[0].title,
        "Accessible sensitive file: Git configuration file"
    );
    assert_eq!(findings[0].severity, Some(Severity::Critical));
    assert_eq!(findings[1].title, "Accessible sensitive file: Robots file");
    assert_eq!(findings[1].severity, Some(Severity::Info));
}

#[test]
fn directory_listing_and_missing_headers_are_reported() {
    let dirs = vec![resp(200, "<title>Index of /uploads</title>")];
    let headers = Some(vec![(
        "content-security-policy".to_string(),
        "default-src 'self'".to_string(),
    )]);
    let findings = a05_security_misconfiguration("t1", &Vec::new(), &dirs, &headers, 0);
    let titles: Vec<&str> = findings.iter().map(|f| f.title.as_str()).collect();
    assert_eq!(
        titles,
        vec![
            "Directory listing found: /uploads",
            "Missing Strict-Transport-Security header",
        ]
    );
}

#[test]
fn outdated_components_match_the_curated_table() {
    let body = "<script src=\"/js/jquery-1.12.4.min.js\"></script>".to_string();
    let findings =
        a06_vulnerable_components("t1", &Some(body), &Some("nginx/1.18.0".to_string()), 0);
    assert_eq!(findings.len(), 2);
    assert_eq!(findings[0].title, "Outdated component: jQuery 1.x");
    assert_eq!(findings[0].severity, Some(Severity::High));
    assert_eq!(findings[1].title, "Server header discloses version");
    assert_eq!(findings[1].severity, Some(Severity::Low));
}

#[test]
fn login_form_without_tokens_lacks_csrf_protection() {
    let login = vec![resp(
        200,
        "<form><input type=\"password\" name=\"pw\"></form>",
    )];
    let findings = a07_authentication_failures("t1", &login, &None, 0);
    let titles: Vec<&str> = findings.iter().map(|f| f.title.as_str()).collect();
    assert_eq!(
        titles,
        vec![
            "Login form lacks CSRF protection",
            "No password policy hints shown",
            "Test default credentials",
        ]
    );
}

#[test]
fn session_cookie_flags_are_checked() {
    let page = PageObservations {
        body: "<html></html>".to_string(),
        cookies: vec![
            CookieObs {
                name: "PHPSESSID".to_string(),
                value: "abc".to_string(),
                secure: false,
                http_only: true,
            },
            CookieObs {
                name: "theme".to_string(),
                value: "dark".to_string(),
                secure: false,
                http_only: false,
            },
        ],
    };
    let findings = a07_authentication_failures("t1", &Vec::new(), &Some(page), 0);
    let titles: Vec<&str> = findings.iter().map(|f| f.title.as_str()).collect();
    assert_eq!(
        titles,
        vec![
            "Session cookie missing Secure flag: PHPSESSID",
            "Test default credentials",
        ]
    );
}

#[test]
fn serialized_cookies_and_missing_sri_are_integrity_failures() {
    let page = PageObservations {
        body: "<script src=\"http://cdn.example/lib.js\"></script>".to_string(),
        cookies: vec![CookieObs {
            name: "state".to_string(),
            value: format!("rO0{}", "A".repeat(60)),
            secure: true,
            http_only: true,
        }],
    };
    let findings = a08_integrity_failures("t1", &Some(page), 0);
    let titles: Vec<&str> = findings.iter().map(|f| f.title.as_str()).collect();
    assert_eq!(
        titles,
        vec![
            "External resources loaded over HTTP",
            "External resources lack SRI",
            "Serialized data in cookie: state",
        ]
    );
}

#[test]
fn leaky_error_pages_are_reported_once() {
    let probes = vec![
        resp(404, "<h1>Not Found</h1>"),
        resp(500, "Traceback (most recent call last): ..."),
    ];
    let findings = a09_logging_failures("t1", &probes, 0);
    let titles: Vec<&str> = findings.iter().map(|f| f.title.as_str()).collect();
    assert_eq!(
        titles,
        vec![
            "Error page discloses details",
            "Adopt security logging and monitoring",
        ]
    );
}

#[test]
fn ssrf_hits_are_reported_per_parameter() {
    let rows = vec![
        vec![resp(200, "ami-id: ami-12345")],
        vec![resp(404, "nope")],
        vec![None, resp(200, "connection to 127.0.0.1 refused")],
    ];
    let findings = a10_ssrf("t1", &rows, &Vec::new(), 0);
    assert_eq!(findings.len(), 2);
    assert_eq!(findings[0].title, "SSRF vulnerability: Localhost");
    assert_eq!(findings[0].severity, Some(Severity::Critical));
    assert_eq!(
        findings[0].raw_data.as_deref(),
        Some("A10 parameter url payload http://localhost")
    );
    assert_eq!(findings[1].title, "SSRF vulnerability: Loopback IP");
}

#[test]
fn open_redirect_matches_the_location_header() {
    let locations = vec![
        None,
        Some(None),
        Some(Some("https://evil.com/phish".to_string())),
    ];
    let findings = a10_ssrf("t1", &Vec::new(), &locations, 0);
    assert_eq!(findings.len(), 1);
    assert_eq!(findings[0].title, "Open redirect vulnerability");
    assert_eq!(findings[0].severity, Some(Severity::Medium));
}

#[test]
fn probe_urls_carry_encoded_payloads() {
    let url = probe_url("http://example.com", "id", "' OR '1'='1");
    assert_eq!(url, "http://example.com?id=%27%20OR%20%271%27%3D%271");
    assert_eq!(
        path_url("http://example.com/", "/admin"),
        "http://example.com/admin"
    );
    assert_eq!(
        path_url("http://example.com", "/admin"),
        "http://example.com/admin"
    );
    assert_eq!(admin_paths().len(), 12);
    assert_eq!(sql_payloads().len(), 7);
}
