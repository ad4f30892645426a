use redforge_scanner::models::{severity_rank, ScannerError, Severity};
use redforge_scanner::text::{
    bytes_eq, contains_bytes, str_contains, str_contains_lower, str_eq, str_starts_with,
    to_lower_vec,
};

#[test]
fn substring_search_over_bytes() {
    assert!(contains_bytes(b"hello world", b"lo wo"));
    assert!(contains_bytes(b"hello", b""));
    assert!(contains_bytes(b"", b""));
    assert!(!contains_bytes(b"", b"x"));
    assert!(!contains_bytes(b"hay", b"haystack"));
    assert!(contains_bytes(b"aaab", b"aab"));
}

#[test]
fn string_matching_is_byte_accurate() {
    assert!(str_contains("error in your SQL syntax", "SQL"));
    assert!(!str_contains("error in your SQL syntax", "sql"));
    assert!(str_contains_lower("error in your SQL syntax", "sql"));
    assert!(str_starts_with("https://example.com", "https://"));
    assert!(!str_starts_with("http://example.com", "https://"));
    assert!(str_eq("same", "same"));
    assert!(!str_eq("same", "Same"));
}

#[test]
fn ascii_folding_leaves_other_bytes_alone() {
    assert_eq!(to_lower_vec(b"MiXeD-123_"), b"mixed-123_".to_vec());
    assert!(bytes_eq(b"abc", b"abc"));
    assert!(!bytes_eq(b"abc", b"abd"));
    // multi-byte UTF-8 is untouched by ASCII folding
    let s = "caf\u{e9} SQL";
    assert!(str_contains_lower(s, "sql"));
    assert!(str_contains_lower(s, "caf\u{e9}"));
}

#[test]
fn severity_rank_is_the_documented_total_order() {
    assert_eq!(severity_rank(Severity::Critical), 4);
    assert_eq!(severity_rank(Severity::High), 3);
    assert_eq!(severity_rank(Severity::Medium), 2);
    assert_eq!(severity_rank(Severity::Low), 1);
    assert_eq!(severity_rank(Severity::Info), 0);
}

#[test]
fn scanner_errors_render_with_their_prefix() {
    let e = ScannerError { message: "request timed out".to_string() };
    assert_eq!(e.render(), "Scanner Error: request timed out");
}
