//! HeaderAuditor: checks the security-relevant response headers of one HTTP
//! GET against a fixed checklist of seven header names, each with its own
//! validation rule, and additionally flags `server` and `x-powered-by` as
//! version disclosure whenever they are present. The surrounding application
//! performs the GET and hands the response headers in as plain name/value
//! pairs; everything below is verified.

use vstd::prelude::*;
use vstd::string::StringExecFns;
use crate::models::SecurityHeader;
use crate::outside::fresh_id;
use crate::text::{
    bytes_eq, bytes_of, contains_lower, contains_seq, lower_bytes, str_contains,
    str_contains_lower, str_eq, to_lower_vec,
};

verus! {

/// ASCII-lower-cased byte form of a header's name.
pub open spec fn lower_name(h: (String, String)) -> Seq<u8> {
    lower_bytes(bytes_of(h.0@))
}

/// Value of the first header whose lower-cased name has these bytes.
/// HTTP header names are case-insensitive; checklist names are lower case.
pub open spec fn spec_lookup(hs: Seq<(String, String)>, name: Seq<u8>) -> Option<String>
    decreases hs.len(),
{
    if hs.len() == 0 {
        None
    } else if lower_name(hs[0]) == name {
        Some(hs[0].1)
    } else {
        spec_lookup(hs.drop_first(), name)
    }
}

/// Find a header by its (lower-case) name, case-insensitively.
pub fn lookup_header(hs: &Vec<(String, String)>, name: &str) -> (r: Option<String>)
    ensures
        r == spec_lookup(hs@, bytes_of(name@)),
{
    let n = hs.len();
    let nb = name.as_bytes();
    let mut i: usize = 0;
    proof {
        assert(hs@.subrange(0, n as int) =~= hs@);
    }
    while i < n
        invariant
            n == hs@.len(),
            i <= n,
            nb@ == bytes_of(name@),
            spec_lookup(hs@, bytes_of(name@)) == spec_lookup(
                hs@.subrange(i as int, n as int),
                bytes_of(name@),
            ),
        decreases n - i,
    {
        let ghost u = hs@.subrange(i as int, n as int);
        proof {
            assert(u[0] == hs@[i as int]);
            assert(u.drop_first() =~= hs@.subrange(i + 1 as int, n as int));
        }
        let folded = to_lower_vec(hs[i].0.as_str().as_bytes());
        if bytes_eq(folded.as_slice(), nb) {
            let v = hs[i].1.clone();
            return Some(v);
        }
        i = i + 1;
    }
    proof {
        assert(hs@.subrange(n as int, n as int) =~= Seq::<(String, String)>::empty());
    }
    None
}

/// The per-header validation rule: what an observed value must contain for
/// the header to count as securely configured.
pub open spec fn spec_validate(name: Seq<char>, value: Seq<char>) -> bool {
    if name == "strict-transport-security"@ {
        contains_seq(bytes_of(value), bytes_of("max-age="@)) && bytes_of(value).len() > 20
    } else if name == "content-security-policy"@ {
        bytes_of(value).len() > 10
    } else if name == "x-frame-options"@ {
        contains_lower(bytes_of(value), bytes_of("deny"@)) || contains_lower(
            bytes_of(value),
            bytes_of("sameorigin"@),
        )
    } else if name == "x-content-type-options"@ {
        contains_lower(bytes_of(value), bytes_of("nosniff"@))
    } else if name == "referrer-policy"@ {
        bytes_of(value).len() > 0
    } else if name == "permissions-policy"@ {
        bytes_of(value).len() > 0
    } else if name == "x-xss-protection"@ {
        contains_seq(bytes_of(value), bytes_of("1"@))
    } else {
        true
    }
}

/// Executable form of the per-header validation rule.
pub fn validate_header(name: &str, value: &str) -> (r: bool)
    ensures
        r == spec_validate(name@, value@),
{
    if str_eq(name, "strict-transport-security") {
        str_contains(value, "max-age=") && value.as_bytes().len() > 20
    } else if str_eq(name, "content-security-policy") {
        value.as_bytes().len() > 10
    } else if str_eq(name, "x-frame-options") {
        str_contains_lower(value, "deny") || str_contains_lower(value, "sameorigin")
    } else if str_eq(name, "x-content-type-options") {
        str_contains_lower(value, "nosniff")
    } else if str_eq(name, "referrer-policy") {
        value.as_bytes().len() > 0
    } else if str_eq(name, "permissions-policy") {
        value.as_bytes().len() > 0
    } else if str_eq(name, "x-xss-protection") {
        str_contains(value, "1")
    } else {
        true
    }
}

/// The seven checklist header names, in audit order.
pub open spec fn spec_checklist_names() -> Seq<Seq<char>> {
    seq![
        "strict-transport-security"@,
        "content-security-policy"@,
        "x-frame-options"@,
        "x-content-type-options"@,
        "referrer-policy"@,
        "permissions-policy"@,
        "x-xss-protection"@,
    ]
}

/// The seven recommendation texts, in checklist order.
pub open spec fn spec_checklist_recs() -> Seq<Seq<char>> {
    seq![
        "Enable HSTS to force HTTPS; recommended: max-age=31536000; includeSubDomains"@,
        "Set a CSP to mitigate cross-site scripting and data injection"@,
        "Prevent clickjacking; recommended: DENY or SAMEORIGIN"@,
        "Prevent MIME-type sniffing; recommended: nosniff"@,
        "Limit referrer disclosure; recommended: no-referrer or strict-origin-when-cross-origin"@,
        "Restrict browser feature permissions (formerly Feature-Policy)"@,
        "Enable the browser XSS filter; recommended: 1; mode=block"@,
    ]
}

/// The checklist: each header name paired with its recommendation text.
pub fn get_security_headers_checklist() -> (r: Vec<(String, String)>)
    ensures
        r@.len() == 7,
        forall|i: int| 0 <= i < 7 ==> (#[trigger] r@[i]).0@ == spec_checklist_names()[i],
        forall|i: int| 0 <= i < 7 ==> (#[trigger] r@[i]).1@ == spec_checklist_recs()[i],
    {
    let mut out: Vec<(String, String)> = Vec::new();
    out.push(
        (
            String::from_str("strict-transport-security"),
            String::from_str(
                "Enable HSTS to force HTTPS; recommended: max-age=31536000; includeSubDomains",
            ),
        ),
    );
    out.push(
        (
            String::from_str("content-security-policy"),
            String::from_str("Set a CSP to mitigate cross-site scripting and data injection"),
        ),
    );
    out.push(
        (
            String::from_str("x-frame-options"),
            String::from_str("Prevent clickjacking; recommended: DENY or SAMEORIGIN"),
        ),
    );
    out.push(
        (
            String::from_str("x-content-type-options"),
            String::from_str("Prevent MIME-type sniffing; recommended: nosniff"),
        ),
    );
    out.push(
        (
            String::from_str("referrer-policy"),
            String::from_str(
                "Limit referrer disclosure; recommended: no-referrer or strict-origin-when-cross-origin",
            ),
        ),
    );
    out.push(
        (
            String::from_str("permissions-policy"),
            String::from_str("Restrict browser feature permissions (formerly Feature-Policy)"),
        ),
    );
    out.push(
        (
            String::from_str("x-xss-protection"),
            String::from_str("Enable the browser XSS filter; recommended: 1; mode=block"),
        ),
    );
    proof {
        assert forall|i: int| 0 <= i < 7 implies (#[trigger] out@[i]).0@
            == spec_checklist_names()[i] by {
            reveal_strlit("strict-transport-security");
            reveal_strlit("content-security-policy");
            reveal_strlit("x-frame-options");
            reveal_strlit("x-content-type-options");
            reveal_strlit("referrer-policy");
            reveal_strlit("permissions-policy");
            reveal_strlit("x-xss-protection");
        }
        assert forall|i: int| 0 <= i < 7 implies (#[trigger] out@[i]).1@
            == spec_checklist_recs()[i] by {}
    }
    out
}

/// What one checklist entry must record: the header's name, the observed
/// value (if any), presence, and the validation verdict, stamped for this
/// task at this time.
pub open spec fn check_wf(
    c: SecurityHeader,
    task_id: Seq<char>,
    name: Seq<char>,
    rec: Seq<char>,
    looked: Option<String>,
    now: i64,
) -> bool {
    &&& c.task_id@ == task_id
    &&& c.header_name@ == name
    &&& (c.header_value is Some <==> looked is Some)
    &&& (looked is Some ==> c.header_value->0@ == looked->0@)
    &&& c.is_present == (looked is Some)
    &&& c.is_secure == (looked is Some && spec_validate(name, looked->0@))
    &&& c.recommendation is Some && c.recommendation->0@ == rec
    &&& c.created_at == now
}

/// What a version-disclosure entry must record: the header is present and is
/// never counted as secure.
pub open spec fn disclosure_wf(
    c: SecurityHeader,
    task_id: Seq<char>,
    name: Seq<char>,
    rec: Seq<char>,
    value: String,
    now: i64,
) -> bool {
    &&& c.task_id@ == task_id
    &&& c.header_name@ == name
    &&& c.header_value is Some
    &&& c.header_value->0@ == value@
    &&& c.is_present
    &&& !c.is_secure
    &&& c.recommendation is Some && c.recommendation->0@ == rec
    &&& c.created_at == now
}

/// Audit one response's headers: one entry per checklist name, in checklist
/// order, followed by a version-disclosure entry for `server` and for
/// `x-powered-by` whenever those are present.
pub fn scan_headers(task_id: &str, headers: &Vec<(String, String)>, now: i64) -> (r: Vec<
    SecurityHeader,
>)
    ensures
        r@.len() >= 7,
        forall|i: int|
            0 <= i < 7 ==> check_wf(
                #[trigger] r@[i],
                task_id@,
                spec_checklist_names()[i],
                spec_checklist_recs()[i],
                spec_lookup(headers@, bytes_of(spec_checklist_names()[i])),
                now,
            ),
        ({
            let server = spec_lookup(headers@, bytes_of("server"@));
            let powered = spec_lookup(headers@, bytes_of("x-powered-by"@));
            &&& r@.len() == 7 + (if server is Some {
                1int
            } else {
                0int
            }) + (if powered is Some {
                1int
            } else {
                0int
            })
            &&& (server is Some ==> disclosure_wf(
                r@[7],
                task_id@,
                "server"@,
                "Hide or remove server version information"@,
                server->0,
                now,
            ))
            &&& (powered is Some ==> disclosure_wf(
                r@[r@.len() - 1],
                task_id@,
                "x-powered-by"@,
                "Remove the X-Powered-By header to avoid disclosing the stack"@,
                powered->0,
                now,
            ))
        }),
{
    let checklist = get_security_headers_checklist();
    let mut out: Vec<SecurityHeader> = Vec::new();
    let mut i: usize = 0;
    while i < 7
        invariant
            checklist@.len() == 7,
            forall|k: int|
                0 <= k < 7 ==> (#[trigger] checklist@[k]).0@ == spec_checklist_names()[k],
            forall|k: int|
                0 <= k < 7 ==> (#[trigger] checklist@[k]).1@ == spec_checklist_recs()[k],
            i <= 7,
            out@.len() == i,
            forall|k: int|
                0 <= k < i ==> check_wf(
                    #[trigger] out@[k],
                    task_id@,
                    spec_checklist_names()[k],
                    spec_checklist_recs()[k],
                    spec_lookup(headers@, bytes_of(spec_checklist_names()[k])),
                    now,
                ),
        decreases 7 - i,
    {
        let looked = lookup_header(headers, checklist[i].0.as_str());
        let present = looked.is_some();
        let secure = match &looked {
            Some(v) => validate_header(checklist[i].0.as_str(), v.as_str()),
            None => false,
        };
        let check = SecurityHeader {
            id: fresh_id(),
            task_id: String::from_str(task_id),
            header_name: checklist[i].0.clone(),
            header_value: looked,
            is_present: present,
            is_secure: secure,
            recommendation: Some(checklist[i].1.clone()),
            created_at: now,
        };
        out.push(check);
        i = i + 1;
    }
    let server = lookup_header(headers, "server");
    match server {
        Some(v) => {
            let entry = SecurityHeader {
                id: fresh_id(),
                task_id: String::from_str(task_id),
                header_name: String::from_str("server"),
                header_value: Some(v),
                is_present: true,
                is_secure: false,
                recommendation: Some(
                    String::from_str("Hide or remove server version information"),
                ),
                created_at: now,
            };
            out.push(entry);
        },
        None => {},
    }
    let powered = lookup_header(headers, "x-powered-by");
    match powered {
        Some(v) => {
            let entry = SecurityHeader {
                id: fresh_id(),
                task_id: String::from_str(task_id),
                header_name: String::from_str("x-powered-by"),
                header_value: Some(v),
                is_present: true,
                is_secure: false,
                recommendation: Some(
                    String::from_str(
                        "Remove the X-Powered-By header to avoid disclosing the stack",
                    ),
                ),
                created_at: now,
            };
            out.push(entry);
        },
        None => {},
    }
    out
}

} // verus!
