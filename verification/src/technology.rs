//! TechnologyFingerprinter: signature-matches response headers and HTML body
//! text against curated marker lists for JS/UI frameworks, CSS frameworks,
//! analytics/tag managers and CDNs, plus a header-based server/language
//! detector. Each match yields one `DetectedTechnology` with a fixed
//! per-signature confidence; signals for the same technology are not
//! aggregated. The GET itself is performed by the surrounding application.

use vstd::prelude::*;
use vstd::string::StringExecFns;
use crate::models::{DetectedTechnology, TechnologyCategory};
use crate::outside::{fresh_id, regex_capture1, regex_capture1_of, regex_valid_of};
use crate::text::{bytes_of, contains_lower, contains_seq, str_contains, str_contains_lower};

verus! {

/// The lower-cased body contains this (lower-case) marker.
pub open spec fn body_has(body: Seq<char>, marker: Seq<char>) -> bool {
    contains_lower(bytes_of(body), bytes_of(marker))
}

/// The body contains this marker byte-for-byte (case-sensitive).
pub open spec fn body_has_exact(body: Seq<char>, marker: Seq<char>) -> bool {
    contains_seq(bytes_of(body), bytes_of(marker))
}

/// Some header's name or value contains this (lower-case) marker,
/// case-insensitively.
pub open spec fn headers_have(hs: Seq<(String, String)>, marker: Seq<char>) -> bool {
    exists|i: int|
        0 <= i < hs.len() && (contains_lower(bytes_of(hs[i].0@), bytes_of(marker))
            || contains_lower(bytes_of(hs[i].1@), bytes_of(marker)))
}

/// Executable check of `headers_have`.
pub fn headers_contain(hs: &Vec<(String, String)>, marker: &str) -> (r: bool)
    ensures
        r == headers_have(hs@, marker@),
{
    let n = hs.len();
    let mut i: usize = 0;
    while i < n
        invariant
            n == hs@.len(),
            i <= n,
            forall|k: int|
                0 <= k < i ==> !(contains_lower(bytes_of(hs@[k].0@), bytes_of(marker@))
                    || contains_lower(bytes_of(hs@[k].1@), bytes_of(marker@))),
        decreases n - i,
    {
        if str_contains_lower(hs[i].0.as_str(), marker) || str_contains_lower(
            hs[i].1.as_str(),
            marker,
        ) {
            return true;
        }
        i = i + 1;
    }
    false
}

/// The utility-class prefixes Tailwind sites with default tooling carry.
pub open spec fn spec_tailwind_patterns() -> Seq<Seq<char>> {
    seq![
        "flex-"@,
        "grid-"@,
        "bg-"@,
        "text-"@,
        "p-"@,
        "m-"@,
        "w-"@,
        "h-"@,
        "rounded-"@,
        "shadow-"@,
        "hover:"@,
        "focus:"@,
        "md:"@,
        "lg:"@,
    ]
}

/// How many of the given markers occur (case-sensitively) in the body.
pub open spec fn count_hits(body: Seq<char>, pats: Seq<Seq<char>>) -> int
    decreases pats.len(),
{
    if pats.len() == 0 {
        0
    } else {
        count_hits(body, pats.drop_last()) + (if body_has_exact(body, pats.last()) {
            1int
        } else {
            0int
        })
    }
}

/// The three-of-N utility-class heuristic for Tailwind.
pub open spec fn spec_has_tailwind_classes(body: Seq<char>) -> bool {
    count_hits(body, spec_tailwind_patterns()) >= 3
}

/// The utility-class prefix table, as strings.
fn tailwind_patterns() -> (r: Vec<String>)
    ensures
        r@.len() == 14,
        forall|i: int| 0 <= i < 14 ==> (#[trigger] r@[i])@ == spec_tailwind_patterns()[i],
{
    let mut out: Vec<String> = Vec::new();
    out.push(String::from_str("flex-"));
    out.push(String::from_str("grid-"));
    out.push(String::from_str("bg-"));
    out.push(String::from_str("text-"));
    out.push(String::from_str("p-"));
    out.push(String::from_str("m-"));
    out.push(String::from_str("w-"));
    out.push(String::from_str("h-"));
    out.push(String::from_str("rounded-"));
    out.push(String::from_str("shadow-"));
    out.push(String::from_str("hover:"));
    out.push(String::from_str("focus:"));
    out.push(String::from_str("md:"));
    out.push(String::from_str("lg:"));
    out
}

/// Count Tailwind utility-class prefixes in the body; three or more count as
/// a Tailwind signal.
pub fn has_tailwind_classes(body: &str) -> (r: bool)
    ensures
        r == spec_has_tailwind_classes(body@),
{
    let pats = tailwind_patterns();
    let mut count: u32 = 0;
    let mut i: usize = 0;
    proof {
        assert(spec_tailwind_patterns().subrange(0, 0) =~= Seq::<Seq<char>>::empty());
    }
    while i < 14
        invariant
            pats@.len() == 14,
            forall|k: int| 0 <= k < 14 ==> (#[trigger] pats@[k])@ == spec_tailwind_patterns()[k],
            i <= 14,
            count <= i,
            count as int == count_hits(body@, spec_tailwind_patterns().subrange(0, i as int)),
        decreases 14 - i,
    {
        proof {
            let pv = spec_tailwind_patterns();
            assert(pv.subrange(0, i + 1 as int).drop_last() =~= pv.subrange(0, i as int));
            assert(pv.subrange(0, i + 1 as int).last() == pv[i as int]);
        }
        if str_contains(body, pats[i].as_str()) {
            count = count + 1;
        }
        i = i + 1;
    }
    proof {
        assert(spec_tailwind_patterns().subrange(0, 14) =~= spec_tailwind_patterns());
    }
    count >= 3
}

/// One candidate's contribution to the expected detection list.
pub open spec fn cand(
    hit: bool,
    name: Seq<char>,
    category: TechnologyCategory,
    confidence: u8,
) -> Seq<(Seq<char>, TechnologyCategory, u8)> {
    if hit {
        seq![(name, category, confidence)]
    } else {
        Seq::empty()
    }
}

/// The JS/UI-framework signatures, in table order.
pub open spec fn spec_detect_js(body: Seq<char>) -> Seq<(Seq<char>, TechnologyCategory, u8)> {
    cand(
        body_has(body, "_reactroot"@) || body_has(body, "react-"@) || body_has(body, "__react"@),
        "React"@,
        TechnologyCategory::Framework,
        85,
    ) + cand(
        body_has(body, "data-v-"@) || body_has(body, "__vue__"@) || body_has(body, "vue.js"@),
        "Vue.js"@,
        TechnologyCategory::Framework,
        85,
    ) + cand(
        body_has(body, "ng-version"@) || body_has(body, "angular"@) || body_has(body, "_nghost"@),
        "Angular"@,
        TechnologyCategory::Framework,
        85,
    ) + cand(
        body_has(body, "__next"@) || body_has(body, "_next/static"@),
        "Next.js"@,
        TechnologyCategory::Framework,
        90,
    ) + cand(
        body_has(body, "__nuxt"@) || body_has(body, "_nuxt"@),
        "Nuxt.js"@,
        TechnologyCategory::Framework,
        90,
    ) + cand(
        body_has(body, "svelte-"@) || body_has(body, "__svelte"@),
        "Svelte"@,
        TechnologyCategory::Framework,
        85,
    )
}

/// The CSS-framework signatures, in table order.
pub open spec fn spec_detect_css(body: Seq<char>) -> Seq<(Seq<char>, TechnologyCategory, u8)> {
    cand(
        body_has(body, "bootstrap"@) || body_has(body, "btn btn-"@),
        "Bootstrap"@,
        TechnologyCategory::Framework,
        80,
    ) + cand(
        spec_has_tailwind_classes(body),
        "Tailwind CSS"@,
        TechnologyCategory::Framework,
        75,
    )
}

/// The analytics and tag-manager signatures, in table order.
pub open spec fn spec_detect_analytics(body: Seq<char>) -> Seq<
    (Seq<char>, TechnologyCategory, u8),
> {
    cand(
        body_has(body, "google-analytics.com"@) || body_has(body, "gtag"@) || body_has(
            body,
            "ga.js"@,
        ),
        "Google Analytics"@,
        TechnologyCategory::Analytics,
        95,
    ) + cand(
        body_has(body, "googletagmanager.com"@) || body_has(body, "gtm.js"@),
        "Google Tag Manager"@,
        TechnologyCategory::Analytics,
        95,
    ) + cand(
        body_has(body, "facebook.net/en_us/fbevents.js"@) || body_has(body, "fbq("@),
        "Facebook Pixel"@,
        TechnologyCategory::Analytics,
        90,
    ) + cand(
        body_has(body, "hotjar.com"@) || body_has(body, "hjid"@),
        "Hotjar"@,
        TechnologyCategory::Analytics,
        90,
    ) + cand(
        body_has(body, "mixpanel.com"@) || body_has(body, "mixpanel"@),
        "Mixpanel"@,
        TechnologyCategory::Analytics,
        85,
    )
}

/// The CDN signatures, in table order; checked against body text and against
/// header names and values.
pub open spec fn spec_detect_cdn(body: Seq<char>, hs: Seq<(String, String)>) -> Seq<
    (Seq<char>, TechnologyCategory, u8),
> {
    cand(
        body_has(body, "cloudflare.com"@) || body_has(body, "cf-ray"@) || headers_have(
            hs,
            "cloudflare.com"@,
        ) || headers_have(hs, "cf-ray"@),
        "Cloudflare"@,
        TechnologyCategory::Cdn,
        90,
    ) + cand(
        body_has(body, "fastly.net"@) || headers_have(hs, "fastly.net"@),
        "Fastly"@,
        TechnologyCategory::Cdn,
        85,
    ) + cand(
        body_has(body, "akamai.net"@) || body_has(body, "akamaihd.net"@) || headers_have(
            hs,
            "akamai.net"@,
        ) || headers_have(hs, "akamaihd.net"@),
        "Akamai"@,
        TechnologyCategory::Cdn,
        85,
    ) + cand(
        body_has(body, "cloudfront.net"@) || headers_have(hs, "cloudfront.net"@),
        "Amazon CloudFront"@,
        TechnologyCategory::Cdn,
        90,
    )
}

/// All signatures `detect` checks, in fixed table order.
pub open spec fn spec_detect(body: Seq<char>, hs: Seq<(String, String)>) -> Seq<
    (Seq<char>, TechnologyCategory, u8),
> {
    spec_detect_js(body) + spec_detect_css(body) + spec_detect_analytics(body) + spec_detect_cdn(
        body,
        hs,
    )
}

/// One detection record carries the expected triple and the owning scan's stamps.
pub open spec fn tech_wf(
    t: DetectedTechnology,
    task_id: Seq<char>,
    entry: (Seq<char>, TechnologyCategory, u8),
    now: i64,
) -> bool {
    &&& t.task_id@ == task_id
    &&& t.technology_name@ == entry.0
    &&& t.technology_version is None
    &&& t.category == entry.1
    &&& t.confidence == entry.2
    &&& t.created_at == now
}

/// The whole vector matches the expected triples, element for element.
pub open spec fn techs_match(
    ts: Seq<DetectedTechnology>,
    task_id: Seq<char>,
    expected: Seq<(Seq<char>, TechnologyCategory, u8)>,
    now: i64,
) -> bool {
    &&& ts.len() == expected.len()
    &&& forall|i: int| 0 <= i < ts.len() ==> tech_wf(#[trigger] ts[i], task_id, expected[i], now)
}

/// Push one detection record.
fn push_tech(
    out: &mut Vec<DetectedTechnology>,
    task_id: &str,
    name: &str,
    category: TechnologyCategory,
    confidence: u8,
    now: i64,
)
    ensures
        final(out)@.len() == old(out)@.len() + 1,
        forall|k: int| 0 <= k < old(out)@.len() ==> final(out)@[k] == old(out)@[k],
        tech_wf(
            final(out)@[old(out)@.len() as int],
            task_id@,
            (name@, category, confidence),
            now,
        ),
{
    let t = DetectedTechnology {
        id: fresh_id(),
        task_id: String::from_str(task_id),
        technology_name: String::from_str(name),
        technology_version: None,
        category: category,
        confidence: confidence,
        created_at: now,
    };
    out.push(t);
}

/// Detect JS/UI frameworks from body markers.
#[verifier::rlimit(100)]
fn detect_js_frameworks(task_id: &str, body: &str, now: i64) -> (r: Vec<DetectedTechnology>)
    ensures
        techs_match(r@, task_id@, spec_detect_js(body@), now),
{
    let mut out: Vec<DetectedTechnology> = Vec::new();
    let ghost mut done: Seq<(Seq<char>, TechnologyCategory, u8)> = Seq::empty();
    if str_contains_lower(body, "_reactroot") || str_contains_lower(body, "react-")
        || str_contains_lower(body, "__react") {
        push_tech(&mut out, task_id, "React", TechnologyCategory::Framework, 85, now);
    }
    proof {
        done = done + cand(
            body_has(body@, "_reactroot"@) || body_has(body@, "react-"@) || body_has(
                body@,
                "__react"@,
            ),
            "React"@,
            TechnologyCategory::Framework,
            85,
        );
        assert(techs_match(out@, task_id@, done, now));
    }
    if str_contains_lower(body, "data-v-") || str_contains_lower(body, "__vue__")
        || str_contains_lower(body, "vue.js") {
        push_tech(&mut out, task_id, "Vue.js", TechnologyCategory::Framework, 85, now);
    }
    proof {
        done = done + cand(
            body_has(body@, "data-v-"@) || body_has(body@, "__vue__"@) || body_has(
                body@,
                "vue.js"@,
            ),
            "Vue.js"@,
            TechnologyCategory::Framework,
            85,
        );
        assert(techs_match(out@, task_id@, done, now));
    }
    if str_contains_lower(body, "ng-version") || str_contains_lower(body, "angular")
        || str_contains_lower(body, "_nghost") {
        push_tech(&mut out, task_id, "Angular", TechnologyCategory::Framework, 85, now);
    }
    proof {
        done = done + cand(
            body_has(body@, "ng-version"@) || body_has(body@, "angular"@) || body_has(
                body@,
                "_nghost"@,
            ),
            "Angular"@,
            TechnologyCategory::Framework,
            85,
        );
        assert(techs_match(out@, task_id@, done, now));
    }
    if str_contains_lower(body, "__next") || str_contains_lower(body, "_next/static") {
        push_tech(&mut out, task_id, "Next.js", TechnologyCategory::Framework, 90, now);
    }
    proof {
        done = done + cand(
            body_has(body@, "__next"@) || body_has(body@, "_next/static"@),
            "Next.js"@,
            TechnologyCategory::Framework,
            90,
        );
        assert(techs_match(out@, task_id@, done, now));
    }
    if str_contains_lower(body, "__nuxt") || str_contains_lower(body, "_nuxt") {
        push_tech(&mut out, task_id, "Nuxt.js", TechnologyCategory::Framework, 90, now);
    }
    proof {
        done = done + cand(
            body_has(body@, "__nuxt"@) || body_has(body@, "_nuxt"@),
            "Nuxt.js"@,
            TechnologyCategory::Framework,
            90,
        );
        assert(techs_match(out@, task_id@, done, now));
    }
    if str_contains_lower(body, "svelte-") || str_contains_lower(body, "__svelte") {
        push_tech(&mut out, task_id, "Svelte", TechnologyCategory::Framework, 85, now);
    }
    proof {
        done = done + cand(
            body_has(body@, "svelte-"@) || body_has(body@, "__svelte"@),
            "Svelte"@,
            TechnologyCategory::Framework,
            85,
        );
        assert(techs_match(out@, task_id@, done, now));
        assert(done =~= spec_detect_js(body@));
    }
    out
}

/// Detect CSS frameworks from body markers and the Tailwind heuristic.
#[verifier::rlimit(100)]
fn detect_css_frameworks(task_id: &str, body: &str, now: i64) -> (r: Vec<DetectedTechnology>)
    ensures
        techs_match(r@, task_id@, spec_detect_css(body@), now),
{
    let mut out: Vec<DetectedTechnology> = Vec::new();
    let ghost mut done: Seq<(Seq<char>, TechnologyCategory, u8)> = Seq::empty();
    if str_contains_lower(body, "bootstrap") || str_contains_lower(body, "btn btn-") {
        push_tech(&mut out, task_id, "Bootstrap", TechnologyCategory::Framework, 80, now);
    }
    proof {
        done = done + cand(
            body_has(body@, "bootstrap"@) || body_has(body@, "btn btn-"@),
            "Bootstrap"@,
            TechnologyCategory::Framework,
            80,
        );
        assert(techs_match(out@, task_id@, done, now));
    }
    if has_tailwind_classes(body) {
        push_tech(&mut out, task_id, "Tailwind CSS", TechnologyCategory::Framework, 75, now);
    }
    proof {
        done = done + cand(
            spec_has_tailwind_classes(body@),
            "Tailwind CSS"@,
            TechnologyCategory::Framework,
            75,
        );
        assert(techs_match(out@, task_id@, done, now));
        assert(done =~= spec_detect_css(body@));
    }
    out
}

/// Detect analytics and tag managers from body markers.
#[verifier::rlimit(100)]
fn detect_analytics(task_id: &str, body: &str, now: i64) -> (r: Vec<DetectedTechnology>)
    ensures
        techs_match(r@, task_id@, spec_detect_analytics(body@), now),
{
    let mut out: Vec<DetectedTechnology> = Vec::new();
    let ghost mut done: Seq<(Seq<char>, TechnologyCategory, u8)> = Seq::empty();
    if str_contains_lower(body, "google-analytics.com") || str_contains_lower(body, "gtag")
        || str_contains_lower(body, "ga.js") {
        push_tech(&mut out, task_id, "Google Analytics", TechnologyCategory::Analytics, 95, now);
    }
    proof {
        done = done + cand(
            body_has(body@, "google-analytics.com"@) || body_has(body@, "gtag"@) || body_has(
                body@,
                "ga.js"@,
            ),
            "Google Analytics"@,
            TechnologyCategory::Analytics,
            95,
        );
        assert(techs_match(out@, task_id@, done, now));
    }
    if str_contains_lower(body, "googletagmanager.com") || str_contains_lower(body, "gtm.js") {
        push_tech(&mut out, task_id, "Google Tag Manager", TechnologyCategory::Analytics, 95, now);
    }
    proof {
        done = done + cand(
            body_has(body@, "googletagmanager.com"@) || body_has(body@, "gtm.js"@),
            "Google Tag Manager"@,
            TechnologyCategory::Analytics,
            95,
        );
        assert(techs_match(out@, task_id@, done, now));
    }
    if str_contains_lower(body, "facebook.net/en_us/fbevents.js") || str_contains_lower(
        body,
        "fbq(",
    ) {
        push_tech(&mut out, task_id, "Facebook Pixel", TechnologyCategory::Analytics, 90, now);
    }
    proof {
        done = done + cand(
            body_has(body@, "facebook.net/en_us/fbevents.js"@) || body_has(body@, "fbq("@),
            "Facebook Pixel"@,
            TechnologyCategory::Analytics,
            90,
        );
        assert(techs_match(out@, task_id@, done, now));
    }
    if str_contains_lower(body, "hotjar.com") || str_contains_lower(body, "hjid") {
        push_tech(&mut out, task_id, "Hotjar", TechnologyCategory::Analytics, 90, now);
    }
    proof {
        done = done + cand(
            body_has(body@, "hotjar.com"@) || body_has(body@, "hjid"@),
            "Hotjar"@,
            TechnologyCategory::Analytics,
            90,
        );
        assert(techs_match(out@, task_id@, done, now));
    }
    if str_contains_lower(body, "mixpanel.com") || str_contains_lower(body, "mixpanel") {
        push_tech(&mut out, task_id, "Mixpanel", TechnologyCategory::Analytics, 85, now);
    }
    proof {
        done = done + cand(
            body_has(body@, "mixpanel.com"@) || body_has(body@, "mixpanel"@),
            "Mixpanel"@,
            TechnologyCategory::Analytics,
            85,
        );
        assert(techs_match(out@, task_id@, done, now));
        assert(done =~= spec_detect_analytics(body@));
    }
    out
}

/// Detect CDNs from body markers and from header names and values.
#[verifier::rlimit(100)]
fn detect_cdn(task_id: &str, body: &str, headers: &Vec<(String, String)>, now: i64) -> (r: Vec<
    DetectedTechnology,
>)
    ensures
        techs_match(r@, task_id@, spec_detect_cdn(body@, headers@), now),
{
    let mut out: Vec<DetectedTechnology> = Vec::new();
    let ghost mut done: Seq<(Seq<char>, TechnologyCategory, u8)> = Seq::empty();
    if str_contains_lower(body, "cloudflare.com") || str_contains_lower(body, "cf-ray")
        || headers_contain(headers, "cloudflare.com") || headers_contain(headers, "cf-ray") {
        push_tech(&mut out, task_id, "Cloudflare", TechnologyCategory::Cdn, 90, now);
    }
    proof {
        done = done + cand(
            body_has(body@, "cloudflare.com"@) || body_has(body@, "cf-ray"@) || headers_have(
                headers@,
                "cloudflare.com"@,
            ) || headers_have(headers@, "cf-ray"@),
            "Cloudflare"@,
            TechnologyCategory::Cdn,
            90,
        );
        assert(techs_match(out@, task_id@, done, now));
    }
    if str_contains_lower(body, "fastly.net") || headers_contain(headers, "fastly.net") {
        push_tech(&mut out, task_id, "Fastly", TechnologyCategory::Cdn, 85, now);
    }
    proof {
        done = done + cand(
            body_has(body@, "fastly.net"@) || headers_have(headers@, "fastly.net"@),
            "Fastly"@,
            TechnologyCategory::Cdn,
            85,
        );
        assert(techs_match(out@, task_id@, done, now));
    }
    if str_contains_lower(body, "akamai.net") || str_contains_lower(body, "akamaihd.net")
        || headers_contain(headers, "akamai.net") || headers_contain(headers, "akamaihd.net") {
        push_tech(&mut out, task_id, "Akamai", TechnologyCategory::Cdn, 85, now);
    }
    proof {
        done = done + cand(
            body_has(body@, "akamai.net"@) || body_has(body@, "akamaihd.net"@) || headers_have(
                headers@,
                "akamai.net"@,
            ) || headers_have(headers@, "akamaihd.net"@),
            "Akamai"@,
            TechnologyCategory::Cdn,
            85,
        );
        assert(techs_match(out@, task_id@, done, now));
    }
    if str_contains_lower(body, "cloudfront.net") || headers_contain(headers, "cloudfront.net") {
        push_tech(&mut out, task_id, "Amazon CloudFront", TechnologyCategory::Cdn, 90, now);
    }
    proof {
        done = done + cand(
            body_has(body@, "cloudfront.net"@) || headers_have(headers@, "cloudfront.net"@),
            "Amazon CloudFront"@,
            TechnologyCategory::Cdn,
            90,
        );
        assert(techs_match(out@, task_id@, done, now));
        assert(done =~= spec_detect_cdn(body@, headers@));
    }
    out
}

/// Fingerprint one response: body and header signatures in fixed table
/// order. The result lists exactly the matching signatures, each as one
/// record with its fixed confidence.
#[verifier::rlimit(100)]
pub fn detect(task_id: &str, body: &str, headers: &Vec<(String, String)>, now: i64) -> (r: Vec<
    DetectedTechnology,
>)
    ensures
        techs_match(r@, task_id@, spec_detect(body@, headers@), now),
{
    let mut out = detect_js_frameworks(task_id, body, now);
    let mut css = detect_css_frameworks(task_id, body, now);
    let mut analytics = detect_analytics(task_id, body, now);
    let mut cdn = detect_cdn(task_id, body, headers, now);
    let ghost g_js = out@;
    let ghost g_css = css@;
    let ghost g_an = analytics@;
    let ghost g_cdn = cdn@;
    out.append(&mut css);
    out.append(&mut analytics);
    out.append(&mut cdn);
    proof {
        assert(out@ =~= g_js + g_css + g_an + g_cdn);
        let e_js = spec_detect_js(body@);
        let e_css = spec_detect_css(body@);
        let e_an = spec_detect_analytics(body@);
        let e_cdn = spec_detect_cdn(body@, headers@);
        let expected = spec_detect(body@, headers@);
        assert(expected =~= e_js + e_css + e_an + e_cdn);
        assert forall|i: int| 0 <= i < out@.len() implies tech_wf(
            #[trigger] out@[i],
            task_id@,
            expected[i],
            now,
        ) by {
            if i < e_js.len() {
                assert(out@[i] == g_js[i] && expected[i] == e_js[i]);
            } else if i < e_js.len() + e_css.len() {
                assert(out@[i] == g_css[i - e_js.len()]);
                assert(expected[i] == e_css[i - e_js.len()]);
            } else if i < e_js.len() + e_css.len() + e_an.len() {
                assert(out@[i] == g_an[i - e_js.len() - e_css.len()]);
                assert(expected[i] == e_an[i - e_js.len() - e_css.len()]);
            } else {
                assert(out@[i] == g_cdn[i - e_js.len() - e_css.len() - e_an.len()]);
                assert(expected[i] == e_cdn[i - e_js.len() - e_css.len() - e_an.len()]);
            }
        }
    }
    out
}

/// Version text for one technology, read from a header value: the first
/// capture of the pattern `<tech>/(<digits>.<digits...>)`, as the outside
/// regex engine matches it.
pub fn extract_version(text: &str, tech: &str) -> (r: Option<String>)
    ensures
        ({
            let pat = tech@ + "/(\\d+\\.[\\d.]+)"@;
            &&& (regex_valid_of(pat) ==> (r is Some <==> regex_capture1_of(pat, text@) is Some))
            &&& (regex_valid_of(pat) && r is Some ==> r->0@ == regex_capture1_of(pat, text@)->0)
            &&& (!regex_valid_of(pat) ==> r is None)
        }),
{
    let mut pat = String::from_str(tech);
    pat.append("/(\\d+\\.[\\d.]+)");
    regex_capture1(pat.as_str(), text)
}

} // verus!
