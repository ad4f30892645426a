//! ResultAggregator: merges the findings of the probe engine and of the
//! supplementary probe set, sorts them descending by severity rank with a
//! stable insertion sort, and deduplicates them by exact title equality,
//! keeping the first occurrence under the established order. Deduplication by
//! title alone can collapse distinct findings that share a title; that is the
//! documented trade-off of this aggregator, kept as specified.

use vstd::prelude::*;
use crate::models::{severity_rank, spec_severity_rank, ScanResult};

verus! {

/// Severity rank of a finding; a finding without a severity counts as
/// informational (the lowest rank).
pub open spec fn rank_of(f: ScanResult) -> int {
    spec_severity_rank(f.spec_effective_severity())
}

/// Sorted descending by severity rank.
pub open spec fn sorted_desc(s: Seq<ScanResult>) -> bool {
    forall|i: int, j: int| 0 <= i < j < s.len() ==> rank_of(s[i]) >= rank_of(s[j])
}

/// Some finding in the sequence carries this title.
pub open spec fn has_title(s: Seq<ScanResult>, t: Seq<char>) -> bool {
    exists|i: int| 0 <= i < s.len() && s[i].title@ == t
}

/// All titles in the sequence are distinct.
pub open spec fn titles_unique(s: Seq<ScanResult>) -> bool {
    forall|i: int, j: int| 0 <= i < j < s.len() ==> s[i].title@ != s[j].title@
}

/// Insertion into a sequence sorted descending: the new finding goes in
/// front of the first element whose rank does not exceed its own. The sort
/// inserts earlier findings after later ones, so placing each in front of
/// its equals keeps equal-rank findings in their original order.
pub open spec fn insert_desc(f: ScanResult, s: Seq<ScanResult>) -> Seq<ScanResult>
    decreases s.len(),
{
    if s.len() == 0 {
        seq![f]
    } else if rank_of(f) >= rank_of(s[0]) {
        seq![f] + s
    } else {
        seq![s[0]] + insert_desc(f, s.drop_first())
    }
}

/// Stable insertion sort, descending by severity rank.
pub open spec fn sort_desc(s: Seq<ScanResult>) -> Seq<ScanResult>
    decreases s.len(),
{
    if s.len() == 0 {
        Seq::<ScanResult>::empty()
    } else {
        insert_desc(s[0], sort_desc(s.drop_first()))
    }
}

/// Deduplication by exact title equality, keeping the first occurrence.
pub open spec fn dedup_titles(s: Seq<ScanResult>) -> Seq<ScanResult>
    decreases s.len(),
{
    if s.len() == 0 {
        Seq::<ScanResult>::empty()
    } else if has_title(s.drop_last(), s.last().title@) {
        dedup_titles(s.drop_last())
    } else {
        dedup_titles(s.drop_last()).push(s.last())
    }
}

/// What the aggregator computes from the concatenated probe output.
pub open spec fn spec_aggregate(s: Seq<ScanResult>) -> Seq<ScanResult> {
    dedup_titles(sort_desc(s))
}

/// Where `insert_desc` places the new finding: in front of position `k`,
/// the first position whose rank does not exceed the new finding's.
proof fn lemma_insert_desc_at(f: ScanResult, s: Seq<ScanResult>, k: int)
    requires
        0 <= k <= s.len(),
        forall|j: int| 0 <= j < k ==> rank_of(f) < rank_of(s[j]),
        k < s.len() ==> rank_of(f) >= rank_of(s[k]),
    ensures
        insert_desc(f, s) =~= s.subrange(0, k) + seq![f] + s.subrange(k, s.len() as int),
    decreases s.len(),
{
    if s.len() == 0 {
        assert(insert_desc(f, s) =~= seq![f]);
    } else if k == 0 {
        assert(insert_desc(f, s) =~= seq![f] + s);
    } else {
        lemma_insert_desc_at(f, s.drop_first(), k - 1);
        assert(s.drop_first().subrange(0, k - 1) =~= s.subrange(1, k));
        assert(s.drop_first().subrange(k - 1, s.drop_first().len() as int) =~= s.subrange(
            k,
            s.len() as int,
        ));
        assert(insert_desc(f, s) =~= seq![s[0]] + insert_desc(f, s.drop_first()));
    }
}

/// Inserting into a sequence sorted descending keeps it sorted.
proof fn lemma_insert_desc_sorted(f: ScanResult, s: Seq<ScanResult>)
    requires
        sorted_desc(s),
    ensures
        sorted_desc(insert_desc(f, s)),
    decreases s.len(),
{
    if s.len() == 0 {
    } else if rank_of(f) >= rank_of(s[0]) {
        let r = seq![f] + s;
        assert forall|i: int, j: int| 0 <= i < j < r.len() implies rank_of(r[i]) >= rank_of(
            r[j],
        ) by {
            if i == 0 {
                if j > 0 {
                    assert(r[j] == s[j - 1]);
                    if j - 1 > 0 {
                        assert(rank_of(s[0]) >= rank_of(s[j - 1]));
                    }
                }
            } else {
                assert(r[i] == s[i - 1] && r[j] == s[j - 1]);
            }
        }
    } else {
        assert(sorted_desc(s.drop_first()));
        lemma_insert_desc_sorted(f, s.drop_first());
        let t = insert_desc(f, s.drop_first());
        let r = seq![s[0]] + t;
        assert(insert_desc(f, s) == r);
        // every element of t is f or an element of s.drop_first(), so s[0]
        // outranks it
        lemma_insert_desc_members(f, s.drop_first());
        assert forall|i: int, j: int| 0 <= i < j < r.len() implies rank_of(r[i]) >= rank_of(
            r[j],
        ) by {
            if i == 0 {
                assert(r[j] == t[j - 1]);
                assert(t[j - 1] == f || exists|m: int|
                    0 <= m < s.drop_first().len() && t[j - 1] == s.drop_first()[m]);
                if t[j - 1] == f {
                    assert(rank_of(r[0]) >= rank_of(t[j - 1]));
                } else {
                    let m = choose|m: int|
                        0 <= m < s.drop_first().len() && t[j - 1] == s.drop_first()[m];
                    assert(s.drop_first()[m] == s[m + 1]);
                    assert(rank_of(s[0]) >= rank_of(s[m + 1]));
                }
            } else {
                assert(r[i] == t[i - 1] && r[j] == t[j - 1]);
            }
        }
    }
}

/// Every element of `insert_desc(f, s)` is `f` or an element of `s`.
proof fn lemma_insert_desc_members(f: ScanResult, s: Seq<ScanResult>)
    ensures
        forall|i: int|
            0 <= i < insert_desc(f, s).len() ==> (#[trigger] insert_desc(f, s)[i] == f || exists|
                m: int,
            |
                0 <= m < s.len() && insert_desc(f, s)[i] == s[m]),
    decreases s.len(),
{
    if s.len() == 0 {
    } else if rank_of(f) >= rank_of(s[0]) {
        let r = seq![f] + s;
        assert forall|i: int| 0 <= i < r.len() implies (r[i] == f || exists|m: int|
            0 <= m < s.len() && r[i] == s[m]) by {
            if i > 0 {
                assert(r[i] == s[i - 1]);
            }
        }
    } else {
        lemma_insert_desc_members(f, s.drop_first());
        let t = insert_desc(f, s.drop_first());
        let r = seq![s[0]] + t;
        assert(insert_desc(f, s) == r);
        assert forall|i: int| 0 <= i < r.len() implies (r[i] == f || exists|m: int|
            0 <= m < s.len() && r[i] == s[m]) by {
            if i == 0 {
                assert(r[0] == s[0]);
            } else {
                assert(r[i] == t[i - 1]);
                if t[i - 1] == f {
                } else {
                    let m = choose|m: int|
                        0 <= m < s.drop_first().len() && t[i - 1] == s.drop_first()[m];
                    assert(s.drop_first()[m] == s[m + 1]);
                }
            }
        }
    }
}

/// The insertion sort sorts.
proof fn lemma_sort_desc_sorted(s: Seq<ScanResult>)
    ensures
        sorted_desc(sort_desc(s)),
    decreases s.len(),
{
    if s.len() == 0 {
    } else {
        lemma_sort_desc_sorted(s.drop_first());
        lemma_insert_desc_sorted(s[0], sort_desc(s.drop_first()));
    }
}

/// Deduplication keeps exactly the titles of its input.
proof fn lemma_dedup_same_titles(s: Seq<ScanResult>, t: Seq<char>)
    ensures
        has_title(dedup_titles(s), t) == has_title(s, t),
    decreases s.len(),
{
    if s.len() == 0 {
    } else {
        let d = s.drop_last();
        lemma_dedup_same_titles(d, t);
        if has_title(d, s.last().title@) {
            // dedup(s) == dedup(d); the dropped element's title is in d anyway
            if has_title(s, t) {
                let i = choose|i: int| 0 <= i < s.len() && s[i].title@ == t;
                if i < s.len() - 1 {
                    assert(d[i].title@ == t);
                    assert(has_title(d, t));
                } else {
                    assert(s.last().title@ == t);
                    assert(has_title(d, t));
                }
            }
            if has_title(d, t) {
                let i = choose|i: int| 0 <= i < d.len() && d[i].title@ == t;
                assert(s[i].title@ == t);
                assert(has_title(s, t));
            }
        } else {
            let r = dedup_titles(d).push(s.last());
            assert(dedup_titles(s) == r);
            if has_title(s, t) {
                let i = choose|i: int| 0 <= i < s.len() && s[i].title@ == t;
                if i < s.len() - 1 {
                    assert(d[i].title@ == t);
                    assert(has_title(d, t));
                    let m = choose|m: int|
                        0 <= m < dedup_titles(d).len() && dedup_titles(d)[m].title@ == t;
                    assert(r[m].title@ == t);
                } else {
                    assert(r[r.len() - 1].title@ == t);
                }
            }
            if has_title(r, t) {
                let i = choose|i: int| 0 <= i < r.len() && r[i].title@ == t;
                if i < r.len() - 1 {
                    assert(dedup_titles(d)[i].title@ == t);
                    let m = choose|m: int| 0 <= m < d.len() && d[m].title@ == t;
                    assert(s[m].title@ == t);
                } else {
                    assert(s[s.len() - 1].title@ == t);
                }
            }
        }
    }
}

/// Deduplication only drops findings: every element of the deduplicated
/// sequence is an element of the input.
pub proof fn lemma_dedup_members(s: Seq<ScanResult>)
    ensures
        forall|i: int|
            0 <= i < dedup_titles(s).len() ==> exists|m: int|
                0 <= m < s.len() && #[trigger] dedup_titles(s)[i] == s[m],
    decreases s.len(),
{
    if s.len() == 0 {
    } else {
        let d = s.drop_last();
        lemma_dedup_members(d);
        assert forall|i: int| 0 <= i < dedup_titles(s).len() implies exists|m: int|
            0 <= m < s.len() && #[trigger] dedup_titles(s)[i] == s[m] by {
            if has_title(d, s.last().title@) {
                assert(dedup_titles(s)[i] == dedup_titles(d)[i]);
                let m = choose|m: int| 0 <= m < d.len() && dedup_titles(d)[i] == d[m];
                assert(dedup_titles(s)[i] == s[m]);
            } else {
                let r = dedup_titles(d).push(s.last());
                assert(dedup_titles(s) == r);
                if i < r.len() - 1 {
                    let m = choose|m: int| 0 <= m < d.len() && dedup_titles(d)[i] == d[m];
                    assert(dedup_titles(s)[i] == s[m]);
                } else {
                    assert(dedup_titles(s)[i] == s[s.len() - 1]);
                }
            }
        }
    }
}

/// Deduplication of a sorted sequence stays sorted.
proof fn lemma_dedup_sorted(s: Seq<ScanResult>)
    requires
        sorted_desc(s),
    ensures
        sorted_desc(dedup_titles(s)),
    decreases s.len(),
{
    if s.len() == 0 {
    } else {
        let d = s.drop_last();
        assert(sorted_desc(d));
        lemma_dedup_sorted(d);
        if has_title(d, s.last().title@) {
        } else {
            let p = dedup_titles(d);
            let r = p.push(s.last());
            lemma_dedup_members(d);
            assert forall|i: int, j: int| 0 <= i < j < r.len() implies rank_of(r[i]) >= rank_of(
                r[j],
            ) by {
                if j < r.len() - 1 {
                    assert(r[i] == p[i] && r[j] == p[j]);
                } else {
                    assert(r[j] == s[s.len() - 1]);
                    assert(r[i] == p[i]);
                    let m = choose|m: int| 0 <= m < d.len() && p[i] == d[m];
                    assert(d[m] == s[m]);
                    assert(rank_of(s[m]) >= rank_of(s[s.len() - 1]));
                }
            }
        }
    }
}

/// Deduplication leaves no repeated title.
proof fn lemma_dedup_unique(s: Seq<ScanResult>)
    ensures
        titles_unique(dedup_titles(s)),
    decreases s.len(),
{
    if s.len() == 0 {
    } else {
        let d = s.drop_last();
        lemma_dedup_unique(d);
        if has_title(d, s.last().title@) {
        } else {
            let p = dedup_titles(d);
            let r = p.push(s.last());
            lemma_dedup_same_titles(d, s.last().title@);
            assert(!has_title(p, s.last().title@));
            assert forall|i: int, j: int| 0 <= i < j < r.len() implies r[i].title@ != r[j].title@
            by {
                if j < r.len() - 1 {
                    assert(r[i] == p[i] && r[j] == p[j]);
                } else {
                    assert(r[i] == p[i]);
                    assert(r[j] == s.last());
                    if p[i].title@ == s.last().title@ {
                        assert(has_title(p, s.last().title@));
                    }
                }
            }
        }
    }
}

/// Sorting an already-sorted sequence changes nothing.
proof fn lemma_sort_of_sorted(s: Seq<ScanResult>)
    requires
        sorted_desc(s),
    ensures
        sort_desc(s) == s,
    decreases s.len(),
{
    if s.len() == 0 {
        assert(sort_desc(s) =~= s);
    } else {
        let d = s.drop_first();
        assert(sorted_desc(d));
        lemma_sort_of_sorted(d);
        if d.len() == 0 {
            assert(insert_desc(s[0], d) =~= seq![s[0]]);
            assert(sort_desc(s) =~= s);
        } else {
            assert(rank_of(s[0]) >= rank_of(s[1]));
            assert(d[0] == s[1]);
            assert(insert_desc(s[0], d) =~= seq![s[0]] + d);
            assert(sort_desc(s) =~= s);
        }
    }
}

/// Deduplicating a sequence with no repeated title changes nothing.
proof fn lemma_dedup_of_unique(s: Seq<ScanResult>)
    requires
        titles_unique(s),
    ensures
        dedup_titles(s) == s,
    decreases s.len(),
{
    if s.len() == 0 {
        assert(dedup_titles(s) =~= s);
    } else {
        let d = s.drop_last();
        assert(titles_unique(d));
        lemma_dedup_of_unique(d);
        if has_title(d, s.last().title@) {
            let i = choose|i: int| 0 <= i < d.len() && d[i].title@ == s.last().title@;
            assert(s[i].title@ == s[s.len() - 1].title@);
            assert(false);
        } else {
            assert(dedup_titles(s) =~= d.push(s.last()));
            assert(d.push(s.last()) =~= s);
        }
    }
}

/// Inserting adds exactly the new finding to the sequence's contents.
proof fn lemma_insert_desc_multiset(f: ScanResult, s: Seq<ScanResult>)
    ensures
        insert_desc(f, s).to_multiset() =~= s.to_multiset().insert(f),
    decreases s.len(),
{
    broadcast use vstd::seq_lib::group_to_multiset_ensures;

    if s.len() == 0 {
        let u = insert_desc(f, s);
        assert(u =~= Seq::<ScanResult>::empty().push(f));
        assert(Seq::<ScanResult>::empty().push(f).to_multiset() =~= Seq::<
            ScanResult,
        >::empty().to_multiset().insert(f));
        assert(s.to_multiset() =~= Seq::<ScanResult>::empty().to_multiset());
    } else if rank_of(f) >= rank_of(s[0]) {
        let u = seq![f] + s;
        assert(u.remove(0) =~= s);
        assert(u[0] == f);
        assert(u.remove(0).to_multiset() =~= u.to_multiset().remove(f));
        assert(u.to_multiset().contains(f)) by {
            assert(u.contains(f));
        }
        assert forall|a: ScanResult| #[trigger] u.to_multiset().count(a) == s.to_multiset().insert(
            f,
        ).count(a) by {
            if a == f {
                assert(u.to_multiset().remove(f).count(a) == u.to_multiset().count(a) - 1);
            } else {
                assert(u.to_multiset().remove(f).count(a) == u.to_multiset().count(a));
            }
        }
    } else {
        lemma_insert_desc_multiset(f, s.drop_first());
        let t = insert_desc(f, s.drop_first());
        let u = seq![s[0]] + t;
        assert(insert_desc(f, s) == u);
        assert(u.remove(0) =~= t);
        assert(u[0] == s[0]);
        assert(u.remove(0).to_multiset() =~= u.to_multiset().remove(s[0]));
        assert(u.to_multiset().contains(s[0])) by {
            assert(u.contains(s[0]));
        }
        assert(s.remove(0) =~= s.drop_first());
        assert(s.remove(0).to_multiset() =~= s.to_multiset().remove(s[0]));
        assert forall|a: ScanResult| #[trigger] u.to_multiset().count(a) == s.to_multiset().insert(
            f,
        ).count(a) by {
            assert(t.to_multiset().count(a) == s.drop_first().to_multiset().insert(f).count(a));
            if a == s[0] {
                assert(u.to_multiset().count(a) == t.to_multiset().count(a) + 1);
                assert(s.to_multiset().count(a) == s.drop_first().to_multiset().count(a) + 1);
            } else {
                assert(u.to_multiset().count(a) == t.to_multiset().count(a));
                assert(s.to_multiset().count(a) == s.drop_first().to_multiset().count(a));
            }
        }
    }
}

/// The sort only reorders: its output holds exactly the input's findings.
pub proof fn lemma_sort_desc_permutes(s: Seq<ScanResult>)
    ensures
        sort_desc(s).to_multiset() =~= s.to_multiset(),
    decreases s.len(),
{
    broadcast use vstd::seq_lib::group_to_multiset_ensures;

    if s.len() == 0 {
    } else {
        lemma_sort_desc_permutes(s.drop_first());
        lemma_insert_desc_multiset(s[0], sort_desc(s.drop_first()));
        assert(s.remove(0) =~= s.drop_first());
        assert(s.remove(0).to_multiset() =~= s.to_multiset().remove(s[0]));
        assert(s.to_multiset().contains(s[0])) by {
            assert(s.contains(s[0]));
        }
        assert forall|a: ScanResult| #[trigger] sort_desc(s).to_multiset().count(a)
            == s.to_multiset().count(a) by {
            if a == s[0] {
                assert(s.drop_first().to_multiset().count(a) == s.to_multiset().count(a) - 1);
            } else {
                assert(s.drop_first().to_multiset().count(a) == s.to_multiset().count(a));
            }
        }
    }
}

/// The aggregator's output is sorted descending with no repeated title.
pub proof fn lemma_aggregate_wf(s: Seq<ScanResult>)
    ensures
        sorted_desc(spec_aggregate(s)),
        titles_unique(spec_aggregate(s)),
{
    lemma_sort_desc_sorted(s);
    lemma_dedup_sorted(sort_desc(s));
    lemma_dedup_unique(sort_desc(s));
}

/// Deduplication is idempotent across the whole aggregator: running it on
/// its own output yields that output again.
pub proof fn lemma_aggregate_idempotent(s: Seq<ScanResult>)
    ensures
        spec_aggregate(spec_aggregate(s)) == spec_aggregate(s),
{
    let t = spec_aggregate(s);
    lemma_aggregate_wf(s);
    lemma_sort_of_sorted(t);
    lemma_dedup_of_unique(t);
}

/// Position in a descending-sorted vector in front of which `f` belongs:
/// after every element of rank at least `f`'s, before the rest.
fn insert_pos(f: &ScanResult, sorted: &Vec<ScanResult>) -> (k: usize)
    ensures
        k <= sorted@.len(),
        forall|j: int| 0 <= j < k ==> rank_of(*f) < rank_of(sorted@[j]),
        k < sorted@.len() ==> rank_of(*f) >= rank_of(sorted@[k as int]),
{
    let fr = severity_rank(f.effective_severity());
    let n = sorted.len();
    let mut k: usize = 0;
    while k < n
        invariant
            n == sorted@.len(),
            k <= n,
            fr as int == rank_of(*f),
            forall|j: int| 0 <= j < k ==> rank_of(*f) < rank_of(sorted@[j]),
        decreases n - k,
    {
        let er = severity_rank(sorted[k].effective_severity());
        if fr >= er {
            return k;
        }
        k = k + 1;
    }
    k
}

/// Insert one finding into a vector sorted descending by severity rank.
fn insert_finding(f: ScanResult, sorted: Vec<ScanResult>) -> (r: Vec<ScanResult>)
    ensures
        r@ == insert_desc(f, sorted@),
{
    let k = insert_pos(&f, &sorted);
    proof {
        lemma_insert_desc_at(f, sorted@, k as int);
    }
    let ghost old_view = sorted@;
    let mut out = sorted;
    out.insert(k, f);
    proof {
        assert(out@ =~= old_view.subrange(0, k as int) + seq![f] + old_view.subrange(
            k as int,
            old_view.len() as int,
        ));
    }
    out
}

/// Stable insertion sort of findings, descending by severity rank.
pub fn sort_findings(v: Vec<ScanResult>) -> (r: Vec<ScanResult>)
    ensures
        r@ == sort_desc(v@),
{
    let ghost full = v@;
    let mut src = v;
    let mut out: Vec<ScanResult> = Vec::new();
    proof {
        assert(src@ =~= full.subrange(0, src@.len() as int));
        assert(full.subrange(full.len() as int, full.len() as int) =~= Seq::<ScanResult>::empty());
    }
    while src.len() > 0
        invariant
            src@.len() <= full.len(),
            src@ == full.subrange(0, src@.len() as int),
            out@ == sort_desc(full.subrange(src@.len() as int, full.len() as int)),
        decreases src@.len(),
    {
        let ghost k = src@.len() - 1;
        let f = match src.pop() {
            Some(f) => f,
            None => {
                proof {
                    assert(false);
                }
                return out;
            },
        };
        proof {
            assert(f == full[k]);
            assert(src@ =~= full.subrange(0, k));
            let u = full.subrange(k, full.len() as int);
            assert(u[0] == full[k]);
            assert(u.drop_first() =~= full.subrange(k + 1, full.len() as int));
            assert(sort_desc(u) == insert_desc(u[0], sort_desc(u.drop_first())));
        }
        out = insert_finding(f, out);
    }
    proof {
        assert(full.subrange(0, full.len() as int) =~= full);
    }
    out
}

/// Some finding in the vector carries this title.
fn contains_title(v: &Vec<ScanResult>, t: &str) -> (r: bool)
    ensures
        r == has_title(v@, t@),
{
    let n = v.len();
    let mut i: usize = 0;
    while i < n
        invariant
            n == v@.len(),
            i <= n,
            forall|k: int| 0 <= k < i ==> v@[k].title@ != t@,
        decreases n - i,
    {
        if crate::text::str_eq(v[i].title.as_str(), t) {
            return true;
        }
        i = i + 1;
    }
    false
}

/// Deduplicate findings by exact title equality, keeping the first
/// occurrence.
pub fn dedup_findings(v: Vec<ScanResult>) -> (r: Vec<ScanResult>)
    ensures
        r@ == dedup_titles(v@),
{
    let n = v.len();
    let mut out: Vec<ScanResult> = Vec::new();
    let mut i: usize = 0;
    proof {
        assert(v@.subrange(0, 0) =~= Seq::<ScanResult>::empty());
    }
    while i < n
        invariant
            n == v@.len(),
            i <= n,
            out@ == dedup_titles(v@.subrange(0, i as int)),
        decreases n - i,
    {
        let ghost prefix = v@.subrange(0, i as int);
        proof {
            lemma_dedup_same_titles(prefix, v@[i as int].title@);
            assert(v@.subrange(0, i + 1 as int).drop_last() =~= prefix);
            assert(v@.subrange(0, i + 1 as int).last() == v@[i as int]);
        }
        let present = contains_title(&out, v[i].title.as_str());
        if !present {
            out.push(v[i].snapshot());
        }
        i = i + 1;
    }
    proof {
        assert(v@.subrange(0, n as int) =~= v@);
    }
    out
}

/// Merge two finding lists, sort them descending by severity rank (stably),
/// and deduplicate by exact title, keeping the first occurrence under the
/// established order.
pub fn aggregate(primary: Vec<ScanResult>, secondary: Vec<ScanResult>) -> (r: Vec<ScanResult>)
    ensures
        r@ == spec_aggregate(primary@ + secondary@),
        sorted_desc(r@),
        titles_unique(r@),
{
    let ghost pv = primary@;
    let ghost sv = secondary@;
    let mut merged = primary;
    let mut rest = secondary;
    merged.append(&mut rest);
    proof {
        assert(merged@ == pv + sv);
        lemma_aggregate_wf(pv + sv);
    }
    let sorted = sort_findings(merged);
    dedup_findings(sorted)
}

} // verus!
