//! The earliest-credible-timestamp resolver. Candidates from all sources are
//! sorted ascending by instant, deduplicated at instant granularity, and
//! walked from the earliest on: a candidate whose time of day is midnight is
//! treated as a placeholder and may be passed over in favour of same-day
//! evidence with a real time of day.
use vstd::prelude::*;

use crate::datetime::FileDateTime;

verus! {

/// Insertion of a candidate into a sequence sorted by timestamp, after every
/// candidate with an equal or earlier instant, so that insertion is stable.
pub open spec fn insert_sorted(x: FileDateTime, s: Seq<FileDateTime>) -> Seq<FileDateTime>
    decreases s.len(),
{
    if s.len() == 0 {
        seq![x]
    } else if s[0].timestamp <= x.timestamp {
        seq![s[0]] + insert_sorted(x, s.drop_first())
    } else {
        seq![x] + s
    }
}

/// Stable sort of the candidates by timestamp: candidates with one instant
/// keep their order of arrival.
pub open spec fn sort_by_timestamp(s: Seq<FileDateTime>) -> Seq<FileDateTime>
    decreases s.len(),
{
    if s.len() == 0 {
        Seq::empty()
    } else {
        insert_sorted(s.last(), sort_by_timestamp(s.drop_last()))
    }
}

/// Ascending timestamp order.
pub open spec fn sorted_by_ts(s: Seq<FileDateTime>) -> bool {
    forall|i: int, j: int| 0 <= i < j < s.len() ==> s[i].timestamp <= s[j].timestamp
}

proof fn lemma_concat_contains(a: Seq<FileDateTime>, b: Seq<FileDateTime>, y: FileDateTime)
    ensures
        (a + b).contains(y) <==> a.contains(y) || b.contains(y),
{
    if a.contains(y) {
        let i = choose|i: int| 0 <= i < a.len() && a[i] == y;
        assert((a + b)[i] == y);
    }
    if b.contains(y) {
        let i = choose|i: int| 0 <= i < b.len() && b[i] == y;
        assert((a + b)[a.len() + i] == y);
    }
    if (a + b).contains(y) {
        let i = choose|i: int| 0 <= i < (a + b).len() && (a + b)[i] == y;
        if i < a.len() {
            assert(a[i] == y);
        } else {
            assert(b[i - a.len()] == y);
        }
    }
}

proof fn lemma_insert_sorted_props(x: FileDateTime, s: Seq<FileDateTime>)
    ensures
        insert_sorted(x, s).len() == s.len() + 1,
        forall|y: FileDateTime|
            #[trigger] insert_sorted(x, s).contains(y) <==> (y == x || s.contains(y)),
    decreases s.len(),
{
    if s.len() == 0 {
        assert forall|y: FileDateTime|
            #[trigger] insert_sorted(x, s).contains(y) <==> (y == x || s.contains(y)) by {
            if y == x {
                assert(insert_sorted(x, s)[0] == y);
            }
            if insert_sorted(x, s).contains(y) {
                let i = choose|i: int|
                    0 <= i < insert_sorted(x, s).len() && insert_sorted(x, s)[i] == y;
                assert(i == 0);
            }
        }
    } else if s[0].timestamp <= x.timestamp {
        lemma_insert_sorted_props(x, s.drop_first());
        assert forall|y: FileDateTime|
            #[trigger] insert_sorted(x, s).contains(y) <==> (y == x || s.contains(y)) by {
            lemma_concat_contains(seq![s[0]], insert_sorted(x, s.drop_first()), y);
            lemma_concat_contains(seq![s[0]], s.drop_first(), y);
            assert(seq![s[0]] + s.drop_first() =~= s);
            if seq![s[0]].contains(y) {
                assert(y == s[0]);
            }
            if y == s[0] {
                assert(seq![s[0]][0] == y);
            }
        }
    } else {
        assert forall|y: FileDateTime|
            #[trigger] insert_sorted(x, s).contains(y) <==> (y == x || s.contains(y)) by {
            lemma_concat_contains(seq![x], s, y);
            if seq![x].contains(y) {
                assert(y == x);
            }
            if y == x {
                assert(seq![x][0] == y);
            }
        }
    }
}

proof fn lemma_sort_props(s: Seq<FileDateTime>)
    ensures
        sort_by_timestamp(s).len() == s.len(),
        forall|y: FileDateTime| #[trigger] sort_by_timestamp(s).contains(y) <==> s.contains(y),
    decreases s.len(),
{
    if s.len() > 0 {
        lemma_sort_props(s.drop_last());
        lemma_insert_sorted_props(s.last(), sort_by_timestamp(s.drop_last()));
        assert forall|y: FileDateTime|
            #[trigger] sort_by_timestamp(s).contains(y) <==> s.contains(y) by {
            lemma_concat_contains(s.drop_last(), seq![s.last()], y);
            assert(s.drop_last() + seq![s.last()] =~= s);
            if seq![s.last()].contains(y) {
                assert(y == s.last());
            }
            if y == s.last() {
                assert(seq![s.last()][0] == y);
            }
        }
    }
}

proof fn lemma_insert_at(x: FileDateTime, s: Seq<FileDateTime>, j: int)
    requires
        0 <= j <= s.len(),
        forall|k: int| 0 <= k < j ==> s[k].timestamp <= x.timestamp,
        j < s.len() ==> s[j].timestamp > x.timestamp,
    ensures
        insert_sorted(x, s) == s.take(j) + seq![x] + s.skip(j),
    decreases j,
{
    if j == 0 {
        if s.len() == 0 {
            assert(insert_sorted(x, s) =~= s.take(0) + seq![x] + s.skip(0));
        } else {
            assert(insert_sorted(x, s) =~= s.take(0) + seq![x] + s.skip(0));
        }
    } else {
        lemma_insert_at(x, s.drop_first(), j - 1);
        assert(s.take(j) + seq![x] + s.skip(j) =~= seq![s[0]] + (s.drop_first().take(j - 1)
            + seq![x] + s.drop_first().skip(j - 1)));
    }
}

/// Inserts a candidate into a vector sorted by timestamp, after its equals.
fn insert_candidate(v: &mut Vec<FileDateTime>, x: FileDateTime)
    ensures
        final(v)@ == insert_sorted(x, old(v)@),
{
    let mut j: usize = 0;
    while j < v.len() && v[j].get_timestamp() <= x.timestamp
        invariant
            j <= v@.len(),
            v@ == old(v)@,
            forall|k: int| 0 <= k < j ==> v@[k].timestamp <= x.timestamp,
        decreases v@.len() - j,
    {
        j = j + 1;
    }
    proof {
        lemma_insert_at(x, v@, j as int);
    }
    v.insert(j, x);
    assert(v@ =~= old(v)@.take(j as int) + seq![x] + old(v)@.skip(j as int));
}

/// Sorts the candidates ascending by timestamp; the sort is stable.
pub fn sort_candidates(v: &Vec<FileDateTime>) -> (r: Vec<FileDateTime>)
    ensures
        r@ == sort_by_timestamp(v@),
{
    let mut out: Vec<FileDateTime> = Vec::new();
    let mut i: usize = 0;
    while i < v.len()
        invariant
            i <= v@.len(),
            out@ == sort_by_timestamp(v@.take(i as int)),
        decreases v@.len() - i,
    {
        insert_candidate(&mut out, v[i]);
        proof {
            assert(v@.take(i as int + 1).drop_last() =~= v@.take(i as int));
            assert(v@.take(i as int + 1).last() == v@[i as int]);
        }
        i = i + 1;
    }
    assert(v@.take(v@.len() as int) =~= v@);
    out
}

/// The sorted candidates with exact duplicates at instant granularity
/// removed: of a run with one timestamp, the first stays.
pub open spec fn dedup_by_timestamp(s: Seq<FileDateTime>) -> Seq<FileDateTime>
    decreases s.len(),
{
    if s.len() == 0 {
        Seq::empty()
    } else {
        let rest = dedup_by_timestamp(s.drop_last());
        if s.len() >= 2 && s[s.len() - 2].timestamp == s.last().timestamp {
            rest
        } else {
            rest.push(s.last())
        }
    }
}

/// Removes candidates whose instant equals the preceding candidate's.
pub fn dedup_candidates(v: &Vec<FileDateTime>) -> (r: Vec<FileDateTime>)
    ensures
        r@ == dedup_by_timestamp(v@),
{
    let mut out: Vec<FileDateTime> = Vec::new();
    let mut i: usize = 0;
    while i < v.len()
        invariant
            i <= v@.len(),
            out@ == dedup_by_timestamp(v@.take(i as int)),
        decreases v@.len() - i,
    {
        if i == 0 || v[i - 1].get_timestamp() != v[i].get_timestamp() {
            out.push(v[i]);
        }
        proof {
            assert(v@.take(i as int + 1).drop_last() =~= v@.take(i as int));
            assert(v@.take(i as int + 1).last() == v@[i as int]);
        }
        i = i + 1;
    }
    assert(v@.take(v@.len() as int) =~= v@);
    out
}

proof fn lemma_dedup_props(s: Seq<FileDateTime>)
    ensures
        s.len() > 0 ==> dedup_by_timestamp(s).len() > 0,
        forall|y: FileDateTime| #[trigger] dedup_by_timestamp(s).contains(y) ==> s.contains(y),
    decreases s.len(),
{
    if s.len() > 0 {
        lemma_dedup_props(s.drop_last());
        assert forall|y: FileDateTime|
            #[trigger] dedup_by_timestamp(s).contains(y) implies s.contains(y) by {
            let d = dedup_by_timestamp(s);
            let i = choose|i: int| 0 <= i < d.len() && d[i] == y;
            let rest = dedup_by_timestamp(s.drop_last());
            if s.len() >= 2 && s[s.len() - 2].timestamp == s.last().timestamp {
                assert(rest.contains(y));
                let k = choose|k: int| 0 <= k < s.drop_last().len() && s.drop_last()[k] == y;
                assert(s[k] == y);
            } else {
                if i < rest.len() {
                    assert(rest.contains(y));
                    let k = choose|k: int| 0 <= k < s.drop_last().len() && s.drop_last()[k] == y;
                    assert(s[k] == y);
                } else {
                    assert(y == s.last());
                    assert(s[s.len() - 1] == y);
                }
            }
        }
    }
}

/// The walk over the sorted, deduplicated candidates: the first one wins
/// unless its time of day is the placeholder midnight and the next candidate
/// is same-day evidence; a same-day candidate with a real time of day is
/// preferred even though its instant is later; the last candidate always
/// wins.
pub open spec fn select_candidate_spec(s: Seq<FileDateTime>) -> Option<FileDateTime>
    decreases s.len(),
{
    if s.len() == 0 {
        None
    } else if s.len() == 1 {
        Some(s[0])
    } else if !s[0].spec_is_midnight() {
        Some(s[0])
    } else if !s[0].spec_same_day(s[1]) {
        Some(s[0])
    } else if !s[1].spec_is_midnight() {
        Some(s[1])
    } else {
        select_candidate_spec(s.drop_first())
    }
}

proof fn lemma_select_props(s: Seq<FileDateTime>)
    ensures
        select_candidate_spec(s) is Some <==> s.len() > 0,
        select_candidate_spec(s) matches Some(f) ==> s.contains(f),
    decreases s.len(),
{
    if s.len() > 1 {
        lemma_select_props(s.drop_first());
        let r = select_candidate_spec(s);
        if r is Some {
            let f = r->0;
            if s[0].spec_is_midnight() && s[0].spec_same_day(s[1]) && s[1].spec_is_midnight() {
                assert(s.drop_first().contains(f));
                let k = choose|k: int| 0 <= k < s.drop_first().len() && s.drop_first()[k] == f;
                assert(s[k + 1] == f);
            } else {
                assert(s[0] == f || s[1] == f);
            }
        }
    }
}

/// Walks the sorted, deduplicated candidates and returns the winner.
pub fn select_candidate(v: &Vec<FileDateTime>) -> (r: Option<FileDateTime>)
    ensures
        r == select_candidate_spec(v@),
{
    let n = v.len();
    if n == 0 {
        return None;
    }
    assert(v@.skip(0) =~= v@);
    let mut i: usize = 0;
    while i < n - 1
        invariant
            n == v@.len(),
            1 <= n,
            i <= n - 1,
            select_candidate_spec(v@) == select_candidate_spec(v@.skip(i as int)),
        decreases n - 1 - i,
    {
        let cur = v[i];
        let next = v[i + 1];
        proof {
            assert(v@.skip(i as int).len() == n - i);
            assert(v@.skip(i as int)[0] == v@[i as int]);
            assert(v@.skip(i as int)[1] == v@[i as int + 1]);
        }
        if !cur.is_midnight() {
            return Some(cur);
        }
        if !cur.same_day(&next) {
            return Some(cur);
        }
        if !next.is_midnight() {
            return Some(next);
        }
        proof {
            assert(v@.skip(i as int).drop_first() =~= v@.skip(i as int + 1));
        }
        i = i + 1;
    }
    proof {
        assert(v@.skip(i as int).len() == 1);
        assert(v@.skip(i as int)[0] == v@[i as int]);
    }
    Some(v[i])
}

/// The resolved earliest credible timestamp of a candidate list: sort
/// ascending by instant, drop exact duplicates at instant granularity, then
/// walk under the placeholder-midnight rule.
pub open spec fn resolution(cands: Seq<FileDateTime>) -> Option<FileDateTime> {
    select_candidate_spec(dedup_by_timestamp(sort_by_timestamp(cands)))
}

/// The tie-break law for two candidates in ascending instant order: a
/// placeholder-midnight candidate loses to same-day evidence with a real
/// time of day, even though that instant is later; across different days,
/// or when the earlier candidate has a real time of day, the earliest wins.
pub proof fn lemma_tie_break(a: FileDateTime, b: FileDateTime)
    requires
        a.timestamp < b.timestamp,
    ensures
        a.spec_is_midnight() && a.spec_same_day(b) && !b.spec_is_midnight() ==> resolution(
            seq![a, b],
        ) == Some(b),
        !a.spec_same_day(b) ==> resolution(seq![a, b]) == Some(a),
        !a.spec_is_midnight() ==> resolution(seq![a, b]) == Some(a),
{
    let s = seq![a, b];
    let empty = Seq::<FileDateTime>::empty();
    assert(s.drop_last() =~= seq![a]);
    assert(seq![a].drop_last() =~= empty);
    assert(sort_by_timestamp(empty) == empty);
    assert(sort_by_timestamp(seq![a]) == insert_sorted(a, empty));
    assert(insert_sorted(a, empty) =~= seq![a]);
    assert(seq![a].drop_first() =~= empty);
    assert(insert_sorted(b, seq![a]) =~= seq![a] + insert_sorted(b, empty));
    assert(sort_by_timestamp(s) == insert_sorted(b, sort_by_timestamp(seq![a])));
    assert(sort_by_timestamp(s) =~= seq![a, b]);
    let t = sort_by_timestamp(s);
    assert(t =~= seq![a, b]);
    assert(t.drop_last() =~= seq![a]);
    assert(dedup_by_timestamp(empty) == empty);
    assert(dedup_by_timestamp(seq![a]) =~= seq![a]);
    assert(dedup_by_timestamp(t) =~= seq![a, b]);
}

/// Resolves the earliest credible timestamp of the collected candidates.
/// Some candidate is returned exactly when there is one, and the winner is
/// one of the candidates given.
pub fn resolve_earliest(cands: &Vec<FileDateTime>) -> (r: Option<FileDateTime>)
    ensures
        r == resolution(cands@),
        r is Some <==> cands@.len() > 0,
        r matches Some(f) ==> cands@.contains(f),
{
    let sorted = sort_candidates(cands);
    let unique = dedup_candidates(&sorted);
    let r = select_candidate(&unique);
    proof {
        lemma_sort_props(cands@);
        lemma_dedup_props(sorted@);
        lemma_select_props(unique@);
    }
    r
}

} // verus!
