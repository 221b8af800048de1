//! Duplicate-file reporting: hashed paths are grouped by content hash, in
//! first-appearance order, and the groups with more than one path are kept.
use vstd::prelude::*;

use crate::text::{str_eq, str_views};

verus! {

/// The paths sharing one content hash, in the order they were handed in.
#[derive(Debug)]
pub struct DupGroup {
    pub hash: String,
    pub paths: Vec<String>,
}

/// The plain view of a group: the hash and path character sequences.
pub open spec fn group_view(g: DupGroup) -> (Seq<char>, Seq<Seq<char>>) {
    (g.hash@, str_views(g.paths@))
}

/// The plain views of a group list.
pub open spec fn group_views(gs: Seq<DupGroup>) -> Seq<(Seq<char>, Seq<Seq<char>>)> {
    gs.map_values(|g: DupGroup| group_view(g))
}

/// The plain views of the hash and path entries.
pub open spec fn entry_views(es: Seq<(String, String)>) -> Seq<(Seq<char>, Seq<char>)> {
    es.map_values(|e: (String, String)| (e.0@, e.1@))
}

/// The position of the group holding the hash, or -1 when there is none.
pub open spec fn group_index(gs: Seq<(Seq<char>, Seq<Seq<char>>)>, hash: Seq<char>) -> int
    decreases gs.len(),
{
    if gs.len() == 0 {
        -1
    } else if gs[0].0 == hash {
        0
    } else {
        let r = group_index(gs.drop_first(), hash);
        if r < 0 {
            -1
        } else {
            r + 1
        }
    }
}

/// The grouping after one entry: the path joins its hash's group, or opens
/// a new one at the end.
pub open spec fn add_entry(
    gs: Seq<(Seq<char>, Seq<Seq<char>>)>,
    hash: Seq<char>,
    path: Seq<char>,
) -> Seq<(Seq<char>, Seq<Seq<char>>)> {
    let j = group_index(gs, hash);
    if j < 0 {
        gs.push((hash, seq![path]))
    } else {
        gs.update(j, (gs[j].0, gs[j].1.push(path)))
    }
}

/// The grouping of all entries, hashes in first-appearance order.
pub open spec fn groups_spec(entries: Seq<(Seq<char>, Seq<char>)>) -> Seq<
    (Seq<char>, Seq<Seq<char>>),
>
    decreases entries.len(),
{
    if entries.len() == 0 {
        Seq::empty()
    } else {
        add_entry(groups_spec(entries.drop_last()), entries.last().0, entries.last().1)
    }
}

/// The groups holding more than one path.
pub open spec fn dup_groups_spec(gs: Seq<(Seq<char>, Seq<Seq<char>>)>) -> Seq<
    (Seq<char>, Seq<Seq<char>>),
>
    decreases gs.len(),
{
    if gs.len() == 0 {
        Seq::empty()
    } else {
        let rest = dup_groups_spec(gs.drop_last());
        if gs.last().1.len() > 1 {
            rest.push(gs.last())
        } else {
            rest
        }
    }
}

proof fn lemma_group_index_at(gs: Seq<(Seq<char>, Seq<Seq<char>>)>, hash: Seq<char>, j: int)
    requires
        0 <= j <= gs.len(),
        forall|k: int| 0 <= k < j ==> (#[trigger] gs[k]).0 != hash,
        j < gs.len() ==> gs[j].0 == hash,
    ensures
        group_index(gs, hash) == if j < gs.len() {
            j
        } else {
            -1
        },
    decreases j,
{
    if j == 0 {
        if gs.len() > 0 && gs[0].0 != hash {
            lemma_group_index_none(gs, hash);
        }
    } else {
        lemma_group_index_at(gs.drop_first(), hash, j - 1);
    }
}

proof fn lemma_group_index_none(gs: Seq<(Seq<char>, Seq<Seq<char>>)>, hash: Seq<char>)
    requires
        forall|k: int| 0 <= k < gs.len() ==> (#[trigger] gs[k]).0 != hash,
    ensures
        group_index(gs, hash) == -1,
    decreases gs.len(),
{
    if gs.len() > 0 {
        lemma_group_index_none(gs.drop_first(), hash);
    }
}

/// Groups the hashed paths by content hash and keeps the groups with more
/// than one path: the duplicate report.
pub fn get_dup_files(entries: &Vec<(String, String)>) -> (r: Vec<DupGroup>)
    ensures
        group_views(r@) == dup_groups_spec(groups_spec(entry_views(entries@))),
{
    let ghost ev = entry_views(entries@);
    let mut groups: Vec<DupGroup> = Vec::new();
    assert(ev.take(0) =~= Seq::<(Seq<char>, Seq<char>)>::empty());
    assert(group_views(groups@) =~= groups_spec(ev.take(0)));
    let mut i: usize = 0;
    while i < entries.len()
        invariant
            i <= entries@.len(),
            ev == entry_views(entries@),
            ev.len() == entries@.len(),
            group_views(groups@) == groups_spec(ev.take(i as int)),
        decreases entries@.len() - i,
    {
        proof {
            assert(ev[i as int] == (entries@[i as int].0@, entries@[i as int].1@));
            assert(ev.take(i as int + 1).drop_last() =~= ev.take(i as int));
            assert(ev.take(i as int + 1).last() == ev[i as int]);
        }
        let hash = &entries[i].0;
        let path = &entries[i].1;
        let ghost gv = group_views(groups@);
        let mut j: usize = 0;
        let mut found = false;
        while j < groups.len() && !found
            invariant
                j <= groups@.len(),
                i < entries@.len(),
                gv == group_views(groups@),
                gv.len() == groups@.len(),
                hash == entries@[i as int].0,
                !found ==> forall|k: int| 0 <= k < j ==> (#[trigger] gv[k]).0 != hash@,
                found ==> j < groups@.len() && gv[j as int].0 == hash@ && forall|k: int|
                    0 <= k < j ==> (#[trigger] gv[k]).0 != hash@,
            decreases groups@.len() - j, (if found {
                0int
            } else {
                1int
            }),
        {
            proof {
                assert(gv[j as int] == group_view(groups@[j as int]));
            }
            if str_eq(groups[j].hash.as_str(), hash.as_str()) {
                found = true;
            } else {
                j = j + 1;
            }
        }
        proof {
            if found {
                lemma_group_index_at(gv, hash@, j as int);
            } else {
                lemma_group_index_none(gv, hash@);
            }
        }
        if found {
            let mut g = groups.remove(j);
            g.paths.push(path.clone());
            groups.insert(j, g);
            assert(group_views(groups@) =~~= add_entry(gv, hash@, path@));
        } else {
            let mut paths: Vec<String> = Vec::new();
            paths.push(path.clone());
            groups.push(DupGroup { hash: hash.clone(), paths });
            assert(group_views(groups@) =~~= add_entry(gv, hash@, path@));
        }
        i = i + 1;
    }
    assert(ev.take(ev.len() as int) =~= ev);

    let ghost all = group_views(groups@);
    let mut dups: Vec<DupGroup> = Vec::new();
    let mut k: usize = 0;
    assert(all.take(0) =~= Seq::<(Seq<char>, Seq<Seq<char>>)>::empty());
    assert(group_views(dups@) =~= dup_groups_spec(all.take(0)));
    while k < groups.len()
        invariant
            k <= groups@.len(),
            all == group_views(groups@),
            all.len() == groups@.len(),
            group_views(dups@) == dup_groups_spec(all.take(k as int)),
        decreases groups@.len() - k,
    {
        proof {
            assert(all[k as int] == group_view(groups@[k as int]));
            assert(all.take(k as int + 1).drop_last() =~= all.take(k as int));
            assert(all.take(k as int + 1).last() == all[k as int]);
        }
        let g = &groups[k];
        if g.paths.len() > 1 {
            let mut paths: Vec<String> = Vec::new();
            let mut m: usize = 0;
            while m < g.paths.len()
                invariant
                    m <= g.paths@.len(),
                    g == groups@[k as int],
                    paths@.len() == m,
                    forall|q: int| 0 <= q < m ==> (#[trigger] paths@[q])@ == g.paths@[q]@,
                decreases g.paths@.len() - m,
            {
                paths.push(g.paths[m].clone());
                m = m + 1;
            }
            proof {
                assert(str_views(paths@) =~= str_views(groups@[k as int].paths@));
            }
            dups.push(DupGroup { hash: g.hash.clone(), paths });
            assert(group_views(dups@) =~~= dup_groups_spec(all.take(k as int + 1)));
        } else {
            assert(group_views(dups@) =~~= dup_groups_spec(all.take(k as int + 1)));
        }
        k = k + 1;
    }
    assert(all.take(all.len() as int) =~= all);
    dups
}

/// The duplicate report over the hashed paths.
pub fn process(entries: &Vec<(String, String)>) -> (r: Vec<DupGroup>)
    ensures
        group_views(r@) == dup_groups_spec(groups_spec(entry_views(entries@))),
{
    get_dup_files(entries)
}

} // verus!
