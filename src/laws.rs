//! Laws of link tracking, stated over the map of tracked links that
//! `MetricsManager::record_physical_link` and `stop_tracking_link` change.
use crate::tracker::TargetId;
use vstd::prelude::*;

verus! {

/// The links tracked after recording `ids[i]` under `names[i]`, in order,
/// starting from `m`.
pub open spec fn track_all(m: Map<Seq<char>, TargetId>, names: Seq<Seq<char>>, ids: Seq<TargetId>) -> Map<Seq<char>, TargetId>
    decreases names.len(),
{
    if names.len() == 0 {
        m
    } else {
        track_all(m, names.drop_last(), ids).insert(names.last(), ids[names.len() - 1])
    }
}

/// Tracking a second link leaves the handle of a first, differently named,
/// link as it was.
pub proof fn lemma_track_keeps_other_link(m: Map<Seq<char>, TargetId>, n1: Seq<char>, n2: Seq<char>, id1: TargetId, id2: TargetId)
    requires
        n1 != n2,
    ensures
        m.insert(n1, id1).insert(n2, id2).contains_key(n1),
        m.insert(n1, id1).insert(n2, id2)[n1] == id1,
{
}

/// Tracking a name twice keeps the second handle only: the map is the same
/// as after tracking it once with that handle, so no name is counted twice.
pub proof fn lemma_track_twice_overwrites(m: Map<Seq<char>, TargetId>, n: Seq<char>, id1: TargetId, id2: TargetId)
    ensures
        m.insert(n, id1).insert(n, id2) == m.insert(n, id2),
        m.insert(n, id1).insert(n, id2)[n] == id2,
        m.insert(n, id1).insert(n, id2).dom() == m.insert(n, id1).dom(),
{
    assert(m.insert(n, id1).insert(n, id2) =~= m.insert(n, id2));
}

/// Stopping a link never tracked changes nothing; stopping a tracked one
/// forgets it, and tracking it again holds the fresh handle.
pub proof fn lemma_stop_then_track_again(m: Map<Seq<char>, TargetId>, n: Seq<char>, id1: TargetId, id2: TargetId)
    ensures
        !m.contains_key(n) ==> m.remove(n) == m,
        !m.insert(n, id1).remove(n).contains_key(n),
        m.insert(n, id1).remove(n).insert(n, id2)[n] == id2,
{
    if !m.contains_key(n) {
        assert(m.remove(n) =~= m);
    }
}

/// Tracking distinct names one after another loses none: each name holds its
/// own handle, other names keep theirs, and each can be stopped without
/// touching the rest.
pub proof fn lemma_track_distinct_links(m: Map<Seq<char>, TargetId>, names: Seq<Seq<char>>, ids: Seq<TargetId>)
    requires
        names.no_duplicates(),
        names.len() == ids.len(),
    ensures
        forall|i: int| 0 <= i < names.len() ==> #[trigger] track_all(m, names, ids).contains_key(names[i])
            && track_all(m, names, ids)[names[i]] == ids[i],
        forall|k: Seq<char>| !names.contains(k) ==> (#[trigger] track_all(m, names, ids).contains_key(k) == m.contains_key(k))
            && (m.contains_key(k) ==> track_all(m, names, ids)[k] == m[k]),
        forall|i: int, j: int| 0 <= i < names.len() && 0 <= j < names.len() && i != j ==>
            !track_all(m, names, ids).remove(names[i]).contains_key(names[i])
            && #[trigger] track_all(m, names, ids).remove(names[i]).contains_key(names[j])
            && track_all(m, names, ids).remove(names[i])[names[j]] == ids[j],
    decreases names.len(),
{
    if names.len() > 0 {
        let pn = names.drop_last();
        let pi = ids.drop_last();
        assert(pn.no_duplicates()) by {
            assert forall|a: int, b: int| 0 <= a < b < pn.len() implies pn[a] != pn[b] by {
                assert(names[a] == pn[a] && names[b] == pn[b]);
            }
        }
        lemma_track_distinct_links(m, pn, pi);
        assert(track_all(m, names, ids) == track_all(m, pn, ids).insert(names.last(), ids[names.len() - 1]));
        lemma_track_all_ignores_later_ids(m, pn, ids);
        let r = track_all(m, names, ids);
        assert forall|i: int| 0 <= i < names.len() implies #[trigger] r.contains_key(names[i]) && r[names[i]] == ids[i] by {
            if i < names.len() - 1 {
                assert(pn[i] == names[i]);
                assert(pi[i] == ids[i]);
                assert(names[i] != names.last());
            }
        }
        assert forall|k: Seq<char>| !names.contains(k) implies (#[trigger] r.contains_key(k) == m.contains_key(k))
            && (m.contains_key(k) ==> r[k] == m[k]) by {
            assert(k != names[names.len() - 1]);
            if pn.contains(k) {
                let a = choose|a: int| 0 <= a < pn.len() && pn[a] == k;
                assert(names[a] == k);
            }
        }
    }
}

/// Only the first `names.len()` handles count.
proof fn lemma_track_all_ignores_later_ids(m: Map<Seq<char>, TargetId>, names: Seq<Seq<char>>, ids: Seq<TargetId>)
    requires
        names.len() < ids.len(),
    ensures
        track_all(m, names, ids) == track_all(m, names, ids.drop_last()),
    decreases names.len(),
{
    if names.len() > 0 {
        lemma_track_all_ignores_later_ids(m, names.drop_last(), ids);
    }
}

} // verus!
