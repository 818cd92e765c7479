//! The player resolver: matches the ranked identities against a bus
//! snapshot, in ranking order, and yields the snapshot positions of every
//! match. A ranked identity may match zero, one, or several running players;
//! a running player may be matched by more than one ranked identity.

use vstd::prelude::*;
use vstd::multiset::Multiset;
use crate::player::Player;
use crate::snapshot::{RunningPlayer, RunningPlayerView};

verus! {

/// The snapshot positions whose identity equals `c`, in ascending order.
pub open spec fn match_indices(c: Seq<char>, snap: Seq<RunningPlayerView>) -> Seq<int>
    decreases snap.len(),
{
    if snap.len() == 0 {
        Seq::empty()
    } else {
        let prefix = match_indices(c, snap.drop_last());
        if snap.last().identity == c {
            prefix.push(snap.len() - 1)
        } else {
            prefix
        }
    }
}

/// The resolved sequence: for each ranking entry in order, the positions of
/// every running player whose identity equals that entry's canonical string.
pub open spec fn resolve_spec(ranking: Seq<Player>, snap: Seq<RunningPlayerView>) -> Seq<int>
    decreases ranking.len(),
{
    if ranking.len() == 0 {
        Seq::empty()
    } else {
        resolve_spec(ranking.drop_last(), snap) + match_indices(ranking.last().canon(), snap)
    }
}

/// Every matched position indexes the snapshot, and a position is matched
/// exactly when its identity equals the string looked for.
pub proof fn lemma_match_indices(c: Seq<char>, snap: Seq<RunningPlayerView>)
    ensures
        forall|k: int|
            0 <= k < match_indices(c, snap).len() ==> {
                let i = #[trigger] match_indices(c, snap)[k];
                0 <= i < snap.len() && snap[i].identity == c
            },
        forall|k: int, l: int|
            0 <= k < l < match_indices(c, snap).len() ==> #[trigger] match_indices(c, snap)[k]
                < #[trigger] match_indices(c, snap)[l],
    decreases snap.len(),
{
    if snap.len() > 0 {
        lemma_match_indices(c, snap.drop_last());
        assert(forall|k: int|
            0 <= k < match_indices(c, snap.drop_last()).len() ==> match_indices(
                c,
                snap.drop_last(),
            )[k] < snap.len() - 1);
        assert(forall|i: int|
            0 <= i < snap.drop_last().len() ==> snap.drop_last()[i] == snap[i]);
    }
}

/// Every resolved position indexes the snapshot and carries the identity of
/// some ranking entry.
pub proof fn lemma_resolve_bounds(ranking: Seq<Player>, snap: Seq<RunningPlayerView>)
    ensures
        forall|k: int|
            0 <= k < resolve_spec(ranking, snap).len() ==> {
                let i = #[trigger] resolve_spec(ranking, snap)[k];
                0 <= i < snap.len()
            },
    decreases ranking.len(),
{
    if ranking.len() > 0 {
        lemma_resolve_bounds(ranking.drop_last(), snap);
        lemma_match_indices(ranking.last().canon(), snap);
        let pre = resolve_spec(ranking.drop_last(), snap);
        let suf = match_indices(ranking.last().canon(), snap);
        assert forall|k: int| 0 <= k < (pre + suf).len() implies 0 <= #[trigger] (pre + suf)[k]
            < snap.len() by {
            if k < pre.len() {
                assert((pre + suf)[k] == pre[k]);
            } else {
                assert((pre + suf)[k] == suf[k - pre.len()]);
            }
        }
    }
}

/// How often a snapshot position occurs in `match_indices`: once when its
/// identity is the one looked for, never otherwise.
pub proof fn lemma_match_indices_count(c: Seq<char>, snap: Seq<RunningPlayerView>, i: int)
    requires
        0 <= i < snap.len(),
    ensures
        match_indices(c, snap).to_multiset().count(i) == if snap[i].identity == c {
            1nat
        } else {
            0nat
        },
    decreases snap.len(),
{
    broadcast use vstd::seq_lib::group_to_multiset_ensures;

    let m = match_indices(c, snap);
    let prefix = match_indices(c, snap.drop_last());
    if i < snap.len() - 1 {
        lemma_match_indices_count(c, snap.drop_last(), i);
        assert(snap.drop_last()[i] == snap[i]);
    } else {
        lemma_match_indices(c, snap.drop_last());
        assert(prefix.to_multiset().count(i) == 0nat) by {
            if prefix.to_multiset().count(i) > 0 {
                assert(prefix.contains(i));
            }
        }
    }
}

/// How often a snapshot position is resolved: once for each ranking entry
/// whose canonical string is that player's identity. This is the broadcast
/// guarantee: with the standard ranking every running ranked player is
/// matched exactly once, and unranked players never.
pub proof fn lemma_resolve_count(ranking: Seq<Player>, snap: Seq<RunningPlayerView>, i: int)
    requires
        0 <= i < snap.len(),
    ensures
        resolve_spec(ranking, snap).to_multiset().count(i) == ranking.filter(
            |r: Player| r.canon() == snap[i].identity,
        ).len(),
    decreases ranking.len(),
{
    broadcast use vstd::seq_lib::group_to_multiset_ensures;

    reveal(Seq::filter);
    let pred = |r: Player| r.canon() == snap[i].identity;
    if ranking.len() == 0 {
        assert(resolve_spec(ranking, snap).to_multiset() =~= Multiset::empty());
    } else {
        lemma_resolve_count(ranking.drop_last(), snap, i);
        lemma_match_indices_count(ranking.last().canon(), snap, i);
        vstd::seq_lib::lemma_multiset_commutative(
            resolve_spec(ranking.drop_last(), snap),
            match_indices(ranking.last().canon(), snap),
        );
        assert(ranking.filter(pred) == if pred(ranking.last()) {
            ranking.drop_last().filter(pred).push(ranking.last())
        } else {
            ranking.drop_last().filter(pred)
        });
    }
}

/// The positions a vector of indices stands for, as mathematical integers.
pub open spec fn positions_of(r: Seq<usize>) -> Seq<int> {
    r.map_values(|u: usize| u as int)
}

/// Compute the resolved sequence for a ranking over a snapshot.
pub fn resolve(ranking: &Vec<Player>, snap: &Vec<RunningPlayer>) -> (r: Vec<usize>)
    ensures
        positions_of(r@) == resolve_spec(ranking@, snap.deep_view()),
        forall|k: int| 0 <= k < r@.len() ==> r@[k] < snap@.len(),
{
    let ghost snapv = snap.deep_view();
    let mut r: Vec<usize> = Vec::new();
    let mut ri: usize = 0;
    while ri < ranking.len()
        invariant
            ri <= ranking@.len(),
            snapv == snap.deep_view(),
            snapv.len() == snap@.len(),
            positions_of(r@) == resolve_spec(ranking@.take(ri as int), snapv),
            forall|k: int| 0 <= k < r@.len() ==> r@[k] < snap@.len(),
        decreases ranking@.len() - ri,
    {
        let id = ranking[ri].to_str();
        let ghost c = ranking@[ri as int].canon();
        let mut si: usize = 0;
        while si < snap.len()
            invariant
                si <= snap@.len(),
                snapv == snap.deep_view(),
                snapv.len() == snap@.len(),
                id@ == c,
                positions_of(r@) == resolve_spec(ranking@.take(ri as int), snapv)
                    + match_indices(c, snapv.take(si as int)),
                forall|k: int| 0 <= k < r@.len() ==> r@[k] < snap@.len(),
            decreases snap@.len() - si,
        {
            let ghost pre = r@;
            if crate::player::str_eq(snap[si].identity.as_str(), id) {
                r.push(si);
                assert(positions_of(r@) =~= positions_of(pre).push(si as int));
            }
            proof {
                assert(snapv.take(si + 1).drop_last() =~= snapv.take(si as int));
                assert(snapv.take(si + 1).last() == snapv[si as int]);
                assert(snapv[si as int].identity == snap@[si as int].identity@);
            }
            si = si + 1;
        }
        proof {
            assert(snapv.take(snap@.len() as int) =~= snapv);
            assert(ranking@.take(ri + 1).drop_last() =~= ranking@.take(ri as int));
            assert(ranking@.take(ri + 1).last() == ranking@[ri as int]);
        }
        ri = ri + 1;
    }
    proof {
        assert(ranking@.take(ranking@.len() as int) =~= ranking@);
    }
    r
}

} // verus!
