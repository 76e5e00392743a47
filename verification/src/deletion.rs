//! The deletion reconciler.
//!
//! Deleting figures first scrubs the requested ids out of every user's
//! selection — pruning entries that empty — and then removes the figures
//! themselves. An id is accepted exactly when a live figure carried it.

use std::collections::BTreeSet;
use vstd::prelude::*;
use vstd::std_specs::btree::spec_btree_keys_iter;
use vstd::std_specs::iter::IteratorSpec;

use crate::id_set::partition_by_existence;
use crate::room::RoomInner;
use crate::selection::accepted_of;
use crate::selection::rejected_of;

verus! {

broadcast use vstd::prelude::Seq::lemma_push_to_set_commute;

/// How deleting `ids` changes the selection table: every user keeps the
/// ids that survive, and users with no survivor lose their entry.
pub open spec fn spec_cascade(sel: Map<Seq<char>, Set<usize>>, ids: Set<usize>) -> Map<
    Seq<char>,
    Set<usize>,
> {
    Map::new(
        |u: Seq<char>| sel.contains_key(u) && !sel[u].difference(ids).is_empty(),
        |u: Seq<char>| sel[u].difference(ids),
    )
}

/// Deletes the requested figures that exist and scrubs them out of every
/// user's selection, whoever had them selected, before reporting the
/// `(accepted, rejected)` partition.
#[verifier::loop_isolation(false)]
pub fn delete(state: &mut RoomInner, ids: BTreeSet<usize>) -> (r: (
    BTreeSet<usize>,
    BTreeSet<usize>,
))
    requires
        old(state).wf(),
    ensures
        final(state).wf(),
        r.0@ == accepted_of(old(state).figures@.dom(), ids@),
        r.1@ == rejected_of(old(state).figures@.dom(), ids@),
        r.0@.union(r.1@) == ids@,
        r.0@.disjoint(r.1@),
        forall|id: usize| #[trigger]
            r.0@.contains(id) <==> ids@.contains(id) && old(state).figures@.dom().contains(id),
        final(state).figures@ == old(state).figures@.remove_keys(ids@),
        final(state).users == old(state).users,
        final(state).select_drag_positions == old(state).select_drag_positions,
        final(state).selected_figures@ == spec_cascade(old(state).selected_figures@, ids@),
        forall|u: Seq<char>, id: usize|
            #![trigger final(state).selected_figures@[u].contains(id)]
            final(state).selected_figures@.contains_key(u) && ids@.contains(id)
                ==> !final(state).selected_figures@[u].contains(id),
{
    state.selected_figures.remove_from_all_entries(&ids);
    proof {
        assert(state.selected_figures@ =~= spec_cascade(old(state).selected_figures@, ids@));
    }
    let (accepted, rejected) = partition_by_existence(&state.figures, &ids);
    proof {
        assert(accepted@.union(rejected@) =~= ids@);
        assert(accepted@.intersect(rejected@) =~= Set::<usize>::empty());
    }
    let ghost figs0 = state.figures@;
    let ghost sel1 = state.selected_figures;
    proof {
        let s = spec_btree_keys_iter(&ids).remaining().unref();
        assert(s.take(0).to_set() =~= Set::<usize>::empty());
        assert(figs0.remove_keys(s.take(0).to_set()) =~= figs0);
    }
    for id in it: ids.iter()
        invariant
            state.users == old(state).users,
            state.select_drag_positions == old(state).select_drag_positions,
            state.selected_figures == sel1,
            state.figures@ == figs0.remove_keys(it.seq().unref().take(it.index() as int).to_set()),
    {
        proof {
            let s = it.seq().unref();
            let k = it.index();
            assert(s.take(k + 1) =~= s.take(k).push(s[k]));
            assert(s.take(k + 1).to_set() =~= s.take(k).to_set().insert(*id));
        }
        let _ = state.figures.remove(id);
        proof {
            assert(state.figures@ =~= figs0.remove_keys(
                it.seq().unref().take(it.index() + 1).to_set(),
            ));
        }
    }
    proof {
        let s = spec_btree_keys_iter(&ids).remaining().unref();
        assert(s.take(s.len() as int) =~= s);
        assert(state.figures@ =~= figs0.remove_keys(ids@));
        assert forall|u: Seq<char>| #[trigger]
            state.selected_figures@.contains_key(u) implies !state.selected_figures@[u].is_empty()
            && state.selected_figures@[u].subset_of(state.figures@.dom()) by {
            assert(old(state).selected_figures@.contains_key(u));
            assert(old(state).selected_figures@[u].subset_of(old(state).figures@.dom()));
        }
        assert(state.wf());
    }
    (accepted, rejected)
}

} // verus!
