//! The selection reconciler.
//!
//! A select or unselect request names a set of figure ids. The reconciler
//! partitions the request by existence — ids with a live figure are
//! accepted, the rest rejected — and applies the accepted part to the
//! requesting user's selection set. An emptied selection loses its map
//! entry; no user is ever bound to an empty set.

use std::collections::BTreeSet;
use vstd::prelude::*;

use crate::id_set::partition_by_existence;
use crate::id_set::set_difference;
use crate::id_set::set_union;
use crate::room::RoomInner;

verus! {

/// The requested ids that exist among `figure_ids`.
pub open spec fn accepted_of(figure_ids: Set<usize>, requested: Set<usize>) -> Set<usize> {
    requested.intersect(figure_ids)
}

/// The requested ids with no live figure.
pub open spec fn rejected_of(figure_ids: Set<usize>, requested: Set<usize>) -> Set<usize> {
    requested.difference(figure_ids)
}

/// How a select request changes the selection table: the accepted ids merge
/// into the user's set; a user with nothing accepted and no entry gains no
/// entry.
pub open spec fn spec_select(
    sel: Map<Seq<char>, Set<usize>>,
    user: Seq<char>,
    accepted: Set<usize>,
) -> Map<Seq<char>, Set<usize>> {
    if sel.contains_key(user) {
        sel.insert(user, sel[user].union(accepted))
    } else if accepted.is_empty() {
        sel
    } else {
        sel.insert(user, accepted)
    }
}

/// How an unselect request changes the selection table: the accepted ids
/// leave the user's set, and the entry is dropped when nothing remains. A
/// user without an entry has nothing to unselect, and the table is kept.
pub open spec fn spec_unselect(
    sel: Map<Seq<char>, Set<usize>>,
    user: Seq<char>,
    accepted: Set<usize>,
) -> Map<Seq<char>, Set<usize>> {
    if sel.contains_key(user) {
        if sel[user].difference(accepted).is_empty() {
            sel.remove(user)
        } else {
            sel.insert(user, sel[user].difference(accepted))
        }
    } else {
        sel
    }
}

/// Partitions `ids` by figure existence, merges the accepted ids into the
/// user's selection, and returns `(accepted, rejected)`. Re-selecting an
/// already selected id changes nothing but is still reported as accepted.
pub fn select(state: &mut RoomInner, user_id: &String, ids: BTreeSet<usize>) -> (r: (
    BTreeSet<usize>,
    BTreeSet<usize>,
))
    requires
        old(state).wf(),
    ensures
        final(state).wf(),
        r.0@ == accepted_of(old(state).figures@.dom(), ids@),
        r.1@ == rejected_of(old(state).figures@.dom(), ids@),
        r.0@.union(r.1@) == ids@,
        r.0@.disjoint(r.1@),
        forall|id: usize| #[trigger]
            r.0@.contains(id) <==> ids@.contains(id) && old(state).figures@.dom().contains(id),
        final(state).figures@ == old(state).figures@,
        final(state).users == old(state).users,
        final(state).select_drag_positions == old(state).select_drag_positions,
        final(state).selected_figures@ == spec_select(
            old(state).selected_figures@,
            user_id@,
            accepted_of(old(state).figures@.dom(), ids@),
        ),
{
    let (accepted, rejected) = partition_by_existence(&state.figures, &ids);
    proof {
        assert(accepted@.union(rejected@) =~= ids@);
        assert(accepted@.intersect(rejected@) =~= Set::<usize>::empty());
    }
    let merged_opt = match state.selected_figures.get(user_id) {
        Some(current) => Some(set_union(current, &accepted)),
        None => None,
    };
    let ghost sel0 = state.selected_figures@;
    match merged_opt {
        Some(merged) => {
            proof {
                assert(sel0[user_id@].subset_of(merged@));
                assert(!sel0[user_id@].is_empty());
                assert(!merged@.is_empty());
            }
            state.selected_figures.insert(user_id, merged);
        },
        None => {
            if !accepted.is_empty() {
                let to_store = accepted.clone();
                state.selected_figures.insert(user_id, to_store);
            }
        },
    }
    proof {
        assert(state.selected_figures@ == spec_select(sel0, user_id@, accepted@));
        assert forall|u: Seq<char>| #[trigger]
            state.selected_figures@.contains_key(u) implies !state.selected_figures@[u].is_empty()
            && state.selected_figures@[u].subset_of(state.figures@.dom()) by {
            if u != user_id@ {
                assert(sel0.contains_key(u));
            }
        }
    }
    (accepted, rejected)
}

/// Partitions `ids` by figure existence and removes the accepted ids from
/// the user's selection, dropping the entry when it empties. A user with no
/// selection entry has nothing to unselect: the request is answered without
/// touching the table.
pub fn unselect(state: &mut RoomInner, user_id: &String, ids: BTreeSet<usize>) -> (r: (
    BTreeSet<usize>,
    BTreeSet<usize>,
))
    requires
        old(state).wf(),
    ensures
        final(state).wf(),
        r.0@ == accepted_of(old(state).figures@.dom(), ids@),
        r.1@ == rejected_of(old(state).figures@.dom(), ids@),
        r.0@.union(r.1@) == ids@,
        r.0@.disjoint(r.1@),
        forall|id: usize| #[trigger]
            r.0@.contains(id) <==> ids@.contains(id) && old(state).figures@.dom().contains(id),
        final(state).figures@ == old(state).figures@,
        final(state).users == old(state).users,
        final(state).select_drag_positions == old(state).select_drag_positions,
        final(state).selected_figures@ == spec_unselect(
            old(state).selected_figures@,
            user_id@,
            accepted_of(old(state).figures@.dom(), ids@),
        ),
{
    let (accepted, rejected) = partition_by_existence(&state.figures, &ids);
    proof {
        assert(accepted@.union(rejected@) =~= ids@);
        assert(accepted@.intersect(rejected@) =~= Set::<usize>::empty());
    }
    let rest_opt = match state.selected_figures.get(user_id) {
        Some(current) => Some(set_difference(current, &accepted)),
        None => None,
    };
    let ghost sel0 = state.selected_figures@;
    match rest_opt {
        Some(rest) => {
            if rest.is_empty() {
                state.selected_figures.remove(user_id);
            } else {
                proof {
                    assert(rest@.subset_of(sel0[user_id@]));
                }
                state.selected_figures.insert(user_id, rest);
            }
        },
        None => {},
    }
    proof {
        assert(state.selected_figures@ == spec_unselect(sel0, user_id@, accepted@));
        assert forall|u: Seq<char>| #[trigger]
            state.selected_figures@.contains_key(u) implies !state.selected_figures@[u].is_empty()
            && state.selected_figures@[u].subset_of(state.figures@.dom()) by {
            if u != user_id@ {
                assert(sel0.contains_key(u));
            }
        }
    }
    (accepted, rejected)
}

/// Law: selecting a set of ids and then unselecting the same set leaves the
/// user without a selection entry, provided no selection of the user from
/// before the pair of calls survives it (nothing the user had selected lies
/// outside the accepted part of the set).
pub proof fn lemma_select_unselect_symmetry(
    sel: Map<Seq<char>, Set<usize>>,
    user: Seq<char>,
    accepted: Set<usize>,
)
    requires
        sel.contains_key(user) ==> sel[user].subset_of(accepted),
    ensures
        !spec_unselect(spec_select(sel, user, accepted), user, accepted).contains_key(user),
{
    let after_select = spec_select(sel, user, accepted);
    if sel.contains_key(user) {
        assert(after_select[user] == sel[user].union(accepted));
        assert(after_select[user].difference(accepted) =~= Set::<usize>::empty());
    } else if accepted.is_empty() {
        assert(!after_select.contains_key(user));
    } else {
        assert(after_select[user] == accepted);
        assert(after_select[user].difference(accepted) =~= Set::<usize>::empty());
    }
}

} // verus!
