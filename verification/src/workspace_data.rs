//! Client-side mirror of a room's shared drawing state.
//!
//! The workspace keeps its own copy of the figures, of what this user has
//! selected, of what every other user has selected, and of an in-progress
//! preview figure. Server notifications drive the same merge, remove and
//! prune steps as the room's own reconcilers, so the mirror's tables obey
//! the same laws — in particular, no user is ever bound to an empty
//! selection set.

use std::collections::BTreeMap;
use std::collections::BTreeSet;
use vstd::prelude::*;
use vstd::std_specs::btree::spec_keys_iter;
use vstd::std_specs::iter::IteratorSpec;

use crate::deletion::spec_cascade;
use crate::figure::FigureData;
use crate::id_set::set_difference;
use crate::id_set::set_union;
use crate::selection::spec_select;
use crate::selection::spec_unselect;
use crate::user_map::UserMap;

verus! {

broadcast use vstd::prelude::Seq::lemma_push_to_set_commute;

/// The figures a workspace holds, this user's selection, every other
/// user's selection, and the preview being drawn.
pub struct FigureMaintainer {
    default_list: BTreeMap<usize, FigureData>,
    selected_list: BTreeSet<usize>,
    selected_list_by_another_user: UserMap<BTreeSet<usize>>,
    preview: Option<FigureData>,
}

impl FigureMaintainer {
    /// The figures on the canvas, by id.
    pub closed spec fn figures(self) -> Map<usize, FigureData> {
        self.default_list@
    }

    /// The ids this user has selected.
    pub closed spec fn selected(self) -> Set<usize> {
        self.selected_list@
    }

    /// What every other user has selected, by user id.
    pub closed spec fn peer_selected(self) -> Map<Seq<char>, Set<usize>> {
        self.selected_list_by_another_user@
    }

    /// The preview figure, if one is being drawn.
    pub closed spec fn spec_preview(self) -> Option<FigureData> {
        self.preview
    }

    /// The peer-selection table is well formed and binds no user to an
    /// empty set.
    pub closed spec fn wf(self) -> bool {
        &&& self.selected_list_by_another_user.wf()
        &&& self.selected_list_by_another_user.no_empty_values()
    }

    pub fn new() -> (r: FigureMaintainer)
        ensures
            r.wf(),
            r.figures() == Map::<usize, FigureData>::empty(),
            r.selected() == Set::<usize>::empty(),
            r.peer_selected() == Map::<Seq<char>, Set<usize>>::empty(),
            r.spec_preview() is None,
    {
        FigureMaintainer {
            default_list: BTreeMap::new(),
            selected_list: BTreeSet::new(),
            selected_list_by_another_user: UserMap::new(),
            preview: Option::None,
        }
    }

    /// Puts one figure on the canvas, replacing any figure with the same id.
    pub fn insert_to_default(&mut self, id: usize, figure: FigureData)
        requires
            old(self).wf(),
        ensures
            final(self).wf(),
            final(self).figures() == old(self).figures().insert(id, figure),
            final(self).selected() == old(self).selected(),
            final(self).peer_selected() == old(self).peer_selected(),
            final(self).spec_preview() == old(self).spec_preview(),
    {
        let _ = self.default_list.insert(id, figure);
    }

    /// Merges a batch of figures into the canvas; on an id collision the
    /// batch's figure wins.
    #[verifier::loop_isolation(false)]
    pub fn append_to_default(&mut self, figures: BTreeMap<usize, FigureData>)
        requires
            old(self).wf(),
        ensures
            final(self).wf(),
            final(self).figures() == old(self).figures().union_prefer_right(figures@),
            final(self).selected() == old(self).selected(),
            final(self).peer_selected() == old(self).peer_selected(),
            final(self).spec_preview() == old(self).spec_preview(),
    {
        let mut figures = figures;
        let ghost figures0 = figures@;
        let mut keys: Vec<usize> = Vec::new();
        proof {
            let s = spec_keys_iter(&figures).remaining().unref();
            assert(keys@ =~= s.take(0));
        }
        for k in it: figures.keys()
            invariant
                figures@ == figures0,
                keys@ == it.seq().unref().take(it.index() as int),
        {
            keys.push(*k);
            proof {
                let s = it.seq().unref();
                let j = it.index();
                assert(s.take(j + 1) =~= s.take(j).push(s[j]));
                assert(keys@ =~= s.take(j + 1));
            }
        }
        proof {
            let s = spec_keys_iter(&figures).remaining().unref();
            assert(s.take(s.len() as int) =~= s);
            assert(keys@ == s);
            assert(figures0.remove_keys(keys@.take(0).to_set()) =~= figures0);
            assert(self.figures().union_prefer_right(
                figures0.restrict(keys@.take(0).to_set()),
            ) =~= self.figures());
        }
        let n = keys.len();
        let mut i: usize = 0;
        while i < n
            invariant
                n == keys@.len(),
                i <= n,
                figures@ == figures0.remove_keys(keys@.take(i as int).to_set()),
                self.figures() == old(self).figures().union_prefer_right(
                    figures0.restrict(keys@.take(i as int).to_set()),
                ),
                self.selected_list == old(self).selected_list,
                self.selected_list_by_another_user == old(self).selected_list_by_another_user,
                self.preview == old(self).preview,
            decreases n - i,
        {
            let k = keys[i];
            proof {
                assert(keys@.take(i as int).to_set().contains(keys@[i as int]) ==> exists|j: int|
                    0 <= j < i && keys@[j] == keys@[i as int]);
                assert(figures0.dom().contains(k));
                assert(figures@.contains_key(k));
            }
            match figures.remove(&k) {
                Option::Some(v) => {
                    let _ = self.default_list.insert(k, v);
                    proof {
                        assert(keys@.take(i + 1) =~= keys@.take(i as int).push(k));
                        assert(keys@.take(i + 1).to_set() =~= keys@.take(
                            i as int,
                        ).to_set().insert(k));
                        assert(figures@ =~= figures0.remove_keys(keys@.take(i + 1).to_set()));
                        assert(self.figures() =~= old(self).figures().union_prefer_right(
                            figures0.restrict(keys@.take(i + 1).to_set()),
                        ));
                    }
                },
                Option::None => {
                    proof {
                        assert(false);
                    }
                },
            }
            i = i + 1;
        }
        proof {
            assert(keys@.take(n as int) =~= keys@);
            assert(figures0.restrict(keys@.to_set()) =~= figures0);
            assert(self.figures() =~= old(self).figures().union_prefer_right(figures0));
        }
    }

    /// Takes the listed figures off the canvas; ids with no figure are
    /// simply skipped.
    #[verifier::loop_isolation(false)]
    pub fn delete_to_default(&mut self, ids: &BTreeSet<usize>)
        requires
            old(self).wf(),
        ensures
            final(self).wf(),
            final(self).figures() == old(self).figures().remove_keys(ids@),
            final(self).selected() == old(self).selected(),
            final(self).peer_selected() == old(self).peer_selected(),
            final(self).spec_preview() == old(self).spec_preview(),
    {
        let ghost figures0 = self.default_list@;
        proof {
            let s = vstd::std_specs::btree::spec_btree_keys_iter(ids).remaining().unref();
            assert(s.take(0).to_set() =~= Set::<usize>::empty());
            assert(figures0.remove_keys(s.take(0).to_set()) =~= figures0);
        }
        for id in it: ids.iter()
            invariant
                self.default_list@ == figures0.remove_keys(
                    it.seq().unref().take(it.index() as int).to_set(),
                ),
                self.selected_list == old(self).selected_list,
                self.selected_list_by_another_user == old(self).selected_list_by_another_user,
                self.preview == old(self).preview,
        {
            proof {
                let s = it.seq().unref();
                let j = it.index();
                assert(s.take(j + 1) =~= s.take(j).push(s[j]));
                assert(s.take(j + 1).to_set() =~= s.take(j).to_set().insert(*id));
            }
            let _ = self.default_list.remove(id);
            proof {
                assert(self.default_list@ =~= figures0.remove_keys(
                    it.seq().unref().take(it.index() + 1).to_set(),
                ));
            }
        }
        proof {
            let s = vstd::std_specs::btree::spec_btree_keys_iter(ids).remaining().unref();
            assert(s.take(s.len() as int) =~= s);
            assert(self.default_list@ =~= figures0.remove_keys(ids@));
        }
    }

    /// Stores (or clears) the preview figure.
    pub fn set_preview(&mut self, preview: Option<FigureData>)
        requires
            old(self).wf(),
        ensures
            final(self).wf(),
            final(self).spec_preview() == preview,
            final(self).figures() == old(self).figures(),
            final(self).selected() == old(self).selected(),
            final(self).peer_selected() == old(self).peer_selected(),
    {
        self.preview = preview;
    }

    /// Hands the preview figure out, leaving none behind.
    pub fn take_preview(&mut self) -> (r: Option<FigureData>)
        requires
            old(self).wf(),
        ensures
            final(self).wf(),
            r == old(self).spec_preview(),
            final(self).spec_preview() is None,
            final(self).figures() == old(self).figures(),
            final(self).selected() == old(self).selected(),
            final(self).peer_selected() == old(self).peer_selected(),
    {
        let mut taken: Option<FigureData> = Option::None;
        core::mem::swap(&mut self.preview, &mut taken);
        taken
    }

    /// An owned copy of the preview figure, if one is being drawn.
    pub fn clone_preview(&self) -> (r: Option<FigureData>)
        ensures
            r is None <==> self.spec_preview() is None,
            (self.spec_preview() matches Option::Some(p) ==> (r matches Option::Some(c) && c@
                == p@)),
    {
        match &self.preview {
            Option::Some(p) => Option::Some(p.duplicate()),
            Option::None => Option::None,
        }
    }

    /// Adds the ids to this user's selection.
    pub fn select(&mut self, ids: BTreeSet<usize>)
        requires
            old(self).wf(),
        ensures
            final(self).wf(),
            final(self).selected() == old(self).selected().union(ids@),
            final(self).figures() == old(self).figures(),
            final(self).peer_selected() == old(self).peer_selected(),
            final(self).spec_preview() == old(self).spec_preview(),
    {
        self.selected_list = set_union(&self.selected_list, &ids);
    }

    /// Drops the ids from this user's selection.
    pub fn unselect(&mut self, ids: &BTreeSet<usize>)
        requires
            old(self).wf(),
        ensures
            final(self).wf(),
            final(self).selected() == old(self).selected().difference(ids@),
            final(self).figures() == old(self).figures(),
            final(self).peer_selected() == old(self).peer_selected(),
            final(self).spec_preview() == old(self).spec_preview(),
    {
        self.selected_list = set_difference(&self.selected_list, ids);
    }

    /// Merges ids into another user's selection entry, creating it for a
    /// non-empty set; an empty merge creates no entry.
    pub fn select_by_another_user(&mut self, user_id: String, ids: BTreeSet<usize>)
        requires
            old(self).wf(),
        ensures
            final(self).wf(),
            final(self).peer_selected() == spec_select(old(self).peer_selected(), user_id@, ids@),
            final(self).figures() == old(self).figures(),
            final(self).selected() == old(self).selected(),
            final(self).spec_preview() == old(self).spec_preview(),
    {
        let merged_opt = match self.selected_list_by_another_user.get(&user_id) {
            Option::Some(current) => Option::Some(set_union(current, &ids)),
            Option::None => Option::None,
        };
        let ghost peers0 = self.selected_list_by_another_user@;
        match merged_opt {
            Option::Some(merged) => {
                proof {
                    assert(peers0[user_id@].subset_of(merged@));
                    assert(!peers0[user_id@].is_empty());
                    assert(!merged@.is_empty());
                }
                self.selected_list_by_another_user.insert(&user_id, merged);
            },
            Option::None => {
                if !ids.is_empty() {
                    self.selected_list_by_another_user.insert(&user_id, ids);
                }
            },
        }
        proof {
            assert forall|u: Seq<char>| #[trigger]
                self.selected_list_by_another_user@.contains_key(
                    u,
                ) implies !self.selected_list_by_another_user@[u].is_empty() by {
                if u != user_id@ {
                    assert(peers0.contains_key(u));
                }
            }
        }
    }

    /// Drops ids from another user's selection entry, pruning it when it
    /// empties; a user without an entry has nothing to unselect.
    pub fn unselect_by_another_user(&mut self, user_id: String, ids: BTreeSet<usize>)
        requires
            old(self).wf(),
        ensures
            final(self).wf(),
            final(self).peer_selected() == spec_unselect(
                old(self).peer_selected(),
                user_id@,
                ids@,
            ),
            final(self).figures() == old(self).figures(),
            final(self).selected() == old(self).selected(),
            final(self).spec_preview() == old(self).spec_preview(),
    {
        let rest_opt = match self.selected_list_by_another_user.get(&user_id) {
            Option::Some(current) => Option::Some(set_difference(current, &ids)),
            Option::None => Option::None,
        };
        let ghost peers0 = self.selected_list_by_another_user@;
        match rest_opt {
            Option::Some(rest) => {
                if rest.is_empty() {
                    self.selected_list_by_another_user.remove(&user_id);
                } else {
                    self.selected_list_by_another_user.insert(&user_id, rest);
                }
            },
            Option::None => {},
        }
        proof {
            assert forall|u: Seq<char>| #[trigger]
                self.selected_list_by_another_user@.contains_key(
                    u,
                ) implies !self.selected_list_by_another_user@[u].is_empty() by {
                if u != user_id@ {
                    assert(peers0.contains_key(u));
                }
            }
        }
    }

    /// Scrubs the ids out of every other user's selection, pruning entries
    /// that empty — the client-side cascade of a figure deletion.
    pub fn try_unselect_by_all_users(&mut self, ids: &BTreeSet<usize>)
        requires
            old(self).wf(),
        ensures
            final(self).wf(),
            final(self).peer_selected() == spec_cascade(old(self).peer_selected(), ids@),
            final(self).figures() == old(self).figures(),
            final(self).selected() == old(self).selected(),
            final(self).spec_preview() == old(self).spec_preview(),
    {
        self.selected_list_by_another_user.remove_from_all_entries(ids);
        proof {
            assert(self.selected_list_by_another_user@ =~= spec_cascade(
                old(self).selected_list_by_another_user@,
                ids@,
            ));
        }
    }

    /// Clears this user's whole selection.
    pub fn unselect_all(&mut self)
        requires
            old(self).wf(),
        ensures
            final(self).wf(),
            final(self).selected() == Set::<usize>::empty(),
            final(self).figures() == old(self).figures(),
            final(self).peer_selected() == old(self).peer_selected(),
            final(self).spec_preview() == old(self).spec_preview(),
    {
        self.selected_list.clear();
    }

    /// Drops another user's whole selection entry.
    pub fn unselect_all_by_another_user(&mut self, user_id: String)
        requires
            old(self).wf(),
        ensures
            final(self).wf(),
            final(self).peer_selected() == old(self).peer_selected().remove(user_id@),
            final(self).figures() == old(self).figures(),
            final(self).selected() == old(self).selected(),
            final(self).spec_preview() == old(self).spec_preview(),
    {
        self.selected_list_by_another_user.remove(&user_id);
        proof {
            assert forall|u: Seq<char>| #[trigger]
                self.selected_list_by_another_user@.contains_key(
                    u,
                ) implies !self.selected_list_by_another_user@[u].is_empty() by {
                assert(old(self).selected_list_by_another_user@.contains_key(u));
            }
        }
    }

    /// How many figures this user has selected.
    pub fn selected_list_len(&self) -> (r: usize)
        ensures
            r == self.selected().len(),
    {
        self.selected_list.len()
    }

    /// Whether this user has the figure selected.
    pub fn check_selected(&self, id: usize) -> (r: bool)
        ensures
            r == self.selected().contains(id),
    {
        self.selected_list.contains(&id)
    }

    /// Compares the current selection with a replacement: what must newly
    /// be selected and what must be unselected to reach `set`. Either part
    /// is `None` when empty, the caller's signal that nothing is to change.
    pub fn compare_selected_list(&self, set: BTreeSet<usize>) -> (r: (
        Option<BTreeSet<usize>>,
        Option<BTreeSet<usize>>,
    ))
        ensures
            match r.0 {
                Option::Some(s) => s@ == set@.difference(self.selected()) && !s@.is_empty(),
                Option::None => set@.difference(self.selected()).is_empty(),
            },
            match r.1 {
                Option::Some(s) => s@ == self.selected().difference(set@) && !s@.is_empty(),
                Option::None => self.selected().difference(set@).is_empty(),
            },
    {
        let about_to_select_set = set_difference(&set, &self.selected_list);
        let about_to_unselect_set = set_difference(&self.selected_list, &set);
        let about_to_select_set = if !about_to_select_set.is_empty() {
            Option::Some(about_to_select_set)
        } else {
            Option::None
        };
        let about_to_unselect_set = if !about_to_unselect_set.is_empty() {
            Option::Some(about_to_unselect_set)
        } else {
            Option::None
        };
        (about_to_select_set, about_to_unselect_set)
    }

    /// An owned copy of this user's selection.
    pub fn clone_selected_list(&self) -> (r: BTreeSet<usize>)
        ensures
            r@ == self.selected(),
    {
        self.selected_list.clone()
    }
}

/// The workspace's working list of figures, with a flag noting that it
/// changed since the canvas last drew it.
pub struct FigureList {
    list: Vec<FigureData>,
    modified: bool,
}

impl FigureList {
    /// The figures' payloads, in insertion order.
    pub closed spec fn figures_seq(self) -> Seq<Seq<u8>> {
        self.list@.map_values(|f: FigureData| f@)
    }

    /// Whether the list changed since the flag was last reset.
    pub closed spec fn spec_modified(self) -> bool {
        self.modified
    }

    pub fn new() -> (r: FigureList)
        ensures
            r.figures_seq() == Seq::<Seq<u8>>::empty(),
            !r.spec_modified(),
    {
        let r = FigureList { list: Vec::new(), modified: false };
        proof {
            assert(r.figures_seq() =~= Seq::<Seq<u8>>::empty());
        }
        r
    }

    /// Appends one figure and marks the list modified.
    pub fn push(&mut self, figure: FigureData)
        ensures
            final(self).figures_seq() == old(self).figures_seq().push(figure@),
            final(self).spec_modified(),
    {
        let ghost f_view = figure@;
        self.list.push(figure);
        self.modified = true;
        proof {
            assert(self.figures_seq() =~= old(self).figures_seq().push(f_view));
        }
    }

    /// Appends a batch of figures and marks the list modified.
    pub fn append(&mut self, figures: Vec<FigureData>)
        ensures
            final(self).figures_seq() == old(self).figures_seq() + figures@.map_values(
                |f: FigureData| f@,
            ),
            final(self).spec_modified(),
    {
        let mut figures = figures;
        let ghost fs = figures@;
        self.list.append(&mut figures);
        self.modified = true;
        proof {
            assert(self.figures_seq() =~= old(self).figures_seq() + fs.map_values(
                |f: FigureData| f@,
            ));
        }
    }

    /// An owned copy of the figures, in order.
    pub fn list(&self) -> (r: Vec<FigureData>)
        ensures
            r@.map_values(|f: FigureData| f@) == self.figures_seq(),
    {
        let n = self.list.len();
        let mut r: Vec<FigureData> = Vec::new();
        let mut i: usize = 0;
        while i < n
            invariant
                n == self.list@.len(),
                i <= n,
                r@.len() == i,
                forall|j: int| 0 <= j < i ==> #[trigger] r@[j]@ == self.list@[j]@,
            decreases n - i,
        {
            r.push(self.list[i].duplicate());
            i = i + 1;
        }
        proof {
            assert(r@.map_values(|f: FigureData| f@) =~= self.figures_seq());
        }
        r
    }

    /// Whether the list changed since the flag was last reset.
    pub fn is_modified(&self) -> (r: bool)
        ensures
            r == self.spec_modified(),
    {
        self.modified
    }

    /// Clears the modified flag, once the change has been drawn.
    pub fn reset_modified(&mut self)
        ensures
            final(self).figures_seq() == old(self).figures_seq(),
            !final(self).spec_modified(),
    {
        self.modified = false;
    }
}

} // verus!
