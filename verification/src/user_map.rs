//! Per-user association table.
//!
//! Room state keeps several mappings keyed by user id: each user's selected
//! figure ids and each user's drag anchor. `UserMap` stores such a mapping as
//! a vector of `(user id, value)` pairs with pairwise distinct keys and is
//! specified as a `Map` from the id's characters to the value's view.

use std::collections::BTreeSet;
use vstd::prelude::*;

verus! {

/// A mapping from user ids to values, with one entry per user.
#[derive(Debug, Clone, PartialEq, Eq)]
pub struct UserMap<V> {
    entries: Vec<(String, V)>,
}

impl<V: View> UserMap<V> {
    /// Number of entries.
    pub closed spec fn spec_len(self) -> int {
        self.entries@.len() as int
    }

    spec fn key_at(self, i: int) -> Seq<char> {
        self.entries@[i].0@
    }

    spec fn val_at(self, i: int) -> V::V {
        self.entries@[i].1@
    }

    spec fn has_key(self, k: Seq<char>) -> bool {
        exists|i: int| 0 <= i < self.spec_len() && self.key_at(i) == k
    }

    /// Entries carry pairwise distinct user ids, so each key denotes at most
    /// one value.
    pub closed spec fn wf(self) -> bool {
        forall|i: int, j: int| 0 <= i < j < self.spec_len() ==> self.key_at(i) != self.key_at(j)
    }

    proof fn lemma_view_entry(self, i: int)
        requires
            self.wf(),
            0 <= i < self.spec_len(),
        ensures
            self@.contains_key(self.key_at(i)),
            self@[self.key_at(i)] == self.val_at(i),
    {
        let k = self.key_at(i);
        assert(self.has_key(k));
        let j = choose|j: int| 0 <= j < self.spec_len() && self.key_at(j) == k;
        assert(j == i);
    }

    /// The view reads back the entries: each entry is in the map, and each
    /// key of the map comes from an entry.
    proof fn lemma_view_all(self)
        requires
            self.wf(),
        ensures
            forall|i: int|
                0 <= i < self.spec_len() ==> #[trigger] self@.contains_key(self.key_at(i))
                    && self@[self.key_at(i)] == self.val_at(i),
            forall|k: Seq<char>| #[trigger]
                self@.contains_key(k) ==> exists|i: int|
                    0 <= i < self.spec_len() && self.key_at(i) == k,
    {
        assert forall|i: int| 0 <= i < self.spec_len() implies #[trigger] self@.contains_key(
            self.key_at(i),
        ) && self@[self.key_at(i)] == self.val_at(i) by {
            self.lemma_view_entry(i);
        }
    }

    pub fn new() -> (r: UserMap<V>)
        ensures
            r@ == Map::<Seq<char>, V::V>::empty(),
            r.wf(),
    {
        let r = UserMap { entries: Vec::new() };
        proof {
            assert(r@ =~= Map::<Seq<char>, V::V>::empty());
        }
        r
    }

    /// The value stored for `user_id`, if the user has an entry.
    pub fn get<'a>(&'a self, user_id: &String) -> (r: Option<&'a V>)
        requires
            self.wf(),
        ensures
            match r {
                Some(v) => self@.contains_key(user_id@) && v@ == self@[user_id@],
                None => !self@.contains_key(user_id@),
            },
    {
        let n = self.entries.len();
        let mut i: usize = 0;
        while i < n
            invariant
                n == self.spec_len(),
                self.wf(),
                i <= n,
                forall|j: int| 0 <= j < i ==> self.key_at(j) != user_id@,
            decreases n - i,
        {
            if self.entries[i].0 == *user_id {
                proof {
                    self.lemma_view_entry(i as int);
                }
                return Some(&self.entries[i].1);
            }
            i = i + 1;
        }
        proof {
            assert(!self.has_key(user_id@));
        }
        None
    }

    pub fn contains_key(&self, user_id: &String) -> (r: bool)
        requires
            self.wf(),
        ensures
            r == self@.contains_key(user_id@),
    {
        self.get(user_id).is_some()
    }

    /// Binds `user_id` to `value`, replacing the user's previous entry if
    /// there was one.
    #[verifier::loop_isolation(false)]
    pub fn insert(&mut self, user_id: &String, value: V)
        requires
            old(self).wf(),
        ensures
            final(self).wf(),
            final(self)@ == old(self)@.insert(user_id@, value@),
    {
        let ghost v_view = value@;
        let n = self.entries.len();
        let mut i: usize = 0;
        while i < n
            invariant
                *self == *old(self),
                n == self.spec_len(),
                self.wf(),
                i <= n,
                forall|j: int| 0 <= j < i ==> self.key_at(j) != user_id@,
            decreases n - i,
        {
            if self.entries[i].0 == *user_id {
                let ghost prev = *self;
                self.entries[i] = (user_id.clone(), value);
                proof {
                    assert(forall|j: int| #![trigger self.key_at(j)]
                        0 <= j < self.spec_len() ==> self.key_at(j) == prev.key_at(j));
                    assert(forall|j: int| #![trigger self.val_at(j)]
                        0 <= j < self.spec_len() && j != i ==> self.val_at(j) == prev.val_at(j));
                    assert(self.key_at(i as int) == user_id@);
                    assert(self.val_at(i as int) == v_view);
                    assert(self.wf());
                    prev.lemma_view_all();
                    self.lemma_view_all();
                    let target = prev@.insert(user_id@, v_view);
                    assert forall|k: Seq<char>| #[trigger] self@.contains_key(k) implies
                        target.contains_key(k) && self@[k] == target[k] by {
                        let j = choose|j: int| 0 <= j < self.spec_len() && self.key_at(j) == k;
                        if j == i as int {
                            assert(k == user_id@);
                        } else {
                            assert(prev.key_at(j) == k);
                            assert(k != user_id@);
                        }
                    }
                    assert forall|k: Seq<char>| #[trigger] target.contains_key(k) implies
                        self@.contains_key(k) by {
                        if k == user_id@ {
                            assert(self@.contains_key(self.key_at(i as int)));
                        } else {
                            let j = choose|j: int|
                                0 <= j < prev.spec_len() && prev.key_at(j) == k;
                            assert(self@.contains_key(self.key_at(j)));
                        }
                    }
                    assert(self@ =~= target);
                }
                return ;
            }
            i = i + 1;
        }
        let ghost prev = *self;
        self.entries.push((user_id.clone(), value));
        proof {
            assert(forall|j: int| #![trigger self.key_at(j)]
                0 <= j < prev.spec_len() ==> self.key_at(j) == prev.key_at(j));
            assert(forall|j: int| #![trigger self.val_at(j)]
                0 <= j < prev.spec_len() ==> self.val_at(j) == prev.val_at(j));
            assert(self.key_at(prev.spec_len()) == user_id@);
            assert(self.val_at(prev.spec_len()) == v_view);
            assert(self.wf());
            prev.lemma_view_all();
            self.lemma_view_all();
            let target = prev@.insert(user_id@, v_view);
            assert forall|k: Seq<char>| #[trigger] self@.contains_key(k) implies target.contains_key(
                k,
            ) && self@[k] == target[k] by {
                let j = choose|j: int| 0 <= j < self.spec_len() && self.key_at(j) == k;
                if j == prev.spec_len() {
                    assert(k == user_id@);
                } else {
                    assert(prev.key_at(j) == k);
                    assert(k != user_id@);
                }
            }
            assert forall|k: Seq<char>| #[trigger] target.contains_key(k) implies self@.contains_key(
                k,
            ) by {
                if k == user_id@ {
                    assert(self@.contains_key(self.key_at(prev.spec_len())));
                } else {
                    let j = choose|j: int| 0 <= j < prev.spec_len() && prev.key_at(j) == k;
                    assert(self@.contains_key(self.key_at(j)));
                }
            }
            assert(self@ =~= target);
        }
    }

    /// Whether no user has an entry.
    pub fn is_empty(&self) -> (r: bool)
        ensures
            r == self@.dom().is_empty(),
            r == (self.spec_len() == 0),
    {
        let r = self.entries.is_empty();
        proof {
            if self.spec_len() == 0 {
                assert(forall|k: Seq<char>| !self.has_key(k));
                assert(self@.dom() =~= Set::<Seq<char>>::empty());
            } else {
                assert(self.has_key(self.key_at(0)));
                assert(self@.dom().contains(self.key_at(0)));
            }
        }
        r
    }

    /// The user ids that have an entry, each exactly once.
    pub fn user_ids(&self) -> (r: Vec<String>)
        requires
            self.wf(),
        ensures
            forall|i: int| 0 <= i < r@.len() ==> self@.contains_key(#[trigger] r@[i]@),
            forall|k: Seq<char>| #[trigger]
                self@.contains_key(k) ==> exists|i: int| 0 <= i < r@.len() && r@[i]@ == k,
            forall|i: int, j: int| 0 <= i < j < r@.len() ==> r@[i]@ != r@[j]@,
    {
        let n = self.entries.len();
        let mut r: Vec<String> = Vec::new();
        let mut i: usize = 0;
        while i < n
            invariant
                n == self.spec_len(),
                self.wf(),
                i <= n,
                r@.len() == i,
                forall|j: int| 0 <= j < i ==> #[trigger] r@[j]@ == self.key_at(j),
            decreases n - i,
        {
            r.push(self.entries[i].0.clone());
            i = i + 1;
        }
        proof {
            self.lemma_view_all();
            assert forall|k: Seq<char>| #[trigger] self@.contains_key(k) implies exists|j: int|
                0 <= j < r@.len() && r@[j]@ == k by {
                let j = choose|j: int| 0 <= j < self.spec_len() && self.key_at(j) == k;
                assert(r@[j]@ == k);
            }
        }
        r
    }

    /// Drops the entry for `user_id`, if any.
    pub fn remove(&mut self, user_id: &String)
        requires
            old(self).wf(),
        ensures
            final(self).wf(),
            final(self)@ == old(self)@.remove(user_id@),
    {
        let n = self.entries.len();
        let mut i: usize = 0;
        while i < n
            invariant
                *self == *old(self),
                n == self.spec_len(),
                self.wf(),
                i <= n,
                forall|j: int| 0 <= j < i ==> self.key_at(j) != user_id@,
            decreases n - i,
        {
            if self.entries[i].0 == *user_id {
                let ghost prev = *self;
                let _ = self.entries.remove(i);
                proof {
                    assert(forall|j: int| #![trigger self.key_at(j)]
                        0 <= j < self.spec_len() ==> self.key_at(j) == (if j < i {
                            prev.key_at(j)
                        } else {
                            prev.key_at(j + 1)
                        }));
                    assert(forall|j: int| #![trigger self.val_at(j)]
                        0 <= j < self.spec_len() ==> self.val_at(j) == (if j < i {
                            prev.val_at(j)
                        } else {
                            prev.val_at(j + 1)
                        }));
                    assert(prev.key_at(i as int) == user_id@);
                    assert forall|j1: int, j2: int| 0 <= j1 < j2 < self.spec_len() implies
                        self.key_at(j1) != self.key_at(j2) by {
                        if j2 < i {
                        } else if j1 < i {
                            assert(self.key_at(j2) == prev.key_at(j2 + 1));
                        } else {
                            assert(self.key_at(j1) == prev.key_at(j1 + 1));
                            assert(self.key_at(j2) == prev.key_at(j2 + 1));
                        }
                    }
                    assert(self.wf());
                    prev.lemma_view_all();
                    self.lemma_view_all();
                    let target = prev@.remove(user_id@);
                    assert forall|k: Seq<char>| #[trigger] self@.contains_key(k) implies
                        target.contains_key(k) && self@[k] == target[k] by {
                        let j = choose|j: int| 0 <= j < self.spec_len() && self.key_at(j) == k;
                        if j < i {
                            assert(prev.key_at(j) == k);
                            assert(prev.key_at(j) != prev.key_at(i as int));
                        } else {
                            assert(prev.key_at(j + 1) == k);
                            assert(prev.key_at(j + 1) != prev.key_at(i as int));
                        }
                        assert(k != user_id@);
                    }
                    assert forall|k: Seq<char>| #[trigger] target.contains_key(k) implies
                        self@.contains_key(k) by {
                        let j = choose|j: int| 0 <= j < prev.spec_len() && prev.key_at(j) == k;
                        assert(j != i);
                        if j < i {
                            assert(self@.contains_key(self.key_at(j)));
                        } else {
                            assert(self@.contains_key(self.key_at(j - 1)));
                        }
                    }
                    assert(self@ =~= target);
                }
                return ;
            }
            i = i + 1;
        }
        proof {
            assert(!self.has_key(user_id@));
            assert(self@ =~= self@.remove(user_id@));
        }
    }
}

impl UserMap<BTreeSet<usize>> {
    /// No user is bound to an empty id set: an emptied selection drops its
    /// entry instead.
    pub open spec fn no_empty_values(self) -> bool {
        forall|k: Seq<char>| #[trigger] self@.contains_key(k) ==> !self@[k].is_empty()
    }

    /// Removes the ids of `ids` from every user's set and drops every entry
    /// whose set becomes empty. Afterwards a user has an entry exactly when
    /// some of their ids survive, and it holds exactly the survivors.
    pub fn remove_from_all_entries(&mut self, ids: &BTreeSet<usize>)
        requires
            old(self).wf(),
        ensures
            final(self).wf(),
            final(self).no_empty_values(),
            forall|k: Seq<char>| #[trigger]
                final(self)@.contains_key(k) == (old(self)@.contains_key(k) && !old(
                    self,
                )@[k].difference(ids@).is_empty()),
            forall|k: Seq<char>| #[trigger]
                final(self)@.contains_key(k) ==> final(self)@[k] == old(self)@[k].difference(ids@),
    {
        let n = self.entries.len();
        let mut kept: Vec<(String, BTreeSet<usize>)> = Vec::new();
        let ghost prev = *self;
        let ghost mut src: Seq<int> = Seq::empty();
        let mut i: usize = 0;
        while i < n
            invariant
                *self == prev,
                n == prev.spec_len(),
                prev.wf(),
                i <= n,
                src.len() == kept@.len(),
                forall|j: int| 0 <= j < src.len() ==> 0 <= #[trigger] src[j] < i,
                forall|j1: int, j2: int| 0 <= j1 < j2 < src.len() ==> src[j1] < src[j2],
                forall|j: int| #![trigger kept@[j]]
                    0 <= j < kept@.len() ==> kept@[j].0@ == prev.key_at(src[j]) && kept@[j].1@
                        == prev.val_at(src[j]).difference(ids@) && !kept@[j].1@.is_empty(),
                forall|l: int|
                    0 <= l < i && !(#[trigger] prev.val_at(l)).difference(ids@).is_empty()
                        ==> exists|j: int| 0 <= j < src.len() && src[j] == l,
            decreases n - i,
        {
            let ghost src0 = src;
            let user_id = self.entries[i].0.clone();
            let survivors = crate::id_set::set_difference(&self.entries[i].1, ids);
            if !survivors.is_empty() {
                kept.push((user_id, survivors));
                proof {
                    src = src.push(i as int);
                }
            }
            proof {
                assert forall|l: int|
                    0 <= l < i + 1 && !(#[trigger] prev.val_at(l)).difference(
                        ids@,
                    ).is_empty() implies exists|j: int| 0 <= j < src.len() && src[j] == l by {
                    if l < i as int {
                        let j = choose|j: int| 0 <= j < src0.len() && src0[j] == l;
                        assert(src[j] == l);
                    } else {
                        assert(src[src.len() - 1] == l);
                    }
                }
            }
            i = i + 1;
        }
        self.entries = kept;
        proof {
            assert(forall|j: int| #![trigger self.key_at(j)]
                0 <= j < self.spec_len() ==> self.key_at(j) == prev.key_at(src[j]) && 0 <= src[j]
                    < n);
            assert(forall|j: int| #![trigger self.val_at(j)]
                0 <= j < self.spec_len() ==> self.val_at(j) == prev.val_at(src[j]).difference(ids@)
                    && !self.val_at(j).is_empty());
            assert forall|j1: int, j2: int| 0 <= j1 < j2 < self.spec_len() implies self.key_at(j1)
                != self.key_at(j2) by {
                assert(src[j1] < src[j2]);
            }
            assert(self.wf());
            prev.lemma_view_all();
            self.lemma_view_all();
            assert forall|k: Seq<char>| #[trigger] self@.contains_key(k) implies prev@.contains_key(
                k,
            ) && !prev@[k].difference(ids@).is_empty() && self@[k] == prev@[k].difference(
                ids@,
            ) by {
                let j = choose|j: int| 0 <= j < self.spec_len() && self.key_at(j) == k;
                assert(prev.key_at(src[j]) == k);
                assert(prev@.contains_key(k) && prev@[k] == prev.val_at(src[j]));
            }
            assert forall|k: Seq<char>|
                prev@.contains_key(k) && !(#[trigger] prev@[k]).difference(
                    ids@,
                ).is_empty() implies self@.contains_key(k) by {
                let l = choose|l: int| 0 <= l < prev.spec_len() && prev.key_at(l) == k;
                assert(prev@[k] == prev.val_at(l));
                let j = choose|j: int| 0 <= j < src.len() && src[j] == l;
                assert(self@.contains_key(self.key_at(j)));
            }
            assert forall|k: Seq<char>| #[trigger] self@.contains_key(k) implies !self@[k].is_empty() by {
            }
        }
    }

    /// An owned copy describing the same selections, for snapshot responses.
    pub fn snapshot(&self) -> (r: UserMap<BTreeSet<usize>>)
        requires
            self.wf(),
        ensures
            r.wf(),
            r@ == self@,
    {
        let n = self.entries.len();
        let mut entries: Vec<(String, BTreeSet<usize>)> = Vec::new();
        let mut i: usize = 0;
        while i < n
            invariant
                n == self.spec_len(),
                self.wf(),
                i <= n,
                entries@.len() == i,
                forall|j: int| #![trigger entries@[j]]
                    0 <= j < i ==> entries@[j].0@ == self.key_at(j) && entries@[j].1@
                        == self.val_at(j),
            decreases n - i,
        {
            let user_id = self.entries[i].0.clone();
            let set = self.entries[i].1.clone();
            entries.push((user_id, set));
            i = i + 1;
        }
        let r = UserMap { entries };
        proof {
            assert(forall|j: int| #![trigger r.key_at(j)]
                0 <= j < r.spec_len() ==> r.key_at(j) == self.key_at(j));
            assert(forall|j: int| #![trigger r.val_at(j)]
                0 <= j < r.spec_len() ==> r.val_at(j) == self.val_at(j));
            assert(r.wf());
            r.lemma_view_all();
            self.lemma_view_all();
            assert forall|k: Seq<char>| #[trigger] r@.contains_key(k) implies self@.contains_key(k)
                && r@[k] == self@[k] by {
                let j = choose|j: int| 0 <= j < r.spec_len() && r.key_at(j) == k;
                assert(self@.contains_key(self.key_at(j)));
            }
            assert forall|k: Seq<char>| #[trigger] self@.contains_key(k) implies r@.contains_key(
                k,
            ) by {
                let j = choose|j: int| 0 <= j < self.spec_len() && self.key_at(j) == k;
                assert(r@.contains_key(r.key_at(j)));
            }
            assert(r@ =~= self@);
        }
        r
    }
}

impl UserMap<(u64, u64)> {
    /// An owned copy of the drag-anchor table, for snapshot responses.
    pub fn snapshot(&self) -> (r: UserMap<(u64, u64)>)
        requires
            self.wf(),
        ensures
            r.wf(),
            r@ == self@,
    {
        let n = self.entries.len();
        let mut entries: Vec<(String, (u64, u64))> = Vec::new();
        let mut i: usize = 0;
        while i < n
            invariant
                n == self.spec_len(),
                self.wf(),
                i <= n,
                entries@.len() == i,
                forall|j: int| #![trigger entries@[j]]
                    0 <= j < i ==> entries@[j].0@ == self.key_at(j) && entries@[j].1@
                        == self.val_at(j),
            decreases n - i,
        {
            let user_id = self.entries[i].0.clone();
            let pos = self.entries[i].1;
            entries.push((user_id, pos));
            i = i + 1;
        }
        let r = UserMap { entries };
        proof {
            assert(forall|j: int| #![trigger r.key_at(j)]
                0 <= j < r.spec_len() ==> r.key_at(j) == self.key_at(j));
            assert(forall|j: int| #![trigger r.val_at(j)]
                0 <= j < r.spec_len() ==> r.val_at(j) == self.val_at(j));
            assert(r.wf());
            r.lemma_view_all();
            self.lemma_view_all();
            assert forall|k: Seq<char>| #[trigger] r@.contains_key(k) implies self@.contains_key(k)
                && r@[k] == self@[k] by {
                let j = choose|j: int| 0 <= j < r.spec_len() && r.key_at(j) == k;
                assert(self@.contains_key(self.key_at(j)));
            }
            assert forall|k: Seq<char>| #[trigger] self@.contains_key(k) implies r@.contains_key(
                k,
            ) by {
                let j = choose|j: int| 0 <= j < self.spec_len() && self.key_at(j) == k;
                assert(r@.contains_key(r.key_at(j)));
            }
            assert(r@ =~= self@);
        }
        r
    }
}

impl<V: View> View for UserMap<V> {
    type V = Map<Seq<char>, V::V>;

    closed spec fn view(&self) -> Map<Seq<char>, V::V> {
        Map::new(
            |k: Seq<char>| self.has_key(k),
            |k: Seq<char>|
                {
                    let i = choose|i: int| 0 <= i < self.spec_len() && self.key_at(i) == k;
                    self.val_at(i)
                },
        )
    }
}

} // verus!
