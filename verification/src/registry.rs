//! The registry of users connected to a room.

use vstd::prelude::*;

verus! {

broadcast use vstd::prelude::Seq::lemma_push_to_set_commute;

/// The connected users of one room, each registered once, in join order.
pub struct UserRegistry {
    ids: Vec<String>,
}

impl UserRegistry {
    /// The registered ids, in join order.
    pub closed spec fn spec_ids(self) -> Seq<Seq<char>> {
        self.ids@.map_values(|s: String| s@)
    }

    /// The registered ids as a set.
    pub open spec fn id_set(self) -> Set<Seq<char>> {
        self.spec_ids().to_set()
    }

    /// Each user is registered at most once.
    pub closed spec fn wf(self) -> bool {
        forall|i: int, j: int|
            0 <= i < j < self.spec_ids().len() ==> self.spec_ids()[i] != self.spec_ids()[j]
    }

    pub fn new() -> (r: UserRegistry)
        ensures
            r.wf(),
            r.spec_ids() == Seq::<Seq<char>>::empty(),
            r.id_set() == Set::<Seq<char>>::empty(),
    {
        let r = UserRegistry { ids: Vec::new() };
        proof {
            assert(r.spec_ids() =~= Seq::<Seq<char>>::empty());
            assert(r.id_set() =~= Set::<Seq<char>>::empty());
        }
        r
    }

    pub fn contains(&self, user_id: &String) -> (r: bool)
        requires
            self.wf(),
        ensures
            r == self.id_set().contains(user_id@),
    {
        let n = self.ids.len();
        let mut i: usize = 0;
        while i < n
            invariant
                n == self.spec_ids().len(),
                i <= n,
                forall|j: int| 0 <= j < i ==> self.spec_ids()[j] != user_id@,
            decreases n - i,
        {
            if self.ids[i] == *user_id {
                proof {
                    assert(self.spec_ids()[i as int] == user_id@);
                    assert(self.id_set().contains(user_id@));
                }
                return true;
            }
            i = i + 1;
        }
        proof {
            assert(forall|j: int|
                0 <= j < self.spec_ids().len() ==> self.spec_ids()[j] != user_id@);
            assert(!self.id_set().contains(user_id@));
        }
        false
    }

    pub fn is_empty(&self) -> (r: bool)
        ensures
            r == (self.spec_ids().len() == 0),
            r == self.id_set().is_empty(),
    {
        let r = self.ids.is_empty();
        proof {
            if self.spec_ids().len() == 0 {
                assert(self.id_set() =~= Set::<Seq<char>>::empty());
            } else {
                assert(self.id_set().contains(self.spec_ids()[0]));
            }
        }
        r
    }

    /// Registers a user that is not yet registered.
    pub fn insert(&mut self, user_id: String)
        requires
            old(self).wf(),
            !old(self).id_set().contains(user_id@),
        ensures
            final(self).wf(),
            final(self).spec_ids() == old(self).spec_ids().push(user_id@),
            final(self).id_set() == old(self).id_set().insert(user_id@),
    {
        let ghost prev = *self;
        self.ids.push(user_id);
        proof {
            assert(self.spec_ids() =~= prev.spec_ids().push(user_id@));
            assert(forall|j: int|
                0 <= j < prev.spec_ids().len() ==> prev.id_set().contains(
                    #[trigger] prev.spec_ids()[j],
                ));
            assert(self.wf());
            assert(self.id_set() =~= prev.id_set().insert(user_id@));
        }
    }

    /// Drops the registration of `user_id`, if present.
    pub fn remove(&mut self, user_id: &String)
        requires
            old(self).wf(),
        ensures
            final(self).wf(),
            final(self).id_set() == old(self).id_set().remove(user_id@),
    {
        let n = self.ids.len();
        let mut i: usize = 0;
        while i < n
            invariant
                *self == *old(self),
                n == self.spec_ids().len(),
                self.wf(),
                i <= n,
                forall|j: int| 0 <= j < i ==> self.spec_ids()[j] != user_id@,
            decreases n - i,
        {
            if self.ids[i] == *user_id {
                let ghost prev = *self;
                let _ = self.ids.remove(i);
                proof {
                    assert(forall|j: int| #![trigger self.spec_ids()[j]]
                        0 <= j < self.spec_ids().len() ==> self.spec_ids()[j] == (if j < i {
                            prev.spec_ids()[j]
                        } else {
                            prev.spec_ids()[j + 1]
                        }));
                    assert(prev.spec_ids()[i as int] == user_id@);
                    assert forall|j1: int, j2: int|
                        0 <= j1 < j2 < self.spec_ids().len() implies self.spec_ids()[j1]
                        != self.spec_ids()[j2] by {
                        assert(self.spec_ids()[j1] == (if j1 < i {
                            prev.spec_ids()[j1]
                        } else {
                            prev.spec_ids()[j1 + 1]
                        }));
                        assert(self.spec_ids()[j2] == (if j2 < i {
                            prev.spec_ids()[j2]
                        } else {
                            prev.spec_ids()[j2 + 1]
                        }));
                    }
                    assert(self.wf());
                    assert forall|k: Seq<char>| #[trigger] self.id_set().contains(k) implies
                        prev.id_set().remove(user_id@).contains(k) by {
                        let j = choose|j: int|
                            0 <= j < self.spec_ids().len() && self.spec_ids()[j] == k;
                        if j < i {
                            assert(prev.spec_ids()[j] == k);
                            assert(k != user_id@);
                        } else {
                            assert(prev.spec_ids()[j + 1] == k);
                            assert(k != user_id@);
                        }
                        assert(prev.id_set().contains(k));
                    }
                    assert forall|k: Seq<char>| #[trigger]
                        prev.id_set().remove(user_id@).contains(k) implies self.id_set().contains(
                        k,
                    ) by {
                        let j = choose|j: int|
                            0 <= j < prev.spec_ids().len() && prev.spec_ids()[j] == k;
                        assert(j != i);
                        if j < i {
                            assert(self.spec_ids()[j] == k);
                        } else {
                            assert(self.spec_ids()[j - 1] == k);
                        }
                        assert(self.id_set().contains(k));
                    }
                    assert(self.id_set() =~= prev.id_set().remove(user_id@));
                }
                return ;
            }
            i = i + 1;
        }
        proof {
            assert(forall|j: int|
                0 <= j < self.spec_ids().len() ==> self.spec_ids()[j] != user_id@);
            assert(!self.id_set().contains(user_id@));
            assert(self.id_set() =~= self.id_set().remove(user_id@));
        }
    }

    /// The registered ids as an owned list, for snapshot responses.
    pub fn to_vec(&self) -> (r: Vec<String>)
        ensures
            r@.len() == self.spec_ids().len(),
            forall|i: int| 0 <= i < r@.len() ==> r@[i]@ == self.spec_ids()[i],
    {
        let n = self.ids.len();
        let mut r: Vec<String> = Vec::new();
        let mut i: usize = 0;
        while i < n
            invariant
                n == self.spec_ids().len(),
                i <= n,
                r@.len() == i,
                forall|j: int| 0 <= j < i ==> r@[j]@ == self.spec_ids()[j],
            decreases n - i,
        {
            r.push(self.ids[i].clone());
            i = i + 1;
        }
        r
    }
}

} // verus!
