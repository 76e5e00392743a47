//! Operations on figure-id sets.
//!
//! Requested, accepted and rejected figure ids travel as `BTreeSet<usize>`
//! values, as does each user's selection. These helpers build the set
//! combinations the reconcilers need and state them over the sets' views.

use std::collections::BTreeMap;
use std::collections::BTreeSet;
use vstd::prelude::*;
use vstd::std_specs::btree::spec_btree_keys_iter;
use vstd::std_specs::iter::IteratorSpec;

use crate::figure::FigureData;

verus! {

broadcast use vstd::prelude::Seq::lemma_push_to_set_commute;

/// All ids of `a` together with all ids of `b`.
#[verifier::loop_isolation(false)]
pub fn set_union(a: &BTreeSet<usize>, b: &BTreeSet<usize>) -> (r: BTreeSet<usize>)
    ensures
        r@ == a@.union(b@),
{
    let mut r = a.clone();
    proof {
        let s = spec_btree_keys_iter(b).remaining().unref();
        assert(s.take(0).to_set() =~= Set::<usize>::empty());
        assert(a@.union(s.take(0).to_set()) =~= a@);
    }
    for id in it: b.iter()
        invariant
            r@ == a@.union(it.seq().unref().take(it.index() as int).to_set()),
    {
        proof {
            let s = it.seq().unref();
            let k = it.index();
            assert(s.take(k + 1) =~= s.take(k).push(s[k]));
            assert(s.take(k + 1).to_set() =~= s.take(k).to_set().insert(*id));
        }
        r.insert(*id);
        proof {
            assert(r@ =~= a@.union(it.seq().unref().take(it.index() + 1).to_set()));
        }
    }
    proof {
        let s = spec_btree_keys_iter(b).remaining().unref();
        assert(s.take(s.len() as int) =~= s);
        assert(r@ =~= a@.union(b@));
    }
    r
}

/// The ids of `a` that are not in `b`.
#[verifier::loop_isolation(false)]
pub fn set_difference(a: &BTreeSet<usize>, b: &BTreeSet<usize>) -> (r: BTreeSet<usize>)
    ensures
        r@ == a@.difference(b@),
{
    let mut r = a.clone();
    proof {
        let s = spec_btree_keys_iter(b).remaining().unref();
        assert(s.take(0).to_set() =~= Set::<usize>::empty());
        assert(a@.difference(s.take(0).to_set()) =~= a@);
    }
    for id in it: b.iter()
        invariant
            r@ == a@.difference(it.seq().unref().take(it.index() as int).to_set()),
    {
        proof {
            let s = it.seq().unref();
            let k = it.index();
            assert(s.take(k + 1) =~= s.take(k).push(s[k]));
            assert(s.take(k + 1).to_set() =~= s.take(k).to_set().insert(*id));
        }
        r.remove(id);
        proof {
            assert(r@ =~= a@.difference(it.seq().unref().take(it.index() + 1).to_set()));
        }
    }
    proof {
        let s = spec_btree_keys_iter(b).remaining().unref();
        assert(s.take(s.len() as int) =~= s);
        assert(r@ =~= a@.difference(b@));
    }
    r
}

/// Splits requested ids by existence: the accepted part is exactly the
/// requested ids that are keys of `figures`, the rejected part the rest.
#[verifier::loop_isolation(false)]
pub fn partition_by_existence(figures: &BTreeMap<usize, FigureData>, ids: &BTreeSet<usize>) -> (r:
    (BTreeSet<usize>, BTreeSet<usize>))
    ensures
        r.0@ == ids@.intersect(figures@.dom()),
        r.1@ == ids@.difference(figures@.dom()),
{
    let mut accepted: BTreeSet<usize> = BTreeSet::new();
    let mut rejected: BTreeSet<usize> = BTreeSet::new();
    proof {
        let s = spec_btree_keys_iter(ids).remaining().unref();
        assert(s.take(0).to_set() =~= Set::<usize>::empty());
        assert(s.take(0).to_set().intersect(figures@.dom()) =~= Set::<usize>::empty());
        assert(s.take(0).to_set().difference(figures@.dom()) =~= Set::<usize>::empty());
    }
    for id in it: ids.iter()
        invariant
            accepted@ == it.seq().unref().take(it.index() as int).to_set().intersect(
                figures@.dom(),
            ),
            rejected@ == it.seq().unref().take(it.index() as int).to_set().difference(
                figures@.dom(),
            ),
    {
        proof {
            let s = it.seq().unref();
            let k = it.index();
            assert(s.take(k + 1) =~= s.take(k).push(s[k]));
            assert(s.take(k + 1).to_set() =~= s.take(k).to_set().insert(*id));
        }
        if figures.contains_key(id) {
            accepted.insert(*id);
        } else {
            rejected.insert(*id);
        }
        proof {
            let s = it.seq().unref();
            let k = it.index();
            assert(accepted@ =~= s.take(k + 1).to_set().intersect(figures@.dom()));
            assert(rejected@ =~= s.take(k + 1).to_set().difference(figures@.dom()));
        }
    }
    proof {
        let s = spec_btree_keys_iter(ids).remaining().unref();
        assert(s.take(s.len() as int) =~= s);
        assert(accepted@ =~= ids@.intersect(figures@.dom()));
        assert(rejected@ =~= ids@.difference(figures@.dom()));
    }
    (accepted, rejected)
}

} // verus!
