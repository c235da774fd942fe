//! The ids of the grids that the interface has, oldest first.

use vstd::prelude::*;

verus! {

/// The ids of grids, each of them once.
pub struct Grids {
    pub ids: Vec<i64>,
}

/// `ids` without `id`.
pub open spec fn without(ids: Seq<i64>, id: i64) -> Seq<i64> {
    ids.remove(ids.index_of(id))
}

impl Grids {
    /// Tells whether there is a grid `id`.
    pub fn contains(&self, id: i64) -> (found: bool)
        ensures
            found == self.ids@.contains(id),
    {
        let mut i: usize = 0;
        while i < self.ids.len()
            invariant
                i <= self.ids@.len(),
                forall|j: int| 0 <= j < i ==> self.ids@[j] != id,
            decreases self.ids@.len() - i,
        {
            if self.ids[i] == id {
                return true;
            }
            i = i + 1;
        }
        false
    }

    /// Adds the grid `id`, which is not there yet.
    pub fn insert(&mut self, id: i64)
        requires
            !old(self).ids@.contains(id),
        ensures
            final(self).ids@ == old(self).ids@.push(id),
    {
        self.ids.push(id);
    }

    /// Removes the grid `id`, which is there.
    pub fn remove(&mut self, id: i64)
        requires
            old(self).ids@.no_duplicates(),
            old(self).ids@.contains(id),
        ensures
            final(self).ids@ == without(old(self).ids@, id),
    {
        let mut i: usize = 0;
        while self.ids[i] != id
            invariant
                i < self.ids.len(),
                self.ids@ == old(self).ids@,
                self.ids@.contains(id),
                forall|j: int| 0 <= j < i ==> self.ids@[j] != id,
            decreases self.ids@.len() - i,
        {
            i = i + 1;
            proof {
                let at = choose|at: int| 0 <= at < self.ids@.len() && self.ids@[at] == id;
                assert(i <= at);
            }
        }
        assert(self.ids@.index_of(id) == i);
        self.ids.remove(i);
    }
}

/// Removing an id takes out that one and leaves the others, each of them once.
pub proof fn lemma_without(ids: Seq<i64>, id: i64)
    requires
        ids.no_duplicates(),
        ids.contains(id),
    ensures
        without(ids, id).no_duplicates(),
        forall|other: i64| #[trigger]
            without(ids, id).contains(other) <==> ids.contains(other) && other != id,
{
    let at = ids.index_of(id);
    let rest = without(ids, id);
    assert(rest =~= ids.subrange(0, at) + ids.subrange(at + 1, ids.len() as int));
    assert forall|other: i64| #[trigger]
        rest.contains(other) <==> ids.contains(other) && other != id by {
        if rest.contains(other) {
            let i = rest.index_of(other);
            if i < at {
                assert(ids[i] == other);
            } else {
                assert(ids[i + 1] == other);
            }
        }
        if ids.contains(other) && other != id {
            let i = ids.index_of(other);
            if i < at {
                assert(rest[i] == other);
            } else {
                assert(rest[i - 1] == other);
            }
        }
    }
}

/// Adding an id that is not there adds that one, and each id stays there once.
pub proof fn lemma_push(ids: Seq<i64>, id: i64)
    requires
        ids.no_duplicates(),
        !ids.contains(id),
    ensures
        ids.push(id).no_duplicates(),
        forall|other: i64| #[trigger]
            ids.push(id).contains(other) <==> ids.contains(other) || other == id,
{
    let all = ids.push(id);
    assert forall|other: i64| #[trigger] all.contains(other) <==> ids.contains(other) || other
        == id by {
        if ids.contains(other) {
            assert(all[ids.index_of(other)] == other);
        }
        if other == id {
            assert(all[ids.len() as int] == id);
        }
    }
}

} // verus!
