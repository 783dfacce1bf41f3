//! The set of selected message ids.

use vstd::prelude::*;

verus! {

/// Whether a sequence of ids holds the given id.
pub open spec fn has_id(s: Seq<i64>, id: i64) -> bool {
    exists|i: int| 0 <= i < s.len() && s[i] == id
}

/// The entries of a sequence of ids that differ from the given id.
spec fn without_id(s: Seq<i64>, id: i64) -> Seq<i64>
    decreases s.len(),
{
    if s.len() == 0 {
        Seq::empty()
    } else if s.last() == id {
        without_id(s.drop_last(), id)
    } else {
        without_id(s.drop_last(), id).push(s.last())
    }
}

proof fn lemma_without_id(s: Seq<i64>, id: i64, x: i64)
    ensures
        !has_id(without_id(s, id), id),
        x != id ==> has_id(without_id(s, id), x) == has_id(s, x),
    decreases s.len(),
{
    if s.len() > 0 {
        lemma_without_id(s.drop_last(), id, x);
        let w = without_id(s.drop_last(), id);
        if s.last() != id {
            assert forall|j: int| 0 <= j < w.push(s.last()).len() implies w.push(s.last())[j]
                != id by {
                if j < w.len() {
                    assert(w.push(s.last())[j] == w[j]);
                }
            }
            if x != id {
                if has_id(s, x) {
                    let i = choose|i: int| 0 <= i < s.len() && s[i] == x;
                    if i < s.len() - 1 {
                        assert(s.drop_last()[i] == x);
                        let k = choose|k: int| 0 <= k < w.len() && w[k] == x;
                        assert(w.push(s.last())[k] == x);
                    } else {
                        assert(w.push(s.last())[w.len() as int] == x);
                    }
                }
                if has_id(w.push(s.last()), x) {
                    let k = choose|k: int| 0 <= k < w.push(s.last()).len() && w.push(s.last())[k]
                        == x;
                    if k < w.len() {
                        assert(w[k] == x);
                        let i = choose|i: int| 0 <= i < s.drop_last().len() && s.drop_last()[i]
                            == x;
                        assert(s[i] == x);
                    } else {
                        assert(s.last() == x);
                        assert(s[s.len() - 1] == x);
                    }
                }
            }
        } else {
            if x != id && has_id(s, x) {
                let i = choose|i: int| 0 <= i < s.len() && s[i] == x;
                assert(i < s.len() - 1);
                assert(s.drop_last()[i] == x);
            }
            if x != id && has_id(w, x) {
                let i = choose|i: int| 0 <= i < s.drop_last().len() && s.drop_last()[i] == x;
                assert(s[i] == x);
            }
        }
    }
}

/// Every member of the filtered sequence is a member of the original.
proof fn lemma_without_id_members(s: Seq<i64>, id: i64)
    ensures
        forall|j: int|
            0 <= j < without_id(s, id).len() ==> has_id(s, #[trigger] without_id(s, id)[j]),
    decreases s.len(),
{
    if s.len() > 0 {
        let dl = s.drop_last();
        lemma_without_id_members(dl, id);
        let w = without_id(dl, id);
        assert forall|j: int|
            0 <= j < without_id(s, id).len() implies has_id(
            s,
            #[trigger] without_id(s, id)[j],
        ) by {
            if s.last() != id && j == w.len() {
                assert(without_id(s, id)[j] == s.last());
                assert(s[s.len() - 1] == s.last());
            } else {
                assert(without_id(s, id)[j] == w[j]);
                assert(has_id(dl, w[j]));
                let m = choose|m: int| 0 <= m < dl.len() && dl[m] == w[j];
                assert(s[m] == w[j]);
            }
        }
    }
}

/// Filtering keeps distinct entries distinct.
proof fn lemma_without_id_unique(s: Seq<i64>, id: i64)
    requires
        forall|i: int, j: int| 0 <= i < j < s.len() ==> s[i] != s[j],
    ensures
        forall|i: int, j: int|
            0 <= i < j < without_id(s, id).len() ==> without_id(s, id)[i] != without_id(s, id)[j],
    decreases s.len(),
{
    if s.len() > 0 {
        let dl = s.drop_last();
        assert forall|i: int, j: int| 0 <= i < j < dl.len() implies dl[i] != dl[j] by {
            assert(dl[i] == s[i] && dl[j] == s[j]);
        }
        lemma_without_id_unique(dl, id);
        lemma_without_id_members(dl, id);
        let w = without_id(dl, id);
        if s.last() != id {
            assert forall|i: int, j: int|
                0 <= i < j < without_id(s, id).len() implies without_id(s, id)[i] != without_id(
                s,
                id,
            )[j] by {
                if j < w.len() {
                    assert(without_id(s, id)[i] == w[i] && without_id(s, id)[j] == w[j]);
                } else {
                    assert(without_id(s, id)[j] == s.last());
                    assert(without_id(s, id)[i] == w[i]);
                    assert(has_id(dl, w[i]));
                    let m = choose|m: int| 0 <= m < dl.len() && dl[m] == w[i];
                    assert(s[m] == w[i]);
                    assert(s[m] != s[s.len() - 1]);
                }
            }
        }
    }
}

/// The set of selected message ids.
#[derive(Debug, Clone)]
pub struct SelectionSet {
    ids: Vec<i64>,
}

impl SelectionSet {
    /// Whether an id is selected.
    pub closed spec fn has(self, id: i64) -> bool {
        has_id(self.ids@, id)
    }

    /// How many ids the set stores.
    pub closed spec fn stored(self) -> nat {
        self.ids@.len()
    }

    /// No id is stored twice.
    pub closed spec fn wf(self) -> bool {
        forall|i: int, j: int| 0 <= i < j < self.ids@.len() ==> self.ids@[i] != self.ids@[j]
    }

    /// An empty selection.
    pub fn new() -> (r: Self)
        ensures
            r.wf(),
            forall|x: i64| !r.has(x),
            r.stored() == 0,
    {
        SelectionSet { ids: Vec::new() }
    }

    /// Whether an id is selected.
    pub fn contains(&self, id: i64) -> (r: bool)
        ensures
            r == self.has(id),
    {
        let mut i: usize = 0;
        while i < self.ids.len()
            invariant
                i <= self.ids@.len(),
                forall|j: int| 0 <= j < i ==> self.ids@[j] != id,
            decreases self.ids@.len() - i,
        {
            if self.ids[i] == id {
                return true;
            }
            i = i + 1;
        }
        false
    }

    /// Select an id; selecting an already selected id changes nothing.
    pub fn insert(&mut self, id: i64)
        requires
            old(self).wf(),
        ensures
            final(self).wf(),
            final(self).has(id),
            forall|x: i64| x != id ==> final(self).has(x) == old(self).has(x),
            old(self).has(id) ==> final(self).stored() == old(self).stored(),
            !old(self).has(id) ==> final(self).stored() == old(self).stored() + 1,
    {
        if !self.contains(id) {
            self.ids.push(id);
            proof {
                assert(self.ids@[self.ids@.len() - 1] == id);
                assert forall|x: i64| x != id && old(self).has(x) implies final(self).has(x) by {
                    let i = choose|i: int|
                        0 <= i < old(self).ids@.len() && old(self).ids@[i] == x;
                    assert(self.ids@[i] == x);
                }
                assert forall|x: i64| x != id && final(self).has(x) implies old(self).has(x) by {
                    let i = choose|i: int| 0 <= i < self.ids@.len() && self.ids@[i] == x;
                    assert(i < old(self).ids@.len());
                    assert(old(self).ids@[i] == x);
                }
            }
        }
    }

    /// Deselect an id; deselecting an unselected id changes nothing.
    pub fn remove(&mut self, id: i64)
        requires
            old(self).wf(),
        ensures
            final(self).wf(),
            !final(self).has(id),
            forall|x: i64| x != id ==> final(self).has(x) == old(self).has(x),
    {
        let mut acc: Vec<i64> = Vec::new();
        let mut i: usize = 0;
        let ghost orig = self.ids@;
        #[verifier::loop_isolation(false)]
        while i < self.ids.len()
            invariant
                i <= orig.len(),
                acc@ =~= without_id(orig.take(i as int), id),
            decreases orig.len() - i,
        {
            let v = self.ids[i];
            proof {
                assert(orig.take(i + 1).last() == orig[i as int]);
                assert(orig.take(i + 1).drop_last() =~= orig.take(i as int));
            }
            if v != id {
                acc.push(v);
            }
            i = i + 1;
        }
        proof {
            assert(orig.take(orig.len() as int) =~= orig);
        }
        let ghost fin = acc@;
        self.ids = acc;
        proof {
            assert(fin =~= without_id(orig, id));
            lemma_without_id(orig, id, id);
            lemma_without_id_unique(orig, id);
            assert forall|x: i64| x != id implies has_id(fin, x) == has_id(orig, x) by {
                lemma_without_id(orig, id, x);
            }
        }
    }

    /// Clear the selection.
    pub fn clear(&mut self)
        ensures
            final(self).wf(),
            forall|x: i64| !final(self).has(x),
            final(self).stored() == 0,
    {
        self.ids.clear();
    }

    /// Whether nothing is selected.
    pub fn is_empty(&self) -> (r: bool)
        ensures
            r == (self.stored() == 0),
            r ==> forall|x: i64| !self.has(x),
    {
        self.ids.len() == 0
    }

    /// The number of selected ids.
    pub fn len(&self) -> (r: usize)
        ensures
            r == self.stored(),
    {
        self.ids.len()
    }
}

impl Default for SelectionSet {
    /// An empty selection, as `new` builds it.
    fn default() -> (r: Self)
        ensures
            r.wf(),
            forall|x: i64| !r.has(x),
            r.stored() == 0,
    {
        SelectionSet::new()
    }
}

} // verus!
