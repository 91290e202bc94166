use vstd::prelude::*;

use crate::identity::Identity;

verus! {

/// The value stored under `id` in a list of entries, looking from the back.
pub open spec fn entry_lookup<V>(s: Seq<(Identity, V)>, id: Identity) -> Option<V>
    decreases s.len(),
{
    if s.len() == 0 {
        None
    } else if s.last().0 == id {
        Some(s.last().1)
    } else {
        entry_lookup(s.drop_last(), id)
    }
}

/// No two entries share a key.
pub open spec fn keys_unique<V>(s: Seq<(Identity, V)>) -> bool {
    forall|i: int, j: int|
        0 <= i < s.len() && 0 <= j < s.len() && #[trigger] s[i].0 == #[trigger] s[j].0 ==> i == j
}

/// The map that a list of entries stands for.
pub open spec fn entries_map<V>(s: Seq<(Identity, V)>) -> Map<Identity, V> {
    Map::new(|id: Identity| entry_lookup(s, id) is Some, |id: Identity| entry_lookup(s, id).unwrap())
}

proof fn lemma_lookup_absent<V>(s: Seq<(Identity, V)>, id: Identity)
    requires
        forall|i: int| 0 <= i < s.len() ==> #[trigger] s[i].0 != id,
    ensures
        entry_lookup(s, id) is None,
    decreases s.len(),
{
    if s.len() > 0 {
        let t = s.drop_last();
        assert forall|i: int| 0 <= i < t.len() implies #[trigger] t[i].0 != id by {
            assert(t[i] == s[i]);
        }
        lemma_lookup_absent(t, id);
    }
}

proof fn lemma_lookup_at<V>(s: Seq<(Identity, V)>, i: int)
    requires
        keys_unique(s),
        0 <= i < s.len(),
    ensures
        entry_lookup(s, s[i].0) == Some(s[i].1),
    decreases s.len(),
{
    if i != s.len() - 1 {
        let t = s.drop_last();
        assert(s[s.len() - 1].0 != s[i].0);
        assert forall|a: int, b: int|
            0 <= a < t.len() && 0 <= b < t.len() && #[trigger] t[a].0 == #[trigger] t[b].0 implies a == b by {
            assert(t[a] == s[a] && t[b] == s[b]);
        }
        assert(t[i] == s[i]);
        lemma_lookup_at(t, i);
    }
}

/// What the map of a list with unique keys holds under `id`.
proof fn lemma_map_entry<V>(s: Seq<(Identity, V)>, id: Identity)
    requires
        keys_unique(s),
    ensures
        (exists|i: int| 0 <= i < s.len() && s[i].0 == id) == entries_map(s).contains_key(id),
        forall|i: int| 0 <= i < s.len() && #[trigger] s[i].0 == id ==> entries_map(s)[id] == s[i].1,
{
    if exists|i: int| 0 <= i < s.len() && s[i].0 == id {
        let i = choose|i: int| 0 <= i < s.len() && s[i].0 == id;
        lemma_lookup_at(s, i);
    } else {
        lemma_lookup_absent(s, id);
    }
    assert forall|i: int| 0 <= i < s.len() && #[trigger] s[i].0 == id implies entries_map(s)[id] == s[i].1 by {
        lemma_lookup_at(s, i);
    }
}

/// `s1` is `s0` with `(id, v)` written at `pos`, either over the entry
/// for `id` or appended at the end.
proof fn lemma_store_view<V>(s0: Seq<(Identity, V)>, s1: Seq<(Identity, V)>, id: Identity, v: V, pos: int)
    requires
        keys_unique(s0),
        0 <= pos <= s0.len(),
        pos < s0.len() ==> s0[pos].0 == id && s1 == s0.update(pos, (id, v)),
        pos == s0.len() ==> (forall|j: int| 0 <= j < s0.len() ==> #[trigger] s0[j].0 != id) && s1 == s0.push(
            (id, v),
        ),
    ensures
        keys_unique(s1),
        entries_map(s1) == entries_map(s0).insert(id, v),
{
    assert forall|j: int| 0 <= j < s1.len() && j != pos implies j < s0.len() && #[trigger] s1[j] == s0[j] by {}
    assert(s1[pos] == (id, v));
    assert forall|a: int, b: int|
        0 <= a < s1.len() && 0 <= b < s1.len() && #[trigger] s1[a].0 == #[trigger] s1[b].0 implies a == b by {
        if a != pos && b != pos {
            assert(s0[a].0 == s0[b].0);
        } else if a != pos {
            assert(s0[a].0 == id);
        } else if b != pos {
            assert(s0[b].0 == id);
        }
    }
    assert forall|k: Identity|
        #[trigger] entries_map(s1).contains_key(k) == entries_map(s0).insert(id, v).contains_key(k) && (
        entries_map(s1).contains_key(k) ==> entries_map(s1)[k] == entries_map(s0).insert(id, v)[k]) by {
        lemma_map_entry(s0, k);
        lemma_map_entry(s1, k);
        if k != id {
            if exists|j: int| 0 <= j < s0.len() && s0[j].0 == k {
                let j = choose|j: int| 0 <= j < s0.len() && s0[j].0 == k;
                assert(s1[j] == s0[j]);
            } else {
                assert forall|j: int| 0 <= j < s1.len() implies #[trigger] s1[j].0 != k by {
                    if j != pos {
                        assert(s1[j] == s0[j]);
                    }
                }
            }
        }
    }
    assert(entries_map(s1) =~= entries_map(s0).insert(id, v));
}

/// A table of values keyed by identity, at most one entry per key.
pub struct IdTable<V> {
    entries: Vec<(Identity, V)>,
}

impl<V> View for IdTable<V> {
    type V = Map<Identity, V>;

    closed spec fn view(&self) -> Map<Identity, V> {
        entries_map(self.entries@)
    }
}

impl<V: Copy> IdTable<V> {
    /// The table's internal invariant: keys are unique.
    pub closed spec fn wf(&self) -> bool {
        keys_unique(self.entries@)
    }

    /// An empty table.
    pub fn new() -> (r: Self)
        ensures
            r.wf(),
            r@ == Map::<Identity, V>::empty(),
    {
        let r = IdTable { entries: Vec::new() };
        assert(r@ =~= Map::<Identity, V>::empty());
        r
    }

    fn position(&self, id: &Identity) -> (r: Option<usize>)
        ensures
            match r {
                Some(i) => i < self.entries@.len() && self.entries@[i as int].0 == *id,
                None => forall|k: int| 0 <= k < self.entries@.len() ==> #[trigger] self.entries@[k].0 != *id,
            },
    {
        let mut i: usize = 0;
        while i < self.entries.len()
            invariant
                0 <= i <= self.entries@.len(),
                forall|k: int| 0 <= k < i ==> #[trigger] self.entries@[k].0 != *id,
            decreases self.entries@.len() - i,
        {
            if self.entries[i].0.same_as(id) {
                return Some(i);
            }
            i = i + 1;
        }
        None
    }

    /// The value stored under `id`, if any.
    pub fn get(&self, id: &Identity) -> (r: Option<V>)
        requires
            self.wf(),
        ensures
            r == (if self@.contains_key(*id) { Some(self@[*id]) } else { None::<V> }),
    {
        proof {
            lemma_map_entry(self.entries@, *id);
        }
        match self.position(id) {
            Some(i) => Some(self.entries[i].1),
            None => None,
        }
    }

    /// Stores `v` under `id`, replacing what was there.
    pub fn set(&mut self, id: Identity, v: V)
        requires
            old(self).wf(),
        ensures
            final(self).wf(),
            final(self)@ == old(self)@.insert(id, v),
    {
        let ghost s0 = self.entries@;
        match self.position(&id) {
            Some(i) => {
                self.entries.set(i, (id, v));
                proof {
                    lemma_store_view(s0, self.entries@, id, v, i as int);
                }
            },
            None => {
                self.entries.push((id, v));
                proof {
                    lemma_store_view(s0, self.entries@, id, v, s0.len() as int);
                }
            },
        }
    }

    /// Removes the entry under `id`, if there is one.
    pub fn remove(&mut self, id: &Identity)
        requires
            old(self).wf(),
        ensures
            final(self).wf(),
            final(self)@ == old(self)@.remove(*id),
    {
        let ghost s0 = self.entries@;
        match self.position(id) {
            Some(i) => {
                let _ = self.entries.swap_remove(i);
                let ghost s1 = self.entries@;
                let ghost n = s0.len() - 1;
                assert forall|j: int| 0 <= j < s1.len() implies #[trigger] s1[j] == (if j == i { s0[n] } else { s0[j] }) by {}
                assert forall|a: int, b: int|
                    0 <= a < s1.len() && 0 <= b < s1.len() && #[trigger] s1[a].0 == #[trigger] s1[b].0 implies a == b by {}
                assert forall|k: Identity|
                    #[trigger] entries_map(s1).contains_key(k) == entries_map(s0).remove(*id).contains_key(k)
                    && (entries_map(s1).contains_key(k) ==> entries_map(s1)[k] == entries_map(s0).remove(*id)[k]) by {
                    lemma_map_entry(s0, k);
                    lemma_map_entry(s1, k);
                    if k == *id {
                        assert forall|j: int| 0 <= j < s1.len() implies #[trigger] s1[j].0 != k by {
                            if j == i {
                                assert(s0[n].0 != s0[i as int].0 || n == i);
                            }
                        }
                    } else if exists|j: int| 0 <= j < s0.len() && s0[j].0 == k {
                        let j = choose|j: int| 0 <= j < s0.len() && s0[j].0 == k;
                        if j == n {
                            assert(s1[i as int] == s0[j]);
                        } else {
                            assert(s1[j] == s0[j]);
                        }
                    } else {
                        assert forall|j: int| 0 <= j < s1.len() implies #[trigger] s1[j].0 != k by {}
                    }
                }
                assert(entries_map(s1) =~= entries_map(s0).remove(*id));
            },
            None => {
                proof {
                    lemma_map_entry(s0, *id);
                }
                assert(entries_map(s0) =~= entries_map(s0).remove(*id));
            },
        }
    }

    /// A copy of the table, entry for entry.
    pub fn duplicate(&self) -> (r: Self)
        requires
            self.wf(),
        ensures
            r.wf(),
            r@ == self@,
    {
        let mut entries: Vec<(Identity, V)> = Vec::new();
        let mut i: usize = 0;
        while i < self.entries.len()
            invariant
                0 <= i <= self.entries@.len(),
                entries@ == self.entries@.subrange(0, i as int),
            decreases self.entries@.len() - i,
        {
            entries.push(self.entries[i]);
            i = i + 1;
        }
        assert(entries@ =~= self.entries@);
        IdTable { entries }
    }
}

} // verus!
