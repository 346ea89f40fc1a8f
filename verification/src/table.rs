use vstd::prelude::*;

verus! {

/// Bookkeeping for outstanding requests: each entry pairs a request id with
/// the single-use completion handle that will release the waiting caller.
///
/// The table denotes the map from ids to handles (its view); entries are
/// kept in registration order and well-formedness says no id occurs twice.
pub struct PendingTable<T> {
    pub entries: Vec<(u64, T)>,
}

/// The map an entry sequence denotes, later entries winning (irrelevant
/// under uniqueness of ids).
pub open spec fn entries_map<T>(s: Seq<(u64, T)>) -> Map<u64, T>
    decreases s.len(),
{
    if s.len() == 0 {
        Map::empty()
    } else {
        entries_map(s.drop_last()).insert(s.last().0, s.last().1)
    }
}

/// No request id occurs twice among the entries.
pub open spec fn unique_ids<T>(s: Seq<(u64, T)>) -> bool {
    forall|i: int, j: int|
        0 <= i < s.len() && 0 <= j < s.len() && i != j ==> s[i].0 != s[j].0
}

/// The denoted map holds an id exactly when some entry carries it.
pub proof fn lemma_entries_map_contains<T>(s: Seq<(u64, T)>, id: u64)
    ensures
        entries_map(s).contains_key(id) <==> exists|i: int| 0 <= i < s.len() && s[i].0 == id,
    decreases s.len(),
{
    if s.len() > 0 {
        lemma_entries_map_contains(s.drop_last(), id);
        if entries_map(s).contains_key(id) {
            if s.last().0 == id {
                assert(s[s.len() - 1].0 == id);
            } else {
                let i = choose|i: int| 0 <= i < s.drop_last().len() && s.drop_last()[i].0 == id;
                assert(s[i].0 == id);
            }
        }
        if exists|i: int| 0 <= i < s.len() && s[i].0 == id {
            let i = choose|i: int| 0 <= i < s.len() && s[i].0 == id;
            if i < s.len() - 1 {
                assert(s.drop_last()[i].0 == id);
            }
        }
    }
}

/// Under unique ids, the denoted map sends each entry's id to its handle.
pub proof fn lemma_entries_map_at<T>(s: Seq<(u64, T)>, i: int)
    requires
        unique_ids(s),
        0 <= i < s.len(),
    ensures
        entries_map(s).contains_key(s[i].0),
        entries_map(s)[s[i].0] == s[i].1,
    decreases s.len(),
{
    if i == s.len() - 1 {
    } else {
        assert(unique_ids(s.drop_last()));
        lemma_entries_map_at(s.drop_last(), i);
        assert(s.drop_last()[i] == s[i]);
        assert(s.last().0 != s[i].0);
    }
}

/// Appending a fresh entry denotes inserting it into the map.
pub proof fn lemma_entries_map_push<T>(s: Seq<(u64, T)>, id: u64, h: T)
    ensures
        entries_map(s.push((id, h))) == entries_map(s).insert(id, h),
{
    assert(s.push((id, h)).drop_last() =~= s);
    assert(s.push((id, h)).last() == (id, h));
}

/// Appending an entry whose id is absent keeps ids unique.
pub proof fn lemma_unique_push<T>(s: Seq<(u64, T)>, id: u64, h: T)
    requires
        unique_ids(s),
        !entries_map(s).contains_key(id),
    ensures
        unique_ids(s.push((id, h))),
{
    lemma_entries_map_contains(s, id);
    let t = s.push((id, h));
    assert forall|i: int, j: int|
        0 <= i < t.len() && 0 <= j < t.len() && i != j implies t[i].0 != t[j].0 by {
        if i < s.len() && j < s.len() {
            assert(s[i].0 != s[j].0);
        } else if i < s.len() {
            assert(s[i].0 != id);
        } else if j < s.len() {
            assert(s[j].0 != id);
        }
    }
}

/// Removing the entry at a position denotes removing its id from the map,
/// and keeps ids unique.
pub proof fn lemma_entries_map_remove<T>(s: Seq<(u64, T)>, i: int)
    requires
        unique_ids(s),
        0 <= i < s.len(),
    ensures
        unique_ids(s.remove(i)),
        entries_map(s.remove(i)) == entries_map(s).remove(s[i].0),
    decreases s.len(),
{
    let t = s.remove(i);
    assert forall|a: int, b: int|
        0 <= a < t.len() && 0 <= b < t.len() && a != b implies t[a].0 != t[b].0 by {
        let a0 = if a < i { a } else { a + 1 };
        let b0 = if b < i { b } else { b + 1 };
        assert(t[a] == s[a0] && t[b] == s[b0]);
        assert(s[a0].0 != s[b0].0);
    }
    if i == s.len() - 1 {
        assert(t =~= s.drop_last());
        lemma_entries_map_contains(s.drop_last(), s[i].0);
        assert(!entries_map(s.drop_last()).contains_key(s[i].0)) by {
            if entries_map(s.drop_last()).contains_key(s[i].0) {
                let j = choose|j: int| 0 <= j < s.drop_last().len() && s.drop_last()[j].0 == s[i].0;
                assert(s[j].0 == s[i].0 && j != i);
            }
        }
        assert(entries_map(s).remove(s[i].0) =~= entries_map(s.drop_last()));
    } else {
        assert(unique_ids(s.drop_last()));
        lemma_entries_map_remove(s.drop_last(), i);
        assert(t.drop_last() =~= s.drop_last().remove(i));
        assert(t.last() == s.last());
        assert(s[i].0 != s.last().0);
        assert(entries_map(t) == entries_map(s.drop_last()).remove(s[i].0).insert(s.last().0, s.last().1));
        assert(entries_map(s.drop_last()).remove(s[i].0).insert(s.last().0, s.last().1)
            =~= entries_map(s.drop_last()).insert(s.last().0, s.last().1).remove(s[i].0));
    }
}

/// Under unique ids, the denoted map has exactly one key per entry.
pub proof fn lemma_entries_map_dom_len<T>(s: Seq<(u64, T)>)
    requires
        unique_ids(s),
    ensures
        entries_map(s).dom().finite(),
        entries_map(s).dom().len() == s.len(),
    decreases s.len(),
{
    broadcast use vstd::set::group_set_axioms;

    if s.len() > 0 {
        assert(unique_ids(s.drop_last()));
        lemma_entries_map_dom_len(s.drop_last());
        lemma_entries_map_contains(s.drop_last(), s.last().0);
        assert(!entries_map(s.drop_last()).contains_key(s.last().0)) by {
            if entries_map(s.drop_last()).contains_key(s.last().0) {
                let j = choose|j: int|
                    0 <= j < s.drop_last().len() && s.drop_last()[j].0 == s.last().0;
                assert(s[j].0 == s[s.len() - 1].0);
            }
        }
        assert(entries_map(s).dom() =~= entries_map(s.drop_last()).dom().insert(s.last().0));
    }
}

impl<T> View for PendingTable<T> {
    type V = Map<u64, T>;

    open spec fn view(&self) -> Map<u64, T> {
        entries_map(self.entries@)
    }
}

impl<T> PendingTable<T> {
    /// At most one entry per id.
    pub open spec fn wf(self) -> bool {
        unique_ids(self.entries@)
    }

    /// An empty table.
    pub fn new() -> (t: Self)
        ensures
            t.wf(),
            t@ == Map::<u64, T>::empty(),
            t.entries@.len() == 0,
    {
        PendingTable { entries: Vec::new() }
    }

    pub fn len(&self) -> (n: usize)
        ensures
            n == self.entries@.len(),
    {
        self.entries.len()
    }

    /// Whether an entry for this id is pending.
    pub fn contains(&self, id: u64) -> (b: bool)
        requires
            self.wf(),
        ensures
            b == self@.contains_key(id),
    {
        let mut i: usize = 0;
        while i < self.entries.len()
            invariant
                self.wf(),
                0 <= i <= self.entries@.len(),
                forall|j: int| 0 <= j < i ==> self.entries@[j].0 != id,
            decreases self.entries@.len() - i,
        {
            if self.entries[i].0 == id {
                proof {
                    lemma_entries_map_at(self.entries@, i as int);
                }
                return true;
            }
            i += 1;
        }
        proof {
            lemma_entries_map_contains(self.entries@, id);
        }
        false
    }

    /// Inserts a new entry. The id must be fresh: the allocator's
    /// uniqueness guarantee makes a collision a programmer error.
    pub fn register(&mut self, id: u64, handle: T)
        requires
            old(self).wf(),
            !old(self)@.contains_key(id),
        ensures
            final(self).wf(),
            final(self)@ == old(self)@.insert(id, handle),
            final(self).entries@ == old(self).entries@.push((id, handle)),
    {
        proof {
            lemma_unique_push(self.entries@, id, handle);
            lemma_entries_map_push(self.entries@, id, handle);
        }
        self.entries.push((id, handle));
    }

    /// If an entry for `id` exists, removes it and returns its handle, to
    /// be fulfilled by the caller; a stray or duplicate id returns `None`
    /// and changes nothing. No other entry is ever touched.
    pub fn resolve(&mut self, id: u64) -> (r: Option<T>)
        requires
            old(self).wf(),
        ensures
            final(self).wf(),
            old(self)@.contains_key(id) ==> r == Some(old(self)@[id]),
            !old(self)@.contains_key(id) ==> r is None && final(self)@ == old(self)@,
            final(self)@ == old(self)@.remove(id),
    {
        let ghost s0 = self.entries@;
        let mut i: usize = 0;
        while i < self.entries.len()
            invariant
                s0 == old(self).entries@,
                unique_ids(s0),
                self.entries@ == s0,
                0 <= i <= s0.len(),
                forall|j: int| 0 <= j < i ==> s0[j].0 != id,
            decreases s0.len() - i,
        {
            if self.entries[i].0 == id {
                proof {
                    lemma_entries_map_at(s0, i as int);
                    lemma_entries_map_remove(s0, i as int);
                }
                let entry = self.entries.remove(i);
                return Some(entry.1);
            }
            i += 1;
        }
        proof {
            lemma_entries_map_contains(s0, id);
            assert(entries_map(s0).remove(id) =~= entries_map(s0));
        }
        None
    }

    /// Atomically empties the table and returns every handle, in
    /// registration order, each to be fulfilled as connection-closed.
    /// On an already-empty table this returns an empty list and is safe
    /// to call again.
    pub fn drain_all(&mut self) -> (r: Vec<T>)
        requires
            old(self).wf(),
        ensures
            final(self).wf(),
            final(self)@ == Map::<u64, T>::empty(),
            final(self).entries@.len() == 0,
            r@.len() == old(self).entries@.len(),
            r@.len() == old(self)@.dom().len(),
            forall|j: int| 0 <= j < r@.len() ==> r@[j] == old(self).entries@[j].1,
            forall|id: u64| #[trigger] old(self)@.contains_key(id) ==> r@.contains(old(self)@[id]),
    {
        let ghost s0 = self.entries@;
        proof {
            lemma_entries_map_dom_len(s0);
        }
        let mut out: Vec<T> = Vec::new();
        while self.entries.len() > 0
            invariant
                s0 == old(self).entries@,
                out@.len() + self.entries@.len() == s0.len(),
                forall|j: int| 0 <= j < out@.len() ==> out@[j] == s0[j].1,
                forall|j: int| 0 <= j < self.entries@.len()
                    ==> self.entries@[j] == s0[out@.len() + j],
            decreases self.entries@.len(),
        {
            let entry = self.entries.remove(0);
            out.push(entry.1);
        }
        proof {
            assert(self.entries@.len() == 0);
            assert(entries_map(self.entries@) =~= Map::<u64, T>::empty());
            assert forall|id: u64| #[trigger] entries_map(s0).contains_key(id)
                implies out@.contains(entries_map(s0)[id]) by {
                lemma_entries_map_contains(s0, id);
                let i = choose|i: int| 0 <= i < s0.len() && s0[i].0 == id;
                lemma_entries_map_at(s0, i);
                assert(out@[i] == s0[i].1);
            }
        }
        out
    }
}

/// The map left after resolving a sequence of response ids, in order.
pub open spec fn resolve_all<T>(m: Map<u64, T>, ids: Seq<u64>) -> Map<u64, T>
    decreases ids.len(),
{
    if ids.len() == 0 {
        m
    } else {
        resolve_all(m.remove(ids[0]), ids.drop_first())
    }
}

/// Correlation is exact whatever the arrival order: however many other
/// responses are resolved first, and in whatever order, the entry for a
/// call's own id still holds the very handle that was registered for it,
/// so that caller — and no other — receives the matching response.
pub proof fn lemma_correlation<T>(m: Map<u64, T>, ids: Seq<u64>, k: u64)
    requires
        !ids.contains(k),
    ensures
        resolve_all(m, ids).contains_key(k) == m.contains_key(k),
        m.contains_key(k) ==> resolve_all(m, ids)[k] == m[k],
    decreases ids.len(),
{
    if ids.len() > 0 {
        assert(ids[0] != k);
        assert(!ids.drop_first().contains(k)) by {
            if ids.drop_first().contains(k) {
                let i = choose|i: int|
                    0 <= i < ids.drop_first().len() && ids.drop_first()[i] == k;
                assert(ids[i + 1] == k);
            }
        }
        lemma_correlation(m.remove(ids[0]), ids.drop_first(), k);
    }
}

} // verus!
