//! A finite map kept as a vector of entries with distinct keys.
//!
//! Every stored collection of the DAO (members, projects, tasks, stakes,
//! tokens, partner DAOs) is a `Table`; its view is a `Map` from keys to
//! the views of the stored records.
use vstd::prelude::*;

verus! {

/// Keys that can be compared for equality at run time.
pub trait TableKey: Copy {
    fn same_key(&self, other: &Self) -> (same: bool)
        ensures
            same == (*self == *other),
    ;
}

impl TableKey for u16 {
    fn same_key(&self, other: &u16) -> (same: bool) {
        *self == *other
    }
}

impl TableKey for crate::account::AccountId {
    fn same_key(&self, other: &crate::account::AccountId) -> (same: bool) {
        *self == *other
    }
}

/// Records that can be duplicated with their view kept.
pub trait Record: View + Sized {
    fn duplicate(&self) -> (copy: Self)
        ensures
            copy@ == self@,
    ;
}

/// The values of `m` under the keys `0 .. n`, in increasing key order,
/// skipping absent keys.
pub open spec fn listed<V>(m: Map<u16, V>, n: nat) -> Seq<V>
    decreases n,
{
    if n == 0 {
        Seq::empty()
    } else {
        let k = (n - 1) as u16;
        listed(m, (n - 1) as nat) + if m.contains_key(k) {
            seq![m[k]]
        } else {
            Seq::empty()
        }
    }
}

/// Every value stored under a key below `n` is listed.
pub proof fn lemma_listed_has<V>(m: Map<u16, V>, n: nat, k: u16)
    requires
        m.contains_key(k),
        k < n,
    ensures
        listed(m, n).contains(m[k]),
    decreases n,
{
    let last = (n - 1) as u16;
    if k == last {
        assert(listed(m, n)[listed(m, (n - 1) as nat).len() as int] == m[k]);
    } else {
        lemma_listed_has(m, (n - 1) as nat, k);
        let prefix = listed(m, (n - 1) as nat);
        let i = choose|i: int| 0 <= i < prefix.len() && #[trigger] prefix[i] == m[k];
        assert(listed(m, n)[i] == m[k]);
    }
}

/// Where every key below `n` is present, the list holds exactly the values
/// under `0 .. n`, the one under key `i` at position `i`.
pub proof fn lemma_listed_full<V>(m: Map<u16, V>, n: nat)
    requires
        n <= 0x10000,
        forall|k: u16| k < n ==> #[trigger] m.contains_key(k),
    ensures
        listed(m, n).len() == n,
        forall|i: int| 0 <= i < n ==> #[trigger] listed(m, n)[i] == m[i as u16],
    decreases n,
{
    if n > 0 {
        lemma_listed_full(m, (n - 1) as nat);
        let k = (n - 1) as u16;
        assert(m.contains_key(k));
    }
}

impl Record for u64 {
    fn duplicate(&self) -> (copy: u64) {
        *self
    }
}

/// A map from keys to records, held as entries with pairwise distinct keys.
pub struct Table<K, V> {
    entries: Vec<(K, V)>,
}

impl<K, V> Table<K, V> {
    #[verifier::type_invariant]
    spec fn keys_distinct(self) -> bool {
        forall|i: int, j: int|
            0 <= i < j < self.entries@.len() ==> #[trigger] self.entries@[i].0
                != #[trigger] self.entries@[j].0
    }

    spec fn holds_at(self, k: K, i: int) -> bool {
        0 <= i < self.entries@.len() && self.entries@[i].0 == k
    }

    spec fn holds(self, k: K) -> bool {
        exists|i: int| self.holds_at(k, i)
    }
}

impl<K, V: View> View for Table<K, V> {
    type V = Map<K, V::V>;

    closed spec fn view(&self) -> Map<K, V::V> {
        Map::new(
            |k: K| self.holds(k),
            |k: K| self.entries@[choose|i: int| self.holds_at(k, i)].1@,
        )
    }
}

impl<K: TableKey, V: Record> Table<K, V> {
    proof fn lemma_entry(self, i: int)
        requires
            self.keys_distinct(),
            0 <= i < self.entries@.len(),
        ensures
            self@.contains_key(self.entries@[i].0),
            self@[self.entries@[i].0] == self.entries@[i].1@,
    {
        let k = self.entries@[i].0;
        assert(self.holds_at(k, i));
        let j = choose|j: int| self.holds_at(k, j);
        if j != i {
            if j < i {
                assert(self.entries@[j].0 != self.entries@[i].0);
            } else {
                assert(self.entries@[i].0 != self.entries@[j].0);
            }
        }
    }

    /// An empty table.
    pub fn new() -> (t: Self)
        ensures
            t@ == Map::<K, V::V>::empty(),
    {
        let t = Table { entries: Vec::new() };
        assert(t@ =~= Map::<K, V::V>::empty());
        t
    }

    fn find(&self, k: &K) -> (found: Option<usize>)
        ensures
            match found {
                Some(i) => self.holds_at(*k, i as int),
                None => !self.holds(*k),
            },
    {
        let mut i: usize = 0;
        while i < self.entries.len()
            invariant
                0 <= i <= self.entries@.len(),
                forall|j: int| 0 <= j < i ==> self.entries@[j].0 != *k,
            decreases self.entries@.len() - i,
        {
            if self.entries[i].0.same_key(k) {
                return Some(i);
            }
            i = i + 1;
        }
        None
    }

    /// Whether a key is present.
    pub fn contains(&self, k: &K) -> (present: bool)
        ensures
            present == self@.contains_key(*k),
    {
        match self.find(k) {
            Some(_) => true,
            None => false,
        }
    }

    /// A copy of the record stored under `k`, if any.
    pub fn get(&self, k: &K) -> (value: Option<V>)
        ensures
            match value {
                Some(v) => self@.contains_key(*k) && v@ == self@[*k],
                None => !self@.contains_key(*k),
            },
    {
        proof {
            use_type_invariant(self);
        }
        match self.find(k) {
            Some(i) => {
                proof {
                    self.lemma_entry(i as int);
                }
                Some(self.entries[i].1.duplicate())
            },
            None => None,
        }
    }

    /// Stores `v` under `k`, replacing what was there.
    pub fn insert(&mut self, k: K, v: V)
        ensures
            final(self)@ == old(self)@.insert(k, v@),
    {
        proof {
            use_type_invariant(&*self);
        }
        let ghost before = *self;
        let found = self.find(&k);
        let mut entries = Vec::new();
        std::mem::swap(&mut entries, &mut self.entries);
        assert(entries@ == before.entries@);
        match found {
            Some(i) => {
                entries.set(i, (k, v));
            },
            None => {
                entries.push((k, v));
            },
        }
        proof {
            assert forall|a: int, b: int|
                0 <= a < b < entries@.len() implies #[trigger] entries@[a].0
                != #[trigger] entries@[b].0 by {
                if a < before.entries@.len() && b < before.entries@.len() {
                    assert(before.entries@[a].0 != before.entries@[b].0);
                } else {
                    assert(before.holds_at(entries@[a].0, a));
                }
            }
        }
        self.entries = entries;
        proof {
            let after = *self;
            assert(after.keys_distinct());
            assert forall|q: K| #[trigger] after@.contains_key(q) == before@.insert(k, v@).contains_key(q) by {
                if q == k {
                    match found {
                        Some(i) => assert(after.holds_at(q, i as int)),
                        None => assert(after.holds_at(q, before.entries@.len() as int)),
                    }
                } else if before.holds(q) {
                    let j = choose|j: int| before.holds_at(q, j);
                    assert(after.holds_at(q, j));
                } else if after.holds(q) {
                    let j = choose|j: int| after.holds_at(q, j);
                    assert(before.holds_at(q, j));
                }
            }
            assert forall|q: K| #[trigger] after@.contains_key(q) implies after@[q] == before@.insert(k, v@)[q] by {
                if q == k {
                    match found {
                        Some(i) => after.lemma_entry(i as int),
                        None => after.lemma_entry(before.entries@.len() as int),
                    }
                } else {
                    let j = choose|j: int| after.holds_at(q, j);
                    after.lemma_entry(j);
                    before.lemma_entry(j);
                }
            }
            assert(after@ =~= before@.insert(k, v@));
        }
    }

    /// Removes the record stored under `k`, if any.
    pub fn remove(&mut self, k: &K)
        ensures
            final(self)@ == old(self)@.remove(*k),
    {
        proof {
            use_type_invariant(&*self);
        }
        let ghost before = *self;
        match self.find(k) {
            Some(i) => {
                let mut entries = Vec::new();
                std::mem::swap(&mut entries, &mut self.entries);
                assert(entries@ == before.entries@);
                entries.remove(i);
                proof {
                    assert forall|a: int, b: int|
                        0 <= a < b < entries@.len() implies #[trigger] entries@[a].0
                        != #[trigger] entries@[b].0 by {
                        let a0 = if a < i { a } else { a + 1 };
                        let b0 = if b < i { b } else { b + 1 };
                        assert(before.entries@[a0].0 != before.entries@[b0].0);
                    }
                }
                self.entries = entries;
                proof {
                    let after = *self;
                    let old_index = |j: int| if j < i { j } else { j + 1 };
                    assert forall|q: K| #[trigger] after@.contains_key(q) == before@.remove(*k).contains_key(q) by {
                        if after.holds(q) {
                            let j = choose|j: int| after.holds_at(q, j);
                            assert(before.holds_at(q, old_index(j)));
                            if q == *k {
                                let jj = old_index(j);
                                if jj < i {
                                    assert(before.entries@[jj].0 != before.entries@[i as int].0);
                                } else {
                                    assert(before.entries@[i as int].0 != before.entries@[jj].0);
                                }
                            }
                        } else if q != *k && before.holds(q) {
                            let j = choose|j: int| before.holds_at(q, j);
                            if j < i {
                                assert(after.holds_at(q, j));
                            } else {
                                assert(after.holds_at(q, j - 1));
                            }
                        }
                    }
                    assert forall|q: K| #[trigger] after@.contains_key(q) implies after@[q] == before@.remove(*k)[q] by {
                        let j = choose|j: int| after.holds_at(q, j);
                        after.lemma_entry(j);
                        before.lemma_entry(old_index(j));
                    }
                    assert(after@ =~= before@.remove(*k));
                }
            },
            None => {
                assert(before@ =~= before@.remove(*k));
            },
        }
    }
}

impl<V: Record> Table<u16, V> {
    /// Copies of the records under the keys `0 .. n`, in increasing key
    /// order, skipping absent keys.
    pub fn values_below(&self, n: u16) -> (list: Vec<V>)
        ensures
            list@.map_values(|v: V| v@) == listed(self@, n as nat),
    {
        let mut list: Vec<V> = Vec::new();
        let mut i: u16 = 0;
        while i < n
            invariant
                i <= n,
                list@.map_values(|v: V| v@) == listed(self@, i as nat),
            decreases n - i,
        {
            let ghost before = list@;
            match self.get(&i) {
                Some(value) => {
                    list.push(value);
                    assert(list@.map_values(|v: V| v@) =~= before.map_values(|v: V| v@).push(self@[i]));
                },
                None => {},
            }
            i = i + 1;
            assert(list@.map_values(|v: V| v@) =~= listed(self@, i as nat));
        }
        list
    }
}

} // verus!
