//! A small key-value table backed by a vector of entries, with a `Map` view.
//!
//! The registries of this crate key their entries by window handles and menu
//! indices, so a key here is a plain value whose equality an implementation
//! of [`TableKey`] decides exactly as specification-level equality does.

use vstd::prelude::*;

verus! {

/// A key whose executable equality test agrees with spec equality.
pub trait TableKey: Sized {
    fn key_eq(&self, other: &Self) -> (r: bool)
        ensures
            r == (*self == *other);
}

impl TableKey for u32 {
    fn key_eq(&self, other: &Self) -> (r: bool)
        ensures
            r == (*self == *other),
    {
        *self == *other
    }
}

impl TableKey for u64 {
    fn key_eq(&self, other: &Self) -> (r: bool)
        ensures
            r == (*self == *other),
    {
        *self == *other
    }
}

/// A mapping from keys to values, stored as a vector of pairs whose keys are
/// pairwise distinct. Viewed as a `Map<K, V>`.
pub struct Table<K, V> {
    entries: Vec<(K, V)>,
}

impl<K, V> Table<K, V> {
    /// Whether some entry of `s` carries the key `k`.
    spec fn seq_has_key(s: Seq<(K, V)>, k: K) -> bool {
        exists|i: int| 0 <= i < s.len() && s[i].0 == k
    }

    /// An index of `s` whose entry carries the key `k`, if one exists.
    spec fn seq_index_of(s: Seq<(K, V)>, k: K) -> int {
        choose|i: int| 0 <= i < s.len() && s[i].0 == k
    }

    /// The keys of `s` are pairwise distinct.
    spec fn seq_distinct(s: Seq<(K, V)>) -> bool {
        forall|i: int, j: int| 0 <= i < j < s.len() ==> s[i].0 != s[j].0
    }

    /// The table's invariant: one entry per key.
    pub closed spec fn wf(&self) -> bool {
        Self::seq_distinct(self.entries@)
    }

    proof fn lemma_at(s: Seq<(K, V)>, i: int, k: K)
        requires
            Self::seq_distinct(s),
            0 <= i < s.len(),
            s[i].0 == k,
        ensures
            Self::seq_has_key(s, k),
            Self::seq_index_of(s, k) == i,
    {
        assert(Self::seq_has_key(s, k));
        let j = Self::seq_index_of(s, k);
        assert(0 <= j < s.len() && s[j].0 == k);
        if j < i {
            assert(s[j].0 != s[i].0);
        } else if i < j {
            assert(s[i].0 != s[j].0);
        }
    }

    pub fn new() -> (r: Table<K, V>)
        ensures
            r.wf(),
            r@ == Map::<K, V>::empty(),
    {
        let r = Table { entries: Vec::new() };
        proof {
            assert(r@ =~= Map::<K, V>::empty());
        }
        r
    }
}

impl<K, V> View for Table<K, V> {
    type V = Map<K, V>;

    closed spec fn view(&self) -> Map<K, V> {
        Map::new(
            |k: K| Self::seq_has_key(self.entries@, k),
            |k: K| self.entries@[Self::seq_index_of(self.entries@, k)].1,
        )
    }
}

impl<K: TableKey, V> Table<K, V> {
    /// Looks for the entry carrying `k`; on a hit, hands its position back.
    fn find(&self, k: &K) -> (r: Option<usize>)
        ensures
            match r {
                Some(i) => i < self.entries@.len() && self.entries@[i as int].0 == *k,
                None => !self@.contains_key(*k),
            },
    {
        let mut i: usize = 0;
        while i < self.entries.len()
            invariant
                i <= self.entries@.len(),
                forall|j: int| 0 <= j < i ==> self.entries@[j].0 != *k,
            decreases self.entries@.len() - i,
        {
            if self.entries[i].0.key_eq(k) {
                return Some(i);
            }
            i += 1;
        }
        None
    }

    pub fn contains(&self, k: &K) -> (r: bool)
        ensures
            r == self@.contains_key(*k),
    {
        match self.find(k) {
            Some(_i) => {
                proof {
                    assert(Self::seq_has_key(self.entries@, *k));
                }
                true
            },
            None => false,
        }
    }

    pub fn get(&self, k: &K) -> (r: Option<&V>)
        requires
            self.wf(),
        ensures
            match r {
                Some(v) => self@.contains_key(*k) && *v == self@[*k],
                None => !self@.contains_key(*k),
            },
    {
        match self.find(k) {
            Some(i) => {
                proof {
                    Self::lemma_at(self.entries@, i as int, *k);
                }
                Some(&self.entries[i].1)
            },
            None => None,
        }
    }

    /// Adds an entry for a key not yet present; on an occupied key it leaves
    /// the table alone and reports the collision with `false`.
    pub fn insert(&mut self, k: K, v: V) -> (r: bool)
        requires
            old(self).wf(),
        ensures
            final(self).wf(),
            r == !old(self)@.contains_key(k),
            r ==> final(self)@ == old(self)@.insert(k, v),
            !r ==> *final(self) == *old(self),
    {
        match self.find(&k) {
            Some(_i) => {
                proof {
                    assert(Self::seq_has_key(self.entries@, k));
                }
                false
            },
            None => {
                self.entries.push((k, v));
                proof {
                    self.lemma_push_view(*old(self), k, v);
                }
                true
            },
        }
    }

    /// Stores `v` under `k`, replacing the present entry if there is one.
    pub fn put(&mut self, k: K, v: V)
        requires
            old(self).wf(),
        ensures
            final(self).wf(),
            final(self)@ == old(self)@.insert(k, v),
    {
        match self.find(&k) {
            Some(i) => {
                proof {
                    Self::lemma_at(self.entries@, i as int, k);
                }
                let _replaced = self.entries.remove(i);
                proof {
                    self.lemma_remove_view(*old(self), i as int, k);
                }
                let ghost mid = *self;
                self.entries.push((k, v));
                proof {
                    self.lemma_push_view(mid, k, v);
                    assert(final(self)@ =~= old(self)@.insert(k, v));
                }
            },
            None => {
                self.entries.push((k, v));
                proof {
                    self.lemma_push_view(*old(self), k, v);
                }
            },
        }
    }

    /// Takes the entry carrying `k` out of the table and hands its value
    /// back, or reports that no entry carries `k`.
    pub fn remove(&mut self, k: &K) -> (r: Option<V>)
        requires
            old(self).wf(),
        ensures
            final(self).wf(),
            match r {
                Some(v) => old(self)@.contains_key(*k) && v == old(self)@[*k] && final(self)@
                    == old(self)@.remove(*k),
                None => !old(self)@.contains_key(*k) && *final(self) == *old(self),
            },
    {
        match self.find(k) {
            Some(i) => {
                proof {
                    Self::lemma_at(self.entries@, i as int, *k);
                }
                let pair = self.entries.remove(i);
                proof {
                    self.lemma_remove_view(*old(self), i as int, *k);
                }
                Some(pair.1)
            },
            None => None,
        }
    }

    pub fn is_empty(&self) -> (r: bool)
        ensures
            r ==> self@ == Map::<K, V>::empty(),
            !r ==> exists|k: K| self@.contains_key(k),
    {
        if self.entries.len() == 0 {
            proof {
                assert(self@ =~= Map::<K, V>::empty());
            }
            true
        } else {
            proof {
                assert(Self::seq_has_key(self.entries@, self.entries@[0].0));
                assert(self@.contains_key(self.entries@[0].0));
            }
            false
        }
    }

    /// After a push of a fresh key, the view is the old view plus that entry.
    proof fn lemma_push_view(&self, pre: Self, k: K, v: V)
        requires
            pre.wf(),
            !pre@.contains_key(k),
            self.entries@ == pre.entries@.push((k, v)),
        ensures
            self.wf(),
            self@ == pre@.insert(k, v),
    {
        let s0 = pre.entries@;
        let s1 = self.entries@;
        let n = s0.len() as int;
        assert forall|i: int, j: int| 0 <= i < j < s1.len() implies s1[i].0 != s1[j].0 by {
            if j < n {
                assert(s0[i].0 != s0[j].0);
            } else {
                assert(s1[j].0 == k);
                assert(s1[i] == s0[i]);
                assert(Self::seq_has_key(s0, s0[i].0));
            }
        }
        assert forall|k2: K| #[trigger] self@.contains_key(k2) == pre@.insert(
            k,
            v,
        ).contains_key(k2) && (self@.contains_key(k2) ==> self@[k2] == pre@.insert(k, v)[k2]) by {
            if k2 == k {
                Self::lemma_at(s1, n, k);
            } else {
                if Self::seq_has_key(s1, k2) {
                    let i = Self::seq_index_of(s1, k2);
                    assert(0 <= i < s1.len() && s1[i].0 == k2);
                    assert(i < n);
                    assert(s0[i] == s1[i]);
                    Self::lemma_at(s0, i, k2);
                    Self::lemma_at(s1, i, k2);
                }
                if Self::seq_has_key(s0, k2) {
                    let i = Self::seq_index_of(s0, k2);
                    assert(s1[i] == s0[i]);
                    assert(Self::seq_has_key(s1, k2));
                }
            }
        }
        assert(self@ =~= pre@.insert(k, v));
    }

    /// After removing the entry at the position carrying `k`, the view is the
    /// old view without `k`.
    proof fn lemma_remove_view(&self, pre: Self, at: int, k: K)
        requires
            pre.wf(),
            0 <= at < pre.entries@.len(),
            pre.entries@[at].0 == k,
            self.entries@ == pre.entries@.remove(at),
        ensures
            self.wf(),
            self@ == pre@.remove(k),
    {
        let s0 = pre.entries@;
        let s1 = self.entries@;
        assert forall|i: int, j: int| 0 <= i < j < s1.len() implies s1[i].0 != s1[j].0 by {
            let i0 = if i < at { i } else { i + 1 };
            let j0 = if j < at { j } else { j + 1 };
            assert(s1[i] == s0[i0]);
            assert(s1[j] == s0[j0]);
            assert(s0[i0].0 != s0[j0].0);
        }
        assert forall|k2: K| #[trigger] self@.contains_key(k2) == pre@.remove(k).contains_key(k2)
            && (self@.contains_key(k2) ==> self@[k2] == pre@.remove(k)[k2]) by {
            if k2 == k {
                if Self::seq_has_key(s1, k2) {
                    let i = Self::seq_index_of(s1, k2);
                    assert(0 <= i < s1.len() && s1[i].0 == k2);
                    let i0 = if i < at { i } else { i + 1 };
                    assert(s1[i] == s0[i0]);
                    Self::lemma_at(s0, i0, k2);
                    Self::lemma_at(s0, at, k);
                    assert(false);
                }
            } else {
                if Self::seq_has_key(s1, k2) {
                    let i = Self::seq_index_of(s1, k2);
                    assert(0 <= i < s1.len() && s1[i].0 == k2);
                    let i0 = if i < at { i } else { i + 1 };
                    assert(s1[i] == s0[i0]);
                    Self::lemma_at(s0, i0, k2);
                    Self::lemma_at(s1, i, k2);
                }
                if Self::seq_has_key(s0, k2) {
                    let i0 = Self::seq_index_of(s0, k2);
                    assert(0 <= i0 < s0.len() && s0[i0].0 == k2);
                    assert(i0 != at);
                    let i = if i0 < at { i0 } else { i0 - 1 };
                    assert(s1[i] == s0[i0]);
                    assert(Self::seq_has_key(s1, k2));
                }
            }
        }
        assert(self@ =~= pre@.remove(k));
    }
}

} // verus!
