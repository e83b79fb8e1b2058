//! A map from numeric ids to values, where a later insertion under an id
//! replaces the earlier one, and the ids come out in the order they were
//! first inserted. A `dashmap::DashMap` finds the position of an id.

use vstd::prelude::*;

verus! {

/// The position of `k` in a sequence without repetitions.
proof fn lemma_index_of_unique(s: Seq<u64>, k: u64, i: int)
    requires
        s.no_duplicates(),
        0 <= i < s.len(),
        s[i] == k,
    ensures
        s.index_of(k) == i,
{
    assert(s.contains(k));
    let j = s.index_of(k);
    assert(0 <= j < s.len() && s[j] == k);
}

#[verifier::external_type_specification]
#[verifier::external_body]
#[verifier::reject_recursive_types(K)]
#[verifier::reject_recursive_types(V)]
#[verifier::reject_recursive_types(S)]
pub struct ExDashMap<K, V, S>(dashmap::DashMap<K, V, S>);

/// A `DashMap` from ids to positions.
pub type PositionIndex = dashmap::DashMap<u64, u64>;

/// The entries of a `DashMap` from ids to positions.
pub uninterp spec fn dashmap_entries(m: PositionIndex) -> Map<u64, u64>;

/// Calls `DashMap::new`, which makes an empty map.
#[verifier::external_body]
fn index_new() -> (m: PositionIndex)
    ensures
        dashmap_entries(m).is_empty(),
{
    dashmap::DashMap::new()
}

/// Calls `DashMap::get` and copies the value out of the entry it finds:
/// the value stored under `k`, if there is one.
#[verifier::external_body]
fn index_get(m: &PositionIndex, k: u64) -> (r: Option<u64>)
    ensures
        dashmap_entries(*m).contains_key(k) ==> r == Some(dashmap_entries(*m)[k]),
        !dashmap_entries(*m).contains_key(k) ==> r is None,
{
    match m.get(&k) {
        Some(entry) => Some(*entry),
        None => None,
    }
}

/// Calls `DashMap::insert`, which stores `v` under `k` in place of what
/// `k` held, and hands back what it held.
#[verifier::external_body]
fn index_insert(m: &mut PositionIndex, k: u64, v: u64) -> (r: Option<u64>)
    ensures
        dashmap_entries(*final(m)) == dashmap_entries(*old(m)).insert(k, v),
        dashmap_entries(*old(m)).contains_key(k) ==> r == Some(dashmap_entries(*old(m))[k]),
        !dashmap_entries(*old(m)).contains_key(k) ==> r is None,
{
    m.insert(k, v)
}

pub struct IdMap<V> {
    index: PositionIndex,
    keys: Vec<u64>,
    vals: Vec<V>,
}

impl<V> View for IdMap<V> {
    type V = Map<u64, V>;

    closed spec fn view(&self) -> Map<u64, V> {
        Map::new(|k: u64| self.keys@.contains(k), |k: u64| self.vals@[self.keys@.index_of(k)])
    }
}

impl<V> IdMap<V> {
    /// The ids are distinct, each has a value, and the index holds the
    /// position of each id.
    pub closed spec fn wf(&self) -> bool {
        &&& self.keys@.len() == self.vals@.len()
        &&& self.keys@.no_duplicates()
        &&& forall|k: u64| #[trigger] dashmap_entries(self.index).contains_key(k) <==> self.keys@.contains(k)
        &&& forall|i: int|
            #![trigger self.keys@[i]]
            0 <= i < self.keys@.len() ==> dashmap_entries(self.index)[self.keys@[i]] == i
    }

    /// The ids of the map, each once, in the order of their first insertion.
    pub closed spec fn ids(&self) -> Seq<u64> {
        self.keys@
    }

    /// The ids enumerate the map's domain without repetition.
    pub proof fn lemma_ids(&self)
        requires
            self.wf(),
        ensures
            self.ids().no_duplicates(),
            forall|k: u64| #[trigger] self@.contains_key(k) <==> self.ids().contains(k),
            self.ids().len() == self@.len(),
    {
        self.keys@.unique_seq_to_set();
        assert(self@.dom() =~= self.keys@.to_set());
    }

    pub fn new() -> (m: Self)
        ensures
            m.wf(),
            m@ == Map::<u64, V>::empty(),
            m.ids() == Seq::<u64>::empty(),
    {
        let m = IdMap { index: index_new(), keys: Vec::new(), vals: Vec::new() };
        assert(m@ =~= Map::<u64, V>::empty());
        m
    }

    pub fn len(&self) -> (n: usize)
        ensures
            n == self.ids().len(),
    {
        self.keys.len()
    }

    /// The position of `k` among the ids, if it is there.
    fn position(&self, k: u64) -> (r: Option<usize>)
        requires
            self.wf(),
        ensures
            r matches Some(i) ==> i < self.keys@.len() && self.keys@[i as int] == k,
            r is None ==> !self.keys@.contains(k),
    {
        match index_get(&self.index, k) {
            Some(p) => {
                proof {
                    assert(self.keys@.contains(k));
                    let j = choose|j: int| 0 <= j < self.keys@.len() && self.keys@[j] == k;
                    assert(dashmap_entries(self.index)[self.keys@[j]] == j);
                    assert(p == j);
                    assert(p < self.keys.len());
                }
                Some(p as usize)
            },
            None => None,
        }
    }

    pub fn contains_key(&self, k: u64) -> (b: bool)
        requires
            self.wf(),
        ensures
            b == self@.contains_key(k),
    {
        self.position(k).is_some()
    }

    /// Inserts `v` under `k`, replacing what `k` held before.
    pub fn insert(&mut self, k: u64, v: V)
        requires
            old(self).wf(),
        ensures
            final(self).wf(),
            final(self)@ == old(self)@.insert(k, v),
            old(self)@.contains_key(k) ==> final(self).ids() == old(self).ids(),
            !old(self)@.contains_key(k) ==> final(self).ids() == old(self).ids().push(k),
    {
        let ghost old_keys = self.keys@;
        let ghost old_vals = self.vals@;
        match self.position(k) {
            Some(i) => {
                self.vals.set(i, v);
                proof {
                    lemma_index_of_unique(old_keys, k, i as int);
                    assert forall|x: u64| #[trigger] old_keys.contains(x) && x != k implies self.vals@[old_keys.index_of(
                        x,
                    )] == old_vals[old_keys.index_of(x)] by {
                        assert(old_keys[old_keys.index_of(x)] == x);
                    }
                    assert(self@ =~= old(self)@.insert(k, v));
                }
            },
            None => {
                let ghost old_index = dashmap_entries(self.index);
                let n_exec = self.keys.len();
                index_insert(&mut self.index, k, n_exec as u64);
                self.keys.push(k);
                self.vals.push(v);
                proof {
                    let n = old_keys.len() as int;
                    assert forall|i: int|
                        #![trigger self.keys@[i]]
                        0 <= i < self.keys@.len() implies dashmap_entries(self.index)[self.keys@[i]] == i by {
                        if i < n {
                            assert(old_keys[i] != k);
                        }
                    }
                    assert(self.keys@.no_duplicates()) by {
                        assert forall|a: int, b: int|
                            0 <= a < self.keys@.len() && 0 <= b < self.keys@.len() && a != b implies self.keys@[a]
                            != self.keys@[b] by {
                            if a < n && b < n {
                            } else if a == n {
                                assert(old_keys.contains(self.keys@[b]) || b == n);
                            } else {
                                assert(old_keys.contains(self.keys@[a]) || a == n);
                            }
                        }
                    }
                    lemma_index_of_unique(self.keys@, k, n);
                    assert forall|x: u64| #[trigger] old_keys.contains(x) implies self.keys@.index_of(x)
                        == old_keys.index_of(x) by {
                        let j = old_keys.index_of(x);
                        assert(old_keys[j] == x);
                        assert(self.keys@[j] == x);
                        lemma_index_of_unique(self.keys@, x, j);
                    }
                    assert forall|x: u64| #[trigger] self.keys@.contains(x) <==> (old_keys.contains(x) || x == k) by {
                        if self.keys@.contains(x) {
                            let j = choose|j: int| 0 <= j < self.keys@.len() && self.keys@[j] == x;
                            if j < n {
                                assert(old_keys[j] == x);
                            }
                        }
                        if old_keys.contains(x) {
                            let j = choose|j: int| 0 <= j < old_keys.len() && old_keys[j] == x;
                            assert(self.keys@[j] == x);
                        }
                        if x == k {
                            assert(self.keys@[n] == x);
                        }
                    }
                    assert(self@ =~= old(self)@.insert(k, v));
                }
            },
        }
    }

    /// The values of the map, in the order of its ids.
    pub fn into_values(self) -> (r: Vec<V>)
        requires
            self.wf(),
        ensures
            r@ == self.ids().map_values(|k: u64| self@[k]),
    {
        proof {
            assert forall|i: int| 0 <= i < self.keys@.len() implies #[trigger] self.vals@[i] == self@[self.keys@[i]] by {
                lemma_index_of_unique(self.keys@, self.keys@[i], i);
            }
            assert(self.vals@ =~= self.ids().map_values(|k: u64| self@[k]));
        }
        let IdMap { index, keys, vals } = self;
        vals
    }
}

} // verus!
