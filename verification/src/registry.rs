//! Keyed registries for keys that are compared by a plain value (strings, addresses), which
//! the hash maps' specifications do not cover: each key at most once, with the value registered
//! last for it, and the keys in the order of their first registration.
use vstd::prelude::*;

verus! {

/// A key that can be compared by its plain value.
pub trait Key {
    /// The plain value of a key.
    type Plain;

    /// The plain value of the key.
    spec fn plain(&self) -> Self::Plain;

    /// Whether two keys have the same plain value.
    fn same_key(&self, other: &Self) -> (r: bool)
        ensures
            r == (self.plain() == other.plain()),
    ;
}

impl Key for String {
    type Plain = Seq<char>;

    open spec fn plain(&self) -> Seq<char> {
        self@
    }

    fn same_key(&self, other: &String) -> (r: bool) {
        *self == *other
    }
}

/// The plain keys of a list of entries.
pub open spec fn keys_of<K: Key, V>(entries: Seq<(K, V)>) -> Seq<K::Plain> {
    entries.map_values(|e: (K, V)| e.0.plain())
}

/// The value that a list of entries with distinct keys gives each plain key.
pub open spec fn map_of<K: Key, V>(entries: Seq<(K, V)>) -> Map<K::Plain, V>
    decreases entries.len(),
{
    if entries.len() == 0 {
        Map::empty()
    } else {
        map_of(entries.drop_last()).insert(entries.last().0.plain(), entries.last().1)
    }
}

/// A registry: entries of keys and values, each key at most once.
pub struct Registry<K, V> {
    entries: Vec<(K, V)>,
}

proof fn lemma_map_of_push<K: Key, V>(v: Seq<(K, V)>, e: (K, V))
    ensures
        map_of(v.push(e)) == map_of(v).insert(e.0.plain(), e.1),
{
    assert(v.push(e).drop_last() =~= v);
}

proof fn lemma_map_of_lacks<K: Key, V>(v: Seq<(K, V)>, k: K::Plain)
    requires
        !keys_of(v).contains(k),
    ensures
        !map_of(v).dom().contains(k),
    decreases v.len(),
{
    if v.len() > 0 {
        assert(keys_of(v.drop_last()) =~= keys_of(v).drop_last());
        assert(keys_of(v)[v.len() - 1] == v.last().0.plain());
        lemma_map_of_lacks(v.drop_last(), k);
    }
}

proof fn lemma_map_of_index<K: Key, V>(v: Seq<(K, V)>, i: int)
    requires
        0 <= i < v.len(),
        keys_of(v).no_duplicates(),
    ensures
        map_of(v).dom().contains(v[i].0.plain()),
        map_of(v)[v[i].0.plain()] == v[i].1,
    decreases v.len(),
{
    assert(keys_of(v.drop_last()) =~= keys_of(v).drop_last());
    if i < v.len() - 1 {
        lemma_map_of_index(v.drop_last(), i);
        assert(keys_of(v)[i] != keys_of(v)[v.len() - 1]);
    }
}

proof fn lemma_map_of_dom<K: Key, V>(v: Seq<(K, V)>)
    ensures
        map_of(v).dom() =~= keys_of(v).to_set(),
    decreases v.len(),
{
    if v.len() > 0 {
        lemma_map_of_dom(v.drop_last());
        assert(keys_of(v.drop_last()) =~= keys_of(v).drop_last());
        assert(keys_of(v) =~= keys_of(v.drop_last()).push(v.last().0.plain()));
        keys_of(v.drop_last()).lemma_push_to_set_commute(v.last().0.plain());
    }
}

proof fn lemma_map_of_remove<K: Key, V>(v: Seq<(K, V)>, i: int)
    requires
        0 <= i < v.len(),
        keys_of(v).no_duplicates(),
    ensures
        map_of(v.remove(i)) == map_of(v).remove(v[i].0.plain()),
        keys_of(v.remove(i)) == keys_of(v).remove(i),
    decreases v.len(),
{
    assert(keys_of(v.remove(i)) =~= keys_of(v).remove(i));
    assert(keys_of(v.drop_last()) =~= keys_of(v).drop_last());
    if i == v.len() - 1 {
        assert(v.remove(i) =~= v.drop_last());
        assert(!keys_of(v.drop_last()).contains(v[i].0.plain())) by {
            if keys_of(v.drop_last()).contains(v[i].0.plain()) {
                let k = choose|k: int| 0 <= k < keys_of(v.drop_last()).len() && keys_of(v.drop_last())[k] == v[i].0.plain();
                assert(keys_of(v)[k] == keys_of(v)[i]);
            }
        }
        lemma_map_of_lacks(v.drop_last(), v[i].0.plain());
        assert(map_of(v.remove(i)) =~= map_of(v).remove(v[i].0.plain()));
    } else {
        lemma_map_of_remove(v.drop_last(), i);
        assert(v.remove(i).drop_last() =~= v.drop_last().remove(i));
        assert(v.remove(i).last() == v.last());
        assert(keys_of(v)[i] != keys_of(v)[v.len() - 1]);
        assert(map_of(v.remove(i)) =~= map_of(v).remove(v[i].0.plain()));
    }
}

proof fn lemma_map_of_update<K: Key, V>(v: Seq<(K, V)>, i: int, e: (K, V))
    requires
        0 <= i < v.len(),
        keys_of(v).no_duplicates(),
        v[i].0.plain() == e.0.plain(),
    ensures
        map_of(v.update(i, e)) == map_of(v).insert(e.0.plain(), e.1),
        keys_of(v.update(i, e)) == keys_of(v),
    decreases v.len(),
{
    assert(keys_of(v.update(i, e)) =~= keys_of(v));
    assert(keys_of(v.drop_last()) =~= keys_of(v).drop_last());
    if i == v.len() - 1 {
        assert(v.update(i, e).drop_last() =~= v.drop_last());
        assert(!keys_of(v.drop_last()).contains(e.0.plain())) by {
            if keys_of(v.drop_last()).contains(e.0.plain()) {
                let k = choose|k: int| 0 <= k < keys_of(v.drop_last()).len() && keys_of(v.drop_last())[k] == e.0.plain();
                assert(keys_of(v)[k] == keys_of(v)[i]);
            }
        }
        lemma_map_of_lacks(v.drop_last(), e.0.plain());
        assert(map_of(v.update(i, e)) =~= map_of(v).insert(e.0.plain(), e.1));
    } else {
        lemma_map_of_update(v.drop_last(), i, e);
        assert(v.update(i, e).drop_last() =~= v.drop_last().update(i, e));
        assert(keys_of(v)[i] != keys_of(v)[v.len() - 1]);
        assert(map_of(v.update(i, e)) =~= map_of(v).insert(e.0.plain(), e.1));
    }
}

impl<K: Key, V> Registry<K, V> {
    /// What the registry holds: the value of each registered key.
    pub closed spec fn view(&self) -> Map<K::Plain, V> {
        map_of(self.entries@)
    }

    /// The registered keys, in the order of their first registration.
    pub closed spec fn keys(&self) -> Seq<K::Plain> {
        keys_of(self.entries@)
    }

    /// Each key is registered at most once.
    pub closed spec fn wf(&self) -> bool {
        keys_of(self.entries@).no_duplicates()
    }

    /// The registered keys are the keys of the map.
    pub proof fn lemma_keys(&self)
        ensures
            self.view().dom() =~= self.keys().to_set(),
    {
        lemma_map_of_dom(self.entries@);
    }

    /// Each key is registered at most once.
    pub proof fn lemma_keys_unique(&self)
        requires
            self.wf(),
        ensures
            self.keys().no_duplicates(),
    {
    }

    /// An empty registry.
    pub fn new() -> (r: Registry<K, V>)
        ensures
            r.wf(),
            r.view() == Map::<K::Plain, V>::empty(),
            r.keys() == Seq::<K::Plain>::empty(),
    {
        let r = Registry { entries: Vec::new() };
        assert(keys_of(r.entries@) =~= Seq::<K::Plain>::empty());
        r
    }

    fn position(&self, key: &K) -> (r: Option<usize>)
        requires
            self.wf(),
        ensures
            r matches Some(i) ==> i < self.entries@.len() && self.entries@[i as int].0.plain()
                == key.plain(),
            r is None ==> !self.keys().contains(key.plain()),
    {
        let mut i: usize = 0;
        while i < self.entries.len()
            invariant
                i <= self.entries@.len(),
                forall|j: int| 0 <= j < i ==> self.entries@[j].0.plain() != key.plain(),
            decreases self.entries@.len() - i,
        {
            if self.entries[i].0.same_key(key) {
                return Some(i);
            }
            i = i + 1;
        }
        proof {
            if self.keys().contains(key.plain()) {
                let k = choose|k: int| 0 <= k < self.keys().len() && self.keys()[k] == key.plain();
                assert(self.entries@[k].0.plain() == key.plain());
            }
        }
        None
    }

    /// The number of registered keys.
    pub fn len(&self) -> (r: usize)
        ensures
            r == self.keys().len(),
    {
        self.entries.len()
    }

    /// Whether nothing is registered.
    pub fn is_empty(&self) -> (r: bool)
        ensures
            r == (self.keys().len() == 0),
    {
        self.entries.len() == 0
    }

    /// Whether the key is registered.
    pub fn contains(&self, key: &K) -> (r: bool)
        requires
            self.wf(),
        ensures
            r == self.view().dom().contains(key.plain()),
    {
        proof {
            lemma_map_of_dom(self.entries@);
        }
        match self.position(key) {
            Some(i) => {
                assert(self.keys()[i as int] == key.plain());
                true
            },
            None => false,
        }
    }

    /// The value registered for the key.
    pub fn get(&self, key: &K) -> (r: Option<&V>)
        requires
            self.wf(),
        ensures
            r is Some <==> self.view().dom().contains(key.plain()),
            r matches Some(v) ==> *v == self.view()[key.plain()],
    {
        proof {
            lemma_map_of_dom(self.entries@);
        }
        match self.position(key) {
            Some(i) => {
                proof {
                    lemma_map_of_index(self.entries@, i as int);
                }
                Some(&self.entries[i].1)
            },
            None => None,
        }
    }

    /// Registers the value for the key, replacing what the key had.
    pub fn insert(&mut self, key: K, value: V)
        requires
            old(self).wf(),
        ensures
            final(self).wf(),
            final(self).view() == old(self).view().insert(key.plain(), value),
            old(self).keys().contains(key.plain()) ==> final(self).keys() == old(self).keys(),
            !old(self).keys().contains(key.plain()) ==> final(self).keys() == old(self).keys().push(
                key.plain(),
            ),
    {
        match self.position(&key) {
            Some(i) => {
                let ghost before = self.entries@;
                assert(keys_of(before)[i as int] == key.plain());
                let e = (key, value);
                proof {
                    lemma_map_of_update(before, i as int, e);
                }
                self.entries.set(i, e);
                assert(self.entries@ == before.update(i as int, e));
            },
            None => {
                let ghost before = self.entries@;
                let ghost k = key.plain();
                let e = (key, value);
                proof {
                    lemma_map_of_push(before, e);
                }
                self.entries.push(e);
                assert(self.entries@ == before.push(e));
                assert(keys_of(self.entries@) =~= keys_of(before).push(k));
            },
        }
    }

    /// Removes the key and what it was registered with.
    pub fn remove(&mut self, key: &K) -> (r: Option<V>)
        requires
            old(self).wf(),
        ensures
            final(self).wf(),
            final(self).view() == old(self).view().remove(key.plain()),
            r is Some <==> old(self).view().dom().contains(key.plain()),
            r matches Some(v) ==> v == old(self).view()[key.plain()],
    {
        proof {
            lemma_map_of_dom(self.entries@);
        }
        match self.position(key) {
            Some(i) => {
                let ghost before = self.entries@;
                proof {
                    lemma_map_of_remove(before, i as int);
                    lemma_map_of_index(before, i as int);
                }
                let e = self.entries.remove(i);
                assert(self.entries@ == before.remove(i as int));
                Some(e.1)
            },
            None => {
                proof {
                    lemma_map_of_lacks(self.entries@, key.plain());
                    assert(self.view().remove(key.plain()) =~= self.view());
                }
                None
            },
        }
    }

    /// The registered keys.
    pub fn key_list(&self) -> (r: Vec<&K>)
        ensures
            r@.map_values(|k: &K| k.plain()) == self.keys(),
    {
        let mut r: Vec<&K> = Vec::new();
        let mut i: usize = 0;
        while i < self.entries.len()
            invariant
                i <= self.entries@.len(),
                r@.map_values(|k: &K| k.plain()) =~= keys_of(self.entries@).subrange(0, i as int),
            decreases self.entries@.len() - i,
        {
            let ghost before = r@;
            r.push(&self.entries[i].0);
            assert(r@.map_values(|k: &K| k.plain()) =~= before.map_values(|k: &K| k.plain()).push(
                self.entries@[i as int].0.plain(),
            ));
            assert(keys_of(self.entries@).subrange(0, i + 1) =~= keys_of(self.entries@).subrange(
                0,
                i as int,
            ).push(keys_of(self.entries@)[i as int]));
            i = i + 1;
        }
        assert(keys_of(self.entries@).subrange(0, self.entries@.len() as int) =~= keys_of(self.entries@));
        r
    }
}

} // verus!
