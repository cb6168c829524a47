//! A collection keyed by public key: at most one entry per key, the entries
//! held in the order of their keys.

use crate::values::PublicKey;
use vstd::pervasive::VecAdditionalExecFns;
use vstd::prelude::*;

verus! {

/// How one byte string stands to another.
#[derive(Clone, Copy, Debug, PartialEq, Eq, Structural)]
pub enum Order {
    Less,
    Equal,
    Greater,
}

/// `a` and `b` agree before position `k`, and there `a` ends or holds the
/// smaller byte.
pub open spec fn precedes_at(a: Seq<u8>, b: Seq<u8>, k: int) -> bool {
    &&& 0 <= k <= a.len()
    &&& k < b.len()
    &&& forall|j: int| 0 <= j < k ==> a[j] == b[j]
    &&& k < a.len() ==> a[k] < b[k]
}

/// The order of keys: byte by byte, a proper prefix before what extends it.
pub open spec fn precedes(a: Seq<u8>, b: Seq<u8>) -> bool {
    exists|k: int| precedes_at(a, b, k)
}

/// No byte string precedes itself, and no two precede each other.
pub proof fn lemma_precedes_is_strict(a: Seq<u8>, b: Seq<u8>)
    requires
        precedes(a, b),
    ensures
        a != b,
        !precedes(b, a),
{
    let k = choose|k: int| precedes_at(a, b, k);
    if a == b {
        assert(false);
    }
    if precedes(b, a) {
        let m = choose|m: int| precedes_at(b, a, m);
        if k < m {
            assert(b[k] == a[k]);
        } else if m < k {
            assert(a[m] == b[m]);
        }
        assert(false);
    }
}

/// What precedes a byte string precedes all that it precedes.
pub proof fn lemma_precedes_is_transitive(a: Seq<u8>, b: Seq<u8>, c: Seq<u8>)
    requires
        precedes(a, b),
        precedes(b, c),
    ensures
        precedes(a, c),
{
    let k = choose|k: int| precedes_at(a, b, k);
    let m = choose|m: int| precedes_at(b, c, m);
    let n = if k <= m {
        k
    } else {
        m
    };
    assert forall|j: int| 0 <= j < n implies a[j] == c[j] by {
        assert(a[j] == b[j]);
        assert(b[j] == c[j]);
    }
    if k < m {
        assert(b[k] == c[k]);
    }
    assert(precedes_at(a, c, n));
}

/// Compares two byte strings in the order of keys.
pub fn compare(a: &[u8], b: &[u8]) -> (order: Order)
    ensures
        match order {
            Order::Less => precedes(a@, b@),
            Order::Equal => a@ == b@,
            Order::Greater => precedes(b@, a@),
        },
{
    let mut i: usize = 0;
    while i < a.len() && i < b.len()
        invariant
            i <= a.len(),
            i <= b.len(),
            forall|j: int| 0 <= j < i ==> a@[j] == b@[j],
        decreases a.len() - i,
    {
        if a[i] < b[i] {
            assert(precedes_at(a@, b@, i as int));
            return Order::Less;
        }
        if a[i] > b[i] {
            assert(precedes_at(b@, a@, i as int));
            return Order::Greater;
        }
        i += 1;
    }
    if i < b.len() {
        assert(precedes_at(a@, b@, i as int));
        Order::Less
    } else if i < a.len() {
        assert(precedes_at(b@, a@, i as int));
        Order::Greater
    } else {
        assert(a@ =~= b@);
        Order::Equal
    }
}

/// Whether the keys stand in rising order, none twice.
pub open spec fn rising(keys: Seq<Seq<u8>>) -> bool {
    forall|i: int, j: int| 0 <= i < j < keys.len() ==> precedes(#[trigger] keys[i], #[trigger] keys[j])
}

/// Entries by public key, in the order of the keys.
#[derive(Debug, PartialEq, Eq)]
pub struct KeyMap<V> {
    entries: Vec<(PublicKey, V)>,
}

impl<V: Clone> Clone for KeyMap<V> {
    /// A copy with the same keys; its values are what `V::clone` makes of
    /// them.
    fn clone(&self) -> (copy: Self)
        ensures
            copy.keys() == self.keys(),
            copy.items().len() == self.items().len(),
            forall|i: int|
                0 <= i < self.items().len() ==> cloned(
                    #[trigger] self.items()[i],
                    copy.items()[i],
                ),
    {
        proof {
            use_type_invariant(self);
        }
        let mut entries: Vec<(PublicKey, V)> = Vec::new();
        let mut i: usize = 0;
        while i < self.entries.len()
            invariant
                i <= self.entries.len(),
                entries.len() == i,
                forall|j: int| 0 <= j < i ==> entries@[j].0.deep_view() == self.entries@[j].0.deep_view(),
                forall|j: int| 0 <= j < i ==> cloned(self.entries@[j].1, entries@[j].1),
            decreases self.entries.len() - i,
        {
            let entry = &self.entries[i];
            entries.push((entry.0.clone(), entry.1.clone()));
            i += 1;
        }
        assert(Seq::new(entries@.len(), |j: int| entries@[j].0.deep_view()) =~= self.keys());
        let copy = KeyMap { entries };
        assert forall|i: int| 0 <= i < self.items().len() implies cloned(
            #[trigger] self.items()[i],
            copy.items()[i],
        ) by {
            assert(cloned(self.entries@[i].1, entries@[i].1));
        }
        copy
    }
}

impl<V> KeyMap<V> {
    /// The keys held, in their order.
    pub closed spec fn keys(&self) -> Seq<Seq<u8>> {
        Seq::new(self.entries@.len(), |i: int| self.entries@[i].0.deep_view())
    }

    /// What is held under the keys, each at the position of its key.
    pub closed spec fn items(&self) -> Seq<V> {
        Seq::new(self.entries@.len(), |i: int| self.entries@[i].1)
    }

    /// The keys are in rising order.
    #[verifier::type_invariant]
    spec fn ordered(&self) -> bool {
        rising(self.keys())
    }

    /// A collection without entries.
    pub fn new() -> (map: Self)
        ensures
            map.keys() == Seq::<Seq<u8>>::empty(),
    {
        let map = KeyMap { entries: Vec::new() };
        assert(map.keys() =~= Seq::<Seq<u8>>::empty());
        map
    }

    /// The number of entries, which stand in the rising order of their
    /// keys.
    pub fn len(&self) -> (count: usize)
        ensures
            count == self.keys().len(),
            rising(self.keys()),
    {
        proof {
            use_type_invariant(self);
        }
        self.entries.len()
    }

    /// The first position whose key does not precede `key`, and whether the
    /// key there is `key`.
    fn search(&self, key: &PublicKey) -> (found: (usize, bool))
        ensures
            found.0 <= self.keys().len(),
            forall|j: int| 0 <= j < found.0 ==> precedes(#[trigger] self.keys()[j], key.deep_view()),
            forall|j: int|
                found.0 + (if found.1 { 1int } else { 0int }) <= j < self.keys().len() ==> precedes(
                    key.deep_view(),
                    #[trigger] self.keys()[j],
                ),
            found.1 ==> found.0 < self.keys().len() && self.keys()[found.0 as int] == key.deep_view(),
            found.1 <==> self.keys().contains(key.deep_view()),
    {
        proof {
            use_type_invariant(self);
        }
        let ghost keys = self.keys();
        let ghost wanted = key.deep_view();
        let mut low: usize = 0;
        let mut high: usize = self.entries.len();
        while low < high
            invariant
                low <= high <= self.entries.len(),
                keys == self.keys(),
                wanted == key.deep_view(),
                rising(keys),
                forall|j: int| 0 <= j < low ==> precedes(#[trigger] keys[j], wanted),
                forall|j: int| high <= j < keys.len() ==> precedes(wanted, #[trigger] keys[j]),
            decreases high - low,
        {
            let middle = low + (high - low) / 2;
            match compare(self.entries[middle].0.to_bytes().as_slice(), key.to_bytes().as_slice()) {
                Order::Less => {
                    assert forall|j: int| 0 <= j < middle + 1 implies precedes(
                        #[trigger] keys[j],
                        wanted,
                    ) by {
                        if j < middle {
                            lemma_precedes_is_transitive(keys[j], keys[middle as int], wanted);
                        }
                    }
                    low = middle + 1;
                },
                Order::Greater => {
                    assert forall|j: int| middle <= j < keys.len() implies precedes(
                        wanted,
                        #[trigger] keys[j],
                    ) by {
                        if middle < j {
                            lemma_precedes_is_transitive(wanted, keys[middle as int], keys[j]);
                        }
                    }
                    high = middle;
                },
                Order::Equal => {
                    assert(keys[middle as int] == wanted);
                    assert forall|j: int| 0 <= j < middle implies precedes(
                        #[trigger] keys[j],
                        wanted,
                    ) by {}
                    assert forall|j: int| middle + 1 <= j < keys.len() implies precedes(
                        wanted,
                        #[trigger] keys[j],
                    ) by {}
                    return (middle, true);
                },
            }
        }
        proof {
            if keys.contains(wanted) {
                let j = choose|j: int| 0 <= j < keys.len() && keys[j] == wanted;
                if j < low {
                    lemma_precedes_is_strict(keys[j], wanted);
                } else {
                    lemma_precedes_is_strict(wanted, keys[j]);
                }
            }
        }
        (low, false)
    }
}

/// The mapping that keys and values in matching positions make.
pub open spec fn map_of<T>(keys: Seq<Seq<u8>>, values: Seq<T>) -> Map<Seq<u8>, T> {
    Map::new(|k: Seq<u8>| keys.contains(k), |k: Seq<u8>| values[keys.index_of(k)])
}

/// Rising keys are found at their own position only.
proof fn lemma_position(keys: Seq<Seq<u8>>, i: int)
    requires
        rising(keys),
        0 <= i < keys.len(),
    ensures
        keys.contains(keys[i]),
        keys.index_of(keys[i]) == i,
{
    let j = keys.index_of(keys[i]);
    if j < i {
        lemma_precedes_is_strict(keys[j], keys[i]);
    } else if i < j {
        lemma_precedes_is_strict(keys[i], keys[j]);
    }
}

/// A new value at a position is a new value under that position's key.
proof fn lemma_map_of_update<T>(keys: Seq<Seq<u8>>, values: Seq<T>, i: int, value: T)
    requires
        rising(keys),
        keys.len() == values.len(),
        0 <= i < keys.len(),
    ensures
        map_of(keys, values.update(i, value)) == map_of(keys, values).insert(keys[i], value),
{
    let after = map_of(keys, values.update(i, value));
    let expected = map_of(keys, values).insert(keys[i], value);
    lemma_position(keys, i);
    assert forall|k: Seq<u8>| after.contains_key(k) implies #[trigger] after[k] == expected[k] by {
        let j = keys.index_of(k);
        lemma_position(keys, j);
    }
    assert(after =~= expected);
}

/// An entry put in at a position, under a key that keeps the order, is an
/// entry put in under that key.
proof fn lemma_map_of_insert<T>(keys: Seq<Seq<u8>>, values: Seq<T>, i: int, key: Seq<u8>, value: T)
    requires
        rising(keys),
        rising(keys.insert(i, key)),
        keys.len() == values.len(),
        0 <= i <= keys.len(),
    ensures
        map_of(keys.insert(i, key), values.insert(i, value)) == map_of(keys, values).insert(
            key,
            value,
        ),
{
    let keys2 = keys.insert(i, key);
    let values2 = values.insert(i, value);
    let after = map_of(keys2, values2);
    let expected = map_of(keys, values).insert(key, value);
    assert(keys2[i] == key);
    lemma_position(keys2, i);
    assert forall|k: Seq<u8>| expected.contains_key(k) implies after.contains_key(k) by {
        if k != key {
            let j = keys.index_of(k);
            if j < i {
                assert(keys2[j] == k);
            } else {
                assert(keys2[j + 1] == k);
            }
        }
    }
    assert forall|k: Seq<u8>| after.contains_key(k) implies expected.contains_key(k) && after[k]
        == expected[k] by {
        let j = keys2.index_of(k);
        lemma_position(keys2, j);
        if j < i {
            assert(keys[j] == k);
            lemma_position(keys, j);
        } else if j > i {
            assert(keys[j - 1] == k);
            lemma_position(keys, j - 1);
        }
    }
    assert(after =~= expected);
}

/// An entry taken out at a position is the entry under that position's key
/// taken out.
proof fn lemma_map_of_remove<T>(keys: Seq<Seq<u8>>, values: Seq<T>, i: int)
    requires
        rising(keys),
        keys.len() == values.len(),
        0 <= i < keys.len(),
    ensures
        rising(keys.remove(i)),
        map_of(keys.remove(i), values.remove(i)) == map_of(keys, values).remove(keys[i]),
{
    let keys2 = keys.remove(i);
    let values2 = values.remove(i);
    let after = map_of(keys2, values2);
    let expected = map_of(keys, values).remove(keys[i]);
    assert forall|a: int, b: int| 0 <= a < b < keys2.len() implies precedes(
        #[trigger] keys2[a],
        #[trigger] keys2[b],
    ) by {
        let a1 = if a < i { a } else { a + 1 };
        let b1 = if b < i { b } else { b + 1 };
        assert(keys2[a] == keys[a1] && keys2[b] == keys[b1]);
    }
    assert forall|k: Seq<u8>| expected.contains_key(k) implies after.contains_key(k) by {
        let j = keys.index_of(k);
        if j < i {
            assert(keys2[j] == k);
        } else {
            assert(keys2[j - 1] == k);
        }
    }
    assert forall|k: Seq<u8>| after.contains_key(k) implies expected.contains_key(k) && after[k]
        == expected[k] by {
        let j = keys2.index_of(k);
        lemma_position(keys2, j);
        let j1 = if j < i { j } else { j + 1 };
        assert(keys[j1] == k);
        lemma_position(keys, j1);
        lemma_position(keys, i);
    }
    assert(after =~= expected);
}

impl<V: DeepView> KeyMap<V> {
    /// The values held, each at the position of its key.
    pub closed spec fn values(&self) -> Seq<V::V> {
        Seq::new(self.entries@.len(), |i: int| self.entries@[i].1.deep_view())
    }

    /// The values are what is held, as mathematical values.
    pub proof fn lemma_values(&self)
        ensures
            self.values().len() == self.items().len(),
            forall|i: int|
                0 <= i < self.items().len() ==> self.values()[i] == (#[trigger] self.items()[i]).deep_view(),
    {
    }
}

impl<V: DeepView> DeepView for KeyMap<V> {
    type V = Map<Seq<u8>, V::V>;

    closed spec fn deep_view(&self) -> Map<Seq<u8>, V::V> {
        map_of(self.keys(), self.values())
    }
}

impl<V: DeepView> KeyMap<V> {
    /// The keys are the keys of the mapping, and as many as the values;
    /// without keys the mapping is empty.
    pub proof fn lemma_keys(&self)
        ensures
            self.keys().len() == self.values().len(),
            forall|k: Seq<u8>| self.deep_view().contains_key(k) <==> self.keys().contains(k),
            self.keys().len() == 0 ==> self.deep_view() == Map::<Seq<u8>, V::V>::empty(),
    {
        if self.keys().len() == 0 {
            assert(self.deep_view() =~= Map::<Seq<u8>, V::V>::empty());
        }
    }

    /// The key and the value at a position, in the order of the keys.
    pub fn entry(&self, position: usize) -> (entry: (&PublicKey, &V))
        requires
            position < self.keys().len(),
        ensures
            rising(self.keys()),
            entry.0.deep_view() == self.keys()[position as int],
            entry.1.deep_view() == self.values()[position as int],
            self.deep_view().contains_key(entry.0.deep_view()),
            self.deep_view()[entry.0.deep_view()] == entry.1.deep_view(),
    {
        proof {
            use_type_invariant(self);
            lemma_position(self.keys(), position as int);
        }
        let entry = &self.entries[position];
        (&entry.0, &entry.1)
    }

    /// The value under a key, if there is one.
    pub fn get(&self, key: &PublicKey) -> (value: Option<&V>)
        ensures
            match value {
                Some(v) => self.deep_view().contains_key(key.deep_view()) && self.deep_view()[key.deep_view()]
                    == v.deep_view(),
                None => !self.deep_view().contains_key(key.deep_view()),
            },
    {
        proof {
            use_type_invariant(self);
        }
        let (position, found) = self.search(key);
        if found {
            proof {
                lemma_position(self.keys(), position as int);
            }
            Some(&self.entries[position].1)
        } else {
            None
        }
    }

    /// Puts a value under a key, in place of the one that was there, and
    /// returns the one that was there.
    pub fn insert(&mut self, key: PublicKey, value: V) -> (previous: Option<V>)
        ensures
            final(self).deep_view() == old(self).deep_view().insert(
                key.deep_view(),
                value.deep_view(),
            ),
            match previous {
                Some(p) => old(self).deep_view().contains_key(key.deep_view()) && old(
                    self,
                ).deep_view()[key.deep_view()] == p.deep_view(),
                None => !old(self).deep_view().contains_key(key.deep_view()),
            },
    {
        proof {
            use_type_invariant(&*self);
        }
        let ghost keys = self.keys();
        let ghost values = self.values();
        let (position, found) = self.search(&key);
        if found {
            proof {
                lemma_position(keys, position as int);
                lemma_map_of_update(keys, values, position as int, value.deep_view());
            }
            let mut entry = (key, value);
            let mut entries = Vec::new();
            std::mem::swap(&mut self.entries, &mut entries);
            assert(self.keys() =~= Seq::<Seq<u8>>::empty());
            entries.set_and_swap(position, &mut entry);
            assert(Seq::new(entries@.len(), |i: int| entries@[i].0.deep_view()) =~= keys);
            std::mem::swap(&mut self.entries, &mut entries);
            assert(self.keys() =~= keys);
            assert(self.values() =~= values.update(position as int, value.deep_view()));
            Some(entry.1)
        } else {
            proof {
                let keys2 = keys.insert(position as int, key.deep_view());
                assert forall|a: int, b: int| 0 <= a < b < keys2.len() implies precedes(
                    #[trigger] keys2[a],
                    #[trigger] keys2[b],
                ) by {
                    if a != position && b != position {
                        let a1 = if a < position { a } else { a - 1 };
                        let b1 = if b < position { b } else { b - 1 };
                        assert(keys2[a] == keys[a1] && keys2[b] == keys[b1]);
                    } else if a == position {
                        assert(keys2[b] == keys[b - 1]);
                    } else {
                        assert(keys2[a] == keys[a]);
                    }
                }
                lemma_map_of_insert(keys, values, position as int, key.deep_view(), value.deep_view());
            }
            let mut entries = Vec::new();
            std::mem::swap(&mut self.entries, &mut entries);
            assert(self.keys() =~= Seq::<Seq<u8>>::empty());
            entries.insert(position, (key, value));
            assert(Seq::new(entries@.len(), |i: int| entries@[i].0.deep_view()) =~= keys.insert(
                position as int,
                key.deep_view(),
            ));
            std::mem::swap(&mut self.entries, &mut entries);
            assert(self.keys() =~= keys.insert(position as int, key.deep_view()));
            assert(self.values() =~= values.insert(position as int, value.deep_view()));
            None
        }
    }

    /// Takes out the entry under a key, and returns its value.
    pub fn remove(&mut self, key: &PublicKey) -> (previous: Option<V>)
        ensures
            final(self).deep_view() == old(self).deep_view().remove(key.deep_view()),
            match previous {
                Some(p) => old(self).deep_view().contains_key(key.deep_view()) && old(
                    self,
                ).deep_view()[key.deep_view()] == p.deep_view(),
                None => !old(self).deep_view().contains_key(key.deep_view()),
            },
    {
        proof {
            use_type_invariant(&*self);
        }
        let ghost keys = self.keys();
        let ghost values = self.values();
        let (position, found) = self.search(key);
        if found {
            proof {
                lemma_position(keys, position as int);
                lemma_map_of_remove(keys, values, position as int);
            }
            let mut entries = Vec::new();
            std::mem::swap(&mut self.entries, &mut entries);
            assert(self.keys() =~= Seq::<Seq<u8>>::empty());
            let entry = entries.remove(position);
            assert(Seq::new(entries@.len(), |i: int| entries@[i].0.deep_view()) =~= keys.remove(
                position as int,
            ));
            std::mem::swap(&mut self.entries, &mut entries);
            assert(self.keys() =~= keys.remove(position as int));
            assert(self.values() =~= values.remove(position as int));
            Some(entry.1)
        } else {
            assert(self.deep_view().remove(key.deep_view()) =~= self.deep_view());
            None
        }
    }
}

} // verus!
