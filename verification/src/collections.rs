//! Small maps and sets kept in a vector, with their contents given as a
//! `Map` or `Set` of views.  Keys are kept distinct; a new key goes to the end,
//! an existing key keeps its place, and a removal moves the last entry into the
//! freed place (the order the contract's storage collections keep).

use vstd::prelude::*;

verus! {

/// A value that can be copied, with the copy seen as equal to the value copied.
pub trait Duplicate: View + Sized {
    fn duplicate(&self) -> (r: Self)
        ensures
            r@ == self@,
    ;
}

/// A key of `VecMap` and `VecSet`: two keys are the same when their views are.
pub trait MapKey: Duplicate {
    fn same_key(&self, other: &Self) -> (b: bool)
        ensures
            b == (self@ == other@),
    ;
}

impl Duplicate for String {
    fn duplicate(&self) -> (r: String) {
        self.clone()
    }
}

impl MapKey for String {
    fn same_key(&self, other: &String) -> (b: bool) {
        *self == *other
    }
}

impl Duplicate for u128 {
    fn duplicate(&self) -> (r: u128) {
        *self
    }
}

impl MapKey for u128 {
    fn same_key(&self, other: &u128) -> (b: bool) {
        *self == *other
    }
}

impl Duplicate for u64 {
    fn duplicate(&self) -> (r: u64) {
        *self
    }
}

impl MapKey for u64 {
    fn same_key(&self, other: &u64) -> (b: bool) {
        *self == *other
    }
}

impl Duplicate for u32 {
    fn duplicate(&self) -> (r: u32) {
        *self
    }
}

impl Duplicate for i64 {
    fn duplicate(&self) -> (r: i64) {
        *self
    }
}

impl MapKey for i64 {
    fn same_key(&self, other: &i64) -> (b: bool) {
        *self == *other
    }
}

/// A map with distinct keys, kept as a vector of entries.
pub struct VecMap<K: MapKey, V: View> {
    entries: Vec<(K, V)>,
}

impl<K: MapKey, V: View> VecMap<K, V> {
    /// Keys are distinct.
    #[verifier::type_invariant]
    pub closed spec fn well_formed(&self) -> bool {
        forall|i: int, j: int|
            0 <= i < j < self.entries@.len() ==> self.entries@[i].0@ != self.entries@[j].0@
    }

    /// The number of entries.
    pub closed spec fn size(&self) -> nat {
        self.entries@.len()
    }

    /// The keys in the order of the entries.
    pub closed spec fn key_order(&self) -> Seq<K::V> {
        self.entries@.map_values(|e: (K, V)| e.0@)
    }

    /// The values in the order of the entries.
    pub closed spec fn value_order(&self) -> Seq<V::V> {
        self.entries@.map_values(|e: (K, V)| e.1@)
    }

    closed spec fn has(&self, k: K::V) -> bool {
        exists|i: int| 0 <= i < self.entries@.len() && self.entries@[i].0@ == k
    }

    /// The stored value under a key.
    pub closed spec fn value_of(&self, k: K::V) -> V {
        self.entries@[self.index_of(k)].1
    }

    closed spec fn index_of(&self, k: K::V) -> int {
        choose|i: int| 0 <= i < self.entries@.len() && self.entries@[i].0@ == k
    }

    /// What the order of the entries tells of the contents.
    pub proof fn lemma_view(&self)
        requires
            self.well_formed(),
        ensures
            self.key_order().len() == self.size(),
            self.value_order().len() == self.size(),
            self.key_order().no_duplicates(),
            forall|i: int|
                0 <= i < self.size() ==> #[trigger] self@.contains_key(self.key_order()[i])
                    && self@[self.key_order()[i]] == self.value_order()[i],
            forall|k: K::V|
                #[trigger] self@.contains_key(k) ==> exists|i: int|
                    0 <= i < self.size() && self.key_order()[i] == k,
            self@.dom() == self.key_order().to_set(),
            self@.dom().finite(),
            self@.dom().len() == self.size(),
    {
        let ko = self.key_order();
        assert forall|i: int| 0 <= i < self.size() implies #[trigger] self@.contains_key(ko[i])
            && self@[ko[i]] == self.value_order()[i] by {
            assert(self.entries@[i].0@ == ko[i]);
            assert(self.has(ko[i]));
            let j = self.index_of(ko[i]);
            assert(self.entries@[j].0@ == ko[i]);
            if j != i {
                if j < i {
                    assert(self.entries@[j].0@ != self.entries@[i].0@);
                } else {
                    assert(self.entries@[i].0@ != self.entries@[j].0@);
                }
            }
        }
        assert forall|k: K::V| #[trigger] self@.contains_key(k) implies exists|i: int|
            0 <= i < self.size() && ko[i] == k by {
            let j = self.index_of(k);
            assert(ko[j] == k);
        }
        assert forall|i: int, j: int| 0 <= i < ko.len() && 0 <= j < ko.len() && i != j implies ko[i]
            != ko[j] by {
            if i < j {
                assert(self.entries@[i].0@ != self.entries@[j].0@);
            } else {
                assert(self.entries@[j].0@ != self.entries@[i].0@);
            }
        }
        assert(self@.dom() =~= ko.to_set()) by {
            assert forall|k: K::V| self@.dom().contains(k) implies ko.to_set().contains(k) by {
                let i = choose|i: int| 0 <= i < self.size() && ko[i] == k;
                assert(ko.contains(k));
            }
            assert forall|k: K::V| ko.to_set().contains(k) implies self@.dom().contains(k) by {
                let i = choose|i: int| 0 <= i < ko.len() && ko[i] == k;
                assert(self@.contains_key(ko[i]));
            }
        }
        ko.unique_seq_to_set();
    }

    /// An empty map.
    pub fn new() -> (m: Self)
        ensures
            m@ == Map::<K::V, V::V>::empty(),
            m.size() == 0,
    {
        let m = VecMap { entries: Vec::new() };
        assert(m@ =~= Map::<K::V, V::V>::empty());
        m
    }

    /// The number of entries.
    pub fn len(&self) -> (n: usize)
        ensures
            n == self@.len(),
            n == self.size(),
            n == self.key_order().len(),
            n == self.value_order().len(),
    {
        proof {
            use_type_invariant(self);
            self.lemma_view();
        }
        self.entries.len()
    }

    /// The place of the entry with this key.
    pub fn find(&self, k: &K) -> (r: Option<usize>)
        ensures
            r matches Some(i) ==> i < self.size() && self.key_order()[i as int] == k@,
            r is None <==> !self@.contains_key(k@),
    {
        proof {
            use_type_invariant(self);
            self.lemma_view();
        }
        let n = self.entries.len();
        let mut i: usize = 0;
        while i < n
            invariant
                n == self.entries@.len(),
                i <= n,
                forall|j: int| 0 <= j < i ==> self.entries@[j].0@ != k@,
            decreases n - i,
        {
            if self.entries[i].0.same_key(k) {
                assert(self.key_order()[i as int] == k@);
                return Some(i);
            }
            i = i + 1;
        }
        proof {
            if self@.contains_key(k@) {
                let j = choose|j: int| 0 <= j < self.size() && self.key_order()[j] == k@;
                assert(self.entries@[j].0@ == k@);
            }
        }
        None
    }

    /// The value under a key, if any.
    pub fn get(&self, k: &K) -> (r: Option<&V>)
        ensures
            r is Some <==> self@.contains_key(k@),
            r matches Some(v) ==> v@ == self@[k@] && *v == self.value_of(k@),
    {
        proof {
            use_type_invariant(self);
            self.lemma_view();
        }
        match self.find(k) {
            Some(i) => {
                assert(self.entries@[i as int].1@ == self.value_order()[i as int]);
                proof {
                    let j = self.index_of(k@);
                    assert(self.entries@[i as int].0@ == k@);
                    if j != i {
                        if j < i {
                            assert(self.entries@[j].0@ != self.entries@[i as int].0@);
                        } else {
                            assert(self.entries@[i as int].0@ != self.entries@[j].0@);
                        }
                    }
                }
                Some(&self.entries[i].1)
            },
            None => None,
        }
    }

    /// Whether the key is present.
    pub fn contains_key(&self, k: &K) -> (b: bool)
        ensures
            b == self@.contains_key(k@),
    {
        self.find(k).is_some()
    }

    /// The key of the entry at a place.
    pub fn key_at(&self, i: usize) -> (r: &K)
        requires
            i < self.size(),
        ensures
            r@ == self.key_order()[i as int],
    {
        &self.entries[i].0
    }

    /// The value of the entry at a place.
    pub fn value_at(&self, i: usize) -> (r: &V)
        requires
            i < self.size(),
        ensures
            r@ == self.value_order()[i as int],
    {
        &self.entries[i].1
    }

    /// Sets the value under a key: a present key keeps its place, a new one
    /// goes to the end.
    pub fn insert(&mut self, k: K, v: V)
        ensures
            final(self)@ == old(self)@.insert(k@, v@),
            old(self)@.contains_key(k@) ==> final(self).key_order() == old(self).key_order(),
            !old(self)@.contains_key(k@) ==> final(self).key_order() == old(self).key_order().push(
                k@,
            ),
    {
        proof {
            use_type_invariant(&*self);
            self.lemma_view();
        }
        let ghost old_self = *self;
        let ghost kv = k@;
        let ghost vv = v@;
        let pos = self.find(&k);
        let mut entries: Vec<(K, V)> = Vec::new();
        std::mem::swap(&mut entries, &mut self.entries);
        assert(entries@ == old_self.entries@);
        match pos {
            Some(i) => {
                let _old_entry = entries.remove(i);
                entries.insert(i, (k, v));
                assert(entries@ == old_self.entries@.update(i as int, entries@[i as int]));
                assert forall|a: int, b: int| 0 <= a < b < entries@.len() implies entries@[a].0@
                    != entries@[b].0@ by {
                    assert(old_self.entries@[a].0@ != old_self.entries@[b].0@);
                    assert(old_self.key_order()[i as int] == kv);
                }
                self.entries = entries;
                assert(self.key_order() =~= old_self.key_order());
            },
            None => {
                entries.push((k, v));
                assert forall|a: int, b: int| 0 <= a < b < entries@.len() implies entries@[a].0@
                    != entries@[b].0@ by {
                    if b == old_self.entries@.len() {
                        assert(old_self.key_order()[a] == old_self.entries@[a].0@);
                    } else {
                        assert(old_self.entries@[a].0@ != old_self.entries@[b].0@);
                    }
                }
                self.entries = entries;
                assert(self.key_order() =~= old_self.key_order().push(kv));
            },
        }
        proof {
            assert(self@ =~= old_self@.insert(kv, vv)) by {
                assert forall|key: K::V| self.has(key) == old_self@.insert(kv, vv).contains_key(
                    key,
                ) by {
                    if key == kv {
                        if old_self.has(kv) {
                            let j = old_self.index_of(kv);
                            assert(old_self.key_order()[j] == kv);
                            assert(self.key_order()[j] == kv);
                            assert(self.entries@[j].0@ == kv);
                        } else {
                            let j = old_self.entries@.len() as int;
                            assert(self.key_order()[j] == kv);
                            assert(self.entries@[j].0@ == kv);
                        }
                    } else if old_self.has(key) {
                        let j = old_self.index_of(key);
                        assert(old_self.key_order()[j] == key);
                        assert(self.entries@[j].0@ == key);
                    } else if self.has(key) {
                        let j = self.index_of(key);
                        assert(old_self.entries@[j].0@ == key);
                    }
                }
                assert forall|key: K::V| #[trigger] self.has(key) implies self@[key]
                    == old_self@.insert(kv, vv)[key] by {
                    let j = self.index_of(key);
                    if key == kv {
                        assert(self.entries@[j].0@ == kv);
                    } else {
                        assert(old_self.entries@[j].0@ == key);
                        assert(old_self.has(key));
                        let jo = old_self.index_of(key);
                        if jo != j {
                            if jo < j {
                                assert(old_self.entries@[jo].0@ != old_self.entries@[j].0@);
                            } else {
                                assert(old_self.entries@[j].0@ != old_self.entries@[jo].0@);
                            }
                        }
                    }
                }
            }
        }
    }

    /// Takes out the entry under a key; the last entry moves into its place.
    pub fn remove(&mut self, k: &K) -> (r: Option<V>)
        ensures
            final(self)@ == old(self)@.remove(k@),
            r is Some <==> old(self)@.contains_key(k@),
            r matches Some(v) ==> v@ == old(self)@[k@],
            !old(self)@.contains_key(k@) ==> final(self).key_order() == old(self).key_order(),
    {
        proof {
            use_type_invariant(&*self);
            self.lemma_view();
        }
        let ghost old_self = *self;
        let ghost kv = k@;
        match self.find(k) {
            Some(i) => {
                let mut entries: Vec<(K, V)> = Vec::new();
                std::mem::swap(&mut entries, &mut self.entries);
                let (_key, value) = entries.swap_remove(i);
                proof {
                    let last = old_self.entries@.len() - 1;
                    assert forall|a: int, b: int| 0 <= a < b < entries@.len() implies entries@[a].0@
                        != entries@[b].0@ by {
                        let ao: int = if a == i { last } else { a };
                        let bo: int = if b == i { last } else { b };
                        assert(entries@[a] == old_self.entries@[ao]);
                        assert(entries@[b] == old_self.entries@[bo]);
                        if ao < bo {
                            assert(old_self.entries@[ao].0@ != old_self.entries@[bo].0@);
                        } else {
                            assert(old_self.entries@[bo].0@ != old_self.entries@[ao].0@);
                        }
                    }
                }
                self.entries = entries;
                proof {
                    let last = old_self.entries@.len() - 1;
                    assert(old_self@[kv] == old_self.value_order()[i as int]);
                    assert forall|key: K::V| self.has(key) == old_self@.remove(kv).contains_key(
                        key,
                    ) by {
                        if self.has(key) {
                            let j = self.index_of(key);
                            if j == i {
                                assert(self.entries@[j] == old_self.entries@[last]);
                                assert(old_self.key_order()[last] == key);
                                assert(old_self.key_order()[i as int] == kv);
                            } else {
                                assert(self.entries@[j] == old_self.entries@[j]);
                                assert(old_self.key_order()[j] == key);
                                assert(old_self.key_order()[i as int] == kv);
                            }
                        }
                        if old_self@.remove(kv).contains_key(key) {
                            let j = choose|j: int|
                                0 <= j < old_self.size() && old_self.key_order()[j] == key;
                            assert(j != i);
                            if j == last {
                                assert(self.entries@[i as int] == old_self.entries@[j]);
                            } else {
                                assert(self.entries@[j] == old_self.entries@[j]);
                            }
                        }
                    }
                    assert forall|key: K::V| #[trigger] self.has(key) implies self@[key]
                        == old_self@[key] by {
                        let j = self.index_of(key);
                        let jo: int = if j == i {
                            last
                        } else {
                            j
                        };
                        assert(self.entries@[j] == old_self.entries@[jo]);
                        assert(old_self.key_order()[jo] == key);
                    }
                    assert(self@ =~= old_self@.remove(kv));
                }
                Some(value)
            },
            None => {
                assert(old_self@.remove(kv) =~= old_self@);
                None
            },
        }
    }
}

impl<K: MapKey, V: View> View for VecMap<K, V> {
    type V = Map<K::V, V::V>;

    closed spec fn view(&self) -> Map<K::V, V::V> {
        Map::new(|k: K::V| self.has(k), |k: K::V| self.entries@[self.index_of(k)].1@)
    }
}

impl<K: MapKey, V: Duplicate> Duplicate for VecMap<K, V> {
    fn duplicate(&self) -> (r: Self) {
        proof {
            use_type_invariant(self);
        }
        let n = self.entries.len();
        let mut entries: Vec<(K, V)> = Vec::new();
        let mut i: usize = 0;
        while i < n
            invariant
                n == self.entries@.len(),
                i <= n,
                entries@.len() == i,
                forall|j: int|
                    0 <= j < i ==> entries@[j].0@ == #[trigger] self.entries@[j].0@
                        && entries@[j].1@ == self.entries@[j].1@,
            decreases n - i,
        {
            let k = self.entries[i].0.duplicate();
            let v = self.entries[i].1.duplicate();
            entries.push((k, v));
            i = i + 1;
        }
        assert forall|a: int, b: int| 0 <= a < b < entries@.len() implies entries@[a].0@
            != entries@[b].0@ by {
            assert(self.entries@[a].0@ != self.entries@[b].0@);
        }
        let r = VecMap { entries };
        proof {
            assert forall|k: K::V| r.has(k) == self.has(k) by {
                if r.has(k) {
                    let j = r.index_of(k);
                    assert(self.entries@[j].0@ == k);
                }
                if self.has(k) {
                    let j = self.index_of(k);
                    assert(r.entries@[j].0@ == k);
                }
            }
            assert forall|k: K::V| #[trigger] r.has(k) implies r@[k] == self@[k] by {
                let j = r.index_of(k);
                let js = self.index_of(k);
                assert(self.entries@[j].0@ == k);
                if j != js {
                    if j < js {
                        assert(self.entries@[j].0@ != self.entries@[js].0@);
                    } else {
                        assert(self.entries@[js].0@ != self.entries@[j].0@);
                    }
                }
            }
            assert(r@ =~= self@);
        }
        r
    }
}

/// A set with distinct elements, kept as a vector.
pub struct VecSet<K: MapKey> {
    elems: Vec<K>,
}

impl<K: MapKey> VecSet<K> {
    /// Elements are distinct.
    #[verifier::type_invariant]
    pub closed spec fn well_formed(&self) -> bool {
        forall|i: int, j: int| 0 <= i < j < self.elems@.len() ==> self.elems@[i]@ != self.elems@[j]@
    }

    /// The number of elements.
    pub closed spec fn size(&self) -> nat {
        self.elems@.len()
    }

    /// The elements in their stored order.
    pub closed spec fn order(&self) -> Seq<K::V> {
        self.elems@.map_values(|e: K| e@)
    }

    /// What the stored order tells of the contents.
    pub proof fn lemma_view(&self)
        requires
            self.well_formed(),
        ensures
            self.order().len() == self.size(),
            self.order().no_duplicates(),
            self@ == self.order().to_set(),
            self@.finite(),
            self@.len() == self.size(),
    {
        let o = self.order();
        assert forall|i: int, j: int| 0 <= i < o.len() && 0 <= j < o.len() && i != j implies o[i]
            != o[j] by {
            if i < j {
                assert(self.elems@[i]@ != self.elems@[j]@);
            } else {
                assert(self.elems@[j]@ != self.elems@[i]@);
            }
        }
        assert(self@ =~= o.to_set()) by {
            assert forall|k: K::V| self@.contains(k) implies o.to_set().contains(k) by {
                let i = choose|i: int| 0 <= i < self.elems@.len() && self.elems@[i]@ == k;
                assert(o[i] == k);
                assert(o.contains(k));
            }
            assert forall|k: K::V| o.to_set().contains(k) implies self@.contains(k) by {
                let i = choose|i: int| 0 <= i < o.len() && o[i] == k;
                assert(self.elems@[i]@ == k);
            }
        }
        o.unique_seq_to_set();
    }

    /// An empty set.
    pub fn new() -> (s: Self)
        ensures
            s@ == Set::<K::V>::empty(),
            s.size() == 0,
    {
        let s = VecSet { elems: Vec::new() };
        assert(s@ =~= Set::<K::V>::empty());
        s
    }

    /// The number of elements.
    pub fn len(&self) -> (n: usize)
        ensures
            n == self@.len(),
            n == self.size(),
    {
        proof {
            use_type_invariant(self);
            self.lemma_view();
        }
        self.elems.len()
    }

    /// The place of an element.
    pub fn find(&self, k: &K) -> (r: Option<usize>)
        ensures
            r matches Some(i) ==> i < self.size() && self.order()[i as int] == k@,
            r is None <==> !self@.contains(k@),
    {
        let n = self.elems.len();
        let mut i: usize = 0;
        while i < n
            invariant
                n == self.elems@.len(),
                i <= n,
                forall|j: int| 0 <= j < i ==> self.elems@[j]@ != k@,
            decreases n - i,
        {
            if self.elems[i].same_key(k) {
                assert(self.order()[i as int] == k@);
                return Some(i);
            }
            i = i + 1;
        }
        None
    }

    /// Whether the element is present.
    pub fn contains(&self, k: &K) -> (b: bool)
        ensures
            b == self@.contains(k@),
    {
        self.find(k).is_some()
    }

    /// The element at a place.
    pub fn at(&self, i: usize) -> (r: &K)
        requires
            i < self.size(),
        ensures
            r@ == self.order()[i as int],
    {
        &self.elems[i]
    }

    /// Adds an element at the end, unless present; says whether it was added.
    pub fn insert(&mut self, k: K) -> (added: bool)
        ensures
            final(self)@ == old(self)@.insert(k@),
            added == !old(self)@.contains(k@),
            added ==> final(self).order() == old(self).order().push(k@),
            !added ==> final(self).order() == old(self).order(),
    {
        proof {
            use_type_invariant(&*self);
        }
        let ghost old_self = *self;
        let ghost kv = k@;
        if self.find(&k).is_some() {
            assert(old_self@.insert(kv) =~= old_self@);
            false
        } else {
            let mut elems: Vec<K> = Vec::new();
            std::mem::swap(&mut elems, &mut self.elems);
            elems.push(k);
            assert forall|a: int, b: int| 0 <= a < b < elems@.len() implies elems@[a]@
                != elems@[b]@ by {
                if b == old_self.elems@.len() {
                    assert(old_self.order()[a] == old_self.elems@[a]@);
                } else {
                    assert(old_self.elems@[a]@ != old_self.elems@[b]@);
                }
            }
            self.elems = elems;
            assert(self.order() =~= old_self.order().push(kv));
            assert forall|x: K::V| #[trigger] self@.contains(x) == old_self@.insert(kv).contains(x) by {
                if self@.contains(x) && x != kv {
                    let i = choose|i: int| 0 <= i < self.elems@.len() && self.elems@[i]@ == x;
                    assert(old_self.elems@[i]@ == x);
                }
                if old_self@.contains(x) {
                    let i = choose|i: int| 0 <= i < old_self.elems@.len() && old_self.elems@[i]@ == x;
                    assert(self.elems@[i]@ == x);
                }
                if x == kv {
                    assert(self.elems@[old_self.elems@.len() as int]@ == kv);
                }
            }
            assert(self@ =~= old_self@.insert(kv));
            true
        }
    }

    /// Removes an element, moving the last one into its place; says whether
    /// it was present.
    pub fn remove(&mut self, k: &K) -> (removed: bool)
        ensures
            final(self)@ == old(self)@.remove(k@),
            removed == old(self)@.contains(k@),
            !removed ==> final(self).order() == old(self).order(),
    {
        proof {
            use_type_invariant(&*self);
        }
        let ghost old_self = *self;
        let ghost kv = k@;
        match self.find(k) {
            Some(i) => {
                let mut elems: Vec<K> = Vec::new();
                std::mem::swap(&mut elems, &mut self.elems);
                let _gone = elems.swap_remove(i);
                proof {
                    let last = old_self.elems@.len() - 1;
                    assert forall|a: int, b: int| 0 <= a < b < elems@.len() implies elems@[a]@
                        != elems@[b]@ by {
                        let ao: int = if a == i { last } else { a };
                        let bo: int = if b == i { last } else { b };
                        assert(elems@[a] == old_self.elems@[ao]);
                        assert(elems@[b] == old_self.elems@[bo]);
                        if ao < bo {
                            assert(old_self.elems@[ao]@ != old_self.elems@[bo]@);
                        } else {
                            assert(old_self.elems@[bo]@ != old_self.elems@[ao]@);
                        }
                    }
                }
                self.elems = elems;
                proof {
                    let last = old_self.elems@.len() - 1;
                    assert(old_self.elems@[i as int]@ == kv);
                    assert forall|x: K::V| #[trigger] self@.contains(x) == old_self@.remove(
                        kv,
                    ).contains(x) by {
                        if self@.contains(x) {
                            let j = choose|j: int| 0 <= j < self.elems@.len() && self.elems@[j]@ == x;
                            let jo: int = if j == i {
                                last
                            } else {
                                j
                            };
                            assert(self.elems@[j] == old_self.elems@[jo]);
                            assert(jo != i);
                            if jo < i {
                                assert(old_self.elems@[jo]@ != old_self.elems@[i as int]@);
                            } else {
                                assert(old_self.elems@[i as int]@ != old_self.elems@[jo]@);
                            }
                        }
                        if old_self@.remove(kv).contains(x) {
                            let j = choose|j: int|
                                0 <= j < old_self.elems@.len() && old_self.elems@[j]@ == x;
                            assert(j != i);
                            if j == last {
                                assert(self.elems@[i as int] == old_self.elems@[j]);
                            } else {
                                assert(self.elems@[j] == old_self.elems@[j]);
                            }
                        }
                    }
                    assert(self@ =~= old_self@.remove(kv));
                }
                true
            },
            None => {
                assert(old_self@.remove(kv) =~= old_self@);
                false
            },
        }
    }
}

impl<K: MapKey> View for VecSet<K> {
    type V = Set<K::V>;

    closed spec fn view(&self) -> Set<K::V> {
        Set::new(|k: K::V| exists|i: int| 0 <= i < self.elems@.len() && self.elems@[i]@ == k)
    }
}

impl<K: MapKey> Duplicate for VecSet<K> {
    fn duplicate(&self) -> (r: Self) {
        proof {
            use_type_invariant(self);
        }
        let n = self.elems.len();
        let mut elems: Vec<K> = Vec::new();
        let mut i: usize = 0;
        while i < n
            invariant
                n == self.elems@.len(),
                i <= n,
                elems@.len() == i,
                forall|j: int| 0 <= j < i ==> elems@[j]@ == #[trigger] self.elems@[j]@,
            decreases n - i,
        {
            elems.push(self.elems[i].duplicate());
            i = i + 1;
        }
        assert forall|a: int, b: int| 0 <= a < b < elems@.len() implies elems@[a]@
            != elems@[b]@ by {
            assert(self.elems@[a]@ != self.elems@[b]@);
        }
        let r = VecSet { elems };
        assert forall|k: K::V| #[trigger] r@.contains(k) == self@.contains(k) by {
            if r@.contains(k) {
                let j = choose|j: int| 0 <= j < r.elems@.len() && r.elems@[j]@ == k;
                assert(self.elems@[j]@ == k);
            }
            if self@.contains(k) {
                let j = choose|j: int| 0 <= j < self.elems@.len() && self.elems@[j]@ == k;
                assert(r.elems@[j]@ == k);
            }
        }
        assert(r@ =~= self@);
        r
    }
}

} // verus!
