//! A map whose entries have one number and any number of alternate keys.
use crate::abi::Inode;
use crate::altkey::{AltTuple, InodeAltKey};
use std::collections::BTreeMap;
use vstd::prelude::*;

verus! {

/// What a [`MultikeyBTreeMap`] holds.
#[verifier::reject_recursive_types(V)]
#[verifier::ext_equal]
pub struct MultikeyView<V> {
    /// The value of each number.
    pub main: Map<Inode, V>,
    /// The number that each alternate key stands for.
    pub alt: Map<InodeAltKey, Inode>,
}

impl<V> MultikeyView<V> {
    /// No entry and no alternate key.
    pub open spec fn empty() -> Self {
        MultikeyView { main: Map::empty(), alt: Map::empty() }
    }

    /// Every alternate key stands for the number of an entry.
    pub open spec fn wf(self) -> bool {
        forall|k2: InodeAltKey|
            #[trigger] self.alt.contains_key(k2) ==> self.main.contains_key(self.alt[k2])
    }

    /// The alternate keys but for those of `k1`.
    pub open spec fn alt_without(self, k1: Inode) -> Map<InodeAltKey, Inode> {
        self.alt.remove_keys(Set::new(|k2: InodeAltKey| self.alt.contains_key(k2) && self.alt[k2] == k1))
    }

    /// With `v` under `k1`, and without any alternate key that `k1` had before.
    pub open spec fn put(self, k1: Inode, v: V) -> Self {
        MultikeyView { main: self.main.insert(k1, v), alt: self.alt_without(k1) }
    }

    /// With `k2` standing for `k1`, whatever it stood for before.
    pub open spec fn put_alt(self, k2: InodeAltKey, k1: Inode) -> Self {
        MultikeyView { main: self.main, alt: self.alt.insert(k2, k1) }
    }

    /// Without the entry of `k1` and its alternate keys.
    pub open spec fn drop(self, k1: Inode) -> Self {
        MultikeyView { main: self.main.remove(k1), alt: self.alt_without(k1) }
    }

    /// With the value of `k1` changed to `v`, and every key kept.
    pub open spec fn set(self, k1: Inode, v: V) -> Self {
        MultikeyView { main: self.main.insert(k1, v), alt: self.alt }
    }
}

/// Putting an entry under a number makes that its value and takes the alternate keys of the number
/// away. Every other number keeps its value, and every other key its number.
pub proof fn law_put<V>(t: MultikeyView<V>, k1: Inode, v: V, other: Inode, k2: InodeAltKey)
    ensures
        t.put(k1, v).main.contains_key(k1),
        t.put(k1, v).main[k1] == v,
        other != k1 ==> (t.put(k1, v).main.contains_key(other) <==> t.main.contains_key(other)),
        other != k1 && t.main.contains_key(other) ==> t.put(k1, v).main[other] == t.main[other],
        t.put(k1, v).alt.contains_key(k2) <==> t.alt.contains_key(k2) && t.alt[k2] != k1,
        t.put(k1, v).alt.contains_key(k2) ==> t.put(k1, v).alt[k2] == t.alt[k2],
{
}

/// A key stands for the number that it was last given to. No other key and no entry changes.
pub proof fn law_put_alt<V>(t: MultikeyView<V>, k2: InodeAltKey, k1: Inode, other: InodeAltKey)
    ensures
        t.put_alt(k2, k1).alt.contains_key(k2),
        t.put_alt(k2, k1).alt[k2] == k1,
        other != k2 ==> (t.put_alt(k2, k1).alt.contains_key(other) <==> t.alt.contains_key(other)),
        other != k2 && t.alt.contains_key(other) ==> t.put_alt(k2, k1).alt[other] == t.alt[other],
        t.put_alt(k2, k1).main == t.main,
{
}

/// Removing an entry takes the number and its alternate keys away, and nothing else.
pub proof fn law_drop<V>(t: MultikeyView<V>, k1: Inode, other: Inode, k2: InodeAltKey)
    ensures
        !t.drop(k1).main.contains_key(k1),
        other != k1 ==> (t.drop(k1).main.contains_key(other) <==> t.main.contains_key(other)),
        other != k1 && t.main.contains_key(other) ==> t.drop(k1).main[other] == t.main[other],
        t.drop(k1).alt.contains_key(k2) <==> t.alt.contains_key(k2) && t.alt[k2] != k1,
        t.drop(k1).alt.contains_key(k2) ==> t.drop(k1).alt[k2] == t.alt[k2],
{
}

/// Changing a value changes no other one, and no key.
pub proof fn law_set<V>(t: MultikeyView<V>, k1: Inode, v: V, other: Inode)
    ensures
        t.set(k1, v).main.contains_key(k1),
        t.set(k1, v).main[k1] == v,
        other != k1 ==> (t.set(k1, v).main.contains_key(other) <==> t.main.contains_key(other)),
        other != k1 && t.main.contains_key(other) ==> t.set(k1, v).main[other] == t.main[other],
        t.set(k1, v).alt == t.alt,
{
}

/// Without entries there is no number and no key.
pub proof fn law_empty<V>(k1: Inode, k2: InodeAltKey)
    ensures
        !MultikeyView::<V>::empty().main.contains_key(k1),
        !MultikeyView::<V>::empty().alt.contains_key(k2),
{
}

/// A map from numbers to values, in which a value can also be found by alternate keys.
#[verifier::reject_recursive_types(V)]
pub struct MultikeyBTreeMap<V> {
    // A copy of the alternate keys is kept with the entry, so that it can be removed by its
    // number alone. A key that has since been given to another entry may still be listed.
    main: BTreeMap<Inode, (Vec<InodeAltKey>, V)>,
    alt: BTreeMap<AltTuple, Inode>,
}

impl<V> View for MultikeyBTreeMap<V> {
    type V = MultikeyView<V>;

    closed spec fn view(&self) -> MultikeyView<V> {
        MultikeyView {
            main: self.main@.map_values(|e: (Vec<InodeAltKey>, V)| e.1),
            alt: Map::new(
                |k2: InodeAltKey| self.alt@.contains_key(k2.tuple_spec()),
                |k2: InodeAltKey| self.alt@[k2.tuple_spec()],
            ),
        }
    }
}

impl<V> MultikeyBTreeMap<V> {
    /// Every alternate key stands for the number of an entry, which lists it.
    pub closed spec fn wf(&self) -> bool {
        forall|k2: InodeAltKey|
            #[trigger] self@.alt.contains_key(k2) ==> {
                &&& self.main@.contains_key(self@.alt[k2])
                &&& self.main@[self@.alt[k2]].0@.contains(k2)
            }
    }

    /// A map without entries.
    pub fn new() -> (r: Self)
        ensures
            r.wf(),
            r@ == MultikeyView::<V>::empty(),
    {
        let r = MultikeyBTreeMap { main: BTreeMap::new(), alt: BTreeMap::new() };
        assert(r@.main =~= Map::<Inode, V>::empty());
        assert(r@.alt =~= Map::<InodeAltKey, Inode>::empty());
        r
    }

    /// What `wf` means for the contents.
    pub proof fn lemma_wf_view(&self)
        requires
            self.wf(),
        ensures
            self@.wf(),
    {
    }

    /// The value of `key`.
    pub fn get(&self, key: &Inode) -> (r: Option<&V>)
        ensures
            match r {
                Some(v) => self@.main.contains_key(*key) && *v == self@.main[*key],
                None => !self@.main.contains_key(*key),
            },
    {
        match self.main.get(key) {
            Some(e) => Some(&e.1),
            None => None,
        }
    }

    /// The value of the entry that `key` stands for.
    pub fn get_alt(&self, key: &InodeAltKey) -> (r: Option<&V>)
        requires
            self.wf(),
        ensures
            match r {
                Some(v) => self@.alt.contains_key(*key) && *v == self@.main[self@.alt[*key]],
                None => !self@.alt.contains_key(*key),
            },
    {
        match self.alt.get(&key.tuple()) {
            Some(k1) => self.get(k1),
            None => None,
        }
    }

    /// Puts `v` under `k1` and returns the value that was there. The alternate keys of the old
    /// entry are forgotten with it.
    pub fn insert(&mut self, k1: Inode, v: V) -> (r: Option<V>)
        requires
            old(self).wf(),
        ensures
            final(self).wf(),
            final(self)@ == old(self)@.put(k1, v),
            match r {
                Some(o) => old(self)@.main.contains_key(k1) && o == old(self)@.main[k1],
                None => !old(self)@.main.contains_key(k1),
            },
    {
        let ghost before = *self;
        let r = match self.main.insert(k1, (Vec::new(), v)) {
            Some((keys, o)) => {
                Self::unlink(&mut self.alt, &keys, k1);
                Some(o)
            },
            None => None,
        };
        proof {
            assert(self@.main =~= before@.put(k1, v).main);
            self.lemma_unlinked(before, k1);
        }
        r
    }

    /// Lets `k2` stand for `k1`, which must have an entry.
    pub fn insert_alt(&mut self, k2: InodeAltKey, k1: Inode)
        requires
            old(self).wf(),
            old(self)@.main.contains_key(k1),
        ensures
            final(self).wf(),
            final(self)@ == old(self)@.put_alt(k2, k1),
    {
        let ghost before = *self;
        if let Some((mut keys, v)) = self.main.remove(&k1) {
            let ghost listed = keys@;
            keys.push(k2);
            proof {
                assert(keys@[listed.len() as int] == k2);
                assert forall|k: InodeAltKey| listed.contains(k) implies keys@.contains(k) by {
                    let j = choose|j: int| 0 <= j < listed.len() && listed[j] == k;
                    assert(keys@[j] == k);
                }
            }
            self.main.insert(k1, (keys, v));
        }
        self.alt.insert(k2.tuple(), k1);
        proof {
            assert(self@.main =~= before@.main);
            assert forall|k: InodeAltKey| true implies (k.tuple_spec() == k2.tuple_spec() <==> k
                == k2) by {
                InodeAltKey::lemma_tuple_injective(k, k2);
            }
            assert(self@.alt =~= before@.alt.insert(k2, k1));
        }
    }

    /// Removes the entry of `key` with its alternate keys, and returns its value.
    pub fn remove(&mut self, key: &Inode) -> (r: Option<V>)
        requires
            old(self).wf(),
        ensures
            final(self).wf(),
            final(self)@ == old(self)@.drop(*key),
            match r {
                Some(o) => old(self)@.main.contains_key(*key) && o == old(self)@.main[*key],
                None => !old(self)@.main.contains_key(*key),
            },
    {
        let ghost before = *self;
        let r = match self.main.remove(key) {
            Some((keys, o)) => {
                Self::unlink(&mut self.alt, &keys, *key);
                Some(o)
            },
            None => None,
        };
        proof {
            assert(self@.main =~= before@.drop(*key).main);
            self.lemma_unlinked(before, *key);
        }
        r
    }

    /// Changes the value of `key` by `change` and keeps its alternate keys.
    pub fn update<C: FnOnce(V) -> V>(&mut self, key: &Inode, change: C)
        requires
            old(self).wf(),
            old(self)@.main.contains_key(*key),
            change.requires((old(self)@.main[*key],)),
        ensures
            final(self).wf(),
            final(self)@.main.contains_key(*key),
            change.ensures((old(self)@.main[*key],), final(self)@.main[*key]),
            final(self)@ == old(self)@.set(*key, final(self)@.main[*key]),
    {
        let ghost before = *self;
        if let Some((keys, v)) = self.main.remove(key) {
            let w = change(v);
            self.main.insert(*key, (keys, w));
        }
        assert(self@.main =~= before@.main.insert(*key, self@.main[*key]));
        assert(self@.alt =~= before@.alt);
    }

    /// Removes every entry.
    pub fn clear(&mut self)
        ensures
            final(self).wf(),
            final(self)@ == MultikeyView::<V>::empty(),
    {
        self.alt.clear();
        self.main.clear();
        assert(self@.main =~= Map::<Inode, V>::empty());
        assert(self@.alt =~= Map::<InodeAltKey, Inode>::empty());
    }

    /// The keys of `alt` that stand for `k1` and are listed in `keys`.
    spec fn listed(alt: Map<AltTuple, Inode>, keys: Seq<InodeAltKey>, k1: Inode, k: AltTuple) -> bool {
        &&& alt.contains_key(k)
        &&& alt[k] == k1
        &&& exists|j: int| 0 <= j < keys.len() && (#[trigger] keys[j]).tuple_spec() == k
    }

    /// Takes out of `alt` those of `keys` that stand for `k1`.
    fn unlink(alt: &mut BTreeMap<AltTuple, Inode>, keys: &Vec<InodeAltKey>, k1: Inode)
        ensures
            forall|k: AltTuple| #[trigger]
                final(alt)@.contains_key(k) <==> old(alt)@.contains_key(k) && !Self::listed(
                    old(alt)@,
                    keys@,
                    k1,
                    k,
                ),
            forall|k: AltTuple| #[trigger]
                final(alt)@.contains_key(k) ==> final(alt)@[k] == old(alt)@[k],
    {
        let ghost before = alt@;
        for i in 0..keys.len()
            invariant
                forall|k: AltTuple| #[trigger]
                    alt@.contains_key(k) <==> before.contains_key(k) && !Self::listed(
                        before,
                        keys@.take(i as int),
                        k1,
                        k,
                    ),
                forall|k: AltTuple| #[trigger] alt@.contains_key(k) ==> alt@[k] == before[k],
        {
            let k2 = keys[i].tuple();
            let ghost at = alt@;
            let mine = match alt.get(&k2) {
                Some(owner) => *owner == k1,
                None => false,
            };
            if mine {
                alt.remove(&k2);
            }
            proof {
                let done = keys@.take(i as int);
                let next = keys@.take(i + 1);
                assert forall|k: AltTuple| true implies (#[trigger] Self::listed(before, next, k1, k)
                    <==> Self::listed(before, done, k1, k) || (before.contains_key(k) && before[k]
                    == k1 && k == k2)) by {
                    if Self::listed(before, done, k1, k) {
                        let j = choose|j: int|
                            0 <= j < done.len() && (#[trigger] done[j]).tuple_spec() == k;
                        assert(next[j].tuple_spec() == k);
                    }
                    if before.contains_key(k) && before[k] == k1 && k == k2 {
                        assert(next[i as int].tuple_spec() == k);
                    }
                    if Self::listed(before, next, k1, k) {
                        let j = choose|j: int|
                            0 <= j < next.len() && (#[trigger] next[j]).tuple_spec() == k;
                        if j < i {
                            assert(done[j].tuple_spec() == k);
                        }
                    }
                }
            }
        }
        assert(keys@.take(keys@.len() as int) =~= keys@);
    }

    /// Once the keys listed for `k1` are taken out, no alternate key stands for `k1`.
    proof fn lemma_unlinked(&self, before: Self, k1: Inode)
        requires
            before.wf(),
            forall|k: Inode|
                k != k1 && #[trigger] before.main@.contains_key(k) ==> self.main@.contains_key(k)
                    && self.main@[k] == before.main@[k],
            before.main@.contains_key(k1) ==> (forall|k: AltTuple| #[trigger]
                self.alt@.contains_key(k) <==> before.alt@.contains_key(k) && !Self::listed(
                    before.alt@,
                    before.main@[k1].0@,
                    k1,
                    k,
                )),
            before.main@.contains_key(k1) ==> (forall|k: AltTuple| #[trigger]
                self.alt@.contains_key(k) ==> self.alt@[k] == before.alt@[k]),
            !before.main@.contains_key(k1) ==> self.alt@ == before.alt@,
        ensures
            self.wf(),
            self@.alt == before@.alt_without(k1),
    {
        assert forall|k2: InodeAltKey| true implies (#[trigger] self@.alt.contains_key(k2)
            <==> before@.alt.contains_key(k2) && before@.alt[k2] != k1) by {
            let k = k2.tuple_spec();
            assert(self@.alt.contains_key(k2) == self.alt@.contains_key(k));
            if before@.alt.contains_key(k2) && before@.alt[k2] == k1 {
                let keys = before.main@[k1].0@;
                assert(keys.contains(k2));
                let j = choose|j: int| 0 <= j < keys.len() && keys[j] == k2;
                assert(keys[j].tuple_spec() == k);
                assert(Self::listed(before.alt@, keys, k1, k));
            }
        }
        assert(self@.alt =~= before@.alt_without(k1));
    }
}

} // verus!
