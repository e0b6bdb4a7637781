//! The attributes of an entity's state: a map from attribute names to string
//! values, kept in the order of its keys.

use vstd::prelude::*;
use crate::state::order::{lex_lt, strictly_sorted, str_lt, lemma_total, lemma_transitive, lemma_irreflexive, lemma_asymmetric};
use crate::discovery::strings::str_equal;

verus! {

/// A value that can be held as an attribute value.
pub trait AttributeValue: Sized {
    /// Builds the value from its text.
    fn from_string(value: String) -> Self;
}

/// A value that can be held as an attribute name.
pub trait AttributeKey: AttributeValue {}

impl AttributeValue for String {
    fn from_string(value: String) -> (res: String)
        ensures
            res@ == value@,
    {
        value
    }
}

impl AttributeKey for String {}

/// The attributes of an entity state: a map from attribute names to values,
/// kept in increasing order of the names.
pub struct Attributes {
    entries: Vec<(String, String)>,
}

/// Where a key is, or would go, in a map.
pub struct Slot {
    pub found: bool,
    pub position: usize,
}

impl Attributes {
    /// What the map holds.
    pub closed spec fn view(&self) -> Map<Seq<char>, Seq<char>> {
        Map::new(
            |k: Seq<char>| exists|i: int| 0 <= i < self.entries.len() && self.entries[i].0@ == k,
            |k: Seq<char>| self.entries[self.key_index(k)].1@,
        )
    }

    /// Where key `k` is kept.
    pub closed spec fn key_index(&self, k: Seq<char>) -> int {
        choose|i: int| 0 <= i < self.entries.len() && self.entries[i].0@ == k
    }

    /// `m` holds exactly the entries.
    pub closed spec fn represents(&self, m: Map<Seq<char>, Seq<char>>) -> bool {
        &&& forall|i: int|
            0 <= i < self.entries.len() ==> {
                &&& m.dom().contains(#[trigger] self.entries[i].0@)
                &&& m[self.entries[i].0@] == self.entries[i].1@
            }
        &&& forall|k: Seq<char>|
            #[trigger] m.dom().contains(k) ==> exists|i: int|
                0 <= i < self.entries.len() && self.entries[i].0@ == k
    }

    /// Keys are not repeated.
    proof fn lemma_distinct(&self, i: int, j: int)
        requires
            self.wf(),
            0 <= i < self.entries.len(),
            0 <= j < self.entries.len(),
            i != j,
        ensures
            self.entries[i].0@ != self.entries[j].0@,
    {
        let keys = self.keys();
        assert(keys[i] == self.entries[i].0@);
        assert(keys[j] == self.entries[j].0@);
        if i < j {
            assert(lex_lt(keys[i], keys[j]));
            lemma_irreflexive(keys[i]);
        } else {
            assert(lex_lt(keys[j], keys[i]));
            lemma_irreflexive(keys[j]);
        }
    }

    /// What the map holds is what its entries hold.
    proof fn lemma_view(&self)
        requires
            self.wf(),
        ensures
            self.represents(self.view()),
    {
        assert forall|i: int| 0 <= i < self.entries.len() implies {
            &&& self.view().dom().contains(#[trigger] self.entries[i].0@)
            &&& self.view()[self.entries[i].0@] == self.entries[i].1@
        } by {
            let k = self.entries[i].0@;
            assert(exists|j: int| 0 <= j < self.entries.len() && self.entries[j].0@ == k) by {
                assert(self.entries[i].0@ == k);
            }
            let j = self.key_index(k);
            if j != i {
                self.lemma_distinct(i, j);
            }
        }
    }

    /// Any map that holds exactly the entries is what the map holds.
    proof fn lemma_view_is(&self, m: Map<Seq<char>, Seq<char>>)
        requires
            self.wf(),
            self.represents(m),
        ensures
            self.view() == m,
    {
        self.lemma_view();
        assert forall|k: Seq<char>| self.view().dom().contains(k) <==> m.dom().contains(k) by {
            if m.dom().contains(k) {
                let i = choose|i: int| 0 <= i < self.entries.len() && self.entries[i].0@ == k;
                assert(self.view().dom().contains(self.entries[i].0@));
            }
            if self.view().dom().contains(k) {
                let i = choose|i: int| 0 <= i < self.entries.len() && self.entries[i].0@ == k;
                assert(m.dom().contains(self.entries[i].0@));
            }
        }
        assert forall|k: Seq<char>| #[trigger] m.dom().contains(k) implies self.view()[k] == m[k] by {
            let i = choose|i: int| 0 <= i < self.entries.len() && self.entries[i].0@ == k;
            assert(m[self.entries[i].0@] == self.entries[i].1@);
            assert(self.view()[self.entries[i].0@] == self.entries[i].1@);
        }
        assert(self.view() =~= m);
    }

    /// The keys, in the order in which they are kept.
    pub closed spec fn keys(&self) -> Seq<Seq<char>> {
        self.entries@.map_values(|e: (String, String)| e.0@)
    }

    /// The entries, as strings, in the order in which they are kept.
    pub closed spec fn pairs(&self) -> Seq<(Seq<char>, Seq<char>)> {
        self.entries@.map_values(|e: (String, String)| (e.0@, e.1@))
    }

    /// The entries represent what the map holds, in increasing key order.
    pub closed spec fn wf(&self) -> bool {
        strictly_sorted(self.keys())
    }

    /// `slot` is where `key` is, or would be inserted to keep the keys in order.
    pub closed spec fn places(&self, key: Seq<char>, slot: Slot) -> bool {
        &&& slot.position <= self.entries.len()
        &&& forall|i: int| 0 <= i < slot.position ==> lex_lt(#[trigger] self.entries[i].0@, key)
        &&& slot.found ==> slot.position < self.entries.len() && self.entries[slot.position as int].0@ == key
        &&& !slot.found ==> forall|j: int|
            slot.position <= j < self.entries.len() ==> lex_lt(key, #[trigger] self.entries[j].0@)
    }

    /// The empty map.
    pub fn new() -> (res: Attributes)
        ensures
            res.wf(),
            res.view() == Map::<Seq<char>, Seq<char>>::empty(),
            res.view().dom().finite(),
    {
        let res = Attributes { entries: Vec::new() };
        assert(res.view() =~= Map::<Seq<char>, Seq<char>>::empty());
        res
    }

    /// Finds where `key` is, or would go.
    pub fn locate(&self, key: &str) -> (slot: Slot)
        requires
            self.wf(),
        ensures
            self.places(key@, slot),
            slot.found == self.view().dom().contains(key@),
    {
        let n = self.entries.len();
        let mut i: usize = 0;
        while i < n && str_lt(self.entries[i].0.as_str(), key)
            invariant
                n == self.entries.len(),
                i <= n,
                forall|j: int| 0 <= j < i ==> lex_lt(#[trigger] self.entries[j].0@, key@),
            decreases n - i,
        {
            i = i + 1;
        }
        let found = i < n && str_equal(self.entries[i].0.as_str(), key);
        let slot = Slot { found, position: i };
        proof {
            self.lemma_view();
            if !found && i < n {
                let ki = self.entries[i as int].0@;
                assert(!lex_lt(ki, key@));
                assert(ki != key@);
                lemma_total(ki, key@);
                assert forall|j: int| i <= j < self.entries.len() implies lex_lt(key@, #[trigger] self.entries[j].0@) by {
                    if j > i {
                        assert(lex_lt(self.keys()[i as int], self.keys()[j]));
                        lemma_transitive(key@, ki, self.entries[j].0@);
                    }
                }
            }
            if !found && self.view().dom().contains(key@) {
                let j = choose|j: int| 0 <= j < self.entries.len() && self.entries[j].0@ == key@;
                if j < i {
                    lemma_irreflexive(key@);
                } else {
                    assert(lex_lt(key@, self.entries[j].0@));
                    lemma_irreflexive(key@);
                }
            }
        }
        slot
    }

    /// The value held under `key`, if any.
    pub fn get_inner(&self, key: &str) -> (res: Option<&String>)
        requires
            self.wf(),
        ensures
            match res {
                Some(v) => self.view().dom().contains(key@) && v@ == self.view()[key@],
                None => !self.view().dom().contains(key@),
            },
    {
        let slot = self.locate(key);
        proof {
            self.lemma_view();
        }
        if slot.found {
            Some(&self.entries[slot.position].1)
        } else {
            None
        }
    }

    /// The value held under `key`, as text, if any.
    pub fn get(&self, key: &str) -> (res: Option<&str>)
        requires
            self.wf(),
        ensures
            match res {
                Some(v) => self.view().dom().contains(key@) && v@ == self.view()[key@],
                None => !self.view().dom().contains(key@),
            },
    {
        match self.get_inner(key) {
            Some(v) => Some(v.as_str()),
            None => None,
        }
    }

    /// Stores `value` under `key`; returns the value it replaces, if any.
    pub fn insert(&mut self, key: String, value: String) -> (res: Option<String>)
        requires
            old(self).wf(),
        ensures
            final(self).wf(),
            final(self).view() == old(self).view().insert(key@, value@),
            final(self).view().dom().finite(),
            match res {
                Some(v) => old(self).view().dom().contains(key@) && v@ == old(self).view()[key@],
                None => !old(self).view().dom().contains(key@),
            },
    {
        let slot = self.locate(key.as_str());
        let res = self.put(slot, key, value);
        proof {
            self.lemma_len();
        }
        res
    }

    /// Stores `value` under `key` at `slot`, the place of `key`.
    fn put(&mut self, slot: Slot, key: String, value: String) -> (res: Option<String>)
        requires
            old(self).wf(),
            old(self).places(key@, slot),
            slot.found == old(self).view().dom().contains(key@),
        ensures
            final(self).wf(),
            final(self).view() == old(self).view().insert(key@, value@),
            final(self).places(key@, Slot { found: true, position: slot.position }),
            match res {
                Some(v) => old(self).view().dom().contains(key@) && v@ == old(self).view()[key@],
                None => !old(self).view().dom().contains(key@),
            },
    {
        let ghost before = self.entries@;
        let ghost old_view = self.view();
        let ghost k = key@;
        proof {
            self.lemma_view();
        }
        let p = slot.position;
        let res = if slot.found {
            let (kept, previous) = self.entries.remove(p);
            self.entries.insert(p, (kept, value));
            Some(previous)
        } else {
            self.entries.insert(p, (key, value));
            None
        };
        let ghost m = old_view.insert(k, self.entries[p as int].1@);
        proof {
            let n = self.entries.len();
            assert(self.entries[p as int].0@ == k);
            assert forall|i: int, j: int| 0 <= i < j < self.keys().len() implies lex_lt(
                #[trigger] self.keys()[i],
                #[trigger] self.keys()[j],
            ) by {
                assert(self.keys()[i] == self.entries[i].0@);
                assert(self.keys()[j] == self.entries[j].0@);
                if slot.found {
                    assert(self.entries[i].0@ == before[i].0@);
                    assert(self.entries[j].0@ == before[j].0@);
                    assert(lex_lt(before.map_values(|e: (String, String)| e.0@)[i], before.map_values(|e: (String, String)| e.0@)[j]));
                } else {
                    let oi = if i < p { i } else { i - 1 };
                    let oj = if j < p { j } else { j - 1 };
                    let bk = before.map_values(|e: (String, String)| e.0@);
                    if i == p {
                        assert(lex_lt(k, before[oj].0@));
                    } else if j == p {
                        assert(lex_lt(before[oi].0@, k));
                    } else {
                        assert(self.entries[i] == before[oi]);
                        assert(self.entries[j] == before[oj]);
                        assert(lex_lt(bk[oi], bk[oj]));
                    }
                }
            }
            assert forall|i: int| 0 <= i < self.entries.len() implies {
                &&& m.dom().contains(#[trigger] self.entries[i].0@)
                &&& m[self.entries[i].0@] == self.entries[i].1@
            } by {
                if i != p {
                    let oi = if slot.found || i < p { i } else { i - 1 };
                    assert(self.entries[i] == before[oi]);
                    if before[oi].0@ == k {
                        if oi < p {
                            lemma_irreflexive(k);
                        } else if slot.found {
                            assert(lex_lt(self.keys()[p as int], self.keys()[i]) || lex_lt(self.keys()[i], self.keys()[p as int]));
                            lemma_irreflexive(k);
                        } else {
                            lemma_irreflexive(k);
                        }
                    }
                }
            }
            assert forall|x: Seq<char>| #[trigger] m.dom().contains(x) implies exists|i: int|
                0 <= i < self.entries.len() && self.entries[i].0@ == x by {
                if x == k {
                    assert(self.entries[p as int].0@ == x);
                } else {
                    let oi = choose|i: int| 0 <= i < before.len() && before[i].0@ == x;
                    let ni = if slot.found || oi < p { oi } else { oi + 1 };
                    assert(self.entries[ni] == before[oi]);
                }
            }
            assert forall|i: int| 0 <= i < p implies lex_lt(#[trigger] self.entries[i].0@, k) by {
                assert(self.entries[i] == before[i]);
            }
            self.lemma_view_is(m);
        }
        res
    }

    /// Takes the value held under `key` out of the map, if any.
    pub fn remove(&mut self, key: &str) -> (res: Option<String>)
        requires
            old(self).wf(),
        ensures
            final(self).wf(),
            final(self).view() == old(self).view().remove(key@),
            final(self).view().dom().finite(),
            match res {
                Some(v) => old(self).view().dom().contains(key@) && v@ == old(self).view()[key@],
                None => !old(self).view().dom().contains(key@),
            },
    {
        let slot = self.locate(key);
        proof {
            self.lemma_view();
        }
        if !slot.found {
            assert(self.view().remove(key@) =~= self.view());
            proof {
                self.lemma_len();
            }
            return None;
        }
        let ghost before = self.entries@;
        let ghost k = key@;
        let ghost m = self.view().remove(k);
        let p = slot.position;
        let (_, value) = self.entries.remove(p);
        proof {
            assert forall|i: int, j: int| 0 <= i < j < self.keys().len() implies lex_lt(
                #[trigger] self.keys()[i],
                #[trigger] self.keys()[j],
            ) by {
                let oi = if i < p { i } else { i + 1 };
                let oj = if j < p { j } else { j + 1 };
                let bk = before.map_values(|e: (String, String)| e.0@);
                assert(self.keys()[i] == bk[oi]);
                assert(self.keys()[j] == bk[oj]);
            }
            assert forall|i: int| 0 <= i < self.entries.len() implies {
                &&& m.dom().contains(#[trigger] self.entries[i].0@)
                &&& m[self.entries[i].0@] == self.entries[i].1@
            } by {
                let oi = if i < p { i } else { i + 1 };
                assert(self.entries[i] == before[oi]);
                let bk = before.map_values(|e: (String, String)| e.0@);
                if oi < p {
                    assert(lex_lt(bk[oi], bk[p as int]));
                    lemma_irreflexive(k);
                } else {
                    assert(lex_lt(bk[p as int], bk[oi]));
                    lemma_irreflexive(k);
                }
            }
            assert forall|x: Seq<char>| #[trigger] m.dom().contains(x) implies exists|i: int|
                0 <= i < self.entries.len() && self.entries[i].0@ == x by {
                let oi = choose|i: int| 0 <= i < before.len() && before[i].0@ == x;
                assert(oi != p);
                let ni = if oi < p { oi } else { oi - 1 };
                assert(self.entries[ni] == before[oi]);
            }
            self.lemma_view_is(m);
            self.lemma_len();
        }
        Some(value)
    }
}

impl Attributes {
    /// The entries, in increasing order of their keys.
    pub fn entries(&self) -> (res: &Vec<(String, String)>)
        requires
            self.wf(),
        ensures
            res@.len() == self.view().dom().len(),
            strictly_sorted(res@.map_values(|e: (String, String)| e.0@)),
            forall|i: int|
                0 <= i < res@.len() ==> {
                    &&& self.view().dom().contains(#[trigger] res@[i].0@)
                    &&& self.view()[res@[i].0@] == res@[i].1@
                },
            forall|k: Seq<char>|
                #[trigger] self.view().dom().contains(k) ==> exists|i: int| 0 <= i < res@.len() && res@[i].0@ == k,
    {
        proof {
            self.lemma_len();
            self.lemma_view();
        }
        &self.entries
    }

    /// Changing the value of the entry at `p` keeps the map well formed and
    /// changes what it holds under that entry's key only.
    proof fn lemma_set_value(before: Attributes, after: Attributes, p: int, v: String)
        requires
            before.wf(),
            0 <= p < before.entries.len(),
            after.entries@ == before.entries@.update(p, (before.entries[p].0, v)),
        ensures
            after.wf(),
            after.view() == before.view().insert(before.entries[p].0@, v@),
    {
        let k = before.entries[p].0@;
        assert(after.keys() =~= before.keys());
        before.lemma_view();
        let m = before.view().insert(k, v@);
        assert forall|i: int| 0 <= i < after.entries.len() implies {
            &&& m.dom().contains(#[trigger] after.entries[i].0@)
            &&& m[after.entries[i].0@] == after.entries[i].1@
        } by {
            if i != p {
                before.lemma_distinct(i, p);
            }
        }
        assert forall|x: Seq<char>| #[trigger] m.dom().contains(x) implies exists|i: int|
            0 <= i < after.entries.len() && after.entries[i].0@ == x by {
            if x == k {
                assert(after.entries[p].0@ == x);
            } else {
                let i = choose|i: int| 0 <= i < before.entries.len() && before.entries[i].0@ == x;
                assert(after.entries[i].0@ == x);
            }
        }
        after.lemma_view_is(m);
    }

    /// The number of keys is the number of entries.
    proof fn lemma_len(&self)
        requires
            self.wf(),
        ensures
            self.view().dom().len() == self.entries.len(),
            self.view().dom().finite(),
    {
        let keys = self.keys();
        assert forall|i: int, j: int| 0 <= i < keys.len() && 0 <= j < keys.len() && i != j implies keys[i] != keys[j] by {
            if i < j {
                assert(lex_lt(keys[i], keys[j]));
                lemma_irreflexive(keys[i]);
            } else {
                assert(lex_lt(keys[j], keys[i]));
                lemma_irreflexive(keys[j]);
            }
        }
        keys.unique_seq_to_set();
        self.lemma_view();
        assert(keys.to_set() =~= self.view().dom()) by {
            assert forall|k: Seq<char>| keys.to_set().contains(k) implies self.view().dom().contains(k) by {
                let i = choose|i: int| 0 <= i < keys.len() && keys[i] == k;
                assert(self.entries[i].0@ == k);
            }
            assert forall|k: Seq<char>| self.view().dom().contains(k) implies keys.to_set().contains(k) by {
                let i = choose|i: int| 0 <= i < self.entries.len() && self.entries[i].0@ == k;
                assert(keys[i] == k);
            }
        }
    }
}

/// One key of an attribute map, present or not, through which its value can
/// be read, set or changed.
pub struct Entry<'b> {
    pub map: &'b mut Attributes,
    pub key: String,
    pub slot: Slot,
}

impl Attributes {
    /// The entry of attribute `key`.
    pub fn entry(&mut self, key: String) -> (res: Entry<'_>)
        requires
            old(self).wf(),
        ensures
            *res.map == *old(self),
            res.key@ == key@,
            res.map.places(key@, res.slot),
            res.slot.found == old(self).view().dom().contains(key@),
            *final(self) == *final(res.map),
    {
        let slot = self.locate(key.as_str());
        Entry { map: self, key, slot }
    }
}

impl<'b> Entry<'b> {
    /// The entry's key, as text.
    pub fn key(&self) -> (res: &str)
        ensures
            res@ == self.key@,
    {
        self.key.as_str()
    }

    /// The entry's key.
    pub fn key_inner(&self) -> (res: &String)
        ensures
            res@ == self.key@,
    {
        &self.key
    }
}

impl<'b> Entry<'b> {
    /// The value of the entry's key, after storing `default` there when the
    /// key held nothing.
    pub fn or_insert(self, default: String) -> (res: &'b mut String)
        requires
            self.map.wf(),
            self.map.places(self.key@, self.slot),
            self.slot.found == self.map.view().dom().contains(self.key@),
        ensures
            res@ == (if old(self.map).view().dom().contains(self.key@) {
                old(self.map).view()[self.key@]
            } else {
                default@
            }),
            final(self.map).wf(),
            final(self.map).view() == old(self.map).view().insert(self.key@, final(res)@),
    {
        let map = self.map;
        let p = self.slot.position;
        if !self.slot.found {
            map.put(self.slot, self.key, default);
        }
        let ghost mid = *map;
        proof {
            mid.lemma_view();
            old(self.map).lemma_view();
            assert(mid.entries[p as int].0@ == self.key@);
            assert(mid.entries[p as int].1@ == (if old(self.map).view().dom().contains(self.key@) {
                old(self.map).view()[self.key@]
            } else {
                default@
            }));
            assert forall|after: Attributes, v: String|
                #![trigger after.entries@, mid.entries@.update(p as int, (mid.entries[p as int].0, v))]
                after.entries@ == mid.entries@.update(p as int, (mid.entries[p as int].0, v)) implies
                after.wf() && after.view() == mid.view().insert(mid.entries[p as int].0@, v@) by {
                Attributes::lemma_set_value(mid, after, p as int, v);
            }
        }
        let e = &mut map.entries[p];
        let r = &mut e.1;
        r
    }
}

impl<'b> Entry<'b> {
    /// The value of the entry's key, after storing there what `default`
    /// returns when the key held nothing (`default` is called only then).
    pub fn or_insert_with<F: FnOnce() -> String>(self, default: F) -> (res: &'b mut String)
        requires
            self.map.wf(),
            self.map.places(self.key@, self.slot),
            self.slot.found == self.map.view().dom().contains(self.key@),
            !self.slot.found ==> call_requires(default, ()),
        ensures
            old(self.map).view().dom().contains(self.key@) ==> res@ == old(self.map).view()[self.key@],
            !old(self.map).view().dom().contains(self.key@) ==> exists|v: String| call_ensures(default, (), v) && v@ == res@,
            final(self.map).wf(),
            final(self.map).view() == old(self.map).view().insert(self.key@, final(res)@),
    {
        if self.slot.found {
            self.or_insert(String::new())
        } else {
            let value = default();
            self.or_insert(value)
        }
    }

    /// The entry after `f` has changed the value of its key, when the key
    /// holds one; `f` is given that value and returns its replacement.
    pub fn and_modify<F: FnOnce(String) -> String>(self, f: F) -> (res: Entry<'b>)
        requires
            self.map.wf(),
            self.map.places(self.key@, self.slot),
            self.slot.found == self.map.view().dom().contains(self.key@),
            self.slot.found ==> forall|s: String| s@ == self.map.view()[self.key@] ==> call_requires(f, (s,)),
        ensures
            res.key@ == self.key@,
            res.slot == self.slot,
            res.map.wf(),
            res.map.places(self.key@, res.slot),
            res.slot.found == res.map.view().dom().contains(self.key@),
            !old(self.map).view().dom().contains(self.key@) ==> res.map.view() == old(self.map).view(),
            old(self.map).view().dom().contains(self.key@) ==> exists|s: String, v: String| {
                &&& s@ == old(self.map).view()[self.key@]
                &&& call_ensures(f, (s,), v)
                &&& res.map.view() == old(self.map).view().insert(self.key@, v@)
            },
            *final(self.map) == *final(res.map),
    {
        let map = self.map;
        if self.slot.found {
            let p = self.slot.position;
            let ghost mid = *map;
            proof {
                mid.lemma_view();
            }
            let mut taken = String::new();
            std::mem::swap(&mut taken, &mut map.entries[p].1);
            assert(taken@ == mid.view()[self.key@]);
            let value = f(taken);
            let ghost v = value;
            map.entries[p].1 = value;
            proof {
                assert(map.entries@ == mid.entries@.update(p as int, (mid.entries[p as int].0, v)));
                Attributes::lemma_set_value(mid, *map, p as int, v);
                assert(mid.entries[p as int].0@ == self.key@);
                assert(map.entries[p as int].0@ == self.key@);
                assert forall|i: int| 0 <= i < self.slot.position implies lex_lt(#[trigger] map.entries[i].0@, self.key@) by {
                    assert(map.entries[i] == mid.entries[i]);
                }
                map.lemma_view();
            }
            Entry { map, key: self.key, slot: self.slot }
        } else {
            Entry { map, key: self.key, slot: self.slot }
        }
    }
}

impl Attributes {
    /// Two maps hold the same attributes exactly when their entries are the same.
    proof fn lemma_same_view_same_entries(&self, other: &Attributes)
        requires
            self.wf(),
            other.wf(),
            self.view() == other.view(),
        ensures
            self.pairs() == other.pairs(),
    {
        self.lemma_len();
        other.lemma_len();
        self.lemma_view();
        other.lemma_view();
        let n = self.entries.len();
        assert forall|i: int| 0 <= i < n implies self.entries[i].0@ == other.entries[i].0@ by {
            self.lemma_same_key_at(other, i);
        }
        assert forall|i: int| 0 <= i < n implies self.entries[i].1@ == other.entries[i].1@ by {
            let k = self.entries[i].0@;
            assert(self.view()[k] == self.entries[i].1@);
            assert(other.view()[k] == other.entries[i].1@);
        }
        assert(self.pairs() =~= other.pairs());
    }

    /// Maps holding the same attributes keep the same key at each position.
    proof fn lemma_same_key_at(&self, other: &Attributes, i: int)
        requires
            self.wf(),
            other.wf(),
            self.view() == other.view(),
            self.entries.len() == other.entries.len(),
            self.represents(self.view()),
            other.represents(other.view()),
            0 <= i < self.entries.len(),
        ensures
            self.entries[i].0@ == other.entries[i].0@,
        decreases i,
    {
        let a = self.entries[i].0@;
        let b = other.entries[i].0@;
        if a != b {
            lemma_total(a, b);
            if lex_lt(a, b) {
                // `a` is held by `other` at some position `j`.
                let j = choose|j: int| 0 <= j < other.entries.len() && other.entries[j].0@ == a;
                if j < i {
                    self.lemma_same_key_at(other, j);
                    self.lemma_distinct(i, j);
                } else if j > i {
                    assert(lex_lt(other.keys()[i], other.keys()[j]));
                    lemma_asymmetric(a, b);
                } else {
                }
            } else {
                let j = choose|j: int| 0 <= j < self.entries.len() && self.entries[j].0@ == b;
                if j < i {
                    self.lemma_same_key_at(other, j);
                    other.lemma_distinct(i, j);
                } else if j > i {
                    assert(lex_lt(self.keys()[i], self.keys()[j]));
                    lemma_asymmetric(b, a);
                } else {
                }
            }
        }
    }

    /// Whether both hold the same attributes.
    pub fn same_as(&self, other: &Attributes) -> (res: bool)
        requires
            self.wf(),
            other.wf(),
        ensures
            res == (self.view() == other.view()),
    {
        proof {
            self.lemma_view();
            other.lemma_view();
        }
        let n = self.entries.len();
        if n != other.entries.len() {
            proof {
                self.lemma_len();
                other.lemma_len();
            }
            return false;
        }
        let mut i: usize = 0;
        while i < n
            invariant
                self.wf(),
                other.wf(),
                n == self.entries.len(),
                n == other.entries.len(),
                i <= n,
                forall|j: int| 0 <= j < i ==> self.entries[j].0@ == other.entries[j].0@ && self.entries[j].1@ == other.entries[j].1@,
            decreases n - i,
        {
            if !str_equal(self.entries[i].0.as_str(), other.entries[i].0.as_str())
                || !str_equal(self.entries[i].1.as_str(), other.entries[i].1.as_str()) {
                proof {
                    if self.view() == other.view() {
                        self.lemma_same_view_same_entries(other);
                        assert(self.pairs()[i as int] == other.pairs()[i as int]);
                    }
                }
                return false;
            }
            i = i + 1;
        }
        proof {
            assert(self.represents(other.view()));
            self.lemma_view_is(other.view());
        }
        true
    }
}

impl Default for Attributes {
    fn default() -> (res: Attributes)
        ensures
            res.wf(),
            res.view() == Map::<Seq<char>, Seq<char>>::empty(),
    {
        Attributes::new()
    }
}

impl Attributes {
    /// Whether both have the same entries, in the same order.
    pub fn same_pairs(&self, other: &Attributes) -> (res: bool)
        ensures
            res == (self.pairs() == other.pairs()),
    {
        let n = self.entries.len();
        if n != other.entries.len() {
            assert(self.pairs().len() != other.pairs().len());
            return false;
        }
        let mut i: usize = 0;
        while i < n
            invariant
                n == self.entries.len(),
                n == other.entries.len(),
                i <= n,
                forall|j: int| 0 <= j < i ==> self.entries[j].0@ == other.entries[j].0@ && self.entries[j].1@ == other.entries[j].1@,
            decreases n - i,
        {
            if !str_equal(self.entries[i].0.as_str(), other.entries[i].0.as_str())
                || !str_equal(self.entries[i].1.as_str(), other.entries[i].1.as_str()) {
                assert(self.pairs()[i as int] != other.pairs()[i as int]);
                return false;
            }
            i = i + 1;
        }
        assert(self.pairs() =~= other.pairs());
        true
    }
}

impl PartialEq for Attributes {
    fn eq(&self, other: &Attributes) -> (res: bool) {
        self.same_pairs(other)
    }
}

impl vstd::std_specs::cmp::PartialEqSpecImpl for Attributes {
    open spec fn obeys_eq_spec() -> bool {
        true
    }

    open spec fn eq_spec(&self, other: &Attributes) -> bool {
        self.pairs() == other.pairs()
    }
}

/// Two well-formed attribute maps compare equal exactly when they hold the
/// same attributes.
pub proof fn law_equal_iff_same_attributes(a: Attributes, b: Attributes)
    requires
        a.wf(),
        b.wf(),
    ensures
        (a.pairs() == b.pairs()) == (a.view() == b.view()),
{
    if a.view() == b.view() {
        a.lemma_same_view_same_entries(&b);
    }
    if a.pairs() == b.pairs() {
        a.lemma_view();
        b.lemma_view();
        assert(a.entries.len() == b.entries.len()) by {
            assert(a.pairs().len() == b.pairs().len());
        }
        assert forall|i: int| 0 <= i < a.entries.len() implies a.entries[i].0@ == b.entries[i].0@ && a.entries[i].1@ == b.entries[i].1@ by {
            assert(a.pairs()[i] == (a.entries[i].0@, a.entries[i].1@));
            assert(b.pairs()[i] == (b.entries[i].0@, b.entries[i].1@));
        }
        assert forall|k: Seq<char>| #[trigger] b.view().dom().contains(k) implies exists|i: int|
            0 <= i < a.entries.len() && a.entries[i].0@ == k by {
            let i = choose|i: int| 0 <= i < b.entries.len() && b.entries[i].0@ == k;
            assert(a.entries[i].0@ == k);
        }
        assert(a.represents(b.view()));
        a.lemma_view_is(b.view());
    }
}

/// What is read back under a key is what was last written under it, and
/// writing under one key leaves every other key as it was.
pub proof fn law_read_after_write(m: Map<Seq<char>, Seq<char>>, key: Seq<char>, value: Seq<char>, other: Seq<char>)
    ensures
        m.insert(key, value).dom().contains(key),
        m.insert(key, value)[key] == value,
        other != key ==> m.insert(key, value).dom().contains(other) == m.dom().contains(other),
        other != key && m.dom().contains(other) ==> m.insert(key, value)[other] == m[other],
{
}

/// Writing a key that was absent and then removing it gives back the
/// attributes as they were.
pub proof fn law_insert_then_remove(m: Map<Seq<char>, Seq<char>>, key: Seq<char>, value: Seq<char>)
    requires
        !m.dom().contains(key),
    ensures
        m.insert(key, value).remove(key) == m,
{
    assert(m.insert(key, value).remove(key) =~= m);
}

} // verus!
