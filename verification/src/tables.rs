//! Small association tables with unique keys, viewed as mathematical maps.
use std::collections::BTreeMap;

use vstd::prelude::*;

verus! {

/// Integer keys compare as `BTreeMap` needs them to.
proof fn lemma_integer_keys_ordered()
    ensures
        vstd::laws_cmp::obeys_cmp::<u32>(),
        vstd::laws_cmp::obeys_cmp::<u64>(),
{
    broadcast use vstd::laws_cmp::group_laws_cmp;

}

/// A table from expression indices to forced boolean values.
#[derive(Debug, PartialEq, Eq)]
pub struct ExpressionTable {
    entries: BTreeMap<u32, bool>,
}

impl View for ExpressionTable {
    type V = Map<u32, bool>;

    closed spec fn view(&self) -> Map<u32, bool> {
        self.entries@
    }
}

impl ExpressionTable {
    pub fn new() -> (t: Self)
        ensures
            t@ == Map::<u32, bool>::empty(),
    {
        ExpressionTable { entries: BTreeMap::new() }
    }

    pub fn get(&self, key: u32) -> (r: Option<bool>)
        ensures
            r == (if self@.contains_key(key) {
                Some(self@[key])
            } else {
                None
            }),
    {
        broadcast use vstd::std_specs::btree::group_btree_axioms;

        proof {
            lemma_integer_keys_ordered();
        }
        match self.entries.get(&key) {
            Some(value) => Some(*value),
            None => None,
        }
    }

    pub fn insert(&mut self, key: u32, value: bool)
        ensures
            final(self)@ == old(self)@.insert(key, value),
    {
        proof {
            lemma_integer_keys_ordered();
        }
        self.entries.insert(key, value);
    }

    pub fn duplicate(&self) -> (r: Self)
        ensures
            r@ == self@,
    {
        ExpressionTable { entries: self.entries.clone() }
    }
}

/// Does the entry list hold key `k`?
pub open spec fn name_table_has(s: Seq<(String, bool)>, k: Seq<char>) -> bool {
    exists|i: int| 0 <= i < s.len() && (#[trigger] s[i]).0@ == k
}

/// No key occurs twice in the entry list.
pub open spec fn name_table_unique(s: Seq<(String, bool)>) -> bool {
    forall|i: int, j: int|
        0 <= i < s.len() && 0 <= j < s.len() && (#[trigger] s[i]).0@ == (#[trigger] s[j]).0@ ==> i
            == j
}

/// The map that a list of unique (key, value) entries stands for.
pub open spec fn name_table_map(s: Seq<(String, bool)>) -> Map<Seq<char>, bool> {
    Map::new(
        |k: Seq<char>| name_table_has(s, k),
        |k: Seq<char>| s[choose|i: int| 0 <= i < s.len() && (#[trigger] s[i]).0@ == k].1,
    )
}

/// A table from variable names to boolean values.
#[derive(Debug, PartialEq, Eq)]
pub struct VariableTable {
    entries: Vec<(String, bool)>,
}

impl View for VariableTable {
    type V = Map<Seq<char>, bool>;

    closed spec fn view(&self) -> Map<Seq<char>, bool> {
        name_table_map(self.entries@)
    }
}

impl VariableTable {
    pub closed spec fn wf(&self) -> bool {
        name_table_unique(self.entries@)
    }

    pub fn new() -> (t: Self)
        ensures
            t.wf(),
            t@ == Map::<Seq<char>, bool>::empty(),
    {
        let t = VariableTable { entries: Vec::new() };
        assert(t@ =~= Map::<Seq<char>, bool>::empty());
        t
    }

    proof fn lemma_value_at(&self, i: int)
        requires
            self.wf(),
            0 <= i < self.entries@.len(),
        ensures
            self@.contains_key(self.entries@[i].0@),
            self@[self.entries@[i].0@] == self.entries@[i].1,
    {
        let s = self.entries@;
        let k = s[i].0@;
        assert(name_table_has(s, k));
        let j = choose|j: int| 0 <= j < s.len() && (#[trigger] s[j]).0@ == k;
        assert(j == i);
    }

    pub fn get(&self, key: &String) -> (r: Option<bool>)
        requires
            self.wf(),
        ensures
            r == (if self@.contains_key(key@) {
                Some(self@[key@])
            } else {
                None
            }),
    {
        let mut i: usize = 0;
        while i < self.entries.len()
            invariant
                self.wf(),
                0 <= i <= self.entries@.len(),
                forall|j: int| 0 <= j < i ==> (#[trigger] self.entries@[j]).0@ != key@,
            decreases self.entries@.len() - i,
        {
            if self.entries[i].0 == *key {
                proof {
                    self.lemma_value_at(i as int);
                }
                return Some(self.entries[i].1);
            }
            i = i + 1;
        }
        assert(!name_table_has(self.entries@, key@));
        None
    }

    pub fn insert(&mut self, key: &String, value: bool)
        requires
            old(self).wf(),
        ensures
            final(self).wf(),
            final(self)@ == old(self)@.insert(key@, value),
    {
        let ghost old_s = self.entries@;
        let mut i: usize = 0;
        while i < self.entries.len()
            invariant
                self.entries@ == old_s,
                old_s == old(self).entries@,
                name_table_unique(old_s),
                0 <= i <= old_s.len(),
                forall|j: int| 0 <= j < i ==> (#[trigger] old_s[j]).0@ != key@,
            decreases old_s.len() - i,
        {
            if self.entries[i].0 == *key {
                self.entries.set(i, (key.clone(), value));
                let ghost s = self.entries@;
                assert(s == old_s.update(i as int, (*key, value)));
                assert(name_table_unique(s)) by {
                    assert forall|a: int, b: int|
                        0 <= a < s.len() && 0 <= b < s.len() && (#[trigger] s[a]).0@ == (
                        #[trigger] s[b]).0@ implies a == b by {
                        assert(s[a].0@ == old_s[a].0@);
                        assert(s[b].0@ == old_s[b].0@);
                    }
                }
                assert forall|k: Seq<char>| #[trigger] name_table_has(s, k) == name_table_has(old_s, k) by {
                    if name_table_has(s, k) {
                        let a = choose|a: int| 0 <= a < s.len() && (#[trigger] s[a]).0@ == k;
                        assert(old_s[a].0@ == k);
                    }
                    if name_table_has(old_s, k) {
                        let a = choose|a: int| 0 <= a < old_s.len() && (#[trigger] old_s[a]).0@ == k;
                        assert(s[a].0@ == k);
                    }
                }
                assert(name_table_map(s) =~= name_table_map(old_s).insert(key@, value)) by {
                    assert forall|k: Seq<char>| name_table_map(s).contains_key(k) implies name_table_map(
                        s,
                    )[k] == name_table_map(old_s).insert(key@, value)[k] by {
                        let a = choose|a: int| 0 <= a < s.len() && (#[trigger] s[a]).0@ == k;
                        if k == key@ {
                            assert(a == i);
                        } else {
                            let b = choose|b: int|
                                0 <= b < old_s.len() && (#[trigger] old_s[b]).0@ == k;
                            assert(s[b].0@ == k);
                            assert(a == b);
                        }
                    }
                }
                return ;
            }
            i = i + 1;
        }
        self.entries.push((key.clone(), value));
        let ghost s = self.entries@;
        assert(s == old_s.push((*key, value)));
        assert(!name_table_has(old_s, key@));
        assert(name_table_unique(s)) by {
            assert forall|a: int, b: int|
                0 <= a < s.len() && 0 <= b < s.len() && (#[trigger] s[a]).0@ == (
                #[trigger] s[b]).0@ implies a == b by {
                if a < old_s.len() && b == old_s.len() {
                    assert(old_s[a].0@ == key@);
                }
                if b < old_s.len() && a == old_s.len() {
                    assert(old_s[b].0@ == key@);
                }
            }
        }
        assert forall|k: Seq<char>| #[trigger] name_table_has(s, k) == (name_table_has(old_s, k) || k == key@) by {
            if name_table_has(old_s, k) {
                let a = choose|a: int| 0 <= a < old_s.len() && (#[trigger] old_s[a]).0@ == k;
                assert(s[a].0@ == k);
            }
            if k == key@ {
                assert(s[old_s.len() as int].0@ == k);
            }
            if name_table_has(s, k) && k != key@ {
                let a = choose|a: int| 0 <= a < s.len() && (#[trigger] s[a]).0@ == k;
                assert(a < old_s.len());
                assert(old_s[a].0@ == k);
            }
        }
        assert(name_table_map(s) =~= name_table_map(old_s).insert(key@, value)) by {
            assert forall|k: Seq<char>| name_table_map(s).contains_key(k) implies name_table_map(s)[k]
                == name_table_map(old_s).insert(key@, value)[k] by {
                let a = choose|a: int| 0 <= a < s.len() && (#[trigger] s[a]).0@ == k;
                if k == key@ {
                    assert(a == old_s.len());
                } else {
                    let b = choose|b: int| 0 <= b < old_s.len() && (#[trigger] old_s[b]).0@ == k;
                    assert(s[b].0@ == k);
                    assert(a == b);
                }
            }
        }
    }

    pub fn duplicate(&self) -> (r: Self)
        ensures
            r@ == self@,
            r.wf() == self.wf(),
    {
        let mut entries: Vec<(String, bool)> = Vec::new();
        let mut i: usize = 0;
        while i < self.entries.len()
            invariant
                0 <= i <= self.entries@.len(),
                entries@ == self.entries@.subrange(0, i as int),
            decreases self.entries@.len() - i,
        {
            entries.push((self.entries[i].0.clone(), self.entries[i].1));
            i = i + 1;
        }
        assert(entries@ =~= self.entries@);
        VariableTable { entries }
    }
}


/// Does the named entry list hold key `k`?
pub open spec fn named_has<V>(s: Seq<(String, V)>, k: Seq<char>) -> bool {
    exists|i: int| 0 <= i < s.len() && (#[trigger] s[i]).0@ == k
}

pub open spec fn named_unique<V>(s: Seq<(String, V)>) -> bool {
    forall|i: int, j: int|
        0 <= i < s.len() && 0 <= j < s.len() && (#[trigger] s[i]).0@ == (#[trigger] s[j]).0@
            ==> i == j
}

pub open spec fn named_map<V>(s: Seq<(String, V)>) -> Map<Seq<char>, V> {
    Map::new(
        |k: Seq<char>| named_has(s, k),
        |k: Seq<char>| s[choose|i: int| 0 <= i < s.len() && (#[trigger] s[i]).0@ == k].1,
    )
}

/// A table from names to values, one value per name.
#[derive(Debug, PartialEq)]
pub struct NamedTable<V> {
    entries: Vec<(String, V)>,
}

impl<V> View for NamedTable<V> {
    type V = Map<Seq<char>, V>;

    closed spec fn view(&self) -> Map<Seq<char>, V> {
        named_map(self.entries@)
    }
}

impl<V> NamedTable<V> {
    pub closed spec fn wf(&self) -> bool {
        named_unique(self.entries@)
    }

    pub fn new() -> (t: Self)
        ensures
            t.wf(),
            t@ == Map::<Seq<char>, V>::empty(),
    {
        let t = NamedTable { entries: Vec::new() };
        assert(t@ =~= Map::<Seq<char>, V>::empty());
        t
    }

    proof fn lemma_entry(&self, i: int)
        requires
            self.wf(),
            0 <= i < self.entries@.len(),
        ensures
            self@.contains_key(self.entries@[i].0@),
            self@[self.entries@[i].0@] == self.entries@[i].1,
    {
        let s = self.entries@;
        let k = s[i].0@;
        assert(named_has(s, k));
        let j = choose|j: int| 0 <= j < s.len() && (#[trigger] s[j]).0@ == k;
        assert(j == i);
    }

    fn find(&self, key: &String) -> (r: Option<usize>)
        requires
            self.wf(),
        ensures
            r matches Some(i) ==> i < self.entries@.len() && self.entries@[i as int].0@ == key@,
            r is None ==> !self@.contains_key(key@),
    {
        let mut i: usize = 0;
        while i < self.entries.len()
            invariant
                0 <= i <= self.entries@.len(),
                forall|j: int| 0 <= j < i ==> (#[trigger] self.entries@[j]).0@ != key@,
            decreases self.entries@.len() - i,
        {
            if self.entries[i].0 == *key {
                return Some(i);
            }
            i = i + 1;
        }
        None
    }

    pub fn get(&self, key: &String) -> (r: Option<&V>)
        requires
            self.wf(),
        ensures
            r == (if self@.contains_key(key@) {
                Some(&self@[key@])
            } else {
                None
            }),
    {
        match self.find(key) {
            Some(i) => {
                proof {
                    self.lemma_entry(i as int);
                }
                Some(&self.entries[i].1)
            },
            None => None,
        }
    }

    pub fn contains(&self, key: &String) -> (r: bool)
        requires
            self.wf(),
        ensures
            r == self@.contains_key(key@),
    {
        match self.find(key) {
            Some(i) => {
                proof {
                    self.lemma_entry(i as int);
                }
                true
            },
            None => false,
        }
    }

    pub fn insert(&mut self, key: String, value: V)
        requires
            old(self).wf(),
        ensures
            final(self).wf(),
            final(self)@ == old(self)@.insert(key@, value),
    {
        let ghost old_s = self.entries@;
        let ghost kv = key@;
        match self.find(&key) {
            Some(i) => {
                self.entries.set(i, (key, value));
                let ghost s = self.entries@;
                assert(named_unique(s)) by {
                    assert forall|a: int, b: int|
                        0 <= a < s.len() && 0 <= b < s.len() && (#[trigger] s[a]).0@ == (
                        #[trigger] s[b]).0@ implies a == b by {
                        assert(s[a].0@ == old_s[a].0@);
                        assert(s[b].0@ == old_s[b].0@);
                    }
                }
                assert forall|k: Seq<char>| #[trigger] named_has(s, k) == named_has(old_s, k) by {
                    if named_has(s, k) {
                        let a = choose|a: int| 0 <= a < s.len() && (#[trigger] s[a]).0@ == k;
                        assert(old_s[a].0@ == k);
                    }
                    if named_has(old_s, k) {
                        let a = choose|a: int| 0 <= a < old_s.len() && (#[trigger] old_s[a]).0@ == k;
                        assert(s[a].0@ == k);
                    }
                }
                assert(named_map(s) =~= named_map(old_s).insert(kv, value)) by {
                    assert forall|k: Seq<char>| named_map(s).contains_key(k) implies named_map(s)[k]
                        == named_map(old_s).insert(kv, value)[k] by {
                        let a = choose|a: int| 0 <= a < s.len() && (#[trigger] s[a]).0@ == k;
                        if k == kv {
                            assert(a == i);
                        } else {
                            let b = choose|b: int| 0 <= b < old_s.len() && (#[trigger] old_s[b]).0@ == k;
                            assert(s[b].0@ == k);
                            assert(a == b);
                        }
                    }
                }
            },
            None => {
                self.entries.push((key, value));
                let ghost s = self.entries@;
                assert(!named_has(old_s, kv));
                assert(named_unique(s)) by {
                    assert forall|a: int, b: int|
                        0 <= a < s.len() && 0 <= b < s.len() && (#[trigger] s[a]).0@ == (
                        #[trigger] s[b]).0@ implies a == b by {
                        if a < old_s.len() && b == old_s.len() {
                            assert(old_s[a].0@ == kv);
                        }
                        if b < old_s.len() && a == old_s.len() {
                            assert(old_s[b].0@ == kv);
                        }
                    }
                }
                assert forall|k: Seq<char>| #[trigger] named_has(s, k) == (named_has(old_s, k) || k == kv) by {
                    if named_has(old_s, k) {
                        let a = choose|a: int| 0 <= a < old_s.len() && (#[trigger] old_s[a]).0@ == k;
                        assert(s[a].0@ == k);
                    }
                    if k == kv {
                        assert(s[old_s.len() as int].0@ == k);
                    }
                    if named_has(s, k) && k != kv {
                        let a = choose|a: int| 0 <= a < s.len() && (#[trigger] s[a]).0@ == k;
                        assert(a < old_s.len());
                        assert(old_s[a].0@ == k);
                    }
                }
                assert(named_map(s) =~= named_map(old_s).insert(kv, value)) by {
                    assert forall|k: Seq<char>| named_map(s).contains_key(k) implies named_map(s)[k]
                        == named_map(old_s).insert(kv, value)[k] by {
                        let a = choose|a: int| 0 <= a < s.len() && (#[trigger] s[a]).0@ == k;
                        if k == kv {
                            assert(a == old_s.len());
                        } else {
                            let b = choose|b: int| 0 <= b < old_s.len() && (#[trigger] old_s[b]).0@ == k;
                            assert(s[b].0@ == k);
                            assert(a == b);
                        }
                    }
                }
            },
        }
    }

    /// Removes the entry for `key`, returning its value.
    pub fn remove(&mut self, key: &String) -> (r: Option<V>)
        requires
            old(self).wf(),
        ensures
            final(self).wf(),
            final(self)@ == old(self)@.remove(key@),
            r == (if old(self)@.contains_key(key@) {
                Some(old(self)@[key@])
            } else {
                None
            }),
    {
        let ghost old_s = self.entries@;
        let ghost kv = key@;
        match self.find(key) {
            Some(i) => {
                proof {
                    self.lemma_entry(i as int);
                }
                let entry = self.entries.remove(i);
                let ghost s = self.entries@;
                assert(s == old_s.remove(i as int));
                assert(named_unique(s)) by {
                    assert forall|a: int, b: int|
                        0 <= a < s.len() && 0 <= b < s.len() && (#[trigger] s[a]).0@ == (
                        #[trigger] s[b]).0@ implies a == b by {
                        let oa = if a < i { a } else { a + 1 };
                        let ob = if b < i { b } else { b + 1 };
                        assert(s[a] == old_s[oa]);
                        assert(s[b] == old_s[ob]);
                    }
                }
                assert forall|k: Seq<char>| #[trigger] named_has(s, k) == (named_has(old_s, k) && k != kv) by {
                    if named_has(s, k) {
                        let a = choose|a: int| 0 <= a < s.len() && (#[trigger] s[a]).0@ == k;
                        let oa = if a < i { a } else { a + 1 };
                        assert(old_s[oa].0@ == k);
                        assert(oa != i);
                    }
                    if named_has(old_s, k) && k != kv {
                        let a = choose|a: int| 0 <= a < old_s.len() && (#[trigger] old_s[a]).0@ == k;
                        assert(a != i);
                        let na = if a < i { a } else { a - 1 };
                        assert(s[na] == old_s[a]);
                    }
                }
                assert(named_map(s) =~= named_map(old_s).remove(kv)) by {
                    assert forall|k: Seq<char>| named_map(s).contains_key(k) implies named_map(s)[k]
                        == named_map(old_s)[k] by {
                        let a = choose|a: int| 0 <= a < s.len() && (#[trigger] s[a]).0@ == k;
                        let oa = if a < i { a } else { a + 1 };
                        assert(s[a] == old_s[oa]);
                        let b = choose|b: int| 0 <= b < old_s.len() && (#[trigger] old_s[b]).0@ == k;
                        assert(oa == b);
                    }
                }
                Some(entry.1)
            },
            None => {
                assert(named_map(old_s) =~= named_map(old_s).remove(kv));
                None
            },
        }
    }

    pub fn clear(&mut self)
        ensures
            final(self).wf(),
            final(self)@ == Map::<Seq<char>, V>::empty(),
    {
        self.entries = Vec::new();
        assert(self@ =~= Map::<Seq<char>, V>::empty());
    }

    pub fn len(&self) -> (n: usize)
        requires
            self.wf(),
        ensures
            n == self@.dom().len(),
    {
        proof {
            self.lemma_dom_len();
        }
        self.entries.len()
    }

    proof fn lemma_dom_len(&self)
        requires
            self.wf(),
        ensures
            self@.dom().len() == self.entries@.len(),
            self@.dom().finite(),
    {
        let s = self.entries@;
        let keys = s.map_values(|e: (String, V)| e.0@);
        assert(keys.no_duplicates()) by {
            assert forall|a: int, b: int|
                0 <= a < keys.len() && 0 <= b < keys.len() && a != b implies keys[a] != keys[b] by {
                assert(keys[a] == s[a].0@);
                assert(keys[b] == s[b].0@);
            }
        }
        assert(self@.dom() =~= keys.to_set()) by {
            assert forall|k: Seq<char>| self@.dom().contains(k) <==> keys.to_set().contains(k) by {
                if self@.dom().contains(k) {
                    let a = choose|a: int| 0 <= a < s.len() && (#[trigger] s[a]).0@ == k;
                    assert(keys[a] == k);
                }
                if keys.to_set().contains(k) {
                    let a = choose|a: int| 0 <= a < keys.len() && keys[a] == k;
                    assert(s[a].0@ == k);
                }
            }
        }
        keys.unique_seq_to_set();
    }

    /// A table holds finitely many names.
    pub proof fn lemma_finite(&self)
        requires
            self.wf(),
        ensures
            self@.dom().finite(),
    {
        self.lemma_dom_len();
    }

    /// The entries' names, in table order.
    pub fn keys(&self) -> (r: Vec<String>)
        requires
            self.wf(),
        ensures
            r@.len() == self@.dom().len(),
            forall|k: Seq<char>| self@.contains_key(k) <==> exists|i: int| 0 <= i < r@.len() && (#[trigger] r@[i])@ == k,
    {
        proof {
            self.lemma_dom_len();
        }
        let mut r: Vec<String> = Vec::new();
        let mut i: usize = 0;
        while i < self.entries.len()
            invariant
                0 <= i <= self.entries@.len(),
                r@.len() == i,
                forall|j: int| 0 <= j < i ==> (#[trigger] r@[j])@ == self.entries@[j].0@,
            decreases self.entries@.len() - i,
        {
            r.push(self.entries[i].0.clone());
            i = i + 1;
        }
        assert forall|k: Seq<char>| self@.contains_key(k) <==> exists|i: int| 0 <= i < r@.len() && (#[trigger] r@[i])@ == k by {
            if self@.contains_key(k) {
                let a = choose|a: int| 0 <= a < self.entries@.len() && (#[trigger] self.entries@[a]).0@ == k;
                assert(r@[a]@ == k);
            }
            if exists|i: int| 0 <= i < r@.len() && (#[trigger] r@[i])@ == k {
                let a = choose|i: int| 0 <= i < r@.len() && (#[trigger] r@[i])@ == k;
                assert(self.entries@[a].0@ == k);
            }
        }
        r
    }
}


/// A table from numbers to values, one value per number.
#[derive(Debug)]
pub struct IdTable<V> {
    entries: BTreeMap<u64, V>,
}

impl<V> View for IdTable<V> {
    type V = Map<u64, V>;

    closed spec fn view(&self) -> Map<u64, V> {
        self.entries@
    }
}

impl<V> IdTable<V> {
    pub fn new() -> (t: Self)
        ensures
            t@ == Map::<u64, V>::empty(),
    {
        IdTable { entries: BTreeMap::new() }
    }

    pub fn get(&self, key: u64) -> (r: Option<&V>)
        ensures
            r == (if self@.contains_key(key) {
                Some(&self@[key])
            } else {
                None
            }),
    {
        broadcast use vstd::std_specs::btree::group_btree_axioms;

        proof {
            lemma_integer_keys_ordered();
        }
        self.entries.get(&key)
    }

    pub fn contains(&self, key: u64) -> (r: bool)
        ensures
            r == self@.contains_key(key),
    {
        broadcast use vstd::std_specs::btree::group_btree_axioms;

        proof {
            lemma_integer_keys_ordered();
        }
        self.entries.contains_key(&key)
    }

    pub fn insert(&mut self, key: u64, value: V)
        ensures
            final(self)@ == old(self)@.insert(key, value),
    {
        proof {
            lemma_integer_keys_ordered();
        }
        self.entries.insert(key, value);
    }

    pub fn remove(&mut self, key: u64) -> (r: Option<V>)
        ensures
            final(self)@ == old(self)@.remove(key),
            r == (if old(self)@.contains_key(key) {
                Some(old(self)@[key])
            } else {
                None
            }),
    {
        broadcast use vstd::std_specs::btree::group_btree_axioms;

        proof {
            lemma_integer_keys_ordered();
        }
        self.entries.remove(&key)
    }

    /// Removes every entry whose key is below `min`.
    pub fn remove_below(&mut self, min: u64)
        ensures
            final(self)@ == old(self)@.restrict(Set::new(|k: u64| k >= min)),
    {
        broadcast use vstd::std_specs::btree::group_btree_axioms;

        proof {
            lemma_integer_keys_ordered();
        }
        let ghost start = self@;
        let mut below: Vec<u64> = Vec::new();
        for key in it: self.entries.keys()
            invariant
                self@ == start,
                forall|j: int| 0 <= j < below@.len() ==> below@[j] < min && start.contains_key(below@[j]),
                forall|k: u64|
                    start.contains_key(k) && k < min && !below@.contains(k) ==> exists|j: int|
                        it.index() <= j < it.seq().len() && *it.seq()[j] == k,
        {
            let ghost at = it.index();
            let ghost keys = it.seq();
            let ghost before = below@;
            assert(*keys[at as int] == *key);
            if *key < min {
                below.push(*key);
                assert(below@[below@.len() - 1] == *key);
            }
            assert forall|k: u64| start.contains_key(k) && k < min && !below@.contains(k) implies exists|j: int|
                at + 1 <= j < keys.len() && *keys[j] == k by {
                if before.contains(k) {
                    let i = choose|i: int| 0 <= i < before.len() && before[i] == k;
                    assert(below@[i] == k);
                }
                let j = choose|j: int| at <= j < keys.len() && *keys[j] == k;
                if j == at {
                    assert(below@[below@.len() - 1] == k);
                }
            }
        }
        assert forall|k: u64| start.contains_key(k) && k < min implies below@.contains(k) by {}
        let mut i: usize = 0;
        while i < below.len()
            invariant
                0 <= i <= below@.len(),
                forall|j: int| 0 <= j < below@.len() ==> below@[j] < min && start.contains_key(below@[j]),
                self@ == start.remove_keys(below@.take(i as int).to_set()),
            decreases below@.len() - i,
        {
            let key = below[i];
            self.entries.remove(&key);
            assert(below@.take(i + 1).to_set() =~= below@.take(i as int).to_set().insert(key)) by {
                assert(below@.take(i + 1) =~= below@.take(i as int).push(key));
                below@.take(i as int).lemma_push_to_set_commute(key);
            }
            assert(self@ =~= start.remove_keys(below@.take(i + 1).to_set()));
            i = i + 1;
        }
        assert(below@.take(i as int) =~= below@);
        assert(self@ =~= start.restrict(Set::new(|k: u64| k >= min))) by {
            assert forall|k: u64| #[trigger] self@.contains_key(k) implies k >= min by {
                if k < min {
                    assert(below@.contains(k));
                    let j = choose|j: int| 0 <= j < below@.len() && below@[j] == k;
                    assert(below@.to_set().contains(below@[j]));
                }
            }
            assert forall|k: u64| start.contains_key(k) && k >= min implies #[trigger] self@.contains_key(k) by {
                if below@.to_set().contains(k) {
                    let j = choose|j: int| 0 <= j < below@.len() && below@[j] == k;
                    assert(below@[j] < min);
                }
            }
        }
    }
}

} // verus!
