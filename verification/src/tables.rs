//! Collections of names: a table from names to names, and a set of names.
//! Each holds a name at most once.
use vstd::prelude::*;

verus! {

/// A table from names to names, in which each name has at most one entry.
pub struct NameTable {
    entries: Vec<(String, String)>,
}

impl NameTable {
    /// No name has two entries.
    pub closed spec fn wf(self) -> bool {
        forall|i: int, j: int|
            0 <= i < j < self.entries.len() ==> #[trigger] self.entries@[i].0@
                != #[trigger] self.entries@[j].0@
    }

    spec fn has_key_at(self, k: Seq<char>, i: int) -> bool {
        0 <= i < self.entries.len() && self.entries@[i].0@ == k
    }

    /// The entries, by the views of their names.
    pub closed spec fn view(&self) -> Map<Seq<char>, Seq<char>> {
        Map::new(
            |k: Seq<char>| exists|i: int| self.has_key_at(k, i),
            |k: Seq<char>| self.entries@[choose|i: int| self.has_key_at(k, i)].1@,
        )
    }

    proof fn lemma_entry(self, i: int)
        requires
            self.wf(),
            0 <= i < self.entries.len(),
        ensures
            self.view().contains_key(self.entries@[i].0@),
            self.view()[self.entries@[i].0@] == self.entries@[i].1@,
    {
        let k = self.entries@[i].0@;
        assert(self.has_key_at(k, i));
        let j = choose|j: int| self.has_key_at(k, j);
        assert(self.has_key_at(k, j));
        if j < i {
            assert(self.entries@[j].0@ != self.entries@[i].0@);
        } else if i < j {
            assert(self.entries@[i].0@ != self.entries@[j].0@);
        }
    }

    /// An empty table.
    pub fn new() -> (t: NameTable)
        ensures
            t.wf(),
            t.view() == Map::<Seq<char>, Seq<char>>::empty(),
    {
        let t = NameTable { entries: Vec::new() };
        assert(t.view() =~= Map::<Seq<char>, Seq<char>>::empty());
        t
    }

    /// Where the entry for `key` stands, if there is one.
    fn position(&self, key: &String) -> (r: Option<usize>)
        ensures
            match r {
                Some(i) => self.has_key_at(key@, i as int),
                None => forall|i: int| !self.has_key_at(key@, i),
            },
    {
        let mut i: usize = 0;
        while i < self.entries.len()
            invariant
                i <= self.entries.len(),
                forall|j: int| 0 <= j < i ==> !self.has_key_at(key@, j),
            decreases self.entries.len() - i,
        {
            if self.entries[i].0 == *key {
                return Some(i);
            }
            i = i + 1;
        }
        None
    }

    /// The entry for `key`, if there is one.
    pub fn get(&self, key: &String) -> (r: Option<&String>)
        requires
            self.wf(),
        ensures
            match r {
                Some(v) => self.view().contains_key(key@) && v@ == self.view()[key@],
                None => !self.view().contains_key(key@),
            },
    {
        match self.position(key) {
            Some(i) => {
                proof {
                    self.lemma_entry(i as int);
                }
                Some(&self.entries[i].1)
            },
            None => None,
        }
    }

    /// The table after an edit that leaves every entry but the one at `i` as it
    /// was, and puts the entry `k` to `v` at `i`: in place of the entry for `k`,
    /// or after the last entry.
    proof fn lemma_view_after_edit(before: NameTable, now: NameTable, i: int, k: Seq<char>, v: Seq<char>)
        requires
            before.wf(),
            now.wf(),
            0 <= i < now.entries.len(),
            now.entries@[i].0@ == k,
            now.entries@[i].1@ == v,
            i < before.entries.len() ==> before.entries@[i].0@ == k,
            i == before.entries.len() || i < before.entries.len(),
            now.entries.len() == if i < before.entries.len() {
                before.entries.len() as int
            } else {
                before.entries.len() + 1
            },
            forall|j: int| 0 <= j < now.entries.len() && j != i ==> #[trigger] now.entries@[j] == before.entries@[j],
        ensures
            now.view() == before.view().insert(k, v),
    {
        assert forall|k2: Seq<char>|
            #![trigger now.view().contains_key(k2)]
            now.view().contains_key(k2) == before.view().insert(k, v).contains_key(k2) by {
            if k2 != k {
                if exists|j: int| before.has_key_at(k2, j) {
                    let j = choose|j: int| before.has_key_at(k2, j);
                    assert(now.entries@[j] == before.entries@[j]);
                    assert(now.has_key_at(k2, j));
                }
                if exists|j: int| now.has_key_at(k2, j) {
                    let j = choose|j: int| now.has_key_at(k2, j);
                    assert(before.has_key_at(k2, j));
                }
            } else {
                assert(now.has_key_at(k2, i));
            }
        }
        assert forall|k2: Seq<char>| #[trigger]
            now.view().contains_key(k2) implies now.view()[k2] == before.view().insert(k, v)[k2] by {
            let j = choose|j: int| now.has_key_at(k2, j);
            now.lemma_entry(j);
            if k2 == k {
                now.lemma_entry(i);
            } else {
                assert(before.has_key_at(k2, j));
                before.lemma_entry(j);
            }
        }
        assert(now.view() =~= before.view().insert(k, v));
    }

    /// Sets the entry for `key` to `value`, in place of any it had.
    pub fn insert(&mut self, key: String, value: String)
        requires
            old(self).wf(),
        ensures
            final(self).wf(),
            final(self).view() == old(self).view().insert(key@, value@),
    {
        let ghost before = *self;
        let ghost k = key@;
        let ghost v = value@;
        match self.position(&key) {
            Some(i) => {
                self.entries.set(i, (key, value));
                proof {
                    assert forall|a: int, b: int|
                        0 <= a < b < self.entries.len() implies #[trigger] self.entries@[a].0@
                        != #[trigger] self.entries@[b].0@ by {
                        assert(before.entries@[a].0@ != before.entries@[b].0@);
                    }
                    NameTable::lemma_view_after_edit(before, *self, i as int, k, v);
                }
            },
            None => {
                self.entries.push((key, value));
                proof {
                    let n = before.entries.len() as int;
                    assert forall|a: int, b: int|
                        0 <= a < b < self.entries.len() implies #[trigger] self.entries@[a].0@
                        != #[trigger] self.entries@[b].0@ by {
                        if b == n {
                            assert(!before.has_key_at(k, a));
                        } else {
                            assert(before.entries@[a].0@ != before.entries@[b].0@);
                        }
                    }
                    NameTable::lemma_view_after_edit(before, *self, n, k, v);
                }
            },
        }
    }
}

impl View for NameTable {
    type V = Map<Seq<char>, Seq<char>>;

    open spec fn view(&self) -> Map<Seq<char>, Seq<char>> {
        NameTable::view(self)
    }
}

/// A set of names, each held once.
pub struct NameSet {
    names: Vec<String>,
}

impl NameSet {
    /// No name is held twice, and finitely many names are held.
    pub closed spec fn wf(self) -> bool {
        &&& forall|i: int, j: int|
            0 <= i < j < self.names.len() ==> #[trigger] self.names@[i]@ != #[trigger] self.names@[j]@
        &&& self.view().finite()
    }

    spec fn holds_at(self, k: Seq<char>, i: int) -> bool {
        0 <= i < self.names.len() && self.names@[i]@ == k
    }

    /// The names held, by their views.
    pub closed spec fn view(&self) -> Set<Seq<char>> {
        Set::new(|k: Seq<char>| exists|i: int| self.holds_at(k, i))
    }

    /// The names after one more name `k` is held at the end.
    proof fn lemma_view_after_push(before: NameSet, now: NameSet, k: Seq<char>)
        requires
            now.names.len() == before.names.len() + 1,
            now.names@[before.names.len() as int]@ == k,
            forall|j: int| 0 <= j < before.names.len() ==> #[trigger] now.names@[j] == before.names@[j],
        ensures
            now.view() == before.view().insert(k),
    {
        assert forall|k2: Seq<char>| #[trigger]
            now.view().contains(k2) == before.view().insert(k).contains(k2) by {
            if k2 != k {
                if exists|j: int| before.holds_at(k2, j) {
                    let j = choose|j: int| before.holds_at(k2, j);
                    assert(now.names@[j] == before.names@[j]);
                    assert(now.holds_at(k2, j));
                }
                if exists|j: int| now.holds_at(k2, j) {
                    let j = choose|j: int| now.holds_at(k2, j);
                    assert(before.holds_at(k2, j));
                }
            } else {
                assert(now.holds_at(k2, before.names.len() as int));
            }
        }
        assert(now.view() =~= before.view().insert(k));
    }

    /// An empty set.
    pub fn new() -> (s: NameSet)
        ensures
            s.wf(),
            s.view() == Set::<Seq<char>>::empty(),
            s.view().finite(),
    {
        let s = NameSet { names: Vec::new() };
        assert(s.view() =~= Set::<Seq<char>>::empty());
        s
    }

    /// Whether `name` is held.
    pub fn contains(&self, name: &String) -> (r: bool)
        ensures
            r == self.view().contains(name@),
    {
        let mut i: usize = 0;
        while i < self.names.len()
            invariant
                i <= self.names.len(),
                forall|j: int| 0 <= j < i ==> !self.holds_at(name@, j),
            decreases self.names.len() - i,
        {
            if self.names[i] == *name {
                assert(self.holds_at(name@, i as int));
                return true;
            }
            i = i + 1;
        }
        false
    }

    /// Adds `name`; says whether it was not held before, as `HashSet::insert`
    /// does.
    pub fn insert(&mut self, name: String) -> (r: bool)
        requires
            old(self).wf(),
        ensures
            final(self).wf(),
            r == !old(self).view().contains(name@),
            final(self).view() == old(self).view().insert(name@),
            final(self).view().finite(),
    {
        if self.contains(&name) {
            assert(self.view() =~= self.view().insert(name@));
            return false;
        }
        let ghost before = *self;
        let ghost k = name@;
        self.names.push(name);
        proof {
            let n = before.names.len() as int;
            assert forall|a: int, b: int|
                0 <= a < b < self.names.len() implies #[trigger] self.names@[a]@
                != #[trigger] self.names@[b]@ by {
                if b == n {
                    assert(!before.holds_at(k, a));
                } else {
                    assert(before.names@[a]@ != before.names@[b]@);
                }
            }
            NameSet::lemma_view_after_push(before, *self, k);
        }
        true
    }

    /// Removes every name.
    pub fn clear(&mut self)
        ensures
            final(self).wf(),
            final(self).view() == Set::<Seq<char>>::empty(),
            final(self).view().finite(),
    {
        self.names.clear();
        assert(self.view() =~= Set::<Seq<char>>::empty());
    }
}

impl View for NameSet {
    type V = Set<Seq<char>>;

    open spec fn view(&self) -> Set<Seq<char>> {
        NameSet::view(self)
    }
}

} // verus!
