//! A map from names to values, kept in the order of the names.

use vstd::prelude::*;
use vstd::string::*;
use crate::text::{
    before, lemma_text_before_total, lemma_text_before_transitive, same_text, text_before,
};

verus! {

/// Whether the names of the entries ascend.
pub open spec fn names_ascend<V>(entries: Seq<(String, V)>) -> bool {
    forall|i: int, j: int|
        0 <= i < j < entries.len() ==> text_before(
            #[trigger] entries[i].0@,
            #[trigger] entries[j].0@,
        )
}

/// The map that the entries write down.
pub open spec fn entries_map<V>(entries: Seq<(String, V)>) -> Map<Seq<char>, V>
    decreases entries.len(),
{
    if entries.len() == 0 {
        Map::empty()
    } else {
        entries_map(entries.drop_last()).insert(entries.last().0@, entries.last().1)
    }
}

/// A map from names to values.
pub struct NameMap<V> {
    entries: Vec<(String, V)>,
}

impl<V> View for NameMap<V> {
    type V = Map<Seq<char>, V>;

    closed spec fn view(&self) -> Map<Seq<char>, V> {
        entries_map(self.entries@)
    }
}

/// In an ascending list an entry is what the map holds under its name.
proof fn lemma_entries_map<V>(entries: Seq<(String, V)>)
    requires
        names_ascend(entries),
    ensures
        forall|i: int|
            0 <= i < entries.len() ==> entries_map(entries).contains_pair(
                (#[trigger] entries[i]).0@,
                entries[i].1,
            ),
        forall|name: Seq<char>| #[trigger]
            entries_map(entries).contains_key(name) ==> exists|i: int|
                0 <= i < entries.len() && (#[trigger] entries[i]).0@ == name,
        entries_map(entries).dom().finite(),
        entries_map(entries).len() == entries.len(),
    decreases entries.len(),
{
    if entries.len() > 0 {
        let rest = entries.drop_last();
        assert(names_ascend(rest)) by {
            assert forall|i: int, j: int| 0 <= i < j < rest.len() implies text_before(
                #[trigger] rest[i].0@,
                #[trigger] rest[j].0@,
            ) by {
                assert(text_before(entries[i].0@, entries[j].0@));
            }
        }
        lemma_entries_map(rest);
        let last = entries.last();
        assert forall|i: int| 0 <= i < rest.len() implies (#[trigger] rest[i]).0@ != last.0@ by {
            assert(text_before(entries[i].0@, entries[entries.len() - 1].0@));
            lemma_text_before_total(entries[i].0@, last.0@);
        }
        assert forall|i: int| 0 <= i < entries.len() implies entries_map(entries).contains_pair(
            (#[trigger] entries[i]).0@,
            entries[i].1,
        ) by {
            if i < rest.len() {
                assert(entries_map(rest).contains_pair(rest[i].0@, rest[i].1));
            }
        }
        assert forall|name: Seq<char>| #[trigger]
            entries_map(entries).contains_key(name) implies exists|i: int|
            0 <= i < entries.len() && (#[trigger] entries[i]).0@ == name by {
            if name == last.0@ {
                assert(entries[entries.len() - 1].0@ == name);
            } else {
                assert(entries_map(rest).contains_key(name));
                let i = choose|i: int| 0 <= i < rest.len() && (#[trigger] rest[i]).0@ == name;
                assert(entries[i].0@ == name);
            }
        }
        assert(!entries_map(rest).contains_key(last.0@));
    }
}

impl<V> NameMap<V> {
    #[verifier::type_invariant]
    closed spec fn ordered(&self) -> bool {
        names_ascend(self.entries@)
    }

    /// The empty map.
    pub fn new() -> (r: NameMap<V>)
        ensures
            r@ == Map::<Seq<char>, V>::empty(),
    {
        NameMap { entries: Vec::new() }
    }

    /// How many names there are.
    pub fn len(&self) -> (r: usize)
        ensures
            self@.dom().finite(),
            r == self@.len(),
    {
        proof {
            use_type_invariant(self);
            lemma_entries_map(self.entries@);
        }
        self.entries.len()
    }

    /// The place of the first entry whose name is not before `name`.
    fn place(&self, name: &str) -> (r: usize)
        ensures
            r <= self.entries@.len(),
            forall|i: int| 0 <= i < r ==> text_before((#[trigger] self.entries@[i]).0@, name@),
            forall|i: int|
                r <= i < self.entries@.len() ==> !text_before(
                    (#[trigger] self.entries@[i]).0@,
                    name@,
                ),
    {
        proof {
            use_type_invariant(self);
        }
        let mut i: usize = 0;
        while i < self.entries.len() && before(self.entries[i].0.as_str(), name)
            invariant
                i <= self.entries@.len(),
                forall|j: int|
                    0 <= j < i ==> text_before((#[trigger] self.entries@[j]).0@, name@),
            decreases self.entries@.len() - i,
        {
            i += 1;
        }
        assert forall|j: int| i <= j < self.entries@.len() implies !text_before(
            (#[trigger] self.entries@[j]).0@,
            name@,
        ) by {
            if j > i && text_before(self.entries@[j].0@, name@) {
                assert(text_before(self.entries@[i as int].0@, self.entries@[j].0@));
                lemma_text_before_transitive(
                    self.entries@[i as int].0@,
                    self.entries@[j].0@,
                    name@,
                );
            }
        }
        i
    }

    /// The place of the entry of this name.
    fn find(&self, name: &str) -> (r: Option<usize>)
        ensures
            match r {
                Some(i) => i < self.entries@.len() && self.entries@[i as int].0@ == name@
                    && self@.contains_pair(name@, self.entries@[i as int].1),
                None => !self@.contains_key(name@),
            },
    {
        proof {
            use_type_invariant(self);
            lemma_entries_map(self.entries@);
        }
        let i = self.place(name);
        if i < self.entries.len() && same_text(self.entries[i].0.as_str(), name) {
            Some(i)
        } else {
            proof {
                if self@.contains_key(name@) {
                    let k = choose|k: int|
                        0 <= k < self.entries@.len() && (#[trigger] self.entries@[k]).0@ == name@;
                    lemma_text_before_total(self.entries@[k].0@, name@);
                    assert(!text_before(self.entries@[k].0@, name@));
                    assert(k >= i);
                    if k > i {
                        assert(text_before(self.entries@[i as int].0@, self.entries@[k].0@));
                    }
                }
            }
            None
        }
    }

    /// What the map holds under the name.
    pub fn get(&self, name: &str) -> (r: Option<&V>)
        ensures
            match r {
                Some(v) => self@.contains_pair(name@, *v),
                None => !self@.contains_key(name@),
            },
            r is Some <==> self@.contains_key(name@),
    {
        match self.find(name) {
            Some(i) => Some(&self.entries[i].1),
            None => None,
        }
    }

    /// Whether the map holds the name.
    pub fn contains(&self, name: &str) -> (r: bool)
        ensures
            r == self@.contains_key(name@),
    {
        self.find(name).is_some()
    }

    /// Put the value under the name; a value that was there is replaced.
    pub fn insert(&mut self, name: &str, value: V)
        ensures
            final(self)@ == old(self)@.insert(name@, value),
    {
        proof {
            use_type_invariant(&*self);
            lemma_entries_map(self.entries@);
        }
        let i = self.place(name);
        let ghost was = self.entries@;
        let key = String::from_str(name);
        if i < self.entries.len() && same_text(self.entries[i].0.as_str(), name) {
            proof {
                lemma_replaced(was, i as int, (key, value));
            }
            let mut taken = NameMap { entries: Vec::new() };
            core::mem::swap(self, &mut taken);
            let mut entries = taken.entries;
            entries[i] = (key, value);
            *self = NameMap { entries };
        } else {
            proof {
                if i < was.len() {
                    lemma_text_before_total(was[i as int].0@, name@);
                }
                lemma_inserted(was, i as int, (key, value));
            }
            let mut taken = NameMap { entries: Vec::new() };
            core::mem::swap(self, &mut taken);
            let mut entries = taken.entries;
            entries.insert(i, (key, value));
            *self = NameMap { entries };
        }
    }

    /// The names, in order.
    pub fn names(&self) -> (r: Vec<String>)
        ensures
            forall|i: int, j: int|
                0 <= i < j < r@.len() ==> text_before(#[trigger] r@[i]@, #[trigger] r@[j]@),
            forall|i: int| 0 <= i < r@.len() ==> self@.contains_key((#[trigger] r@[i])@),
            forall|name: Seq<char>| #[trigger]
                self@.contains_key(name) ==> exists|i: int|
                    0 <= i < r@.len() && (#[trigger] r@[i])@ == name,
    {
        proof {
            use_type_invariant(self);
            lemma_entries_map(self.entries@);
        }
        let mut r: Vec<String> = Vec::new();
        let mut i: usize = 0;
        while i < self.entries.len()
            invariant
                i <= self.entries@.len(),
                r@.len() == i,
                forall|j: int| 0 <= j < i ==> (#[trigger] r@[j])@ == self.entries@[j].0@,
            decreases self.entries@.len() - i,
        {
            r.push(self.entries[i].0.clone());
            i += 1;
        }
        assert forall|a: int, b: int| 0 <= a < b < r@.len() implies text_before(
            #[trigger] r@[a]@,
            #[trigger] r@[b]@,
        ) by {
            assert(text_before(self.entries@[a].0@, self.entries@[b].0@));
        }
        assert forall|k: int| 0 <= k < r@.len() implies self@.contains_key(
            (#[trigger] r@[k])@,
        ) by {
            assert(self@.contains_pair(self.entries@[k].0@, self.entries@[k].1));
        }
        assert forall|name: Seq<char>| #[trigger] self@.contains_key(name) implies exists|k: int|
            0 <= k < r@.len() && (#[trigger] r@[k])@ == name by {
            let k = choose|k: int|
                0 <= k < self.entries@.len() && (#[trigger] self.entries@[k]).0@ == name;
            assert(r@[k]@ == name);
        }
        r
    }
}

/// Replacing the value of an entry replaces it in the map.
proof fn lemma_replaced<V>(entries: Seq<(String, V)>, i: int, e: (String, V))
    requires
        names_ascend(entries),
        0 <= i < entries.len(),
        entries[i].0@ == e.0@,
    ensures
        names_ascend(entries.update(i, e)),
        entries_map(entries.update(i, e)) == entries_map(entries).insert(e.0@, e.1),
{
    let after = entries.update(i, e);
    assert forall|a: int, b: int| 0 <= a < b < after.len() implies text_before(
        #[trigger] after[a].0@,
        #[trigger] after[b].0@,
    ) by {
        assert(text_before(entries[a].0@, entries[b].0@));
    }
    lemma_entries_map(entries);
    lemma_entries_map(after);
    let m = entries_map(entries).insert(e.0@, e.1);
    assert forall|name: Seq<char>| #[trigger]
        entries_map(after).contains_key(name) <==> m.contains_key(name) by {
        if entries_map(after).contains_key(name) {
            let k = choose|k: int| 0 <= k < after.len() && (#[trigger] after[k]).0@ == name;
            assert(entries_map(entries).contains_pair(entries[k].0@, entries[k].1));
        }
        if m.contains_key(name) {
            if name == e.0@ {
                assert(after[i].0@ == name);
                assert(entries_map(after).contains_pair(after[i].0@, after[i].1));
            } else {
                let k = choose|k: int|
                    0 <= k < entries.len() && (#[trigger] entries[k]).0@ == name;
                assert(after[k].0@ == name);
                assert(entries_map(after).contains_pair(after[k].0@, after[k].1));
            }
        }
    }
    assert forall|name: Seq<char>| #[trigger] m.contains_key(name) implies entries_map(after)[name]
        == m[name] by {
        assert(entries_map(after).contains_key(name));
        let k = choose|k: int| 0 <= k < after.len() && (#[trigger] after[k]).0@ == name;
        assert(entries_map(after).contains_pair(after[k].0@, after[k].1));
        assert(entries_map(entries).contains_pair(entries[k].0@, entries[k].1));
        if k != i {
            if k < i {
                assert(text_before(entries[k].0@, entries[i].0@));
            } else {
                assert(text_before(entries[i].0@, entries[k].0@));
            }
            lemma_text_before_total(entries[k].0@, entries[i].0@);
        }
    }
    assert(entries_map(after) =~= m);
}

/// Inserting an entry at its place inserts it in the map.
proof fn lemma_inserted<V>(entries: Seq<(String, V)>, i: int, e: (String, V))
    requires
        names_ascend(entries),
        0 <= i <= entries.len(),
        forall|k: int| 0 <= k < i ==> text_before((#[trigger] entries[k]).0@, e.0@),
        forall|k: int|
            i <= k < entries.len() ==> !text_before((#[trigger] entries[k]).0@, e.0@),
        i < entries.len() ==> entries[i].0@ != e.0@,
    ensures
        names_ascend(entries.insert(i, e)),
        entries_map(entries.insert(i, e)) == entries_map(entries).insert(e.0@, e.1),
{
    let after = entries.insert(i, e);
    assert forall|k: int| i <= k < entries.len() implies text_before(
        e.0@,
        (#[trigger] entries[k]).0@,
    ) by {
        lemma_text_before_total(entries[i].0@, e.0@);
        if k > i {
            assert(text_before(entries[i].0@, entries[k].0@));
            lemma_text_before_transitive(e.0@, entries[i].0@, entries[k].0@);
        }
    }
    assert forall|a: int, b: int| 0 <= a < b < after.len() implies text_before(
        #[trigger] after[a].0@,
        #[trigger] after[b].0@,
    ) by {
        let a0 = if a < i {
            a
        } else {
            a - 1
        };
        let b0 = if b < i {
            b
        } else {
            b - 1
        };
        if a == i {
            assert(after[b] == entries[b0]);
        } else if b == i {
            assert(after[a] == entries[a0]);
        } else {
            assert(after[a] == entries[a0] && after[b] == entries[b0]);
            assert(text_before(entries[a0].0@, entries[b0].0@));
        }
    }
    lemma_entries_map(entries);
    lemma_entries_map(after);
    let m = entries_map(entries).insert(e.0@, e.1);
    assert(after[i] == e);
    assert forall|k: int| 0 <= k < entries.len() implies {
        &&& entries_map(after).contains_pair((#[trigger] entries[k]).0@, entries[k].1)
        &&& entries[k].0@ != e.0@
    } by {
        let k1 = if k < i {
            k
        } else {
            k + 1
        };
        assert(after[k1] == entries[k]);
        assert(entries_map(after).contains_pair(after[k1].0@, after[k1].1));
        lemma_text_before_total(entries[k].0@, e.0@);
    }
    assert(entries_map(after).contains_pair(after[i].0@, after[i].1));
    assert forall|name: Seq<char>| #[trigger]
        entries_map(after).contains_key(name) <==> m.contains_key(name) by {
        if entries_map(after).contains_key(name) {
            let k = choose|k: int| 0 <= k < after.len() && (#[trigger] after[k]).0@ == name;
            if k != i {
                let k0 = if k < i {
                    k
                } else {
                    k - 1
                };
                assert(after[k] == entries[k0]);
                assert(entries_map(entries).contains_pair(entries[k0].0@, entries[k0].1));
            }
        }
        if m.contains_key(name) && name != e.0@ {
            let k = choose|k: int| 0 <= k < entries.len() && (#[trigger] entries[k]).0@ == name;
            assert(entries_map(after).contains_pair(entries[k].0@, entries[k].1));
        }
    }
    assert forall|name: Seq<char>| #[trigger] m.contains_key(name) implies entries_map(after)[name]
        == m[name] by {
        if name != e.0@ {
            let k = choose|k: int| 0 <= k < entries.len() && (#[trigger] entries[k]).0@ == name;
            assert(entries_map(after).contains_pair(entries[k].0@, entries[k].1));
            assert(entries_map(entries).contains_pair(entries[k].0@, entries[k].1));
        }
    }
    assert(entries_map(after) =~= m);
}

} // verus!
