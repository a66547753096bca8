//! Maps keyed by server name.
use vstd::prelude::*;

verus! {

/// One value per server name, in the order in which the names first came.
#[derive(Debug)]
pub struct ServerMap<V> {
    entries: Vec<(String, V)>,
}

impl<V> ServerMap<V> {
    /// No server name occurs twice.
    #[verifier::type_invariant]
    pub closed spec fn wf(self) -> bool {
        forall|i: int, j: int|
            0 <= i < j < self.entries@.len() ==> (#[trigger] self.entries@[i]).0@ != (
            #[trigger] self.entries@[j]).0@
    }

    /// The names with their values, in order.
    pub closed spec fn entries(self) -> Seq<(Seq<char>, V)> {
        self.entries@.map_values(|entry: (String, V)| (entry.0@, entry.1))
    }

    /// The names, in order.
    pub open spec fn names(self) -> Seq<Seq<char>> {
        self.entries().map_values(|entry: (Seq<char>, V)| entry.0)
    }

    /// The map holds a value for `name`.
    pub open spec fn has(self, name: Seq<char>) -> bool {
        self.names().contains(name)
    }

    /// The value for `name`, where there is one.
    pub open spec fn value(self, name: Seq<char>) -> V
        recommends
            self.has(name),
    {
        self.entries()[self.names().index_of(name)].1
    }

    /// The names of a map differ, and `value` finds each entry by its name.
    pub proof fn lemma_entries(self)
        requires
            self.wf(),
        ensures
            self.names().no_duplicates(),
            forall|i: int|
                0 <= i < self.entries().len() ==> self.has((#[trigger] self.entries()[i]).0)
                    && self.value(self.entries()[i].0) == self.entries()[i].1,
    {
        assert forall|i: int, j: int|
            0 <= i < self.names().len() && 0 <= j < self.names().len() && i
                != j implies self.names()[i] != self.names()[j] by {
            if i < j {
                assert(self.entries@[i].0@ != self.entries@[j].0@);
            } else {
                assert(self.entries@[j].0@ != self.entries@[i].0@);
            }
        }
        assert forall|i: int| 0 <= i < self.entries().len() implies self.has(
            (#[trigger] self.entries()[i]).0,
        ) && self.value(self.entries()[i].0) == self.entries()[i].1 by {
            assert(self.names()[i] == self.entries()[i].0);
            let k = self.names().index_of(self.names()[i]);
            assert(self.names()[k] == self.names()[i]);
        }
    }

    /// A map without entries.
    pub fn new() -> (map: Self)
        ensures
            map.entries() == Seq::<(Seq<char>, V)>::empty(),
    {
        let map = ServerMap { entries: Vec::new() };
        assert(map.entries() =~= Seq::<(Seq<char>, V)>::empty());
        map
    }

    /// The number of entries.
    pub fn len(&self) -> (len: usize)
        ensures
            len == self.entries().len(),
    {
        self.entries.len()
    }

    /// The entry at position `i`.
    pub fn entry(&self, i: usize) -> (entry: (&str, &V))
        requires
            i < self.entries().len(),
        ensures
            (entry.0@, *entry.1) == self.entries()[i as int],
    {
        let entry = &self.entries[i];
        (entry.0.as_str(), &entry.1)
    }

    /// The position of `name`, if it has one.
    fn position(&self, name: &str) -> (at: Option<usize>)
        ensures
            match at {
                Some(i) => i < self.entries().len() && self.entries()[i as int].0 == name@,
                None => !self.has(name@),
            },
    {
        let key = name.to_string();
        let mut i: usize = 0;
        while i < self.entries.len()
            invariant
                key@ == name@,
                i <= self.entries@.len(),
                forall|j: int| 0 <= j < i ==> (#[trigger] self.entries@[j]).0@ != name@,
            decreases self.entries@.len() - i,
        {
            if self.entries[i].0 == key {
                return Some(i);
            }
            i = i + 1;
        }
        proof {
            if self.has(name@) {
                let j = choose|j: int| 0 <= j < self.names().len() && self.names()[j] == name@;
                assert(self.entries@[j].0@ == name@);
            }
        }
        None
    }

    /// The value for `name`.
    pub fn get(&self, name: &str) -> (value: Option<&V>)
        ensures
            match value {
                Some(v) => self.has(name@) && *v == self.value(name@),
                None => !self.has(name@),
            },
            self.wf(),
    {
        proof {
            use_type_invariant(self);
            self.lemma_entries();
        }
        match self.position(name) {
            Some(i) => Some(&self.entries[i].1),
            None => None,
        }
    }

    /// Sets the value for `name`: the one that it had is replaced in its place,
    /// a new name comes last.
    pub fn insert(&mut self, name: String, value: V)
        ensures
            old(self).has(name@) ==> final(self).entries() == old(self).entries().update(
                old(self).names().index_of(name@),
                (name@, value),
            ),
            !old(self).has(name@) ==> final(self).entries() == old(self).entries().push(
                (name@, value),
            ),
            old(self).wf(),
            final(self).wf(),
    {
        proof {
            use_type_invariant(&*self);
            self.lemma_entries();
        }
        let at = self.position(name.as_str());
        let mut entries: Vec<(String, V)> = Vec::new();
        std::mem::swap(&mut entries, &mut self.entries);
        let ghost before = entries@;
        match at {
            Some(i) => {
                entries.set(i, (name, value));
            },
            None => {
                assert forall|j: int| 0 <= j < before.len() implies (#[trigger] before[j]).0@
                    != name@ by {
                    assert(old(self).names()[j] == before[j].0@);
                }
                entries.push((name, value));
            },
        }
        self.entries = entries;
        proof {
            use_type_invariant(&*self);
        }
    }
}

impl<V: Clone> Clone for ServerMap<V> {
    fn clone(&self) -> (copy: Self)
        ensures
            copy.names() == self.names(),
            forall|i: int|
                0 <= i < self.entries().len() ==> cloned(
                    (#[trigger] self.entries()[i]).1,
                    copy.entries()[i].1,
                ),
            copy.wf(),
    {
        proof {
            use_type_invariant(self);
        }
        let mut entries: Vec<(String, V)> = Vec::new();
        let mut i: usize = 0;
        while i < self.entries.len()
            invariant
                i <= self.entries@.len(),
                entries@.len() == i,
                forall|j: int|
                    0 <= j < i ==> (#[trigger] entries@[j]).0@ == self.entries@[j].0@ && cloned(
                        self.entries@[j].1,
                        entries@[j].1,
                    ),
            decreases self.entries@.len() - i,
        {
            let entry = &self.entries[i];
            entries.push((entry.0.clone(), entry.1.clone()));
            i = i + 1;
        }
        let copy = ServerMap { entries };
        assert(copy.names() =~= self.names());
        copy
    }
}

/// A map holds a value for a name exactly if an entry has that name.
pub proof fn law_has_by_entries<V>(map: ServerMap<V>, name: Seq<char>)
    ensures
        map.has(name) <==> exists|i: int|
            0 <= i < map.entries().len() && (#[trigger] map.entries()[i]).0 == name,
{
    if map.has(name) {
        let i = choose|i: int| 0 <= i < map.names().len() && map.names()[i] == name;
        assert(map.entries()[i].0 == name);
    }
    assert forall|i: int|
        0 <= i < map.entries().len() && (#[trigger] map.entries()[i]).0 == name implies map.has(
        name,
    ) by {
        assert(map.names()[i] == name);
    }
}

/// A new map has no entries.
pub proof fn law_new_map_is_empty<V>(map: ServerMap<V>)
    requires
        call_ensures(ServerMap::<V>::new, (), map),
    ensures
        map.entries().len() == 0,
{
}

/// `len` and `entry` tell the entries, each by its position.
pub proof fn law_entries_by_position<V>(
    map: &ServerMap<V>,
    len: usize,
    i: usize,
    entry: (&str, &V),
)
    requires
        call_ensures(ServerMap::<V>::len, (map,), len),
        i < len,
        call_ensures(ServerMap::<V>::entry, (map, i), entry),
    ensures
        call_requires(ServerMap::<V>::entry, (map, i)),
        len == map.entries().len(),
        entry.0@ == map.entries()[i as int].0,
        *entry.1 == map.entries()[i as int].1,
{
}

/// `get` finds the value of the one entry that has the name, and nothing exactly
/// if no entry has it.
pub proof fn law_get_finds_the_entry<V>(map: &ServerMap<V>, name: &str, value: Option<&V>)
    requires
        call_ensures(ServerMap::<V>::get, (map, name), value),
    ensures
        call_requires(ServerMap::<V>::get, (map, name)),
        value is None <==> forall|i: int|
            0 <= i < map.entries().len() ==> (#[trigger] map.entries()[i]).0 != name@,
        forall|i: int|
            0 <= i < map.entries().len() && (#[trigger] map.entries()[i]).0 == name@
                ==> *value->0 == map.entries()[i].1,
{
    map.lemma_entries();
    law_has_by_entries(*map, name@);
}

/// `insert` sets the value of the entry that has the name; if there is none, it
/// puts a new entry behind the others. No other entry changes.
pub proof fn law_insert_sets_one_entry<V>(map: &mut ServerMap<V>, name: String, value: V)
    requires
        call_ensures(ServerMap::<V>::insert, (map, name, value), ()),
    ensures
        call_requires(ServerMap::<V>::insert, (map, name, value)),
        forall|i: int|
            0 <= i < old(map).entries().len() ==> #[trigger] final(map).entries()[i] == if old(
                map,
            ).entries()[i].0 == name@ {
                (name@, value)
            } else {
                old(map).entries()[i]
            },
        (exists|i: int|
            0 <= i < old(map).entries().len() && (#[trigger] old(map).entries()[i]).0 == name@)
            ==> final(map).entries().len() == old(map).entries().len(),
        (forall|i: int|
            0 <= i < old(map).entries().len() ==> (#[trigger] old(map).entries()[i]).0 != name@)
            ==> {
            &&& final(map).entries().len() == old(map).entries().len() + 1
            &&& final(map).entries().last() == (name@, value)
        },
{
    let before = *old(map);
    let after = *final(map);
    before.lemma_entries();
    law_has_by_entries(before, name@);
    let at = before.names().index_of(name@);
    assert forall|i: int| 0 <= i < before.entries().len() implies #[trigger] after.entries()[i]
        == if before.entries()[i].0 == name@ {
        (name@, value)
    } else {
        before.entries()[i]
    } by {
        assert(before.names()[i] == before.entries()[i].0);
        if before.has(name@) {
            assert(before.names()[at] == name@);
        }
    }
}

/// After an `insert`, `get` finds the new value under the name that was
/// inserted, and under any other name what it found before.
pub proof fn law_insert_then_get<V>(
    map: &mut ServerMap<V>,
    name: String,
    value: V,
    key: &str,
    before: Option<&V>,
    after: Option<&V>,
)
    requires
        call_ensures(ServerMap::<V>::get, (&*old(map), key), before),
        call_ensures(ServerMap::<V>::insert, (map, name, value), ()),
        call_ensures(ServerMap::<V>::get, (&*final(map), key), after),
    ensures
        key@ == name@ ==> after == Some(&value),
        key@ != name@ ==> after == before,
{
    let m = *old(map);
    let n = *final(map);
    law_insert_sets_one_entry(map, name, value);
    law_get_finds_the_entry(&m, key, before);
    law_get_finds_the_entry(&n, key, after);
    law_has_by_entries(m, key@);
    law_has_by_entries(m, name@);
    if key@ == name@ {
        if m.has(name@) {
            let i = choose|i: int| 0 <= i < m.entries().len() && (#[trigger] m.entries()[i]).0 == name@;
            assert(n.entries()[i] == (name@, value));
        } else {
            assert(n.entries()[n.entries().len() - 1] == (name@, value));
        }
    } else if before is Some {
        let i = choose|i: int| 0 <= i < m.entries().len() && (#[trigger] m.entries()[i]).0 == key@;
        assert(n.entries()[i] == m.entries()[i]);
    } else if after is Some {
        let i = choose|i: int| 0 <= i < n.entries().len() && (#[trigger] n.entries()[i]).0 == key@;
        if i < m.entries().len() {
            assert(n.entries()[i].0 == m.entries()[i].0 || n.entries()[i].0 == name@);
        }
    }
}

/// A copy has the same names in the same order, each with a copy of its value.
pub proof fn law_copy_has_the_entries<V: Clone>(map: &ServerMap<V>, copy: ServerMap<V>)
    requires
        call_ensures(<ServerMap<V> as Clone>::clone, (map,), copy),
    ensures
        copy.entries().len() == map.entries().len(),
        forall|i: int|
            0 <= i < map.entries().len() ==> {
                &&& (#[trigger] copy.entries()[i]).0 == map.entries()[i].0
                &&& cloned(map.entries()[i].1, copy.entries()[i].1)
            },
{
    assert(copy.names().len() == map.names().len());
    assert forall|i: int| 0 <= i < map.entries().len() implies (#[trigger] copy.entries()[i]).0
        == map.entries()[i].0 && cloned(map.entries()[i].1, copy.entries()[i].1) by {
        assert(copy.names()[i] == map.names()[i]);
        assert(cloned(map.entries()[i].1, copy.entries()[i].1));
    }
}

} // verus!
