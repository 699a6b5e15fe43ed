//! A table from names to values that keeps its entries in the order in
//! which their names first came, each name at most once.
use vstd::prelude::*;

verus! {

/// The entries of a table: name and value, in order.
pub type Entries<V> = Seq<(Seq<char>, V)>;

/// Whether some entry has this name.
pub open spec fn has_name<V>(entries: Entries<V>, name: Seq<char>) -> bool {
    exists|i: int| 0 <= i < entries.len() && (#[trigger] entries[i]).0 == name
}

/// The position of an entry with this name, where there is one.
pub open spec fn index_of<V>(entries: Entries<V>, name: Seq<char>) -> int {
    choose|i: int| 0 <= i < entries.len() && (#[trigger] entries[i]).0 == name
}

/// The value under this name, if the table has the name.
pub open spec fn lookup<V>(entries: Entries<V>, name: Seq<char>) -> Option<V> {
    if has_name(entries, name) {
        Some(entries[index_of(entries, name)].1)
    } else {
        None
    }
}

/// Whether no name occurs twice.
pub open spec fn distinct<V>(entries: Entries<V>) -> bool {
    forall|i: int, j: int|
        0 <= i < j < entries.len() ==> (#[trigger] entries[i]).0 != (#[trigger] entries[j]).0
}

/// The entries after `value` is put under `name`: in the place of the old
/// entry where the name is taken, at the end where it is new.
pub open spec fn put<V>(entries: Entries<V>, name: Seq<char>, value: V) -> Entries<V> {
    if has_name(entries, name) {
        entries.update(index_of(entries, name), (name, value))
    } else {
        entries.push((name, value))
    }
}

/// The entries without the one under `name`, the others in their order.
pub open spec fn without<V>(entries: Entries<V>, name: Seq<char>) -> Entries<V> {
    if has_name(entries, name) {
        entries.remove(index_of(entries, name))
    } else {
        entries
    }
}

/// In a table without repeated names, a name is found at one position only.
pub proof fn lemma_index_unique<V>(entries: Entries<V>, name: Seq<char>, i: int)
    requires
        distinct(entries),
        0 <= i < entries.len(),
        entries[i].0 == name,
    ensures
        has_name(entries, name),
        index_of(entries, name) == i,
        lookup(entries, name) == Some(entries[i].1),
{
    let j = index_of(entries, name);
    if j < i {
        assert(entries[j].0 != entries[i].0);
    } else if i < j {
        assert(entries[i].0 != entries[j].0);
    }
}

/// Putting a value under a name keeps the names distinct, makes the name
/// answer with that value, and leaves every other name as it was.
pub proof fn lemma_put<V>(entries: Entries<V>, name: Seq<char>, value: V)
    requires
        distinct(entries),
    ensures
        distinct(put(entries, name, value)),
        lookup(put(entries, name, value), name) == Some(value),
        forall|other: Seq<char>|
            other != name ==> #[trigger] lookup(put(entries, name, value), other) == lookup(
                entries,
                other,
            ),
        put(entries, name, value).len() == if has_name(entries, name) {
            entries.len()
        } else {
            entries.len() + 1
        },
{
    let after = put(entries, name, value);
    let at = if has_name(entries, name) {
        index_of(entries, name)
    } else {
        entries.len() as int
    };
    assert(after[at] == (name, value));
    assert forall|i: int, j: int| 0 <= i < j < after.len() implies (#[trigger] after[i]).0 != (
    #[trigger] after[j]).0 by {
        if has_name(entries, name) {
            assert(after[i].0 == entries[i].0);
            assert(after[j].0 == entries[j].0);
        } else {
            if j == entries.len() {
                assert(after[i] == entries[i]);
            } else {
                assert(after[i] == entries[i]);
                assert(after[j] == entries[j]);
            }
        }
    }
    lemma_index_unique(after, name, at);
    assert forall|other: Seq<char>| other != name implies #[trigger] lookup(after, other) == lookup(
        entries,
        other,
    ) by {
        if has_name(entries, other) {
            let k = index_of(entries, other);
            assert(after[k] == entries[k]);
            lemma_index_unique(after, other, k);
        } else if has_name(after, other) {
            let k = index_of(after, other);
            assert(k != at);
            assert(after[k] == entries[k]);
        }
    }
}

/// Taking a name out keeps the names distinct, makes the name unknown, and
/// leaves every other name as it was.
pub proof fn lemma_without<V>(entries: Entries<V>, name: Seq<char>)
    requires
        distinct(entries),
    ensures
        distinct(without(entries, name)),
        !has_name(without(entries, name), name),
        forall|other: Seq<char>|
            other != name ==> #[trigger] lookup(without(entries, name), other) == lookup(
                entries,
                other,
            ),
{
    let after = without(entries, name);
    if has_name(entries, name) {
        let at = index_of(entries, name);
        assert forall|i: int| 0 <= i < after.len() implies #[trigger] after[i] == entries[if i
            < at {
            i
        } else {
            i + 1
        }] by {}
        assert forall|i: int, j: int| 0 <= i < j < after.len() implies (#[trigger] after[i]).0 != (
        #[trigger] after[j]).0 by {
            let a = if i < at {
                i
            } else {
                i + 1
            };
            let b = if j < at {
                j
            } else {
                j + 1
            };
            assert(entries[a].0 != entries[b].0);
        }
        if has_name(after, name) {
            let k = index_of(after, name);
            let a = if k < at {
                k
            } else {
                k + 1
            };
            assert(after[k] == entries[a]);
            lemma_index_unique(entries, name, a);
        }
        assert forall|other: Seq<char>| other != name implies #[trigger] lookup(after, other)
            == lookup(entries, other) by {
            if has_name(entries, other) {
                let k = index_of(entries, other);
                let a = if k < at {
                    k
                } else {
                    k - 1
                };
                assert(after[a] == entries[k]);
                lemma_index_unique(after, other, a);
            } else if has_name(after, other) {
                let k = index_of(after, other);
                let a = if k < at {
                    k
                } else {
                    k + 1
                };
                assert(after[k] == entries[a]);
            }
        }
    }
}

/// A table from names to values.
#[derive(Debug)]
pub struct NameTable<V> {
    entries: Vec<(String, V)>,
}

impl<V> View for NameTable<V> {
    type V = Entries<V>;

    closed spec fn view(&self) -> Entries<V> {
        Seq::new(self.entries@.len(), |i: int| (self.entries@[i].0@, self.entries@[i].1))
    }
}

impl<V: Copy> NameTable<V> {
    /// Well-formedness: no name occurs twice.
    pub open spec fn wf(&self) -> bool {
        distinct(self@)
    }

    /// The empty table.
    pub fn new() -> (table: Self)
        ensures
            table.wf(),
            table@ == Seq::<(Seq<char>, V)>::empty(),
    {
        let table = NameTable { entries: Vec::new() };
        assert(table@ =~= Seq::<(Seq<char>, V)>::empty());
        table
    }

    /// The number of entries.
    pub fn len(&self) -> (count: usize)
        ensures
            count == self@.len(),
    {
        self.entries.len()
    }

    /// The value of the entry at a position.
    pub fn value_at(&self, position: usize) -> (value: V)
        requires
            position < self@.len(),
        ensures
            value == self@[position as int].1,
    {
        self.entries[position].1
    }

    fn find(&self, name: &String) -> (position: Option<usize>)
        requires
            self.wf(),
        ensures
            position is Some <==> has_name(self@, name@),
            position matches Some(at) ==> at < self@.len() && at == index_of(self@, name@),
    {
        let mut i: usize = 0;
        while i < self.entries.len()
            invariant
                self.wf(),
                i <= self.entries@.len(),
                forall|k: int| 0 <= k < i ==> (#[trigger] self@[k]).0 != name@,
            decreases self.entries.len() - i,
        {
            if self.entries[i].0 == *name {
                proof {
                    lemma_index_unique(self@, name@, i as int);
                }
                return Some(i);
            }
            i = i + 1;
        }
        None
    }

    /// Whether the table has this name.
    pub fn contains(&self, name: &str) -> (found: bool)
        requires
            self.wf(),
        ensures
            found == has_name(self@, name@),
    {
        let owned = name.to_owned();
        self.find(&owned).is_some()
    }

    /// The value under this name.
    pub fn get(&self, name: &str) -> (value: Option<V>)
        requires
            self.wf(),
        ensures
            value == lookup(self@, name@),
    {
        let owned = name.to_owned();
        match self.find(&owned) {
            Some(at) => Some(self.entries[at].1),
            None => None,
        }
    }

    /// Puts a value under a name and hands back the value it replaces.
    pub fn insert(&mut self, name: String, value: V) -> (previous: Option<V>)
        requires
            old(self).wf(),
        ensures
            final(self).wf(),
            final(self)@ == put(old(self)@, name@, value),
            previous == lookup(old(self)@, name@),
    {
        proof {
            lemma_put(self@, name@, value);
        }
        match self.find(&name) {
            Some(at) => {
                let previous = self.entries[at].1;
                self.entries.set(at, (name, value));
                assert(self@ =~= put(old(self)@, name@, value));
                Some(previous)
            },
            None => {
                self.entries.push((name, value));
                assert(self@ =~= put(old(self)@, name@, value));
                None
            },
        }
    }

    /// Takes a name out and hands back its value.
    pub fn remove(&mut self, name: &str) -> (previous: Option<V>)
        requires
            old(self).wf(),
        ensures
            final(self).wf(),
            final(self)@ == without(old(self)@, name@),
            previous == lookup(old(self)@, name@),
    {
        proof {
            lemma_without(self@, name@);
        }
        let owned = name.to_owned();
        match self.find(&owned) {
            Some(at) => {
                let previous = self.entries[at].1;
                self.entries.remove(at);
                assert(self@ =~= without(old(self)@, name@));
                Some(previous)
            },
            None => None,
        }
    }

    /// Takes every entry out.
    pub fn clear(&mut self)
        ensures
            final(self).wf(),
            final(self)@ == Seq::<(Seq<char>, V)>::empty(),
    {
        self.entries.clear();
        assert(self@ =~= Seq::<(Seq<char>, V)>::empty());
    }
}

} // verus!
