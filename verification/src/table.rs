//! A table of named entries: an association list that keeps its entries in
//! the order in which their names were first added, and holds each name at
//! most once.
//!
//! The model of a table is the sequence of its entries, each a pair of a name
//! (as a sequence of characters) and the model of a value. All contracts are
//! stated over that sequence with the spec functions below.

use vstd::prelude::*;
use vstd::string::*;

verus! {

/// The model of a table: names paired with values, in table order.
pub type Entries<T> = Seq<(Seq<char>, T)>;

/// Some entry of `entries` has the name `key`.
pub open spec fn has_key<T>(entries: Entries<T>, key: Seq<char>) -> bool {
    exists|i: int| 0 <= i < entries.len() && (#[trigger] entries[i]).0 == key
}

/// The position of an entry named `key`, where there is one.
pub open spec fn position<T>(entries: Entries<T>, key: Seq<char>) -> int {
    choose|i: int| 0 <= i < entries.len() && (#[trigger] entries[i]).0 == key
}

/// The value stored under `key`, if any.
pub open spec fn lookup<T>(entries: Entries<T>, key: Seq<char>) -> Option<T> {
    if has_key(entries, key) {
        Some(entries[position(entries, key)].1)
    } else {
        None
    }
}

/// No name occurs twice.
pub open spec fn distinct_keys<T>(entries: Entries<T>) -> bool {
    forall|i: int, j: int|
        0 <= i < j < entries.len() ==> (#[trigger] entries[i]).0 != (#[trigger] entries[j]).0
}

/// `entries` with `value` stored under `key`: in place where the name is
/// already there, at the end where it is new.
pub open spec fn put<T>(entries: Entries<T>, key: Seq<char>, value: T) -> Entries<T> {
    if has_key(entries, key) {
        entries.update(position(entries, key), (key, value))
    } else {
        entries.push((key, value))
    }
}

/// `entries` without the entry named `key`; the others keep their order.
pub open spec fn delete<T>(entries: Entries<T>, key: Seq<char>) -> Entries<T> {
    if has_key(entries, key) {
        entries.remove(position(entries, key))
    } else {
        entries
    }
}

/// With distinct names, the entry at `i` is the one that its name finds.
pub proof fn lemma_position<T>(entries: Entries<T>, i: int)
    requires
        distinct_keys(entries),
        0 <= i < entries.len(),
    ensures
        has_key(entries, entries[i].0),
        position(entries, entries[i].0) == i,
        lookup(entries, entries[i].0) == Some(entries[i].1),
{
    let k = position(entries, entries[i].0);
    assert(entries[k].0 == entries[i].0);
}

/// Storing a value keeps the names distinct, makes that value the one found
/// under its name, and leaves every other name as it was.
pub proof fn lemma_put<T>(entries: Entries<T>, key: Seq<char>, value: T)
    requires
        distinct_keys(entries),
    ensures
        distinct_keys(put(entries, key, value)),
        lookup(put(entries, key, value), key) == Some(value),
        forall|other: Seq<char>|
            other != key ==> #[trigger] lookup(put(entries, key, value), other) == lookup(
                entries,
                other,
            ),
{
    let after = put(entries, key, value);
    let at = if has_key(entries, key) {
        position(entries, key)
    } else {
        entries.len() as int
    };
    assert(distinct_keys(after));
    lemma_position(after, at);
    assert forall|other: Seq<char>| other != key implies #[trigger] lookup(after, other)
        == lookup(entries, other) by {
        if has_key(entries, other) {
            lemma_position(after, position(entries, other));
        } else if has_key(after, other) {
            assert(entries[position(after, other)].0 == other);
        }
    }
}

/// Deleting a name keeps the names distinct, leaves nothing under that name,
/// and leaves every other name as it was.
pub proof fn lemma_delete<T>(entries: Entries<T>, key: Seq<char>)
    requires
        distinct_keys(entries),
    ensures
        distinct_keys(delete(entries, key)),
        lookup(delete(entries, key), key) == None::<T>,
        forall|other: Seq<char>|
            other != key ==> #[trigger] lookup(delete(entries, key), other) == lookup(
                entries,
                other,
            ),
{
    let after = delete(entries, key);
    if has_key(entries, key) {
        let p = position(entries, key);
        assert forall|i: int| 0 <= i < after.len() implies #[trigger] after[i] == entries[if i
            < p {
            i
        } else {
            i + 1
        }] by {}
        assert(distinct_keys(after));
        assert(!has_key(after, key));
        assert forall|other: Seq<char>| other != key implies #[trigger] lookup(after, other)
            == lookup(entries, other) by {
            if has_key(entries, other) {
                let q = position(entries, other);
                lemma_position(after, if q < p {
                    q
                } else {
                    q - 1
                });
            }
        }
    }
}

/// `start` after storing every entry of `entries`, first to last.
pub open spec fn put_all<T>(start: Entries<T>, entries: Entries<T>) -> Entries<T>
    decreases entries.len(),
{
    if entries.len() == 0 {
        start
    } else {
        put(put_all(start, entries.drop_last()), entries.last().0, entries.last().1)
    }
}

/// A table that is filled with the entries of a table, in their order, is
/// that table again: every name, every value, and the order.
pub proof fn lemma_refill<T>(entries: Entries<T>)
    requires
        distinct_keys(entries),
    ensures
        put_all(Seq::empty(), entries) == entries,
    decreases entries.len(),
{
    if entries.len() > 0 {
        let head = entries.drop_last();
        assert(distinct_keys(head));
        lemma_refill(head);
        assert(!has_key(head, entries.last().0));
    }
}

/// An ordered table from names to values, each name at most once.
#[derive(Debug, PartialEq, Eq)]
pub struct Table<V> {
    entries: Vec<(String, V)>,
}

/// The model of a run of stored entries.
pub open spec fn model_of<V: View>(stored: Seq<(String, V)>) -> Entries<V::V> {
    Seq::new(stored.len(), |i: int| (stored[i].0@, stored[i].1@))
}

impl<V: View> View for Table<V> {
    type V = Entries<V::V>;

    closed spec fn view(&self) -> Entries<V::V> {
        model_of(self.entries@)
    }
}

impl<V> Table<V> {
    #[verifier::type_invariant]
    spec fn names_are_distinct(self) -> bool {
        forall|i: int, j: int|
            0 <= i < j < self.entries@.len() ==> (#[trigger] self.entries@[i]).0@ != (
            #[trigger] self.entries@[j]).0@
    }
}

impl<V: View> Table<V> {
    /// Recalls for the proof at hand what holds of every table: no name
    /// occurs twice. It does nothing when run.
    pub fn names_distinct(&self)
        ensures
            distinct_keys(self@),
    {
        proof {
            use_type_invariant(self);
        }
    }

    /// Moves the stored entries out and leaves the table empty.
    fn take_entries(&mut self) -> (entries: Vec<(String, V)>)
        ensures
            model_of(entries@) == old(self)@,
            final(self)@.len() == 0,
    {
        let mut entries: Vec<(String, V)> = Vec::new();
        core::mem::swap(&mut self.entries, &mut entries);
        entries
    }

    /// Makes `entries` the stored entries.
    fn put_entries(&mut self, entries: Vec<(String, V)>)
        requires
            distinct_keys(model_of(entries@)),
        ensures
            final(self)@ == model_of(entries@),
    {
        let mut entries = entries;
        proof {
            assert forall|i: int, j: int| 0 <= i < j < entries@.len() implies (
            #[trigger] entries@[i]).0@ != (#[trigger] entries@[j]).0@ by {
                assert(model_of(entries@)[i].0 != model_of(entries@)[j].0);
            }
        }
        core::mem::swap(&mut self.entries, &mut entries);
    }

    /// The empty table.
    pub fn new() -> (table: Self)
        ensures
            table@ == Seq::<(Seq<char>, V::V)>::empty(),
    {
        Table { entries: Vec::new() }
    }

    /// The table that holds `entries`, stored first to last: of two entries
    /// with one name, the first gives the place and the last the value.
    pub fn from_entries(entries: Vec<(String, V)>) -> (table: Self)
        ensures
            table@ == put_all(Seq::empty(), model_of(entries@)),
    {
        let mut table: Table<V> = Table::new();
        let ghost all = model_of(entries@);
        for entry in it: entries
            invariant
                it.seq() == entries@,
                all == model_of(entries@),
                table@ == put_all(Seq::empty(), all.take(it.index() as int)),
        {
            assert(all.take(it.index() as int + 1).drop_last() =~= all.take(it.index() as int));
            table.insert(entry.0, entry.1);
        }
        assert(all.take(entries@.len() as int) =~= all);
        table
    }

    /// The entries of the table, in table order.
    pub fn into_entries(self) -> (entries: Vec<(String, V)>)
        ensures
            model_of(entries@) == self@,
    {
        let mut table = self;
        table.take_entries()
    }

    /// The number of entries.
    pub fn len(&self) -> (n: usize)
        ensures
            n == self@.len(),
    {
        self.entries.len()
    }

    /// Whether the table has no entry.
    pub fn is_empty(&self) -> (b: bool)
        ensures
            b == (self@.len() == 0),
    {
        self.entries.len() == 0
    }

    /// The name of the entry at `i`.
    pub fn key_at(&self, i: usize) -> (key: &str)
        requires
            i < self@.len(),
        ensures
            key@ == self@[i as int].0,
    {
        self.entries[i].0.as_str()
    }

    /// The value of the entry at `i`.
    pub fn value_at(&self, i: usize) -> (value: &V)
        requires
            i < self@.len(),
        ensures
            value@ == self@[i as int].1,
    {
        &self.entries[i].1
    }

    /// The position of the entry named `key`, or `None` where there is none.
    pub fn find(&self, key: &str) -> (r: Option<usize>)
        ensures
            match r {
                Some(i) => has_key(self@, key@) && i == position(self@, key@) && i < self@.len(),
                None => !has_key(self@, key@),
            },
    {
        self.names_distinct();
        let wanted = String::from_str(key);
        let n: usize = self.entries.len();
        let mut i: usize = 0;
        while i < n
            invariant
                n == self.entries@.len(),
                i <= n,
                wanted@ == key@,
                distinct_keys(self@),
                forall|j: int| 0 <= j < i ==> (#[trigger] self@[j]).0 != key@,
            decreases n - i,
        {
            if self.entries[i].0 == wanted {
                proof {
                    lemma_position(self@, i as int);
                }
                return Some(i);
            }
            i += 1;
        }
        None
    }

    /// Whether some entry is named `key`.
    pub fn contains_key(&self, key: &str) -> (b: bool)
        ensures
            b == has_key(self@, key@),
    {
        self.find(key).is_some()
    }

    /// Stores `value` under `key`: in place of the value that the name had,
    /// or as a new last entry. Returns the value that was there before.
    pub fn insert(&mut self, key: String, value: V) -> (previous: Option<V>)
        ensures
            final(self)@ == put(old(self)@, key@, value@),
            match previous {
                Some(p) => lookup(old(self)@, key@) == Some(p@),
                None => !has_key(old(self)@, key@),
            },
    {
        match self.find(key.as_str()) {
            Some(i) => Some(self.replace_at(i, value)),
            None => {
                self.names_distinct();
                let ghost before = self@;
                let mut entries = self.take_entries();
                entries.push((key, value));
                assert(model_of(entries@) =~= before.push((key@, value@)));
                self.put_entries(entries);
                None
            },
        }
    }

    /// Puts `value` in place of the value of the entry at `i`, whose name
    /// stays. Returns the value that was there.
    pub fn replace_at(&mut self, i: usize, value: V) -> (previous: V)
        requires
            i < old(self)@.len(),
        ensures
            final(self)@ == old(self)@.update(i as int, (old(self)@[i as int].0, value@)),
            previous@ == old(self)@[i as int].1,
    {
        self.names_distinct();
        let ghost before = self@;
        let mut entries = self.take_entries();
        let (name, previous) = entries.remove(i);
        entries.insert(i, (name, value));
        assert(model_of(entries@) =~= before.update(i as int, (before[i as int].0, value@)));
        self.put_entries(entries);
        previous
    }

    /// Takes out the entry named `key`, if there is one, and returns its
    /// value. The other entries keep their order.
    pub fn remove(&mut self, key: &str) -> (removed: Option<V>)
        ensures
            final(self)@ == delete(old(self)@, key@),
            match removed {
                Some(r) => lookup(old(self)@, key@) == Some(r@),
                None => !has_key(old(self)@, key@),
            },
    {
        match self.find(key) {
            Some(i) => {
                self.names_distinct();
                let ghost before = self@;
                let mut entries = self.take_entries();
                let (_, value) = entries.remove(i);
                assert(model_of(entries@) =~= before.remove(i as int));
                proof {
                    lemma_delete(before, key@);
                }
                self.put_entries(entries);
                Some(value)
            },
            None => None,
        }
    }

    /// The value stored under `key`, if any.
    pub fn get(&self, key: &str) -> (r: Option<&V>)
        ensures
            match r {
                Some(value) => lookup(self@, key@) == Some(value@),
                None => lookup(self@, key@) == None::<V::V>,
            },
    {
        match self.find(key) {
            Some(i) => Some(&self.entries[i].1),
            None => None,
        }
    }
}

} // verus!
