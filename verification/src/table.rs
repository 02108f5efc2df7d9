//! A map from names to values, kept as a list in which no name stands
//! twice. What vstd states of std's hash map holds for keys that obey its
//! key model, which it grants to integers and not to text; so names are
//! looked up here by comparing them.

use crate::words::same_text;
use vstd::prelude::*;

verus! {

/// The value listed for `name` at or after position `from`, if any.
pub open spec fn found_from<V>(entries: Seq<(String, V)>, name: Seq<char>, from: int) -> Option<V>
    decreases entries.len() - from,
{
    if from < 0 || from >= entries.len() {
        None
    } else if entries[from].0@ == name {
        Some(entries[from].1)
    } else {
        found_from(entries, name, from + 1)
    }
}

/// A map from names to values.
pub struct Table<V> {
    entries: Vec<(String, V)>,
}

impl<V: Copy> View for Table<V> {
    type V = Map<Seq<char>, V>;

    closed spec fn view(&self) -> Map<Seq<char>, V> {
        Map::new(
            |name: Seq<char>| found_from(self.entries@, name, 0) is Some,
            |name: Seq<char>| found_from(self.entries@, name, 0)->Some_0,
        )
    }
}

/// Before the position of the first entry for `name`, the search for any
/// name goes the same way whether or not that entry is replaced.
proof fn lemma_replaced<V>(
    before: Seq<(String, V)>,
    after: Seq<(String, V)>,
    at: int,
    name: Seq<char>,
    value: V,
    key: Seq<char>,
    from: int,
)
    requires
        0 <= from <= at < before.len(),
        after.len() == before.len(),
        forall|i: int| 0 <= i < before.len() && i != at ==> after[i] == before[i],
        before[at].0@ == name,
        after[at].0@ == name,
        after[at].1 == value,
        forall|i: int| 0 <= i < at ==> before[i].0@ != name,
    ensures
        found_from(after, key, from) == if key == name {
            Some(value)
        } else {
            found_from(before, key, from)
        },
    decreases before.len() - from,
{
    if from < at {
        lemma_replaced(before, after, at, name, value, key, from + 1);
    } else if key != name {
        lemma_same_tail(before, after, key, at + 1);
    }
}

/// Two lists that agree from `from` on list the same values from there.
proof fn lemma_same_tail<V>(
    before: Seq<(String, V)>,
    after: Seq<(String, V)>,
    key: Seq<char>,
    from: int,
)
    requires
        0 <= from <= before.len(),
        after.len() == before.len(),
        forall|i: int| from <= i < before.len() ==> after[i] == before[i],
    ensures
        found_from(after, key, from) == found_from(before, key, from),
    decreases before.len() - from,
{
    if from < before.len() {
        lemma_same_tail(before, after, key, from + 1);
    }
}

/// An entry added at the end is found for its own name where no earlier
/// entry has that name, and changes nothing for any other name.
proof fn lemma_pushed<V>(
    before: Seq<(String, V)>,
    entry: (String, V),
    key: Seq<char>,
    from: int,
)
    requires
        0 <= from <= before.len(),
        forall|i: int| 0 <= i < before.len() ==> before[i].0@ != entry.0@,
    ensures
        found_from(before.push(entry), key, from) == if key == entry.0@ {
            Some(entry.1)
        } else {
            found_from(before, key, from)
        },
    decreases before.len() - from,
{
    let after = before.push(entry);
    if from < before.len() {
        lemma_pushed(before, entry, key, from + 1);
        assert(after[from] == before[from]);
    } else {
        assert(after[from] == entry);
        assert(found_from(after, key, from + 1) is None);
    }
}

impl<V: Copy> Table<V> {
    /// A table without entries.
    pub fn new() -> (table: Self)
        ensures
            table@ == Map::<Seq<char>, V>::empty(),
    {
        let table = Table { entries: Vec::new() };
        proof {
            assert(table@ =~= Map::<Seq<char>, V>::empty());
        }
        table
    }

    /// The position of the entry for `name`.
    fn position(&self, name: &str) -> (at: Option<usize>)
        ensures
            match at {
                Some(i) => i < self.entries@.len() && self.entries@[i as int].0@ == name@ && forall|
                    j: int,
                |
                    0 <= j < i ==> self.entries@[j].0@ != name@,
                None => forall|j: int|
                    0 <= j < self.entries@.len() ==> self.entries@[j].0@ != name@,
            },
    {
        let mut i: usize = 0;
        while i < self.entries.len()
            invariant
                i <= self.entries@.len(),
                forall|j: int| 0 <= j < i ==> self.entries@[j].0@ != name@,
            decreases self.entries@.len() - i,
        {
            if same_text(self.entries[i].0.as_str(), name) {
                return Some(i);
            }
            i = i + 1;
        }
        None
    }

    /// The value for `name`, if there is one.
    pub fn get(&self, name: &str) -> (value: Option<V>)
        ensures
            value == (if self@.contains_key(name@) {
                Some(self@[name@])
            } else {
                None
            }),
    {
        match self.position(name) {
            Some(i) => {
                proof {
                    lemma_found_at(self.entries@, name@, i as int, 0);
                }
                Some(self.entries[i].1)
            },
            None => {
                proof {
                    lemma_not_found(self.entries@, name@, 0);
                }
                None
            },
        }
    }

    /// Sets the value for `name`, in place of any earlier one.
    pub fn insert(&mut self, name: &str, value: V)
        ensures
            final(self)@ == old(self)@.insert(name@, value),
    {
        let ghost before = self.entries@;
        match self.position(name) {
            Some(i) => {
                self.entries.set(i, (name.to_owned(), value));
                proof {
                    let after = self.entries@;
                    assert forall|key: Seq<char>|
                        found_from(after, key, 0) == (if key == name@ {
                            Some(value)
                        } else {
                            found_from(before, key, 0)
                        }) by {
                        lemma_replaced(before, after, i as int, name@, value, key, 0);
                    }
                    assert(self@ =~= old(self)@.insert(name@, value));
                }
            },
            None => {
                let entry = (name.to_owned(), value);
                self.entries.push(entry);
                proof {
                    let after = self.entries@;
                    assert forall|key: Seq<char>|
                        found_from(after, key, 0) == (if key == name@ {
                            Some(value)
                        } else {
                            found_from(before, key, 0)
                        }) by {
                        lemma_pushed(before, entry, key, 0);
                    }
                    assert(self@ =~= old(self)@.insert(name@, value));
                }
            },
        }
    }
}

/// The first entry for a name is the one that is found.
proof fn lemma_found_at<V>(entries: Seq<(String, V)>, name: Seq<char>, at: int, from: int)
    requires
        0 <= from <= at < entries.len(),
        entries[at].0@ == name,
        forall|j: int| 0 <= j < at ==> entries[j].0@ != name,
    ensures
        found_from(entries, name, from) == Some(entries[at].1),
    decreases at - from,
{
    if from < at {
        lemma_found_at(entries, name, at, from + 1);
    }
}

/// Where no entry has the name, nothing is found.
proof fn lemma_not_found<V>(entries: Seq<(String, V)>, name: Seq<char>, from: int)
    requires
        0 <= from <= entries.len(),
        forall|j: int| 0 <= j < entries.len() ==> entries[j].0@ != name,
    ensures
        found_from(entries, name, from) is None,
    decreases entries.len() - from,
{
    if from < entries.len() {
        lemma_not_found(entries, name, from + 1);
    }
}

} // verus!
