//! A map from names to text: the parameters of an acceleration, and the options of a table.

use crate::text::same_text;
use vstd::prelude::*;

verus! {

/// A map from names to text values. No name occurs twice.
pub struct Params {
    entries: Vec<(String, String)>,
}

/// No two entries have the same name.
pub open spec fn distinct_names(entries: Seq<(String, String)>) -> bool {
    forall|i: int, j: int|
        0 <= i < j < entries.len() ==> #[trigger] entries[i].0@ != #[trigger] entries[j].0@
}

/// The entry at `i` has the name `name`.
pub open spec fn is_entry(entries: Seq<(String, String)>, name: Seq<char>, i: int) -> bool {
    0 <= i < entries.len() && entries[i].0@ == name
}

/// The map that a list of entries writes out.
pub open spec fn entries_map(entries: Seq<(String, String)>) -> Map<Seq<char>, Seq<char>> {
    Map::new(
        |name: Seq<char>| exists|i: int| is_entry(entries, name, i),
        |name: Seq<char>| entries[choose|i: int| is_entry(entries, name, i)].1@,
    )
}

impl View for Params {
    type V = Map<Seq<char>, Seq<char>>;

    closed spec fn view(&self) -> Map<Seq<char>, Seq<char>> {
        entries_map(self.entries@)
    }
}

proof fn lemma_entry(entries: Seq<(String, String)>, i: int)
    requires
        distinct_names(entries),
        0 <= i < entries.len(),
    ensures
        entries_map(entries).contains_key(entries[i].0@),
        entries_map(entries)[entries[i].0@] == entries[i].1@,
{
    let name = entries[i].0@;
    assert(is_entry(entries, name, i));
    let j = choose|j: int| is_entry(entries, name, j);
    assert(is_entry(entries, name, j));
    if i < j {
        assert(entries[i].0@ != entries[j].0@);
    } else if j < i {
        assert(entries[j].0@ != entries[i].0@);
    }
}

/// The position of the entry named `name`.
fn position(entries: &Vec<(String, String)>, name: &str) -> (res: Option<usize>)
    ensures
        match res {
            Some(i) => is_entry(entries@, name@, i as int),
            None => forall|i: int| !is_entry(entries@, name@, i),
        },
{
    let mut i: usize = 0;
    while i < entries.len()
        invariant
            i <= entries@.len(),
            forall|j: int| 0 <= j < i ==> !is_entry(entries@, name@, j),
        decreases entries@.len() - i,
    {
        if same_text(entries[i].0.as_str(), name) {
            return Some(i);
        }
        i = i + 1;
    }
    None
}

impl Params {
    #[verifier::type_invariant]
    closed spec fn names_are_distinct(self) -> bool {
        distinct_names(self.entries@)
    }

    /// The empty map.
    pub fn new() -> (params: Params)
        ensures
            params@ == Map::<Seq<char>, Seq<char>>::empty(),
    {
        let params = Params { entries: Vec::new() };
        assert(forall|name: Seq<char>, i: int| !is_entry(params.entries@, name, i));
        assert(params@ =~= Map::<Seq<char>, Seq<char>>::empty());
        params
    }

    /// The value under `name`.
    pub fn get(&self, name: &str) -> (res: Option<&str>)
        ensures
            match res {
                Some(value) => self@.contains_key(name@) && value@ == self@[name@],
                None => !self@.contains_key(name@),
            },
    {
        proof {
            use_type_invariant(self);
        }
        match position(&self.entries, name) {
            Some(i) => {
                proof {
                    lemma_entry(self.entries@, i as int);
                }
                Some(self.entries[i].1.as_str())
            },
            None => None,
        }
    }

    /// Whether there is a value under `name`.
    pub fn contains_key(&self, name: &str) -> (res: bool)
        ensures
            res == self@.contains_key(name@),
    {
        self.get(name).is_some()
    }

    /// Puts `value` under `name`, in place of the value that was there.
    pub fn insert(&mut self, name: String, value: String)
        ensures
            final(self)@ == old(self)@.insert(name@, value@),
    {
        proof {
            use_type_invariant(&*self);
        }
        let ghost before = self.entries@;
        let mut entries: Vec<(String, String)> = Vec::new();
        std::mem::swap(&mut entries, &mut self.entries);
        let ghost key = name@;
        let ghost text = value@;
        let ghost mut at: int = before.len() as int;
        match position(&entries, name.as_str()) {
            Some(i) => {
                proof {
                    at = i as int;
                }
                entries.set(i, (name, value));
            },
            None => {
                entries.push((name, value));
            },
        }
        proof {
            assert(distinct_names(entries@)) by {
                assert forall|i: int, j: int| 0 <= i < j < entries@.len() implies
                    #[trigger] entries@[i].0@ != #[trigger] entries@[j].0@ by {
                    if i < before.len() && j < before.len() {
                        assert(before[i].0@ != before[j].0@);
                    } else {
                        assert(!is_entry(before, key, i));
                    }
                }
            }
            assert forall|other: Seq<char>| #[trigger]
                entries_map(entries@).contains_key(other) == entries_map(before).insert(
                    key,
                    text,
                ).contains_key(other) by {
                if entries_map(entries@).contains_key(other) {
                    let i = choose|i: int| is_entry(entries@, other, i);
                    if other != key {
                        assert(is_entry(before, other, i));
                    }
                } else if other == key {
                    assert(is_entry(entries@, key, at));
                } else if entries_map(before).contains_key(other) {
                    let i = choose|i: int| is_entry(before, other, i);
                    assert(is_entry(entries@, other, i));
                }
            }
            assert forall|other: Seq<char>| entries_map(entries@).contains_key(
                other,
            ) implies #[trigger] entries_map(entries@)[other] == entries_map(before).insert(
                key,
                text,
            )[other] by {
                let i = choose|i: int| is_entry(entries@, other, i);
                lemma_entry(entries@, i);
                if other != key {
                    lemma_entry(before, i);
                } else {
                    lemma_entry(entries@, at);
                }
            }
            assert(entries_map(entries@) =~= entries_map(before).insert(key, text));
        }
        self.entries = entries;
    }

    /// Takes out the value under `name`.
    pub fn remove(&mut self, name: &str) -> (res: Option<String>)
        ensures
            final(self)@ == old(self)@.remove(name@),
            match res {
                Some(value) => old(self)@.contains_key(name@) && value@ == old(self)@[name@],
                None => !old(self)@.contains_key(name@),
            },
    {
        proof {
            use_type_invariant(&*self);
        }
        let ghost before = self.entries@;
        let mut entries: Vec<(String, String)> = Vec::new();
        std::mem::swap(&mut entries, &mut self.entries);
        match position(&entries, name) {
            Some(at) => {
                let (_, value) = entries.remove(at);
                proof {
                    lemma_entry(before, at as int);
                    lemma_removed(before, entries@, at as int);
                }
                self.entries = entries;
                Some(value)
            },
            None => {
                assert(!entries_map(before).contains_key(name@));
                assert(entries_map(before).remove(name@) =~= entries_map(before));
                self.entries = entries;
                None
            },
        }
    }

    /// The entries, each name once, in no particular order.
    pub fn entries(&self) -> (entries: &Vec<(String, String)>)
        ensures
            distinct_names(entries@),
            entries_map(entries@) == self@,
    {
        proof {
            use_type_invariant(self);
        }
        &self.entries
    }
}

proof fn lemma_removed(before: Seq<(String, String)>, after: Seq<(String, String)>, at: int)
    requires
        distinct_names(before),
        0 <= at < before.len(),
        after == before.remove(at),
    ensures
        distinct_names(after),
        entries_map(after) == entries_map(before).remove(before[at].0@),
{
    let name = before[at].0@;
    assert forall|i: int, j: int| 0 <= i < j < after.len() implies #[trigger] after[i].0@
        != #[trigger] after[j].0@ by {
        let p = if i < at {
            i
        } else {
            i + 1
        };
        let q = if j < at {
            j
        } else {
            j + 1
        };
        assert(before[p].0@ != before[q].0@);
    }
    assert forall|other: Seq<char>| #[trigger]
        entries_map(after).contains_key(other) == entries_map(before).remove(name).contains_key(
            other,
        ) by {
        if entries_map(after).contains_key(other) {
            let i = choose|i: int| is_entry(after, other, i);
            let p = if i < at {
                i
            } else {
                i + 1
            };
            assert(is_entry(before, other, p));
            if p < at {
                assert(before[p].0@ != before[at].0@);
            } else {
                assert(before[at].0@ != before[p].0@);
            }
        } else if entries_map(before).contains_key(other) && other != name {
            let p = choose|p: int| is_entry(before, other, p);
            let i = if p < at {
                p
            } else {
                p - 1
            };
            assert(is_entry(after, other, i));
        }
    }
    assert forall|other: Seq<char>| entries_map(after).contains_key(other) implies #[trigger]
        entries_map(after)[other] == entries_map(before).remove(name)[other] by {
        let i = choose|i: int| is_entry(after, other, i);
        lemma_entry(after, i);
        lemma_entry(before, if i < at {
            i
        } else {
            i + 1
        });
    }
    assert(entries_map(after) =~= entries_map(before).remove(name));
}

} // verus!
