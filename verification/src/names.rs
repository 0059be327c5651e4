//! Lookup of converted objects by their display name.

use vstd::prelude::*;
use vstd::string::StringExecFns;

verus! {

/// One registration: the object at `index` goes by `name`.
#[derive(Debug, Clone)]
pub struct NameEntry {
    pub name: String,
    pub index: usize,
}

/// A lookup table from display names to object indices. Registrations are
/// kept in the order they were made; where a name was registered more than
/// once, the latest registration is the one that counts.
#[derive(Debug, Clone)]
pub struct NameIndex {
    pub entries: Vec<NameEntry>,
}

/// The mapping that a sequence of registrations amounts to.
pub open spec fn lookup_map(entries: Seq<NameEntry>) -> Map<Seq<char>, usize>
    decreases entries.len(),
{
    if entries.len() == 0 {
        Map::empty()
    } else {
        lookup_map(entries.drop_last()).insert(entries.last().name@, entries.last().index)
    }
}

/// The position of the last registration of `name`, if there is one.
pub open spec fn last_position(entries: Seq<NameEntry>, name: Seq<char>) -> Option<int>
    decreases entries.len(),
{
    if entries.len() == 0 {
        None
    } else if entries.last().name@ == name {
        Some(entries.len() - 1)
    } else {
        last_position(entries.drop_last(), name)
    }
}

/// A name is in the mapping exactly if some registration carries it, and it
/// then maps to the index of the last such registration.
pub proof fn lemma_lookup_map(entries: Seq<NameEntry>, name: Seq<char>)
    ensures
        lookup_map(entries).contains_key(name) <==> last_position(entries, name) is Some,
        last_position(entries, name) matches Some(p) ==> 0 <= p < entries.len() && entries[p].name@
            == name && lookup_map(entries)[name] == entries[p].index,
    decreases entries.len(),
{
    if entries.len() > 0 {
        lemma_lookup_map(entries.drop_last(), name);
    }
}

impl View for NameIndex {
    type V = Map<Seq<char>, usize>;

    open spec fn view(&self) -> Map<Seq<char>, usize> {
        lookup_map(self.entries@)
    }
}

impl NameIndex {
    /// A table without registrations.
    pub fn new() -> (table: NameIndex)
        ensures
            table@ == Map::<Seq<char>, usize>::empty(),
            table.entries@.len() == 0,
    {
        NameIndex { entries: Vec::new() }
    }

    /// Registers `index` under `name`, in place of whatever the name stood for.
    pub fn insert(&mut self, name: String, index: usize)
        ensures
            final(self)@ == old(self)@.insert(name@, index),
            final(self).entries@ == old(self).entries@.push(NameEntry { name, index }),
    {
        self.entries.push(NameEntry { name, index });
        proof {
            assert(self.entries@.drop_last() =~= old(self).entries@);
        }
    }

    /// The index registered under `name`, if any.
    pub fn get(&self, name: &str) -> (found: Option<usize>)
        ensures
            found == if self@.contains_key(name@) {
                Some(self@[name@])
            } else {
                None
            },
    {
        let needle = String::from_str(name);
        let mut i: usize = self.entries.len();
        proof {
            assert(self.entries@.take(i as int) =~= self.entries@);
        }
        while i > 0
            invariant
                i <= self.entries@.len(),
                needle@ == name@,
                last_position(self.entries@, name@) == last_position(
                    self.entries@.take(i as int),
                    name@,
                ),
            decreases i,
        {
            proof {
                assert(self.entries@.take(i as int).drop_last() =~= self.entries@.take(i - 1));
                lemma_lookup_map(self.entries@, name@);
            }
            i -= 1;
            if self.entries[i].name == needle {
                return Some(self.entries[i].index);
            }
        }
        proof {
            lemma_lookup_map(self.entries@, name@);
        }
        None
    }
}

} // verus!
