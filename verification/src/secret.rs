//! The data of a Kubernetes secret.

use vstd::prelude::*;

verus! {

/// The entries of a secret: a map from names to bytes.
pub struct SecretData {
    entries: Vec<(String, Vec<u8>)>,
}

/// A secret, as the cluster hands it out. It may hold no data at all.
pub struct Secret {
    pub data: Option<SecretData>,
}

/// No name occurs twice among `entries`.
spec fn distinct_names(entries: Seq<(String, Vec<u8>)>) -> bool {
    forall|i: int, j: int|
        0 <= i < j < entries.len() ==> (#[trigger] entries[i]).0@ != (#[trigger] entries[j]).0@
}

/// `entries` has an entry called `name`.
spec fn has_name(entries: Seq<(String, Vec<u8>)>, name: Seq<char>) -> bool {
    exists|i: int| 0 <= i < entries.len() && (#[trigger] entries[i]).0@ == name
}

/// The place of the entry called `name`.
spec fn place_of(entries: Seq<(String, Vec<u8>)>, name: Seq<char>) -> int {
    choose|i: int| 0 <= i < entries.len() && (#[trigger] entries[i]).0@ == name
}

/// The map that `entries` stands for.
spec fn entries_map(entries: Seq<(String, Vec<u8>)>) -> Map<Seq<char>, Seq<u8>> {
    Map::new(
        |name: Seq<char>| has_name(entries, name),
        |name: Seq<char>| entries[place_of(entries, name)].1@,
    )
}

/// An entry among distinct names is what the map holds under its name.
proof fn entry_in_map(entries: Seq<(String, Vec<u8>)>, i: int)
    requires
        distinct_names(entries),
        0 <= i < entries.len(),
    ensures
        entries_map(entries).contains_key(entries[i].0@),
        entries_map(entries)[entries[i].0@] == entries[i].1@,
{
    let name = entries[i].0@;
    assert(has_name(entries, name));
    let j = place_of(entries, name);
    assert(i == j) by {
        if i < j {
            assert(entries[i].0@ != entries[j].0@);
        } else if j < i {
            assert(entries[j].0@ != entries[i].0@);
        }
    }
}

impl View for SecretData {
    type V = Map<Seq<char>, Seq<u8>>;

    closed spec fn view(&self) -> Map<Seq<char>, Seq<u8>> {
        entries_map(self.entries@)
    }
}

impl SecretData {
    #[verifier::type_invariant]
    spec fn well_formed(self) -> bool {
        distinct_names(self.entries@)
    }

    /// Data without entries.
    pub fn new() -> (data: SecretData)
        ensures
            data@ == Map::<Seq<char>, Seq<u8>>::empty(),
    {
        let data = SecretData { entries: Vec::new() };
        assert(data@ =~= Map::<Seq<char>, Seq<u8>>::empty());
        data
    }

    /// The place of the entry called `name`, if there is one.
    fn find(&self, name: &String) -> (place: Option<usize>)
        ensures
            match place {
                Some(i) => i < self.entries@.len() && self.entries@[i as int].0@ == name@,
                None => !has_name(self.entries@, name@),
            },
    {
        let mut i: usize = 0;
        while i < self.entries.len()
            invariant
                i <= self.entries@.len(),
                forall|j: int| 0 <= j < i ==> (#[trigger] self.entries@[j]).0@ != name@,
            decreases self.entries@.len() - i,
        {
            if self.entries[i].0 == *name {
                return Some(i);
            }
            i = i + 1;
        }
        None
    }

    /// Takes out the entry called `name`.
    pub fn remove(&mut self, name: &str) -> (value: Option<Vec<u8>>)
        ensures
            final(self)@ == old(self)@.remove(name@),
            match value {
                Some(bytes) => old(self)@.contains_key(name@) && old(self)@[name@] == bytes@,
                None => !old(self)@.contains_key(name@),
            },
    {
        proof {
            use_type_invariant(&*self);
        }
        let name = name.to_owned();
        let ghost before = self.entries@;
        match self.find(&name) {
            None => {
                assert(entries_map(before).remove(name@) =~= entries_map(before));
                None
            },
            Some(i) => {
                let mut entries: Vec<(String, Vec<u8>)> = Vec::new();
                std::mem::swap(&mut entries, &mut self.entries);
                let (_, value) = entries.remove(i);
                proof {
                    entry_in_map(before, i as int);
                    lemma_entries_without(before, i as int);
                }
                self.entries = entries;
                Some(value)
            },
        }
    }

    /// Puts `value` under `name` and gives back what was there.
    pub fn insert(&mut self, name: String, value: Vec<u8>) -> (previous: Option<Vec<u8>>)
        ensures
            final(self)@ == old(self)@.insert(name@, value@),
            match previous {
                Some(bytes) => old(self)@.contains_key(name@) && old(self)@[name@] == bytes@,
                None => !old(self)@.contains_key(name@),
            },
    {
        let previous = self.remove(name.as_str());
        proof {
            use_type_invariant(&*self);
        }
        let ghost before = self.entries@;
        let mut entries: Vec<(String, Vec<u8>)> = Vec::new();
        std::mem::swap(&mut entries, &mut self.entries);
        entries.push((name, value));
        proof {
            assert(!entries_map(before).contains_key(name@));
            lemma_entries_with(before, (name, value));
        }
        self.entries = entries;
        assert(self@ =~= old(self)@.insert(name@, value@));
        previous
    }
}

/// Taking out one entry takes its name out of the map.
proof fn lemma_entries_without(entries: Seq<(String, Vec<u8>)>, i: int)
    requires
        distinct_names(entries),
        0 <= i < entries.len(),
    ensures
        distinct_names(entries.remove(i)),
        entries_map(entries.remove(i)) == entries_map(entries).remove(entries[i].0@),
{
    let name = entries[i].0@;
    let after = entries.remove(i);
    assert forall|j: int, k: int| 0 <= j < k < after.len() implies (#[trigger] after[j]).0@ != (
    #[trigger] after[k]).0@ by {
        let jj = if j < i { j } else { j + 1 };
        let kk = if k < i { k } else { k + 1 };
        assert(after[j] == entries[jj] && after[k] == entries[kk]);
    }
    assert forall|j: int| 0 <= j < entries.len() && j != i implies has_name(
        after,
        (#[trigger] entries[j]).0@,
    ) && entries[j].0@ != name && entries_map(after)[entries[j].0@] == entries[j].1@ by {
        let jj = if j < i { j } else { j - 1 };
        assert(after[jj] == entries[j]);
        entry_in_map(after, jj);
        if j < i {
            assert(entries[j].0@ != entries[i].0@);
        } else {
            assert(entries[i].0@ != entries[j].0@);
        }
    }
    assert forall|other: Seq<char>| has_name(after, other) implies has_name(entries, other)
        && other != name by {
        let k = place_of(after, other);
        let kk = if k < i { k } else { k + 1 };
        assert(after[k] == entries[kk]);
    }
    assert forall|other: Seq<char>|
        has_name(entries, other) && other != name implies has_name(after, other)
        && entries_map(after)[other] == entries_map(entries)[other] by {
        let k = place_of(entries, other);
        entry_in_map(entries, k);
    }
    assert(entries_map(after) =~= entries_map(entries).remove(name));
}

/// Adding an entry under a new name adds it to the map.
proof fn lemma_entries_with(entries: Seq<(String, Vec<u8>)>, entry: (String, Vec<u8>))
    requires
        distinct_names(entries),
        !has_name(entries, entry.0@),
    ensures
        distinct_names(entries.push(entry)),
        entries_map(entries.push(entry)) == entries_map(entries).insert(entry.0@, entry.1@),
{
    let after = entries.push(entry);
    assert forall|j: int, k: int| 0 <= j < k < after.len() implies (#[trigger] after[j]).0@ != (
    #[trigger] after[k]).0@ by {
        assert(after[j] == entries[j]);
        if k < entries.len() {
            assert(after[k] == entries[k]);
        }
    }
    entry_in_map(after, entries.len() as int);
    assert forall|other: Seq<char>| has_name(entries, other) implies has_name(after, other)
        && entries_map(after)[other] == entries_map(entries)[other] by {
        let k = place_of(entries, other);
        entry_in_map(entries, k);
        assert(after[k] == entries[k]);
        entry_in_map(after, k);
    }
    assert forall|other: Seq<char>|
        has_name(after, other) && other != entry.0@ implies has_name(entries, other) by {
        let k = place_of(after, other);
        assert(k < entries.len());
        assert(after[k] == entries[k]);
    }
    assert(entries_map(after) =~= entries_map(entries).insert(entry.0@, entry.1@));
}

} // verus!
