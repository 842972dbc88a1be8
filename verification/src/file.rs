//! The catalog of files that are bundled with the tool.

use crate::shell::texts;
use vstd::prelude::*;
use vstd::slice::slice_to_vec;

verus! {

/// One bundled file: its relative name and its bytes.
pub type Entry = (Seq<char>, Seq<u8>);

/// The names of `entries`, in order.
pub open spec fn entry_names(entries: Seq<Entry>) -> Seq<Seq<char>> {
    entries.map_values(|entry: Entry| entry.0)
}

/// No two of `entries` have the same name.
pub open spec fn distinct_names(entries: Seq<Entry>) -> bool {
    forall|i: int, j: int| 0 <= i < j < entries.len() ==> entries[i].0 != entries[j].0
}

/// `found` answers a lookup of `name` in `entries`: the bytes of an entry
/// with that name, or nothing where no entry has it.
pub open spec fn finds(entries: Seq<Entry>, name: Seq<char>, found: Option<Seq<u8>>) -> bool {
    match found {
        Some(bytes) => exists|i: int| 0 <= i < entries.len() && entries[i] == (name, bytes),
        None => forall|i: int| 0 <= i < entries.len() ==> entries[i].0 != name,
    }
}

/// The bytes of what a lookup returned.
pub open spec fn found_bytes(found: Option<&[u8]>) -> Option<Seq<u8>> {
    match found {
        Some(bytes) => Some(bytes@),
        None => None,
    }
}

/// A read-only mapping from file names to contents, which also knows the
/// order in which the files were bundled.
#[derive(Debug)]
pub struct Asset {
    names: Vec<String>,
    contents: Vec<Vec<u8>>,
}

impl View for Asset {
    type V = Seq<Entry>;

    closed spec fn view(&self) -> Seq<Entry> {
        Seq::new(self.names@.len(), |i: int| (self.names@[i]@, self.contents@[i]@))
    }
}

impl Asset {
    #[verifier::type_invariant]
    spec fn inv(&self) -> bool {
        &&& self.names@.len() == self.contents@.len()
        &&& distinct_names(self@)
    }

    /// A catalog without files.
    pub fn new() -> (catalog: Asset)
        ensures
            catalog@ == Seq::<Entry>::empty(),
    {
        let catalog = Asset { names: Vec::new(), contents: Vec::new() };
        assert(catalog@ =~= Seq::<Entry>::empty());
        catalog
    }

    /// The place of `name` among the names, if a file has it.
    fn position(&self, name: &str) -> (place: Option<usize>)
        ensures
            self.names@.len() == self.contents@.len(),
            match place {
                Some(i) => i < self@.len() && self@[i as int].0 == name@,
                None => forall|i: int| 0 <= i < self@.len() ==> self@[i].0 != name@,
            },
    {
        proof {
            use_type_invariant(self);
        }
        let key = String::from_str(name);
        let mut i: usize = 0;
        while i < self.names.len()
            invariant
                i <= self.names@.len(),
                self.names@.len() == self.contents@.len(),
                key@ == name@,
                forall|j: int| 0 <= j < i ==> self@[j].0 != name@,
            decreases self.names@.len() - i,
        {
            if self.names[i] == key {
                return Some(i);
            }
            i = i + 1;
        }
        None
    }

    /// Bundles `content` under `name`, behind the files that are there. A
    /// name that a file already has is not bundled again: the catalog then
    /// stays as it is.
    pub fn insert(&mut self, name: &str, content: &[u8]) -> (added: bool)
        ensures
            added <==> !entry_names(old(self)@).contains(name@),
            added ==> final(self)@ == old(self)@.push((name@, content@)),
            !added ==> final(self)@ == old(self)@,
            distinct_names(final(self)@),
    {
        proof {
            use_type_invariant(&*self);
        }
        match self.position(name) {
            Some(i) => {
                assert(entry_names(self@)[i as int] == name@);
                false
            },
            None => {
                let ghost before = self@;
                assert(!entry_names(before).contains(name@)) by {
                    if entry_names(before).contains(name@) {
                        let i = choose|i: int|
                            0 <= i < entry_names(before).len() && entry_names(before)[i] == name@;
                        assert(before[i].0 == name@);
                    }
                }
                // The lists grow outside the catalog, which holds its
                // invariant at every moment.
                let mut taken = Asset::new();
                std::mem::swap(self, &mut taken);
                proof {
                    use_type_invariant(&taken);
                }
                let Asset { mut names, mut contents } = taken;
                names.push(String::from_str(name));
                contents.push(slice_to_vec(content));
                proof {
                    let after = Seq::new(names@.len(), |i: int| (names@[i]@, contents@[i]@));
                    assert(after =~= before.push((name@, content@)));
                    assert(distinct_names(after));
                }
                *self = Asset { names, contents };
                true
            },
        }
    }

    /// The bytes of the file `name`, or nothing where no file has that
    /// name.
    pub fn get(&self, name: &str) -> (found: Option<&[u8]>)
        ensures
            finds(self@, name@, found_bytes(found)),
            distinct_names(self@),
    {
        proof {
            use_type_invariant(self);
        }
        match self.position(name) {
            Some(i) => {
                let bytes = self.contents[i].as_slice();
                assert(self@[i as int] == (name@, bytes@));
                Some(bytes)
            },
            None => None,
        }
    }

    /// The names of all files, in the order in which they were bundled.
    pub fn iter(&self) -> (names: Vec<String>)
        ensures
            texts(names@) == entry_names(self@),
            distinct_names(self@),
    {
        proof {
            use_type_invariant(self);
        }
        let mut names: Vec<String> = Vec::new();
        let mut i: usize = 0;
        while i < self.names.len()
            invariant
                i <= self.names@.len(),
                names@.len() == i,
                forall|j: int| 0 <= j < i ==> names@[j]@ == self.names@[j]@,
            decreases self.names@.len() - i,
        {
            names.push(self.names[i].clone());
            i = i + 1;
        }
        assert(texts(names@) =~= entry_names(self@));
        names
    }
}

/// Looking a name up twice in one catalog finds the same bytes both
/// times: where no two files share a name, a lookup has one answer.
pub proof fn lemma_lookup_is_stable(
    entries: Seq<Entry>,
    name: Seq<char>,
    first: Option<Seq<u8>>,
    second: Option<Seq<u8>>,
)
    requires
        distinct_names(entries),
        finds(entries, name, first),
        finds(entries, name, second),
    ensures
        first == second,
{
    if let Some(a) = first {
        let i = choose|i: int| 0 <= i < entries.len() && entries[i] == (name, a);
        if let Some(b) = second {
            let j = choose|j: int| 0 <= j < entries.len() && entries[j] == (name, b);
            assert(i == j);
        } else {
            assert(entries[i].0 == name);
        }
    } else if let Some(b) = second {
        let j = choose|j: int| 0 <= j < entries.len() && entries[j] == (name, b);
        assert(entries[j].0 == name);
    }
}

/// Listing one catalog twice gives the same names in the same order.
pub proof fn lemma_enumeration_is_stable(
    entries: Seq<Entry>,
    first: Seq<Seq<char>>,
    second: Seq<Seq<char>>,
)
    requires
        first == entry_names(entries),
        second == entry_names(entries),
    ensures
        first == second,
        first.len() == entries.len(),
        forall|i: int| 0 <= i < entries.len() ==> first[i] == entries[i].0,
{
}

/// A name is listed exactly if a lookup of it finds a file.
pub proof fn lemma_listed_names_are_found(
    entries: Seq<Entry>,
    name: Seq<char>,
    found: Option<Seq<u8>>,
)
    requires
        finds(entries, name, found),
    ensures
        found is Some <==> entry_names(entries).contains(name),
{
    if let Some(bytes) = found {
        let i = choose|i: int| 0 <= i < entries.len() && entries[i] == (name, bytes);
        assert(entry_names(entries)[i] == name);
    } else if entry_names(entries).contains(name) {
        let i = choose|i: int|
            0 <= i < entry_names(entries).len() && entry_names(entries)[i] == name;
        assert(entries[i].0 == name);
    }
}

} // verus!
