//! Sharing of requests within one process.
//!
//! Callers of one process that ask for the same entry share one handle: the
//! first of them carries out the request, the others wait for its result. A
//! [`Registry`] gives every entry that was asked for a slot and tells the
//! first caller from the later ones. The caller keeps the handles by slot and
//! guards the registry with a lock.
use vstd::prelude::*;

verus! {

/// An entry of the cache, as a process names it: the identifier and the
/// content address of the key.
pub type EntryName = (Seq<char>, Seq<char>);

/// What a caller learns when it asks for an entry.
#[derive(Clone, Copy, Debug, PartialEq, Eq, Structural)]
pub struct Entry {
    /// The slot of the entry's handle.
    pub slot: usize,
    /// Whether this caller is the first to ask for the entry, and so the one
    /// to carry out the request.
    pub first: bool,
}

/// The place of a name in a list, where it occurs.
pub open spec fn slot_of_entry(entries: Seq<EntryName>, name: EntryName) -> int {
    choose|i: int| 0 <= i < entries.len() && entries[i] == name
}

/// The list after a name was asked for: a new name is added at the end.
pub open spec fn entered(entries: Seq<EntryName>, name: EntryName) -> Seq<EntryName> {
    if entries.contains(name) {
        entries
    } else {
        entries.push(name)
    }
}

/// The names of a list of identifiers and a list of keys, pair by pair.
pub open spec fn entry_names(ids: Seq<String>, keys: Seq<String>) -> Seq<EntryName> {
    Seq::new(ids.len(), |i: int| (ids[i]@, keys[i]@))
}

/// Asking for an entry twice gives the same slot, and only the first caller
/// is told to carry out the request; no other entry changes its slot.
pub proof fn lemma_enter_once(entries: Seq<EntryName>, name: EntryName, other: EntryName)
    requires
        entries.no_duplicates(),
    ensures
        entered(entries, name).no_duplicates(),
        entered(entries, name).contains(name),
        entered(entered(entries, name), name) == entered(entries, name),
        entries.contains(other) ==> entered(entries, name).contains(other) && slot_of_entry(
            entered(entries, name),
            other,
        ) == slot_of_entry(entries, other),
        !entries.contains(name) ==> slot_of_entry(entered(entries, name), name) == entries.len(),
{
    let after = entered(entries, name);
    if !entries.contains(name) {
        assert(after[entries.len() as int] == name);
        assert forall|i: int, j: int|
            0 <= i < after.len() && 0 <= j < after.len() && i != j implies after[i]
            != after[j] by {
            if i < entries.len() && j < entries.len() {
                assert(entries[i] != entries[j]);
            } else if i < entries.len() {
                assert(entries.contains(entries[i]));
            } else {
                assert(entries.contains(entries[j]));
            }
        }
        let at = slot_of_entry(after, name);
        assert(0 <= at < after.len() && after[at] == name);
    }
    if entries.contains(other) {
        let before = slot_of_entry(entries, other);
        assert(0 <= before < entries.len() && entries[before] == other);
        assert(after[before] == other);
        let at = slot_of_entry(after, other);
        assert(0 <= at < after.len() && after[at] == other);
    }
}

/// The entries that a process has asked for, each with its slot.
#[derive(Debug)]
pub struct Registry {
    ids: Vec<String>,
    keys: Vec<String>,
}

impl View for Registry {
    type V = Seq<EntryName>;

    closed spec fn view(&self) -> Seq<EntryName> {
        entry_names(self.ids@, self.keys@)
    }
}

impl Registry {
    #[verifier::type_invariant]
    closed spec fn distinct(&self) -> bool {
        &&& self.ids@.len() == self.keys@.len()
        &&& entry_names(self.ids@, self.keys@).no_duplicates()
    }

    /// A registry without entries.
    pub fn new() -> (registry: Self)
        ensures
            registry@ == Seq::<EntryName>::empty(),
    {
        let registry = Registry { ids: Vec::new(), keys: Vec::new() };
        assert(registry@ =~= Seq::<EntryName>::empty());
        registry
    }

    /// The number of entries, which is the slot of the next new entry.
    pub fn len(&self) -> (count: usize)
        ensures
            count == self@.len(),
    {
        self.ids.len()
    }

    /// Asks for the entry of a key under an identifier. A new entry gets the
    /// next slot and its caller is the first; a known entry keeps its slot.
    pub fn enter(&mut self, id: &String, key: &String) -> (entry: Entry)
        ensures
            final(self)@ == entered(old(self)@, (id@, key@)),
            final(self)@.no_duplicates(),
            entry.first == !old(self)@.contains((id@, key@)),
            entry.slot < final(self)@.len(),
            final(self)@[entry.slot as int] == (id@, key@),
            entry.slot == slot_of_entry(final(self)@, (id@, key@)),
    {
        proof {
            use_type_invariant(&*self);
            lemma_enter_once(self@, (id@, key@), (id@, key@));
        }
        let ghost before = self@;
        let mut ids: Vec<String> = Vec::new();
        let mut keys: Vec<String> = Vec::new();
        let mut found: Option<usize> = None;
        let mut i: usize = 0;
        while i < self.ids.len()
            invariant
                i <= self.ids.len(),
                self.ids@.len() == self.keys@.len(),
                before == self@,
                ids@.len() == i,
                keys@.len() == i,
                forall|j: int| 0 <= j < i ==> entry_names(ids@, keys@)[j] == before[j],
                match found {
                    Some(at) => at < i && before[at as int] == (id@, key@),
                    None => forall|j: int| 0 <= j < i ==> before[j] != (id@, key@),
                },
            decreases self.ids.len() - i,
        {
            if found.is_none() && self.ids[i] == *id && self.keys[i] == *key {
                found = Some(i);
            }
            ids.push(self.ids[i].clone());
            keys.push(self.keys[i].clone());
            i += 1;
        }
        match found {
            Some(at) => {
                proof {
                    assert(entry_names(ids@, keys@) =~= before);
                    assert(before.contains((id@, key@)));
                    let slot = slot_of_entry(before, (id@, key@));
                    assert(0 <= slot < before.len() && before[slot] == (id@, key@));
                }
                *self = Registry { ids, keys };
                Entry { slot: at, first: false }
            },
            None => {
                let slot = ids.len();
                ids.push(id.clone());
                keys.push(key.clone());
                proof {
                    assert(entry_names(ids@, keys@) =~= before.push((id@, key@)));
                }
                *self = Registry { ids, keys };
                Entry { slot, first: true }
            },
        }
    }
}

} // verus!
