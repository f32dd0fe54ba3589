//! The two manifests that record what the cache believes about its contents:
//! the root manifest lists the identifiers that were ever registered, and each
//! bucket's item manifest gives the status of every key in that bucket.
use vstd::prelude::*;

verus! {

/// The state of one cache entry.
#[derive(Clone, Copy, Debug, PartialEq, Eq, Structural)]
pub enum ValueStatus {
    /// A generator holds the value file exclusively and has not finished.
    Loading,
    /// The value file is complete and may be read.
    InUse,
    /// The entry is being removed; its value file is no longer trusted.
    Evicting,
}

/// The literal tag under which a status is persisted.
pub open spec fn status_tag(status: ValueStatus) -> Seq<char> {
    match status {
        ValueStatus::Loading => "Loading"@,
        ValueStatus::InUse => "InUse"@,
        ValueStatus::Evicting => "Evicting"@,
    }
}

/// The status that a persisted tag stands for, if it is one of the three.
pub open spec fn status_of_tag(tag: Seq<char>) -> Option<ValueStatus> {
    if tag == "Loading"@ {
        Some(ValueStatus::Loading)
    } else if tag == "InUse"@ {
        Some(ValueStatus::InUse)
    } else if tag == "Evicting"@ {
        Some(ValueStatus::Evicting)
    } else {
        None
    }
}

/// Reading back the tag of a status gives that status.
pub proof fn lemma_status_tag_round_trip(status: ValueStatus)
    ensures
        status_of_tag(status_tag(status)) == Some(status),
{
    reveal_strlit("Loading");
    reveal_strlit("InUse");
    reveal_strlit("Evicting");
    assert("Loading"@.len() == 7);
    assert("InUse"@.len() == 5);
    assert("Evicting"@.len() == 8);
}

impl ValueStatus {
    /// The tag under which this status is persisted.
    pub fn tag(&self) -> (text: String)
        ensures
            text@ == status_tag(*self),
    {
        match self {
            ValueStatus::Loading => "Loading".to_owned(),
            ValueStatus::InUse => "InUse".to_owned(),
            ValueStatus::Evicting => "Evicting".to_owned(),
        }
    }

    /// Reads a persisted tag; anything but the three tags is rejected.
    pub fn from_tag(tag: &String) -> (status: Option<ValueStatus>)
        ensures
            status == status_of_tag(tag@),
    {
        if *tag == "Loading".to_owned() {
            Some(ValueStatus::Loading)
        } else if *tag == "InUse".to_owned() {
            Some(ValueStatus::InUse)
        } else if *tag == "Evicting".to_owned() {
            Some(ValueStatus::Evicting)
        } else {
            None
        }
    }
}

/// The contents of a list of strings.
pub open spec fn views_of(items: Seq<String>) -> Seq<Seq<char>> {
    Seq::new(items.len(), |i: int| items[i]@)
}

/// The set of the strings in a list.
pub open spec fn listed(names: Seq<Seq<char>>) -> Set<Seq<char>> {
    Set::new(|name: Seq<char>| names.contains(name))
}

/// The root manifest: the identifiers that have been registered with a cache.
#[derive(Debug)]
pub struct ManifestData {
    items: Vec<String>,
}

impl View for ManifestData {
    type V = Set<Seq<char>>;

    closed spec fn view(&self) -> Set<Seq<char>> {
        listed(self.names())
    }
}

impl ManifestData {
    /// The registered identifiers in the order in which they are stored.
    pub closed spec fn names(&self) -> Seq<Seq<char>> {
        views_of(self.items@)
    }

    #[verifier::type_invariant]
    closed spec fn distinct(&self) -> bool {
        self.names().no_duplicates()
    }

    /// A manifest without identifiers.
    pub fn new() -> (data: Self)
        ensures
            data@ == Set::<Seq<char>>::empty(),
    {
        let data = ManifestData { items: Vec::new() };
        assert(data@ =~= Set::<Seq<char>>::empty());
        data
    }

    /// Whether an identifier has been registered.
    pub fn contains(&self, id: &String) -> (found: bool)
        ensures
            found == self@.contains(id@),
    {
        let mut i: usize = 0;
        while i < self.items.len()
            invariant
                i <= self.items.len(),
                forall|j: int| 0 <= j < i ==> self.names()[j] != id@,
            decreases self.items.len() - i,
        {
            if self.items[i] == *id {
                assert(self.names()[i as int] == id@);
                return true;
            }
            i += 1;
        }
        false
    }

    /// Registers an identifier. Registering one that is present changes
    /// nothing. Returns whether the manifest changed.
    pub fn insert(&mut self, id: String) -> (added: bool)
        ensures
            final(self)@ == old(self)@.insert(id@),
            added == !old(self)@.contains(id@),
    {
        if self.contains(&id) {
            assert(self@ =~= self@.insert(id@));
            false
        } else {
            proof {
                use_type_invariant(&*self);
            }
            let ghost before = self.names();
            let mut items = self.copy_items();
            items.push(id);
            proof {
                let after = views_of(items@);
                assert(after =~= before.push(id@));
                assert(!before.contains(id@));
                assert forall|i: int, j: int|
                    0 <= i < after.len() && 0 <= j < after.len() && i != j implies after[i]
                    != after[j] by {
                    if i < before.len() && j < before.len() {
                        assert(before[i] != before[j]);
                    } else if i < before.len() {
                        assert(before.contains(before[i]));
                    } else {
                        assert(before.contains(before[j]));
                    }
                }
            }
            *self = ManifestData { items };
            proof {
                assert(self.names() =~= before.push(id@));
                assert forall|s: Seq<char>| self.names().contains(s) <==> (before.contains(s) || s
                    == id@) by {
                    if before.contains(s) {
                        let k = choose|k: int| 0 <= k < before.len() && before[k] == s;
                        assert(self.names()[k] == s);
                    }
                    if s == id@ {
                        assert(self.names()[before.len() as int] == s);
                    }
                }
                assert(self@ =~= old(self)@.insert(id@));
            }
            true
        }
    }

    /// Builds a manifest from a list of identifiers; repeated ones count once.
    pub fn from_items(items: Vec<String>) -> (data: Self)
        ensures
            data@ == listed(views_of(items@)),
    {
        let mut data = ManifestData::new();
        let mut i: usize = 0;
        let ghost all = views_of(items@);
        while i < items.len()
            invariant
                i <= items.len(),
                all == views_of(items@),
                data@ == listed(all.take(i as int)),
            decreases items.len() - i,
        {
            data.insert(items[i].clone());
            proof {
                let before = all.take(i as int);
                let after = all.take(i + 1);
                assert(after =~= before.push(all[i as int]));
                assert forall|name: Seq<char>| after.contains(name) <==> (before.contains(name)
                    || name == all[i as int]) by {
                    if before.contains(name) {
                        let k = choose|k: int| 0 <= k < before.len() && before[k] == name;
                        assert(after[k] == name);
                    }
                    if name == all[i as int] {
                        assert(after[i as int] == name);
                    }
                }
                assert(data@ =~= listed(after));
            }
            i += 1;
        }
        assert(all.take(i as int) =~= all);
        data
    }

    /// A copy of the stored list, in its order.
    fn copy_items(&self) -> (items: Vec<String>)
        ensures
            items@.len() == self.names().len(),
            forall|j: int| 0 <= j < items@.len() ==> items@[j]@ == self.names()[j],
    {
        let mut out: Vec<String> = Vec::new();
        let mut i: usize = 0;
        while i < self.items.len()
            invariant
                i <= self.items.len(),
                out@.len() == i,
                forall|j: int| 0 <= j < i ==> out@[j]@ == self.names()[j],
            decreases self.items.len() - i,
        {
            out.push(self.items[i].clone());
            i += 1;
        }
        out
    }

    /// The registered identifiers, each once.
    pub fn items(&self) -> (items: Vec<String>)
        ensures
            listed(views_of(items@)) == self@,
            views_of(items@).no_duplicates(),
    {
        proof {
            use_type_invariant(self);
        }
        let out = self.copy_items();
        assert(views_of(out@) =~= self.names());
        out
    }
}

impl Clone for ManifestData {
    fn clone(&self) -> (copy: Self)
        ensures
            copy@ == self@,
    {
        ManifestData::from_items(self.items())
    }
}

impl Default for ManifestData {
    fn default() -> (data: Self)
        ensures
            data@ == Set::<Seq<char>>::empty(),
    {
        ManifestData::new()
    }
}

/// The position of a key in a list of keys, where it occurs.
pub open spec fn slot_of(keys: Seq<Seq<char>>, key: Seq<char>) -> int {
    choose|i: int| 0 <= i < keys.len() && keys[i] == key
}

/// In a list without repetitions a key is found at the one place where it
/// stands.
pub proof fn lemma_slot_of_unique(keys: Seq<Seq<char>>, i: int)
    requires
        keys.no_duplicates(),
        0 <= i < keys.len(),
    ensures
        slot_of(keys, keys[i]) == i,
{
    let j = slot_of(keys, keys[i]);
    assert(0 <= j < keys.len() && keys[j] == keys[i]);
}

/// The map that a list of entries stands for: a later entry for a key replaces
/// an earlier one.
pub open spec fn entries_map(entries: Seq<(Seq<char>, ValueStatus)>) -> Map<Seq<char>, ValueStatus>
    decreases entries.len(),
{
    if entries.len() == 0 {
        Map::empty()
    } else {
        entries_map(entries.drop_last()).insert(entries.last().0, entries.last().1)
    }
}

/// What the map of a list of entries holds: the keys of the list, each with
/// the status of its last entry.
pub proof fn lemma_entries_map(entries: Seq<(Seq<char>, ValueStatus)>)
    ensures
        forall|key: Seq<char>|
            entries_map(entries).contains_key(key) <==> exists|i: int|
                0 <= i < entries.len() && entries[i].0 == key,
        forall|i: int|
            0 <= i < entries.len() && (forall|j: int|
                i < j < entries.len() ==> entries[j].0 != entries[i].0) ==> #[trigger] entries_map(
                entries,
            )[entries[i].0] == entries[i].1,
    decreases entries.len(),
{
    if entries.len() > 0 {
        let front = entries.drop_last();
        let last = entries.last();
        lemma_entries_map(front);
        assert(entries_map(entries) == entries_map(front).insert(last.0, last.1));
        assert forall|key: Seq<char>| entries_map(entries).contains_key(key) <==> exists|i: int|
            0 <= i < entries.len() && entries[i].0 == key by {
            if entries_map(entries).contains_key(key) {
                if key == last.0 {
                    assert(entries[entries.len() - 1].0 == key);
                } else {
                    assert(entries_map(front).contains_key(key));
                    let i = choose|i: int| 0 <= i < front.len() && front[i].0 == key;
                    assert(entries[i].0 == key);
                }
            }
            if exists|i: int| 0 <= i < entries.len() && entries[i].0 == key {
                let i = choose|i: int| 0 <= i < entries.len() && entries[i].0 == key;
                if i < front.len() {
                    assert(front[i].0 == key);
                    assert(entries_map(front).contains_key(key));
                }
            }
        }
        assert forall|i: int|
            0 <= i < entries.len() && (forall|j: int|
                i < j < entries.len() ==> entries[j].0 != entries[i].0) implies #[trigger] entries_map(
            entries,
        )[entries[i].0] == entries[i].1 by {
            if i < front.len() {
                assert(front[i] == entries[i]);
                assert(entries[entries.len() - 1].0 != entries[i].0);
                assert forall|j: int| i < j < front.len() implies front[j].0 != front[i].0 by {
                    assert(front[j] == entries[j]);
                }
                assert(entries_map(front)[front[i].0] == front[i].1);
            }
        }
    }
}

/// Listing a manifest and building a manifest from the list gives the
/// manifest back: a list that names each key once, with its status, stands
/// for the map it was taken from.
pub proof fn lemma_entries_round_trip(
    values: Map<Seq<char>, ValueStatus>,
    entries: Seq<(Seq<char>, ValueStatus)>,
)
    requires
        forall|i: int|
            0 <= i < entries.len() ==> values.contains_key(#[trigger] entries[i].0)
                && values[entries[i].0] == entries[i].1,
        forall|key: Seq<char>|
            values.contains_key(key) ==> exists|i: int| 0 <= i < entries.len() && entries[i].0 == key,
        forall|i: int, j: int| 0 <= i < j < entries.len() ==> entries[i].0 != entries[j].0,
    ensures
        entries_map(entries) == values,
{
    lemma_entries_map(entries);
    assert forall|key: Seq<char>| #[trigger]
        entries_map(entries).contains_key(key) <==> values.contains_key(key) by {
        if entries_map(entries).contains_key(key) {
            let i = choose|i: int| 0 <= i < entries.len() && entries[i].0 == key;
            assert(values.contains_key(entries[i].0));
        }
    }
    assert forall|key: Seq<char>| entries_map(entries).contains_key(key) implies #[trigger] entries_map(
        entries,
    )[key] == values[key] by {
        let i = choose|i: int| 0 <= i < entries.len() && entries[i].0 == key;
        assert(values.contains_key(entries[i].0));
        assert(entries_map(entries)[entries[i].0] == entries[i].1);
    }
    assert(entries_map(entries) =~= values);
}

/// Listing the identifiers of a manifest and building a manifest from the
/// list gives the manifest back, whatever the order of the list.
pub proof fn lemma_items_round_trip(items: Set<Seq<char>>, names: Seq<Seq<char>>)
    requires
        forall|i: int| 0 <= i < names.len() ==> items.contains(#[trigger] names[i]),
        forall|name: Seq<char>|
            items.contains(name) ==> exists|i: int| 0 <= i < names.len() && names[i] == name,
    ensures
        listed(names) == items,
{
    assert forall|name: Seq<char>| #[trigger] listed(names).contains(name) <==> items.contains(
        name,
    ) by {
        if listed(names).contains(name) {
            let i = choose|i: int| 0 <= i < names.len() && names[i] == name;
            assert(items.contains(names[i]));
        }
        if items.contains(name) {
            let i = choose|i: int| 0 <= i < names.len() && names[i] == name;
            assert(names[i] == name);
        }
    }
    assert(listed(names) =~= items);
}

/// The contents of a list of entries.
pub open spec fn entry_views(entries: Seq<(String, ValueStatus)>) -> Seq<(Seq<char>, ValueStatus)> {
    Seq::new(entries.len(), |i: int| (entries[i].0@, entries[i].1))
}

/// A bucket's manifest: the status of each key, by the key's content address.
#[derive(Debug)]
pub struct ItemManifestData {
    keys: Vec<String>,
    statuses: Vec<ValueStatus>,
}

impl View for ItemManifestData {
    type V = Map<Seq<char>, ValueStatus>;

    closed spec fn view(&self) -> Map<Seq<char>, ValueStatus> {
        Map::new(
            |key: Seq<char>| self.key_names().contains(key),
            |key: Seq<char>| self.statuses@[slot_of(self.key_names(), key)],
        )
    }
}

impl ItemManifestData {
    /// The keys in the order in which they are stored.
    pub closed spec fn key_names(&self) -> Seq<Seq<char>> {
        views_of(self.keys@)
    }

    #[verifier::type_invariant]
    closed spec fn aligned(&self) -> bool {
        &&& self.keys@.len() == self.statuses@.len()
        &&& self.key_names().no_duplicates()
    }

    /// A manifest without entries.
    pub fn new() -> (data: Self)
        ensures
            data@ == Map::<Seq<char>, ValueStatus>::empty(),
    {
        let data = ItemManifestData { keys: Vec::new(), statuses: Vec::new() };
        assert(data@ =~= Map::<Seq<char>, ValueStatus>::empty());
        data
    }

    /// Where a key is stored, if it is present.
    fn position(&self, key: &String) -> (slot: Option<usize>)
        ensures
            match slot {
                Some(i) => i < self.key_names().len() && self.key_names()[i as int] == key@,
                None => !self.key_names().contains(key@),
            },
    {
        let mut i: usize = 0;
        while i < self.keys.len()
            invariant
                i <= self.keys.len(),
                forall|j: int| 0 <= j < i ==> self.key_names()[j] != key@,
            decreases self.keys.len() - i,
        {
            if self.keys[i] == *key {
                return Some(i);
            }
            i += 1;
        }
        None
    }

    /// The status of a key, if the manifest has an entry for it.
    pub fn get(&self, key: &String) -> (status: Option<ValueStatus>)
        ensures
            status == (if self@.contains_key(key@) {
                Some(self@[key@])
            } else {
                None
            }),
    {
        proof {
            use_type_invariant(self);
        }
        match self.position(key) {
            Some(i) => {
                proof {
                    lemma_slot_of_unique(self.key_names(), i as int);
                    assert(self.key_names().contains(key@));
                }
                Some(self.statuses[i])
            },
            None => None,
        }
    }

    /// Records a status for a key, replacing the one it had.
    pub fn set(&mut self, key: String, status: ValueStatus)
        ensures
            final(self)@ == old(self)@.insert(key@, status),
    {
        proof {
            use_type_invariant(&*self);
        }
        let found = self.position(&key);
        let ghost names = self.key_names();
        let ghost marks = self.statuses@;
        let mut keys: Vec<String> = Vec::new();
        let mut statuses: Vec<ValueStatus> = Vec::new();
        let mut i: usize = 0;
        while i < self.keys.len()
            invariant
                i <= self.keys.len(),
                self.keys@.len() == self.statuses@.len(),
                names == self.key_names(),
                marks == self.statuses@,
                keys@.len() == i,
                statuses@.len() == i,
                forall|j: int| 0 <= j < i ==> views_of(keys@)[j] == names[j],
                forall|j: int|
                    0 <= j < i ==> statuses@[j] == (if found == Some(j as usize) {
                        status
                    } else {
                        marks[j]
                    }),
            decreases self.keys.len() - i,
        {
            keys.push(self.keys[i].clone());
            if found == Some(i) {
                statuses.push(status);
            } else {
                statuses.push(self.statuses[i]);
            }
            i += 1;
        }
        if found.is_none() {
            keys.push(key);
            statuses.push(status);
        }
        proof {
            let after = views_of(keys@);
            match found {
                Some(at) => {
                    assert(after =~= names);
                    lemma_slot_of_unique(names, at as int);
                    assert forall|k: Seq<char>| names.contains(k) implies #[trigger] statuses@[slot_of(
                        after,
                        k,
                    )] == old(self)@.insert(key@, status)[k] by {
                        let slot = slot_of(names, k);
                        assert(0 <= slot < names.len() && names[slot] == k);
                    }
                },
                None => {
                    assert(after =~= names.push(key@));
                    assert forall|a: int, b: int|
                        0 <= a < after.len() && 0 <= b < after.len() && a != b implies after[a]
                        != after[b] by {
                        if a < names.len() && b < names.len() {
                            assert(names[a] != names[b]);
                        } else if a < names.len() {
                            assert(names.contains(names[a]));
                        } else {
                            assert(names.contains(names[b]));
                        }
                    }
                    assert forall|k: Seq<char>| after.contains(k) implies #[trigger] statuses@[slot_of(
                        after,
                        k,
                    )] == old(self)@.insert(key@, status)[k] by {
                        let slot = slot_of(after, k);
                        assert(0 <= slot < after.len() && after[slot] == k);
                        if k != key@ {
                            assert(slot < names.len());
                            lemma_slot_of_unique(names, slot);
                        }
                    }
                    assert forall|k: Seq<char>| after.contains(k) <==> (names.contains(k) || k
                        == key@) by {
                        if names.contains(k) {
                            let slot = slot_of(names, k);
                            assert(0 <= slot < names.len() && names[slot] == k);
                            assert(after[slot] == k);
                        }
                        if k == key@ {
                            assert(after[names.len() as int] == k);
                        }
                    }
                },
            }
        }
        let ghost target = old(self)@.insert(key@, status);
        *self = ItemManifestData { keys, statuses };
        assert(self@ =~= target);
    }

    /// Builds a manifest from a list of entries; where a key occurs more than
    /// once, its last entry counts.
    pub fn from_entries(entries: Vec<(String, ValueStatus)>) -> (data: Self)
        ensures
            data@ == entries_map(entry_views(entries@)),
    {
        let mut data = ItemManifestData::new();
        let mut i: usize = 0;
        let ghost all = entry_views(entries@);
        while i < entries.len()
            invariant
                i <= entries.len(),
                all == entry_views(entries@),
                data@ == entries_map(all.take(i as int)),
            decreases entries.len() - i,
        {
            proof {
                assert(all.take(i + 1).drop_last() =~= all.take(i as int));
                assert(all.take(i + 1).last() == all[i as int]);
            }
            data.set(entries[i].0.clone(), entries[i].1);
            i += 1;
        }
        assert(all.take(i as int) =~= all);
        data
    }

    /// The entries of the manifest, one for each key.
    pub fn entries(&self) -> (entries: Vec<(String, ValueStatus)>)
        ensures
            entries_map(entry_views(entries@)) == self@,
            forall|i: int, j: int|
                0 <= i < j < entries@.len() ==> entries@[i].0@ != entries@[j].0@,
    {
        proof {
            use_type_invariant(self);
        }
        let mut out: Vec<(String, ValueStatus)> = Vec::new();
        let mut i: usize = 0;
        while i < self.keys.len()
            invariant
                i <= self.keys.len(),
                self.keys@.len() == self.statuses@.len(),
                out@.len() == i,
                forall|j: int|
                    0 <= j < i ==> out@[j].0@ == self.key_names()[j] && out@[j].1
                        == self.statuses@[j],
            decreases self.keys.len() - i,
        {
            out.push((self.keys[i].clone(), self.statuses[i]));
            i += 1;
        }
        proof {
            let names = self.key_names();
            let pairs = entry_views(out@);
            assert forall|i: int| 0 <= i < pairs.len() implies self@.contains_key(
                #[trigger] pairs[i].0,
            ) && self@[pairs[i].0] == pairs[i].1 by {
                assert(names[i] == pairs[i].0);
                lemma_slot_of_unique(names, i);
            }
            assert forall|key: Seq<char>| self@.contains_key(key) implies exists|i: int|
                0 <= i < pairs.len() && pairs[i].0 == key by {
                let slot = slot_of(names, key);
                assert(0 <= slot < names.len() && names[slot] == key);
                assert(pairs[slot].0 == key);
            }
            assert forall|i: int, j: int| 0 <= i < j < pairs.len() implies pairs[i].0
                != pairs[j].0 by {
                assert(names[i] != names[j]);
            }
            lemma_entries_round_trip(self@, pairs);
            assert forall|i: int, j: int| 0 <= i < j < out@.len() implies out@[i].0@
                != out@[j].0@ by {
                assert(pairs[i].0 != pairs[j].0);
            }
        }
        out
    }
}

impl Clone for ItemManifestData {
    fn clone(&self) -> (copy: Self)
        ensures
            copy@ == self@,
    {
        ItemManifestData::from_entries(self.entries())
    }
}

impl Default for ItemManifestData {
    fn default() -> (data: Self)
        ensures
            data@ == Map::<Seq<char>, ValueStatus>::empty(),
    {
        ItemManifestData::new()
    }
}

} // verus!
