//! What a request does to the files of a cache.
//!
//! The files are modelled as a map from paths to decoded content, and the
//! caller as one process that carries out each action at once and without
//! fault. Over that model the laws of the cache are stated and proved: a
//! request always ends, registers its identifier, generates a value exactly
//! when none can be trusted, and leaves every other key alone.
use crate::disk::{
    claimed, pending, request_step, resource_path, Action, EventModel, Generate, Outcome, Phase,
    RequestModel, Resource,
};
use crate::layout::{join, lemma_join_injective, prefix_of};
use crate::manifest::ValueStatus;
use vstd::prelude::*;

verus! {

/// The decoded content of a file.
pub enum Content {
    /// A root manifest.
    Manifest(Set<Seq<char>>),
    /// An item manifest.
    Item(Map<Seq<char>, ValueStatus>),
    /// An encoded value.
    Value(Seq<u8>),
}

/// The files of a cache, by path. A path without an entry is a file that is
/// absent, empty or unreadable.
pub type Disk = Map<Seq<char>, Content>;

/// The root manifest at a path, if one can be read there.
pub open spec fn read_manifest(disk: Disk, path: Seq<char>) -> Option<Set<Seq<char>>> {
    if disk.contains_key(path) {
        match disk[path] {
            Content::Manifest(items) => Some(items),
            _ => None,
        }
    } else {
        None
    }
}

/// The item manifest at a path, if one can be read there.
pub open spec fn read_item(disk: Disk, path: Seq<char>) -> Option<Map<Seq<char>, ValueStatus>> {
    if disk.contains_key(path) {
        match disk[path] {
            Content::Item(values) => Some(values),
            _ => None,
        }
    } else {
        None
    }
}

/// The value at a path, if one can be read there.
pub open spec fn read_value(disk: Disk, path: Seq<char>) -> Option<Seq<u8>> {
    if disk.contains_key(path) {
        match disk[path] {
            Content::Value(bytes) => Some(bytes),
            _ => None,
        }
    } else {
        None
    }
}

/// What a request holds for a file when it asks for the file to be written.
pub open spec fn written(state: RequestModel, resource: Resource) -> Content {
    match resource {
        Resource::Manifest => Content::Manifest(state.manifest),
        Resource::ItemManifest => Content::Item(state.item),
        Resource::Value => Content::Value(state.value),
    }
}

/// The files after the pending action of a request is carried out, and the
/// event that reports it. `generator` is the encoded output of the
/// generator, or `None` if it reports an error.
pub open spec fn respond(disk: Disk, state: RequestModel, generator: Option<Seq<u8>>) -> (
    Disk,
    EventModel,
) {
    match pending(state.phase) {
        Action::Read(Resource::Manifest) => (
            disk,
            EventModel::Manifest(read_manifest(disk, resource_path(state, Resource::Manifest))),
        ),
        Action::Read(Resource::ItemManifest) => (
            disk,
            EventModel::ItemManifest(read_item(disk, resource_path(state, Resource::ItemManifest))),
        ),
        Action::Read(Resource::Value) => (
            disk,
            EventModel::Value(read_value(disk, resource_path(state, Resource::Value))),
        ),
        Action::Write(resource) => (
            disk.insert(resource_path(state, resource), written(state, resource)),
            EventModel::Done,
        ),
        Action::Generate => (disk, EventModel::Generated(generator)),
        _ => (disk, EventModel::Done),
    }
}

/// The files and the request after `steps` actions.
pub open spec fn run(disk: Disk, state: RequestModel, generator: Option<Seq<u8>>, steps: nat) -> (
    Disk,
    RequestModel,
)
    decreases steps,
{
    if steps == 0 {
        (disk, state)
    } else {
        let (next_disk, event) = respond(disk, state, generator);
        run(next_disk, request_step(state, event), generator, (steps - 1) as nat)
    }
}

/// The files and the request after a whole request: no request takes more
/// than sixteen actions, and one that has ended stays as it is.
pub open spec fn complete(disk: Disk, state: RequestModel, generator: Option<Seq<u8>>) -> (
    Disk,
    RequestModel,
) {
    run(disk, state, generator, 16)
}

/// The status of the request's key in the item manifest on disk.
pub open spec fn status_on_disk(disk: Disk, state: RequestModel) -> Option<ValueStatus> {
    match read_item(disk, resource_path(state, Resource::ItemManifest)) {
        Some(values) => if values.contains_key(state.key) {
            Some(values[state.key])
        } else {
            None
        },
        None => None,
    }
}

/// The value of the request's key on disk.
pub open spec fn value_on_disk(disk: Disk, state: RequestModel) -> Option<Seq<u8>> {
    read_value(disk, resource_path(state, Resource::Value))
}

/// Whether a request that starts on these files has to generate: the key has
/// no entry, or its entry is being evicted.
pub open spec fn must_generate(disk: Disk, state: RequestModel) -> bool {
    status_on_disk(disk, state) is None || status_on_disk(disk, state) == Some(
        ValueStatus::Evicting,
    )
}

/// Whether two sets of files agree at a path.
pub open spec fn same_at(one: Disk, other: Disk, path: Seq<char>) -> bool {
    &&& one.contains_key(path) <==> other.contains_key(path)
    &&& one.contains_key(path) ==> one[path] == other[path]
}

/// The three files of a request have three different paths.
pub proof fn lemma_paths_apart(state: RequestModel)
    requires
        state.well_formed(),
    ensures
        resource_path(state, Resource::Manifest) != resource_path(state, Resource::ItemManifest),
        resource_path(state, Resource::Manifest) != resource_path(state, Resource::Value),
        resource_path(state, Resource::ItemManifest) != resource_path(state, Resource::Value),
{
    reveal_strlit("Cache.toml");
    reveal_strlit("CacheItem.toml");
    let p = prefix_of(state.root);
    let bucket = join(state.root, state.bucket);
    assert(bucket.len() == p.len() + 64);
    assert(bucket.last() == state.bucket[63]);
    assert(prefix_of(bucket).len() == p.len() + 65);
    assert(resource_path(state, Resource::Manifest).len() == p.len() + 10);
    assert(resource_path(state, Resource::ItemManifest).len() == p.len() + 79);
    assert(resource_path(state, Resource::Value).len() == p.len() + 129);
}

/// A request that has ended or was given up stays as it is, and so do the
/// files.
pub proof fn lemma_ended_stays(
    disk: Disk,
    state: RequestModel,
    generator: Option<Seq<u8>>,
    steps: nat,
)
    requires
        state.phase is Finished || state.phase is Aborted,
    ensures
        run(disk, state, generator, steps) == (disk, state),
    decreases steps,
{
    if steps > 0 {
        lemma_ended_stays(disk, state, generator, (steps - 1) as nat);
    }
}

/// The end of a request that reads: from the release of the item manifest.
spec fn finish_read(disk: Disk, state: RequestModel) -> (Disk, RequestModel) {
    match value_on_disk(disk, state) {
        Some(bytes) => (
            disk,
            RequestModel { phase: Phase::Finished(Outcome::Cached), value: bytes, ..state },
        ),
        None => (disk, RequestModel { phase: Phase::Finished(Outcome::Unavailable), ..state }),
    }
}

/// The end of a request that generates: from the writing of the claim.
spec fn finish_generate(disk: Disk, state: RequestModel, generator: Option<Seq<u8>>) -> (
    Disk,
    RequestModel,
) {
    let item = resource_path(state, Resource::ItemManifest);
    let value = resource_path(state, Resource::Value);
    let claimed_disk = disk.insert(item, Content::Item(state.item));
    match generator {
        Some(bytes) => {
            let values = state.item.insert(state.key, ValueStatus::InUse);
            (
                claimed_disk.insert(value, Content::Value(bytes)).insert(
                    item,
                    Content::Item(values),
                ),
                RequestModel {
                    phase: Phase::Finished(Outcome::Generated),
                    item: values,
                    value: bytes,
                    ..state
                },
            )
        },
        None => {
            let values = state.item.insert(state.key, ValueStatus::Evicting);
            (
                claimed_disk.insert(item, Content::Item(values)),
                RequestModel {
                    phase: Phase::Finished(Outcome::GeneratorFailed),
                    item: values,
                    ..state
                },
            )
        },
    }
}

/// The end of a request from the locking of the item manifest.
spec fn finish_item(disk: Disk, state: RequestModel, generator: Option<Seq<u8>>) -> (
    Disk,
    RequestModel,
) {
    let found = read_item(disk, resource_path(state, Resource::ItemManifest));
    let (values, generate) = claimed(
        match found {
            Some(values) => values,
            None => Map::empty(),
        },
        state.key,
    );
    if generate == Generate::Yes {
        finish_generate(
            disk,
            RequestModel { phase: Phase::WriteClaim, item: values, ..state },
            generator,
        )
    } else {
        finish_read(disk, RequestModel { phase: Phase::ReleaseLookup, item: values, ..state })
    }
}

/// The end of a request from its beginning.
spec fn finish_request(disk: Disk, state: RequestModel, generator: Option<Seq<u8>>) -> (
    Disk,
    RequestModel,
) {
    let path = resource_path(state, Resource::Manifest);
    let items = match read_manifest(disk, path) {
        Some(items) => items.insert(state.id),
        None => Set::<Seq<char>>::empty().insert(state.id),
    };
    let changed = match read_manifest(disk, path) {
        Some(items) => !items.contains(state.id),
        None => true,
    };
    let registered_disk = if changed {
        disk.insert(path, Content::Manifest(items))
    } else {
        disk
    };
    finish_item(
        registered_disk,
        RequestModel { phase: Phase::LockItem, manifest: items, ..state },
        generator,
    )
}

/// One action: what `run` does first.
proof fn lemma_step(disk: Disk, state: RequestModel, generator: Option<Seq<u8>>, steps: nat)
    requires
        steps > 0,
    ensures
        run(disk, state, generator, steps) == run(
            respond(disk, state, generator).0,
            request_step(state, respond(disk, state, generator).1),
            generator,
            (steps - 1) as nat,
        ),
{
}

proof fn lemma_run_read(disk: Disk, state: RequestModel, generator: Option<Seq<u8>>, steps: nat)
    requires
        state.phase == Phase::ReleaseLookup,
        steps >= 4,
    ensures
        run(disk, state, generator, steps) == finish_read(disk, state),
{
    let s1 = RequestModel { phase: Phase::LockValueShared, ..state };
    let s2 = RequestModel { phase: Phase::ReadValue, ..state };
    let s3 = match value_on_disk(disk, state) {
        Some(bytes) => RequestModel {
            phase: Phase::ReleaseRead(Outcome::Cached),
            value: bytes,
            ..state
        },
        None => RequestModel { phase: Phase::ReleaseRead(Outcome::Unavailable), ..state },
    };
    let (end_disk, end) = finish_read(disk, state);
    lemma_step(disk, state, generator, steps);
    assert(request_step(state, respond(disk, state, generator).1) == s1);
    lemma_step(disk, s1, generator, (steps - 1) as nat);
    assert(request_step(s1, respond(disk, s1, generator).1) == s2);
    lemma_step(disk, s2, generator, (steps - 2) as nat);
    assert(request_step(s2, respond(disk, s2, generator).1) == s3);
    lemma_step(disk, s3, generator, (steps - 3) as nat);
    assert(request_step(s3, respond(disk, s3, generator).1) == end);
    lemma_ended_stays(end_disk, end, generator, (steps - 4) as nat);
}

proof fn lemma_run_settle(
    disk: Disk,
    state: RequestModel,
    generator: Option<Seq<u8>>,
    outcome: Outcome,
    steps: nat,
)
    requires
        state.well_formed(),
        state.phase == Phase::RelockItem(outcome),
        read_item(disk, resource_path(state, Resource::ItemManifest)) == Some(state.item),
        steps >= 5,
    ensures
        run(disk, state, generator, steps) == ({
            let values = state.item.insert(
                state.key,
                if outcome == Outcome::Generated {
                    ValueStatus::InUse
                } else {
                    ValueStatus::Evicting
                },
            );
            (
                disk.insert(resource_path(state, Resource::ItemManifest), Content::Item(values)),
                RequestModel { phase: Phase::Finished(outcome), item: values, ..state },
            )
        }),
{
    let values = state.item.insert(
        state.key,
        if outcome == Outcome::Generated {
            ValueStatus::InUse
        } else {
            ValueStatus::Evicting
        },
    );
    let item = resource_path(state, Resource::ItemManifest);
    let end_disk = disk.insert(item, Content::Item(values));
    let s1 = RequestModel { phase: Phase::RereadItem(outcome), ..state };
    let s2 = RequestModel { phase: Phase::WriteStatus(outcome), item: values, ..state };
    let s3 = RequestModel { phase: Phase::ReleaseStatus(outcome), item: values, ..state };
    let s4 = RequestModel { phase: Phase::ReleaseValue(outcome), item: values, ..state };
    let end = RequestModel { phase: Phase::Finished(outcome), item: values, ..state };
    lemma_step(disk, state, generator, steps);
    assert(request_step(state, respond(disk, state, generator).1) == s1);
    lemma_step(disk, s1, generator, (steps - 1) as nat);
    assert(respond(disk, s1, generator).1 == EventModel::ItemManifest(Some(state.item)));
    assert(request_step(s1, respond(disk, s1, generator).1) == s2);
    lemma_step(disk, s2, generator, (steps - 2) as nat);
    assert(respond(disk, s2, generator).0 == end_disk);
    assert(request_step(s2, respond(disk, s2, generator).1) == s3);
    lemma_step(end_disk, s3, generator, (steps - 3) as nat);
    assert(request_step(s3, respond(end_disk, s3, generator).1) == s4);
    lemma_step(end_disk, s4, generator, (steps - 4) as nat);
    assert(request_step(s4, respond(end_disk, s4, generator).1) == end);
    lemma_ended_stays(end_disk, end, generator, (steps - 5) as nat);
}

proof fn lemma_run_generate(
    disk: Disk,
    state: RequestModel,
    generator: Option<Seq<u8>>,
    steps: nat,
)
    requires
        state.well_formed(),
        state.phase == Phase::WriteClaim,
        steps >= 10,
    ensures
        run(disk, state, generator, steps) == finish_generate(disk, state, generator),
{
    lemma_paths_apart(state);
    let item = resource_path(state, Resource::ItemManifest);
    let value = resource_path(state, Resource::Value);
    let claimed_disk = disk.insert(item, Content::Item(state.item));
    let s1 = RequestModel { phase: Phase::LockValue, ..state };
    let s2 = RequestModel { phase: Phase::ReleaseClaim, ..state };
    let s3 = RequestModel { phase: Phase::Generate, ..state };
    lemma_step(disk, state, generator, steps);
    assert(respond(disk, state, generator).0 == claimed_disk);
    assert(request_step(state, respond(disk, state, generator).1) == s1);
    lemma_step(claimed_disk, s1, generator, (steps - 1) as nat);
    assert(request_step(s1, respond(claimed_disk, s1, generator).1) == s2);
    lemma_step(claimed_disk, s2, generator, (steps - 2) as nat);
    assert(request_step(s2, respond(claimed_disk, s2, generator).1) == s3);
    lemma_step(claimed_disk, s3, generator, (steps - 3) as nat);
    match generator {
        Some(bytes) => {
            let stored = claimed_disk.insert(value, Content::Value(bytes));
            let s4 = RequestModel { phase: Phase::WriteValue, value: bytes, ..state };
            let s5 = RequestModel {
                phase: Phase::RelockItem(Outcome::Generated),
                value: bytes,
                ..state
            };
            assert(request_step(s3, respond(claimed_disk, s3, generator).1) == s4);
            lemma_step(claimed_disk, s4, generator, (steps - 4) as nat);
            assert(respond(claimed_disk, s4, generator).0 == stored);
            assert(request_step(s4, respond(claimed_disk, s4, generator).1) == s5);
            assert(read_item(stored, item) == Some(state.item));
            lemma_run_settle(stored, s5, generator, Outcome::Generated, (steps - 5) as nat);
        },
        None => {
            let s4 = RequestModel { phase: Phase::RelockItem(Outcome::GeneratorFailed), ..state };
            assert(request_step(s3, respond(claimed_disk, s3, generator).1) == s4);
            assert(read_item(claimed_disk, item) == Some(state.item));
            lemma_run_settle(
                claimed_disk,
                s4,
                generator,
                Outcome::GeneratorFailed,
                (steps - 4) as nat,
            );
        },
    }
}

proof fn lemma_run_item(disk: Disk, state: RequestModel, generator: Option<Seq<u8>>, steps: nat)
    requires
        state.well_formed(),
        state.phase == Phase::LockItem,
        steps >= 12,
    ensures
        run(disk, state, generator, steps) == finish_item(disk, state, generator),
{
    let found = read_item(disk, resource_path(state, Resource::ItemManifest));
    let (values, generate) = claimed(
        match found {
            Some(values) => values,
            None => Map::empty(),
        },
        state.key,
    );
    let s1 = RequestModel { phase: Phase::ReadItem, ..state };
    lemma_step(disk, state, generator, steps);
    assert(request_step(state, respond(disk, state, generator).1) == s1);
    lemma_step(disk, s1, generator, (steps - 1) as nat);
    assert(respond(disk, s1, generator).1 == EventModel::ItemManifest(found));
    if generate == Generate::Yes {
        let next = RequestModel { phase: Phase::WriteClaim, item: values, ..state };
        assert(request_step(s1, respond(disk, s1, generator).1) == next);
        lemma_run_generate(disk, next, generator, (steps - 2) as nat);
    } else {
        let next = RequestModel { phase: Phase::ReleaseLookup, item: values, ..state };
        assert(request_step(s1, respond(disk, s1, generator).1) == next);
        lemma_run_read(disk, next, generator, (steps - 2) as nat);
    }
}

proof fn lemma_run_request(
    disk: Disk,
    state: RequestModel,
    generator: Option<Seq<u8>>,
    steps: nat,
)
    requires
        state.well_formed(),
        state.phase == Phase::LockManifest,
        steps >= 16,
    ensures
        run(disk, state, generator, steps) == finish_request(disk, state, generator),
{
    let path = resource_path(state, Resource::Manifest);
    let items = match read_manifest(disk, path) {
        Some(items) => items.insert(state.id),
        None => Set::<Seq<char>>::empty().insert(state.id),
    };
    let changed = match read_manifest(disk, path) {
        Some(items) => !items.contains(state.id),
        None => true,
    };
    let s1 = RequestModel { phase: Phase::ReadManifest, ..state };
    let next = RequestModel { phase: Phase::LockItem, manifest: items, ..state };
    lemma_step(disk, state, generator, steps);
    assert(request_step(state, respond(disk, state, generator).1) == s1);
    lemma_step(disk, s1, generator, (steps - 1) as nat);
    assert(respond(disk, s1, generator).1 == EventModel::Manifest(read_manifest(disk, path)));
    if changed {
        let registered_disk = disk.insert(path, Content::Manifest(items));
        let s2 = RequestModel { phase: Phase::WriteManifest, manifest: items, ..state };
        let s3 = RequestModel { phase: Phase::ReleaseManifest, manifest: items, ..state };
        assert(request_step(s1, respond(disk, s1, generator).1) == s2);
        lemma_step(disk, s2, generator, (steps - 2) as nat);
        assert(respond(disk, s2, generator).0 == registered_disk);
        assert(request_step(s2, respond(disk, s2, generator).1) == s3);
        lemma_step(registered_disk, s3, generator, (steps - 3) as nat);
        assert(request_step(s3, respond(registered_disk, s3, generator).1) == next);
        lemma_run_item(registered_disk, next, generator, (steps - 4) as nat);
    } else {
        let s2 = RequestModel { phase: Phase::ReleaseManifest, manifest: items, ..state };
        assert(request_step(s1, respond(disk, s1, generator).1) == s2);
        lemma_step(disk, s2, generator, (steps - 2) as nat);
        assert(request_step(s2, respond(disk, s2, generator).1) == next);
        lemma_run_item(disk, next, generator, (steps - 3) as nat);
    }
}

/// A request that starts alone on any files ends without a fault, even where
/// a manifest is unreadable. Afterwards the identifier is registered. Where
/// the key had no entry or was being evicted, the generator has run: its
/// output is stored and the key is in use, or, after a generator error, the
/// key is given up for eviction. Where the key was loading or in use, nothing
/// but the registration is written, and the stored value is handed out.
pub proof fn lemma_request_outcome(disk: Disk, state: RequestModel, generator: Option<Seq<u8>>)
    requires
        state.well_formed(),
        state.phase == Phase::LockManifest,
    ensures
        ({
            let (after, end) = complete(disk, state, generator);
            let manifest = resource_path(state, Resource::Manifest);
            let item = resource_path(state, Resource::ItemManifest);
            let value = resource_path(state, Resource::Value);
            &&& end.phase is Finished
            &&& end.root == state.root && end.id == state.id && end.bucket == state.bucket
                && end.key == state.key
            &&& read_manifest(after, manifest) is Some
            &&& read_manifest(after, manifest)->0 == (match read_manifest(disk, manifest) {
                Some(items) => items.insert(state.id),
                None => Set::<Seq<char>>::empty().insert(state.id),
            })
            &&& forall|path: Seq<char>|
                path != manifest && path != item && path != value ==> #[trigger] same_at(
                    after,
                    disk,
                    path,
                )
            &&& must_generate(disk, state) ==> {
                &&& read_item(after, item) is Some
                &&& forall|key: Seq<char>|
                    key != state.key ==> (read_item(after, item)->0.contains_key(key) <==> (
                    read_item(disk, item) is Some && read_item(disk, item)->0.contains_key(key)))
                        && (read_item(after, item)->0.contains_key(key) ==> read_item(
                        after,
                        item,
                    )->0[key] == read_item(disk, item)->0[key])
                &&& match generator {
                    Some(bytes) => {
                        &&& end.phase == Phase::Finished(Outcome::Generated)
                        &&& end.value == bytes
                        &&& value_on_disk(after, state) == Some(bytes)
                        &&& status_on_disk(after, state) == Some(ValueStatus::InUse)
                    },
                    None => {
                        &&& end.phase == Phase::Finished(Outcome::GeneratorFailed)
                        &&& status_on_disk(after, state) == Some(ValueStatus::Evicting)
                        &&& same_at(after, disk, value)
                    },
                }
            }
            &&& !must_generate(disk, state) ==> {
                &&& same_at(after, disk, item)
                &&& same_at(after, disk, value)
                &&& match value_on_disk(disk, state) {
                    Some(bytes) => end.phase == Phase::Finished(Outcome::Cached) && end.value
                        == bytes,
                    None => end.phase == Phase::Finished(Outcome::Unavailable),
                }
            }
        }),
{
    lemma_paths_apart(state);
    lemma_run_request(disk, state, generator, 16);
}

/// Asking again changes nothing and does not run the generator again: after
/// a request whose generator succeeds, a second request for the same key
/// leaves the files as they are, reads, and ends with the value that the
/// first one ended with.
pub proof fn lemma_request_repeats(
    disk: Disk,
    state: RequestModel,
    bytes: Seq<u8>,
    again: Option<Seq<u8>>,
)
    requires
        state.well_formed(),
        state.phase == Phase::LockManifest,
    ensures
        ({
            let (first_disk, first) = complete(disk, state, Some(bytes));
            let (second_disk, second) = complete(first_disk, state, again);
            &&& second_disk == first_disk
            &&& first.phase == Phase::Finished(Outcome::Generated) ==> first.value == bytes
            &&& first.phase == Phase::Finished(Outcome::Unavailable) ==> second.phase
                == Phase::Finished(Outcome::Unavailable)
            &&& first.phase != Phase::Finished(Outcome::Unavailable) ==> second.phase
                == Phase::Finished(Outcome::Cached) && second.value == first.value
        }),
{
    let (first_disk, first) = complete(disk, state, Some(bytes));
    let (second_disk, second) = complete(first_disk, state, again);
    let manifest = resource_path(state, Resource::Manifest);
    lemma_paths_apart(state);
    lemma_request_outcome(disk, state, Some(bytes));
    lemma_request_outcome(first_disk, state, again);
    assert(!must_generate(first_disk, state));
    let items = read_manifest(first_disk, manifest)->0;
    assert(items.insert(state.id) =~= items);
    assert(second_disk[manifest] == first_disk[manifest]);
    let item = resource_path(state, Resource::ItemManifest);
    let value = resource_path(state, Resource::Value);
    assert forall|path: Seq<char>| same_at(second_disk, first_disk, path) by {
        if path != manifest && path != item && path != value {
            assert(same_at(second_disk, first_disk, path));
        }
    }
    assert forall|path: Seq<char>| #[trigger]
        second_disk.contains_key(path) <==> first_disk.contains_key(path) by {
        assert(same_at(second_disk, first_disk, path));
    }
    assert forall|path: Seq<char>| second_disk.contains_key(path) implies #[trigger] second_disk[path]
        == first_disk[path] by {
        assert(same_at(second_disk, first_disk, path));
    }
    assert(second_disk =~= first_disk);
}

/// A manifest that cannot be read does not fail a request: the request ends
/// without a fault and leaves both manifests readable, with the identifier
/// registered and the key entered.
pub proof fn lemma_unreadable_manifests_recover(
    disk: Disk,
    state: RequestModel,
    generator: Option<Seq<u8>>,
)
    requires
        state.well_formed(),
        state.phase == Phase::LockManifest,
    ensures
        ({
            let (after, end) = complete(disk, state, generator);
            let manifest = resource_path(state, Resource::Manifest);
            let item = resource_path(state, Resource::ItemManifest);
            &&& end.phase is Finished
            &&& read_manifest(after, manifest) is Some
            &&& read_manifest(after, manifest)->0.contains(state.id)
            &&& read_manifest(disk, manifest) is None ==> read_manifest(after, manifest) == Some(
                Set::<Seq<char>>::empty().insert(state.id),
            )
            &&& status_on_disk(after, state) is Some
            &&& read_item(disk, item) is None ==> must_generate(disk, state)
        }),
{
    lemma_request_outcome(disk, state, generator);
}

/// An entry that is being evicted is generated anew: the generator runs, its
/// output replaces what the value file held, and the entry is in use.
pub proof fn lemma_evicting_is_regenerated(disk: Disk, state: RequestModel, bytes: Seq<u8>)
    requires
        state.well_formed(),
        state.phase == Phase::LockManifest,
        status_on_disk(disk, state) == Some(ValueStatus::Evicting),
    ensures
        ({
            let (after, end) = complete(disk, state, Some(bytes));
            &&& end.phase == Phase::Finished(Outcome::Generated)
            &&& end.value == bytes
            &&& value_on_disk(after, state) == Some(bytes)
            &&& status_on_disk(after, state) == Some(ValueStatus::InUse)
        }),
{
    lemma_request_outcome(disk, state, Some(bytes));
}

/// A request for one key leaves every other key of the bucket alone: neither
/// the other key's value file nor its status changes.
pub proof fn lemma_keys_do_not_mix(
    disk: Disk,
    one: RequestModel,
    other: RequestModel,
    generator: Option<Seq<u8>>,
)
    requires
        one.well_formed(),
        other.well_formed(),
        one.phase == Phase::LockManifest,
        one.root == other.root,
        one.bucket == other.bucket,
        one.key != other.key,
    ensures
        ({
            let (after, end) = complete(disk, one, generator);
            &&& value_on_disk(after, other) == value_on_disk(disk, other)
            &&& status_on_disk(after, other) == status_on_disk(disk, other)
        }),
{
    lemma_paths_apart(one);
    lemma_paths_apart(other);
    lemma_request_outcome(disk, one, generator);
    let path = resource_path(other, Resource::Value);
    if path == resource_path(one, Resource::Value) {
        lemma_join_injective(join(one.root, one.bucket), one.key, other.key);
    }
    assert(same_at(complete(disk, one, generator).0, disk, path));
    assert(resource_path(other, Resource::ItemManifest) == resource_path(
        one,
        Resource::ItemManifest,
    ));
    assert(resource_path(other, Resource::Manifest) == resource_path(one, Resource::Manifest));
}

/// No request hands out one key's value for another: after two keys of one
/// bucket were generated, a request for either reads its own value.
pub proof fn lemma_each_key_its_own_value(
    disk: Disk,
    one: RequestModel,
    other: RequestModel,
    first: Seq<u8>,
    second: Seq<u8>,
    again: Option<Seq<u8>>,
)
    requires
        one.well_formed(),
        other.well_formed(),
        one.phase == Phase::LockManifest,
        other.phase == Phase::LockManifest,
        one.root == other.root,
        one.bucket == other.bucket,
        one.key != other.key,
        must_generate(disk, one),
        must_generate(disk, other),
    ensures
        ({
            let stored = complete(complete(disk, one, Some(first)).0, other, Some(second)).0;
            &&& complete(stored, one, again).1.phase == Phase::Finished(Outcome::Cached)
            &&& complete(stored, one, again).1.value == first
            &&& complete(stored, other, again).1.phase == Phase::Finished(Outcome::Cached)
            &&& complete(stored, other, again).1.value == second
        }),
{
    let half = complete(disk, one, Some(first)).0;
    let stored = complete(half, other, Some(second)).0;
    lemma_request_outcome(disk, one, Some(first));
    lemma_keys_do_not_mix(disk, one, other, Some(first));
    lemma_request_outcome(half, other, Some(second));
    lemma_keys_do_not_mix(half, other, one, Some(second));
    lemma_request_outcome(stored, one, again);
    lemma_request_outcome(stored, other, again);
}

} // verus!
