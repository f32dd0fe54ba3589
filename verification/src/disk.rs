//! Disk caching: the protocol of a request.
//!
//! A request for the value of a key under an identifier registers the
//! identifier in the root manifest, looks the key up in the bucket's item
//! manifest, and then either generates the value or reads the one that is
//! there. Every file is touched only while its lock is held.
//!
//! A [`Request`] decides; the caller acts. It carries out the pending
//! [`Action`] on the file that [`Request::path`] names and reports the
//! result as an [`Event`] to [`Request::advance`], which gives the next
//! action.
use crate::digest::{
    address_of, content_address, flexbuffer_of_string, identifier_address, is_address,
};
use crate::error::Error;
use crate::layout::{
    item_manifest_path, join_path, manifest_path, value_path, ITEM_MANIFEST_NAME, MANIFEST_NAME,
};
use crate::lockfile::{read_or_initialize, Format, Loaded, LockKind};
use crate::manifest::{ItemManifestData, ManifestData, ValueStatus};
use vstd::prelude::*;

verus! {

/// The three files that a request touches.
#[derive(Clone, Copy, Debug, PartialEq, Eq, Structural)]
pub enum Resource {
    /// The root manifest of the cache.
    Manifest,
    /// The item manifest of the identifier's bucket.
    ItemManifest,
    /// The value file of the key.
    Value,
}

/// Whether the caller has to generate the value.
#[derive(Clone, Copy, Debug, PartialEq, Eq, Structural)]
pub enum Generate {
    /// The caller owns the entry and generates its value.
    Yes,
    /// The value is there, or another caller is generating it.
    No,
}

/// How a request ended.
#[derive(Clone, Copy, Debug, PartialEq, Eq, Structural)]
pub enum Outcome {
    /// The generator ran and its output was stored.
    Generated,
    /// The generator ran and reported an error; nothing was stored.
    GeneratorFailed,
    /// A stored value was read.
    Cached,
    /// The entry is marked as present, but its value could not be read.
    Unavailable,
}

/// The step of a request that is under way.
#[derive(Clone, Copy, Debug, PartialEq, Eq, Structural)]
pub enum Phase {
    /// Taking the exclusive lock of the root manifest.
    LockManifest,
    /// Reading the root manifest.
    ReadManifest,
    /// Writing the root manifest with the identifier in it.
    WriteManifest,
    /// Releasing the root manifest.
    ReleaseManifest,
    /// Taking the exclusive lock of the item manifest.
    LockItem,
    /// Reading the item manifest.
    ReadItem,
    /// Writing the item manifest with the key marked as loading.
    WriteClaim,
    /// Taking the exclusive lock of the value file.
    LockValue,
    /// Releasing the item manifest before the generator runs.
    ReleaseClaim,
    /// Running the generator.
    Generate,
    /// Writing the generator's output to the value file.
    WriteValue,
    /// Taking the exclusive lock of the item manifest once more.
    RelockItem(Outcome),
    /// Reading the item manifest once more.
    RereadItem(Outcome),
    /// Writing the item manifest with the key's final status.
    WriteStatus(Outcome),
    /// Releasing the item manifest after the final status is written.
    ReleaseStatus(Outcome),
    /// Releasing the item manifest before the value is read.
    ReleaseLookup,
    /// Taking the shared lock of the value file.
    LockValueShared,
    /// Reading the value file.
    ReadValue,
    /// Releasing the value file after it was read.
    ReleaseRead(Outcome),
    /// Releasing the value file after the generator has run.
    ReleaseValue(Outcome),
    /// The request has ended.
    Finished(Outcome),
    /// The request was given up after a fault.
    Aborted(Error),
}

/// What the caller is asked to do.
#[derive(Clone, Copy, Debug, PartialEq, Eq, Structural)]
pub enum Action {
    /// Open the file, creating it if it is absent, and wait for the lock.
    Acquire(Resource, LockKind),
    /// Read and decode the file.
    Read(Resource),
    /// Overwrite the file, from its start, with what the request holds for it.
    Write(Resource),
    /// Release the lock on the file.
    Release(Resource),
    /// Run the generator and encode its output.
    Generate,
    /// Settle the handle; no lock is held any more.
    Finish(Outcome),
    /// Give up and report the error; every lock that is held is dropped.
    Abort(Error),
}

/// What the caller reports after an action.
#[derive(Debug)]
pub enum Event {
    /// A lock was taken or released, or a file was written.
    Done,
    /// The root manifest was read; `None` if it is empty, new or unreadable.
    Manifest(Option<ManifestData>),
    /// The item manifest was read; `None` if it is empty, new or unreadable.
    ItemManifest(Option<ItemManifestData>),
    /// The generator ran: its encoded output, or `None` if it reported an
    /// error.
    Generated(Option<Vec<u8>>),
    /// The value file was read; `None` if it is empty, new or unreadable.
    Value(Option<Vec<u8>>),
    /// The action failed.
    Failed(Error),
}

/// An event, by what it carries.
pub enum EventModel {
    Done,
    Manifest(Option<Set<Seq<char>>>),
    ItemManifest(Option<Map<Seq<char>, ValueStatus>>),
    Generated(Option<Seq<u8>>),
    Value(Option<Seq<u8>>),
    Failed(Error),
}

impl View for Event {
    type V = EventModel;

    open spec fn view(&self) -> EventModel {
        match self {
            Event::Done => EventModel::Done,
            Event::Manifest(found) => EventModel::Manifest(
                match found {
                    Some(data) => Some(data@),
                    None => None,
                },
            ),
            Event::ItemManifest(found) => EventModel::ItemManifest(
                match found {
                    Some(data) => Some(data@),
                    None => None,
                },
            ),
            Event::Generated(output) => EventModel::Generated(
                match output {
                    Some(bytes) => Some(bytes@),
                    None => None,
                },
            ),
            Event::Value(found) => EventModel::Value(
                match found {
                    Some(bytes) => Some(bytes@),
                    None => None,
                },
            ),
            Event::Failed(error) => EventModel::Failed(*error),
        }
    }
}

/// A request, by what it holds.
pub struct RequestModel {
    /// The root directory of the cache.
    pub root: Seq<char>,
    /// The identifier.
    pub id: Seq<char>,
    /// The name of the identifier's bucket.
    pub bucket: Seq<char>,
    /// The name of the key's value file.
    pub key: Seq<char>,
    /// The step that is under way.
    pub phase: Phase,
    /// The root manifest as last read or changed.
    pub manifest: Set<Seq<char>>,
    /// The item manifest as last read or changed.
    pub item: Map<Seq<char>, ValueStatus>,
    /// The encoded value as generated or read.
    pub value: Seq<u8>,
}

impl RequestModel {
    /// Whether the bucket and the key are named by content addresses, as they
    /// are in every request that a cache begins.
    pub open spec fn well_formed(self) -> bool {
        is_address(self.bucket) && is_address(self.key)
    }
}

/// The root manifest after an identifier is registered in what was read,
/// and whether that has to be written: an unreadable manifest starts empty.
pub open spec fn registered(found: Option<Set<Seq<char>>>, id: Seq<char>) -> (Set<Seq<char>>, bool) {
    match found {
        Some(items) => (items.insert(id), !items.contains(id)),
        None => (Set::<Seq<char>>::empty().insert(id), true),
    }
}

/// The item manifest after a key is looked up in it, and whether the caller
/// generates: a key that is absent or being evicted is marked as loading and
/// generated; one that is loading or in use is left as it is.
pub open spec fn claimed(item: Map<Seq<char>, ValueStatus>, key: Seq<char>) -> (
    Map<Seq<char>, ValueStatus>,
    Generate,
) {
    if item.contains_key(key) && item[key] != ValueStatus::Evicting {
        (item, Generate::No)
    } else {
        (item.insert(key, ValueStatus::Loading), Generate::Yes)
    }
}

/// The content of a manifest that was read: an unreadable one starts empty.
pub open spec fn item_or_empty(found: Option<Map<Seq<char>, ValueStatus>>) -> Map<
    Seq<char>,
    ValueStatus,
> {
    match found {
        Some(item) => item,
        None => Map::empty(),
    }
}

/// The status that a key gets once its generator has run: a stored value is
/// in use; after a failed generator the entry is given up for eviction, so
/// that the next request generates again.
pub open spec fn settled_status(outcome: Outcome) -> ValueStatus {
    if outcome == Outcome::Generated {
        ValueStatus::InUse
    } else {
        ValueStatus::Evicting
    }
}

/// The lock that a request holds on a file during a phase.
pub open spec fn holds(phase: Phase, resource: Resource) -> Option<LockKind> {
    match resource {
        Resource::Manifest => match phase {
            Phase::ReadManifest | Phase::WriteManifest | Phase::ReleaseManifest => Some(
                LockKind::Exclusive,
            ),
            _ => None,
        },
        Resource::ItemManifest => match phase {
            Phase::ReadItem
            | Phase::WriteClaim
            | Phase::LockValue
            | Phase::ReleaseClaim
            | Phase::ReleaseLookup
            | Phase::RereadItem(_)
            | Phase::WriteStatus(_)
            | Phase::ReleaseStatus(_) => Some(LockKind::Exclusive),
            _ => None,
        },
        Resource::Value => match phase {
            Phase::ReleaseClaim
            | Phase::Generate
            | Phase::WriteValue
            | Phase::RelockItem(_)
            | Phase::RereadItem(_)
            | Phase::WriteStatus(_)
            | Phase::ReleaseStatus(_) => Some(LockKind::Exclusive),
            Phase::ReleaseValue(_) => Some(LockKind::Exclusive),
            Phase::ReadValue | Phase::ReleaseRead(_) => Some(LockKind::Shared),
            _ => None,
        },
    }
}

/// The action that a phase waits for.
pub open spec fn pending(phase: Phase) -> Action {
    match phase {
        Phase::LockManifest => Action::Acquire(Resource::Manifest, LockKind::Exclusive),
        Phase::ReadManifest => Action::Read(Resource::Manifest),
        Phase::WriteManifest => Action::Write(Resource::Manifest),
        Phase::ReleaseManifest => Action::Release(Resource::Manifest),
        Phase::LockItem => Action::Acquire(Resource::ItemManifest, LockKind::Exclusive),
        Phase::ReadItem => Action::Read(Resource::ItemManifest),
        Phase::WriteClaim => Action::Write(Resource::ItemManifest),
        Phase::LockValue => Action::Acquire(Resource::Value, LockKind::Exclusive),
        Phase::ReleaseClaim => Action::Release(Resource::ItemManifest),
        Phase::Generate => Action::Generate,
        Phase::WriteValue => Action::Write(Resource::Value),
        Phase::RelockItem(_) => Action::Acquire(Resource::ItemManifest, LockKind::Exclusive),
        Phase::RereadItem(_) => Action::Read(Resource::ItemManifest),
        Phase::WriteStatus(_) => Action::Write(Resource::ItemManifest),
        Phase::ReleaseStatus(_) => Action::Release(Resource::ItemManifest),
        Phase::ReleaseLookup => Action::Release(Resource::ItemManifest),
        Phase::LockValueShared => Action::Acquire(Resource::Value, LockKind::Shared),
        Phase::ReadValue => Action::Read(Resource::Value),
        Phase::ReleaseRead(_) => Action::Release(Resource::Value),
        Phase::ReleaseValue(_) => Action::Release(Resource::Value),
        Phase::Finished(outcome) => Action::Finish(outcome),
        Phase::Aborted(error) => Action::Abort(error),
    }
}

/// Whether an event answers the action that a phase waits for. A fault
/// answers every action but the last.
pub open spec fn answers(phase: Phase, event: EventModel) -> bool {
    match pending(phase) {
        Action::Finish(_) | Action::Abort(_) => false,
        Action::Read(Resource::Manifest) => event is Manifest || event is Failed,
        Action::Read(Resource::ItemManifest) => event is ItemManifest || event is Failed,
        Action::Read(Resource::Value) => event is Value || event is Failed,
        Action::Generate => event is Generated || event is Failed,
        _ => event is Done || event is Failed,
    }
}

/// The request after an event. An event that does not answer the pending
/// action changes nothing; a fault ends the request at once.
pub open spec fn request_step(state: RequestModel, event: EventModel) -> RequestModel {
    if !answers(state.phase, event) {
        state
    } else {
        match event {
            EventModel::Failed(error) => RequestModel { phase: Phase::Aborted(error), ..state },
            EventModel::Manifest(found) => {
                let (manifest, changed) = registered(found, state.id);
                RequestModel {
                    phase: if changed {
                        Phase::WriteManifest
                    } else {
                        Phase::ReleaseManifest
                    },
                    manifest,
                    ..state
                }
            },
            EventModel::ItemManifest(found) => match state.phase {
                Phase::RereadItem(outcome) => RequestModel {
                    phase: Phase::WriteStatus(outcome),
                    item: item_or_empty(found).insert(state.key, settled_status(outcome)),
                    ..state
                },
                _ => {
                    let (item, generate) = claimed(item_or_empty(found), state.key);
                    RequestModel {
                        phase: if generate == Generate::Yes {
                            Phase::WriteClaim
                        } else {
                            Phase::ReleaseLookup
                        },
                        item,
                        ..state
                    }
                },
            },
            EventModel::Generated(output) => match output {
                Some(bytes) => RequestModel { phase: Phase::WriteValue, value: bytes, ..state },
                None => RequestModel {
                    phase: Phase::RelockItem(Outcome::GeneratorFailed),
                    ..state
                },
            },
            EventModel::Value(found) => match found {
                Some(bytes) => RequestModel {
                    phase: Phase::ReleaseRead(Outcome::Cached),
                    value: bytes,
                    ..state
                },
                None => RequestModel { phase: Phase::ReleaseRead(Outcome::Unavailable), ..state },
            },
            EventModel::Done => RequestModel { phase: after_done(state.phase), ..state },
        }
    }
}

/// The phase that follows once a lock was taken or released or a file was
/// written.
pub open spec fn after_done(phase: Phase) -> Phase {
    match phase {
        Phase::LockManifest => Phase::ReadManifest,
        Phase::WriteManifest => Phase::ReleaseManifest,
        Phase::ReleaseManifest => Phase::LockItem,
        Phase::LockItem => Phase::ReadItem,
        Phase::WriteClaim => Phase::LockValue,
        Phase::LockValue => Phase::ReleaseClaim,
        Phase::ReleaseClaim => Phase::Generate,
        Phase::WriteValue => Phase::RelockItem(Outcome::Generated),
        Phase::RelockItem(outcome) => Phase::RereadItem(outcome),
        Phase::WriteStatus(outcome) => Phase::ReleaseStatus(outcome),
        Phase::ReleaseStatus(outcome) => Phase::ReleaseValue(outcome),
        Phase::ReleaseLookup => Phase::LockValueShared,
        Phase::LockValueShared => Phase::ReadValue,
        Phase::ReleaseRead(outcome) => Phase::Finished(outcome),
        Phase::ReleaseValue(outcome) => Phase::Finished(outcome),
        other => other,
    }
}

/// The file that a request acts on for a resource.
pub open spec fn resource_path(state: RequestModel, resource: Resource) -> Seq<char> {
    match resource {
        Resource::Manifest => manifest_path(state.root),
        Resource::ItemManifest => item_manifest_path(state.root, state.bucket),
        Resource::Value => value_path(state.root, state.bucket, state.key),
    }
}

/// The encoding of the file of a resource: manifests are text, values binary.
pub open spec fn resource_format(resource: Resource) -> Format {
    match resource {
        Resource::Value => Format::Binary,
        _ => Format::Toml,
    }
}

/// The request for a key under an identifier, before its first action.
pub open spec fn initial_request(root: Seq<char>, id: Seq<char>, key: Seq<u8>) -> RequestModel {
    RequestModel {
        root,
        id,
        bucket: content_address(flexbuffer_of_string(id)),
        key: content_address(key),
        phase: Phase::LockManifest,
        manifest: Set::empty(),
        item: Map::empty(),
        value: Seq::empty(),
    }
}

/// Registers an identifier in the root manifest that was read under the
/// exclusive lock. `persist` tells whether the manifest has to be written.
pub fn register_item(found: Option<ManifestData>, id: String) -> (loaded: Loaded<ManifestData>)
    ensures
        (loaded.data@, loaded.persist) == registered(
            match found {
                Some(data) => Some(data@),
                None => None,
            },
            id@,
        ),
{
    let initialize = || -> (data: ManifestData)
        ensures
            data@ == Set::<Seq<char>>::empty(),
        { ManifestData::default() };
    let Loaded { data, persist } = read_or_initialize(found, initialize);
    let mut data = data;
    let added = data.insert(id);
    Loaded { data, persist: persist || added }
}

/// Looks a key up in the item manifest that was read under the exclusive
/// lock, and claims it where the caller has to generate.
///
/// A key that is loading or in use is left alone: its value is there, or the
/// process that generates it holds the value file. A key that is absent or
/// being evicted is marked as loading, and the caller generates.
pub fn check_existing_item(data: &mut ItemManifestData, key: &String) -> (generate: Generate)
    ensures
        (final(data)@, generate) == claimed(old(data)@, key@),
{
    match data.get(key) {
        Some(ValueStatus::InUse) | Some(ValueStatus::Loading) => Generate::No,
        Some(ValueStatus::Evicting) | None => {
            data.set(key.clone(), ValueStatus::Loading);
            Generate::Yes
        },
    }
}

/// How many of `times` lookups of a key, one after the other, tell the caller
/// to generate.
pub open spec fn claims(item: Map<Seq<char>, ValueStatus>, key: Seq<char>, times: nat) -> nat
    decreases times,
{
    if times == 0 {
        0
    } else {
        let (next, generate) = claimed(item, key);
        let one: nat = if generate == Generate::Yes {
            1
        } else {
            0
        };
        one + claims(next, key, (times - 1) as nat)
    }
}

/// However many callers look a key up, one after the other under the item
/// manifest's lock, at most one of them generates: the first, and only if
/// the key had no entry or was being evicted.
pub proof fn lemma_one_generator(item: Map<Seq<char>, ValueStatus>, key: Seq<char>, times: nat)
    ensures
        claims(item, key, times) == (if times > 0 && claimed(item, key).1 == Generate::Yes {
            1nat
        } else {
            0nat
        }),
    decreases times,
{
    if times > 0 {
        let (next, generate) = claimed(item, key);
        assert(claimed(next, key).1 == Generate::No);
        lemma_one_generator(next, key, (times - 1) as nat);
    }
}

/// The lock discipline of a request, for every state and event. A file is
/// read only while its lock is held, and written only while its exclusive
/// lock is held; the generator runs only while the value file is held
/// exclusively; a lock is taken only on a file that is not held, and
/// released only on one that is; a request ends holding nothing; and no
/// step changes the hold on a file that its action does not name.
pub proof fn lemma_lock_discipline(state: RequestModel, event: EventModel)
    ensures
        ({
            let after = request_step(state, event);
            &&& match pending(state.phase) {
                Action::Read(resource) => holds(state.phase, resource) is Some,
                Action::Write(resource) => holds(state.phase, resource) == Some(
                    LockKind::Exclusive,
                ),
                Action::Generate => holds(state.phase, Resource::Value) == Some(
                    LockKind::Exclusive,
                ),
                Action::Acquire(resource, kind) => holds(state.phase, resource) is None && (event
                    is Done ==> holds(after.phase, resource) == Some(kind)),
                Action::Release(resource) => holds(state.phase, resource) is Some && (event
                    is Done ==> holds(after.phase, resource) is None),
                Action::Finish(_) | Action::Abort(_) => forall|resource: Resource|
                    holds(state.phase, resource) is None,
            }
            &&& forall|resource: Resource|
                !(event is Failed) && pending(state.phase) != Action::Release(resource) && !(
                exists|kind: LockKind| pending(state.phase) == Action::Acquire(resource, kind))
                    ==> holds(after.phase, resource) == holds(state.phase, resource)
        }),
{
}

/// A fault ends a request at once: the error is handed back as it came, and
/// nothing that is reported afterwards starts the request again.
pub proof fn lemma_fault_ends_request(state: RequestModel, error: Error, later: EventModel)
    requires
        !(state.phase is Finished),
        !(state.phase is Aborted),
    ensures
        ({
            let after = request_step(state, EventModel::Failed(error));
            &&& after.phase == Phase::Aborted(error)
            &&& pending(after.phase) == Action::Abort(error)
            &&& request_step(after, later) == after
        }),
{
}

/// A cache rooted at a directory.
#[derive(Debug)]
pub struct DiskCache {
    root: String,
    manifest_path: String,
}

impl DiskCache {
    /// The root directory, as it was given.
    pub closed spec fn root_view(&self) -> Seq<char> {
        self.root@
    }

    #[verifier::type_invariant]
    closed spec fn consistent(&self) -> bool {
        self.manifest_path@ == manifest_path(self.root@)
    }

    /// A cache rooted at `root`. Nothing is created: the directory and the
    /// files come into being when they are first opened.
    pub fn new(root: String) -> (cache: Self)
        ensures
            cache.root_view() == root@,
    {
        let manifest_path = join_path(root.as_str(), MANIFEST_NAME);
        DiskCache { root, manifest_path }
    }

    /// The root directory.
    pub fn root(&self) -> (path: &String)
        ensures
            path@ == self.root_view(),
    {
        &self.root
    }

    /// The path of the root manifest.
    pub fn manifest_path(&self) -> (path: &String)
        ensures
            path@ == manifest_path(self.root_view()),
    {
        proof {
            use_type_invariant(self);
        }
        &self.manifest_path
    }

    /// Begins a request for the value of a key under an identifier. `key`
    /// holds the key's canonical bytes. The first action is to take the
    /// exclusive lock of the root manifest.
    pub fn generate(&self, id: String, key: &[u8]) -> (request: Request)
        ensures
            request@ == initial_request(self.root_view(), id@, key@),
            request@.well_formed(),
    {
        let bucket = identifier_address(id.as_str());
        let key = address_of(key);
        Request {
            root: self.root.clone(),
            id,
            bucket,
            key,
            phase: Phase::LockManifest,
            manifest: ManifestData::new(),
            item: ItemManifestData::new(),
            value: Vec::new(),
        }
    }
}

/// A request under way.
#[derive(Debug)]
pub struct Request {
    root: String,
    id: String,
    bucket: String,
    key: String,
    phase: Phase,
    manifest: ManifestData,
    item: ItemManifestData,
    value: Vec<u8>,
}

impl View for Request {
    type V = RequestModel;

    closed spec fn view(&self) -> RequestModel {
        RequestModel {
            root: self.root@,
            id: self.id@,
            bucket: self.bucket@,
            key: self.key@,
            phase: self.phase,
            manifest: self.manifest@,
            item: self.item@,
            value: self.value@,
        }
    }
}

impl Request {
    #[verifier::type_invariant]
    closed spec fn addressed(&self) -> bool {
        is_address(self.bucket@) && is_address(self.key@)
    }

    /// The step that is under way.
    pub fn phase(&self) -> (phase: Phase)
        ensures
            phase == self@.phase,
    {
        self.phase
    }

    /// The action that is waited for.
    pub fn pending(&self) -> (action: Action)
        ensures
            action == pending(self@.phase),
    {
        pending_action(self.phase)
    }

    /// The lock that the request holds on a file.
    pub fn holds(&self, resource: Resource) -> (kind: Option<LockKind>)
        ensures
            kind == holds(self@.phase, resource),
    {
        held_lock(self.phase, resource)
    }

    /// The file to act on for a resource.
    pub fn path(&self, resource: Resource) -> (path: String)
        ensures
            path@ == resource_path(self@, resource),
    {
        match resource {
            Resource::Manifest => join_path(self.root.as_str(), MANIFEST_NAME),
            Resource::ItemManifest => {
                let bucket = join_path(self.root.as_str(), self.bucket.as_str());
                join_path(bucket.as_str(), ITEM_MANIFEST_NAME)
            },
            Resource::Value => {
                let bucket = join_path(self.root.as_str(), self.bucket.as_str());
                join_path(bucket.as_str(), self.key.as_str())
            },
        }
    }

    /// The encoding of the file of a resource.
    pub fn format(resource: Resource) -> (format: Format)
        ensures
            format == resource_format(resource),
    {
        match resource {
            Resource::Value => Format::Binary,
            _ => Format::Toml,
        }
    }

    /// The root manifest to write.
    pub fn manifest(&self) -> (data: &ManifestData)
        ensures
            data@ == self@.manifest,
    {
        &self.manifest
    }

    /// The item manifest to write.
    pub fn item_manifest(&self) -> (data: &ItemManifestData)
        ensures
            data@ == self@.item,
    {
        &self.item
    }

    /// The encoded value: the one to write, or the one that was read.
    pub fn value(&self) -> (bytes: &Vec<u8>)
        ensures
            bytes@ == self@.value,
    {
        &self.value
    }

    /// Takes in what the caller reports and returns the next action.
    pub fn advance(&mut self, event: Event) -> (action: Action)
        ensures
            final(self)@ == request_step(old(self)@, event@),
            action == pending(final(self)@.phase),
            final(self)@.well_formed(),
    {
        proof {
            use_type_invariant(&*self);
        }
        let phase = self.phase;
        match pending_action(phase) {
            Action::Finish(_) | Action::Abort(_) => {},
            waiting => match event {
                Event::Failed(error) => {
                    self.phase = Phase::Aborted(error);
                },
                Event::Done => match waiting {
                    Action::Acquire(_, _) | Action::Write(_) | Action::Release(_) => {
                        self.phase = phase_after_done(phase);
                    },
                    _ => {},
                },
                Event::Manifest(found) => match waiting {
                    Action::Read(Resource::Manifest) => {
                        let Loaded { data, persist } = register_item(found, self.id.clone());
                        self.manifest = data;
                        self.phase = if persist {
                            Phase::WriteManifest
                        } else {
                            Phase::ReleaseManifest
                        };
                    },
                    _ => {},
                },
                Event::ItemManifest(found) => match waiting {
                    Action::Read(Resource::ItemManifest) => {
                        let mut item = match found {
                            Some(item) => item,
                            None => ItemManifestData::default(),
                        };
                        match phase {
                            Phase::RereadItem(outcome) => {
                                let status = match outcome {
                                    Outcome::Generated => ValueStatus::InUse,
                                    _ => ValueStatus::Evicting,
                                };
                                item.set(self.key.clone(), status);
                                self.item = item;
                                self.phase = Phase::WriteStatus(outcome);
                            },
                            _ => {
                                let generate = check_existing_item(&mut item, &self.key);
                                self.item = item;
                                self.phase = match generate {
                                    Generate::Yes => Phase::WriteClaim,
                                    Generate::No => Phase::ReleaseLookup,
                                };
                            },
                        }
                    },
                    _ => {},
                },
                Event::Generated(output) => match waiting {
                    Action::Generate => match output {
                        Some(bytes) => {
                            self.value = bytes;
                            self.phase = Phase::WriteValue;
                        },
                        None => {
                            self.phase = Phase::RelockItem(Outcome::GeneratorFailed);
                        },
                    },
                    _ => {},
                },
                Event::Value(found) => match waiting {
                    Action::Read(Resource::Value) => match found {
                        Some(bytes) => {
                            self.value = bytes;
                            self.phase = Phase::ReleaseRead(Outcome::Cached);
                        },
                        None => {
                            self.phase = Phase::ReleaseRead(Outcome::Unavailable);
                        },
                    },
                    _ => {},
                },
            },
        }
        pending_action(self.phase)
    }
}

/// The action that a phase waits for.
pub fn pending_action(phase: Phase) -> (action: Action)
    ensures
        action == pending(phase),
{
    match phase {
        Phase::LockManifest => Action::Acquire(Resource::Manifest, LockKind::Exclusive),
        Phase::ReadManifest => Action::Read(Resource::Manifest),
        Phase::WriteManifest => Action::Write(Resource::Manifest),
        Phase::ReleaseManifest => Action::Release(Resource::Manifest),
        Phase::LockItem => Action::Acquire(Resource::ItemManifest, LockKind::Exclusive),
        Phase::ReadItem => Action::Read(Resource::ItemManifest),
        Phase::WriteClaim => Action::Write(Resource::ItemManifest),
        Phase::LockValue => Action::Acquire(Resource::Value, LockKind::Exclusive),
        Phase::ReleaseClaim => Action::Release(Resource::ItemManifest),
        Phase::Generate => Action::Generate,
        Phase::WriteValue => Action::Write(Resource::Value),
        Phase::RelockItem(_) => Action::Acquire(Resource::ItemManifest, LockKind::Exclusive),
        Phase::RereadItem(_) => Action::Read(Resource::ItemManifest),
        Phase::WriteStatus(_) => Action::Write(Resource::ItemManifest),
        Phase::ReleaseStatus(_) => Action::Release(Resource::ItemManifest),
        Phase::ReleaseLookup => Action::Release(Resource::ItemManifest),
        Phase::LockValueShared => Action::Acquire(Resource::Value, LockKind::Shared),
        Phase::ReadValue => Action::Read(Resource::Value),
        Phase::ReleaseRead(_) => Action::Release(Resource::Value),
        Phase::ReleaseValue(_) => Action::Release(Resource::Value),
        Phase::Finished(outcome) => Action::Finish(outcome),
        Phase::Aborted(error) => Action::Abort(error),
    }
}

/// The phase that follows once a lock was taken or released or a file was
/// written.
pub fn phase_after_done(phase: Phase) -> (next: Phase)
    ensures
        next == after_done(phase),
{
    match phase {
        Phase::LockManifest => Phase::ReadManifest,
        Phase::WriteManifest => Phase::ReleaseManifest,
        Phase::ReleaseManifest => Phase::LockItem,
        Phase::LockItem => Phase::ReadItem,
        Phase::WriteClaim => Phase::LockValue,
        Phase::LockValue => Phase::ReleaseClaim,
        Phase::ReleaseClaim => Phase::Generate,
        Phase::WriteValue => Phase::RelockItem(Outcome::Generated),
        Phase::RelockItem(outcome) => Phase::RereadItem(outcome),
        Phase::WriteStatus(outcome) => Phase::ReleaseStatus(outcome),
        Phase::ReleaseStatus(outcome) => Phase::ReleaseValue(outcome),
        Phase::ReleaseLookup => Phase::LockValueShared,
        Phase::LockValueShared => Phase::ReadValue,
        Phase::ReleaseRead(outcome) => Phase::Finished(outcome),
        Phase::ReleaseValue(outcome) => Phase::Finished(outcome),
        other => other,
    }
}

/// The lock that a request holds on a file during a phase.
pub fn held_lock(phase: Phase, resource: Resource) -> (kind: Option<LockKind>)
    ensures
        kind == holds(phase, resource),
{
    match resource {
        Resource::Manifest => match phase {
            Phase::ReadManifest | Phase::WriteManifest | Phase::ReleaseManifest => Some(
                LockKind::Exclusive,
            ),
            _ => None,
        },
        Resource::ItemManifest => match phase {
            Phase::ReadItem
            | Phase::WriteClaim
            | Phase::LockValue
            | Phase::ReleaseClaim
            | Phase::ReleaseLookup
            | Phase::RereadItem(_)
            | Phase::WriteStatus(_)
            | Phase::ReleaseStatus(_) => Some(LockKind::Exclusive),
            _ => None,
        },
        Resource::Value => match phase {
            Phase::ReleaseClaim
            | Phase::Generate
            | Phase::WriteValue
            | Phase::RelockItem(_)
            | Phase::RereadItem(_)
            | Phase::WriteStatus(_)
            | Phase::ReleaseStatus(_) => Some(LockKind::Exclusive),
            Phase::ReleaseValue(_) => Some(LockKind::Exclusive),
            Phase::ReadValue | Phase::ReleaseRead(_) => Some(LockKind::Shared),
            _ => None,
        },
    }
}

} // verus!
