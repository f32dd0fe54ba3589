use std::collections::HashMap;

use cache::digest::{address_of, identifier_address};
use cache::disk::{
    check_existing_item, held_lock, pending_action, phase_after_done, register_item, Action,
    DiskCache, Event, Generate, Outcome, Phase, Request, Resource,
};
use cache::error::Error;
use cache::handle::{resolve, CacheHandle};
use cache::lockfile::{Format, LockKind};
use cache::manifest::{ItemManifestData, ManifestData, ValueStatus};

#[derive(Clone)]
enum Content {
    Manifest(ManifestData),
    Item(ItemManifestData),
    Value(Vec<u8>),
    Garbage,
}

struct Files {
    files: HashMap<String, Content>,
    generator_runs: usize,
    trace: Vec<Action>,
}

fn empty_files() -> Files {
    Files { files: HashMap::new(), generator_runs: 0, trace: Vec::new() }
}

fn perform(files: &mut Files, request: &Request, action: Action, generator: &Option<Vec<u8>>) -> Event {
    files.trace.push(action);
    match action {
        Action::Acquire(_, _) | Action::Release(_) => Event::Done,
        Action::Read(Resource::Manifest) => {
            Event::Manifest(match files.files.get(&request.path(Resource::Manifest)) {
                Some(Content::Manifest(data)) => Some(data.clone()),
                _ => None,
            })
        }
        Action::Read(Resource::ItemManifest) => {
            Event::ItemManifest(match files.files.get(&request.path(Resource::ItemManifest)) {
                Some(Content::Item(data)) => Some(data.clone()),
                _ => None,
            })
        }
        Action::Read(Resource::Value) => {
            Event::Value(match files.files.get(&request.path(Resource::Value)) {
                Some(Content::Value(bytes)) => Some(bytes.clone()),
                _ => None,
            })
        }
        Action::Write(resource) => {
            assert_eq!(request.holds(resource), Some(LockKind::Exclusive));
            let content = match resource {
                Resource::Manifest => Content::Manifest(request.manifest().clone()),
                Resource::ItemManifest => Content::Item(request.item_manifest().clone()),
                Resource::Value => Content::Value(request.value().clone()),
            };
            files.files.insert(request.path(resource), content);
            Event::Done
        }
        Action::Generate => {
            files.generator_runs += 1;
            Event::Generated(generator.clone())
        }
        Action::Finish(_) | Action::Abort(_) => unreachable!(),
    }
}

fn run(
    files: &mut Files,
    cache: &DiskCache,
    id: &str,
    key: &[u8],
    generator: Option<Vec<u8>>,
) -> (Outcome, Vec<u8>) {
    let mut request = cache.generate(id.to_string(), key);
    let mut action = request.pending();
    let mut steps = 0;
    loop {
        match action {
            Action::Finish(outcome) => return (outcome, request.value().clone()),
            Action::Abort(_) => panic!("the request was given up"),
            _ => {}
        }
        let event = perform(files, &request, action, &generator);
        action = request.advance(event);
        steps += 1;
        assert!(steps <= 16);
    }
}

fn status_of(files: &Files, cache: &DiskCache, id: &str, key: &[u8]) -> Option<ValueStatus> {
    let request = cache.generate(id.to_string(), key);
    match files.files.get(&request.path(Resource::ItemManifest)) {
        Some(Content::Item(data)) => data.get(&address_of(key)),
        _ => None,
    }
}

fn set_status(files: &mut Files, cache: &DiskCache, id: &str, key: &[u8], status: ValueStatus) {
    let request = cache.generate(id.to_string(), key);
    let path = request.path(Resource::ItemManifest);
    let mut data = match files.files.get(&path) {
        Some(Content::Item(data)) => data.clone(),
        _ => ItemManifestData::new(),
    };
    data.set(address_of(key), status);
    files.files.insert(path, Content::Item(data));
}

#[test]
fn create_disk_cache_works() {
    let cache = DiskCache::new("build".to_string());
    let mut files = empty_files();
    let unit = flexbuffers::to_vec(()).unwrap();
    let (outcome, stored) = run(&mut files, &cache, "test", &unit, Some(unit.clone()));
    assert_eq!(outcome, Outcome::Generated);
    assert_eq!(stored, unit);
    let generated: Option<Result<(), String>> = Some(Ok(()));
    let result = resolve(outcome, generated, None, "generation failed".to_string());
    assert_eq!(result, Ok(()));
    let mut handle: CacheHandle<(), String> = CacheHandle::new();
    assert!(handle.set(result).is_none());
    assert_eq!(handle.try_get(), Ok(&()));
}

#[test]
fn new_cache_knows_its_paths() {
    let cache = DiskCache::new("build".to_string());
    assert_eq!(cache.root(), "build");
    assert_eq!(cache.manifest_path(), "build/Cache.toml");
    let request = cache.generate("test".to_string(), b"key");
    let bucket = identifier_address("test");
    let key = address_of(b"key");
    assert_eq!(request.path(Resource::Manifest), "build/Cache.toml");
    assert_eq!(request.path(Resource::ItemManifest), format!("build/{}/CacheItem.toml", bucket));
    assert_eq!(request.path(Resource::Value), format!("build/{}/{}", bucket, key));
    assert_eq!(Request::format(Resource::Manifest), Format::Toml);
    assert_eq!(Request::format(Resource::ItemManifest), Format::Toml);
    assert_eq!(Request::format(Resource::Value), Format::Binary);
}

#[test]
fn first_request_generates_in_order() {
    let cache = DiskCache::new("root".to_string());
    let mut files = empty_files();
    let (outcome, value) = run(&mut files, &cache, "id", b"key", Some(vec![1, 2, 3]));
    assert_eq!(outcome, Outcome::Generated);
    assert_eq!(value, vec![1, 2, 3]);
    assert_eq!(
        files.trace,
        vec![
            Action::Acquire(Resource::Manifest, LockKind::Exclusive),
            Action::Read(Resource::Manifest),
            Action::Write(Resource::Manifest),
            Action::Release(Resource::Manifest),
            Action::Acquire(Resource::ItemManifest, LockKind::Exclusive),
            Action::Read(Resource::ItemManifest),
            Action::Write(Resource::ItemManifest),
            Action::Acquire(Resource::Value, LockKind::Exclusive),
            Action::Release(Resource::ItemManifest),
            Action::Generate,
            Action::Write(Resource::Value),
            Action::Acquire(Resource::ItemManifest, LockKind::Exclusive),
            Action::Read(Resource::ItemManifest),
            Action::Write(Resource::ItemManifest),
            Action::Release(Resource::ItemManifest),
            Action::Release(Resource::Value),
        ]
    );
    assert_eq!(status_of(&files, &cache, "id", b"key"), Some(ValueStatus::InUse));
    assert_eq!(files.generator_runs, 1);
}

#[test]
fn second_request_reads_what_the_first_stored() {
    let cache = DiskCache::new("root".to_string());
    let mut files = empty_files();
    let first = run(&mut files, &cache, "id", b"key", Some(vec![7, 7]));
    files.trace.clear();
    let second = run(&mut files, &cache, "id", b"key", Some(vec![7, 7]));
    assert_eq!(first, (Outcome::Generated, vec![7, 7]));
    assert_eq!(second, (Outcome::Cached, vec![7, 7]));
    assert_eq!(files.generator_runs, 1);
    assert_eq!(
        files.trace,
        vec![
            Action::Acquire(Resource::Manifest, LockKind::Exclusive),
            Action::Read(Resource::Manifest),
            Action::Release(Resource::Manifest),
            Action::Acquire(Resource::ItemManifest, LockKind::Exclusive),
            Action::Read(Resource::ItemManifest),
            Action::Release(Resource::ItemManifest),
            Action::Acquire(Resource::Value, LockKind::Shared),
            Action::Read(Resource::Value),
            Action::Release(Resource::Value),
        ]
    );
}

#[test]
fn different_keys_keep_their_own_values() {
    let cache = DiskCache::new("root".to_string());
    let mut files = empty_files();
    run(&mut files, &cache, "id", b"one", Some(vec![1]));
    run(&mut files, &cache, "id", b"two", Some(vec![2]));
    assert_eq!(run(&mut files, &cache, "id", b"one", None), (Outcome::Cached, vec![1]));
    assert_eq!(run(&mut files, &cache, "id", b"two", None), (Outcome::Cached, vec![2]));
    assert_eq!(files.generator_runs, 2);
}

#[test]
fn different_identifiers_use_different_buckets() {
    let cache = DiskCache::new("root".to_string());
    let mut files = empty_files();
    run(&mut files, &cache, "first", b"key", Some(vec![1]));
    run(&mut files, &cache, "second", b"key", Some(vec![2]));
    let one = cache.generate("first".to_string(), b"key");
    let two = cache.generate("second".to_string(), b"key");
    assert_ne!(one.path(Resource::ItemManifest), two.path(Resource::ItemManifest));
    assert_ne!(one.path(Resource::Value), two.path(Resource::Value));
    assert_eq!(run(&mut files, &cache, "first", b"key", None), (Outcome::Cached, vec![1]));
    assert_eq!(run(&mut files, &cache, "second", b"key", None), (Outcome::Cached, vec![2]));
    match files.files.get("root/Cache.toml") {
        Some(Content::Manifest(data)) => {
            let mut items = data.items();
            items.sort();
            assert_eq!(items, vec!["first".to_string(), "second".to_string()]);
        }
        _ => panic!("the root manifest is missing"),
    }
}

#[test]
fn unreadable_manifests_are_initialized_again() {
    let cache = DiskCache::new("root".to_string());
    let mut files = empty_files();
    run(&mut files, &cache, "id", b"key", Some(vec![1]));
    let request = cache.generate("id".to_string(), b"key");
    files.files.insert(request.path(Resource::Manifest), Content::Garbage);
    files.files.insert(request.path(Resource::ItemManifest), Content::Garbage);
    let (outcome, value) = run(&mut files, &cache, "id", b"key", Some(vec![9]));
    assert_eq!(outcome, Outcome::Generated);
    assert_eq!(value, vec![9]);
    assert_eq!(status_of(&files, &cache, "id", b"key"), Some(ValueStatus::InUse));
    match files.files.get("root/Cache.toml") {
        Some(Content::Manifest(data)) => assert_eq!(data.items(), vec!["id".to_string()]),
        _ => panic!("the root manifest was not written again"),
    }
}

#[test]
fn evicting_entry_is_generated_again() {
    let cache = DiskCache::new("root".to_string());
    let mut files = empty_files();
    run(&mut files, &cache, "id", b"key", Some(vec![1]));
    set_status(&mut files, &cache, "id", b"key", ValueStatus::Evicting);
    let (outcome, value) = run(&mut files, &cache, "id", b"key", Some(vec![2]));
    assert_eq!(outcome, Outcome::Generated);
    assert_eq!(value, vec![2]);
    assert_eq!(files.generator_runs, 2);
    assert_eq!(status_of(&files, &cache, "id", b"key"), Some(ValueStatus::InUse));
    assert_eq!(run(&mut files, &cache, "id", b"key", None), (Outcome::Cached, vec![2]));
}

#[test]
fn generator_error_gives_the_entry_up() {
    let cache = DiskCache::new("root".to_string());
    let mut files = empty_files();
    let (outcome, _) = run(&mut files, &cache, "id", b"key", None);
    assert_eq!(outcome, Outcome::GeneratorFailed);
    assert_eq!(status_of(&files, &cache, "id", b"key"), Some(ValueStatus::Evicting));
    let request = cache.generate("id".to_string(), b"key");
    assert!(files.files.get(&request.path(Resource::Value)).is_none());
    let (outcome, value) = run(&mut files, &cache, "id", b"key", Some(vec![5]));
    assert_eq!((outcome, value), (Outcome::Generated, vec![5]));
}

#[test]
fn entry_in_use_without_value_is_unavailable() {
    let cache = DiskCache::new("root".to_string());
    let mut files = empty_files();
    set_status(&mut files, &cache, "id", b"key", ValueStatus::InUse);
    let (outcome, _) = run(&mut files, &cache, "id", b"key", Some(vec![1]));
    assert_eq!(outcome, Outcome::Unavailable);
    assert_eq!(files.generator_runs, 0);
    let result: Result<u8, String> = resolve(outcome, None, None, "generation failed".to_string());
    assert_eq!(result, Err("generation failed".to_string()));
}

#[test]
fn fault_ends_the_request() {
    let cache = DiskCache::new("root".to_string());
    let mut request = cache.generate("id".to_string(), b"key");
    assert_eq!(request.advance(Event::Done), Action::Read(Resource::Manifest));
    assert_eq!(request.advance(Event::Failed(Error::Io)), Action::Abort(Error::Io));
    assert_eq!(request.phase(), Phase::Aborted(Error::Io));
    assert_eq!(request.advance(Event::Done), Action::Abort(Error::Io));
    assert_eq!(request.advance(Event::Manifest(None)), Action::Abort(Error::Io));
    assert_eq!(request.holds(Resource::Manifest), None);
}

#[test]
fn event_that_does_not_answer_is_ignored() {
    let cache = DiskCache::new("root".to_string());
    let mut request = cache.generate("id".to_string(), b"key");
    assert_eq!(request.pending(), Action::Acquire(Resource::Manifest, LockKind::Exclusive));
    assert_eq!(
        request.advance(Event::Manifest(None)),
        Action::Acquire(Resource::Manifest, LockKind::Exclusive)
    );
    assert_eq!(
        request.advance(Event::Value(Some(vec![1]))),
        Action::Acquire(Resource::Manifest, LockKind::Exclusive)
    );
    assert_eq!(request.phase(), Phase::LockManifest);
    assert_eq!(request.advance(Event::Done), Action::Read(Resource::Manifest));
    assert_eq!(request.advance(Event::Done), Action::Read(Resource::Manifest));
    assert!(request.value().is_empty());
}

#[test]
fn registering_reports_whether_to_persist() {
    let fresh = register_item(None, "a".to_string());
    assert!(fresh.persist);
    assert_eq!(fresh.data.items(), vec!["a".to_string()]);
    let known = register_item(Some(fresh.data.clone()), "a".to_string());
    assert!(!known.persist);
    assert_eq!(known.data.items(), vec!["a".to_string()]);
    let added = register_item(Some(fresh.data), "b".to_string());
    assert!(added.persist);
    assert_eq!(added.data.items(), vec!["a".to_string(), "b".to_string()]);
}

#[test]
fn lookup_claims_absent_and_evicting_keys() {
    let key = "k".to_string();
    let mut data = ItemManifestData::new();
    assert_eq!(check_existing_item(&mut data, &key), Generate::Yes);
    assert_eq!(data.get(&key), Some(ValueStatus::Loading));
    assert_eq!(check_existing_item(&mut data, &key), Generate::No);
    assert_eq!(data.get(&key), Some(ValueStatus::Loading));
    data.set(key.clone(), ValueStatus::InUse);
    assert_eq!(check_existing_item(&mut data, &key), Generate::No);
    assert_eq!(data.get(&key), Some(ValueStatus::InUse));
    data.set(key.clone(), ValueStatus::Evicting);
    assert_eq!(check_existing_item(&mut data, &key), Generate::Yes);
    assert_eq!(data.get(&key), Some(ValueStatus::Loading));
}

#[test]
fn many_lookups_one_generator() {
    let key = "k".to_string();
    let mut data = ItemManifestData::new();
    let mut generating = 0;
    for _ in 0..25 {
        if check_existing_item(&mut data, &key) == Generate::Yes {
            generating += 1;
        }
    }
    assert_eq!(generating, 1);
}

#[test]
fn phases_hold_the_locks_they_need() {
    assert_eq!(held_lock(Phase::LockManifest, Resource::Manifest), None);
    assert_eq!(held_lock(Phase::ReadManifest, Resource::Manifest), Some(LockKind::Exclusive));
    assert_eq!(held_lock(Phase::WriteManifest, Resource::Manifest), Some(LockKind::Exclusive));
    assert_eq!(held_lock(Phase::LockItem, Resource::Manifest), None);
    assert_eq!(held_lock(Phase::Generate, Resource::Value), Some(LockKind::Exclusive));
    assert_eq!(held_lock(Phase::Generate, Resource::ItemManifest), None);
    assert_eq!(held_lock(Phase::ReadValue, Resource::Value), Some(LockKind::Shared));
    assert_eq!(held_lock(Phase::LockValueShared, Resource::ItemManifest), None);
    assert_eq!(held_lock(Phase::Finished(Outcome::Cached), Resource::Value), None);
    assert_eq!(pending_action(Phase::Generate), Action::Generate);
    assert_eq!(pending_action(Phase::Finished(Outcome::Cached)), Action::Finish(Outcome::Cached));
    assert_eq!(phase_after_done(Phase::WriteValue), Phase::RelockItem(Outcome::Generated));
    assert_eq!(phase_after_done(Phase::ReadValue), Phase::ReadValue);
}

struct Caller {
    request: Request,
    action: Action,
    sleeping: usize,
    done: Option<(Outcome, Vec<u8>)>,
}

struct Locks {
    exclusive: HashMap<String, usize>,
    shared: HashMap<String, Vec<usize>>,
}

fn try_lock(locks: &mut Locks, path: &str, kind: LockKind, who: usize) -> bool {
    let readers = locks.shared.get(path).map(|holders| holders.len()).unwrap_or(0);
    if locks.exclusive.contains_key(path) {
        return false;
    }
    match kind {
        LockKind::Exclusive => {
            if readers > 0 {
                return false;
            }
            locks.exclusive.insert(path.to_string(), who);
        }
        LockKind::Shared => {
            locks.shared.entry(path.to_string()).or_default().push(who);
        }
    }
    true
}

fn unlock(locks: &mut Locks, path: &str, who: usize) {
    if locks.exclusive.get(path) == Some(&who) {
        locks.exclusive.remove(path);
    }
    if let Some(holders) = locks.shared.get_mut(path) {
        holders.retain(|holder| *holder != who);
    }
}

#[test]
fn concurrent_callers_generate_once() {
    let cache = DiskCache::new("root".to_string());
    let mut files = empty_files();
    let mut locks = Locks { exclusive: HashMap::new(), shared: HashMap::new() };
    let mut callers: Vec<Caller> = Vec::new();
    for _ in 0..8 {
        let request = cache.generate("id".to_string(), b"key");
        let action = request.pending();
        callers.push(Caller { request, action, sleeping: 0, done: None });
    }
    let generator = Some(vec![4, 2]);
    let mut rounds = 0;
    while callers.iter().any(|caller| caller.done.is_none()) {
        rounds += 1;
        assert!(rounds < 10_000, "the callers are stuck");
        for who in 0..callers.len() {
            let caller = &mut callers[who];
            if caller.done.is_some() {
                continue;
            }
            let event = match caller.action {
                Action::Finish(outcome) => {
                    caller.done = Some((outcome, caller.request.value().clone()));
                    continue;
                }
                Action::Abort(_) => panic!("the request was given up"),
                Action::Acquire(resource, kind) => {
                    if !try_lock(&mut locks, &caller.request.path(resource), kind, who) {
                        continue;
                    }
                    Event::Done
                }
                Action::Release(resource) => {
                    unlock(&mut locks, &caller.request.path(resource), who);
                    Event::Done
                }
                Action::Generate => {
                    if caller.sleeping < 5 {
                        caller.sleeping += 1;
                        continue;
                    }
                    perform(&mut files, &caller.request, Action::Generate, &generator)
                }
                other => perform(&mut files, &caller.request, other, &generator),
            };
            caller.action = caller.request.advance(event);
        }
    }
    assert_eq!(files.generator_runs, 1);
    let generated = callers
        .iter()
        .filter(|caller| caller.done.as_ref().unwrap().0 == Outcome::Generated)
        .count();
    let cached =
        callers.iter().filter(|caller| caller.done.as_ref().unwrap().0 == Outcome::Cached).count();
    assert_eq!(generated, 1);
    assert_eq!(cached, 7);
    for caller in &callers {
        assert_eq!(caller.done.as_ref().unwrap().1, vec![4, 2]);
    }
    assert!(locks.exclusive.is_empty());
    assert!(locks.shared.values().all(|holders| holders.is_empty()));
}
