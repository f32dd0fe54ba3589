use cache::lockfile::{
    read_or_initialize, FileAction, FileEvent, LockKind, Upgrade, UpgradePhase,
};

#[test]
fn exclusive_read_or_initialize() {
    let found = read_or_initialize(Some(5), || 9);
    assert_eq!(found.data, 5);
    assert!(!found.persist);
    let fresh = read_or_initialize(None, || 9);
    assert_eq!(fresh.data, 9);
    assert!(fresh.persist);
}

#[test]
fn shared_read_finds_content() {
    let state = Upgrade::new("initial".to_string());
    assert_eq!(state.pending(), FileAction::Read);
    assert_eq!(state.holds(), Some(LockKind::Shared));
    let (state, action) = state.advance(FileEvent::Content(Some("found".to_string())));
    assert_eq!(action, FileAction::Return);
    assert_eq!(state.phase, UpgradePhase::Finished);
    assert_eq!(state.finish(), Some("found".to_string()));
}

#[test]
fn shared_read_upgrades_to_initialize() {
    let mut state = Upgrade::new(7u32);
    let mut trace = Vec::new();
    let mut held = Vec::new();
    let events = [
        FileEvent::Content(None),
        FileEvent::Done,
        FileEvent::Done,
        FileEvent::Content(None),
        FileEvent::Done,
        FileEvent::Done,
        FileEvent::Done,
        FileEvent::Content(Some(7u32)),
    ];
    for event in events {
        let (next, action) = state.advance(event);
        state = next;
        trace.push(action);
        held.push(state.holds());
    }
    assert_eq!(
        trace,
        vec![
            FileAction::Unlock,
            FileAction::Lock(LockKind::Exclusive),
            FileAction::Read,
            FileAction::WriteInitial,
            FileAction::Unlock,
            FileAction::Lock(LockKind::Shared),
            FileAction::Read,
            FileAction::Return,
        ]
    );
    assert_eq!(
        held,
        vec![
            Some(LockKind::Shared),
            None,
            Some(LockKind::Exclusive),
            Some(LockKind::Exclusive),
            Some(LockKind::Exclusive),
            None,
            Some(LockKind::Shared),
            Some(LockKind::Shared),
        ]
    );
    assert_eq!(state.finish(), Some(7));
}

#[test]
fn shared_read_keeps_what_a_racer_wrote() {
    let state = Upgrade::new(1u32);
    let (state, _) = state.advance(FileEvent::Content(None));
    let (state, _) = state.advance(FileEvent::Done);
    let (state, _) = state.advance(FileEvent::Done);
    let (state, action) = state.advance(FileEvent::Content(Some(2)));
    assert_eq!(action, FileAction::Unlock);
    assert_eq!(state.phase, UpgradePhase::Downgrade);
    let (state, _) = state.advance(FileEvent::Done);
    let (state, _) = state.advance(FileEvent::Done);
    let (state, action) = state.advance(FileEvent::Content(Some(2)));
    assert_eq!(action, FileAction::Return);
    assert_eq!(state.finish(), Some(2));
}

#[test]
fn shared_read_falls_back_to_the_initial_content() {
    let state = Upgrade::new(1u32);
    assert_eq!(Upgrade::new(1u32).finish(), None);
    let (state, _) = state.advance(FileEvent::Content(None));
    let (state, _) = state.advance(FileEvent::Done);
    let (state, _) = state.advance(FileEvent::Done);
    let (state, _) = state.advance(FileEvent::Content(None));
    let (state, _) = state.advance(FileEvent::Done);
    let (state, _) = state.advance(FileEvent::Done);
    let (state, _) = state.advance(FileEvent::Done);
    let (state, action) = state.advance(FileEvent::Content(None));
    assert_eq!(action, FileAction::Return);
    assert_eq!(state.finish(), Some(1));
}

#[test]
fn shared_read_ignores_events_that_do_not_answer() {
    let state = Upgrade::new(1u32);
    let (state, action) = state.advance(FileEvent::Done);
    assert_eq!(action, FileAction::Read);
    assert_eq!(state.phase, UpgradePhase::Read);
    let (state, _) = state.advance(FileEvent::Content(None));
    let (state, action) = state.advance(FileEvent::Content(Some(3)));
    assert_eq!(action, FileAction::Unlock);
    assert_eq!(state.phase, UpgradePhase::Unlock);
    assert_eq!(state.found, None);
}
