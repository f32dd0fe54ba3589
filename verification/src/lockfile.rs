//! The rules of a lock-protected file.
//!
//! A file is held either exclusively, by one process that may read and write
//! it, or shared, by any number of processes that may only read it. Turning
//! one kind of hold into the other releases the lock and takes the other one:
//! between the two, nothing is held and another process may change the file.
//!
//! The functions here decide; the caller opens, locks, reads and writes.
use vstd::prelude::*;

verus! {

/// The two kinds of lock on a file.
#[derive(Clone, Copy, Debug, PartialEq, Eq, Structural)]
pub enum LockKind {
    /// No other process holds the file in any way.
    Exclusive,
    /// Other processes may hold the file too, but none exclusively.
    Shared,
}

/// How the content of a file is encoded.
#[derive(Clone, Copy, Debug, PartialEq, Eq, Structural)]
pub enum Format {
    /// Human-readable structured text, used for manifests.
    Toml,
    /// Compact binary, used for values.
    Binary,
}

/// What `read_or_initialize` hands back for a file that is held exclusively.
pub struct Loaded<T> {
    /// The content of the file after the call.
    pub data: T,
    /// Whether `data` is new and has to be written to the file.
    pub persist: bool,
}

/// Decides what an exclusively held file contains, given what was read from
/// it: content that could be read stands; a file that is empty, new or
/// unreadable gets the initial content, which is then to be written.
pub fn read_or_initialize<T, F: FnOnce() -> T>(found: Option<T>, initialize: F) -> (loaded: Loaded<T>)
    requires
        initialize.requires(()),
    ensures
        match found {
            Some(data) => loaded.data == data && !loaded.persist,
            None => initialize.ensures((), loaded.data) && loaded.persist,
        },
{
    match found {
        Some(data) => Loaded { data, persist: false },
        None => Loaded { data: initialize(), persist: true },
    }
}

/// What the holder of a shared lock is asked to do next while it reads or
/// initializes the file.
#[derive(Clone, Copy, Debug, PartialEq, Eq, Structural)]
pub enum FileAction {
    /// Read and decode the file.
    Read,
    /// Release the lock that is held.
    Unlock,
    /// Take a lock of the given kind, waiting for it.
    Lock(LockKind),
    /// Write the initial content to the file.
    WriteInitial,
    /// The content is settled; nothing is left to do.
    Return,
}

/// What the caller reports after an action.
pub enum FileEvent<T> {
    /// A lock was taken or released, or the content was written.
    Done,
    /// The file was read: its content, or nothing if it is empty, new or
    /// unreadable.
    Content(Option<T>),
}

/// The steps of reading or initializing a file that is held shared.
#[derive(Clone, Copy, Debug, PartialEq, Eq, Structural)]
pub enum UpgradePhase {
    /// Reading under the shared lock.
    Read,
    /// Releasing the shared lock.
    Unlock,
    /// Waiting for the exclusive lock; nothing is held.
    LockExclusive,
    /// Reading again under the exclusive lock.
    Recheck,
    /// Writing the initial content under the exclusive lock.
    Write,
    /// Releasing the exclusive lock.
    Downgrade,
    /// Waiting for a fresh shared lock; nothing is held.
    LockShared,
    /// Reading under the fresh shared lock.
    Reread,
    /// The content is settled.
    Finished,
}

/// Reading or initializing a file that is held shared. Initializing needs
/// the exclusive lock, so the shared one is given up first; what another
/// process wrote in between is found by reading again, and stands.
pub struct Upgrade<T> {
    /// The step that is under way.
    pub phase: UpgradePhase,
    /// The content to initialize the file with.
    pub initial: T,
    /// The content that was read last, if any could be read.
    pub found: Option<T>,
}

/// The lock that is held during a phase.
pub open spec fn upgrade_holds(phase: UpgradePhase) -> Option<LockKind> {
    match phase {
        UpgradePhase::Read | UpgradePhase::Unlock => Some(LockKind::Shared),
        UpgradePhase::LockExclusive | UpgradePhase::LockShared => None,
        UpgradePhase::Recheck | UpgradePhase::Write | UpgradePhase::Downgrade => Some(
            LockKind::Exclusive,
        ),
        UpgradePhase::Reread | UpgradePhase::Finished => Some(LockKind::Shared),
    }
}

/// The action that a phase waits for.
pub open spec fn upgrade_pending(phase: UpgradePhase) -> FileAction {
    match phase {
        UpgradePhase::Read | UpgradePhase::Recheck | UpgradePhase::Reread => FileAction::Read,
        UpgradePhase::Unlock | UpgradePhase::Downgrade => FileAction::Unlock,
        UpgradePhase::LockExclusive => FileAction::Lock(LockKind::Exclusive),
        UpgradePhase::LockShared => FileAction::Lock(LockKind::Shared),
        UpgradePhase::Write => FileAction::WriteInitial,
        UpgradePhase::Finished => FileAction::Return,
    }
}

/// The phase that follows when `present` tells whether the file could be
/// read (for a phase that reads) and the pending action was carried out.
pub open spec fn upgrade_next(phase: UpgradePhase, present: bool) -> UpgradePhase {
    match phase {
        UpgradePhase::Read => if present {
            UpgradePhase::Finished
        } else {
            UpgradePhase::Unlock
        },
        UpgradePhase::Unlock => UpgradePhase::LockExclusive,
        UpgradePhase::LockExclusive => UpgradePhase::Recheck,
        UpgradePhase::Recheck => if present {
            UpgradePhase::Downgrade
        } else {
            UpgradePhase::Write
        },
        UpgradePhase::Write => UpgradePhase::Downgrade,
        UpgradePhase::Downgrade => UpgradePhase::LockShared,
        UpgradePhase::LockShared => UpgradePhase::Reread,
        UpgradePhase::Reread => UpgradePhase::Finished,
        UpgradePhase::Finished => UpgradePhase::Finished,
    }
}

/// Whether an event answers the action that a phase waits for.
pub open spec fn upgrade_answers<T>(phase: UpgradePhase, event: FileEvent<T>) -> bool {
    match upgrade_pending(phase) {
        FileAction::Read => event is Content,
        FileAction::Return => false,
        _ => event is Done,
    }
}

/// The state after an event. An event that does not answer the pending
/// action changes nothing.
pub open spec fn upgrade_step<T>(state: Upgrade<T>, event: FileEvent<T>) -> Upgrade<T> {
    if !upgrade_answers(state.phase, event) {
        state
    } else {
        match event {
            FileEvent::Done => Upgrade {
                phase: upgrade_next(state.phase, false),
                initial: state.initial,
                found: state.found,
            },
            FileEvent::Content(content) => Upgrade {
                phase: upgrade_next(state.phase, content is Some),
                initial: state.initial,
                found: content,
            },
        }
    }
}

/// The lock discipline of the protocol, for every state and event: the file
/// is read only while a lock is held and written only while the exclusive
/// lock is held; a lock is taken only while none is held; and carrying out
/// the pending action leads to a phase that holds what the action left.
pub proof fn lemma_upgrade_discipline<T>(state: Upgrade<T>, event: FileEvent<T>)
    ensures
        ({
            let pending = upgrade_pending(state.phase);
            let after = upgrade_step(state, event);
            &&& pending == FileAction::Read ==> upgrade_holds(state.phase) is Some
            &&& pending == FileAction::WriteInitial ==> upgrade_holds(state.phase) == Some(
                LockKind::Exclusive,
            )
            &&& pending is Lock ==> upgrade_holds(state.phase) is None
            &&& pending == FileAction::Unlock ==> upgrade_holds(state.phase) is Some
            &&& pending == FileAction::Return ==> upgrade_holds(state.phase) == Some(
                LockKind::Shared,
            )
            &&& upgrade_answers(state.phase, event) ==> match pending {
                FileAction::Lock(kind) => upgrade_holds(after.phase) == Some(kind),
                FileAction::Unlock => upgrade_holds(after.phase) is None,
                _ => upgrade_holds(after.phase) == upgrade_holds(state.phase),
            }
        }),
{
}

/// The file is initialized only after it was found unreadable twice: once
/// under the shared lock and once more under the exclusive lock.
pub proof fn lemma_upgrade_initializes_after_recheck<T>(state: Upgrade<T>, event: FileEvent<T>)
    requires
        upgrade_step(state, event).phase == UpgradePhase::Write,
        state.phase != UpgradePhase::Write,
    ensures
        state.phase == UpgradePhase::Recheck,
        event == FileEvent::<T>::Content(None),
{
}

impl<T> Upgrade<T> {
    /// Begins with the shared lock held and `initial` as the content to fall
    /// back on. The first action is to read the file.
    pub fn new(initial: T) -> (state: Self)
        ensures
            state == (Upgrade { phase: UpgradePhase::Read, initial, found: None }),
    {
        Upgrade { phase: UpgradePhase::Read, initial, found: None }
    }

    /// The action that is waited for.
    pub fn pending(&self) -> (action: FileAction)
        ensures
            action == upgrade_pending(self.phase),
    {
        match self.phase {
            UpgradePhase::Read | UpgradePhase::Recheck | UpgradePhase::Reread => FileAction::Read,
            UpgradePhase::Unlock | UpgradePhase::Downgrade => FileAction::Unlock,
            UpgradePhase::LockExclusive => FileAction::Lock(LockKind::Exclusive),
            UpgradePhase::LockShared => FileAction::Lock(LockKind::Shared),
            UpgradePhase::Write => FileAction::WriteInitial,
            UpgradePhase::Finished => FileAction::Return,
        }
    }

    /// The lock that is held now.
    pub fn holds(&self) -> (kind: Option<LockKind>)
        ensures
            kind == upgrade_holds(self.phase),
    {
        match self.phase {
            UpgradePhase::Read | UpgradePhase::Unlock => Some(LockKind::Shared),
            UpgradePhase::LockExclusive | UpgradePhase::LockShared => None,
            UpgradePhase::Recheck | UpgradePhase::Write | UpgradePhase::Downgrade => Some(
                LockKind::Exclusive,
            ),
            UpgradePhase::Reread | UpgradePhase::Finished => Some(LockKind::Shared),
        }
    }

    /// Takes in what the caller reports and returns the next action.
    pub fn advance(self, event: FileEvent<T>) -> (next: (Self, FileAction))
        ensures
            next.0 == upgrade_step(self, event),
            next.1 == upgrade_pending(next.0.phase),
    {
        let Upgrade { phase, initial, found } = self;
        let state = match event {
            FileEvent::Done => {
                let after = match phase {
                    UpgradePhase::Unlock => UpgradePhase::LockExclusive,
                    UpgradePhase::LockExclusive => UpgradePhase::Recheck,
                    UpgradePhase::Write => UpgradePhase::Downgrade,
                    UpgradePhase::Downgrade => UpgradePhase::LockShared,
                    UpgradePhase::LockShared => UpgradePhase::Reread,
                    other => other,
                };
                Upgrade { phase: after, initial, found }
            },
            FileEvent::Content(content) => {
                let present = content.is_some();
                match phase {
                    UpgradePhase::Read => Upgrade {
                        phase: if present {
                            UpgradePhase::Finished
                        } else {
                            UpgradePhase::Unlock
                        },
                        initial,
                        found: content,
                    },
                    UpgradePhase::Recheck => Upgrade {
                        phase: if present {
                            UpgradePhase::Downgrade
                        } else {
                            UpgradePhase::Write
                        },
                        initial,
                        found: content,
                    },
                    UpgradePhase::Reread => Upgrade {
                        phase: UpgradePhase::Finished,
                        initial,
                        found: content,
                    },
                    other => Upgrade { phase: other, initial, found },
                }
            },
        };
        let action = state.pending();
        (state, action)
    }

    /// The settled content, once the protocol has finished: what was read
    /// last, or the initial content where the last read found nothing.
    pub fn finish(self) -> (data: Option<T>)
        ensures
            data == (if self.phase == UpgradePhase::Finished {
                Some(
                    match self.found {
                        Some(found) => found,
                        None => self.initial,
                    },
                )
            } else {
                None
            }),
    {
        match self.phase {
            UpgradePhase::Finished => match self.found {
                Some(found) => Some(found),
                None => Some(self.initial),
            },
            _ => None,
        }
    }
}

} // verus!
