//! A persistent memoization cache whose coordination state lives in
//! lock-protected manifest files.
//!
//! The library holds the decisions of the cache: how identifiers and keys are
//! turned into path segments, what the manifests record, and which step a
//! request takes next. Opening, locking, reading and writing files is left to
//! the caller, which performs each [`disk::Action`] and reports back an
//! [`disk::Event`].
pub mod digest;
pub mod disk;
pub mod error;
pub mod handle;
pub mod layout;
pub mod lockfile;
pub mod manifest;
pub mod mem;
pub mod model;
pub mod polygon;

pub use disk::DiskCache;
pub use error::Error;
pub use handle::{CacheHandle, Cacheable, CacheableWithState};
