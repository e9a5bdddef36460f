//! One-way mirroring of a directory tree: an ignore list of regular
//! expressions over bare entry names, a streaming SHA-1 content digest, the
//! per-file copy decision and the decisions of the depth-first walk.
//!
//! The filesystem work itself is done by the caller, which feeds what it
//! observed into the step functions here and performs the actions they return.

pub mod decision;
pub mod digest;
pub mod pattern;
pub mod walk;

pub use decision::{CopyEvent, CopyPhase, FileMeta, ModTime};
pub use digest::{digest_of, ContentHasher};

pub use pattern::{IgnorePattern, IgnoreSet, InvalidPattern};
pub use walk::{plan_entry, EntryAction, SyncCounters};
