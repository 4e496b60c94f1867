//! Cross-platform file metadata, process lookup, and the plain dialogue
//! and notification descriptors their platform renderers consume.
//!
//! The library models the two native metadata designs found on desktop
//! operating systems: a bitmask-based one (attributes are a single flag word,
//! timestamps are written through a file handle) and a POSIX convention-based
//! one (a file is hidden by a leading dot in its name, read-only through the
//! permission bits, and timestamps are applied by an external touch utility).
//! All decisions are made on explicit state values, so every rule is checked
//! by the verifier; the thin binding to the live operating system stays with
//! the caller.

pub mod attribute;
pub mod dialogue;
pub mod error;
pub mod messagebox;
pub mod notification;
pub mod processes;
pub mod state;
pub mod store;
pub mod time;
