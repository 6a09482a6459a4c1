//! Sandboxed multi-language build-and-run engine.
//!
//! The crate models how a source snippet tagged with a language code is
//! turned into an isolated, resource-capped, time-bounded container run:
//! per-language policy objects, the registry that resolves codes and tracks
//! availability, the deadline-polling runner, and the pipeline state machine
//! that guarantees cleanup on every exit path.

pub mod guilds;
pub mod lang_manager;
pub mod language;
pub mod langs;
pub mod logs;
pub mod pattern;
pub mod pipeline;
pub mod runner;
pub mod sanitize;
pub mod strutil;
