//! Layered configuration for a single-tenant messaging bot.
//!
//! The crate resolves one immutable configuration value from an ordered
//! sequence of sources: an environment-style key/value file, a persisted
//! JSON snapshot, and a freshly generated default source.  Parsing of the
//! two textual formats, validated section loading, the fallback state
//! machine and the snapshot round trip are all specified and verified;
//! the thin shell around the library performs the actual file reads and
//! writes and feeds their outcomes back in as plain values.

pub mod bot;
pub mod config;
pub mod pipeline;
pub mod snapshot;
pub mod source;
pub mod text;
