//! Incremental multi-source synchronization engine.
//!
//! The engine pulls personal data (reading progress, highlights, bookmarks,
//! favorites) from a fixed set of external sources and pushes incremental
//! deltas to a remote backend. This crate holds the verified core: the
//! per-source state machine, the change-detection strategies, batching, the
//! session protocol that talks to the backend, and the scheduling decisions.
//! The unverified shell around it performs the actual I/O and hands the
//! engine plain values.

pub mod batch;
pub mod bookmarks;
pub mod classify;
pub mod clippings;
pub mod cookies;
pub mod detect;
pub mod hash;
pub mod manifest;
pub mod paging;
pub mod platform;
pub mod schedule;
pub mod session;
pub mod settings;
pub mod state;
pub mod strutil;
pub mod text;
pub mod time;
