//! Session/cache-backed fetch-and-submit workflow for a daily-puzzle web
//! service.
//!
//! The library holds the decision logic of the tool: when a fetch is served
//! from the local cache versus the network, when a response body may be
//! persisted, how request locations and cache file names are derived from a
//! puzzle coordinate, how the stored session credential is validated, and how
//! the answer fragment is extracted from a submission response and rendered.
//! The surrounding binary performs the filesystem and network calls and hands
//! this library plain values.

pub mod credential;
pub mod decode;
pub mod errors;
pub mod extract;
pub mod lines;
pub mod locator;
pub mod numerals;
pub mod render;
pub mod schedule;
pub mod search;
pub mod workflow;
