//! Automates lookup and creation of pull requests against a source-control
//! hosting API, cross-referencing branch names with an issue tracker to
//! produce human-readable summary lines.
//!
//! The crate holds the verified logic: issue-key extraction, branch
//! selection, query construction, title fallbacks, line rendering, and the
//! creation-mode session state machine. Network and console I/O live
//! outside, handing this library plain values and taking plain values back.

pub mod api;
pub mod config;
pub mod keys;
pub mod lookup;
pub mod render;
pub mod session;
pub mod summary;
pub mod text;
