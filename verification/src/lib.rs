//! Download and verification of the assets that a Cargo workspace declares in
//! its `[package.metadata]` / `[workspace.metadata]` tables.
//!
//! The library holds the decisions: which assets a workspace declares, where
//! each one is stored, how a large download is split into byte ranges, which
//! progress events a task reports, and whether a file matches its SHA-256
//! checksum. Network, disk and terminal work is done by the caller, which feeds
//! the outcomes back in.
use vstd::prelude::*;

pub mod error;
pub mod progress;
pub mod text;
pub mod hashing;
pub mod metadata;
pub mod download;
pub mod direct;

verus! {

/// Size in bytes of the buffer used when streaming a file from disk.
pub const IO_BUFFER_SIZE: usize = 65536;

} // verus!
