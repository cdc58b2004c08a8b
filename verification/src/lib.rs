//! A capability bridge for Firebase Cloud Messaging (FCM) operations.
//!
//! The bridge exposes a fixed set of messaging operations — token retrieval,
//! topic subscription, permission checks, and last-message retrieval —
//! uniformly, whatever platform variant the host application was built for.
//! Desktop builds reject every operation; mobile builds without a wired
//! native layer reject every operation; builds with native support forward
//! each operation to the native collaborator and normalize its answer into
//! a single error taxonomy.

use vstd::prelude::*;

pub mod bridge;
pub mod desktop;
pub mod error;
pub mod laws;
pub mod mobile;
pub mod native;
pub mod ops;

verus! {

/// Process-wide entry hook that mobile plugin hosts expect to call once.
/// The bridge keeps no process-level state, so there is nothing to set up.
pub fn run() {
}

} // verus!
