use vstd::prelude::*;

verus! {

/// `DiscardSnapshotStore` is used to successfully snapshot while
/// always discarding the snapshot. This is useful for when the
/// log should be truncated but no snapshot should be retained.
/// This should never be used for production use, and is only
/// suitable for testing.
#[derive(Copy, Clone, Debug, Default)]
pub struct DiscardSnapshotStore;

/// `DiscardSnapshotSink` is used to fulfill the `SnapshotSink` interface
/// while always discarding the snapshot. This should never be used for
/// production use, and is only suitable for testing.
#[derive(Copy, Clone, Debug, Default)]
pub struct DiscardSnapshotSink;

} // verus!
