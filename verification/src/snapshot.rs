use vstd::prelude::*;
use crate::errors::Error;

verus! {

/// `SnapshotSink` receives a snapshot as it is written.
pub trait SnapshotSink {
    /// The id of the snapshot being written.
    fn id(&self) -> String;

    /// Abandons the snapshot.
    fn cancel(&self) -> Result<(), Error>;
}

/// `FSMSnapshot` is returned by an `FSM` in response to a snapshot request.
/// Its methods may be called while entries are being applied.
pub trait FSMSnapshot {
    /// `persist` should dump all necessary state to the `sink`,
    /// and call `sink.close` when finished or call `sink.cancel` on error.
    fn persist(&self, sink: Box<dyn SnapshotSink>) -> Result<(), Error>;

    /// `release` is invoked when we are finished with the snapshot.
    fn release(&self);
}

} // verus!
