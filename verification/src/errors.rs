//! Error values of the lifecycle controller.

use vstd::prelude::*;
use crate::ids::StreamId;
use crate::media::FeedFault;

verus! {

/// Why a worker terminated with a failure.
#[derive(Clone, Copy, PartialEq, Eq, Structural, Debug)]
pub enum WorkerError {
    /// The camera feed produced a fault in place of a video unit.
    Feed(FeedFault),
    /// The output sink rejected a forwarded video unit.
    Rejected,
}

/// The terminal result of one worker, observed by joining its thread.
#[derive(Clone, Copy, PartialEq, Eq, Structural, Debug)]
pub enum JoinOutcome {
    /// The worker ran to completion (cancellation observed, no error).
    Graceful,
    /// The worker terminated early with an explicit failure.
    Failed(WorkerError),
    /// The worker terminated abnormally without producing a result.
    Panicked,
}

/// Everything a lifecycle operation can report to its caller.
#[derive(PartialEq, Eq, Debug)]
pub enum StreamError {
    /// The configured placeholder-paused mode is not one of the known values;
    /// a configuration error surfaced before anything is touched.
    UnknownPauseMode,
    /// The streaming-server registry refused to register this path.
    PathRejected { path: String },
    /// The streaming-server registry refused to unregister this path.
    UnregisterFailed { path: String },
    /// A joined worker had terminated with an explicit failure.
    Worker { stream: StreamId, err: WorkerError },
    /// A joined worker had terminated abnormally.
    Panicked { stream: StreamId },
    /// An output sink could not be converted to exclusive ownership because
    /// another holder of the shared handle still exists.
    OutputHeld,
}

} // verus!
