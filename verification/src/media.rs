//! Decoded video units and feed-level faults, as the worker loop sees them.
//!
//! The camera-protocol client hands a worker batches whose items are either a
//! decoded video unit or a feed-level error. Nothing here decodes video: a
//! unit carries only what the lifecycle logic reads, a tag to track forwarding
//! order and whether the unit is a keyframe (a sink can only pause cleanly
//! once it has buffered one).

use vstd::prelude::*;

verus! {

/// One decoded video unit, as forwarded from a worker into an output sink.
#[derive(Clone, Copy, PartialEq, Eq, Structural, Debug)]
pub struct Frame {
    /// Distinguishes units so that forwarding order is observable.
    pub tag: u64,
    /// Whether this unit is a keyframe usable as a paused still.
    pub keyframe: bool,
}

/// A feed-level error surfaced by the camera-protocol data source in place of
/// a video unit.
#[derive(Clone, Copy, PartialEq, Eq, Structural, Debug)]
pub struct FeedFault {
    /// Which fault the data source reported.
    pub code: u32,
}

} // verus!
