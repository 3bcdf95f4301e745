//! Lifecycle controller for relaying a camera's video sub-streams into
//! externally reachable media endpoints.
//!
//! The controller owns one output sink per configured sub-stream, one
//! cooperative cancellation token shared with all workers, and a registry of
//! the workers currently forwarding video units. It is driven by an outer
//! state machine through `setup` (activate) and `tear_down` (deactivate), and
//! can hand its sinks over to a sibling state through `take_outputs` /
//! `insert_outputs`.
//!
//! Everything that talks to the outside world (the streaming-server registry's
//! accept/reject decisions, the camera feed's batches, each worker thread's
//! join outcome) enters this crate as plain values, so the whole lifecycle
//! logic is verified; the thread and I/O plumbing lives with the embedding
//! program.

pub mod config;
pub mod errors;
pub mod ids;
pub mod laws;
pub mod media;
pub mod registry;
pub mod sink;
pub mod stream_map;
pub mod streaming;
pub mod token;
pub mod worker;
