//! The output sink for one sub-stream, and its shared handle.
//!
//! A sink is the live destination a worker forwards decoded video units into.
//! The media pipeline behind it is external; what the lifecycle logic reads
//! and writes of a sink is plain state: the selected placeholder-paused mode,
//! the live/paused input selection, whether a downstream client is attached,
//! whether a keyframe is buffered, whether the pipeline is currently accepting
//! units, and the units forwarded so far, in order. The embedding program
//! keeps this record beside the real pipeline and mirrors the pipeline's
//! externally determined bits (`connected`, `accepting`) into it.
//!
//! While a worker runs, its sink is shared between the controller's registry
//! and that worker. [`SharedOutputs`] models that sharing with an explicit
//! holder count, so converting a sink back to exclusive ownership is a checked
//! operation that fails while another holder remains, rather than blocking or
//! panicking.

use vstd::prelude::*;
use crate::errors::{StreamError, WorkerError};
use crate::media::Frame;

verus! {

/// What a sink shows while its input is paused: a synthetic test pattern, the
/// last still, solid black, or nothing.
#[derive(Clone, Copy, PartialEq, Eq, Structural, Debug)]
pub enum PausedSources {
    TestSrc,
    Still,
    Black,
    NoSource,
}

/// Which input a sink currently plays out: the live feed or the placeholder.
#[derive(Clone, Copy, PartialEq, Eq, Structural, Debug)]
pub enum InputMode {
    Live,
    Paused,
}

/// The state of one sub-stream's output sink.
#[derive(PartialEq, Eq, Debug)]
pub struct Outputs {
    /// The placeholder-paused mode selected for this sink, once one has been.
    pub paused_source: Option<PausedSources>,
    /// Whether the sink plays the live feed or the placeholder.
    pub input_source: InputMode,
    /// Whether a downstream client is attached. Determined externally.
    pub connected: bool,
    /// Whether a usable keyframe is buffered; set once a keyframe arrives.
    pub has_iframe: bool,
    /// Whether the pipeline accepts forwarded units. Determined externally.
    pub accepting: bool,
    /// Every video unit forwarded into this sink, in forwarding order.
    pub received: Vec<Frame>,
}

impl Outputs {
    /// A freshly registered sink: paused, unconfigured placeholder, no client,
    /// no keyframe, accepting input, nothing received.
    pub fn new() -> (r: Outputs)
        ensures
            r.paused_source is None,
            r.input_source == InputMode::Paused,
            !r.connected,
            !r.has_iframe,
            r.accepting,
            r.received@ == Seq::<Frame>::empty(),
    {
        Outputs {
            paused_source: None,
            input_source: InputMode::Paused,
            connected: false,
            has_iframe: false,
            accepting: true,
            received: Vec::new(),
        }
    }

    /// Select the placeholder shown while this sink is paused.
    pub fn set_paused_source(&mut self, mode: PausedSources)
        ensures
            final(self).paused_source == Some(mode),
            final(self).input_source == old(self).input_source,
            final(self).connected == old(self).connected,
            final(self).has_iframe == old(self).has_iframe,
            final(self).accepting == old(self).accepting,
            final(self).received == old(self).received,
    {
        self.paused_source = Some(mode);
    }

    /// Switch the sink between the live feed and the placeholder.
    pub fn set_input_source(&mut self, mode: InputMode)
        ensures
            final(self).input_source == mode,
            final(self).paused_source == old(self).paused_source,
            final(self).connected == old(self).connected,
            final(self).has_iframe == old(self).has_iframe,
            final(self).accepting == old(self).accepting,
            final(self).received == old(self).received,
    {
        self.input_source = mode;
    }

    /// Forward one decoded video unit into the sink.
    ///
    /// While the pipeline accepts input the unit is appended to the record, in
    /// order, and a keyframe marks the sink pausable. A sink that is not
    /// accepting rejects the unit unchanged.
    pub fn stream_recv(&mut self, frame: Frame) -> (r: Result<(), WorkerError>)
        ensures
            old(self).accepting ==> {
                &&& r is Ok
                &&& final(self).received@ == old(self).received@.push(frame)
                &&& final(self).has_iframe == (old(self).has_iframe || frame.keyframe)
            },
            !old(self).accepting ==> r == Err::<(), WorkerError>(WorkerError::Rejected)
                && *final(self) == *old(self),
            final(self).paused_source == old(self).paused_source,
            final(self).input_source == old(self).input_source,
            final(self).connected == old(self).connected,
            final(self).accepting == old(self).accepting,
    {
        if !self.accepting {
            return Err(WorkerError::Rejected);
        }
        if frame.keyframe {
            self.has_iframe = true;
        }
        self.received.push(frame);
        Ok(())
    }

    /// Whether a downstream client is attached to this sink.
    pub fn is_connected(&self) -> (r: bool)
        ensures
            r == self.connected,
    {
        self.connected
    }

    /// Whether a usable keyframe is buffered, so the sink can pause without
    /// visual disruption.
    pub fn has_last_iframe(&self) -> (r: bool)
        ensures
            r == self.has_iframe,
    {
        self.has_iframe
    }
}

/// A sink handle shared between the controller's registry and at most the one
/// worker currently forwarding into it.
///
/// `holders` counts the holders beside the registry itself: spawning a worker
/// shares the handle, joining it releases the share. Extracting the sink into
/// exclusive ownership succeeds only when no other holder remains.
pub struct SharedOutputs {
    /// The sink state itself.
    pub inner: Outputs,
    /// Holders beside the registry. Maintained only by `wrap`, `share` and
    /// `release`; the controller keeps it equal to the number of live workers
    /// bound to this sink.
    pub holders: u32,
}

impl SharedOutputs {
    /// Wrap an exclusively owned sink into a shared handle with no other
    /// holder.
    pub fn wrap(inner: Outputs) -> (r: SharedOutputs)
        ensures
            r.inner == inner,
            r.holders == 0,
    {
        SharedOutputs { inner, holders: 0 }
    }

    /// Record one more holder of this handle (a worker being handed it).
    pub fn share(&mut self)
        requires
            old(self).holders < u32::MAX,
        ensures
            final(self).holders == old(self).holders + 1,
            final(self).inner == old(self).inner,
    {
        self.holders = self.holders + 1;
    }

    /// Record that one holder is gone (a worker that was joined).
    pub fn release(&mut self)
        requires
            old(self).holders > 0,
        ensures
            final(self).holders == old(self).holders - 1,
            final(self).inner == old(self).inner,
    {
        self.holders = self.holders - 1;
    }

    /// Convert the shared handle back into an exclusively owned sink.
    ///
    /// Fails, handing nothing over, while another holder of the handle still
    /// exists; it never blocks or panics on that account.
    pub fn into_inner(self) -> (r: Result<Outputs, StreamError>)
        ensures
            self.holders == 0 ==> r == Ok::<Outputs, StreamError>(self.inner),
            self.holders != 0 ==> r == Err::<Outputs, StreamError>(StreamError::OutputHeld),
    {
        if self.holders == 0 {
            Ok(self.inner)
        } else {
            Err(StreamError::OutputHeld)
        }
    }
}

} // verus!
