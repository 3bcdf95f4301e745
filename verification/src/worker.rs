//! The per-stream worker, as the controller records it, and the forwarding
//! step its loop performs on every fetched batch.
//!
//! A worker is one dedicated thread pulling decoded video units from the
//! camera-protocol client and forwarding them into its sub-stream's output
//! sink until cancellation is observed. The thread itself runs with the
//! embedding program; here stand its record in the controller's registry and
//! the verified forwarding step: the thread's loop checks the cancellation
//! token, fetches one batch (a blocking call), runs [`forward_batch`] under
//! the sink's lock, and yields through a backoff before the next check.

use vstd::prelude::*;
use crate::errors::WorkerError;
use crate::ids::StreamId;
use crate::media::{FeedFault, Frame};
use crate::sink::Outputs;

verus! {

/// The controller's record of one running worker.
#[derive(Clone, Copy, PartialEq, Eq, Structural, Debug)]
pub struct Worker {
    /// The sub-stream this worker forwards.
    pub stream: StreamId,
    /// Whether the thread has been observed to have terminated.
    pub finished: bool,
}

impl Worker {
    /// The record of a freshly spawned worker.
    pub fn spawn(stream: StreamId) -> (r: Worker)
        ensures
            r == (Worker { stream, finished: false }),
    {
        Worker { stream, finished: false }
    }
}

/// Forward one fetched batch into the sink, in fetch order.
///
/// Each item is taken in order: a feed-level fault terminates the batch with
/// that fault; otherwise the unit is forwarded into the sink, and a rejection
/// terminates the batch at once, without forwarding the remainder. What
/// reaches the sink is exactly the longest prefix of units before the first
/// failure, in fetch order; nothing is reordered or retried.
#[verifier::loop_isolation(false)]
pub fn forward_batch(out: &mut Outputs, batch: Vec<Result<Frame, FeedFault>>) -> (r: Result<
    (),
    WorkerError,
>)
    ensures
        final(out).paused_source == old(out).paused_source,
        final(out).input_source == old(out).input_source,
        final(out).connected == old(out).connected,
        final(out).accepting == old(out).accepting,
        (old(out).accepting && (forall|i: int| 0 <= i < batch@.len() ==> batch@[i] is Ok)) ==> {
            &&& r is Ok
            &&& final(out).received@ == old(out).received@ + Seq::new(
                batch@.len(),
                |i: int| batch@[i]->Ok_0,
            )
            &&& final(out).has_iframe == (old(out).has_iframe || exists|i: int|
                0 <= i < batch@.len() && (#[trigger] batch@[i])->Ok_0.keyframe)
        },
        (old(out).accepting && (exists|i: int| 0 <= i < batch@.len() && batch@[i] is Err)) ==> (
        exists|i: int|
            {
                &&& 0 <= i < batch@.len()
                &&& batch@[i] is Err
                &&& (forall|j: int| 0 <= j < i ==> batch@[j] is Ok)
                &&& r == Err::<(), WorkerError>(WorkerError::Feed(batch@[i]->Err_0))
                &&& final(out).received@ == old(out).received@ + Seq::new(
                    i as nat,
                    |k: int| batch@[k]->Ok_0,
                )
                &&& final(out).has_iframe == (old(out).has_iframe || exists|k: int|
                    0 <= k < i && (#[trigger] batch@[k])->Ok_0.keyframe)
            }),
        !old(out).accepting ==> {
            &&& *final(out) == *old(out)
            &&& (batch@.len() == 0 ==> r is Ok)
            &&& (batch@.len() > 0 && batch@[0] is Err ==> r == Err::<(), WorkerError>(
                WorkerError::Feed(batch@[0]->Err_0),
            ))
            &&& (batch@.len() > 0 && batch@[0] is Ok ==> r == Err::<(), WorkerError>(
                WorkerError::Rejected,
            ))
        },
{
    let mut i: usize = 0;
    while i < batch.len()
        invariant
            0 <= i <= batch@.len(),
            forall|j: int| 0 <= j < i ==> batch@[j] is Ok,
            out.paused_source == old(out).paused_source,
            out.input_source == old(out).input_source,
            out.connected == old(out).connected,
            out.accepting == old(out).accepting,
            out.received@ == old(out).received@ + Seq::new(i as nat, |k: int| batch@[k]->Ok_0),
            out.has_iframe == (old(out).has_iframe || exists|k: int|
                0 <= k < i && (#[trigger] batch@[k])->Ok_0.keyframe),
            !old(out).accepting ==> i == 0 && *out == *old(out),
        decreases batch@.len() - i,
    {
        match batch[i] {
            Err(fault) => {
                return Err(WorkerError::Feed(fault));
            },
            Ok(frame) => {
                let res = out.stream_recv(frame);
                if let Err(e) = res {
                    return Err(e);
                }
                proof {
                    assert(out.received@ =~= old(out).received@ + Seq::new(
                        i as nat + 1,
                        |k: int| batch@[k]->Ok_0,
                    ));
                }
            },
        }
        i += 1;
    }
    Ok(())
}

} // verus!
