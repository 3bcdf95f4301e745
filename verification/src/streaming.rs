//! The streaming lifecycle controller.
//!
//! The controller owns the registry of output sinks (`outputs`), the registry
//! of running workers (`handles`), and the cancellation token all current
//! workers share. Activation (`setup`) lazily creates or reuses the sinks,
//! resets the token, and records one worker per configured sub-stream;
//! deactivation (`tear_down`) signals cancellation, unregisters the camera's
//! paths, and joins every recorded worker, surfacing the first failure.
//! `take_outputs` and `insert_outputs` transfer the sinks to and from a
//! sibling lifecycle state.
//!
//! Everything the outside world decides enters as a value: the registry's
//! dispositions sit in [`Registry`], and each worker thread's terminal result
//! is handed in as a [`JoinOutcome`] by the embedding program, which obtains
//! it by actually joining the thread.
//!
//! Activating a sub-stream that already has a recorded worker records
//! nothing new and leaves the running worker alone, so no second concurrent
//! writer into one sink can arise from repeated activation. Activation fails
//! fast: when the server rejects a path, no worker is recorded at all; sinks
//! and registrations made for earlier sub-streams of the same call are
//! retained for reuse or extraction, not rolled back.

use vstd::prelude::*;
use crate::config::{paused_source_of, parse_paused_source, Config};
use crate::errors::{JoinOutcome, StreamError};
use crate::ids::StreamId;
use crate::registry::{lemma_remove_seq_snoc, remove_seq, Registry};
use crate::sink::{InputMode, Outputs, PausedSources, SharedOutputs};
use crate::stream_map::StreamMap;
use crate::token::AbortHandle;
use crate::worker::Worker;

verus! {

/// A sink as the registry hands it out, with the placeholder applied: nothing
/// attached, nothing buffered, accepting, nothing received yet.
pub open spec fn is_fresh_sink(o: Outputs, ps: PausedSources) -> bool {
    &&& o.paused_source == Some(ps)
    &&& !o.connected
    &&& !o.has_iframe
    &&& o.accepting
    &&& o.received@ == Seq::<crate::media::Frame>::empty()
}

/// `post` is `pre` with its input switched to the live feed and nothing else
/// changed.
pub open spec fn same_sink_live(post: Outputs, pre: Outputs) -> bool {
    &&& post.paused_source == pre.paused_source
    &&& post.input_source == InputMode::Live
    &&& post.connected == pre.connected
    &&& post.has_iframe == pre.has_iframe
    &&& post.accepting == pre.accepting
    &&& post.received == pre.received
}

/// What joining the worker of sub-stream `k` reports: nothing when no worker
/// is recorded or it completed cleanly, otherwise the surfaced error.
pub open spec fn join_outcome_err(
    k: StreamId,
    w: Map<StreamId, Worker>,
    joins: Map<StreamId, JoinOutcome>,
) -> Option<StreamError> {
    if w.dom().contains(k) {
        match joins[k] {
            JoinOutcome::Graceful => None,
            JoinOutcome::Failed(err) => Some(StreamError::Worker { stream: k, err }),
            JoinOutcome::Panicked => Some(StreamError::Panicked { stream: k }),
        }
    } else {
        None
    }
}

/// The first failure a join sequence over the worker registry surfaces, in
/// the fixed sub-stream order.
pub open spec fn first_join_error(
    w: Map<StreamId, Worker>,
    joins: Map<StreamId, JoinOutcome>,
) -> Option<StreamError> {
    if join_outcome_err(StreamId::Main, w, joins) is Some {
        join_outcome_err(StreamId::Main, w, joins)
    } else if join_outcome_err(StreamId::Sub, w, joins) is Some {
        join_outcome_err(StreamId::Sub, w, joins)
    } else {
        join_outcome_err(StreamId::Extern, w, joins)
    }
}

/// What a successful activation leaves behind.
///
/// With an empty output registry the sinks are created afresh — one per
/// configured sub-stream, registered with the server, carrying the resolved
/// placeholder mode — and every configured path is appended to the server's
/// registrations, in configuration order. With a non-empty registry the
/// existing sinks are reused unmodified and nothing is registered anew.
/// Either way every sink's input is live, every sub-stream with a sink has a
/// worker recorded, a worker already recorded is left exactly as it was, and
/// a newly recorded one is fresh.
pub open spec fn activate_ok(
    pre: Streaming,
    post: Streaming,
    cfg: Config,
    reg_pre: Registry,
    reg_post: Registry,
) -> bool {
    &&& post.live()
    &&& reg_post.same_dispositions(&reg_pre)
    &&& (if pre.sinks().dom() == Set::<StreamId>::empty() {
        &&& post.sinks().dom() == cfg.stream_set()
        &&& reg_post.registered.deep_view() == reg_pre.registered.deep_view() + cfg.flat_paths()
        &&& (cfg.streams@.len() > 0 ==> reg_post.users.deep_view()
            == cfg.permitted_users.deep_view())
        &&& (cfg.streams@.len() == 0 ==> reg_post.users == reg_pre.users)
        &&& forall|k: StreamId|
            #[trigger] post.sinks().dom().contains(k) ==> is_fresh_sink(
                post.sinks()[k].inner,
                paused_source_of(cfg.pause_mode@).unwrap(),
            ) && post.sinks()[k].inner.input_source == InputMode::Live
    } else {
        &&& post.sinks().dom() == pre.sinks().dom()
        &&& reg_post.registered == reg_pre.registered
        &&& reg_post.users == reg_pre.users
        &&& forall|k: StreamId|
            #[trigger] post.sinks().dom().contains(k) ==> same_sink_live(
                post.sinks()[k].inner,
                pre.sinks()[k].inner,
            )
    })
    &&& post.workers().dom() == post.sinks().dom()
    &&& forall|k: StreamId|
        #[trigger] pre.workers().dom().contains(k) ==> post.workers()[k] == pre.workers()[k]
    &&& forall|k: StreamId|
        post.workers().dom().contains(k) && !pre.workers().dom().contains(k) ==> post.workers()[k]
            == (Worker { stream: k, finished: false })
}

/// What blocks an activation: only a first-time activation (empty output
/// registry) can fail, on an unrecognized placeholder mode or on a server
/// refusing a configured path.
pub open spec fn activate_blocked(pre: Streaming, cfg: Config, reg: Registry) -> bool {
    pre.sinks().dom() == Set::<StreamId>::empty() && (paused_source_of(cfg.pause_mode@) is None
        || exists|i: int|
        0 <= i < cfg.streams@.len() && reg.any_add_rejected(
            #[trigger] cfg.paths_of(cfg.streams@[i]),
        ))
}

/// The streaming state's controller.
pub struct Streaming {
    handles: StreamMap<Worker>,
    outputs: StreamMap<SharedOutputs>,
    abort_handle: AbortHandle,
}

impl Streaming {
    /// The worker registry: which sub-streams have a recorded worker.
    pub closed spec fn workers(&self) -> Map<StreamId, Worker> {
        self.handles@
    }

    /// The output registry: which sub-streams have a sink, and its state.
    pub closed spec fn sinks(&self) -> Map<StreamId, SharedOutputs> {
        self.outputs@
    }

    /// Whether the shared cancellation token is live.
    pub closed spec fn live(&self) -> bool {
        self.abort_handle.spec_live()
    }

    /// The controller's invariant: every recorded worker has a sink and is
    /// bound to its own sub-stream, and each sink is shared with exactly its
    /// recorded worker, no one else.
    pub open spec fn wf(&self) -> bool {
        &&& forall|k: StreamId|
            #[trigger] self.workers().dom().contains(k) ==> self.sinks().dom().contains(k)
                && self.workers()[k].stream == k
        &&& forall|k: StreamId|
            #[trigger] self.sinks().dom().contains(k) ==> self.sinks()[k].holders == (
            if self.workers().dom().contains(k) {
                1u32
            } else {
                0u32
            })
    }

    /// Running means: no recorded worker has terminated, and the token is
    /// live.
    pub open spec fn is_running_spec(&self) -> bool {
        self.live() && forall|k: StreamId|
            #[trigger] self.workers().dom().contains(k) ==> !self.workers()[k].finished
    }

    /// A controller with no sinks, no workers, and a live token.
    pub fn new() -> (r: Streaming)
        ensures
            r.wf(),
            r.workers() == Map::<StreamId, Worker>::empty(),
            r.sinks() == Map::<StreamId, SharedOutputs>::empty(),
            r.live(),
    {
        Streaming {
            handles: StreamMap::empty(),
            outputs: StreamMap::empty(),
            abort_handle: AbortHandle::new(),
        }
    }

    /// True iff every recorded worker is still going and the token is live.
    pub fn is_running(&self) -> (r: bool)
        ensures
            r == self.is_running_spec(),
    {
        let main_up = match self.handles.get(StreamId::Main) {
            Some(w) => !w.finished,
            None => true,
        };
        let sub_up = match self.handles.get(StreamId::Sub) {
            Some(w) => !w.finished,
            None => true,
        };
        let ext_up = match self.handles.get(StreamId::Extern) {
            Some(w) => !w.finished,
            None => true,
        };
        let r = main_up && sub_up && ext_up && self.abort_handle.is_live();
        proof {
            if main_up && sub_up && ext_up {
                assert forall|k: StreamId| #[trigger]
                    self.workers().dom().contains(k) implies !self.workers()[k].finished by {
                    if k == StreamId::Main {
                    } else if k == StreamId::Sub {
                    } else {
                        assert(k == StreamId::Extern);
                    }
                }
            }
        }
        r
    }

    /// True iff some sink reports an attached downstream client.
    pub fn client_connected(&self) -> (r: bool)
        ensures
            r == exists|k: StreamId|
                #[trigger] self.sinks().dom().contains(k) && self.sinks()[k].inner.connected,
    {
        let main_c = match self.outputs.get(StreamId::Main) {
            Some(so) => so.inner.is_connected(),
            None => false,
        };
        let sub_c = match self.outputs.get(StreamId::Sub) {
            Some(so) => so.inner.is_connected(),
            None => false,
        };
        let ext_c = match self.outputs.get(StreamId::Extern) {
            Some(so) => so.inner.is_connected(),
            None => false,
        };
        let r = main_c || sub_c || ext_c;
        proof {
            if !r {
                assert forall|k: StreamId| #[trigger]
                    self.sinks().dom().contains(k) implies !self.sinks()[k].inner.connected by {
                    if k == StreamId::Main {
                    } else if k == StreamId::Sub {
                    } else {
                        assert(k == StreamId::Extern);
                    }
                }
            }
        }
        r
    }

    /// True iff every sink has a usable keyframe buffered, so the whole state
    /// can pause without visual disruption.
    pub fn can_pause(&self) -> (r: bool)
        ensures
            r == forall|k: StreamId|
                #[trigger] self.sinks().dom().contains(k) ==> self.sinks()[k].inner.has_iframe,
    {
        let main_p = match self.outputs.get(StreamId::Main) {
            Some(so) => so.inner.has_last_iframe(),
            None => true,
        };
        let sub_p = match self.outputs.get(StreamId::Sub) {
            Some(so) => so.inner.has_last_iframe(),
            None => true,
        };
        let ext_p = match self.outputs.get(StreamId::Extern) {
            Some(so) => so.inner.has_last_iframe(),
            None => true,
        };
        let r = main_p && sub_p && ext_p;
        proof {
            if r {
                assert forall|k: StreamId| #[trigger]
                    self.sinks().dom().contains(k) implies self.sinks()[k].inner.has_iframe by {
                    if k == StreamId::Main {
                    } else if k == StreamId::Sub {
                    } else {
                        assert(k == StreamId::Extern);
                    }
                }
            }
        }
        r
    }

    /// Whether a worker is recorded for this sub-stream.
    pub fn has_worker(&self, k: StreamId) -> (r: bool)
        ensures
            r == self.workers().dom().contains(k),
    {
        self.handles.contains_key(k)
    }

    /// Whether this sub-stream has an output sink in the registry.
    pub fn has_output(&self, k: StreamId) -> (r: bool)
        ensures
            r == self.sinks().dom().contains(k),
    {
        self.outputs.contains_key(k)
    }

    /// Record that sub-stream `k`'s worker thread has been observed to have
    /// terminated. The embedding program mirrors the thread's state here.
    pub fn mark_finished(&mut self, k: StreamId)
        requires
            old(self).wf(),
        ensures
            final(self).wf(),
            final(self).sinks() == old(self).sinks(),
            final(self).live() == old(self).live(),
            old(self).workers().dom().contains(k) ==> final(self).workers() == old(
                self,
            ).workers().insert(k, Worker { stream: k, finished: true }),
            !old(self).workers().dom().contains(k) ==> final(self).workers() == old(
                self,
            ).workers(),
    {
        match self.handles.take(k) {
            Some(_w) => {
                self.handles.insert(k, Worker { stream: k, finished: true });
                proof {
                    assert(self.handles@ =~= old(self).handles@.insert(
                        k,
                        Worker { stream: k, finished: true },
                    ));
                }
            },
            None => {
                proof {
                    assert(self.handles@ =~= old(self).handles@);
                }
            },
        }
    }

    /// Install `input` as the output registry, each entry wrapped into a
    /// shared handle with no other holder, replacing any existing entries.
    ///
    /// Adoption is for a controller with no recorded workers (the state a
    /// sibling hands sinks to): installing sinks under running workers would
    /// orphan the sinks those workers still hold.
    pub fn insert_outputs(&mut self, input: StreamMap<Outputs>) -> (r: Result<(), StreamError>)
        requires
            old(self).wf(),
            old(self).workers() == Map::<StreamId, Worker>::empty(),
        ensures
            final(self).wf(),
            r is Ok,
            final(self).workers() == old(self).workers(),
            final(self).live() == old(self).live(),
            final(self).sinks().dom() == input@.dom(),
            forall|k: StreamId|
                #[trigger] input@.dom().contains(k) ==> final(self).sinks()[k].inner == input@[k]
                    && final(self).sinks()[k].holders == 0,
    {
        let mut input = input;
        let ghost input0 = input@;
        self.outputs = StreamMap::empty();
        if let Some(o) = input.take(StreamId::Main) {
            self.outputs.insert(StreamId::Main, SharedOutputs::wrap(o));
        }
        if let Some(o) = input.take(StreamId::Sub) {
            self.outputs.insert(StreamId::Sub, SharedOutputs::wrap(o));
        }
        if let Some(o) = input.take(StreamId::Extern) {
            self.outputs.insert(StreamId::Extern, SharedOutputs::wrap(o));
        }
        proof {
            assert(self.outputs@.dom() =~= input0.dom());
            assert forall|k: StreamId| #[trigger]
                input0.dom().contains(k) implies self.outputs@[k].inner == input0[k]
                && self.outputs@[k].holders == 0 by {
                if k == StreamId::Main {
                } else if k == StreamId::Sub {
                } else {
                    assert(k == StreamId::Extern);
                }
            }
        }
        Ok(())
    }

    /// Drain sub-stream `k`'s worker, if one is recorded: hand back the
    /// worker's share of its sink and map its join outcome to the error a
    /// caller is owed, if any.
    fn join_one(&mut self, k: StreamId, joins: &StreamMap<JoinOutcome>) -> (r: Option<StreamError>)
        requires
            old(self).wf(),
            old(self).workers().dom().contains(k) ==> joins@.dom().contains(k),
        ensures
            final(self).wf(),
            final(self).workers() == old(self).workers().remove(k),
            final(self).sinks().dom() == old(self).sinks().dom(),
            forall|j: StreamId|
                #[trigger] final(self).sinks().dom().contains(j) ==> final(self).sinks()[j].inner
                    == old(self).sinks()[j].inner,
            forall|j: StreamId|
                j != k && #[trigger] old(self).sinks().dom().contains(j) ==> final(self).sinks()[j]
                    == old(self).sinks()[j],
            old(self).sinks().dom().contains(k) ==> final(self).sinks()[k].holders == 0,
            r == join_outcome_err(k, old(self).workers(), joins@),
            final(self).live() == old(self).live(),
    {
        match self.handles.take(k) {
            None => {
                proof {
                    assert(self.handles@ =~= old(self).handles@.remove(k));
                }
                None
            },
            Some(_w) => {
                let so_opt = self.outputs.take(k);
                let mut so = so_opt.unwrap();
                so.release();
                self.outputs.insert(k, so);
                proof {
                    assert(self.outputs@ =~= old(self).outputs@.insert(k, so));
                    assert(self.outputs@.dom() =~= old(self).outputs@.dom());
                }
                match joins.get(k) {
                    Some(outcome) => match *outcome {
                        JoinOutcome::Graceful => None,
                        JoinOutcome::Failed(err) => Some(StreamError::Worker { stream: k, err }),
                        JoinOutcome::Panicked => Some(StreamError::Panicked { stream: k }),
                    },
                    None => {
                        proof {
                            assert(false);
                        }
                        None
                    },
                }
            },
        }
    }

    /// Join every recorded worker, draining the worker registry and ending
    /// every sink's sharing, and report the first failure in the fixed
    /// sub-stream order.
    fn join_all(&mut self, joins: &StreamMap<JoinOutcome>) -> (r: Option<StreamError>)
        requires
            old(self).wf(),
            forall|k: StreamId|
                #[trigger] old(self).workers().dom().contains(k) ==> joins@.dom().contains(k),
        ensures
            final(self).wf(),
            final(self).workers() == Map::<StreamId, Worker>::empty(),
            final(self).sinks().dom() == old(self).sinks().dom(),
            forall|k: StreamId|
                #[trigger] final(self).sinks().dom().contains(k) ==> final(self).sinks()[k].inner
                    == old(self).sinks()[k].inner && final(self).sinks()[k].holders == 0,
            r == first_join_error(old(self).workers(), joins@),
            final(self).live() == old(self).live(),
    {
        let e_main = self.join_one(StreamId::Main, joins);
        let e_sub = self.join_one(StreamId::Sub, joins);
        let e_ext = self.join_one(StreamId::Extern, joins);
        proof {
            assert(self.handles@ =~= Map::<StreamId, Worker>::empty());
            assert forall|k: StreamId| #[trigger]
                self.outputs@.dom().contains(k) implies self.outputs@[k].holders == 0 by {
                if k == StreamId::Main {
                } else if k == StreamId::Sub {
                } else {
                    assert(k == StreamId::Extern);
                }
            }
        }
        if e_main.is_some() {
            e_main
        } else if e_sub.is_some() {
            e_sub
        } else {
            e_ext
        }
    }

    /// Abort and join every worker, then drain the output registry into
    /// exclusively owned sinks: the sinks of exactly the previously
    /// registered sub-streams, for hand-off to a sibling state.
    ///
    /// The first join failure is reported instead; the sinks then stay in
    /// the registry, no longer shared, ready for a second extraction.
    pub fn take_outputs(&mut self, joins: &StreamMap<JoinOutcome>) -> (r: Result<
        StreamMap<Outputs>,
        StreamError,
    >)
        requires
            old(self).wf(),
            forall|k: StreamId|
                #[trigger] old(self).workers().dom().contains(k) ==> joins@.dom().contains(k),
        ensures
            final(self).wf(),
            !final(self).live(),
            final(self).workers() == Map::<StreamId, Worker>::empty(),
            r is Ok <==> first_join_error(old(self).workers(), joins@) is None,
            r matches Ok(m) ==> {
                &&& m@.dom() == old(self).sinks().dom()
                &&& (forall|k: StreamId|
                    #[trigger] m@.dom().contains(k) ==> m@[k] == old(self).sinks()[k].inner)
                &&& final(self).sinks() == Map::<StreamId, SharedOutputs>::empty()
            },
            r matches Err(e) ==> {
                &&& Some(e) == first_join_error(old(self).workers(), joins@)
                &&& final(self).sinks().dom() == old(self).sinks().dom()
                &&& (forall|k: StreamId|
                    #[trigger] final(self).sinks().dom().contains(k) ==> final(self).sinks()[k].inner
                        == old(self).sinks()[k].inner && final(self).sinks()[k].holders == 0)
            },
    {
        self.abort_handle.abort();
        if let Some(e) = self.join_all(joins) {
            return Err(e);
        }
        let mut result: StreamMap<Outputs> = StreamMap::empty();
        let ghost sinks0 = old(self).sinks();
        if let Some(so) = self.outputs.take(StreamId::Main) {
            match so.into_inner() {
                Ok(o) => result.insert(StreamId::Main, o),
                Err(_) => {
                    proof {
                        assert(false);
                    }
                    return Err(StreamError::OutputHeld);
                },
            }
        }
        if let Some(so) = self.outputs.take(StreamId::Sub) {
            match so.into_inner() {
                Ok(o) => result.insert(StreamId::Sub, o),
                Err(_) => {
                    proof {
                        assert(false);
                    }
                    return Err(StreamError::OutputHeld);
                },
            }
        }
        if let Some(so) = self.outputs.take(StreamId::Extern) {
            match so.into_inner() {
                Ok(o) => result.insert(StreamId::Extern, o),
                Err(_) => {
                    proof {
                        assert(false);
                    }
                    return Err(StreamError::OutputHeld);
                },
            }
        }
        proof {
            assert(self.outputs@ =~= Map::<StreamId, SharedOutputs>::empty());
            assert(result@.dom() =~= sinks0.dom());
            assert forall|k: StreamId| #[trigger]
                result@.dom().contains(k) implies result@[k] == sinks0[k].inner by {
                if k == StreamId::Main {
                } else if k == StreamId::Sub {
                } else {
                    assert(k == StreamId::Extern);
                }
            }
        }
        Ok(result)
    }

    /// Deactivate: signal cancellation, and if any workers are recorded,
    /// unregister every configured path and join every worker, draining the
    /// worker registry. The output registry keeps its sinks for reuse or
    /// extraction.
    ///
    /// A path the server refuses to unregister is reported before any join
    /// is attempted, with the workers left recorded; otherwise the first
    /// join failure, in the fixed sub-stream order, is reported after all
    /// workers are drained.
    #[verifier::loop_isolation(false)]
    pub fn tear_down(&mut self, cfg: &Config, rtsp: &mut Registry, joins: &StreamMap<JoinOutcome>)
        -> (r: Result<(), StreamError>)
        requires
            old(self).wf(),
            forall|k: StreamId|
                #[trigger] old(self).workers().dom().contains(k) ==> joins@.dom().contains(k),
        ensures
            final(self).wf(),
            !final(self).live(),
            final(self).sinks().dom() == old(self).sinks().dom(),
            forall|k: StreamId|
                #[trigger] final(self).sinks().dom().contains(k) ==> final(self).sinks()[k].inner
                    == old(self).sinks()[k].inner,
            final(rtsp).same_dispositions(old(rtsp)),
            final(rtsp).users == old(rtsp).users,
            old(self).workers() == Map::<StreamId, Worker>::empty() ==> {
                &&& r is Ok
                &&& final(self).workers() == old(self).workers()
                &&& final(self).sinks() == old(self).sinks()
                &&& *final(rtsp) == *old(rtsp)
            },
            old(self).workers() != Map::<StreamId, Worker>::empty() ==> match r {
                Ok(()) => {
                    &&& !old(rtsp).any_remove_rejected(cfg.all_paths_view())
                    &&& first_join_error(old(self).workers(), joins@) is None
                    &&& final(rtsp).registered.deep_view() == remove_seq(
                        old(rtsp).registered.deep_view(),
                        cfg.all_paths_view(),
                    )
                    &&& final(self).workers() == Map::<StreamId, Worker>::empty()
                },
                Err(e) => match e {
                    StreamError::UnregisterFailed { path } => {
                        &&& exists|i: int|
                            {
                                &&& 0 <= i < cfg.all_paths_view().len()
                                &&& cfg.all_paths_view()[i] == path@
                                &&& old(rtsp).rejects_remove(path@)
                                &&& (forall|j: int|
                                    0 <= j < i ==> !old(rtsp).rejects_remove(
                                        cfg.all_paths_view()[j],
                                    ))
                                &&& final(rtsp).registered.deep_view() == remove_seq(
                                    old(rtsp).registered.deep_view(),
                                    cfg.all_paths_view().subrange(0, i),
                                )
                            }
                        &&& final(self).workers() == old(self).workers()
                        &&& final(self).sinks() == old(self).sinks()
                    },
                    StreamError::Worker { .. } | StreamError::Panicked { .. } => {
                        &&& !old(rtsp).any_remove_rejected(cfg.all_paths_view())
                        &&& Some(e) == first_join_error(old(self).workers(), joins@)
                        &&& final(rtsp).registered.deep_view() == remove_seq(
                            old(rtsp).registered.deep_view(),
                            cfg.all_paths_view(),
                        )
                        &&& final(self).workers() == Map::<StreamId, Worker>::empty()
                    },
                    _ => false,
                },
            },
    {
        self.abort_handle.abort();
        if !self.handles.is_empty() {
            let all = cfg.get_all_paths();
            let ghost pre_reg = rtsp.registered.deep_view();
            let mut i: usize = 0;
            while i < all.len()
                invariant
                    0 <= i <= all@.len(),
                    rtsp.registered.deep_view() == remove_seq(
                        pre_reg,
                        all.deep_view().subrange(0, i as int),
                    ),
                    forall|j: int| 0 <= j < i ==> !old(rtsp).rejects_remove(all.deep_view()[j]),
                    rtsp.same_dispositions(old(rtsp)),
                    rtsp.users == old(rtsp).users,
                    self.handles@ == old(self).handles@,
                    self.outputs@ == old(self).outputs@,
                    !self.abort_handle.spec_live(),
                decreases all@.len() - i,
            {
                proof {
                    assert(all.deep_view()[i as int] == all@[i as int]@);
                }
                match rtsp.remove_stream(&all[i]) {
                    Ok(()) => {
                        proof {
                            lemma_remove_seq_snoc(pre_reg, all.deep_view(), i as int);
                        }
                    },
                    Err(e) => {
                        proof {
                            assert(all.deep_view() == cfg.all_paths_view());
                            assert(e matches StreamError::UnregisterFailed { path } ==> {
                                &&& cfg.all_paths_view()[i as int] == path@
                                &&& old(rtsp).rejects_remove(path@)
                            });
                        }
                        return Err(e);
                    },
                }
                i += 1;
            }
            proof {
                assert(all.deep_view().subrange(0, all@.len() as int) =~= all.deep_view());
            }
            match self.join_all(joins) {
                Some(e) => {
                    return Err(e);
                },
                None => {},
            }
        } else {
            proof {
                assert(old(self).workers() =~= Map::<StreamId, Worker>::empty());
            }
        }
        Ok(())
    }

    /// Bring sub-stream `k` up, if it has a sink: switch the sink's input to
    /// the live feed, and record a fresh worker sharing the sink — unless one
    /// is already recorded, which is left exactly as it is, so no second
    /// concurrent writer into the sink can arise.
    fn start_stream(&mut self, k: StreamId)
        requires
            old(self).wf(),
        ensures
            final(self).wf(),
            final(self).live() == old(self).live(),
            old(self).sinks().dom().contains(k) ==> {
                &&& final(self).sinks().dom() == old(self).sinks().dom()
                &&& same_sink_live(final(self).sinks()[k].inner, old(self).sinks()[k].inner)
                &&& (forall|j: StreamId|
                    j != k && #[trigger] old(self).sinks().dom().contains(j)
                        ==> final(self).sinks()[j] == old(self).sinks()[j])
                &&& final(self).workers() == (if old(self).workers().dom().contains(k) {
                    old(self).workers()
                } else {
                    old(self).workers().insert(k, Worker { stream: k, finished: false })
                })
            },
            !old(self).sinks().dom().contains(k) ==> final(self).sinks() == old(self).sinks()
                && final(self).workers() == old(self).workers(),
    {
        match self.outputs.take(k) {
            None => {
                proof {
                    assert(self.outputs@ =~= old(self).outputs@);
                    assert(self.handles@ =~= old(self).handles@);
                }
            },
            Some(mut so) => {
                so.inner.set_input_source(InputMode::Live);
                if !self.handles.contains_key(k) {
                    so.share();
                    self.handles.insert(k, Worker { stream: k, finished: false });
                }
                self.outputs.insert(k, so);
                proof {
                    assert(self.outputs@ =~= old(self).outputs@.insert(k, so));
                    assert(self.outputs@.dom() =~= old(self).outputs@.dom());
                }
            },
        }
    }

    /// Activate: reset the cancellation token to live; with an empty output
    /// registry, resolve the placeholder mode and create one registered sink
    /// per configured sub-stream (an existing registry is reused unmodified,
    /// with no re-registration); then switch every sink to the live feed and
    /// record one worker per sink, skipping sub-streams whose worker is
    /// already recorded.
    ///
    /// Fails fast, with no worker recorded: on an unrecognized placeholder
    /// mode nothing is touched; on a path the server refuses, the error names
    /// the first refused path, and the sinks and registrations made for the
    /// sub-streams before it are retained, not rolled back.
    #[verifier::loop_isolation(false)]
    pub fn setup(&mut self, cfg: &Config, rtsp: &mut Registry) -> (r: Result<(), StreamError>)
        requires
            old(self).wf(),
            cfg.wf(),
        ensures
            final(self).wf(),
            final(self).live(),
            final(rtsp).same_dispositions(old(rtsp)),
            r is Ok <==> !activate_blocked(*old(self), *cfg, *old(rtsp)),
            r is Ok ==> activate_ok(*old(self), *final(self), *cfg, *old(rtsp), *final(rtsp)),
            r matches Err(e) ==> {
                &&& final(self).workers() == old(self).workers()
                &&& old(self).sinks().dom() == Set::<StreamId>::empty()
                &&& match e {
                    StreamError::UnknownPauseMode => {
                        &&& paused_source_of(cfg.pause_mode@) is None
                        &&& final(self).sinks() == old(self).sinks()
                        &&& *final(rtsp) == *old(rtsp)
                    },
                    StreamError::PathRejected { path } => {
                        &&& (forall|k: StreamId|
                            #[trigger] final(self).sinks().dom().contains(k)
                                ==> final(self).sinks()[k].holders == 0 && is_fresh_sink(
                                final(self).sinks()[k].inner,
                                paused_source_of(cfg.pause_mode@).unwrap(),
                            ))
                        &&& exists|i: int|
                        {
                            &&& 0 <= i < cfg.streams@.len()
                            &&& old(rtsp).first_add_rejected(
                                cfg.paths_of(cfg.streams@[i]),
                                path@,
                            )
                            &&& (forall|j: int|
                                0 <= j < i ==> !old(rtsp).any_add_rejected(
                                    cfg.paths_of(cfg.streams@[j]),
                                ))
                            &&& final(self).sinks().dom() == cfg.streams@.subrange(0, i).to_set()
                            &&& final(rtsp).registered.deep_view() == old(
                                rtsp,
                            ).registered.deep_view() + cfg.flat_paths_to(i)
                        }
                    },
                    _ => false,
                }
            },
    {
        self.abort_handle.reset();
        if self.outputs.is_empty() {
            let ps = match parse_paused_source(&cfg.pause_mode) {
                Ok(ps) => ps,
                Err(e) => {
                    proof {
                        assert(self.outputs@ =~= old(self).outputs@);
                    }
                    return Err(e);
                },
            };
            let ghost pre_reg = rtsp.registered.deep_view();
            let mut i: usize = 0;
            while i < cfg.streams.len()
                invariant
                    0 <= i <= cfg.streams@.len(),
                    self.outputs@.dom() == cfg.streams@.subrange(0, i as int).to_set(),
                    forall|k: StreamId|
                        #[trigger] self.outputs@.dom().contains(k) ==> self.outputs@[k].holders
                            == 0 && is_fresh_sink(self.outputs@[k].inner, ps),
                    rtsp.registered.deep_view() == pre_reg + cfg.flat_paths_to(i as int),
                    rtsp.same_dispositions(old(rtsp)),
                    i > 0 ==> rtsp.users.deep_view() == cfg.permitted_users.deep_view(),
                    i == 0 ==> rtsp.users == old(rtsp).users,
                    forall|j: int|
                        0 <= j < i ==> !old(rtsp).any_add_rejected(
                            cfg.paths_of(cfg.streams@[j]),
                        ),
                    self.handles@ == old(self).handles@,
                    self.abort_handle.spec_live(),
                decreases cfg.streams@.len() - i,
            {
                let s = cfg.streams[i];
                let paths = cfg.get_paths(s);
                match rtsp.add_stream(&paths, &cfg.permitted_users) {
                    Ok(mut out) => {
                        out.set_paused_source(ps);
                        self.outputs.insert(s, SharedOutputs::wrap(out));
                        proof {
                            broadcast use vstd::seq_lib::lemma_seq_contains_after_push;

                            assert(cfg.streams@.subrange(0, i as int + 1) =~= cfg.streams@.subrange(
                                0,
                                i as int,
                            ).push(s));
                            assert(self.outputs@.dom() =~= cfg.streams@.subrange(
                                0,
                                i as int + 1,
                            ).to_set());
                        }
                    },
                    Err(e) => {
                        proof {
                            assert(e matches StreamError::PathRejected { path } ==> old(
                                rtsp,
                            ).first_add_rejected(cfg.paths_of(s), path@));
                        }
                        return Err(e);
                    },
                }
                i += 1;
            }
            proof {
                assert(cfg.streams@.subrange(0, cfg.streams@.len() as int) =~= cfg.streams@);
                assert(self.outputs@.dom() == cfg.stream_set());
            }
        }
        let ghost mid = *self;
        self.start_stream(StreamId::Main);
        self.start_stream(StreamId::Sub);
        self.start_stream(StreamId::Extern);
        proof {
            assert(self.handles@.dom() =~= self.outputs@.dom());
            if old(self).sinks().dom() == Set::<StreamId>::empty() {
                assert forall|k: StreamId|
                    !old(self).workers().dom().contains(k) by {
                    if old(self).workers().dom().contains(k) {
                        assert(old(self).sinks().dom().contains(k));
                    }
                }
            }
        }
        Ok(())
    }
}

impl Default for Streaming {
    /// The default controller is the fresh one: empty registries, live token.
    fn default() -> (r: Self)
        ensures
            r.wf(),
            r.workers() == Map::<StreamId, Worker>::empty(),
            r.sinks() == Map::<StreamId, SharedOutputs>::empty(),
            r.live(),
    {
        Streaming::new()
    }
}

} // verus!
