//! Laws of the lifecycle: consequences of the contracts of `setup`,
//! `tear_down` and `take_outputs` that the surrounding state machine leans
//! on, stated and proved once, over the same views those contracts use.

use vstd::prelude::*;
use crate::config::Config;
use crate::ids::StreamId;
use crate::registry::Registry;
use crate::sink::Outputs;
use crate::streaming::{activate_ok, same_sink_live, Streaming};
use crate::worker::Worker;

verus! {

/// After a successful first activation (empty output registry beforehand),
/// the controller is running and the worker registry's key set is exactly
/// the configured sub-stream set.
pub proof fn lemma_activate_starts_running(
    pre: Streaming,
    post: Streaming,
    cfg: Config,
    reg_pre: Registry,
    reg_post: Registry,
)
    requires
        pre.wf(),
        pre.sinks().dom() == Set::<StreamId>::empty(),
        activate_ok(pre, post, cfg, reg_pre, reg_post),
    ensures
        post.is_running_spec(),
        post.workers().dom() == cfg.stream_set(),
{
    assert forall|k: StreamId| #[trigger]
        post.workers().dom().contains(k) implies !post.workers()[k].finished by {
        if pre.workers().dom().contains(k) {
            assert(pre.sinks().dom().contains(k));
        }
        assert(post.workers()[k] == (Worker { stream: k, finished: false }));
    }
}

/// Activating a second time without an intervening deactivation changes the
/// worker registry not at all: no sub-stream gets a second worker, and every
/// recorded worker is left exactly as it was.
pub proof fn lemma_activate_no_duplicate_workers(
    s0: Streaming,
    s1: Streaming,
    s2: Streaming,
    cfg: Config,
    r0: Registry,
    r1: Registry,
    r2: Registry,
)
    requires
        s0.wf(),
        s1.wf(),
        activate_ok(s0, s1, cfg, r0, r1),
        activate_ok(s1, s2, cfg, r1, r2),
    ensures
        s2.workers() == s1.workers(),
{
    if s1.sinks().dom() == Set::<StreamId>::empty() {
        // Only possible when no sub-stream is configured; both registries
        // are then empty.
        assert(cfg.stream_set() == s1.sinks().dom());
        assert(s2.workers().dom() == cfg.stream_set());
        assert(s1.workers().dom() == s1.sinks().dom());
        assert(s2.workers() =~= s1.workers());
    } else {
        assert(s2.workers().dom() == s1.sinks().dom());
        assert(s1.workers().dom() == s1.sinks().dom());
        assert forall|k: StreamId| #[trigger]
            s2.workers().dom().contains(k) implies s2.workers()[k] == s1.workers()[k] by {
            assert(s1.workers().dom().contains(k));
        }
        assert(s2.workers() =~= s1.workers());
    }
}

/// A controller whose cancellation token is aborted is not running; after a
/// completed deactivation the worker registry is empty as a set of keys and
/// the output registry's key set is whatever it was before.
pub proof fn lemma_deactivate_stops(pre: Streaming, post: Streaming)
    requires
        !post.live(),
        post.workers() == Map::<StreamId, Worker>::empty(),
        post.sinks().dom() == pre.sinks().dom(),
    ensures
        !post.is_running_spec(),
        post.workers().dom() == Set::<StreamId>::empty(),
        post.sinks().dom() == pre.sinks().dom(),
{
    assert(post.workers().dom() =~= Set::<StreamId>::empty());
}

/// Activating over adopted sinks resumes them: the server's registrations
/// are untouched, the key set is the adopted one, and each sink is the
/// adopted sink with its input switched to the live feed.
pub proof fn lemma_adopt_then_activate(
    s1: Streaming,
    s2: Streaming,
    adopted: Map<StreamId, Outputs>,
    cfg: Config,
    r1: Registry,
    r2: Registry,
)
    requires
        s1.wf(),
        s1.sinks().dom() == adopted.dom(),
        forall|k: StreamId|
            #[trigger] adopted.dom().contains(k) ==> s1.sinks()[k].inner == adopted[k],
        adopted.dom() != Set::<StreamId>::empty(),
        activate_ok(s1, s2, cfg, r1, r2),
    ensures
        r2.registered == r1.registered,
        s2.sinks().dom() == adopted.dom(),
        forall|k: StreamId|
            #[trigger] adopted.dom().contains(k) ==> same_sink_live(
                s2.sinks()[k].inner,
                adopted[k],
            ),
{
}

} // verus!
