//! The cooperative cancellation token.
//!
//! The token's logical state is a single bit, live or aborted. `reset` and
//! `abort` are idempotent and force the state unconditionally; `is_live`
//! reads it. In a running program every worker thread observes one shared
//! atomic flag carrying this state; the controller here owns the logical
//! value, and the embedding program mirrors each transition into the shared
//! flag it hands to its threads.

use vstd::prelude::*;

verus! {

/// Cooperative cancellation flag: `live` until aborted, aborted until reset.
pub struct AbortHandle {
    live: bool,
}

impl AbortHandle {
    /// Whether the token currently allows workers to keep running.
    pub closed spec fn spec_live(&self) -> bool {
        self.live
    }

    /// A fresh token starts live.
    pub fn new() -> (r: AbortHandle)
        ensures
            r.spec_live(),
    {
        AbortHandle { live: true }
    }

    /// Force the token to the live state. Idempotent.
    pub fn reset(&mut self)
        ensures
            final(self).spec_live(),
    {
        self.live = true;
    }

    /// Force the token to the aborted state. Idempotent and irreversible
    /// until the next `reset`.
    pub fn abort(&mut self)
        ensures
            !final(self).spec_live(),
    {
        self.live = false;
    }

    /// Whether the token is live. Once `abort` has run, this returns false
    /// until an explicit `reset`.
    pub fn is_live(&self) -> (r: bool)
        ensures
            r == self.spec_live(),
    {
        self.live
    }
}

impl Default for AbortHandle {
    /// The default token is live, matching `new`.
    fn default() -> (r: Self)
        ensures
            r.spec_live(),
    {
        AbortHandle { live: true }
    }
}

} // verus!
