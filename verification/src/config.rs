//! The shared context an activation runs against: which sub-streams are
//! active, the configured placeholder-paused mode, the permitted users, and
//! the server-visible endpoint paths of each sub-stream.

use vstd::prelude::*;
use crate::errors::StreamError;
use crate::ids::StreamId;
use crate::registry::clone_paths;
use crate::sink::PausedSources;
use crate::stream_map::StreamMap;

verus! {

/// The placeholder mode a configuration string names, if any. The set of
/// recognized values is closed.
pub open spec fn paused_source_of(mode: Seq<char>) -> Option<PausedSources> {
    if mode == "test"@ {
        Some(PausedSources::TestSrc)
    } else if mode == "still"@ {
        Some(PausedSources::Still)
    } else if mode == "black"@ {
        Some(PausedSources::Black)
    } else if mode == "none"@ {
        Some(PausedSources::NoSource)
    } else {
        None
    }
}

/// Resolve the configured placeholder-paused mode.
///
/// An unrecognized value is a configuration error: it is reported at once,
/// never acted on.
pub fn parse_paused_source(mode: &String) -> (r: Result<PausedSources, StreamError>)
    ensures
        r == match paused_source_of(mode@) {
            Some(ps) => Ok::<PausedSources, StreamError>(ps),
            None => Err::<PausedSources, StreamError>(StreamError::UnknownPauseMode),
        },
{
    let test: String = "test".to_owned();
    let still: String = "still".to_owned();
    let black: String = "black".to_owned();
    let off: String = "none".to_owned();
    if *mode == test {
        Ok(PausedSources::TestSrc)
    } else if *mode == still {
        Ok(PausedSources::Still)
    } else if *mode == black {
        Ok(PausedSources::Black)
    } else if *mode == off {
        Ok(PausedSources::NoSource)
    } else {
        Err(StreamError::UnknownPauseMode)
    }
}

/// What the caller provides for a lifecycle operation.
pub struct Config {
    /// The active sub-streams, in activation order.
    pub streams: Vec<StreamId>,
    /// The configured placeholder-paused mode, as written in configuration.
    pub pause_mode: String,
    /// The users permitted to attach to the endpoints.
    pub permitted_users: Vec<String>,
    /// The server-visible endpoint paths of each sub-stream.
    pub paths: StreamMap<Vec<String>>,
}

impl Config {
    /// A valid configuration: no sub-stream is listed twice, and every listed
    /// sub-stream has its paths configured.
    pub open spec fn wf(&self) -> bool {
        &&& forall|i: int, j: int|
            0 <= i < j < self.streams@.len() ==> self.streams@[i] != self.streams@[j]
        &&& forall|i: int|
            0 <= i < self.streams@.len() ==> self.paths@.dom().contains(
                #[trigger] self.streams@[i],
            )
    }

    /// The configured sub-streams as a set.
    pub open spec fn stream_set(&self) -> Set<StreamId> {
        self.streams@.to_set()
    }

    /// The endpoint paths of one sub-stream, by text.
    pub open spec fn paths_of(&self, s: StreamId) -> Seq<Seq<char>> {
        if self.paths@.dom().contains(s) {
            self.paths@[s].deep_view()
        } else {
            Seq::<Seq<char>>::empty()
        }
    }

    /// The paths of the first `n` configured streams, flattened in order.
    pub open spec fn flat_paths_to(&self, n: int) -> Seq<Seq<char>>
        decreases n,
    {
        if n <= 0 {
            Seq::<Seq<char>>::empty()
        } else {
            self.flat_paths_to(n - 1) + self.paths_of(self.streams@[n - 1])
        }
    }

    /// Every configured stream's paths, flattened in configuration order.
    pub open spec fn flat_paths(&self) -> Seq<Seq<char>> {
        self.flat_paths_to(self.streams@.len() as int)
    }

    /// Every path of the camera, in the fixed sub-stream order.
    pub open spec fn all_paths_view(&self) -> Seq<Seq<char>> {
        self.paths_of(StreamId::Main) + self.paths_of(StreamId::Sub) + self.paths_of(
            StreamId::Extern,
        )
    }

    /// The endpoint paths configured for one sub-stream.
    pub fn get_paths(&self, s: StreamId) -> (r: Vec<String>)
        ensures
            r.deep_view() == self.paths_of(s),
    {
        match self.paths.get(s) {
            Some(v) => clone_paths(v),
            None => Vec::new(),
        }
    }

    /// Every path of the camera, one list, in the fixed sub-stream order.
    pub fn get_all_paths(&self) -> (r: Vec<String>)
        ensures
            r.deep_view() == self.all_paths_view(),
    {
        let mut r = self.get_paths(StreamId::Main);
        let mut b = self.get_paths(StreamId::Sub);
        let mut c = self.get_paths(StreamId::Extern);
        let ghost ra = r.deep_view();
        let ghost rb = b.deep_view();
        let ghost rc = c.deep_view();
        r.append(&mut b);
        proof {
            assert(r.deep_view() =~= ra + rb);
        }
        let ghost rab = r.deep_view();
        r.append(&mut c);
        proof {
            assert(r.deep_view() =~= rab + rc);
            assert(r.deep_view() =~= self.all_paths_view());
        }
        r
    }
}

} // verus!
