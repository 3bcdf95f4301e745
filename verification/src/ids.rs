//! Identifiers for a camera's sub-streams.

use vstd::prelude::*;

verus! {

/// Which quality tier of the camera a worker or sink pertains to.
///
/// The set is closed: a camera offers at most these three sub-streams. A value
/// is only ever used as a lookup key.
#[derive(Clone, Copy, PartialEq, Eq, Structural, Hash, Debug)]
pub enum StreamId {
    Main,
    Sub,
    Extern,
}

} // verus!
