//! A small map keyed by [`StreamId`].
//!
//! The key domain is the closed three-value set of sub-stream identifiers, so
//! the map is three optional slots; its view is the corresponding
//! `Map<StreamId, T>`. The controller keeps both its registries (sinks and
//! workers) in one of these, and the configuration keeps the per-stream
//! endpoint paths in one.

use vstd::prelude::*;
use crate::ids::StreamId;

verus! {

/// At most one `T` per sub-stream identifier.
pub struct StreamMap<T> {
    main: Option<T>,
    sub: Option<T>,
    ext: Option<T>,
}

impl<T> StreamMap<T> {
    /// The slot a key selects.
    closed spec fn slot(&self, k: StreamId) -> Option<T> {
        match k {
            StreamId::Main => self.main,
            StreamId::Sub => self.sub,
            StreamId::Extern => self.ext,
        }
    }
}

impl<T> View for StreamMap<T> {
    type V = Map<StreamId, T>;

    closed spec fn view(&self) -> Map<StreamId, T> {
        Map::new(|k: StreamId| self.slot(k) is Some, |k: StreamId| self.slot(k).unwrap())
    }
}

impl<T> StreamMap<T> {
    /// The map with no entries.
    pub fn empty() -> (r: StreamMap<T>)
        ensures
            r@ == Map::<StreamId, T>::empty(),
    {
        let r = StreamMap { main: None, sub: None, ext: None };
        proof {
            assert(r@ =~= Map::<StreamId, T>::empty());
        }
        r
    }

    /// Whether no key has an entry.
    pub fn is_empty(&self) -> (r: bool)
        ensures
            r == (self@.dom() == Set::<StreamId>::empty()),
    {
        let r = self.main.is_none() && self.sub.is_none() && self.ext.is_none();
        proof {
            if r {
                assert(self@.dom() =~= Set::<StreamId>::empty());
            } else {
                if self.main is Some {
                    assert(self@.dom().contains(StreamId::Main));
                } else if self.sub is Some {
                    assert(self@.dom().contains(StreamId::Sub));
                } else {
                    assert(self@.dom().contains(StreamId::Extern));
                }
            }
        }
        r
    }

    /// Whether this key has an entry.
    pub fn contains_key(&self, k: StreamId) -> (r: bool)
        ensures
            r == self@.dom().contains(k),
    {
        match k {
            StreamId::Main => self.main.is_some(),
            StreamId::Sub => self.sub.is_some(),
            StreamId::Extern => self.ext.is_some(),
        }
    }

    /// Borrow the entry under this key, if there is one.
    pub fn get(&self, k: StreamId) -> (r: Option<&T>)
        ensures
            match r {
                Some(v) => self@.dom().contains(k) && self@[k] == *v,
                None => !self@.dom().contains(k),
            },
    {
        match k {
            StreamId::Main => self.main.as_ref(),
            StreamId::Sub => self.sub.as_ref(),
            StreamId::Extern => self.ext.as_ref(),
        }
    }

    /// Put `v` under `k`, replacing any previous entry.
    pub fn insert(&mut self, k: StreamId, v: T)
        ensures
            final(self)@ == old(self)@.insert(k, v),
    {
        match k {
            StreamId::Main => self.main = Some(v),
            StreamId::Sub => self.sub = Some(v),
            StreamId::Extern => self.ext = Some(v),
        }
        proof {
            assert(self@ =~= old(self)@.insert(k, v));
        }
    }

    /// Remove and return the entry under `k`, if there is one.
    pub fn take(&mut self, k: StreamId) -> (r: Option<T>)
        ensures
            final(self)@ == old(self)@.remove(k),
            match r {
                Some(v) => old(self)@.dom().contains(k) && old(self)@[k] == v,
                None => !old(self)@.dom().contains(k),
            },
    {
        let r = match k {
            StreamId::Main => self.main.take(),
            StreamId::Sub => self.sub.take(),
            StreamId::Extern => self.ext.take(),
        };
        proof {
            assert(self@ =~= old(self)@.remove(k));
        }
        r
    }
}

} // verus!
