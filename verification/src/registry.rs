//! The streaming-server registry, as the lifecycle logic sees it.
//!
//! The real registry is an external server: it accepts or refuses a path on
//! grounds of its own. Here its observable state is plain data — the paths
//! currently registered, the permitted users of the latest registration — and
//! its accept/reject disposition enters as two fixed sets chosen by the
//! caller, so every registration outcome the server could produce is covered.
//! Paths are compared by their text throughout.

use vstd::prelude::*;
use crate::errors::StreamError;
use crate::sink::Outputs;

verus! {

/// Remove the first occurrence of `p` from `s`, if any.
pub open spec fn remove_first(s: Seq<Seq<char>>, p: Seq<char>) -> Seq<Seq<char>>
    decreases s.len(),
{
    if s.len() == 0 {
        s
    } else if s[0] == p {
        s.subrange(1, s.len() as int)
    } else {
        seq![s[0]] + remove_first(s.subrange(1, s.len() as int), p)
    }
}

/// `remove_first` drops exactly the first occurrence: cutting at the first
/// index that holds `p` and splicing the remainder.
pub proof fn lemma_remove_first_at(s: Seq<Seq<char>>, p: Seq<char>, i: int)
    requires
        0 <= i < s.len(),
        s[i] == p,
        forall|j: int| 0 <= j < i ==> s[j] != p,
    ensures
        remove_first(s, p) == s.subrange(0, i) + s.subrange(i + 1, s.len() as int),
    decreases i,
{
    if i == 0 {
        assert(remove_first(s, p) =~= s.subrange(0, 0) + s.subrange(1, s.len() as int));
    } else {
        let t = s.subrange(1, s.len() as int);
        lemma_remove_first_at(t, p, i - 1);
        assert(t.subrange(0, i - 1) =~= s.subrange(1, i));
        assert(t.subrange(i, t.len() as int) =~= s.subrange(i + 1, s.len() as int));
        assert(remove_first(s, p) =~= s.subrange(0, i) + s.subrange(i + 1, s.len() as int));
    }
}

/// Remove the paths of `ps` from `reg` one after the other, each dropping
/// the first occurrence of its path.
pub open spec fn remove_seq(reg: Seq<Seq<char>>, ps: Seq<Seq<char>>) -> Seq<Seq<char>>
    decreases ps.len(),
{
    if ps.len() == 0 {
        reg
    } else {
        remove_seq(remove_first(reg, ps[0]), ps.subrange(1, ps.len() as int))
    }
}

/// Removing one more path continues from where the previous removals ended.
pub proof fn lemma_remove_seq_snoc(reg: Seq<Seq<char>>, ps: Seq<Seq<char>>, i: int)
    requires
        0 <= i < ps.len(),
    ensures
        remove_seq(reg, ps.subrange(0, i + 1)) == remove_first(
            remove_seq(reg, ps.subrange(0, i)),
            ps[i],
        ),
    decreases i,
{
    if i == 0 {
        let a = ps.subrange(0, 1);
        assert(a.subrange(1, 1) =~= Seq::<Seq<char>>::empty());
        assert(ps.subrange(0, 0) =~= Seq::<Seq<char>>::empty());
        assert(remove_seq(remove_first(reg, ps[0]), Seq::<Seq<char>>::empty()) == remove_first(
            reg,
            ps[0],
        ));
        assert(remove_seq(reg, a) == remove_first(reg, ps[0]));
    } else {
        let q = remove_first(reg, ps[0]);
        let t = ps.subrange(1, ps.len() as int);
        lemma_remove_seq_snoc(q, t, i - 1);
        let a = ps.subrange(0, i + 1);
        assert(a.subrange(1, a.len() as int) =~= t.subrange(0, i));
        assert(remove_seq(reg, a) == remove_seq(q, t.subrange(0, i)));
        let b = ps.subrange(0, i);
        assert(b.subrange(1, b.len() as int) =~= t.subrange(0, i - 1));
        assert(remove_seq(reg, b) == remove_seq(q, t.subrange(0, i - 1)));
        assert(t[i - 1] == ps[i]);
    }
}

/// Removing a path that does not occur leaves the sequence unchanged.
pub proof fn lemma_remove_first_absent(s: Seq<Seq<char>>, p: Seq<char>)
    requires
        forall|j: int| 0 <= j < s.len() ==> s[j] != p,
    ensures
        remove_first(s, p) == s,
    decreases s.len(),
{
    if s.len() > 0 {
        lemma_remove_first_absent(s.subrange(1, s.len() as int), p);
        assert(remove_first(s, p) =~= s);
    }
}

/// The registry handle.
pub struct Registry {
    /// Paths the server refuses to register. Fixed at construction.
    pub reject_add: Vec<String>,
    /// Paths the server refuses to unregister. Fixed at construction.
    pub reject_remove: Vec<String>,
    /// The paths currently registered, in registration order.
    pub registered: Vec<String>,
    /// The permitted-user list handed over with the latest registration.
    pub users: Vec<String>,
}

impl Registry {
    /// Whether the server would refuse to register this path.
    pub open spec fn rejects_add(&self, p: Seq<char>) -> bool {
        self.reject_add.deep_view().contains(p)
    }

    /// Whether the server would refuse to unregister this path.
    pub open spec fn rejects_remove(&self, p: Seq<char>) -> bool {
        self.reject_remove.deep_view().contains(p)
    }

    /// Whether registering any of `ps` would be refused.
    pub open spec fn any_add_rejected(&self, ps: Seq<Seq<char>>) -> bool {
        exists|i: int| 0 <= i < ps.len() && self.rejects_add(ps[i])
    }

    /// Whether unregistering any of `ps` would be refused.
    pub open spec fn any_remove_rejected(&self, ps: Seq<Seq<char>>) -> bool {
        exists|i: int| 0 <= i < ps.len() && self.rejects_remove(ps[i])
    }

    /// `p` is the first path of `ps` whose registration would be refused.
    pub open spec fn first_add_rejected(&self, ps: Seq<Seq<char>>, p: Seq<char>) -> bool {
        exists|i: int|
            {
                &&& 0 <= i < ps.len()
                &&& ps[i] == p
                &&& self.rejects_add(p)
                &&& forall|j: int| 0 <= j < i ==> !self.rejects_add(ps[j])
            }
    }

    /// The two dispositions are unchanged by an operation.
    pub open spec fn same_dispositions(&self, other: &Registry) -> bool {
        &&& self.reject_add == other.reject_add
        &&& self.reject_remove == other.reject_remove
    }

    /// A registry with the given dispositions and nothing registered.
    pub fn new(reject_add: Vec<String>, reject_remove: Vec<String>) -> (r: Registry)
        ensures
            r.reject_add == reject_add,
            r.reject_remove == reject_remove,
            r.registered@ == Seq::<String>::empty(),
            r.users@ == Seq::<String>::empty(),
    {
        Registry { reject_add, reject_remove, registered: Vec::new(), users: Vec::new() }
    }

    /// Register every path of one sub-stream together with the permitted
    /// users, obtaining that sub-stream's freshly created output sink.
    ///
    /// Succeeds, appending the paths in order, exactly when the server
    /// refuses none of them; otherwise nothing is registered and the error
    /// names the first refused path.
    #[verifier::loop_isolation(false)]
    pub fn add_stream(&mut self, paths: &Vec<String>, users: &Vec<String>) -> (r: Result<
        Outputs,
        StreamError,
    >)
        ensures
            final(self).same_dispositions(old(self)),
            r is Ok <==> !old(self).any_add_rejected(paths.deep_view()),
            r matches Ok(out) ==> {
                &&& final(self).registered.deep_view() == old(self).registered.deep_view()
                    + paths.deep_view()
                &&& final(self).users.deep_view() == users.deep_view()
                &&& out.paused_source is None
                &&& out.input_source == crate::sink::InputMode::Paused
                &&& !out.connected
                &&& !out.has_iframe
                &&& out.accepting
                &&& out.received@ == Seq::<crate::media::Frame>::empty()
            },
            r matches Err(e) ==> {
                &&& final(self).registered == old(self).registered
                &&& final(self).users == old(self).users
                &&& (e matches StreamError::PathRejected { path } && old(self).first_add_rejected(
                    paths.deep_view(),
                    path@,
                ))
            },
    {
        let mut i: usize = 0;
        while i < paths.len()
            invariant
                0 <= i <= paths@.len(),
                forall|j: int| 0 <= j < i ==> !self.rejects_add(paths.deep_view()[j]),
                *self == *old(self),
            decreases paths@.len() - i,
        {
            proof {
                assert(paths.deep_view()[i as int] == paths@[i as int]@);
            }
            if contains_path(&self.reject_add, &paths[i]) {
                let path = clone_path(&paths[i]);
                proof {
                    assert(old(self).first_add_rejected(paths.deep_view(), path@));
                    assert(old(self).any_add_rejected(paths.deep_view()));
                }
                return Err(StreamError::PathRejected { path });
            }
            i += 1;
        }
        let mut i: usize = 0;
        while i < paths.len()
            invariant
                0 <= i <= paths@.len(),
                self.registered.deep_view() == old(self).registered.deep_view()
                    + paths.deep_view().subrange(0, i as int),
                self.reject_add == old(self).reject_add,
                self.reject_remove == old(self).reject_remove,
                self.users == old(self).users,
            decreases paths@.len() - i,
        {
            let p = clone_path(&paths[i]);
            let ghost top = self.registered.deep_view();
            self.registered.push(p);
            proof {
                assert(paths.deep_view()[i as int] == paths@[i as int]@);
                assert(self.registered.deep_view() =~= top.push(paths@[i as int]@));
                assert(self.registered.deep_view() =~= old(self).registered.deep_view()
                    + paths.deep_view().subrange(0, i as int + 1));
            }
            i += 1;
        }
        self.users = clone_paths(users);
        proof {
            assert(paths.deep_view().subrange(0, paths@.len() as int) =~= paths.deep_view());
        }
        Ok(Outputs::new())
    }

    /// Unregister one path.
    ///
    /// Succeeds exactly when the server does not refuse the path, dropping
    /// the path's first registered occurrence; unregistering a path that is
    /// not registered is accepted and changes nothing.
    #[verifier::loop_isolation(false)]
    pub fn remove_stream(&mut self, path: &String) -> (r: Result<(), StreamError>)
        ensures
            final(self).same_dispositions(old(self)),
            final(self).users == old(self).users,
            r is Ok <==> !old(self).rejects_remove(path@),
            r is Ok ==> final(self).registered.deep_view() == remove_first(
                old(self).registered.deep_view(),
                path@,
            ),
            r matches Err(e) ==> {
                &&& final(self).registered == old(self).registered
                &&& (e matches StreamError::UnregisterFailed { path: q } && q@ == path@)
            },
    {
        if contains_path(&self.reject_remove, path) {
            let q = clone_path(path);
            return Err(StreamError::UnregisterFailed { path: q });
        }
        let ghost pre = self.registered.deep_view();
        let mut i: usize = 0;
        while i < self.registered.len()
            invariant
                0 <= i <= self.registered@.len(),
                forall|j: int| 0 <= j < i ==> self.registered.deep_view()[j] != path@,
                *self == *old(self),
            decreases self.registered@.len() - i,
        {
            proof {
                assert(self.registered.deep_view()[i as int] == self.registered@[i as int]@);
            }
            if self.registered[i] == *path {
                let ghost top = self.registered.deep_view();
                proof {
                    assert(top == pre);
                    assert(top.len() == self.registered@.len());
                    lemma_remove_first_at(pre, path@, i as int);
                }
                self.registered.remove(i);
                proof {
                    assert(self.registered.deep_view() =~= top.subrange(0, i as int)
                        + top.subrange(i as int + 1, top.len() as int));
                }
                return Ok(());
            }
            i += 1;
        }
        proof {
            lemma_remove_first_absent(pre, path@);
        }
        Ok(())
    }
}

/// Whether `s` occurs, by text, among `v`.
#[verifier::loop_isolation(false)]
pub fn contains_path(v: &Vec<String>, s: &String) -> (r: bool)
    ensures
        r == v.deep_view().contains(s@),
{
    let mut i: usize = 0;
    while i < v.len()
        invariant
            0 <= i <= v@.len(),
            forall|j: int| 0 <= j < i ==> v.deep_view()[j] != s@,
        decreases v@.len() - i,
    {
        if v[i] == *s {
            proof {
                assert(v.deep_view()[i as int] == s@);
            }
            return true;
        }
        i += 1;
    }
    proof {
        assert(forall|j: int| 0 <= j < v.deep_view().len() ==> v.deep_view()[j] != s@);
    }
    false
}

/// A copy of one path, equal by text.
pub fn clone_path(s: &String) -> (r: String)
    ensures
        r@ == s@,
{
    s.clone()
}

/// A copy of a list of paths or users, equal by text, element for element.
#[verifier::loop_isolation(false)]
pub fn clone_paths(v: &Vec<String>) -> (r: Vec<String>)
    ensures
        r.deep_view() == v.deep_view(),
{
    let mut r: Vec<String> = Vec::new();
    let mut i: usize = 0;
    while i < v.len()
        invariant
            0 <= i <= v@.len(),
            r.deep_view() == v.deep_view().subrange(0, i as int),
        decreases v@.len() - i,
    {
        let p = v[i].clone();
        let ghost top = r.deep_view();
        r.push(p);
        proof {
            assert(v.deep_view()[i as int] == v@[i as int]@);
            assert(r.deep_view() =~= top.push(v@[i as int]@));
            assert(r.deep_view() =~= v.deep_view().subrange(0, i as int + 1));
        }
        i += 1;
    }
    proof {
        assert(v.deep_view().subrange(0, v@.len() as int) =~= v.deep_view());
    }
    r
}

} // verus!
