//! The session registry.
//!
//! One registry instance, owned by the process's composition root and
//! passed explicitly to bootstrap, dispatch and teardown. Registration and
//! removal take the registry exclusively; readers share it. A session is
//! registered only complete — bootstrap never publishes a partial one.

use vstd::prelude::*;
use crate::assoc::{assoc_at, assoc_has, assoc_idx, assoc_unique, lemma_assoc_at_index};
use crate::errors::Error;
use crate::session::Session;

verus! {

/// The registry: session id to session, each live id at most once.
pub struct Registry {
    pub sessions: Vec<(i64, Session)>,
}

impl Registry {
    /// Ids are unique and every registered session is internally
    /// consistent.
    pub open spec fn wf(&self) -> bool {
        &&& assoc_unique(self.sessions@)
        &&& forall|i: int|
            0 <= i < self.sessions@.len() ==> (#[trigger] self.sessions@[i]).1.wf()
    }

    /// Whether a session is registered under `id`.
    pub open spec fn spec_has(&self, id: i64) -> bool {
        assoc_has(self.sessions@, id)
    }

    /// The session registered under `id`.
    pub open spec fn spec_at(&self, id: i64) -> Session {
        assoc_at(self.sessions@, id)
    }

    /// An empty registry.
    pub fn new() -> (r: Registry)
        ensures
            r.wf(),
            r.sessions@.len() == 0,
            forall|id: i64| !r.spec_has(id),
    {
        Registry { sessions: Vec::new() }
    }

    /// Look a session up by id. The reference is valid only for the
    /// duration of the call that obtained it.
    pub fn get(&self, id: i64) -> (r: Option<&Session>)
        requires
            self.wf(),
        ensures
            match r {
                Some(s) => self.spec_has(id) && *s == self.spec_at(id) && s.wf(),
                None => !self.spec_has(id),
            },
    {
        let mut i: usize = 0;
        while i < self.sessions.len()
            invariant
                self.wf(),
                0 <= i <= self.sessions@.len(),
                forall|j: int| 0 <= j < i ==> (#[trigger] self.sessions@[j]).0 != id,
            decreases self.sessions@.len() - i,
        {
            if self.sessions[i].0 == id {
                proof {
                    lemma_assoc_at_index(self.sessions@, id, i as int);
                }
                return Some(&self.sessions[i].1);
            }
            i = i + 1;
        }
        None
    }

    /// Register a session under a fresh id; an id already in use is
    /// rejected and the registry is left unchanged.
    pub fn insert(&mut self, id: i64, s: Session) -> (r: Result<(), Error>)
        requires
            old(self).wf(),
            s.wf(),
        ensures
            final(self).wf(),
            old(self).spec_has(id) <==> r == Err::<(), Error>(Error::AlreadyExists),
            !old(self).spec_has(id) <==> r is Ok,
            r is Err ==> final(self).sessions@ == old(self).sessions@,
            r is Ok ==> final(self).sessions@ == old(self).sessions@.push((id, s)),
            forall|x: i64|
                #[trigger] final(self).spec_has(x) <==> (old(self).spec_has(x) || (x == id
                    && r is Ok)),
            r is Ok ==> final(self).spec_at(id) == s,
            forall|x: i64|
                old(self).spec_has(x) ==> #[trigger] final(self).spec_at(x) == old(self).spec_at(
                    x,
                ),
    {
        let mut i: usize = 0;
        while i < self.sessions.len()
            invariant
                *self == *old(self),
                self.wf(),
                0 <= i <= self.sessions@.len(),
                forall|j: int| 0 <= j < i ==> (#[trigger] self.sessions@[j]).0 != id,
            decreases self.sessions@.len() - i,
        {
            if self.sessions[i].0 == id {
                proof {
                    lemma_assoc_at_index(self.sessions@, id, i as int);
                }
                return Err(Error::AlreadyExists);
            }
            i = i + 1;
        }
        self.sessions.push((id, s));
        proof {
            let news = self.sessions@;
            let olds = old(self).sessions@;
            assert(news.len() == olds.len() + 1);
            assert(news[olds.len() as int].0 == id);
            assert forall|a: int, b: int| 0 <= a < b < news.len() implies (#[trigger] news[a]).0
                != (#[trigger] news[b]).0 by {
                if b < olds.len() {
                    assert(olds[a].0 != olds[b].0);
                } else {
                    assert(news[a].0 == olds[a].0);
                    assert(olds[a].0 != id);
                }
            }
            assert forall|x: i64| #[trigger]
                self.spec_has(x) <==> (old(self).spec_has(x) || x == id) by {
                if self.spec_has(x) {
                    let k = assoc_idx(news, x);
                    if k < olds.len() {
                        assert(olds[k].0 == news[k].0);
                    }
                }
                if old(self).spec_has(x) {
                    let k = assoc_idx(olds, x);
                    assert(news[k].0 == olds[k].0);
                }
            }
            lemma_assoc_at_index(news, id, olds.len() as int);
            assert forall|x: i64| old(self).spec_has(x) implies #[trigger] self.spec_at(x) == old(
                self,
            ).spec_at(x) by {
                let k = assoc_idx(olds, x);
                assert(olds[k].0 == x);
                assert(news[k].0 == x);
                lemma_assoc_at_index(news, x, k);
                lemma_assoc_at_index(olds, x, k);
            }
        }
        Ok(())
    }

    /// Remove the session registered under `id`; an unknown id is
    /// reported and the registry is left unchanged.
    pub fn remove(&mut self, id: i64) -> (r: Result<(), Error>)
        requires
            old(self).wf(),
        ensures
            final(self).wf(),
            old(self).spec_has(id) <==> r is Ok,
            !old(self).spec_has(id) <==> r == Err::<(), Error>(Error::UnknownSession),
            r is Err ==> final(self).sessions@ == old(self).sessions@,
            !final(self).spec_has(id),
            forall|x: i64|
                #[trigger] final(self).spec_has(x) <==> (old(self).spec_has(x) && x != id),
            forall|x: i64|
                old(self).spec_has(x) && x != id ==> #[trigger] final(self).spec_at(x) == old(
                    self,
                ).spec_at(x),
    {
        let mut i: usize = 0;
        while i < self.sessions.len()
            invariant
                *self == *old(self),
                self.wf(),
                0 <= i <= self.sessions@.len(),
                forall|j: int| 0 <= j < i ==> (#[trigger] self.sessions@[j]).0 != id,
            decreases self.sessions@.len() - i,
        {
            if self.sessions[i].0 == id {
                proof {
                    lemma_assoc_at_index(self.sessions@, id, i as int);
                }
                let ghost gi = i as int;
                self.sessions.remove(i);
                proof {
                    let news = self.sessions@;
                    let olds = old(self).sessions@;
                    assert(news =~= olds.remove(gi));
                    assert(news.len() == olds.len() - 1);
                    assert forall|a: int| 0 <= a < news.len() implies #[trigger] news[a] == (
                    if a < gi {
                        olds[a]
                    } else {
                        olds[a + 1]
                    }) by {}
                    assert forall|a: int, b: int| 0 <= a < b < news.len() implies (
                    #[trigger] news[a]).0 != (#[trigger] news[b]).0 by {}
                    assert forall|x: i64| #[trigger]
                        self.spec_has(x) <==> (old(self).spec_has(x) && x != id) by {
                        if self.spec_has(x) {
                            let k = assoc_idx(news, x);
                            if k < gi {
                                assert(olds[k].0 == x);
                            } else {
                                assert(olds[k + 1].0 == x);
                            }
                            assert(x != id);
                        }
                        if old(self).spec_has(x) && x != id {
                            let k = assoc_idx(olds, x);
                            assert(olds[k].0 == x);
                            assert(k != gi);
                            if k < gi {
                                assert(news[k].0 == x);
                            } else {
                                assert(news[k - 1].0 == x);
                            }
                        }
                    }
                    assert forall|x: i64|
                        old(self).spec_has(x) && x != id implies #[trigger] self.spec_at(x) == old(
                        self,
                    ).spec_at(x) by {
                        let k = assoc_idx(olds, x);
                        assert(olds[k].0 == x);
                        assert(k != gi);
                        if k < gi {
                            lemma_assoc_at_index(news, x, k);
                        } else {
                            lemma_assoc_at_index(news, x, k - 1);
                        }
                        lemma_assoc_at_index(olds, x, k);
                    }
                }
                return Ok(());
            }
            i = i + 1;
        }
        Err(Error::UnknownSession)
    }
}

} // verus!
