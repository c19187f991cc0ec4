//! The single worker that runs builds one at a time, in the order in which
//! they were submitted, from a bounded mailbox.
//!
//! A submission beyond the mailbox's capacity fails at once: the mailbox
//! counts the requests that are waiting and the one being built, and hands a
//! request that does not fit back to its submitter.

use crate::pipeline::{accepts_outcome, tool_running, transition, Action, BuildRequestType, BuildSession, Outcome, Stage};
use std::collections::VecDeque;
use vstd::prelude::*;

verus! {

/// A request to build a program, with the channel `R` that its events go to.
pub struct BuildRequest<R> {
    pub request_type: BuildRequestType,
    pub responder: R,
}

impl<R> BuildRequest<R> {
    /// A request to build the program in a git repository.
    pub fn new_git(url: String, responder: R) -> (r: Self)
        ensures
            r.request_type == (BuildRequestType::Git { url }),
            r.responder == responder,
    {
        BuildRequest { request_type: BuildRequestType::Git { url }, responder }
    }

    /// A request to build the program in a tar archive.
    pub fn new_tar(raw_archive: Vec<u8>, responder: R) -> (r: Self)
        ensures
            r.request_type == (BuildRequestType::Tar { raw_archive }),
            r.responder == responder,
    {
        BuildRequest { request_type: BuildRequestType::Tar { raw_archive }, responder }
    }
}

/// The first action of the build of a request.
pub open spec fn first_action(request_type: BuildRequestType) -> Action {
    match request_type {
        BuildRequestType::Git { url } => Action::CloneRepository { url },
        BuildRequestType::Tar { raw_archive } => Action::UnpackArchive { raw_archive },
    }
}

/// The mailbox of build requests and the one build in progress, if any.
pub struct Orchestrator<R> {
    pending: VecDeque<BuildRequest<R>>,
    active: Option<BuildSession>,
    capacity: usize,
}

impl<R> Orchestrator<R> {
    /// The requests waiting, oldest first.
    pub closed spec fn pending(&self) -> Seq<BuildRequest<R>> {
        self.pending@
    }

    /// The build in progress.
    pub closed spec fn active(&self) -> Option<BuildSession> {
        self.active
    }

    pub closed spec fn capacity(&self) -> nat {
        self.capacity as nat
    }

    /// The number of requests taken and not yet finished.
    pub open spec fn load(&self) -> nat {
        self.pending().len() + if self.active() is Some {
            1nat
        } else {
            0nat
        }
    }

    pub closed spec fn wf(&self) -> bool {
        &&& self.load() <= self.capacity
        &&& match self.active {
            Some(s) => s.wf() && !s.is_finished(),
            None => true,
        }
    }

    /// An empty mailbox that holds at most `capacity` requests, the one being
    /// built included.
    pub fn new(capacity: usize) -> (r: Self)
        ensures
            r.wf(),
            r.pending().len() == 0,
            r.active() is None,
            r.capacity() == capacity,
    {
        Orchestrator { pending: VecDeque::new(), active: None, capacity }
    }

    /// Whether no build is in progress.
    pub fn is_idle(&self) -> (r: bool)
        ensures
            r == (self.active() is None),
    {
        self.active.is_none()
    }

    /// The number of requests waiting.
    pub fn pending_len(&self) -> (r: usize)
        ensures
            r == self.pending().len(),
    {
        self.pending.len()
    }

    /// Puts a request at the back of the mailbox, or hands it back where the
    /// mailbox is full.
    pub fn submit(&mut self, request: BuildRequest<R>) -> (r: Result<(), BuildRequest<R>>)
        requires
            old(self).wf(),
        ensures
            final(self).wf(),
            final(self).capacity() == old(self).capacity(),
            final(self).active() == old(self).active(),
            old(self).load() < old(self).capacity() ==> r is Ok && final(self).pending() == old(self).pending().push(
                request,
            ),
            old(self).load() >= old(self).capacity() ==> r == Err::<(), BuildRequest<R>>(request)
                && final(self).pending() == old(self).pending(),
    {
        let load = if self.active.is_some() {
            self.pending.len() + 1
        } else {
            self.pending.len()
        };
        if load < self.capacity {
            self.pending.push_back(request);
            Ok(())
        } else {
            Err(request)
        }
    }

    /// Starts the build of the oldest waiting request, where no build is in
    /// progress: returns the request's responder and the build's first action.
    pub fn begin_next(&mut self) -> (r: Option<(R, Action)>)
        requires
            old(self).wf(),
        ensures
            final(self).wf(),
            final(self).capacity() == old(self).capacity(),
            old(self).active() is Some || old(self).pending().len() == 0 ==> r is None && *final(self)
                == *old(self),
            old(self).active() is None && old(self).pending().len() > 0 ==> {
                let req = old(self).pending()[0];
                &&& r == Some((req.responder, first_action(req.request_type)))
                &&& final(self).pending() == old(self).pending().drop_first()
                &&& final(self).active() matches Some(s) && s.stage() == Stage::Fetching && s.sent().len() == 0
                    && s.commits().len() == 0
            },
    {
        if self.active.is_some() || self.pending.len() == 0 {
            return None;
        }
        match self.pending.pop_front() {
            None => None,
            Some(request) => {
                let (session, action) = BuildSession::new(request.request_type);
                self.active = Some(session);
                Some((request.responder, action))
            },
        }
    }

    /// Whether the build in progress takes `outcome`.
    pub fn accepts(&self, outcome: &Outcome) -> (r: bool)
        ensures
            r == match self.active() {
                Some(s) => accepts_outcome(s.stage(), *outcome),
                None => false,
            },
    {
        match &self.active {
            Some(s) => s.accepts(outcome),
            None => false,
        }
    }

    /// Hands the build in progress what came of its last action and returns
    /// the next one. After `Finish` no build is in progress.
    pub fn step(&mut self, outcome: Outcome) -> (r: Action)
        requires
            old(self).wf(),
            old(self).active() matches Some(s) && accepts_outcome(s.stage(), outcome),
        ensures
            final(self).wf(),
            final(self).capacity() == old(self).capacity(),
            final(self).pending() == old(self).pending(),
            ({
                let s = old(self).active()->Some_0;
                match final(self).active() {
                    Some(s2) => !(r is Finish) && transition(s.stage(), outcome, s2.stage(), r) && s2.sent()
                        == match r {
                        Action::Forward(c) => s.sent().push(Ok(c)),
                        Action::Report(t) => s.sent().push(t),
                        _ => s.sent(),
                    } && s2.commits() == match r {
                        Action::Commit { hash, record } => s.commits().push((hash@, record@)),
                        _ => s.commits(),
                    },
                    None => r is Finish && s.stage() is Reporting && !tool_running(s.stage()),
                }
            }),
    {
        let session = self.active.take().unwrap();
        let (next, action) = session.step(outcome);
        if matches!(action, Action::Finish) {
            action
        } else {
            self.active = Some(next);
            action
        }
    }
}

} // verus!
