use vstd::prelude::*;

use crate::router::{route_pending, route_released, MsgView, RoundMessage, RouteOutcome, Router};
use crate::session::{join_spec, tick_spec, JoinError, Session, SessionEvent, SessionState};

verus! {

/// One session's coordinator and router, owned by the task that drives its
/// ceremony: no message reaches the driver before every participant has
/// joined, and a timeout discards what was buffered.
pub struct Ceremony {
    session: Session,
    router: Router,
}

impl Ceremony {
    /// The session.
    pub closed spec fn spec_session(&self) -> Session {
        self.session
    }

    /// The router.
    pub closed spec fn spec_router(&self) -> Router {
        self.router
    }

    /// The coordinator's session is well formed.
    pub closed spec fn wf(&self) -> bool {
        self.session.wf()
    }

    /// Pairs a session with the router for its participants.
    pub fn new(session: Session, router: Router) -> (r: Ceremony)
        requires
            session.wf(),
        ensures
            r.wf(),
            r.spec_session() == session,
            r.spec_router() == router,
    {
        Ceremony { session, router }
    }

    /// Current session state.
    pub fn state(&self) -> (r: SessionState)
        ensures
            r == self.spec_session()@.state,
    {
        self.session.state()
    }

    /// Whether the driver may run rounds: the session is active.
    pub fn may_proceed(&self) -> (r: bool)
        ensures
            r == (self.spec_session()@.state == SessionState::Active),
    {
        self.session.state() == SessionState::Active
    }

    /// Records a join; see [`Session::join`].
    pub fn join(&mut self, participant: u16) -> (r: Result<Option<SessionEvent>, JoinError>)
        requires
            old(self).wf(),
        ensures
            final(self).wf(),
            final(self).spec_session()@ == join_spec(old(self).spec_session()@, participant as int),
            final(self).spec_router() == old(self).spec_router(),
            r == Ok::<Option<SessionEvent>, JoinError>(Some(SessionEvent::Active)) <==> (old(self).spec_session()@.state == SessionState::Waiting && final(self).spec_session()@.state
                == SessionState::Active),
    {
        self.session.join(participant)
    }

    /// Advances the clock; a timeout discards every buffered message.
    pub fn tick(&mut self, now: u64) -> (r: Option<SessionEvent>)
        requires
            old(self).wf(),
        ensures
            final(self).wf(),
            final(self).spec_session()@ == tick_spec(old(self).spec_session()@, now as int),
            r == (if final(self).spec_session()@ != old(self).spec_session()@ {
                Some(SessionEvent::TimedOut)
            } else {
                None
            }),
            r is Some ==> final(self).spec_router().spec_pending() == Seq::<MsgView>::empty()
                && final(self).spec_router().spec_released() == old(self).spec_router().spec_released(),
            r is None ==> final(self).spec_router() == old(self).spec_router(),
    {
        let event = self.session.tick(now);
        if event.is_some() {
            self.router.clear();
        }
        event
    }

    /// Routes a peer message while the session is active; otherwise drops
    /// it and changes nothing.
    pub fn route(&mut self, message: RoundMessage) -> (r: RouteOutcome)
        requires
            old(self).wf(),
        ensures
            final(self).wf(),
            final(self).spec_session() == old(self).spec_session(),
            old(self).spec_session()@.state != SessionState::Active ==> r is Dropped && final(self).spec_router() == old(self).spec_router(),
            old(self).spec_session()@.state == SessionState::Active ==> final(self).spec_router().spec_pending() == route_pending(
                old(self).spec_router().spec_expected(),
                old(self).spec_router().spec_pending(),
                old(self).spec_router().spec_released(),
                message@,
            ) && final(self).spec_router().spec_released() == route_released(
                old(self).spec_router().spec_expected(),
                old(self).spec_router().spec_pending(),
                old(self).spec_router().spec_released(),
                message@,
            ),
    {
        if self.session.state() != SessionState::Active {
            return RouteOutcome::Dropped;
        }
        self.router.route(message)
    }

    /// Marks the ceremony completed; see [`Session::complete`].
    pub fn complete(&mut self) -> (r: bool)
        requires
            old(self).wf(),
        ensures
            final(self).wf(),
            r == (old(self).spec_session()@.state == SessionState::Active),
            final(self).spec_router() == old(self).spec_router(),
    {
        self.session.complete()
    }
}

} // verus!
