use vstd::prelude::*;

use crate::types::Parameters;

verus! {

/// Lifecycle state of a session.
#[derive(Clone, Copy, Debug, PartialEq, Eq, Structural)]
pub enum SessionState {
    /// Waiting for every participant to join.
    Waiting,
    /// Every participant joined; the ceremony may run.
    Active,
    /// The ceremony reported its final output.
    Completed,
    /// The join deadline passed before every participant joined.
    TimedOut,
}

/// Events reported to whoever drives the ceremony.
#[derive(Clone, Copy, Debug, PartialEq, Eq, Structural)]
pub enum SessionEvent {
    /// The session became active.
    Active,
    /// The session timed out waiting for participants.
    TimedOut,
}

/// Why a join was refused.
#[derive(Clone, Copy, Debug, PartialEq, Eq, Structural)]
pub enum JoinError {
    /// The index is not one of the session's participants.
    NotSessionParticipant,
    /// The session is no longer waiting for participants; nothing changed.
    Closed,
}

/// Abstract state of a session.
pub struct SessionView {
    pub state: SessionState,
    pub joined: Seq<bool>,
    pub created_at: int,
    pub timeout: int,
}

/// Whether every participant has joined.
pub open spec fn all_joined(joined: Seq<bool>) -> bool {
    forall|i: int| 0 <= i < joined.len() ==> #[trigger] joined[i]
}

/// Whether `participant` (1-based) names one of `n` participants.
pub open spec fn is_participant(n: int, participant: int) -> bool {
    1 <= participant <= n
}

/// The session after a join by `participant`.
pub open spec fn join_spec(v: SessionView, participant: int) -> SessionView {
    if !is_participant(v.joined.len() as int, participant) || v.state != SessionState::Waiting {
        v
    } else {
        let joined = v.joined.update(participant - 1, true);
        SessionView {
            state: if all_joined(joined) {
                SessionState::Active
            } else {
                SessionState::Waiting
            },
            joined,
            ..v
        }
    }
}

/// Whether the join deadline has passed at `now`.
pub open spec fn expired(v: SessionView, now: int) -> bool {
    now - v.created_at > v.timeout
}

/// The session after a clock tick at `now`.
pub open spec fn tick_spec(v: SessionView, now: int) -> SessionView {
    if v.state == SessionState::Waiting && expired(v, now) {
        SessionView { state: SessionState::TimedOut, ..v }
    } else {
        v
    }
}

/// A session: its participants, who joined, and its lifecycle state.
pub struct Session {
    id: u64,
    parameters: Parameters,
    joined: Vec<bool>,
    state: SessionState,
    created_at: u64,
    timeout: u64,
}

impl View for Session {
    type V = SessionView;

    closed spec fn view(&self) -> SessionView {
        SessionView {
            state: self.state,
            joined: self.joined@,
            created_at: self.created_at as int,
            timeout: self.timeout as int,
        }
    }
}

impl Session {
    /// Session identifier.
    pub closed spec fn spec_id(&self) -> u64 {
        self.id
    }

    /// Threshold parameters.
    pub closed spec fn spec_parameters(&self) -> Parameters {
        self.parameters
    }

    /// One participant per party; the local party joins like the others.
    pub closed spec fn wf(&self) -> bool {
        &&& self.parameters.valid()
        &&& self.joined@.len() == self.parameters.parties
    }

    /// Creates a session waiting for all `parameters.parties` participants.
    pub fn create(id: u64, parameters: Parameters, created_at: u64, timeout: u64) -> (r: Session)
        requires
            parameters.valid(),
        ensures
            r.wf(),
            r.spec_id() == id,
            r.spec_parameters() == parameters,
            r@.state == SessionState::Waiting,
            r@.joined == Seq::new(parameters.parties as nat, |i: int| false),
            r@.created_at == created_at,
            r@.timeout == timeout,
    {
        let mut joined: Vec<bool> = Vec::new();
        let mut i: u16 = 0;
        while i < parameters.parties
            invariant
                i <= parameters.parties,
                joined@ == Seq::new(i as nat, |k: int| false),
            decreases parameters.parties - i,
        {
            joined.push(false);
            proof {
                assert(joined@ =~= Seq::new((i + 1) as nat, |k: int| false));
            }
            i = i + 1;
        }
        Session { id, parameters, joined, state: SessionState::Waiting, created_at, timeout }
    }

    /// Session identifier.
    pub fn id(&self) -> (r: u64)
        ensures
            r == self.spec_id(),
    {
        self.id
    }

    /// Threshold parameters.
    pub fn parameters(&self) -> (r: Parameters)
        ensures
            r == self.spec_parameters(),
    {
        self.parameters
    }

    /// Current lifecycle state.
    pub fn state(&self) -> (r: SessionState)
        ensures
            r == self@.state,
    {
        self.state
    }

    fn all_joined(&self) -> (r: bool)
        ensures
            r == all_joined(self.joined@),
    {
        let mut i: usize = 0;
        while i < self.joined.len()
            invariant
                i <= self.joined@.len(),
                forall|k: int| 0 <= k < i ==> self.joined@[k],
            decreases self.joined@.len() - i,
        {
            if !self.joined[i] {
                return false;
            }
            i = i + 1;
        }
        true
    }

    /// Records that `participant` (1-based) joined. The session becomes
    /// active, and `Some(SessionEvent::Active)` is returned, on the join that
    /// completes the participant set; that happens once. A join to a session
    /// that is no longer waiting is refused and changes nothing.
    pub fn join(&mut self, participant: u16) -> (r: Result<Option<SessionEvent>, JoinError>)
        requires
            old(self).wf(),
        ensures
            final(self).wf(),
            final(self).spec_id() == old(self).spec_id(),
            final(self).spec_parameters() == old(self).spec_parameters(),
            final(self)@ == join_spec(old(self)@, participant as int),
            !is_participant(old(self)@.joined.len() as int, participant as int) ==> r == Err::<
                Option<SessionEvent>,
                JoinError,
            >(JoinError::NotSessionParticipant),
            is_participant(old(self)@.joined.len() as int, participant as int) && old(self)@.state
                != SessionState::Waiting ==> r == Err::<Option<SessionEvent>, JoinError>(
                JoinError::Closed,
            ),
            r is Ok <==> is_participant(old(self)@.joined.len() as int, participant as int)
                && old(self)@.state == SessionState::Waiting,
            r == Ok::<Option<SessionEvent>, JoinError>(Some(SessionEvent::Active)) <==> (old(
                self,
            )@.state == SessionState::Waiting && final(self)@.state == SessionState::Active),
            r matches Ok(e) ==> (e is None || e == Some(SessionEvent::Active)),
    {
        if participant == 0 || participant as usize > self.joined.len() {
            return Err(JoinError::NotSessionParticipant);
        }
        if self.state != SessionState::Waiting {
            return Err(JoinError::Closed);
        }
        self.joined.set((participant - 1) as usize, true);
        if self.all_joined() {
            self.state = SessionState::Active;
            Ok(Some(SessionEvent::Active))
        } else {
            Ok(None)
        }
    }

    /// Advances the clock to `now`. A waiting session whose join deadline
    /// has passed times out, and `Some(SessionEvent::TimedOut)` is returned;
    /// in every other case nothing changes.
    pub fn tick(&mut self, now: u64) -> (r: Option<SessionEvent>)
        requires
            old(self).wf(),
        ensures
            final(self).wf(),
            final(self).spec_id() == old(self).spec_id(),
            final(self).spec_parameters() == old(self).spec_parameters(),
            final(self)@ == tick_spec(old(self)@, now as int),
            r is Some <==> (old(self)@.state == SessionState::Waiting && expired(
                old(self)@,
                now as int,
            )),
            r is Some ==> r == Some(SessionEvent::TimedOut),
    {
        if self.state == SessionState::Waiting && now >= self.created_at && now - self.created_at
            > self.timeout {
            self.state = SessionState::TimedOut;
            Some(SessionEvent::TimedOut)
        } else {
            None
        }
    }

    /// Marks an active session completed; returns false, changing nothing,
    /// in any other state.
    pub fn complete(&mut self) -> (r: bool)
        requires
            old(self).wf(),
        ensures
            final(self).wf(),
            final(self).spec_id() == old(self).spec_id(),
            final(self).spec_parameters() == old(self).spec_parameters(),
            r == (old(self)@.state == SessionState::Active),
            final(self)@ == complete_spec(old(self)@),
    {
        if self.state == SessionState::Active {
            self.state = SessionState::Completed;
            true
        } else {
            false
        }
    }
}

/// A waiting session that has not been fully joined by its deadline times
/// out on the tick that sees the deadline passed; after that no tick reports
/// a timeout again and no join succeeds or changes it.
pub proof fn lemma_timeout_terminal(v: SessionView, now: int, later: int, participant: int)
    requires
        v.state == SessionState::Waiting,
        !all_joined(v.joined),
        expired(v, now),
    ensures
        tick_spec(v, now).state == SessionState::TimedOut,
        tick_spec(v, now).joined == v.joined,
        tick_spec(tick_spec(v, now), later) == tick_spec(v, now),
        join_spec(tick_spec(v, now), participant) == tick_spec(v, now),
{
}

/// A session that has become active or completed can no longer time out.
pub proof fn lemma_no_timeout_after_start(v: SessionView, now: int)
    requires
        v.state == SessionState::Active || v.state == SessionState::Completed,
    ensures
        tick_spec(v, now) == v,
{
}

/// The session after participants `1..=k` join in order.
pub open spec fn join_first(v: SessionView, k: nat) -> SessionView
    decreases k,
{
    if k == 0 {
        v
    } else {
        join_spec(join_first(v, (k - 1) as nat), k as int)
    }
}

/// The session after the ceremony's final output is reported.
pub open spec fn complete_spec(v: SessionView) -> SessionView {
    if v.state == SessionState::Active {
        SessionView { state: SessionState::Completed, ..v }
    } else {
        v
    }
}

proof fn lemma_join_prefix(v: SessionView, k: nat)
    requires
        v.state == SessionState::Waiting,
        v.joined.len() >= 1,
        forall|i: int| 0 <= i < v.joined.len() ==> !(#[trigger] v.joined[i]),
        k < v.joined.len(),
    ensures
        join_first(v, k).state == SessionState::Waiting,
        join_first(v, k).joined.len() == v.joined.len(),
        forall|i: int|
            0 <= i < v.joined.len() ==> (#[trigger] join_first(v, k).joined[i]) == (i < k),
    decreases k,
{
    if k > 0 {
        lemma_join_prefix(v, (k - 1) as nat);
        let prev = join_first(v, (k - 1) as nat);
        let joined = prev.joined.update(k - 1, true);
        assert(!joined[v.joined.len() - 1]);
    }
}

/// A ceremony whose `n` participants all join, starting from a freshly
/// created session, becomes active on the last join and completes when
/// its output is reported.
pub proof fn lemma_full_join_completes(v: SessionView)
    requires
        v.state == SessionState::Waiting,
        v.joined.len() >= 1,
        forall|i: int| 0 <= i < v.joined.len() ==> !(#[trigger] v.joined[i]),
    ensures
        join_first(v, v.joined.len()).state == SessionState::Active,
        complete_spec(join_first(v, v.joined.len())).state == SessionState::Completed,
{
    let n = v.joined.len();
    lemma_join_prefix(v, (n - 1) as nat);
    let prev = join_first(v, (n - 1) as nat);
    let joined = prev.joined.update(n - 1, true);
    assert(all_joined(joined));
}

} // verus!
