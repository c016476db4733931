use vstd::prelude::*;

use crate::bytes::{bytes_eq, bytes_lt, copy_from, hex_of, lemma_lex_total, lex_lt, to_hex};

verus! {

/// Errors generated by the relay client.
#[derive(Debug, Clone, PartialEq, Eq)]
pub enum Error {
    /// The server answered an upgrade request with a status other than
    /// 101 switching protocols.
    ConnectError(u16, String),
    /// The server reported an error.
    ServerError(u16, String),
    /// A reply was expected but none was received.
    NoReply,
    /// A handshake was started with a peer that already has a channel.
    PeerAlreadyExists,
    /// A handshake arrived from a peer to which a handshake is already in
    /// progress: the two peers may be racing to connect.
    PeerAlreadyExistsMaybeRace,
    /// No channel is registered for the peer (hex of its public key).
    PeerNotFound(String),
    /// The channel was expected to be in the handshake state.
    NotHandshakeState,
    /// The channel was expected to be in the transport state.
    NotTransportState,
    /// A handshake message of the wrong kind for the current step.
    InvalidPeerHandshakeMessage,
}

/// HTTP status of a successful websocket upgrade.
pub const SWITCHING_PROTOCOLS: u16 = 101;

/// Classifies the server's answer to a connection upgrade: only 101
/// switching protocols succeeds.
pub fn check_upgrade(status: u16, reason: String) -> (r: Result<(), Error>)
    ensures
        status == SWITCHING_PROTOCOLS <==> r is Ok,
        r matches Err(e) ==> e matches Error::ConnectError(s, m) && s == status && m@ == reason@,
{
    if status == SWITCHING_PROTOCOLS {
        Ok(())
    } else {
        Err(Error::ConnectError(status, reason))
    }
}

/// State of a per-peer encrypted channel.
#[derive(Clone, Copy, Debug, PartialEq, Eq, Structural)]
pub enum ChannelState {
    /// The handshake has not completed yet.
    Handshake,
    /// Keys are derived; application payloads may flow.
    Transport,
}

/// Kind of a peer handshake message.
#[derive(Clone, Copy, Debug, PartialEq, Eq, Structural)]
pub enum HandshakeKind {
    /// First message, sent by the initiator.
    Initiation,
    /// Reply, sent by the responder.
    Response,
}

/// Channels after an `initiate` toward `id`.
pub open spec fn after_initiate(m: Map<Seq<u8>, ChannelState>, id: Seq<u8>) -> Map<
    Seq<u8>,
    ChannelState,
> {
    if m.contains_key(id) {
        m
    } else {
        m.insert(id, ChannelState::Handshake)
    }
}

/// Channels after a `respond` to `id`: a responder that reads the
/// initiation and writes its reply has completed the handshake.
pub open spec fn after_respond(
    m: Map<Seq<u8>, ChannelState>,
    id: Seq<u8>,
    kind: HandshakeKind,
) -> Map<Seq<u8>, ChannelState> {
    if m.contains_key(id) || kind != HandshakeKind::Initiation {
        m
    } else {
        m.insert(id, ChannelState::Transport)
    }
}

/// Channels after an `advance_handshake` on `id`.
pub open spec fn after_advance(
    m: Map<Seq<u8>, ChannelState>,
    id: Seq<u8>,
    kind: HandshakeKind,
) -> Map<Seq<u8>, ChannelState> {
    if m.contains_key(id) && m[id] == ChannelState::Handshake && kind == HandshakeKind::Response {
        m.insert(id, ChannelState::Transport)
    } else {
        m
    }
}

/// Channels after resolving a handshake race with `remote`: the party with
/// the lower public key keeps its initiation, the other discards it.
pub open spec fn after_resolve(m: Map<Seq<u8>, ChannelState>, local: Seq<u8>, remote: Seq<u8>) -> Map<
    Seq<u8>,
    ChannelState,
> {
    if lex_lt(local, remote) {
        m
    } else {
        m.remove(remote)
    }
}

/// Registry of per-peer channels, at most one per remote identity.
pub struct PeerRegistry {
    ids: Vec<Vec<u8>>,
    states: Vec<ChannelState>,
    model: Ghost<Map<Seq<u8>, ChannelState>>,
}

impl View for PeerRegistry {
    type V = Map<Seq<u8>, ChannelState>;

    closed spec fn view(&self) -> Map<Seq<u8>, ChannelState> {
        self.model@
    }
}

impl PeerRegistry {
    /// The channel list and its model agree, with one entry per identity.
    pub closed spec fn wf(&self) -> bool {
        &&& self.ids@.len() == self.states@.len()
        &&& forall|i: int, j: int|
            0 <= i < j < self.ids@.len() ==> self.ids@[i]@ != self.ids@[j]@
        &&& forall|i: int|
            0 <= i < self.ids@.len() ==> self.model@.contains_key(#[trigger] self.ids@[i]@)
                && self.model@[self.ids@[i]@] == self.states@[i]
        &&& forall|k: Seq<u8>|
            #[trigger] self.model@.contains_key(k) ==> exists|i: int|
                0 <= i < self.ids@.len() && self.ids@[i]@ == k
    }

    /// An empty registry.
    pub fn new() -> (r: PeerRegistry)
        ensures
            r.wf(),
            r@ == Map::<Seq<u8>, ChannelState>::empty(),
    {
        PeerRegistry { ids: Vec::new(), states: Vec::new(), model: Ghost(Map::empty()) }
    }

    fn find(&self, id: &[u8]) -> (r: Option<usize>)
        requires
            self.wf(),
        ensures
            r matches Some(i) ==> i < self.ids@.len() && self.ids@[i as int]@ == id@
                && self@.contains_key(id@) && self@[id@] == self.states@[i as int],
            r is None ==> !self@.contains_key(id@),
    {
        let mut i: usize = 0;
        while i < self.ids.len()
            invariant
                self.wf(),
                i <= self.ids@.len(),
                forall|k: int| 0 <= k < i ==> self.ids@[k]@ != id@,
            decreases self.ids@.len() - i,
        {
            if bytes_eq(self.ids[i].as_slice(), id) {
                return Some(i);
            }
            i = i + 1;
        }
        None
    }

    fn add(&mut self, id: &[u8], state: ChannelState)
        requires
            old(self).wf(),
            !old(self)@.contains_key(id@),
        ensures
            final(self).wf(),
            final(self)@ == old(self)@.insert(id@, state),
    {
        let ghost old_ids = self.ids@;
        let v = copy_from(id, 0);
        proof {
            assert(v@ =~= id@);
        }
        self.ids.push(v);
        self.states.push(state);
        self.model = Ghost(self.model@.insert(id@, state));
        proof {
            assert forall|i: int| 0 <= i < old_ids.len() implies self.ids@[i]@ != id@ by {
                assert(self.ids@[i] == old_ids[i]);
            }
            assert forall|k: Seq<u8>| #[trigger] self.model@.contains_key(k) implies exists|i: int|
                0 <= i < self.ids@.len() && self.ids@[i]@ == k by {
                if k == id@ {
                    assert(self.ids@[old_ids.len() as int]@ == k);
                } else {
                    let i = choose|i: int| 0 <= i < old_ids.len() && old_ids[i]@ == k;
                    assert(self.ids@[i] == old_ids[i]);
                }
            }
        }
    }

    /// Whether a channel for `remote` exists.
    pub fn contains(&self, remote: &[u8]) -> (r: bool)
        requires
            self.wf(),
        ensures
            r == self@.contains_key(remote@),
    {
        self.find(remote).is_some()
    }

    /// State of the channel for `remote`, if one exists.
    pub fn state(&self, remote: &[u8]) -> (r: Option<ChannelState>)
        requires
            self.wf(),
        ensures
            r is Some <==> self@.contains_key(remote@),
            r matches Some(s) ==> s == self@[remote@],
    {
        match self.find(remote) {
            Some(i) => Some(self.states[i]),
            None => None,
        }
    }

    /// Starts a handshake with `remote`.
    pub fn initiate(&mut self, remote: &[u8]) -> (r: Result<(), Error>)
        requires
            old(self).wf(),
        ensures
            final(self).wf(),
            final(self)@ == after_initiate(old(self)@, remote@),
            r is Ok <==> !old(self)@.contains_key(remote@),
            r is Err ==> r == Err::<(), Error>(Error::PeerAlreadyExists),
    {
        match self.find(remote) {
            Some(_) => Err(Error::PeerAlreadyExists),
            None => {
                self.add(remote, ChannelState::Handshake);
                Ok(())
            },
        }
    }

    /// Answers a handshake started by `remote`.
    pub fn respond(&mut self, remote: &[u8], kind: HandshakeKind) -> (r: Result<(), Error>)
        requires
            old(self).wf(),
        ensures
            final(self).wf(),
            final(self)@ == after_respond(old(self)@, remote@, kind),
            r is Ok <==> !old(self)@.contains_key(remote@) && kind == HandshakeKind::Initiation,
            old(self)@.contains_key(remote@) && old(self)@[remote@] == ChannelState::Handshake
                ==> r == Err::<(), Error>(Error::PeerAlreadyExistsMaybeRace),
            old(self)@.contains_key(remote@) && old(self)@[remote@] == ChannelState::Transport
                ==> r == Err::<(), Error>(Error::PeerAlreadyExists),
            !old(self)@.contains_key(remote@) && kind != HandshakeKind::Initiation
                ==> r == Err::<(), Error>(Error::InvalidPeerHandshakeMessage),
    {
        match self.find(remote) {
            Some(i) => {
                if self.states[i] == ChannelState::Handshake {
                    Err(Error::PeerAlreadyExistsMaybeRace)
                } else {
                    Err(Error::PeerAlreadyExists)
                }
            },
            None => {
                if kind != HandshakeKind::Initiation {
                    Err(Error::InvalidPeerHandshakeMessage)
                } else {
                    self.add(remote, ChannelState::Transport);
                    Ok(())
                }
            },
        }
    }

    /// Takes the next handshake message from `remote`; the responder's
    /// reply completes the handshake.
    pub fn advance_handshake(&mut self, remote: &[u8], kind: HandshakeKind) -> (r: Result<
        (),
        Error,
    >)
        requires
            old(self).wf(),
        ensures
            final(self).wf(),
            final(self)@ == after_advance(old(self)@, remote@, kind),
            r is Ok <==> old(self)@.contains_key(remote@) && old(self)@[remote@]
                == ChannelState::Handshake && kind == HandshakeKind::Response,
            !old(self)@.contains_key(remote@) ==> (r matches Err(Error::PeerNotFound(s)) && s@
                == hex_of(remote@)),
            old(self)@.contains_key(remote@) && old(self)@[remote@] == ChannelState::Transport
                ==> r == Err::<(), Error>(Error::NotHandshakeState),
            old(self)@.contains_key(remote@) && old(self)@[remote@] == ChannelState::Handshake
                && kind != HandshakeKind::Response
                ==> r == Err::<(), Error>(Error::InvalidPeerHandshakeMessage),
    {
        match self.find(remote) {
            None => Err(Error::PeerNotFound(to_hex(remote))),
            Some(i) => {
                if self.states[i] == ChannelState::Transport {
                    Err(Error::NotHandshakeState)
                } else if kind != HandshakeKind::Response {
                    Err(Error::InvalidPeerHandshakeMessage)
                } else {
                    self.states.set(i, ChannelState::Transport);
                    self.model = Ghost(self.model@.insert(remote@, ChannelState::Transport));
                    proof {
                        assert forall|j: int| 0 <= j < self.ids@.len() implies self.model@.contains_key(
                            #[trigger] self.ids@[j]@,
                        ) && self.model@[self.ids@[j]@] == self.states@[j] by {
                            if j != i {
                                assert(self.ids@[j]@ != self.ids@[i as int]@);
                            }
                        }
                    }
                    Ok(())
                }
            },
        }
    }

    /// Checks that application payloads may flow to and from `remote`.
    pub fn check_transport(&self, remote: &[u8]) -> (r: Result<(), Error>)
        requires
            self.wf(),
        ensures
            r is Ok <==> self@.contains_key(remote@) && self@[remote@] == ChannelState::Transport,
            !self@.contains_key(remote@) ==> (r matches Err(Error::PeerNotFound(s)) && s@
                == hex_of(remote@)),
            self@.contains_key(remote@) && self@[remote@] == ChannelState::Handshake ==> r
                == Err::<(), Error>(Error::NotTransportState),
    {
        match self.find(remote) {
            None => Err(Error::PeerNotFound(to_hex(remote))),
            Some(i) => {
                if self.states[i] == ChannelState::Transport {
                    Ok(())
                } else {
                    Err(Error::NotTransportState)
                }
            },
        }
    }

    /// Tears down the channel for `remote`; returns whether one existed.
    pub fn remove(&mut self, remote: &[u8]) -> (r: bool)
        requires
            old(self).wf(),
        ensures
            final(self).wf(),
            final(self)@ == old(self)@.remove(remote@),
            r == old(self)@.contains_key(remote@),
    {
        match self.find(remote) {
            None => {
                proof {
                    assert(self.model@.remove(remote@) =~= self.model@);
                }
                false
            },
            Some(i) => {
                let ghost old_ids = self.ids@;
                let ghost old_states = self.states@;
                self.ids.remove(i);
                self.states.remove(i);
                self.model = Ghost(self.model@.remove(remote@));
                proof {
                    assert forall|a: int, b: int| 0 <= a < b < self.ids@.len() implies self.ids@[a]@
                        != self.ids@[b]@ by {
                        let oa = if a < i { a } else { a + 1 };
                        let ob = if b < i { b } else { b + 1 };
                        assert(self.ids@[a] == old_ids[oa]);
                        assert(self.ids@[b] == old_ids[ob]);
                    }
                    assert forall|j: int| 0 <= j < self.ids@.len() implies self.model@.contains_key(
                        #[trigger] self.ids@[j]@,
                    ) && self.model@[self.ids@[j]@] == self.states@[j] by {
                        let oj = if j < i { j } else { j + 1 };
                        assert(self.ids@[j] == old_ids[oj]);
                        assert(self.states@[j] == old_states[oj]);
                        assert(old_ids[oj]@ != old_ids[i as int]@);
                    }
                    assert forall|k: Seq<u8>| #[trigger] self.model@.contains_key(k) implies exists|
                        j: int,
                    | 0 <= j < self.ids@.len() && self.ids@[j]@ == k by {
                        let oj = choose|oj: int| 0 <= oj < old_ids.len() && old_ids[oj]@ == k;
                        assert(oj != i);
                        let j = if oj < i { oj } else { oj - 1 };
                        assert(self.ids@[j] == old_ids[oj]);
                    }
                }
                true
            },
        }
    }

    /// Resolves a simultaneous handshake with `remote` by identity order:
    /// when `local` is the lower public key its initiation stands, otherwise
    /// it is discarded so that the peer's initiation can be answered.
    /// Returns whether the local initiation stands.
    pub fn resolve_race(&mut self, local: &[u8], remote: &[u8]) -> (r: bool)
        requires
            old(self).wf(),
        ensures
            final(self).wf(),
            r == lex_lt(local@, remote@),
            final(self)@ == after_resolve(old(self)@, local@, remote@),
    {
        if bytes_lt(local, remote) {
            true
        } else {
            self.remove(remote);
            false
        }
    }
}

/// Two parties racing to initiate a handshake with each other end with
/// exactly one transport channel each way. Each first initiates toward the
/// other; each then sees the other's initiation rejected as a race; the
/// party with the higher public key discards its own initiation and answers
/// the other's; the lower one takes that answer and completes.
pub proof fn lemma_race_resolves(
    a: Seq<u8>,
    b: Seq<u8>,
    ra: Map<Seq<u8>, ChannelState>,
    rb: Map<Seq<u8>, ChannelState>,
)
    requires
        a != b,
        !ra.contains_key(b),
        !rb.contains_key(a),
    ensures
        lex_lt(a, b) != lex_lt(b, a),
        ({
            let a1 = after_initiate(ra, b);
            let b1 = after_initiate(rb, a);
            let a2 = after_resolve(a1, a, b);
            let b2 = after_resolve(b1, b, a);
            let a3 = if lex_lt(a, b) {
                after_advance(a2, b, HandshakeKind::Response)
            } else {
                after_respond(a2, b, HandshakeKind::Initiation)
            };
            let b3 = if lex_lt(b, a) {
                after_advance(b2, a, HandshakeKind::Response)
            } else {
                after_respond(b2, a, HandshakeKind::Initiation)
            };
            &&& a1[b] == ChannelState::Handshake
            &&& b1[a] == ChannelState::Handshake
            &&& a3.contains_key(b) && a3[b] == ChannelState::Transport
            &&& b3.contains_key(a) && b3[a] == ChannelState::Transport
            &&& a3.remove(b) == ra
            &&& b3.remove(a) == rb
        }),
{
    lemma_lex_total(a, b);
    let a1 = after_initiate(ra, b);
    let b1 = after_initiate(rb, a);
    if lex_lt(a, b) {
        assert(after_advance(a1, b, HandshakeKind::Response).remove(b) =~= ra);
        assert(after_respond(b1.remove(a), a, HandshakeKind::Initiation).remove(a) =~= rb);
    } else {
        assert(after_respond(a1.remove(b), b, HandshakeKind::Initiation).remove(b) =~= ra);
        assert(after_advance(b1, a, HandshakeKind::Response).remove(a) =~= rb);
    }
}

} // verus!
