use vstd::prelude::*;

use multi_party_ecdsa::protocols::multi_party_ecdsa::gg_2020::state_machine::{keygen, sign};

use crate::bytes::{bytes_eq, hex_of, to_hex};

verus! {

/// Errors generated by a ceremony driver.
#[derive(Debug)]
pub enum Error {
    /// The local public key (hex) is not a session participant.
    NotSessionParticipant(String),
    /// The local key's index is not among the signing participants.
    LocalKeyNotParticipant,
    /// The combined signature did not verify against the public key.
    VerifySignature,
    /// Key generation error of the math library.
    Keygen(keygen::Error),
    /// Offline signing error of the math library.
    SignOffline(sign::Error),
    /// Local signing or combining error of the math library.
    SignManual(sign::SignError),
    /// The output was asked for before the math library reported completion.
    Unfinished,
}

/// Phase of a ceremony driver.
#[derive(Clone, Copy, Debug, PartialEq, Eq, Structural)]
pub enum Phase {
    /// Created; no round has run.
    Initialized,
    /// Running the given round.
    Running(u16),
    /// The math library reported completion; the output was taken.
    Finished,
}

/// The round-driven state shared by every ceremony:
/// `Initialized -> Running(round) -> Finished`.
pub struct Driver {
    phase: Phase,
    party: u16,
}

impl Driver {
    /// Current phase.
    pub closed spec fn spec_phase(&self) -> Phase {
        self.phase
    }

    /// Participant index of the local party.
    pub closed spec fn spec_party(&self) -> u16 {
        self.party
    }

    /// A driver for the local party `party`.
    pub fn new(party: u16) -> (r: Driver)
        ensures
            r.spec_phase() == Phase::Initialized,
            r.spec_party() == party,
    {
        Driver { phase: Phase::Initialized, party }
    }

    /// Current phase.
    pub fn phase(&self) -> (r: Phase)
        ensures
            r == self.spec_phase(),
    {
        self.phase
    }

    /// Whether routed peer messages may be absorbed now.
    pub fn accepts_incoming(&self) -> (r: bool)
        ensures
            r == (self.spec_phase() is Running),
    {
        match self.phase {
            Phase::Running(_) => true,
            _ => false,
        }
    }

    /// Records that the math library advanced to `round`.
    pub fn enter_round(&mut self, round: u16)
        requires
            !(old(self).spec_phase() is Finished),
        ensures
            final(self).spec_phase() == Phase::Running(round),
            final(self).spec_party() == old(self).spec_party(),
    {
        self.phase = Phase::Running(round);
    }

    /// Records that the output was taken.
    pub fn complete(&mut self)
        ensures
            final(self).spec_phase() == Phase::Finished,
            final(self).spec_party() == old(self).spec_party(),
    {
        self.phase = Phase::Finished;
    }
}

/// One outgoing protocol message, tagged with its round.
#[derive(Debug)]
pub struct RoundMsg<B> {
    /// Round that produced the message.
    pub round: u16,
    /// Sender's participant index.
    pub sender: u16,
    /// Receiver's participant index, or `None` for a broadcast.
    pub receiver: Option<u16>,
    /// Message body.
    pub body: B,
}

impl<B> RoundMsg<B> {
    /// Tags each (sender, receiver, body) with `round`, keeping their order.
    pub fn from_round(round: u16, messages: Vec<(u16, Option<u16>, B)>) -> (r: Vec<RoundMsg<B>>)
        ensures
            r@.len() == messages@.len(),
            forall|i: int|
                0 <= i < r@.len() ==> (#[trigger] r@[i]).round == round && r@[i].sender
                    == messages@[i].0 && r@[i].receiver == messages@[i].1 && r@[i].body
                    == messages@[i].2,
    {
        let ghost all = messages@;
        let mut rest = messages;
        let mut out: Vec<RoundMsg<B>> = Vec::new();
        while rest.len() > 0
            invariant
                out@.len() + rest@.len() == all.len(),
                rest@ == all.subrange(out@.len() as int, all.len() as int),
                forall|i: int|
                    0 <= i < out@.len() ==> (#[trigger] out@[i]).round == round && out@[i].sender
                        == all[i].0 && out@[i].receiver == all[i].1 && out@[i].body == all[i].2,
            decreases rest@.len(),
        {
            let (sender, receiver, body) = rest.remove(0);
            out.push(RoundMsg { round, sender, receiver, body });
            proof {
                assert(rest@ =~= all.subrange(out@.len() as int, all.len() as int));
            }
        }
        out
    }
}

/// Whether `key` is one of `participants`.
pub open spec fn is_listed(participants: Seq<Vec<u8>>, key: Seq<u8>) -> bool {
    exists|i: int| 0 <= i < participants.len() && (#[trigger] participants[i])@ == key
}

/// Finds the local public key among the session participants and returns
/// its 1-based participant index (its first occurrence).
pub fn participant_index(participants: &Vec<Vec<u8>>, public_key: &[u8]) -> (r: Result<u16, Error>)
    requires
        participants@.len() < 65536,
    ensures
        r is Ok <==> is_listed(participants@, public_key@),
        r matches Ok(i) ==> 1 <= i <= participants@.len() && participants@[i - 1]@ == public_key@
            && forall|k: int| 0 <= k < i - 1 ==> participants@[k]@ != public_key@,
        r matches Err(e) ==> (e matches Error::NotSessionParticipant(s) && s@ == hex_of(
            public_key@,
        )),
{
    let mut i: usize = 0;
    while i < participants.len()
        invariant
            i <= participants@.len(),
            participants@.len() < 65536,
            forall|k: int| 0 <= k < i ==> participants@[k]@ != public_key@,
        decreases participants@.len() - i,
    {
        if bytes_eq(participants[i].as_slice(), public_key) {
            return Ok((i + 1) as u16);
        }
        i = i + 1;
    }
    Err(Error::NotSessionParticipant(to_hex(public_key)))
}

/// Whether the signer at 1-based position `index` among `participants`
/// holds the key share with index `key_index`.
pub open spec fn local_key_listed(index: u16, participants: Seq<u16>, key_index: u16) -> bool {
    1 <= index <= participants.len() && participants[index - 1] == key_index
}

/// Checks that the local key share's index is the participant entry at the
/// signer's position.
pub fn check_local_key(index: u16, participants: &Vec<u16>, key_index: u16) -> (r: Result<
    (),
    Error,
>)
    ensures
        r is Ok <==> local_key_listed(index, participants@, key_index),
        r is Err ==> r == Err::<(), Error>(Error::LocalKeyNotParticipant),
{
    if index >= 1 && (index as usize) <= participants.len() && participants[(index - 1) as usize]
        == key_index {
        Ok(())
    } else {
        Err(Error::LocalKeyNotParticipant)
    }
}

} // verus!
