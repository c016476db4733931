use vstd::prelude::*;

use curv::BigInt;
use multi_party_ecdsa::protocols::multi_party_ecdsa::gg_2020::party_i::SignatureRecid;
use multi_party_ecdsa::protocols::multi_party_ecdsa::gg_2020::state_machine::keygen::{
    Keygen, ProtocolMessage,
};
use multi_party_ecdsa::protocols::multi_party_ecdsa::gg_2020::state_machine::sign::{
    CompletedOfflineStage, OfflineProtocolMessage, OfflineStage, PartialSignature, SignManual,
};
use multi_party_ecdsa::protocols::multi_party_ecdsa::gg_2020::state_machine::{keygen, sign};
use round_based::{Msg, StateMachine};

use crate::address::{address, address_spec};
use crate::bytes::hex_of;
use crate::driver::{check_local_key, is_listed, local_key_listed, participant_index, Driver, Error, Phase, RoundMsg};
use crate::ecdsa::LocalKeyShare;
use crate::types::KeyShare;

verus! {

/// Index of a key share among the key-generation parties.
pub uninterp spec fn share_index(k: LocalKeyShare) -> u16;

/// Number of key-generation parties of a key share.
pub uninterp spec fn share_parties(k: LocalKeyShare) -> u16;

/// The math library's threshold of a key share: one less than the number
/// of signers needed.
pub uninterp spec fn share_threshold(k: LocalKeyShare) -> u16;

/// Uncompressed encoding of a key share's shared public key.
pub uninterp spec fn share_public_key(k: LocalKeyShare) -> Seq<u8>;

/// Uncompressed encoding of a completed offline stage's shared public key.
pub uninterp spec fn stage_public_key(s: CompletedOfflineStage) -> Seq<u8>;

/// The number whose big-endian bytes are `b`.
pub uninterp spec fn bigint_of(b: Seq<u8>) -> BigInt;

/// The completed stage that a finished offline stage holds.
pub uninterp spec fn offline_output(s: OfflineStage) -> CompletedOfflineStage;

/// The local partial signature that `SignManual::new` returns.
pub uninterp spec fn partial_of(data: BigInt, stage: CompletedOfflineStage) -> PartialSignature;

/// The signature that combining the local signing state with the partials
/// gives.
pub uninterp spec fn combined_signature(sign: SignManual, partials: Seq<PartialSignature>) -> SignatureRecid;

/// Whether `party_i::verify` accepts the signature for the completed
/// stage's public key and the message.
pub uninterp spec fn signature_verifies(sig: SignatureRecid, stage: CompletedOfflineStage, data: BigInt) -> bool;

/// Current round number of key generation.
pub uninterp spec fn keygen_round_of(k: Keygen) -> u16;

/// Messages queued by key generation, as (sender, receiver, body).
pub uninterp spec fn keygen_queue(k: Keygen) -> Seq<(u16, Option<u16>, ProtocolMessage)>;

/// Key generation with its queue emptied, all else kept.
pub uninterp spec fn keygen_drained(k: Keygen) -> Keygen;

/// Whether proceeding from this key-generation state would stop on one of
/// the library's assertions on peer data.
pub uninterp spec fn keygen_proceed_panics(k: Keygen) -> bool;

/// Current round number of the offline stage.
pub uninterp spec fn offline_round_of(s: OfflineStage) -> u16;

/// Messages queued by the offline stage, as (sender, receiver, body).
pub uninterp spec fn offline_queue(s: OfflineStage) -> Seq<(u16, Option<u16>, OfflineProtocolMessage)>;

/// The offline stage with its queue emptied, all else kept.
pub uninterp spec fn offline_drained(s: OfflineStage) -> OfflineStage;

/// Whether key generation holds its output, not yet taken.
pub uninterp spec fn keygen_done(k: Keygen) -> bool;

/// Whether key generation is spent: its output was taken, or a round
/// failed.
pub uninterp spec fn keygen_gone(k: Keygen) -> bool;

/// Whether the offline stage holds its output, not yet taken.
pub uninterp spec fn offline_done(s: OfflineStage) -> bool;

/// Whether the offline stage is spent: its output was taken, or a round
/// failed.
pub uninterp spec fn offline_gone(s: OfflineStage) -> bool;

/// Whether the offline stage accepts a message.
pub uninterp spec fn offline_accepts(s: OfflineStage, m: Msg<OfflineProtocolMessage>) -> bool;

/// The offline stage after it is handed a message.
pub uninterp spec fn offline_after(s: OfflineStage, m: Msg<OfflineProtocolMessage>) -> OfflineStage;

/// Whether proceeding from this offline stage would stop on one of the
/// library's assertions on peer data (a peer's claimed key in round three,
/// a peer's commitment in round four).
pub uninterp spec fn offline_proceed_panics(s: OfflineStage) -> bool;

/// The local signing state that `SignManual::new` builds for a message and
/// a completed offline stage.
pub uninterp spec fn manual_of(data: BigInt, stage: CompletedOfflineStage) -> SignManual;

/// Whether combining the local signing state with the partials gives a
/// signature that verifies against the shared public key.
pub uninterp spec fn combines(sign: SignManual, partials: Seq<PartialSignature>) -> bool;

/// Whether combining would stop in the library: the combined `s` is zero,
/// or the recomputed point is the identity.
pub uninterp spec fn combine_panics(sign: SignManual, partials: Seq<PartialSignature>) -> bool;

/// Relies on `Keygen::new`: it refuses fewer than two parties, a threshold
/// outside `1..n` and an index outside `1..=n`; otherwise its first round
/// always succeeds.
#[verifier::external_body]
fn keygen_new(i: u16, t: u16, n: u16) -> (r: Result<Keygen, keygen::Error>)
    ensures
        r is Ok <==> (n >= 2 && 1 <= t < n && 1 <= i <= n),
{
    Keygen::new(i, t, n)
}

/// Relies on `StateMachine::handle_incoming` of `Keygen`.
#[verifier::external_body]
fn keygen_handle_incoming(k: &mut Keygen, m: Msg<ProtocolMessage>) -> Result<(), keygen::Error> {
    k.handle_incoming(m)
}

/// Relies on `StateMachine::wants_to_proceed` of `Keygen`.
#[verifier::external_body]
fn keygen_wants_to_proceed(k: &Keygen) -> bool {
    k.wants_to_proceed()
}

/// Relies on `StateMachine::proceed` of `Keygen`, which asserts on peer
/// data (`party_i` checks of share counts); rounds only move forward.
#[verifier::external_body]
fn keygen_proceed(k: &mut Keygen) -> (r: Result<(), keygen::Error>)
    requires
        !keygen_proceed_panics(*old(k)),
    ensures
        keygen_round_of(*final(k)) >= keygen_round_of(*old(k)),
        r is Ok ==> !keygen_proceed_panics(*old(k)),
{
    k.proceed()
}

/// Relies on `StateMachine::message_queue` of `Keygen`: takes the queued
/// messages as (sender, receiver, body).
#[verifier::external_body]
fn keygen_drain(k: &mut Keygen) -> (r: Vec<(u16, Option<u16>, ProtocolMessage)>)
    ensures
        r@ == keygen_queue(*old(k)),
        *final(k) == keygen_drained(*old(k)),
        keygen_queue(*final(k)) == Seq::<(u16, Option<u16>, ProtocolMessage)>::empty(),
        keygen_round_of(*final(k)) == keygen_round_of(*old(k)),
{
    k.message_queue().drain(..).map(|m| (m.sender, m.receiver, m.body)).collect()
}

/// Relies on `StateMachine::current_round` of `Keygen`.
#[verifier::external_body]
fn keygen_round(k: &Keygen) -> (r: u16)
    ensures
        r == keygen_round_of(*k),
{
    k.current_round()
}

/// Relies on `StateMachine::is_finished` of `Keygen`: whether it holds its
/// output.
#[verifier::external_body]
fn keygen_is_finished(k: &Keygen) -> (r: bool)
    ensures
        r == keygen_done(*k),
{
    k.is_finished()
}

/// Relies on `StateMachine::pick_output` of `Keygen`: the output once, then
/// an error; nothing before completion.
#[verifier::external_body]
fn keygen_pick_output(k: &mut Keygen) -> (r: Option<Result<LocalKeyShare, keygen::Error>>)
    ensures
        keygen_done(*old(k)) ==> (r matches Some(Ok(_)) && keygen_gone(*final(k))),
        keygen_gone(*old(k)) ==> (r matches Some(Err(_)) && keygen_gone(*final(k))),
        !keygen_done(*old(k)) && !keygen_gone(*old(k)) ==> r is None,
{
    k.pick_output().map(|r| r.map(|key| LocalKeyShare { key }))
}

/// Relies on `LocalKey::public_key` and `Point::to_bytes(false)`: the
/// 65-byte uncompressed encoding of the shared public key.
#[verifier::external_body]
pub fn local_key_public_key_bytes(k: &LocalKeyShare) -> (r: Vec<u8>)
    ensures
        r@ == share_public_key(*k),
        r@.len() == 65,
{
    k.key.public_key().to_bytes(false).to_vec()
}

/// Relies on the `i` field of `LocalKey`.
#[verifier::external_body]
fn local_key_index(k: &LocalKeyShare) -> (r: u16)
    ensures
        r == share_index(*k),
{
    k.key.i
}

/// Relies on the `t` field of `LocalKey`.
#[verifier::external_body]
fn local_key_threshold(k: &LocalKeyShare) -> (r: u16)
    ensures
        r == share_threshold(*k),
{
    k.key.t
}

/// Whether `OfflineStage::new` accepts signer position `i` in `s_l` for a
/// share of a key generated by `n` parties.
pub open spec fn signing_set_ok(i: u16, s_l: Seq<u16>, n: u16) -> bool {
    &&& 2 <= s_l.len() <= 65535
    &&& 1 <= i <= s_l.len()
    &&& forall|j: int| 0 <= j < s_l.len() ==> 1 <= #[trigger] s_l[j] <= n
    &&& forall|a: int, b: int| 0 <= a < b < s_l.len() ==> s_l[a] != s_l[b]
}

/// Relies on `OfflineStage::new`: it refuses fewer than two signers, a
/// position outside `1..=s_l.len()`, an entry outside `1..=n` or a
/// duplicate, and more than `u16::MAX` signers; otherwise it succeeds.
#[verifier::external_body]
fn offline_new(i: u16, s_l: Vec<u16>, k: LocalKeyShare) -> (r: Result<OfflineStage, sign::Error>)
    ensures
        r is Ok <==> signing_set_ok(i, s_l@, share_parties(k)),
{
    OfflineStage::new(i, s_l, k.key)
}

/// Relies on `StateMachine::handle_incoming` of `OfflineStage`, which
/// depends on the stage and the message alone.
#[verifier::external_body]
fn offline_handle_incoming(s: &mut OfflineStage, m: Msg<OfflineProtocolMessage>) -> (r: Result<(), sign::Error>)
    ensures
        r is Ok <==> offline_accepts(*old(s), m),
        *final(s) == offline_after(*old(s), m),
{
    s.handle_incoming(m)
}

/// Relies on `StateMachine::wants_to_proceed` of `OfflineStage`.
#[verifier::external_body]
fn offline_wants_to_proceed(s: &OfflineStage) -> bool {
    s.wants_to_proceed()
}

/// Relies on `StateMachine::proceed` of `OfflineStage`, which asserts on
/// peer data in two places; rounds only move forward.
#[verifier::external_body]
fn offline_proceed(s: &mut OfflineStage) -> (r: Result<(), sign::Error>)
    requires
        !offline_proceed_panics(*old(s)),
    ensures
        offline_round_of(*final(s)) >= offline_round_of(*old(s)),
        r is Ok ==> !offline_proceed_panics(*old(s)),
{
    s.proceed()
}

/// Relies on `StateMachine::message_queue` of `OfflineStage`: takes the
/// queued messages as (sender, receiver, body).
#[verifier::external_body]
fn offline_drain(s: &mut OfflineStage) -> (r: Vec<(u16, Option<u16>, OfflineProtocolMessage)>)
    ensures
        r@ == offline_queue(*old(s)),
        *final(s) == offline_drained(*old(s)),
        offline_queue(*final(s)) == Seq::<(u16, Option<u16>, OfflineProtocolMessage)>::empty(),
        offline_round_of(*final(s)) == offline_round_of(*old(s)),
{
    s.message_queue().drain(..).map(|m| (m.sender, m.receiver, m.body)).collect()
}

/// Relies on `StateMachine::current_round` of `OfflineStage`.
#[verifier::external_body]
fn offline_round(s: &OfflineStage) -> (r: u16)
    ensures
        r == offline_round_of(*s),
{
    s.current_round()
}

/// Relies on `StateMachine::is_finished` of `OfflineStage`: whether it
/// holds its output.
#[verifier::external_body]
fn offline_is_finished(s: &OfflineStage) -> (r: bool)
    ensures
        r == offline_done(*s),
{
    s.is_finished()
}

/// Relies on `StateMachine::pick_output` of `OfflineStage`: the output
/// once, then an error; nothing before completion.
#[verifier::external_body]
fn offline_pick_output(s: &mut OfflineStage) -> (r: Option<Result<CompletedOfflineStage, sign::Error>>)
    ensures
        offline_done(*old(s)) ==> (r == Some(Ok::<CompletedOfflineStage, sign::Error>(offline_output(*old(s)))) && offline_gone(*final(s))),
        offline_gone(*old(s)) ==> (r matches Some(Err(_)) && offline_gone(*final(s))),
        !offline_done(*old(s)) && !offline_gone(*old(s)) ==> r is None,
{
    s.pick_output()
}

/// Relies on `Converter::from_bytes` of curv's `BigInt`: the big-endian
/// number.
#[verifier::external_body]
fn bigint_from_bytes(b: &[u8]) -> (r: BigInt)
    ensures
        r == bigint_of(b@),
{
    <BigInt as curv::arithmetic::Converter>::from_bytes(b)
}

/// Relies on `SignManual::new`, which always succeeds (`Round7::new`).
#[verifier::external_body]
fn sign_manual_new(data: &BigInt, stage: &CompletedOfflineStage) -> (r: Result<
    (SignManual, PartialSignature),
    sign::SignError,
>)
    ensures
        r is Ok,
        r matches Ok((m, p)) ==> m == manual_of(*data, *stage) && p == partial_of(*data, *stage),
{
    SignManual::new(data.clone(), stage.clone())
}

/// Relies on `CompletedOfflineStage::public_key` and
/// `Point::to_bytes(false)`: the 65-byte uncompressed encoding of the
/// shared public key.
#[verifier::external_body]
fn completed_public_key_bytes(stage: &CompletedOfflineStage) -> (r: Vec<u8>)
    ensures
        r@ == stage_public_key(*stage),
        r@.len() == 65,
{
    stage.public_key().to_bytes(false).to_vec()
}

/// Relies on `SignManual::complete`: combines the other signers' partials
/// with the local one and returns the signature only if `party_i::verify`
/// accepts it for the public key and message the signing state was built
/// for (`output_signature`).
#[verifier::external_body]
fn sign_complete(sign: SignManual, partials: &Vec<PartialSignature>) -> (r: Result<SignatureRecid, sign::SignError>)
    requires
        !combine_panics(sign, partials@),
    ensures
        r is Ok <==> combines(sign, partials@),
        r is Ok ==> !combine_panics(sign, partials@),
        r matches Ok(sig) ==> sig == combined_signature(sign, partials@),
        r matches Ok(sig) ==> forall|data: BigInt, stage: CompletedOfflineStage|
            sign == #[trigger] manual_of(data, stage) ==> signature_verifies(sig, stage, data),
{
    sign.complete(partials)
}

/// Drives distributed key generation for one party.
pub struct KeygenDriver {
    inner: Keygen,
    driver: Driver,
}

impl KeygenDriver {
    /// Phase of the driver.
    pub closed spec fn spec_phase(&self) -> Phase {
        self.driver.spec_phase()
    }

    /// The library's key-generation state.
    pub closed spec fn spec_keygen(&self) -> Keygen {
        self.inner
    }

    /// Once finished, the output has been taken.
    pub closed spec fn wf(&self) -> bool {
        self.driver.spec_phase() is Finished ==> keygen_gone(self.inner)
    }

    /// Starts key generation as party `index` of `parties`, where any
    /// `threshold` parties can sign together. The math library needs at
    /// least two signers, so a threshold of one is refused although
    /// `Parameters::new` accepts it.
    pub fn new(index: u16, threshold: u16, parties: u16) -> (r: Result<KeygenDriver, Error>)
        ensures
            r is Ok <==> (parties >= 2 && 2 <= threshold <= parties && 1 <= index <= parties),
            r matches Err(e) ==> e is Keygen,
            r matches Ok(d) ==> d.wf() && d.spec_phase() == Phase::Initialized,
    {
        let t: u16 = if threshold == 0 { 0 } else { threshold - 1 };
        match keygen_new(index, t, parties) {
            Ok(inner) => Ok(KeygenDriver { inner, driver: Driver::new(index) }),
            Err(e) => Err(Error::Keygen(e)),
        }
    }

    /// Absorbs a routed peer message.
    pub fn handle_incoming(&mut self, message: Msg<ProtocolMessage>) -> (r: Result<(), Error>)
        requires
            old(self).wf(),
            !(old(self).spec_phase() is Finished),
        ensures
            final(self).wf(),
            final(self).spec_phase() == old(self).spec_phase(),
            r matches Err(e) ==> e is Keygen,
    {
        match keygen_handle_incoming(&mut self.inner, message) {
            Ok(()) => Ok(()),
            Err(e) => Err(Error::Keygen(e)),
        }
    }

    /// Whether the current round has what it needs to proceed.
    pub fn wants_to_proceed(&self) -> bool {
        keygen_wants_to_proceed(&self.inner)
    }

    /// Whether the output is ready to be taken.
    pub fn is_finished(&self) -> (r: bool)
        ensures
            r == keygen_done(self.spec_keygen()),
    {
        keygen_is_finished(&self.inner)
    }

    /// Advances one round and takes the queued outgoing messages, each
    /// tagged with the round now current. Proceeding can stop on the
    /// library's assertions on peer data; the caller must rule that out, which
    /// no verified function can, so only unverified code calls this.
    pub fn proceed(&mut self) -> (r: Result<(u16, Vec<RoundMsg<ProtocolMessage>>), Error>)
        requires
            old(self).wf(),
            !(old(self).spec_phase() is Finished),
            !keygen_proceed_panics(old(self).spec_keygen()),
        ensures
            final(self).wf(),
            keygen_round_of(final(self).spec_keygen()) >= keygen_round_of(old(self).spec_keygen()),
            r matches Err(e) ==> e is Keygen && final(self).spec_phase() == old(self).spec_phase(),
            r matches Ok((round, msgs)) ==> final(self).spec_phase() == Phase::Running(round)
                && round == keygen_round_of(final(self).spec_keygen())
                && keygen_queue(final(self).spec_keygen()).len() == 0
                && exists|mid: Keygen|
                    final(self).spec_keygen() == keygen_drained(mid) && msgs@.len() == keygen_queue(mid).len()
                    && forall|i: int| 0 <= i < msgs@.len() ==> (#[trigger] msgs@[i]).round == round
                        && msgs@[i].sender == keygen_queue(mid)[i].0
                        && msgs@[i].receiver == keygen_queue(mid)[i].1
                        && msgs@[i].body == keygen_queue(mid)[i].2,
    {
        match keygen_proceed(&mut self.inner) {
            Err(e) => Err(Error::Keygen(e)),
            Ok(()) => {
                let ghost mid = self.inner;
                let messages = keygen_drain(&mut self.inner);
                let round = keygen_round(&self.inner);
                self.driver.enter_round(round);
                Ok((round, RoundMsg::from_round(round, messages)))
            },
        }
    }

    /// Takes the local key share once key generation holds it; its address
    /// is derived from its public key. Before completion it fails with
    /// `Unfinished`; a second call fails with the library's error.
    pub fn finish(&mut self) -> (r: Result<KeyShare, Error>)
        requires
            old(self).wf(),
        ensures
            final(self).wf(),
            keygen_done(old(self).spec_keygen()) ==> r is Ok,
            keygen_gone(old(self).spec_keygen()) ==> r matches Err(Error::Keygen(_)),
            old(self).spec_phase() is Finished ==> r matches Err(Error::Keygen(_)),
            !keygen_done(old(self).spec_keygen()) && !keygen_gone(old(self).spec_keygen())
                ==> r matches Err(Error::Unfinished),
            r matches Ok(share) ==> share.address@ == address_spec(share.public_key@)
                && final(self).spec_phase() == Phase::Finished,
            r matches Err(e) ==> (e is Keygen || e is Unfinished),
    {
        match keygen_pick_output(&mut self.inner) {
            None => Err(Error::Unfinished),
            Some(Err(e)) => Err(Error::Keygen(e)),
            Some(Ok(local_key)) => {
                self.driver.complete();
                Ok(KeyShare::from(local_key))
            },
        }
    }
}

/// Signature generated by a signer.
pub struct Signature {
    /// The generated ECDSA signature.
    pub signature: SignatureRecid,
    /// The uncompressed public key the signature verifies against.
    pub public_key: Vec<u8>,
    /// Address derived from the public key.
    pub address: String,
}

/// Result of the offline signing stage, held by the local party alone.
pub struct OfflineResult {
    data: BigInt,
    /// The local partial signature, to hand to the other signers.
    pub partial: PartialSignature,
    completed_offline_stage: CompletedOfflineStage,
    key_threshold: u16,
}

impl OfflineResult {
    /// The digest as a number.
    pub closed spec fn spec_data(&self) -> BigInt {
        self.data
    }

    /// The local partial signature.
    pub closed spec fn spec_partial(&self) -> PartialSignature {
        self.partial
    }

    /// The completed offline stage.
    pub closed spec fn spec_stage(&self) -> CompletedOfflineStage {
        self.completed_offline_stage
    }

    /// The key share's threshold in the library's terms: one less than the
    /// number of signers needed.
    pub closed spec fn spec_key_threshold(&self) -> u16 {
        self.key_threshold
    }
}

/// Drives the offline signing stage for one signer.
pub struct SignOffline {
    inner: OfflineStage,
    message: [u8; 32],
    key_threshold: u16,
    driver: Driver,
}

impl SignOffline {
    /// Phase of the driver.
    pub closed spec fn spec_phase(&self) -> Phase {
        self.driver.spec_phase()
    }

    /// The library's offline stage.
    pub closed spec fn spec_stage(&self) -> OfflineStage {
        self.inner
    }

    /// The key share's threshold in the library's terms.
    pub closed spec fn spec_key_threshold(&self) -> u16 {
        self.key_threshold
    }

    /// The digest being signed.
    pub closed spec fn spec_message(&self) -> Seq<u8> {
        self.message@
    }

    /// Once finished, the output has been taken.
    pub closed spec fn wf(&self) -> bool {
        self.driver.spec_phase() is Finished ==> offline_gone(self.inner)
    }

    /// Creates a signer at position `index` (1-based) among `participants`,
    /// the key-share indices of the signers, for the digest `message`. The
    /// local share's own index must be the entry at that position.
    pub fn new(index: u16, participants: Vec<u16>, local_key: LocalKeyShare, message: [u8; 32]) -> (r: Result<SignOffline, Error>)
        ensures
            r is Ok <==> local_key_listed(index, participants@, share_index(local_key))
                && signing_set_ok(index, participants@, share_parties(local_key)),
            !local_key_listed(index, participants@, share_index(local_key))
                ==> r matches Err(Error::LocalKeyNotParticipant),
            r matches Err(e) ==> (e is SignOffline || e is LocalKeyNotParticipant),
            r matches Ok(s) ==> s.wf() && s.spec_phase() == Phase::Initialized && s.spec_message() == message@
                && s.spec_key_threshold() == share_threshold(local_key),
    {
        let key_index = local_key_index(&local_key);
        let key_threshold = local_key_threshold(&local_key);
        if let Err(e) = check_local_key(index, &participants, key_index) {
            return Err(e);
        }
        match offline_new(index, participants, local_key) {
            Ok(inner) => Ok(SignOffline { inner, message, key_threshold, driver: Driver::new(index) }),
            Err(e) => Err(Error::SignOffline(e)),
        }
    }

    /// Builds the signer only if the local public key is one of the
    /// session's participants; see [`SignOffline::new`].
    pub fn for_session(
        session_keys: &Vec<Vec<u8>>,
        public_key: &[u8],
        index: u16,
        participants: Vec<u16>,
        local_key: LocalKeyShare,
        message: [u8; 32],
    ) -> (r: Result<SignOffline, Error>)
        requires
            session_keys@.len() < 65536,
        ensures
            !is_listed(session_keys@, public_key@) ==> (r matches Err(Error::NotSessionParticipant(s))
                && s@ == hex_of(public_key@)),
            r is Ok <==> is_listed(session_keys@, public_key@) && local_key_listed(
                index,
                participants@,
                share_index(local_key),
            ) && signing_set_ok(index, participants@, share_parties(local_key)),
            r matches Ok(s) ==> s.wf() && s.spec_phase() == Phase::Initialized && s.spec_message() == message@,
    {
        match participant_index(session_keys, public_key) {
            Err(e) => Err(e),
            Ok(_) => SignOffline::new(index, participants, local_key, message),
        }
    }

    /// Absorbs a routed peer message.
    pub fn handle_incoming(&mut self, message: Msg<OfflineProtocolMessage>) -> (r: Result<(), Error>)
        requires
            old(self).wf(),
            !(old(self).spec_phase() is Finished),
        ensures
            final(self).wf(),
            r is Ok <==> offline_accepts(old(self).spec_stage(), message),
            final(self).spec_stage() == offline_after(old(self).spec_stage(), message),
            final(self).spec_phase() == old(self).spec_phase(),
            final(self).spec_key_threshold() == old(self).spec_key_threshold(),
            final(self).spec_message() == old(self).spec_message(),
            r matches Err(e) ==> e is SignOffline,
    {
        match offline_handle_incoming(&mut self.inner, message) {
            Ok(()) => Ok(()),
            Err(e) => Err(Error::SignOffline(e)),
        }
    }

    /// Whether the current round has what it needs to proceed.
    pub fn wants_to_proceed(&self) -> bool {
        offline_wants_to_proceed(&self.inner)
    }

    /// Whether the output is ready to be taken.
    pub fn is_finished(&self) -> (r: bool)
        ensures
            r == offline_done(self.spec_stage()),
    {
        offline_is_finished(&self.inner)
    }

    /// Advances one round and takes the queued outgoing messages, each
    /// tagged with the round now current. Proceeding can stop on the
    /// library's assertions on peer data; the caller must rule that out, which
    /// no verified function can, so only unverified code calls this.
    pub fn proceed(&mut self) -> (r: Result<(u16, Vec<RoundMsg<OfflineProtocolMessage>>), Error>)
        requires
            old(self).wf(),
            !(old(self).spec_phase() is Finished),
            !offline_proceed_panics(old(self).spec_stage()),
        ensures
            final(self).wf(),
            offline_round_of(final(self).spec_stage()) >= offline_round_of(old(self).spec_stage()),
            r matches Ok((round, msgs)) ==> round == offline_round_of(final(self).spec_stage())
                && offline_queue(final(self).spec_stage()).len() == 0
                && exists|mid: OfflineStage|
                    final(self).spec_stage() == offline_drained(mid) && msgs@.len() == offline_queue(mid).len()
                    && forall|i: int| 0 <= i < msgs@.len() ==> (#[trigger] msgs@[i]).sender
                        == offline_queue(mid)[i].0
                        && msgs@[i].receiver == offline_queue(mid)[i].1
                        && msgs@[i].body == offline_queue(mid)[i].2,
            final(self).spec_key_threshold() == old(self).spec_key_threshold(),
            final(self).spec_message() == old(self).spec_message(),
            r matches Err(e) ==> e is SignOffline && final(self).spec_phase() == old(self).spec_phase(),
            r matches Ok((round, msgs)) ==> final(self).spec_phase() == Phase::Running(round)
                && forall|i: int| 0 <= i < msgs@.len() ==> (#[trigger] msgs@[i]).round == round,
    {
        match offline_proceed(&mut self.inner) {
            Err(e) => Err(Error::SignOffline(e)),
            Ok(()) => {
                let ghost mid = self.inner;
                let messages = offline_drain(&mut self.inner);
                let round = offline_round(&self.inner);
                self.driver.enter_round(round);
                Ok((round, RoundMsg::from_round(round, messages)))
            },
        }
    }

    /// Takes the completed offline stage once the library holds it, and
    /// computes the local partial signature of the digest. Before completion
    /// it fails with `Unfinished`; a second call fails with the library's
    /// error.
    pub fn finish(&mut self) -> (r: Result<OfflineResult, Error>)
        requires
            old(self).wf(),
        ensures
            final(self).wf(),
            offline_done(old(self).spec_stage()) ==> r is Ok,
            offline_gone(old(self).spec_stage()) ==> r matches Err(Error::SignOffline(_)),
            old(self).spec_phase() is Finished ==> r matches Err(Error::SignOffline(_)),
            !offline_done(old(self).spec_stage()) && !offline_gone(old(self).spec_stage())
                ==> r matches Err(Error::Unfinished),
            r matches Ok(o) ==> o.spec_key_threshold() == old(self).spec_key_threshold()
                && final(self).spec_phase() == Phase::Finished
                && o.spec_data() == bigint_of(old(self).spec_message())
                && o.spec_stage() == offline_output(old(self).spec_stage())
                && o.spec_partial() == partial_of(o.spec_data(), o.spec_stage()),
            r matches Err(e) ==> (e is SignOffline || e is Unfinished),
    {
        let completed_offline_stage = match offline_pick_output(&mut self.inner) {
            None => return Err(Error::Unfinished),
            Some(Err(e)) => return Err(Error::SignOffline(e)),
            Some(Ok(c)) => c,
        };
        self.driver.complete();
        let data = bigint_from_bytes(&self.message);
        let partial = match sign_manual_new(&data, &completed_offline_stage) {
            Ok((_sign, partial)) => partial,
            Err(e) => return Err(Error::SignManual(e)),
        };
        Ok(OfflineResult { data, partial, completed_offline_stage, key_threshold: self.key_threshold })
    }
}

/// Drives the online signing stage: a local combine of the partial
/// signatures, with no peer rounds.
pub struct SignOnline {
    offline: OfflineResult,
    partials: Vec<PartialSignature>,
}

impl SignOnline {
    /// The offline result being completed.
    pub closed spec fn spec_offline(&self) -> OfflineResult {
        self.offline
    }

    /// The other signers' partial signatures, in the order given.
    pub closed spec fn spec_partials(&self) -> Seq<PartialSignature> {
        self.partials@
    }

    /// The local signing state for the offline result's digest.
    pub open spec fn spec_manual(&self) -> SignManual {
        manual_of(self.spec_offline().spec_data(), self.spec_offline().spec_stage())
    }

    /// Creates the online stage from the offline result and the partial
    /// signatures of the other signers; both are kept as given.
    pub fn new(offline: OfflineResult, partials: Vec<PartialSignature>) -> (r: Result<SignOnline, Error>)
        ensures
            r is Ok,
            r matches Ok(s) ==> s.spec_offline() == offline && s.spec_partials() == partials@,
    {
        Ok(SignOnline { offline, partials })
    }

    /// Combines the partial signatures and verifies the result against the
    /// shared public key. When the local signer and the given partials are
    /// fewer than the threshold, or the combined signature does not verify,
    /// it fails with `VerifySignature`; otherwise the verified signature is
    /// returned with the public key and its address. Combining can stop in
    /// the library on degenerate partials; the caller must rule that out,
    /// which no verified function can, so only unverified code calls this.
    pub fn finish(&self) -> (r: Result<Signature, Error>)
        requires
            !combine_panics(self.spec_manual(), self.spec_partials()),
        ensures
            self.spec_partials().len() < self.spec_offline().spec_key_threshold()
                ==> r matches Err(Error::VerifySignature),
            !combines(self.spec_manual(), self.spec_partials()) ==> r matches Err(Error::VerifySignature),
            self.spec_partials().len() >= self.spec_offline().spec_key_threshold() && combines(
                self.spec_manual(),
                self.spec_partials(),
            ) ==> r is Ok,
            r matches Err(e) ==> e is VerifySignature,
            r matches Ok(sig) ==> sig.address@ == address_spec(sig.public_key@)
                && sig.address@.len() == 42
                && sig.public_key@ == stage_public_key(self.spec_offline().spec_stage())
                && sig.public_key@.len() == 65
                && sig.signature == combined_signature(self.spec_manual(), self.spec_partials())
                && signature_verifies(sig.signature, self.spec_offline().spec_stage(), self.spec_offline().spec_data()),
    {
        if self.partials.len() < self.offline.key_threshold as usize {
            return Err(Error::VerifySignature);
        }
        let sign = match sign_manual_new(&self.offline.data, &self.offline.completed_offline_stage) {
            Ok((sign, _partial)) => sign,
            Err(_) => return Err(Error::VerifySignature),
        };
        let signature = match sign_complete(sign, &self.partials) {
            Ok(s) => s,
            Err(_) => return Err(Error::VerifySignature),
        };
        let public_key = completed_public_key_bytes(&self.offline.completed_offline_stage);
        let address = address(public_key.as_slice());
        Ok(Signature { signature, public_key, address })
    }
}

} // verus!
