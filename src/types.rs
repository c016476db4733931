use vstd::prelude::*;


use crate::address::{address, address_spec};
use multi_party_ecdsa::protocols::multi_party_ecdsa::gg_2020::state_machine::sign::CompletedOfflineStage;

use crate::ecdsa::LocalKeyShare;
use crate::gg20::{local_key_public_key_bytes, share_public_key, stage_public_key, Signature};

verus! {

/// Supported multi-party computation protocols.
#[derive(Clone, Copy, Debug, PartialEq, Eq, Structural)]
pub enum Protocol {
    /// The GG2020 protocol.
    GG20,
    /// The CGGMP protocol.
    CGGMP,
}

/// Threshold parameters of a ceremony.
#[derive(Clone, Copy, Debug, PartialEq, Eq, Structural)]
pub struct Parameters {
    /// Minimum number of signers needed to combine a signature.
    pub threshold: u16,
    /// Total number of key-share holders.
    pub parties: u16,
}

impl Parameters {
    /// Parameters are valid when `1 <= threshold <= parties`.
    pub open spec fn valid(&self) -> bool {
        1 <= self.threshold <= self.parties
    }

    /// Builds parameters, or `None` unless `1 <= threshold <= parties`.
    pub fn new(threshold: u16, parties: u16) -> (r: Option<Parameters>)
        ensures
            r is Some <==> 1 <= threshold <= parties,
            r matches Some(p) ==> p.threshold == threshold && p.parties == parties && p.valid(),
    {
        if 1 <= threshold && threshold <= parties {
            Some(Parameters { threshold, parties })
        } else {
            None
        }
    }
}

/// Key share variants by protocol.
pub enum PrivateKey {
    /// Key share for the GG20 protocol.
    GG20(LocalKeyShare),
}

/// Generated key share.
pub struct KeyShare {
    /// Private key share information.
    pub private_key: PrivateKey,
    /// The uncompressed public key.
    pub public_key: Vec<u8>,
    /// Address derived from the public key.
    pub address: String,
}

impl KeyShare {
    /// Wraps a GG20 local key share with its uncompressed public key and
    /// the address derived from that key.
    pub fn from(local_key: LocalKeyShare) -> (r: KeyShare)
        ensures
            r.private_key == PrivateKey::GG20(local_key),
            r.public_key@ == share_public_key(local_key),
            r.public_key@.len() == 65,
            r.address@ == address_spec(r.public_key@),
            r.address@.len() == 42,
    {
        let public_key = local_key_public_key_bytes(&local_key);
        let address = address(public_key.as_slice());
        KeyShare { private_key: PrivateKey::GG20(local_key), public_key, address }
    }
}

/// A signature completed from a key share carries the key share's address:
/// both are derived from the same public key by the same function.
pub proof fn lemma_signature_address_matches_share(share: KeyShare, sig: Signature)
    requires
        share.address@ == address_spec(share.public_key@),
        sig.address@ == address_spec(sig.public_key@),
        sig.public_key@ == share.public_key@,
    ensures
        sig.address@ == share.address@,
{
}

/// A signature completed from an offline stage whose shared key is the key
/// share's key carries the share's public key and address.
pub proof fn lemma_signature_carries_share_key(
    local_key: LocalKeyShare,
    share: KeyShare,
    stage: CompletedOfflineStage,
    sig: Signature,
)
    requires
        share.public_key@ == share_public_key(local_key),
        share.address@ == address_spec(share.public_key@),
        sig.public_key@ == stage_public_key(stage),
        sig.address@ == address_spec(sig.public_key@),
        stage_public_key(stage) == share_public_key(local_key),
    ensures
        sig.public_key@ == share.public_key@,
        sig.address@ == share.address@,
{
}

/// Server options.
#[derive(Debug)]
pub struct ServerOptions {
    /// URL for the server.
    pub server_url: String,
    /// Server public key.
    pub server_public_key: Vec<u8>,
}

/// Static keypair identifying a party.
#[derive(Debug)]
pub struct Keypair {
    /// Private half.
    pub private_key: Vec<u8>,
    /// Public half: the party's wire identity.
    pub public_key: Vec<u8>,
}

/// Options used to start a key generation or signing ceremony.
#[derive(Debug)]
pub struct SessionOptions {
    /// MPC protocol.
    pub protocol: Protocol,
    /// Keypair for the participant.
    pub keypair: Keypair,
    /// Session identifier.
    pub session_id: u64,
    /// Server options.
    pub server: ServerOptions,
    /// Parameters for key generation.
    pub parameters: Parameters,
}

} // verus!
