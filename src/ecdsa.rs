//! Declarations of the GG20 math library's types used by the drivers.
use vstd::prelude::*;

use curv::elliptic::curves::Secp256k1;
use curv::BigInt;
use multi_party_ecdsa::protocols::multi_party_ecdsa::gg_2020::party_i::SignatureRecid;
use multi_party_ecdsa::protocols::multi_party_ecdsa::gg_2020::state_machine::keygen::{
    Keygen, LocalKey, ProtocolMessage,
};
use multi_party_ecdsa::protocols::multi_party_ecdsa::gg_2020::state_machine::sign::{
    CompletedOfflineStage, OfflineProtocolMessage, OfflineStage, PartialSignature, SignManual,
};
use multi_party_ecdsa::protocols::multi_party_ecdsa::gg_2020::state_machine::keygen::Error as KeygenError;
use multi_party_ecdsa::protocols::multi_party_ecdsa::gg_2020::state_machine::sign::{
    Error as OfflineError, SignError,
};
use round_based::Msg;

verus! {

#[verifier::external_type_specification]
#[verifier::external_body]
pub struct ExBigInt(BigInt);

#[verifier::external_type_specification]
#[verifier::external_body]
pub struct ExKeygen(Keygen);

#[verifier::external_type_specification]
#[verifier::external_body]
pub struct ExProtocolMessage(ProtocolMessage);

#[verifier::external_type_specification]
#[verifier::external_body]
pub struct ExOfflineStage(OfflineStage);

#[verifier::external_type_specification]
#[verifier::external_body]
pub struct ExOfflineProtocolMessage(OfflineProtocolMessage);

#[verifier::external_type_specification]
#[verifier::external_body]
pub struct ExCompletedOfflineStage(CompletedOfflineStage);

#[verifier::external_type_specification]
#[verifier::external_body]
pub struct ExPartialSignature(PartialSignature);

#[verifier::external_type_specification]
#[verifier::external_body]
pub struct ExSignManual(SignManual);

#[verifier::external_type_specification]
#[verifier::external_body]
pub struct ExSignatureRecid(SignatureRecid);

#[verifier::external_type_specification]
#[verifier::external_body]
pub struct ExKeygenError(KeygenError);

#[verifier::external_type_specification]
#[verifier::external_body]
pub struct ExOfflineError(OfflineError);

#[verifier::external_type_specification]
#[verifier::external_body]
pub struct ExSignError(SignError);

#[verifier::external_type_specification]
#[verifier::external_body]
#[verifier::reject_recursive_types(B)]
pub struct ExMsg<B>(Msg<B>);

/// A GG20 local key share, held opaquely: Verus cannot declare the math
/// library's `LocalKey<Secp256k1>`, whose parameter is bound by an outside
/// trait.
#[verifier::external_body]
pub struct LocalKeyShare {
    pub key: LocalKey<Secp256k1>,
}

} // verus!
