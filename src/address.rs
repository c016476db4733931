use vstd::prelude::*;

use crate::bytes::{copy_from, hex_of, lemma_hex_len, push_char, push_hex};

verus! {

/// Number of digest bytes kept at the end of the hash to form an address.
pub const ADDRESS_BYTES: usize = 20;

/// The Keccak-256 digest of a byte string.
pub uninterp spec fn keccak256_of(data: Seq<u8>) -> Seq<u8>;

/// Relies on `sha3::Keccak256` (through `digest::Digest::digest`): a 32-byte
/// digest that depends on the input bytes alone.
#[verifier::external_body]
fn keccak256(data: &[u8]) -> (r: Vec<u8>)
    ensures
        r@ == keccak256_of(data@),
        r@.len() == 32,
{
    <sha3::Keccak256 as sha3::Digest>::digest(data).to_vec()
}

/// The key bytes that are hashed: the uncompressed key without its
/// leading format tag.
pub open spec fn key_body(public_key: Seq<u8>) -> Seq<u8> {
    if public_key.len() == 0 {
        public_key
    } else {
        public_key.subrange(1, public_key.len() as int)
    }
}

/// `0x` followed by the hex of the last twenty bytes of a digest.
pub open spec fn address_of_digest(digest: Seq<u8>) -> Seq<char>
    recommends
        digest.len() >= ADDRESS_BYTES,
{
    seq!['0', 'x'] + hex_of(digest.subrange(digest.len() - ADDRESS_BYTES, digest.len() as int))
}

/// The address of a public key.
pub open spec fn address_spec(public_key: Seq<u8>) -> Seq<char> {
    address_of_digest(keccak256_of(key_body(public_key)))
}

/// Formats the address held in the last twenty bytes of a digest.
pub fn address_from_digest(digest: &[u8]) -> (r: String)
    requires
        digest@.len() >= ADDRESS_BYTES,
    ensures
        r@ == address_of_digest(digest@),
{
    let tail = copy_from(digest, digest.len() - ADDRESS_BYTES);
    let mut s = String::new();
    push_char(&mut s, '0');
    push_char(&mut s, 'x');
    push_hex(&mut s, tail.as_slice());
    proof {
        assert(s@ =~= address_of_digest(digest@));
    }
    s
}

/// Address of a public key: the last twenty bytes of the Keccak-256 digest
/// of the uncompressed key (without its format tag), as `0x` and lower-case hex.
pub fn address(public_key: &[u8]) -> (r: String)
    ensures
        r@ == address_spec(public_key@),
        r@.len() == 2 + 2 * ADDRESS_BYTES,
{
    let digest = if public_key.len() == 0 {
        keccak256(public_key)
    } else {
        let body = copy_from(public_key, 1);
        keccak256(body.as_slice())
    };
    let r = address_from_digest(digest.as_slice());
    proof {
        let d = digest@;
        lemma_hex_len(d.subrange(d.len() - ADDRESS_BYTES, d.len() as int));
    }
    r
}

/// An address is a function of the public key alone: any two parties that
/// hold the same public key derive the same address.
pub proof fn lemma_address_depends_on_key_only(a: Seq<u8>, b: Seq<u8>)
    requires
        a == b,
    ensures
        address_spec(a) == address_spec(b),
{
}

} // verus!
