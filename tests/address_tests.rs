use mpc_relay::address::{address, address_from_digest};
use mpc_relay::bytes::{bytes_eq, bytes_lt, to_hex};

fn generator_point() -> Vec<u8> {
    let x = "79be667ef9dcbbac55a06295ce870b07029bfcdb2dce28d959f2815b16f81798";
    let y = "483ada7726a3c4655da4fbfc0e1108a8fd17b448a68554199c47d08ffb10d4b8";
    let mut key = vec![4u8];
    for hex in [x, y] {
        for i in (0..hex.len()).step_by(2) {
            key.push(u8::from_str_radix(&hex[i..i + 2], 16).unwrap());
        }
    }
    key
}

#[test]
fn address_of_secp256k1_generator() {
    // The key of private scalar 1 has this well-known address.
    assert_eq!(address(&generator_point()), "0x7e5f4552091a69125d5dfcb7b8c2659029395bdf");
}

#[test]
fn address_of_tag_only_key_hashes_nothing() {
    // Keccak-256 of the empty string ends in these twenty bytes.
    assert_eq!(address(&[4u8]), "0xdcc703c0e500b653ca82273b7bfad8045d85a470");
    assert_eq!(address(&[]), "0xdcc703c0e500b653ca82273b7bfad8045d85a470");
}

#[test]
fn address_depends_on_public_key_only() {
    let key = generator_point();
    let copy = key.clone();
    let a = address(&key);
    let b = address(&copy);
    assert_eq!(a, b);
    assert_eq!(a.len(), 42);
    let mut other = key.clone();
    other[10] ^= 1;
    assert_ne!(address(&other), a);
}

#[test]
fn address_from_digest_keeps_last_twenty_bytes() {
    let digest: Vec<u8> = (0u8..32).collect();
    assert_eq!(
        address_from_digest(&digest),
        "0x0c0d0e0f101112131415161718191a1b1c1d1e1f"
    );
}

#[test]
fn hex_encoding_is_lower_case() {
    assert_eq!(to_hex(&[0x00, 0xab, 0x7f, 0xff]), "00ab7fff");
    assert_eq!(to_hex(&[]), "");
}

#[test]
fn byte_order_and_equality() {
    assert!(bytes_lt(&[1, 2], &[1, 3]));
    assert!(!bytes_lt(&[1, 3], &[1, 2]));
    assert!(bytes_lt(&[1], &[1, 0]));
    assert!(!bytes_lt(&[1, 2], &[1, 2]));
    assert!(bytes_eq(&[1, 2], &[1, 2]));
    assert!(!bytes_eq(&[1, 2], &[1]));
}
