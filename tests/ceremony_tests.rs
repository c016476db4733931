use mpc_relay::address::address;
use mpc_relay::driver::{Error, RoundMsg};
use mpc_relay::gg20::{KeygenDriver, OfflineResult, SignOffline, SignOnline};
use mpc_relay::types::{KeyShare, PrivateKey};
use round_based::Msg;

fn route<B: Clone>(outbox: &[RoundMsg<B>], target: u16) -> Vec<Msg<B>> {
    outbox
        .iter()
        .filter(|m| m.sender != target && (m.receiver.is_none() || m.receiver == Some(target)))
        .map(|m| Msg { sender: m.sender, receiver: m.receiver, body: m.body.clone() })
        .collect()
}

fn run_keygen(threshold: u16, parties: u16) -> Vec<KeyShare> {
    let mut drivers = keygen_drivers(threshold, parties);
    drivers.iter_mut().map(|d| d.finish().unwrap()).collect()
}

fn keygen_drivers(threshold: u16, parties: u16) -> Vec<KeygenDriver> {
    let mut drivers: Vec<KeygenDriver> =
        (1..=parties).map(|i| KeygenDriver::new(i, threshold, parties).unwrap()).collect();
    for _ in 0..50 {
        if drivers.iter().all(|d| d.is_finished()) {
            break;
        }
        let mut outbox = Vec::new();
        for d in drivers.iter_mut() {
            if !d.is_finished() {
                let (round, msgs) = d.proceed().unwrap();
                assert!(msgs.iter().all(|m| m.round == round));
                outbox.extend(msgs);
            }
        }
        for (j, d) in drivers.iter_mut().enumerate() {
            for m in route(&outbox, j as u16 + 1) {
                d.handle_incoming(m).unwrap();
            }
        }
    }
    drivers
}

fn run_offline(keys: Vec<KeyShare>, signers: Vec<u16>, digest: [u8; 32]) -> Vec<OfflineResult> {
    let mut drivers: Vec<SignOffline> = Vec::new();
    for (pos, share) in keys.into_iter().enumerate() {
        let PrivateKey::GG20(local) = share.private_key;
        drivers.push(SignOffline::new(pos as u16 + 1, signers.clone(), local, digest).unwrap());
    }
    for _ in 0..50 {
        if drivers.iter().all(|d| d.is_finished()) {
            break;
        }
        let mut outbox = Vec::new();
        for d in drivers.iter_mut() {
            if !d.is_finished() {
                let (round, msgs) = d.proceed().unwrap();
                assert!(msgs.iter().all(|m| m.round == round));
                outbox.extend(msgs);
            }
        }
        for (j, d) in drivers.iter_mut().enumerate() {
            for m in route(&outbox, j as u16 + 1) {
                d.handle_incoming(m).unwrap();
            }
        }
    }
    drivers.iter_mut().map(|d| d.finish().unwrap()).collect()
}

#[test]
fn two_party_keygen_agrees_on_public_key() {
    let shares = run_keygen(2, 2);
    assert_eq!(shares.len(), 2);
    assert_eq!(shares[0].public_key, shares[1].public_key);
    assert_eq!(shares[0].public_key.len(), 65);
    assert_eq!(shares[0].public_key[0], 4);
    assert_eq!(shares[0].address, shares[1].address);
    assert_eq!(shares[0].address, address(&shares[0].public_key));
}

#[test]
fn two_party_signature_matches_share_address() {
    let shares = run_keygen(2, 2);
    let share_address = shares[0].address.clone();
    let share_key = shares[0].public_key.clone();
    let mut offline = run_offline(shares, vec![1, 2], [7u8; 32]);
    let second = offline.pop().unwrap();
    let first = offline.pop().unwrap();
    let partial_two = second.partial.clone();
    let online = SignOnline::new(first, vec![partial_two]).unwrap();
    let signature = online.finish().unwrap();
    assert_eq!(signature.public_key, share_key);
    assert_eq!(signature.address, share_address);
    // Without the other signer's partial nothing is produced.
    let lonely = SignOnline::new(second, vec![]).unwrap();
    assert!(matches!(lonely.finish(), Err(Error::VerifySignature)));
}

#[test]
fn keygen_parameters_checked() {
    assert!(matches!(KeygenDriver::new(3, 2, 2), Err(Error::Keygen(_))));
    assert!(matches!(KeygenDriver::new(1, 3, 2), Err(Error::Keygen(_))));
    assert!(matches!(KeygenDriver::new(1, 2, 1), Err(Error::Keygen(_))));
}

#[test]
fn output_before_completion_is_refused() {
    let mut d = KeygenDriver::new(1, 2, 2).unwrap();
    assert!(!d.is_finished());
    assert!(matches!(d.finish(), Err(Error::Unfinished)));
}

#[test]
fn signer_position_must_hold_local_share() {
    let mut shares = run_keygen(2, 2);
    let second = shares.pop().unwrap();
    let first = shares.pop().unwrap();
    let PrivateKey::GG20(key_one) = first.private_key;
    let PrivateKey::GG20(key_two) = second.private_key;
    // Share one placed at the position of share two.
    assert!(matches!(
        SignOffline::new(1, vec![2, 1], key_one, [1u8; 32]),
        Err(Error::LocalKeyNotParticipant)
    ));
    // A lone signer is refused by the math library.
    assert!(matches!(
        SignOffline::new(1, vec![2], key_two, [1u8; 32]),
        Err(Error::SignOffline(_))
    ));
}

#[test]
fn key_share_is_taken_once() {
    let mut drivers = keygen_drivers(2, 2);
    assert!(drivers[0].is_finished());
    assert!(drivers[0].finish().is_ok());
    assert!(!drivers[0].is_finished());
    assert!(matches!(drivers[0].finish(), Err(Error::Keygen(_))));
}

#[test]
fn signer_must_be_session_participant() {
    let mut shares = run_keygen(2, 2);
    let second = shares.pop().unwrap();
    let first = shares.pop().unwrap();
    let PrivateKey::GG20(key_one) = first.private_key;
    let PrivateKey::GG20(key_two) = second.private_key;
    let session = vec![vec![0xaau8, 1], vec![0xbbu8, 2]];
    match SignOffline::for_session(&session, &[0xcc, 3], 1, vec![1, 2], key_one, [0u8; 32]) {
        Err(Error::NotSessionParticipant(key)) => assert_eq!(key, "cc03"),
        _ => panic!("expected NotSessionParticipant"),
    }
    let signer = SignOffline::for_session(&session, &[0xbb, 2], 2, vec![1, 2], key_two, [0u8; 32]);
    assert!(signer.is_ok());
}
