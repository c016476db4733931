use mpc_relay::peer::{check_upgrade, ChannelState, Error, HandshakeKind, PeerRegistry};

#[test]
fn initiate_twice_fails() {
    let mut reg = PeerRegistry::new();
    assert_eq!(reg.initiate(&[1, 2, 3]), Ok(()));
    assert_eq!(reg.state(&[1, 2, 3]), Some(ChannelState::Handshake));
    assert_eq!(reg.initiate(&[1, 2, 3]), Err(Error::PeerAlreadyExists));
}

#[test]
fn respond_creates_transport_channel() {
    let mut reg = PeerRegistry::new();
    assert_eq!(reg.respond(&[9], HandshakeKind::Initiation), Ok(()));
    assert_eq!(reg.state(&[9]), Some(ChannelState::Transport));
    assert_eq!(reg.respond(&[9], HandshakeKind::Initiation), Err(Error::PeerAlreadyExists));
    assert_eq!(reg.check_transport(&[9]), Ok(()));
}

#[test]
fn respond_during_own_handshake_is_a_race() {
    let mut reg = PeerRegistry::new();
    reg.initiate(&[5]).unwrap();
    assert_eq!(
        reg.respond(&[5], HandshakeKind::Initiation),
        Err(Error::PeerAlreadyExistsMaybeRace)
    );
    assert_eq!(reg.state(&[5]), Some(ChannelState::Handshake));
}

#[test]
fn respond_to_reply_is_invalid() {
    let mut reg = PeerRegistry::new();
    assert_eq!(
        reg.respond(&[5], HandshakeKind::Response),
        Err(Error::InvalidPeerHandshakeMessage)
    );
    assert!(!reg.contains(&[5]));
}

#[test]
fn advance_handshake_states() {
    let mut reg = PeerRegistry::new();
    assert_eq!(
        reg.advance_handshake(&[0xab], HandshakeKind::Response),
        Err(Error::PeerNotFound("ab".to_string()))
    );
    reg.initiate(&[0xab]).unwrap();
    assert_eq!(reg.check_transport(&[0xab]), Err(Error::NotTransportState));
    assert_eq!(
        reg.advance_handshake(&[0xab], HandshakeKind::Initiation),
        Err(Error::InvalidPeerHandshakeMessage)
    );
    assert_eq!(reg.advance_handshake(&[0xab], HandshakeKind::Response), Ok(()));
    assert_eq!(reg.state(&[0xab]), Some(ChannelState::Transport));
    assert_eq!(
        reg.advance_handshake(&[0xab], HandshakeKind::Response),
        Err(Error::NotHandshakeState)
    );
    assert_eq!(reg.check_transport(&[0xcd]), Err(Error::PeerNotFound("cd".to_string())));
}

#[test]
fn remove_tears_down_channel() {
    let mut reg = PeerRegistry::new();
    reg.initiate(&[1]).unwrap();
    reg.initiate(&[2]).unwrap();
    assert!(reg.remove(&[1]));
    assert!(!reg.remove(&[1]));
    assert!(!reg.contains(&[1]));
    assert!(reg.contains(&[2]));
    assert_eq!(reg.initiate(&[1]), Ok(()));
}

fn race(a: &[u8], b: &[u8]) -> (PeerRegistry, PeerRegistry) {
    let mut ra = PeerRegistry::new();
    let mut rb = PeerRegistry::new();
    ra.initiate(b).unwrap();
    rb.initiate(a).unwrap();
    assert_eq!(ra.respond(b, HandshakeKind::Initiation), Err(Error::PeerAlreadyExistsMaybeRace));
    assert_eq!(rb.respond(a, HandshakeKind::Initiation), Err(Error::PeerAlreadyExistsMaybeRace));
    let a_wins = ra.resolve_race(a, b);
    let b_wins = rb.resolve_race(b, a);
    assert_ne!(a_wins, b_wins);
    if a_wins {
        rb.respond(a, HandshakeKind::Initiation).unwrap();
        ra.advance_handshake(b, HandshakeKind::Response).unwrap();
    } else {
        ra.respond(b, HandshakeKind::Initiation).unwrap();
        rb.advance_handshake(a, HandshakeKind::Response).unwrap();
    }
    (ra, rb)
}

#[test]
fn racing_handshakes_resolve_to_one_channel() {
    for (a, b) in [(vec![1u8, 2], vec![1u8, 3]), (vec![7u8], vec![2u8]), (vec![3u8], vec![3u8, 0])] {
        let (ra, rb) = race(&a, &b);
        assert_eq!(ra.state(&b), Some(ChannelState::Transport));
        assert_eq!(rb.state(&a), Some(ChannelState::Transport));
        assert_eq!(ra.check_transport(&b), Ok(()));
        assert_eq!(rb.check_transport(&a), Ok(()));
    }
}

#[test]
fn lower_key_keeps_its_initiation() {
    let mut reg = PeerRegistry::new();
    reg.initiate(&[9]).unwrap();
    assert!(reg.resolve_race(&[1], &[9]));
    assert!(reg.contains(&[9]));
    assert!(!reg.resolve_race(&[10], &[9]));
    assert!(!reg.contains(&[9]));
}

#[test]
fn upgrade_status_classification() {
    assert_eq!(check_upgrade(101, "Switching Protocols".to_string()), Ok(()));
    assert_eq!(
        check_upgrade(403, "Forbidden".to_string()),
        Err(Error::ConnectError(403, "Forbidden".to_string()))
    );
}
