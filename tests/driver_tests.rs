use mpc_relay::driver::{check_local_key, participant_index, Driver, Error, Phase, RoundMsg};

#[test]
fn driver_phases() {
    let mut d = Driver::new(2);
    assert_eq!(d.phase(), Phase::Initialized);
    assert!(!d.accepts_incoming());
    d.enter_round(3);
    assert_eq!(d.phase(), Phase::Running(3));
    assert!(d.accepts_incoming());
    d.enter_round(4);
    assert_eq!(d.phase(), Phase::Running(4));
    d.complete();
    assert_eq!(d.phase(), Phase::Finished);
    assert!(!d.accepts_incoming());
}

#[test]
fn round_tagging_keeps_order() {
    let out = RoundMsg::from_round(5, vec![(1, None, "a"), (2, Some(1), "b"), (1, Some(3), "c")]);
    let got: Vec<_> = out.into_iter().map(|m| (m.round, m.sender, m.receiver, m.body)).collect();
    assert_eq!(
        got,
        vec![(5, 1, None, "a"), (5, 2, Some(1), "b"), (5, 1, Some(3), "c")]
    );
    assert!(RoundMsg::<u8>::from_round(1, vec![]).is_empty());
}

#[test]
fn participant_lookup() {
    let parts = vec![vec![1u8, 1], vec![2u8, 2], vec![3u8, 3]];
    assert!(matches!(participant_index(&parts, &[2, 2]), Ok(2)));
    assert!(matches!(participant_index(&parts, &[1, 1]), Ok(1)));
    match participant_index(&parts, &[0xfe, 0x01]) {
        Err(Error::NotSessionParticipant(key)) => assert_eq!(key, "fe01"),
        other => panic!("unexpected {:?}", other),
    }
}

#[test]
fn local_key_must_be_listed() {
    assert!(matches!(check_local_key(2, &vec![1, 3], 3), Ok(())));
    assert!(matches!(check_local_key(1, &vec![1, 3], 3), Err(Error::LocalKeyNotParticipant)));
    assert!(matches!(check_local_key(3, &vec![1, 3], 3), Err(Error::LocalKeyNotParticipant)));
    assert!(matches!(check_local_key(0, &vec![1, 3], 1), Err(Error::LocalKeyNotParticipant)));
}
