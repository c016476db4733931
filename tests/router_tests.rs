use mpc_relay::router::{RoundMessage, RouteOutcome, Router};

fn msg(round: u16, sender: u16, body: &[u8]) -> RoundMessage {
    RoundMessage { round, sender, body: body.to_vec() }
}

fn released(outcome: RouteOutcome) -> Vec<(u16, u16, Vec<u8>)> {
    match outcome {
        RouteOutcome::Released(batch) => {
            batch.into_iter().map(|m| (m.round, m.sender, m.body)).collect()
        }
        other => panic!("expected a release, got {:?}", other),
    }
}

#[test]
fn three_party_broadcast_delivered_once_each() {
    // Each of three parties broadcasts its message once; every other party
    // receives exactly one copy, and a retransmission is dropped.
    let mut delivered: Vec<u8> = Vec::new();
    for local in 1u16..=3 {
        let expected: Vec<u16> = (1u16..=3).filter(|p| *p != local).collect();
        let mut router = Router::new(expected.clone());
        let mut got = Vec::new();
        for sender in expected.iter() {
            let body = vec![*sender as u8];
            match router.route(msg(1, *sender, &body)) {
                RouteOutcome::Buffered => {}
                RouteOutcome::Released(batch) => {
                    for m in batch {
                        got.push(m.body[0]);
                    }
                }
                RouteOutcome::Dropped => panic!("first copy dropped"),
            }
        }
        assert!(matches!(
            router.route(msg(1, expected[0], &[expected[0] as u8])),
            RouteOutcome::Dropped
        ));
        assert_eq!(got.len(), 2);
        delivered.extend(got);
    }
    delivered.sort();
    assert_eq!(delivered, vec![1u8, 1, 2, 2, 3, 3]);
}

#[test]
fn round_released_in_expected_order() {
    let mut router = Router::new(vec![3, 1, 2]);
    assert!(matches!(router.route(msg(1, 2, b"b")), RouteOutcome::Buffered));
    assert!(matches!(router.route(msg(1, 3, b"c")), RouteOutcome::Buffered));
    let batch = released(router.route(msg(1, 1, b"a")));
    assert_eq!(
        batch,
        vec![(1, 3, b"c".to_vec()), (1, 1, b"a".to_vec()), (1, 2, b"b".to_vec())]
    );
}

#[test]
fn duplicate_in_pending_round_dropped() {
    let mut router = Router::new(vec![1, 2]);
    assert!(matches!(router.route(msg(4, 1, b"x")), RouteOutcome::Buffered));
    assert!(matches!(router.route(msg(4, 1, b"y")), RouteOutcome::Dropped));
    let batch = released(router.route(msg(4, 2, b"z")));
    assert_eq!(batch, vec![(4, 1, b"x".to_vec()), (4, 2, b"z".to_vec())]);
}

#[test]
fn unexpected_sender_and_late_messages_dropped() {
    let mut router = Router::new(vec![2]);
    assert!(matches!(router.route(msg(1, 7, b"x")), RouteOutcome::Dropped));
    let batch = released(router.route(msg(1, 2, b"x")));
    assert_eq!(batch, vec![(1, 2, b"x".to_vec())]);
    assert!(matches!(router.route(msg(1, 2, b"x")), RouteOutcome::Dropped));
}

#[test]
fn rounds_buffer_independently_of_arrival_order() {
    let mut router = Router::new(vec![1, 2]);
    assert!(matches!(router.route(msg(2, 1, b"r2")), RouteOutcome::Buffered));
    assert!(matches!(router.route(msg(1, 2, b"r1")), RouteOutcome::Buffered));
    let first = released(router.route(msg(1, 1, b"r1a")));
    assert_eq!(first, vec![(1, 1, b"r1a".to_vec()), (1, 2, b"r1".to_vec())]);
    let second = released(router.route(msg(2, 2, b"r2b")));
    assert_eq!(second, vec![(2, 1, b"r2".to_vec()), (2, 2, b"r2b".to_vec())]);
}
