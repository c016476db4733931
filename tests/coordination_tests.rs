use mpc_relay::ceremony::Ceremony;
use mpc_relay::router::{RoundMessage, RouteOutcome, Router};
use mpc_relay::session::{JoinError, Session, SessionEvent, SessionState};
use mpc_relay::types::Parameters;

fn msg(round: u16, sender: u16, body: &[u8]) -> RoundMessage {
    RoundMessage { round, sender, body: body.to_vec() }
}

#[test]
fn absent_party_times_out_and_no_round_runs() {
    let session = Session::create(3, Parameters::new(2, 2).unwrap(), 10, 5);
    let mut c = Ceremony::new(session, Router::new(vec![2]));
    assert_eq!(c.join(1), Ok(None));
    assert!(!c.may_proceed());
    assert!(matches!(c.route(msg(1, 2, b"early")), RouteOutcome::Dropped));
    assert_eq!(c.tick(15), None);
    assert_eq!(c.tick(16), Some(SessionEvent::TimedOut));
    assert_eq!(c.tick(17), None);
    assert_eq!(c.state(), SessionState::TimedOut);
    assert!(!c.may_proceed());
    assert_eq!(c.join(2), Err(JoinError::Closed));
    assert!(matches!(c.route(msg(1, 2, b"late")), RouteOutcome::Dropped));
    assert!(!c.complete());
}

#[test]
fn active_ceremony_routes_and_completes() {
    let session = Session::create(4, Parameters::new(2, 3).unwrap(), 0, 100);
    let mut c = Ceremony::new(session, Router::new(vec![2, 3]));
    assert_eq!(c.join(1), Ok(None));
    assert_eq!(c.join(3), Ok(None));
    assert_eq!(c.join(2), Ok(Some(SessionEvent::Active)));
    assert!(c.may_proceed());
    assert!(matches!(c.route(msg(1, 3, b"c")), RouteOutcome::Buffered));
    assert!(matches!(c.route(msg(1, 3, b"c")), RouteOutcome::Dropped));
    match c.route(msg(1, 2, b"b")) {
        RouteOutcome::Released(batch) => {
            let got: Vec<_> = batch.into_iter().map(|m| (m.sender, m.body)).collect();
            assert_eq!(got, vec![(2, b"b".to_vec()), (3, b"c".to_vec())]);
        }
        other => panic!("expected release, got {:?}", other),
    }
    assert_eq!(c.tick(1_000), None);
    assert!(c.complete());
    assert_eq!(c.state(), SessionState::Completed);
    assert!(matches!(c.route(msg(2, 2, b"after")), RouteOutcome::Dropped));
}

#[test]
fn timeout_discards_buffered_messages() {
    let mut router = Router::new(vec![1, 2]);
    assert!(matches!(router.route(msg(1, 1, b"x")), RouteOutcome::Buffered));
    router.clear();
    assert!(matches!(router.route(msg(1, 2, b"y")), RouteOutcome::Buffered));
    assert!(matches!(router.route(msg(1, 1, b"x2")), RouteOutcome::Released(_)));
}
