use mpc_relay::session::{JoinError, Session, SessionEvent, SessionState};
use mpc_relay::types::{Parameters, Protocol};

#[test]
fn parameters_validity() {
    assert_eq!(Parameters::new(2, 3), Some(Parameters { threshold: 2, parties: 3 }));
    assert_eq!(Parameters::new(3, 3), Some(Parameters { threshold: 3, parties: 3 }));
    assert_eq!(Parameters::new(0, 3), None);
    assert_eq!(Parameters::new(4, 3), None);
    assert_ne!(Protocol::GG20, Protocol::CGGMP);
}

#[test]
fn all_joins_activate_once_then_complete() {
    let params = Parameters::new(2, 3).unwrap();
    let mut s = Session::create(7, params, 100, 30);
    assert_eq!(s.id(), 7);
    assert_eq!(s.parameters(), params);
    assert_eq!(s.state(), SessionState::Waiting);
    assert_eq!(s.join(1), Ok(None));
    assert_eq!(s.join(1), Ok(None));
    assert_eq!(s.join(3), Ok(None));
    assert_eq!(s.join(2), Ok(Some(SessionEvent::Active)));
    assert_eq!(s.state(), SessionState::Active);
    assert_eq!(s.join(2), Err(JoinError::Closed));
    assert_eq!(s.tick(1000), None);
    assert!(s.complete());
    assert_eq!(s.state(), SessionState::Completed);
    assert!(!s.complete());
}

#[test]
fn join_by_non_participant_fails() {
    let mut s = Session::create(1, Parameters::new(1, 2).unwrap(), 0, 10);
    assert_eq!(s.join(0), Err(JoinError::NotSessionParticipant));
    assert_eq!(s.join(3), Err(JoinError::NotSessionParticipant));
    assert_eq!(s.state(), SessionState::Waiting);
}

#[test]
fn complete_before_active_is_refused() {
    let mut s = Session::create(1, Parameters::new(1, 2).unwrap(), 0, 10);
    assert!(!s.complete());
    assert_eq!(s.state(), SessionState::Waiting);
}

#[test]
fn party_that_never_joins_times_out_once() {
    // Party one creates and joins; party two never joins.
    let mut s = Session::create(42, Parameters::new(2, 2).unwrap(), 1_000, 60);
    assert_eq!(s.join(1), Ok(None));
    assert_eq!(s.tick(1_030), None);
    assert_eq!(s.tick(1_060), None);
    assert_eq!(s.state(), SessionState::Waiting);
    assert_eq!(s.tick(1_061), Some(SessionEvent::TimedOut));
    assert_eq!(s.state(), SessionState::TimedOut);
    assert_eq!(s.tick(2_000), None);
    assert_eq!(s.join(2), Err(JoinError::Closed));
    assert_eq!(s.state(), SessionState::TimedOut);
    assert!(!s.complete());
}

#[test]
fn clock_before_creation_does_not_expire() {
    let mut s = Session::create(1, Parameters::new(1, 1).unwrap(), 500, 0);
    assert_eq!(s.tick(0), None);
    assert_eq!(s.tick(500), None);
    assert_eq!(s.tick(501), Some(SessionEvent::TimedOut));
}

#[test]
fn two_party_session_activates_on_second_join() {
    let mut s = Session::create(9, Parameters::new(2, 2).unwrap(), 0, 60);
    assert_eq!(s.join(2), Ok(None));
    assert_eq!(s.join(1), Ok(Some(SessionEvent::Active)));
    assert_eq!(s.tick(61), None);
    assert!(s.complete());
    assert_eq!(s.state(), SessionState::Completed);
}
