use geyser_client::errors::{
    ClientError, ErrorClass, ProtocolError, TransportError, ValidationError,
};
use geyser_client::filters::{build_subscribe_request, FilterOptions};
use geyser_client::supervisor::{
    BackoffPolicy, BackoffState, Supervisor, SupervisorAction, SupervisorPhase,
};

fn policy() -> BackoffPolicy {
    BackoffPolicy { base_ms: 500, max_ms: 60_000 }
}

#[test]
fn delays_follow_the_exponential_schedule() {
    let mut b = BackoffState::new(policy());
    assert!(b.first_attempt);
    assert_eq!(b.next_delay(), 500);
    assert!(!b.first_attempt);
    assert_eq!(b.next_delay(), 750);
    assert_eq!(b.next_delay(), 1125);
    assert_eq!(b.next_delay(), 1687);
}

#[test]
fn delays_never_decrease_and_cap_out() {
    let mut b = BackoffState::new(policy());
    let mut prev: u64 = 0;
    for _ in 0..60 {
        let d = b.next_delay();
        assert!(d >= prev, "delays never shrink");
        assert!(d <= 60_000);
        prev = d;
    }
    assert_eq!(prev, 60_000, "the schedule reaches its cap and stays there");
}

#[test]
fn delays_strictly_grow_below_the_cap() {
    let mut b = BackoffState::new(BackoffPolicy { base_ms: 500, max_ms: 1_000_000_000 });
    let mut prev = b.next_delay();
    for _ in 0..20 {
        let d = b.next_delay();
        assert!(d > prev);
        prev = d;
    }
}

#[test]
fn validation_error_means_zero_attempts_and_nonzero_exit() {
    let mut opts = FilterOptions::default();
    opts.accounts = true;
    opts.accounts_memcmp = vec![b"broken".to_vec()];
    let prep = build_subscribe_request(&opts, &Vec::new(), None);
    assert!(prep.is_err());
    let (sup, action) = Supervisor::start(policy(), &prep);
    assert_eq!(action, SupervisorAction::Exit { code: 1 });
    assert_eq!(sup.phase, SupervisorPhase::Terminated);
}

#[test]
fn successful_build_connects_first() {
    let prep = build_subscribe_request(&FilterOptions::default(), &Vec::new(), None);
    let (sup, action) = Supervisor::start(policy(), &prep);
    assert_eq!(action, SupervisorAction::Connect);
    assert_eq!(sup.phase, SupervisorPhase::Connecting);
}

#[test]
fn connect_failures_wait_with_growing_delays() {
    let prep = build_subscribe_request(&FilterOptions::default(), &Vec::new(), None);
    let (mut sup, _) = Supervisor::start(policy(), &prep);
    assert_eq!(
        sup.on_connect_result(false),
        SupervisorAction::Wait { delay_ms: 500 }
    );
    assert_eq!(
        sup.on_connect_result(false),
        SupervisorAction::Wait { delay_ms: 750 }
    );
    assert_eq!(sup.on_connect_result(true), SupervisorAction::RunSession);
    assert_eq!(sup.phase, SupervisorPhase::Running);
}

#[test]
fn session_outcomes_are_classified() {
    let prep = build_subscribe_request(&FilterOptions::default(), &Vec::new(), None);
    let (mut sup, _) = Supervisor::start(policy(), &prep);
    sup.on_connect_result(true);
    let a = sup.on_session_end(&Some(ClientError::Transport(TransportError::Send)));
    assert!(matches!(a, SupervisorAction::Wait { .. }));
    assert_eq!(sup.phase, SupervisorPhase::Connecting);

    sup.on_connect_result(true);
    let a = sup.on_session_end(&Some(ClientError::Protocol(ProtocolError::EmptyUpdate)));
    assert!(
        matches!(a, SupervisorAction::Wait { .. }),
        "a protocol failure ends the session but is retried"
    );

    sup.on_connect_result(true);
    let a = sup.on_session_end(&None);
    assert!(
        matches!(a, SupervisorAction::Wait { .. }),
        "a clean stream close is retried too"
    );

    sup.on_connect_result(true);
    let a = sup.on_session_end(&Some(ClientError::Validation(ValidationError::AddressFile)));
    assert_eq!(a, SupervisorAction::Exit { code: 1 });
    assert_eq!(sup.phase, SupervisorPhase::Terminated);
}

#[test]
fn classification_matches_the_taxonomy() {
    assert_eq!(
        ClientError::Validation(ValidationError::MemcmpMalformed).classify(),
        ErrorClass::Permanent
    );
    assert_eq!(
        ClientError::Transport(TransportError::Connect).classify(),
        ErrorClass::Transient
    );
    assert_eq!(
        ClientError::Protocol(ProtocolError::MissingTimestamp).classify(),
        ErrorClass::Transient
    );
}
