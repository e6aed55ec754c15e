use chat_session::session::{
    backoff, Desired, FatalReason, Frame, SessionAction, SessionConfig, SessionEvent, SessionManager,
    SessionState, SubStatus,
};

fn config() -> SessionConfig {
    SessionConfig { keepalive_multiplier: 2, handshake_timeout_secs: 10, backoff_cap_secs: 30, max_retries: 3 }
}

fn desired(event_type: &str) -> Desired {
    Desired {
        event_type: event_type.to_string(),
        version: "1".to_string(),
        condition: vec![("broadcaster_user_id".to_string(), "42".to_string())],
    }
}

fn manager() -> SessionManager {
    SessionManager::new(
        "wss://push.example/ws".to_string(),
        vec![desired("channel.chat.message"), desired("channel.chat.notification")],
        config(),
    )
}

fn welcome(id: &str, keepalive: u64, now: u64) -> SessionEvent {
    SessionEvent::Received {
        frame: Frame::Welcome { session_id: id.to_string(), keepalive_timeout_secs: keepalive },
        now,
    }
}

fn frame(frame: Frame, now: u64) -> SessionEvent {
    SessionEvent::Received { frame, now }
}

/// Connects, welcomes with `id`, and registers both subscriptions as `sub-a`, `sub-b`.
fn active(id: &str) -> SessionManager {
    let mut m = manager();
    assert!(m.step(SessionEvent::Connected { now: 0 }).is_empty());
    m.step(welcome(id, 10, 1));
    assert!(m.step(SessionEvent::Registered { index: 0, id: Some("sub-a".to_string()) }).is_empty());
    assert!(m.step(SessionEvent::Registered { index: 1, id: Some("sub-b".to_string()) }).is_empty());
    m
}

#[test]
fn welcome_registers_each_subscription_with_session_id() {
    let mut m = manager();
    assert_eq!(m.state(), SessionState::Connecting);
    assert_eq!(m.target_url(), "wss://push.example/ws");
    m.step(SessionEvent::Connected { now: 0 });
    assert_eq!(m.state(), SessionState::AwaitingWelcome);
    let acts = m.step(welcome("S1", 10, 1));
    assert_eq!(acts, vec![SessionAction::Register { index: 0 }, SessionAction::Register { index: 1 }]);
    assert_eq!(m.state(), SessionState::Active);
    assert_eq!(m.session_id().as_deref(), Some("S1"));
    assert_eq!(m.desired(1).event_type, "channel.chat.notification");
}

#[test]
fn migration_with_same_id_does_not_register_again() {
    let mut m = active("S1");
    let acts = m.step(frame(Frame::Reconnect { reconnect_url: "wss://other.example/ws".to_string() }, 5));
    assert_eq!(acts, vec![SessionAction::Connect { delay_secs: 0 }]);
    assert_eq!(m.state(), SessionState::Reconnecting);
    assert_eq!(m.target_url(), "wss://other.example/ws");
    assert!(m.step(SessionEvent::Connected { now: 6 }).is_empty());
    assert!(m.step(welcome("S1", 10, 7)).is_empty());
    assert_eq!(m.state(), SessionState::Active);
    assert_eq!(m.status(0), SubStatus::Active);
    assert_eq!(m.status(1), SubStatus::Active);
    assert_eq!(m.target_url(), "wss://push.example/ws");
}

#[test]
fn liveness_reconnect_with_new_id_registers_again() {
    let mut m = active("S1");
    let acts = m.step(SessionEvent::Tick { now: 30 });
    assert_eq!(acts, vec![SessionAction::Connect { delay_secs: 0 }]);
    assert_eq!(m.target_url(), "wss://push.example/ws");
    m.step(SessionEvent::Connected { now: 31 });
    let acts = m.step(welcome("S2", 10, 32));
    assert_eq!(acts, vec![SessionAction::Register { index: 0 }, SessionAction::Register { index: 1 }]);
    assert_eq!(m.status(0), SubStatus::Pending);
    assert_eq!(m.session_id().as_deref(), Some("S2"));
}

#[test]
fn liveness_reconnect_with_same_id_keeps_subscriptions() {
    let mut m = active("S1");
    m.step(SessionEvent::Tick { now: 30 });
    m.step(SessionEvent::Connected { now: 31 });
    assert!(m.step(welcome("S1", 10, 32)).is_empty());
    assert_eq!(m.status(1), SubStatus::Active);
}

#[test]
fn silence_of_21_seconds_with_10_second_keepalive_reconnects() {
    let mut m = active("S1");
    m.step(frame(Frame::Keepalive, 100));
    assert!(m.step(SessionEvent::Tick { now: 120 }).is_empty());
    assert_eq!(m.state(), SessionState::Active);
    let acts = m.step(SessionEvent::Tick { now: 121 });
    assert_eq!(acts, vec![SessionAction::Connect { delay_secs: 0 }]);
    assert_eq!(m.state(), SessionState::Reconnecting);
}

#[test]
fn notifications_are_delivered_in_arrival_order() {
    let mut m = active("S1");
    let ids = ["sub-b", "sub-a", "sub-a", "unknown", "sub-b"];
    let mut delivered = Vec::new();
    for (k, id) in ids.iter().enumerate() {
        delivered.extend(m.step(frame(Frame::Notification { subscription_id: id.to_string() }, 2 + k as u64)));
    }
    assert_eq!(
        delivered,
        vec![
            SessionAction::Deliver { index: 1 },
            SessionAction::Deliver { index: 0 },
            SessionAction::Deliver { index: 0 },
            SessionAction::Deliver { index: 1 },
        ]
    );
}

#[test]
fn revocation_leaves_the_other_subscription_active() {
    let mut m = active("S1");
    let acts = m.step(frame(Frame::Revocation { subscription_id: "sub-a".to_string() }, 3));
    assert_eq!(acts, vec![SessionAction::ReportRevoked { index: 0 }]);
    assert_eq!(m.status(0), SubStatus::Failed);
    assert_eq!(m.status(1), SubStatus::Active);
    assert_eq!(m.state(), SessionState::Active);
    let acts = m.step(frame(Frame::Notification { subscription_id: "sub-b".to_string() }, 4));
    assert_eq!(acts, vec![SessionAction::Deliver { index: 1 }]);
    assert!(m.step(frame(Frame::Notification { subscription_id: "sub-a".to_string() }, 5)).is_empty());
}

#[test]
fn failed_registration_is_reported_and_others_proceed() {
    let mut m = manager();
    m.step(SessionEvent::Connected { now: 0 });
    m.step(welcome("S1", 10, 1));
    let acts = m.step(SessionEvent::Registered { index: 0, id: None });
    assert_eq!(acts, vec![SessionAction::ReportRegistrationFailed { index: 0 }]);
    m.step(SessionEvent::Registered { index: 1, id: Some("sub-b".to_string()) });
    assert_eq!(m.status(0), SubStatus::Failed);
    assert_eq!(m.status(1), SubStatus::Active);
    assert_eq!(m.state(), SessionState::Active);
}

#[test]
fn wrong_first_frame_escalates_to_reconnect() {
    let mut m = manager();
    m.step(SessionEvent::Connected { now: 0 });
    let acts = m.step(frame(Frame::Keepalive, 1));
    assert_eq!(acts, vec![SessionAction::Connect { delay_secs: 2 }]);
    assert_eq!(m.state(), SessionState::Reconnecting);
}

#[test]
fn handshake_timeout_escalates_to_reconnect() {
    let mut m = manager();
    m.step(SessionEvent::Connected { now: 100 });
    assert!(m.step(SessionEvent::Tick { now: 110 }).is_empty());
    let acts = m.step(SessionEvent::Tick { now: 111 });
    assert_eq!(acts, vec![SessionAction::Connect { delay_secs: 2 }]);
}

#[test]
fn connection_failures_back_off_then_exhaust_the_budget() {
    let mut m = manager();
    assert_eq!(m.step(SessionEvent::ConnectFailed), vec![SessionAction::Connect { delay_secs: 2 }]);
    assert_eq!(m.step(SessionEvent::ConnectFailed), vec![SessionAction::Connect { delay_secs: 4 }]);
    assert_eq!(m.step(SessionEvent::ConnectFailed), vec![SessionAction::Connect { delay_secs: 8 }]);
    assert_eq!(
        m.step(SessionEvent::ConnectFailed),
        vec![SessionAction::Halt { reason: FatalReason::RetriesExhausted }]
    );
    assert_eq!(m.state(), SessionState::Closed);
    assert!(m.step(SessionEvent::Connected { now: 1 }).is_empty());
}

#[test]
fn malformed_frame_escalates_to_full_reconnect() {
    let mut m = active("S1");
    m.step(frame(Frame::Reconnect { reconnect_url: "wss://other.example/ws".to_string() }, 5));
    let acts = m.step(SessionEvent::Malformed);
    assert_eq!(acts, vec![SessionAction::Connect { delay_secs: 2 }]);
    assert_eq!(m.target_url(), "wss://push.example/ws");
}

#[test]
fn credential_failure_and_cancel_close_the_session() {
    let mut m = active("S1");
    assert_eq!(
        m.step(SessionEvent::CredentialFailed),
        vec![SessionAction::Halt { reason: FatalReason::CredentialFailure }]
    );
    assert_eq!(m.state(), SessionState::Closed);
    assert!(m.session_id().is_none());
    assert!(m.step(frame(Frame::Notification { subscription_id: "sub-a".to_string() }, 9)).is_empty());
    let mut n = active("S1");
    assert_eq!(n.step(SessionEvent::Cancelled), vec![SessionAction::Halt { reason: FatalReason::Cancelled }]);
}

#[test]
fn backoff_doubles_up_to_the_cap() {
    assert_eq!(backoff(0, 30), 1);
    assert_eq!(backoff(1, 30), 2);
    assert_eq!(backoff(4, 30), 16);
    assert_eq!(backoff(5, 30), 30);
    assert_eq!(backoff(60, 30), 30);
    assert_eq!(backoff(3, 0), 0);
    assert_eq!(backoff(70, u64::MAX), u64::MAX);
}
