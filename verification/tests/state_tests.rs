use isimud::state::Action;
use isimud::state::CloseReason;
use isimud::state::ConnectionRole;
use isimud::state::Frame;
use isimud::state::step;

fn text(s: &str) -> Frame {
    Frame::Text(s.to_string())
}

#[test]
fn correct_password_authenticates() {
    let (role, action) = step(ConnectionRole::Pending, &text("pub auth hunter2"), "hunter2");
    assert!(matches!(role, ConnectionRole::Authenticated));
    assert!(matches!(action, Action::Continue));
}

#[test]
fn wrong_password_closes_with_invalid_credentials() {
    let (role, action) = step(ConnectionRole::Pending, &text("pub auth wrong"), "hunter2");
    assert!(matches!(role, ConnectionRole::Terminated));
    assert!(matches!(action, Action::CloseWith(CloseReason::InvalidPassword)));
    let (role, action) = step(role, &text("pub auth hunter2"), "hunter2");
    assert!(matches!(role, ConnectionRole::Terminated));
    assert!(matches!(action, Action::Stop));
}

#[test]
fn name_while_pending_is_rejected() {
    let (role, action) = step(ConnectionRole::Pending, &text("pub name bob"), "hunter2");
    assert!(matches!(role, ConnectionRole::Terminated));
    assert!(matches!(action, Action::CloseWith(CloseReason::MalformedCommand)));
}

#[test]
fn subscribing_needs_no_authentication() {
    let (role, action) = step(
        ConnectionRole::Pending,
        &text("{\"publisher\":\"alice\",\"topic\":\"weather\"}"),
        "hunter2",
    );
    match role {
        ConnectionRole::Subscribing(f) => {
            assert_eq!(f.publisher, "alice");
            assert_eq!(f.topic, "weather");
        },
        _ => panic!("expected the subscribing role"),
    }
    assert!(matches!(action, Action::Continue));
}

#[test]
fn garbage_while_pending_closes() {
    let (role, action) = step(ConnectionRole::Pending, &text("hello"), "hunter2");
    assert!(matches!(role, ConnectionRole::Terminated));
    assert!(matches!(action, Action::CloseWith(CloseReason::InvalidMessage)));
}

#[test]
fn malformed_auth_command_closes() {
    let (role, action) = step(ConnectionRole::Pending, &text("pub auth a b"), "hunter2");
    assert!(matches!(role, ConnectionRole::Terminated));
    assert!(matches!(action, Action::CloseWith(CloseReason::InvalidMessage)));
}

#[test]
fn name_after_auth_binds_publisher() {
    let (role, _) = step(ConnectionRole::Authenticated, &text("pub name bob"), "hunter2");
    match role {
        ConnectionRole::Publishing(name) => assert_eq!(name, "bob"),
        _ => panic!("expected the publishing role"),
    }
}

#[test]
fn authenticated_rejects_everything_else() {
    let (role, action) = step(ConnectionRole::Authenticated, &text("pub auth hunter2"), "hunter2");
    assert!(matches!(role, ConnectionRole::Terminated));
    assert!(matches!(action, Action::CloseWith(CloseReason::MalformedCommand)));
}

#[test]
fn publishing_wraps_payload_into_envelope() {
    let (role, action) = step(
        ConnectionRole::Publishing("bob".to_string()),
        &text("{\"topic\":\"t\",\"data\":\"d\"}"),
        "hunter2",
    );
    match role {
        ConnectionRole::Publishing(name) => assert_eq!(name, "bob"),
        _ => panic!("expected the publishing role to persist"),
    }
    match action {
        Action::Publish(env) => {
            assert_eq!(env.name, "bob");
            assert_eq!(env.msg.topic, "t");
            assert_eq!(env.msg.data, "d");
        },
        _ => panic!("expected a publish action"),
    }
}

#[test]
fn publishing_bad_payload_closes() {
    let (role, action) = step(
        ConnectionRole::Publishing("bob".to_string()),
        &text("pub auth hunter2"),
        "hunter2",
    );
    assert!(matches!(role, ConnectionRole::Terminated));
    assert!(matches!(action, Action::CloseWith(CloseReason::InvalidPayload)));
}

#[test]
fn ping_changes_nothing() {
    let (role, action) = step(ConnectionRole::Pending, &Frame::Ping, "hunter2");
    assert!(matches!(role, ConnectionRole::Pending));
    assert!(matches!(action, Action::Continue));
    let (role, action) = step(ConnectionRole::Authenticated, &Frame::Ping, "hunter2");
    assert!(matches!(role, ConnectionRole::Authenticated));
    assert!(matches!(action, Action::Continue));
}

#[test]
fn peer_close_terminates_any_state() {
    let (role, action) = step(ConnectionRole::Pending, &Frame::Close, "hunter2");
    assert!(matches!(role, ConnectionRole::Terminated));
    assert!(matches!(action, Action::Stop));
    let (role, action) = step(ConnectionRole::Publishing("bob".to_string()), &Frame::Close, "hunter2");
    assert!(matches!(role, ConnectionRole::Terminated));
    assert!(matches!(action, Action::Stop));
}

#[test]
fn unexpected_frame_closes() {
    let (role, action) = step(ConnectionRole::Authenticated, &Frame::Other, "hunter2");
    assert!(matches!(role, ConnectionRole::Terminated));
    assert!(matches!(action, Action::CloseWith(CloseReason::UnexpectedFrame)));
}

#[test]
fn close_reasons_have_texts() {
    assert_eq!(CloseReason::InvalidPassword.reason_text(), "Invalid password");
    assert_eq!(CloseReason::MalformedCommand.reason_text(), "Malformed command");
    assert_eq!(CloseReason::InvalidMessage.reason_text(), "Invalid message");
    assert_eq!(CloseReason::InvalidPayload.reason_text(), "Invalid payload");
    assert_eq!(CloseReason::UnexpectedFrame.reason_text(), "Unexpected frame");
}
