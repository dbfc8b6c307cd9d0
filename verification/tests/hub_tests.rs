use isimud::hub::Hub;
use isimud::hub::RecvOutcome;
use isimud::messages::PublisherMsg;
use isimud::messages::PubSubMsg;

fn env(name: &str, topic: &str, data: &str) -> PubSubMsg {
    PubSubMsg::new(
        PublisherMsg { topic: topic.to_string(), data: data.to_string() },
        name.to_string(),
    )
}

#[test]
fn publish_with_zero_subscribers_succeeds() {
    let mut hub = Hub::new();
    for i in 0..100 {
        hub.publish(env("alice", "weather", &format!("update {i}")));
    }
}

#[test]
fn fresh_subscriber_starts_empty() {
    let mut hub = Hub::new();
    hub.publish(env("alice", "weather", "before"));
    let mut sub = hub.subscribe();
    assert!(matches!(hub.recv(&mut sub), RecvOutcome::Empty));
}

#[test]
fn round_trip_data_unchanged() {
    let mut hub = Hub::new();
    let mut sub = hub.subscribe();
    hub.publish(env("n", "t", "d"));
    match hub.recv(&mut sub) {
        RecvOutcome::Msg(m) => {
            assert_eq!(m.name, "n");
            assert_eq!(m.msg.topic, "t");
            assert_eq!(m.msg.data, "d");
        },
        _ => panic!("expected an envelope"),
    }
}

#[test]
fn delivery_keeps_publish_order() {
    let mut hub = Hub::new();
    let mut sub = hub.subscribe();
    hub.publish(env("alice", "weather", "first"));
    hub.publish(env("alice", "weather", "second"));
    hub.publish(env("alice", "weather", "third"));
    for expected in ["first", "second", "third"] {
        match hub.recv(&mut sub) {
            RecvOutcome::Msg(m) => assert_eq!(m.msg.data, expected),
            _ => panic!("expected an envelope"),
        }
    }
    assert!(matches!(hub.recv(&mut sub), RecvOutcome::Empty));
}

#[test]
fn slow_subscriber_observes_lag() {
    let mut hub = Hub::new();
    let mut sub = hub.subscribe();
    for i in 0..20 {
        hub.publish(env("alice", "weather", &format!("update {i}")));
    }
    match hub.recv(&mut sub) {
        RecvOutcome::Lagged(n) => assert_eq!(n, 4),
        _ => panic!("expected a lag indication"),
    }
    match hub.recv(&mut sub) {
        RecvOutcome::Msg(m) => assert_eq!(m.msg.data, "update 4"),
        _ => panic!("expected the oldest retained envelope"),
    }
}

#[test]
fn subscriber_at_capacity_boundary_sees_everything() {
    let mut hub = Hub::new();
    let mut sub = hub.subscribe();
    for i in 0..16 {
        hub.publish(env("alice", "weather", &format!("update {i}")));
    }
    for i in 0..16 {
        match hub.recv(&mut sub) {
            RecvOutcome::Msg(m) => assert_eq!(m.msg.data, format!("update {i}")),
            _ => panic!("expected an envelope"),
        }
    }
}
