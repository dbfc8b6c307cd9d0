use isimud::coordinator::ForwardOutcome;
use isimud::coordinator::LagPolicy;
use isimud::coordinator::SubscriberSession;
use isimud::hub::Hub;
use isimud::messages::PublisherMsg;
use isimud::messages::PubSubMsg;
use isimud::messages::SubscriberMsg;
use isimud::messages::matches_filter;
use isimud::state::Frame;

fn env(name: &str, topic: &str, data: &str) -> PubSubMsg {
    PubSubMsg::new(
        PublisherMsg { topic: topic.to_string(), data: data.to_string() },
        name.to_string(),
    )
}

fn filter(publisher: &str, topic: &str) -> SubscriberMsg {
    SubscriberMsg { publisher: publisher.to_string(), topic: topic.to_string() }
}

#[test]
fn filter_selects_exact_match_only() {
    let alice_weather = filter("alice", "weather");
    assert!(matches_filter(&alice_weather, &env("alice", "weather", "sunny")));
    assert!(!matches_filter(&alice_weather, &env("alice", "traffic", "jam")));
    assert!(!matches_filter(&alice_weather, &env("bob", "weather", "rain")));
    assert!(!matches_filter(&alice_weather, &env("bob", "traffic", "jam")));
    assert!(!matches_filter(&alice_weather, &env("Alice", "weather", "case")));
}

#[test]
fn forward_loop_delivers_matches_and_skips_the_rest() {
    let mut hub = Hub::new();
    let session_sub = hub.subscribe();
    let mut session = SubscriberSession::new(
        filter("alice", "weather"),
        session_sub,
        LagPolicy::SkipAhead,
    );
    hub.publish(env("alice", "weather", "sunny"));
    hub.publish(env("alice", "traffic", "jam"));
    hub.publish(env("bob", "weather", "rain"));
    match session.poll_hub(&hub) {
        ForwardOutcome::Deliver(d) => assert_eq!(d, "sunny"),
        _ => panic!("expected a delivery"),
    }
    assert!(matches!(session.poll_hub(&hub), ForwardOutcome::Skip));
    assert!(matches!(session.poll_hub(&hub), ForwardOutcome::Skip));
    assert!(matches!(session.poll_hub(&hub), ForwardOutcome::Idle));
}

#[test]
fn peer_close_stops_delivery_at_once() {
    let mut hub = Hub::new();
    let session_sub = hub.subscribe();
    let mut session = SubscriberSession::new(
        filter("alice", "weather"),
        session_sub,
        LagPolicy::SkipAhead,
    );
    hub.publish(env("alice", "weather", "sunny"));
    let stop = session.on_peer_frame(&Frame::Close);
    assert!(stop);
    assert!(matches!(session.poll_hub(&hub), ForwardOutcome::Stopped));
    let _released = session.release();
}

#[test]
fn ping_does_not_stop_the_session() {
    let mut hub = Hub::new();
    let session_sub = hub.subscribe();
    let mut session = SubscriberSession::new(
        filter("alice", "weather"),
        session_sub,
        LagPolicy::SkipAhead,
    );
    let stop = session.on_peer_frame(&Frame::Ping);
    assert!(!stop);
    hub.publish(env("alice", "weather", "sunny"));
    assert!(matches!(session.poll_hub(&hub), ForwardOutcome::Deliver(_)));
}

#[test]
fn unexpected_text_stops_the_session() {
    let hub = Hub::new();
    let session_sub = hub.subscribe();
    let mut session = SubscriberSession::new(
        filter("alice", "weather"),
        session_sub,
        LagPolicy::SkipAhead,
    );
    let stop = session.on_peer_frame(&Frame::Text("anything".to_string()));
    assert!(stop);
    assert!(matches!(session.poll_hub(&hub), ForwardOutcome::Stopped));
}

#[test]
fn write_failure_stops_the_session() {
    let mut hub = Hub::new();
    let session_sub = hub.subscribe();
    let mut session = SubscriberSession::new(
        filter("alice", "weather"),
        session_sub,
        LagPolicy::SkipAhead,
    );
    session.on_write_result(true);
    hub.publish(env("alice", "weather", "sunny"));
    assert!(matches!(session.poll_hub(&hub), ForwardOutcome::Deliver(_)));
    session.on_write_result(false);
    hub.publish(env("alice", "weather", "cloudy"));
    assert!(matches!(session.poll_hub(&hub), ForwardOutcome::Stopped));
}

#[test]
fn lag_with_skip_ahead_policy_keeps_receiving() {
    let mut hub = Hub::new();
    let session_sub = hub.subscribe();
    let mut session = SubscriberSession::new(
        filter("alice", "weather"),
        session_sub,
        LagPolicy::SkipAhead,
    );
    for i in 0..20 {
        hub.publish(env("alice", "weather", &format!("update {i}")));
    }
    match session.poll_hub(&hub) {
        ForwardOutcome::Lagged(n) => assert_eq!(n, 4),
        _ => panic!("expected a lag indication"),
    }
    match session.poll_hub(&hub) {
        ForwardOutcome::Deliver(d) => assert_eq!(d, "update 4"),
        _ => panic!("expected delivery to resume at the oldest retained envelope"),
    }
}

#[test]
fn lag_with_disconnect_policy_stops_the_session() {
    let mut hub = Hub::new();
    let session_sub = hub.subscribe();
    let mut session = SubscriberSession::new(
        filter("alice", "weather"),
        session_sub,
        LagPolicy::Disconnect,
    );
    for i in 0..20 {
        hub.publish(env("alice", "weather", &format!("update {i}")));
    }
    assert!(matches!(session.poll_hub(&hub), ForwardOutcome::Lagged(_)));
    assert!(matches!(session.poll_hub(&hub), ForwardOutcome::Stopped));
}

#[test]
fn round_trip_through_session_preserves_payload() {
    let mut hub = Hub::new();
    let session_sub = hub.subscribe();
    let mut session = SubscriberSession::new(filter("n", "t"), session_sub, LagPolicy::SkipAhead);
    hub.publish(env("n", "t", "d"));
    match session.poll_hub(&hub) {
        ForwardOutcome::Deliver(d) => assert_eq!(d, "d"),
        _ => panic!("expected a delivery"),
    }
}
