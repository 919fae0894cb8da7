//! The supervisor's decisions: ping answering, subscription replacement,
//! keepalive accounting, resubscription pacing, the connection state
//! machine, and address assembly.

use auraxis::client::{
    connection_step, handle_frame, is_read_disconnect_error, keepalive_step, ping_frame,
    realtime_address, resubscribe_delay, ConnectionEvent, ConnectionState, InboundFrame,
    OutboundFrame, RealtimeClient, RealtimeClientConfig, CloseInfo, KEEPALIVE_INTERVAL_SECS,
    MAX_PING_FAILS, REALTIME_URL, RESUBSCRIBE_INTERVAL_SECS, RESUBSCRIBE_RETRY_SECS,
};
use auraxis::codec::subscribe_text;
use auraxis::error::TransportError;
use auraxis::event::{Event, EventNames, PlayerLogin, Timestamp};
use auraxis::constants::WorldID;
use auraxis::subscription::{
    CharacterSubscription, EventSubscription, Service, SubscriptionSettings, WorldSubscription,
};

fn settings_for(events: Vec<EventNames>) -> SubscriptionSettings {
    SubscriptionSettings {
        event_names: Some(EventSubscription::Ids(events)),
        characters: Some(CharacterSubscription::All),
        logical_and_characters_with_worlds: None,
        worlds: Some(WorldSubscription::All),
        service: Service::Event,
    }
}

#[test]
fn ping_produces_exactly_one_identical_pong() {
    let sub = SubscriptionSettings::default();
    let payload = vec![1u8, 2, 3, 4];
    let r = handle_frame(&sub, InboundFrame::Ping(payload.clone()));
    assert_eq!(r.outbound, vec![OutboundFrame::Pong(payload)]);
    assert_eq!(r.event, None);
    assert_eq!(r.decode_error, None);
    assert!(!r.disconnect);
}

#[test]
fn empty_ping_still_echoes_its_payload() {
    let sub = SubscriptionSettings::default();
    let r = handle_frame(&sub, InboundFrame::Ping(Vec::new()));
    assert_eq!(r.outbound, vec![OutboundFrame::Pong(Vec::new())]);
}

#[test]
fn handshake_sends_exactly_the_latest_subscription() {
    let mut client = RealtimeClient::new(RealtimeClientConfig::default());
    client.subscribe(settings_for(vec![EventNames::Death]));
    client.subscribe(settings_for(vec![EventNames::PlayerLogin]));
    let handshake = "{\"connected\":\"true\",\"service\":\"push\",\"type\":\"connectionStateChanged\"}";
    let r = handle_frame(
        &client.subscription_config,
        InboundFrame::Text(String::from(handshake)),
    );
    assert_eq!(
        r.outbound,
        vec![OutboundFrame::Text(subscribe_text(&settings_for(vec![
            EventNames::PlayerLogin
        ])))]
    );
    assert_eq!(r.event, None);
    assert!(!r.disconnect);
}

#[test]
fn handshake_not_connected_sends_nothing() {
    let sub = SubscriptionSettings::default();
    let down = "{\"connected\":\"false\",\"type\":\"connectionStateChanged\"}";
    let r = handle_frame(&sub, InboundFrame::Text(String::from(down)));
    assert!(r.outbound.is_empty());
    assert_eq!(r.event, None);
}

#[test]
fn service_message_reaches_the_consumer() {
    let sub = SubscriptionSettings::default();
    let text = "{\"type\":\"serviceMessage\",\"payload\":{\"event_name\":\"PlayerLogin\",\
                 \"character_id\":\"5\",\"timestamp\":\"1700000000\",\"world_id\":\"17\"}}";
    let r = handle_frame(&sub, InboundFrame::Text(String::from(text)));
    assert_eq!(
        r.event,
        Some(Event::PlayerLogin(PlayerLogin {
            character_id: 5,
            timestamp: Timestamp { epoch_secs: 1700000000 },
            world_id: WorldID::Emerald,
        }))
    );
    assert!(r.outbound.is_empty());
}

#[test]
fn control_frames_never_reach_the_consumer() {
    let sub = SubscriptionSettings::default();
    let frames = [
        "{\"connected\":\"true\",\"type\":\"connectionStateChanged\"}",
        "{\"online\":{},\"type\":\"heartbeat\"}",
        "{\"detail\":\"x\",\"online\":\"true\",\"type\":\"serviceStateChanged\"}",
        "{\"subscription\":{\"characterCount\":1,\"eventNames\":[],\
          \"logicalAndCharactersWithWorlds\":false,\"worlds\":[]},\"type\":\"subscription\"}",
    ];
    for f in frames {
        let r = handle_frame(&sub, InboundFrame::Text(String::from(f)));
        assert_eq!(r.event, None, "control frame leaked an event: {}", f);
    }
}

#[test]
fn decode_failure_is_recorded_and_spoils_nothing() {
    let sub = SubscriptionSettings::default();
    let r = handle_frame(&sub, InboundFrame::Text(String::from("garbage")));
    assert!(r.decode_error.is_some());
    assert!(r.outbound.is_empty());
    assert_eq!(r.event, None);
    assert!(!r.disconnect);
    // The very next frame is handled as if nothing happened.
    let payload = vec![9u8];
    let r2 = handle_frame(&sub, InboundFrame::Ping(payload.clone()));
    assert_eq!(r2.outbound, vec![OutboundFrame::Pong(payload)]);
}

#[test]
fn close_frame_disconnects() {
    let sub = SubscriptionSettings::default();
    let r = handle_frame(
        &sub,
        InboundFrame::Close(Some(CloseInfo { code: 1000, reason: String::from("bye") })),
    );
    assert!(r.disconnect);
    assert_eq!(r.event, None);
    let r2 = handle_frame(&sub, InboundFrame::Close(None));
    assert!(r2.disconnect);
}

#[test]
fn binary_pong_and_raw_frames_are_ignored() {
    let sub = SubscriptionSettings::default();
    for f in [
        InboundFrame::Binary(vec![1, 2]),
        InboundFrame::Pong(vec![3]),
        InboundFrame::Other,
    ] {
        let r = handle_frame(&sub, f);
        assert!(r.outbound.is_empty());
        assert_eq!(r.event, None);
        assert!(!r.disconnect);
    }
}

#[test]
fn keepalive_counts_consecutive_failures_and_turns_fatal() {
    assert_eq!(KEEPALIVE_INTERVAL_SECS, 1);
    assert_eq!(MAX_PING_FAILS, 5);
    let mut fails = 0u32;
    for _ in 0..5 {
        let (next, fatal) = keepalive_step(fails, false);
        assert!(!fatal);
        fails = next;
    }
    assert_eq!(fails, 5);
    let (_, fatal) = keepalive_step(fails, true);
    assert!(!fatal);
    assert_eq!(keepalive_step(5, true), (0, false));
    let (next, fatal) = keepalive_step(5, false);
    assert_eq!(next, 6);
    assert!(fatal);
}

#[test]
fn ping_frame_carries_the_fixed_payload() {
    assert_eq!(ping_frame(), OutboundFrame::Ping(b"Hello".to_vec()));
}

#[test]
fn resubscription_waits_long_after_success_and_short_after_failure() {
    assert_eq!(resubscribe_delay(true), RESUBSCRIBE_INTERVAL_SECS);
    assert_eq!(resubscribe_delay(false), RESUBSCRIBE_RETRY_SECS);
    assert_eq!(RESUBSCRIBE_INTERVAL_SECS, 60 * 30);
    assert_eq!(RESUBSCRIBE_RETRY_SECS, 5);
}

#[test]
fn connection_state_machine_moves_as_documented() {
    let step = connection_step;
    assert_eq!(
        step(ConnectionState::Idle, ConnectionEvent::ConnectRequested),
        ConnectionState::Connecting
    );
    assert_eq!(
        step(ConnectionState::Connecting, ConnectionEvent::TransportEstablished),
        ConnectionState::Connected
    );
    assert_eq!(
        step(ConnectionState::Connecting, ConnectionEvent::ConnectFailed),
        ConnectionState::Disconnected
    );
    assert_eq!(
        step(ConnectionState::Connected, ConnectionEvent::HandshakeConnected),
        ConnectionState::Connected
    );
    assert_eq!(
        step(ConnectionState::Connected, ConnectionEvent::ReadError),
        ConnectionState::Disconnected
    );
    assert_eq!(
        step(ConnectionState::Connected, ConnectionEvent::CloseFrame),
        ConnectionState::Disconnected
    );
    // Anything else leaves the state alone.
    assert_eq!(step(ConnectionState::Idle, ConnectionEvent::ReadError), ConnectionState::Idle);
    assert_eq!(
        step(ConnectionState::Disconnected, ConnectionEvent::ConnectRequested),
        ConnectionState::Disconnected
    );
}

#[test]
fn disconnect_error_classification_matches_the_socket_layer() {
    for e in [
        TransportError::ConnectionClosed,
        TransportError::AlreadyClosed,
        TransportError::Io,
        TransportError::Tls,
        TransportError::Protocol,
    ] {
        assert!(e.is_disconnect_error());
        assert!(is_read_disconnect_error(&Err(e)));
    }
    for e in [
        TransportError::Capacity,
        TransportError::SendQueueFull,
        TransportError::Utf8,
        TransportError::Url,
        TransportError::Http,
        TransportError::HttpFormat,
    ] {
        assert!(!e.is_disconnect_error());
    }
    assert!(!is_read_disconnect_error(&Ok(InboundFrame::Other)));
}

#[test]
fn realtime_address_is_assembled_exactly() {
    let config = RealtimeClientConfig {
        environment: String::from("ps2"),
        service_id: String::from("example"),
        realtime_url: None,
    };
    assert_eq!(
        realtime_address(&config),
        format!("{}?environment=ps2&service-id=s:example", REALTIME_URL)
    );
    let custom = RealtimeClientConfig {
        environment: String::from("ps2ps4us"),
        service_id: String::from("key"),
        realtime_url: Some(String::from("wss://example.invalid/streaming")),
    };
    assert_eq!(
        realtime_address(&custom),
        "wss://example.invalid/streaming?environment=ps2ps4us&service-id=s:key"
    );
}

#[test]
fn default_config_targets_the_public_environment() {
    let c = RealtimeClientConfig::default();
    assert_eq!(c.environment, "ps2");
    assert_eq!(c.service_id, "");
    assert_eq!(c.realtime_url, None);
    let client = RealtimeClient::new(c);
    assert_eq!(client.subscription_config, SubscriptionSettings::default());
}
