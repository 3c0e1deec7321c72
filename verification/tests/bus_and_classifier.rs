use lodestone_core::classifier::{
    classify, parse_player_joined, parse_player_left, parse_server_started, parse_system_msg,
    Occurrence, PlayerMessage,
};
use lodestone_core::events::{CausedBy, Event, EventBus, EventInner, InstanceEventKind};

fn plain_event(n: i64) -> Event {
    Event {
        event_inner: EventInner::InstanceEvent(lodestone_core::events::InstanceEvent {
            instance_uuid: format!("id-{}", n),
            instance_name: "srv".to_string(),
            instance_event_inner: InstanceEventKind::InstanceOutput {
                message: format!("line {}", n),
            },
        }),
        details: String::new(),
        snowflake: n,
        caused_by: CausedBy::System,
    }
}

// A subscriber that subscribes after events were published receives none
// of those, but receives everything published afterwards, in publish
// order.
#[test]
fn late_subscriber_sees_only_later_events() {
    let mut bus = EventBus::new();
    bus.publish(plain_event(1));
    bus.publish(plain_event(2));
    bus.publish(plain_event(3));
    let mut sub = bus.subscribe();
    bus.publish(plain_event(4));
    bus.publish(plain_event(5));
    let e4 = bus.poll(&mut sub).expect("fourth event expected");
    assert_eq!(e4.snowflake, 4);
    let e5 = bus.poll(&mut sub).expect("fifth event expected");
    assert_eq!(e5.snowflake, 5);
    assert!(bus.poll(&mut sub).is_none());
}

#[test]
fn publishing_without_subscribers_is_a_noop() {
    let mut bus = EventBus::new();
    bus.publish(plain_event(1));
    assert_eq!(bus.published_count(), 1);
}

#[test]
fn two_subscribers_are_independent() {
    let mut bus = EventBus::new();
    let mut early = bus.subscribe();
    bus.publish(plain_event(1));
    let mut late = bus.subscribe();
    bus.publish(plain_event(2));
    assert_eq!(bus.poll(&mut early).unwrap().snowflake, 1);
    assert_eq!(bus.poll(&mut late).unwrap().snowflake, 2);
    assert_eq!(bus.poll(&mut early).unwrap().snowflake, 2);
    assert!(bus.poll(&mut early).is_none());
    assert!(bus.poll(&mut late).is_none());
}

#[test]
fn parse_server_started_needs_text_after_marker() {
    assert!(parse_server_started("[2023-03-08 INFO] Server started. Took 12ms"));
    assert!(parse_server_started("Server started."));
    assert!(!parse_server_started("Server started"));
    assert!(!parse_server_started("server running"));
}

#[test]
fn parse_system_msg_takes_text_after_last_bracket() {
    assert_eq!(
        parse_system_msg("[INFO] Server started."),
        Some("Server started.".to_string())
    );
    assert_eq!(
        parse_system_msg("[2023 INFO][Chat] hello there"),
        Some("hello there".to_string())
    );
    assert_eq!(parse_system_msg("no brackets here"), None);
    assert_eq!(parse_system_msg("[unclosed bracket"), None);
}

#[test]
fn parse_player_joined_reads_name_and_xuid() {
    assert_eq!(
        parse_player_joined("Player connected: Steve, xuid: 2535428315124882"),
        Some(("Steve".to_string(), "2535428315124882".to_string()))
    );
    assert_eq!(parse_player_joined("Player connected: Steve"), None);
    assert_eq!(parse_player_joined("something else"), None);
}

#[test]
fn parse_player_left_reads_name() {
    assert_eq!(
        parse_player_left("Player disconnected: Steve"),
        Some("Steve".to_string())
    );
    assert_eq!(parse_player_left("Player connected: Steve, xuid: 1"), None);
}

#[test]
fn classify_orders_ready_over_players_over_system() {
    assert!(matches!(
        classify("[INFO] Server started. done"),
        Occurrence::ServerReady
    ));
    match classify("[INFO] Player connected: Alex, xuid: 42") {
        Occurrence::PlayerJoined { name, xuid } => {
            assert_eq!(name, "Alex");
            assert_eq!(xuid, "42");
        }
        other => panic!("unexpected occurrence: {:?}", other),
    }
    match classify("[INFO] Player disconnected: Alex") {
        Occurrence::PlayerLeft { name } => assert_eq!(name, "Alex"),
        other => panic!("unexpected occurrence: {:?}", other),
    }
    match classify("[INFO] something mundane") {
        Occurrence::SystemMessage { message } => assert_eq!(message, "something mundane"),
        other => panic!("unexpected occurrence: {:?}", other),
    }
    assert!(matches!(classify("free text"), Occurrence::Plain));
}

#[test]
fn player_message_keeps_fields() {
    let m = PlayerMessage::new("Steve".to_string(), "hi".to_string());
    assert_eq!(m.player, "Steve");
    assert_eq!(m.message, "hi");
}
