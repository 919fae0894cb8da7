//! Cross-checks against the ecosystem's JSON implementation: frames this
//! crate renders must be well-formed JSON with the expected fields, and
//! frames rendered by serde_json must decode with this crate.

use auraxis::codec::{decode_message, subscribe_text, CensusMessage};
use auraxis::constants::WorldID;
use auraxis::event::{Event, EventNames, PlayerLogin, Timestamp};
use auraxis::json::{parse_text, render, JsonValue};
use auraxis::subscription::{
    CharacterSubscription, EventSubscription, Service, SubscriptionSettings, WorldSubscription,
};

#[test]
fn rendered_subscribe_frames_are_valid_json_with_the_expected_fields() {
    let settings = SubscriptionSettings {
        event_names: Some(EventSubscription::Ids(vec![EventNames::PlayerLogin])),
        characters: Some(CharacterSubscription::All),
        logical_and_characters_with_worlds: Some(true),
        worlds: Some(WorldSubscription::Ids(vec![WorldID::Emerald])),
        service: Service::Event,
    };
    let text = subscribe_text(&settings);
    let v: serde_json::Value = serde_json::from_str(&text).expect("frame must be valid JSON");
    assert_eq!(v["action"], "subscribe");
    assert_eq!(v["eventNames"][0], "PlayerLogin");
    assert_eq!(v["characters"][0], "all");
    assert_eq!(v["logicalAndCharactersWithWorlds"], true);
    assert_eq!(v["worlds"][0], "17");
    assert_eq!(v["service"], "event");
}

#[test]
fn frames_rendered_by_serde_json_decode_here() {
    let v: serde_json::Value = serde_json::from_str(
        "{\"payload\":{\"character_id\":\"5\",\"event_name\":\"PlayerLogin\",\
         \"timestamp\":\"1700000000\",\"world_id\":\"17\"},\"service\":\"event\",\
         \"type\":\"serviceMessage\"}",
    )
    .unwrap();
    let text = serde_json::to_string(&v).unwrap();
    let m = decode_message(&text).expect("a serde_json rendering must decode");
    assert_eq!(
        m,
        CensusMessage::ServiceMessage {
            payload: Event::PlayerLogin(PlayerLogin {
                character_id: 5,
                timestamp: Timestamp { epoch_secs: 1700000000 },
                world_id: WorldID::Emerald,
            })
        }
    );
}

#[test]
fn rendered_wire_values_agree_with_serde_json() {
    let v = JsonValue::Obj(vec![
        (String::from("text"), JsonValue::Str(String::from("line\nbreak \"quoted\""))),
        (String::from("count"), JsonValue::Num(18446744073709551615)),
        (
            String::from("flags"),
            JsonValue::Arr(vec![JsonValue::Bool(true), JsonValue::Null]),
        ),
    ]);
    let mine = render(&v);
    let theirs: serde_json::Value = serde_json::from_str(&mine).expect("must be valid JSON");
    assert_eq!(theirs["text"], "line\nbreak \"quoted\"");
    assert_eq!(theirs["count"], serde_json::Value::from(18446744073709551615u64));
    assert_eq!(theirs["flags"][0], true);
    assert!(theirs["flags"][1].is_null());
    // And serde_json's own rendering of the same document parses here.
    let round = serde_json::to_string(&theirs).unwrap();
    assert!(parse_text(&round).is_some());
}

#[test]
fn world_names_match_their_identifiers() {
    assert_eq!(WorldID::Emerald.name(), "Emerald");
    assert_eq!(WorldID::Soltech.name(), "Soltech");
    let dup = SubscriptionSettings::default().duplicate();
    assert_eq!(dup, SubscriptionSettings::default());
}
