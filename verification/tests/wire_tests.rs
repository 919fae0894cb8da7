//! The wire-value layer and the small vocabularies: rendering, parsing,
//! numeric text, event names, and identifier codes.

use auraxis::constants::{Faction, Loadout, WorldID};
use auraxis::event::{Event, EventNames, PlayerLogin, Timestamp};
use auraxis::json::{parse_text, render, JsonValue};
use auraxis::text::{parse_i64_chars, parse_u64_chars, str_to_chars};
use auraxis::api::{
    api_base_url, request_url, ApiClientConfig, CensusCollection, Filter, FilterType, Sort,
    SortDirection, API_URL,
};

fn obj(pairs: Vec<(&str, JsonValue)>) -> JsonValue {
    JsonValue::Obj(pairs.into_iter().map(|(k, v)| (String::from(k), v)).collect())
}

#[test]
fn render_is_compact_and_ordered() {
    let v = obj(vec![
        ("b", JsonValue::Bool(true)),
        ("n", JsonValue::Num(42)),
        ("s", JsonValue::Str(String::from("hi"))),
        ("a", JsonValue::Arr(vec![JsonValue::Null, JsonValue::Num(0)])),
        ("o", JsonValue::Obj(Vec::new())),
    ]);
    assert_eq!(render(&v), "{\"b\":true,\"n\":42,\"s\":\"hi\",\"a\":[null,0],\"o\":{}}");
}

#[test]
fn render_escapes_and_parse_unescapes() {
    let v = JsonValue::Str(String::from("a\"b\\c\nd\te\u{1}"));
    let text = render(&v);
    assert_eq!(text, "\"a\\\"b\\\\c\\nd\\te\\u0001\"");
    match parse_text(&text) {
        Some(JsonValue::Str(s)) => assert_eq!(s, "a\"b\\c\nd\te\u{1}"),
        other => panic!("expected a string back, got {:?}", other),
    }
}

#[test]
fn parse_accepts_unicode_escapes_and_refuses_surrogates() {
    match parse_text("\"\\u0041\\u00e9\"") {
        Some(JsonValue::Str(s)) => assert_eq!(s, "Aé"),
        other => panic!("expected a string, got {:?}", other),
    }
    assert!(parse_text("\"\\ud800\"").is_none());
}

#[test]
fn parse_refuses_trailing_garbage_and_partial_values() {
    assert!(parse_text("{}x").is_none());
    assert!(parse_text("{\"a\":").is_none());
    assert!(parse_text("[1,]").is_none());
    assert!(parse_text("\"unterminated").is_none());
    assert!(parse_text("").is_none());
}

#[test]
fn parse_render_round_trips_nested_values() {
    let v = obj(vec![
        (
            "payload",
            obj(vec![
                ("name", JsonValue::Str(String::from("Emerald"))),
                ("ids", JsonValue::Arr(vec![
                    JsonValue::Str(String::from("17")),
                    JsonValue::Num(18446744073709551615),
                ])),
            ]),
        ),
        ("ok", JsonValue::Bool(false)),
    ]);
    let text = render(&v);
    let back = parse_text(&text).expect("rendered text must parse");
    assert_eq!(render(&back), text);
}

#[test]
fn numeric_text_parses_exactly() {
    assert_eq!(parse_u64_chars(&str_to_chars("0")), Some(0));
    assert_eq!(parse_u64_chars(&str_to_chars("18446744073709551615")), Some(u64::MAX));
    assert_eq!(parse_u64_chars(&str_to_chars("18446744073709551616")), None);
    assert_eq!(parse_u64_chars(&str_to_chars("")), None);
    assert_eq!(parse_u64_chars(&str_to_chars("12a")), None);
    assert_eq!(parse_u64_chars(&str_to_chars("-1")), None);
    assert_eq!(parse_i64_chars(&str_to_chars("-1")), Some(-1));
    assert_eq!(parse_i64_chars(&str_to_chars("9223372036854775807")), Some(i64::MAX));
    assert_eq!(parse_i64_chars(&str_to_chars("-9223372036854775808")), Some(i64::MIN));
    assert_eq!(parse_i64_chars(&str_to_chars("9223372036854775808")), None);
    assert_eq!(parse_i64_chars(&str_to_chars("-")), None);
}

#[test]
fn event_names_render_their_wire_strings() {
    assert_eq!(EventNames::PlayerLogin.wire_name(), "PlayerLogin");
    assert_eq!(EventNames::Death.wire_name(), "Death");
    assert_eq!(
        EventNames::GainExperienceId(250).wire_name(),
        "GainExperience_experience_id_250"
    );
}

#[test]
fn event_values_name_their_kind() {
    let e = Event::PlayerLogin(PlayerLogin {
        character_id: 1,
        timestamp: Timestamp { epoch_secs: 0 },
        world_id: WorldID::Connery,
    });
    assert_eq!(e.name(), "PlayerLogin");
    assert_eq!(Event::BattleRankUp.name(), "BattleRankUp");
}

#[test]
fn timestamps_report_milliseconds() {
    let t = Timestamp { epoch_secs: 1700000000 };
    assert_eq!(t.epoch_millis(), 1700000000000);
    let zero = Timestamp { epoch_secs: 0 };
    assert_eq!(zero.epoch_millis(), 0);
}

#[test]
fn identifier_codes_round_trip() {
    for f in [Faction::Unknown, Faction::VS, Faction::NC, Faction::TR, Faction::NS] {
        assert_eq!(Faction::from_code(f.code()), Some(f));
    }
    assert_eq!(Faction::from_code(99), None);
    for w in [
        WorldID::Jaeger,
        WorldID::Briggs,
        WorldID::Miller,
        WorldID::Cobalt,
        WorldID::Connery,
        WorldID::Emerald,
        WorldID::Soltech,
    ] {
        assert_eq!(WorldID::from_code(w.code()), Some(w));
    }
    assert_eq!(WorldID::from_code(2), None);
    assert_eq!(Loadout::from_code(45), Some(Loadout::NSMAX));
    assert_eq!(Loadout::from_code(2), None);
}

#[test]
fn loadouts_belong_to_their_faction() {
    assert_eq!(Loadout::NCMedic.get_faction(), Faction::NC);
    assert_eq!(Loadout::TRMAX.get_faction(), Faction::TR);
    assert_eq!(Loadout::VSEngineer.get_faction(), Faction::VS);
    assert_eq!(Loadout::NSInfiltrator.get_faction(), Faction::NS);
    assert_eq!(Loadout::Unknown.get_faction(), Faction::Unknown);
}

#[test]
fn batch_api_addresses_are_assembled_exactly() {
    let c = ApiClientConfig::default();
    assert_eq!(api_base_url(&c), API_URL);
    let with_key = ApiClientConfig {
        environment: None,
        service_id: Some(String::from("example")),
        api_url: None,
    };
    assert_eq!(
        api_base_url(&with_key),
        format!("{}/s:example", API_URL)
    );
    assert_eq!(
        request_url(&api_base_url(&with_key), "ps2:v2", CensusCollection::Character.name()),
        format!("{}/s:example/get/ps2:v2/character", API_URL)
    );
}

#[test]
fn query_terms_render_their_operators() {
    assert_eq!(SortDirection::Ascending.code(), "1");
    assert_eq!(SortDirection::Descending.code(), "-1");
    let s = Sort { field: String::from("name.first"), direction: SortDirection::Descending };
    assert_eq!(s.query_string(), "name.first:-1");
    let f = Filter {
        field: String::from("name.first_lower"),
        filter: FilterType::StartsWith,
        value: String::from("higby"),
    };
    assert_eq!(f.query_string(), "name.first_lower=^higby");
    let eq = Filter {
        field: String::from("character_id"),
        filter: FilterType::EqualTo,
        value: String::from("5"),
    };
    assert_eq!(eq.query_string(), "character_id=5");
}
