//! Decoding and encoding whole frames: every event kind round-trips from a
//! representative server frame, the scenario frames of the protocol
//! description come out exactly, and malformed frames fail with the right
//! cause.

use auraxis::codec::{decode_message, encode_action, subscribe_text, Action, CensusMessage};
use auraxis::constants::{Faction, Loadout, WorldID};
use auraxis::error::{DecodeError, FieldParseError, MalformedCause};
use auraxis::event::{
    ContinentLock, ContinentUnlock, Death, DurationSeconds, Event, FacilityControl,
    GainExperience, MetagameEvent, PlayerFacilityCapture, PlayerFacilityDefend, PlayerLogin,
    PlayerLogout, Timestamp, VehicleDestroy,
};
use auraxis::json::JsonValue;
use auraxis::subscription::{
    CharacterSubscription, EventSubscription, Service, SubscriptionSettings, WorldSubscription,
};
use auraxis::event::EventNames;

fn service_message(payload_fields: &str) -> String {
    format!("{{\"service\":\"event\",\"type\":\"serviceMessage\",\"payload\":{{{}}}}}", payload_fields)
}

#[test]
fn player_login_round_trip() {
    let text = service_message(
        "\"event_name\":\"PlayerLogin\",\"character_id\":\"5428521211318128657\",\"timestamp\":\"1700000000\",\"world_id\":\"17\"",
    );
    let m = decode_message(&text).unwrap();
    assert_eq!(
        m,
        CensusMessage::ServiceMessage {
            payload: Event::PlayerLogin(PlayerLogin {
                character_id: 5428521211318128657,
                timestamp: Timestamp { epoch_secs: 1700000000 },
                world_id: WorldID::Emerald,
            })
        }
    );
}

#[test]
fn player_logout_round_trip() {
    let text = service_message(
        "\"event_name\":\"PlayerLogout\",\"character_id\":\"42\",\"timestamp\":\"1700000001\",\"world_id\":\"1\"",
    );
    let m = decode_message(&text).unwrap();
    assert_eq!(
        m,
        CensusMessage::ServiceMessage {
            payload: Event::PlayerLogout(PlayerLogout {
                character_id: 42,
                timestamp: Timestamp { epoch_secs: 1700000001 },
                world_id: WorldID::Connery,
            })
        }
    );
}

#[test]
fn death_round_trip() {
    let text = service_message(
        "\"event_name\":\"Death\",\"attacker_character_id\":\"1\",\"attacker_fire_mode_id\":\"2\",\
         \"attacker_loadout_id\":\"3\",\"attacker_vehicle_id\":\"4\",\"attacker_weapon_id\":\"5\",\
         \"character_id\":\"6\",\"character_loadout_id\":\"8\",\"is_headshot\":\"1\",\
         \"timestamp\":\"1700000002\",\"vehicle_id\":\"9\",\"world_id\":\"10\",\"zone_id\":\"11\"",
    );
    let m = decode_message(&text).unwrap();
    assert_eq!(
        m,
        CensusMessage::ServiceMessage {
            payload: Event::Death(Death {
                attacker_character_id: 1,
                attacker_fire_mode_id: 2,
                attacker_loadout_id: Loadout::NCLightAssault,
                attacker_vehicle_id: 4,
                attacker_weapon_id: 5,
                character_id: 6,
                character_loadout_id: Loadout::TRInfiltrator,
                is_headshot: true,
                timestamp: Timestamp { epoch_secs: 1700000002 },
                vehicle_id: 9,
                world_id: WorldID::Miller,
                zone_id: 11,
            })
        }
    );
}

#[test]
fn death_vehicle_defaults_to_zero_when_absent() {
    let text = service_message(
        "\"event_name\":\"Death\",\"attacker_character_id\":\"1\",\"attacker_fire_mode_id\":\"2\",\
         \"attacker_loadout_id\":\"3\",\"attacker_vehicle_id\":\"4\",\"attacker_weapon_id\":\"5\",\
         \"character_id\":\"6\",\"character_loadout_id\":\"8\",\"is_headshot\":\"0\",\
         \"timestamp\":\"1700000002\",\"world_id\":\"10\",\"zone_id\":\"11\"",
    );
    match decode_message(&text).unwrap() {
        CensusMessage::ServiceMessage { payload: Event::Death(d) } => {
            assert_eq!(d.vehicle_id, 0);
            assert!(!d.is_headshot);
        }
        other => panic!("expected a death event, got {:?}", other),
    }
}

#[test]
fn vehicle_destroy_round_trip() {
    let text = service_message(
        "\"event_name\":\"VehicleDestroy\",\"attacker_character_id\":\"1\",\
         \"attacker_loadout_id\":\"15\",\"attacker_vehicle_id\":\"2\",\"attacker_weapon_id\":\"3\",\
         \"character_id\":\"4\",\"facility_id\":\"5\",\"faction_id\":\"2\",\
         \"timestamp\":\"1700000003\",\"vehicle_id\":\"6\",\"world_id\":\"13\",\"zone_id\":\"7\"",
    );
    let m = decode_message(&text).unwrap();
    assert_eq!(
        m,
        CensusMessage::ServiceMessage {
            payload: Event::VehicleDestroy(VehicleDestroy {
                attacker_character_id: 1,
                attacker_loadout_id: Loadout::VSInfiltrator,
                attacker_vehicle_id: 2,
                attacker_weapon_id: 3,
                character_id: 4,
                facility_id: 5,
                faction_id: Faction::NC,
                timestamp: Timestamp { epoch_secs: 1700000003 },
                vehicle_id: 6,
                world_id: WorldID::Cobalt,
                zone_id: 7,
            })
        }
    );
}

#[test]
fn gain_experience_round_trip() {
    let text = service_message(
        "\"event_name\":\"GainExperience\",\"character_id\":\"1\",\"experience_id\":\"2\",\
         \"loadout_id\":\"20\",\"other_id\":\"3\",\"timestamp\":\"1700000004\",\"world_id\":\"19\",\
         \"zone_id\":\"4\",\"amount\":\"100\",\"team_id\":\"3\"",
    );
    let m = decode_message(&text).unwrap();
    assert_eq!(
        m,
        CensusMessage::ServiceMessage {
            payload: Event::GainExperience(GainExperience {
                character_id: 1,
                experience_id: 2,
                loadout_id: Loadout::VSHeavyAssault,
                other_id: 3,
                timestamp: Timestamp { epoch_secs: 1700000004 },
                world_id: WorldID::Jaeger,
                zone_id: 4,
                amount: 100,
                team_id: Faction::TR,
            })
        }
    );
}

#[test]
fn player_facility_capture_round_trip() {
    let text = service_message(
        "\"event_name\":\"PlayerFacilityCapture\",\"character_id\":\"1\",\"facility_id\":\"2\",\
         \"outfit_id\":37512545,\"timestamp\":\"1700000005\",\"world_id\":\"25\",\"zone_id\":\"3\"",
    );
    let m = decode_message(&text).unwrap();
    assert_eq!(
        m,
        CensusMessage::ServiceMessage {
            payload: Event::PlayerFacilityCapture(PlayerFacilityCapture {
                character_id: 1,
                facility_id: 2,
                outfit_id: 37512545,
                timestamp: Timestamp { epoch_secs: 1700000005 },
                world_id: WorldID::Briggs,
                zone_id: 3,
            })
        }
    );
}

#[test]
fn player_facility_defend_round_trip() {
    let text = service_message(
        "\"event_name\":\"PlayerFacilityDefend\",\"character_id\":\"1\",\"facility_id\":\"2\",\
         \"outfit_id\":9,\"timestamp\":\"1700000006\",\"world_id\":\"40\",\"zone_id\":\"3\"",
    );
    let m = decode_message(&text).unwrap();
    assert_eq!(
        m,
        CensusMessage::ServiceMessage {
            payload: Event::PlayerFacilityDefend(PlayerFacilityDefend {
                character_id: 1,
                facility_id: 2,
                outfit_id: 9,
                timestamp: Timestamp { epoch_secs: 1700000006 },
                world_id: WorldID::Soltech,
                zone_id: 3,
            })
        }
    );
}

#[test]
fn facility_control_round_trip() {
    let text = service_message(
        "\"event_name\":\"FacilityControl\",\"duration_held\":\"3600\",\"facility_id\":\"2\",\
         \"new_faction_id\":\"1\",\"old_faction_id\":\"2\",\"outfit_id\":55,\
         \"timestamp\":\"1700000007\",\"world_id\":\"17\",\"zone_id\":\"3\"",
    );
    let m = decode_message(&text).unwrap();
    assert_eq!(
        m,
        CensusMessage::ServiceMessage {
            payload: Event::FacilityControl(FacilityControl {
                duration_held: DurationSeconds { secs: 3600 },
                facility_id: 2,
                new_faction_id: Faction::VS,
                old_faction_id: Faction::NC,
                outfit_id: 55,
                timestamp: Timestamp { epoch_secs: 1700000007 },
                world_id: WorldID::Emerald,
                zone_id: 3,
            })
        }
    );
}

#[test]
fn continent_lock_round_trip() {
    let text = service_message(
        "\"event_name\":\"ContinentLock\",\"timestamp\":\"1700000008\",\"world_id\":\"1\",\
         \"zone_id\":\"2\",\"triggering_faction\":\"1\",\"previous_faction\":\"2\",\
         \"vs_population\":\"40\",\"nc_population\":\"30\",\"tr_population\":\"30\",\
         \"metagame_event_id\":\"5\"",
    );
    let m = decode_message(&text).unwrap();
    assert_eq!(
        m,
        CensusMessage::ServiceMessage {
            payload: Event::ContinentLock(ContinentLock {
                timestamp: Timestamp { epoch_secs: 1700000008 },
                world_id: WorldID::Connery,
                zone_id: 2,
                triggering_faction: Faction::VS,
                previous_faction: Faction::NC,
                vs_population: 40,
                nc_population: 30,
                tr_population: 30,
                metagame_event_id: 5,
            })
        }
    );
}

#[test]
fn continent_unlock_round_trip() {
    let text = service_message(
        "\"event_name\":\"ContinentUnlock\",\"timestamp\":\"1700000009\",\"world_id\":\"10\",\
         \"zone_id\":\"2\",\"triggering_faction\":\"3\",\"previous_faction\":\"4\",\
         \"vs_population\":\"10\",\"nc_population\":\"20\",\"tr_population\":\"70\",\
         \"metagame_event_id\":\"6\"",
    );
    let m = decode_message(&text).unwrap();
    assert_eq!(
        m,
        CensusMessage::ServiceMessage {
            payload: Event::ContinentUnlock(ContinentUnlock {
                timestamp: Timestamp { epoch_secs: 1700000009 },
                world_id: WorldID::Miller,
                zone_id: 2,
                triggering_faction: Faction::TR,
                previous_faction: Faction::NS,
                vs_population: 10,
                nc_population: 20,
                tr_population: 70,
                metagame_event_id: 6,
            })
        }
    );
}

#[test]
fn metagame_event_round_trip() {
    let text = service_message(
        "\"event_name\":\"MetagameEvent\",\"timestamp\":\"1700000010\",\"world_id\":\"13\",\
         \"instance_id\":\"12\",\"experience_bonus\":\"25.000000\",\"faction_nc\":\"33.333332\",\
         \"faction_tr\":\"33.333332\",\"faction_vs\":\"33.333336\",\"metagame_event_id\":\"176\",\
         \"metagame_event_state\":\"135\",\"metagame_event_state_name\":\"started\",\"zone_id\":\"8\"",
    );
    let m = decode_message(&text).unwrap();
    assert_eq!(
        m,
        CensusMessage::ServiceMessage {
            payload: Event::MetagameEvent(MetagameEvent {
                timestamp: Timestamp { epoch_secs: 1700000010 },
                world_id: WorldID::Cobalt,
                instance_id: 12,
                experience_bonus: String::from("25.000000"),
                faction_nc: String::from("33.333332"),
                faction_tr: String::from("33.333332"),
                faction_vs: String::from("33.333336"),
                metagame_event_id: 176,
                metagame_event_state: 135,
                metagame_event_state_name: String::from("started"),
                zone_id: 8,
            })
        }
    );
}

#[test]
fn unit_event_kinds_round_trip() {
    for (name, expected) in [
        ("ItemAdded", Event::ItemAdded),
        ("AchievementEarned", Event::AchievementEarned),
        ("SkillAdded", Event::SkillAdded),
        ("BattleRankUp", Event::BattleRankUp),
    ] {
        let text = service_message(&format!("\"event_name\":\"{}\"", name));
        let m = decode_message(&text).unwrap();
        assert_eq!(m, CensusMessage::ServiceMessage { payload: expected });
    }
}

#[test]
fn non_numeric_field_fails_without_spoiling_the_next_message() {
    let bad = service_message(
        "\"event_name\":\"PlayerLogin\",\"character_id\":\"abc\",\"timestamp\":\"1700000000\",\"world_id\":\"17\"",
    );
    assert_eq!(
        decode_message(&bad),
        Err(DecodeError::MalformedPayload(MalformedCause::Field(FieldParseError::NonNumeric)))
    );
    let good = service_message(
        "\"event_name\":\"PlayerLogin\",\"character_id\":\"7\",\"timestamp\":\"1700000000\",\"world_id\":\"17\"",
    );
    assert!(decode_message(&good).is_ok());
}

#[test]
fn numeric_overflow_fails_as_non_numeric() {
    let bad = service_message(
        "\"event_name\":\"PlayerLogin\",\"character_id\":\"99999999999999999999999\",\"timestamp\":\"1\",\"world_id\":\"17\"",
    );
    assert_eq!(
        decode_message(&bad),
        Err(DecodeError::MalformedPayload(MalformedCause::Field(FieldParseError::NonNumeric)))
    );
}

#[test]
fn boolean_field_accepts_exactly_zero_and_one() {
    let frame = |v: &str| {
        service_message(&format!(
            "\"event_name\":\"Death\",\"attacker_character_id\":\"1\",\"attacker_fire_mode_id\":\"2\",\
             \"attacker_loadout_id\":\"3\",\"attacker_vehicle_id\":\"4\",\"attacker_weapon_id\":\"5\",\
             \"character_id\":\"6\",\"character_loadout_id\":\"8\",\"is_headshot\":\"{}\",\
             \"timestamp\":\"1\",\"vehicle_id\":\"9\",\"world_id\":\"10\",\"zone_id\":\"11\"",
            v
        ))
    };
    match decode_message(&frame("0")).unwrap() {
        CensusMessage::ServiceMessage { payload: Event::Death(d) } => assert!(!d.is_headshot),
        other => panic!("expected a death event, got {:?}", other),
    }
    match decode_message(&frame("1")).unwrap() {
        CensusMessage::ServiceMessage { payload: Event::Death(d) } => assert!(d.is_headshot),
        other => panic!("expected a death event, got {:?}", other),
    }
    for v in ["2", "true", "01", ""] {
        assert_eq!(
            decode_message(&frame(v)),
            Err(DecodeError::MalformedPayload(MalformedCause::Field(
                FieldParseError::InvalidBoolean
            ))),
            "value {:?} must be refused",
            v
        );
    }
}

#[test]
fn unknown_event_name_is_an_unknown_discriminator() {
    let text = service_message("\"event_name\":\"PlayerRespawn\",\"character_id\":\"1\"");
    assert_eq!(decode_message(&text), Err(DecodeError::UnknownDiscriminator));
}

#[test]
fn unknown_enum_code_is_refused() {
    let text = service_message(
        "\"event_name\":\"PlayerLogin\",\"character_id\":\"1\",\"timestamp\":\"1\",\"world_id\":\"999\"",
    );
    assert_eq!(
        decode_message(&text),
        Err(DecodeError::MalformedPayload(MalformedCause::Field(
            FieldParseError::UnknownEnumValue
        )))
    );
}

#[test]
fn unknown_envelope_type_is_an_unknown_discriminator() {
    assert_eq!(
        decode_message("{\"type\":\"mystery\"}"),
        Err(DecodeError::UnknownDiscriminator)
    );
}

#[test]
fn malformed_text_and_shapes_are_refused() {
    assert_eq!(
        decode_message("not json at all"),
        Err(DecodeError::MalformedPayload(MalformedCause::NotJson))
    );
    assert_eq!(
        decode_message("[1,2,3]"),
        Err(DecodeError::MalformedPayload(MalformedCause::NotAnObject))
    );
    assert_eq!(
        decode_message("{\"service\":\"event\"}"),
        Err(DecodeError::MalformedPayload(MalformedCause::MissingDiscriminator))
    );
    assert_eq!(
        decode_message("{\"type\":7}"),
        Err(DecodeError::MalformedPayload(MalformedCause::BadDiscriminator))
    );
    let missing = service_message("\"event_name\":\"PlayerLogin\",\"character_id\":\"1\"");
    assert_eq!(
        decode_message(&missing),
        Err(DecodeError::MalformedPayload(MalformedCause::MissingField))
    );
}

#[test]
fn connection_state_changed_decodes() {
    let up = "{\"connected\":\"true\",\"service\":\"push\",\"type\":\"connectionStateChanged\"}";
    assert_eq!(
        decode_message(up),
        Ok(CensusMessage::ConnectionStateChanged { connected: true })
    );
    let down = "{\"connected\":\"false\",\"service\":\"push\",\"type\":\"connectionStateChanged\"}";
    assert_eq!(
        decode_message(down),
        Ok(CensusMessage::ConnectionStateChanged { connected: false })
    );
    let bad = "{\"connected\":\"yes\",\"type\":\"connectionStateChanged\"}";
    assert_eq!(
        decode_message(bad),
        Err(DecodeError::MalformedPayload(MalformedCause::Field(
            FieldParseError::InvalidBoolean
        )))
    );
}

#[test]
fn heartbeat_decodes_to_ordered_pairs() {
    let text = "{\"online\":{\"EventServerEndpoint_Connery_1\":\"true\",\
                 \"EventServerEndpoint_Miller_10\":\"false\"},\"service\":\"event\",\"type\":\"heartbeat\"}";
    let m = decode_message(text).unwrap();
    assert_eq!(
        m,
        CensusMessage::Heartbeat {
            online: vec![
                (
                    String::from("EventServerEndpoint_Connery_1"),
                    String::from("true")
                ),
                (
                    String::from("EventServerEndpoint_Miller_10"),
                    String::from("false")
                ),
            ]
        }
    );
}

#[test]
fn service_state_changed_decodes() {
    let text = "{\"detail\":\"EventServerEndpoint_Connery_1\",\"online\":\"true\",\
                 \"service\":\"event\",\"type\":\"serviceStateChanged\"}";
    assert_eq!(
        decode_message(text),
        Ok(CensusMessage::ServiceStateChanged {
            online: true,
            detail: String::from("EventServerEndpoint_Connery_1"),
        })
    );
}

#[test]
fn subscription_confirmation_decodes() {
    let text = "{\"subscription\":{\"characterCount\":0,\"eventNames\":[\"PlayerLogin\"],\
                 \"logicalAndCharactersWithWorlds\":true,\"worlds\":[\"17\"]},\"type\":\"subscription\"}";
    match decode_message(text).unwrap() {
        CensusMessage::Subscription { subscription } => {
            assert_eq!(subscription.character_count, 0);
            assert_eq!(subscription.event_names, vec![String::from("PlayerLogin")]);
            assert!(subscription.logical_and_characters_with_worlds);
            assert_eq!(subscription.worlds, vec![String::from("17")]);
        }
        other => panic!("expected a subscription confirmation, got {:?}", other),
    }
}

#[test]
fn subscribe_scenario_encodes_exactly() {
    let settings = SubscriptionSettings {
        event_names: Some(EventSubscription::Ids(vec![EventNames::PlayerLogin])),
        characters: Some(CharacterSubscription::All),
        logical_and_characters_with_worlds: Some(true),
        worlds: Some(WorldSubscription::Ids(vec![WorldID::Emerald])),
        service: Service::Event,
    };
    assert_eq!(
        subscribe_text(&settings),
        "{\"action\":\"subscribe\",\"eventNames\":[\"PlayerLogin\"],\"characters\":[\"all\"],\
         \"logicalAndCharactersWithWorlds\":true,\"worlds\":[\"17\"],\"service\":\"event\"}"
    );
}

#[test]
fn default_subscription_encodes_all_dimensions() {
    assert_eq!(
        subscribe_text(&SubscriptionSettings::default()),
        "{\"action\":\"subscribe\",\"eventNames\":[\"all\"],\"characters\":[\"all\"],\
         \"worlds\":[\"all\"],\"service\":\"event\"}"
    );
}

#[test]
fn gain_experience_id_subscription_encodes_parameterized_name() {
    let settings = SubscriptionSettings {
        event_names: Some(EventSubscription::Ids(vec![EventNames::GainExperienceId(7)])),
        characters: Some(CharacterSubscription::Ids(vec![5, 1234567890123456789])),
        logical_and_characters_with_worlds: None,
        worlds: None,
        service: Service::Event,
    };
    assert_eq!(
        subscribe_text(&settings),
        "{\"action\":\"subscribe\",\"eventNames\":[\"GainExperience_experience_id_7\"],\
         \"characters\":[\"5\",\"1234567890123456789\"],\"service\":\"event\"}"
    );
}

#[test]
fn clear_subscribe_encodes_string_booleans() {
    let a = Action::ClearSubscribe {
        all: Some(true),
        event_names: None,
        characters: None,
        worlds: None,
        service: Service::Event,
    };
    assert_eq!(
        encode_action(a),
        "{\"action\":\"clearSubscribe\",\"all\":\"true\",\"service\":\"event\"}"
    );
    let b = Action::ClearSubscribe {
        all: Some(false),
        event_names: Some(EventSubscription::Ids(vec![EventNames::Death])),
        characters: None,
        worlds: None,
        service: Service::Event,
    };
    assert_eq!(
        encode_action(b),
        "{\"action\":\"clearSubscribe\",\"all\":\"false\",\"eventNames\":[\"Death\"],\"service\":\"event\"}"
    );
}

#[test]
fn echo_and_recent_character_actions_encode() {
    let echo = Action::Echo {
        payload: JsonValue::Obj(vec![(String::from("test"), JsonValue::Str(String::from("ping")))]),
        service: Service::Event,
    };
    assert_eq!(
        encode_action(echo),
        "{\"action\":\"echo\",\"payload\":{\"test\":\"ping\"},\"service\":\"event\"}"
    );
    assert_eq!(
        encode_action(Action::RecentCharacterIds { service: Service::Event }),
        "{\"action\":\"recentCharacterIds\",\"service\":\"event\"}"
    );
    assert_eq!(
        encode_action(Action::RecentCharacterIdsCount { service: Service::Event }),
        "{\"action\":\"recentCharacterIdsCount\",\"service\":\"event\"}"
    );
}

#[test]
fn decoding_tolerates_whitespace_and_field_order() {
    let text = "{ \"payload\" : { \"world_id\" : \"17\" , \"timestamp\" : \"1700000000\" ,\n\
                 \"character_id\" : \"5\" , \"event_name\" : \"PlayerLogin\" } ,\n\
                 \"type\" : \"serviceMessage\" }";
    let m = decode_message(text).unwrap();
    assert_eq!(
        m,
        CensusMessage::ServiceMessage {
            payload: Event::PlayerLogin(PlayerLogin {
                character_id: 5,
                timestamp: Timestamp { epoch_secs: 1700000000 },
                world_id: WorldID::Emerald,
            })
        }
    );
}
