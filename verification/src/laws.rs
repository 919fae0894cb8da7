//! The protocol's laws: what holds of decoding and of the reader's
//! reactions for every input, stated and proved once and for all.

use crate::client::{
    spec_handle_frame, spec_no_reaction, spec_subscribe, FrameReactionView, InboundFrameView,
    OutboundFrameView, RealtimeClientView,
};
use crate::codec::{spec_decode_message, spec_subscribe_text, CensusMessageView};
use crate::constants::{Faction, Loadout, WorldID};
use crate::decoder::{
    spec_bool01_field, spec_decode_event, spec_decode_event_named, spec_duration_field,
    spec_faction_field, spec_get, spec_loadout_field, spec_timestamp_field, spec_uint_field,
    spec_uint_field_or_zero, spec_world_field,
};
use crate::error::MalformedCause;
use crate::error::DecodeError;
use crate::event::{
    ContinentLock, ContinentUnlock, Death, DurationSeconds, EventView, FacilityControl,
    GainExperience, MetagameEventView, PlayerFacilityCapture, PlayerFacilityDefend, PlayerLogin,
    PlayerLogout, Timestamp, VehicleDestroy,
};
use crate::json::{spec_render, JsonSpec};
use crate::subscription::SubscriptionSettingsView;
use crate::text::{lemma_u64_string_val, spec_parse_i64, spec_parse_u64, spec_u64_string};
use vstd::prelude::*;

verus! {

broadcast use {vstd::seq::group_seq_axioms, vstd::string::group_string_axioms};

/// A faction's wire code names that faction and nothing else.
pub proof fn lemma_faction_code_round_trip(f: Faction)
    ensures
        Faction::spec_from_code(f.spec_code()) == Some(f),
{
}

/// A loadout's wire code names that loadout and nothing else.
pub proof fn lemma_loadout_code_round_trip(l: Loadout)
    ensures
        Loadout::spec_from_code(l.spec_code()) == Some(l),
{
}

/// A world's wire code names that world and nothing else.
pub proof fn lemma_world_code_round_trip(w: WorldID)
    ensures
        WorldID::spec_from_code(w.spec_code()) == Some(w),
{
}

/// The decimal rendering of a value within the signed range parses back as
/// that value under the signed parse.
pub proof fn lemma_parse_i64_of_u64_string(n: u64)
    requires
        n <= i64::MAX as u64,
    ensures
        spec_parse_i64(spec_u64_string(n)) == Some(n as i64),
{
    lemma_u64_string_val(n);
    let s = spec_u64_string(n);
    assert(crate::text::is_digit(s[0]));
    assert(s[0] != '-');
    assert(spec_parse_u64(s) == Some(n));
}

/// Law: an inbound ping always produces exactly one outbound pong with an
/// identical payload, and nothing else — no event, no error, no
/// disconnect — whatever the current subscription.
pub proof fn lemma_ping_pong(sub: SubscriptionSettingsView, p: Seq<u8>)
    ensures
        spec_handle_frame(sub, InboundFrameView::Ping(p)) == (FrameReactionView {
            outbound: seq![OutboundFrameView::Pong(p)],
            ..spec_no_reaction()
        }),
        spec_handle_frame(sub, InboundFrameView::Ping(p)).outbound.len() == 1,
        spec_handle_frame(sub, InboundFrameView::Ping(p)).event is None,
{
}

/// Law: replacing the subscription any number of times and then handling
/// the handshake-connected frame sends exactly the latest subscription —
/// never an earlier one. The frames queued depend only on the last value
/// written.
pub proof fn lemma_latest_subscription_wins(
    c: RealtimeClientView,
    s1: SubscriptionSettingsView,
    s2: SubscriptionSettingsView,
    t: Seq<char>,
)
    requires
        spec_decode_message(t) == Ok::<_, DecodeError>(
            CensusMessageView::ConnectionStateChanged { connected: true },
        ),
    ensures
        spec_handle_frame(
            spec_subscribe(spec_subscribe(c, s1), s2).subscription_config,
            InboundFrameView::Text(t),
        ).outbound == seq![OutboundFrameView::Text(spec_subscribe_text(s2))],
        spec_subscribe(spec_subscribe(c, s1), s2) == spec_subscribe(c, s2),
{
}

/// Law: a frame that fails to decode is dropped in isolation: the reaction
/// records the failure and otherwise does nothing — no outbound frame, no
/// event, and, above all, no disconnect. The reader goes on to the next
/// frame, whose handling does not depend on what came before.
pub proof fn lemma_decode_failure_is_isolated(
    sub: SubscriptionSettingsView,
    t: Seq<char>,
    e: DecodeError,
)
    requires
        spec_decode_message(t) == Err::<CensusMessageView, _>(e),
    ensures
        spec_handle_frame(sub, InboundFrameView::Text(t)) == (FrameReactionView {
            decode_error: Some(e),
            ..spec_no_reaction()
        }),
        !spec_handle_frame(sub, InboundFrameView::Text(t)).disconnect,
        spec_handle_frame(sub, InboundFrameView::Text(t)).event is None,
{
}

/// Law: the consumer never sees a control frame. Only a service message
/// puts an event in the reaction; every other decodable envelope — the
/// handshake, heartbeats, service-state changes, subscription echoes —
/// yields none.
pub proof fn lemma_control_frames_invisible(sub: SubscriptionSettingsView, t: Seq<char>)
    ensures
        spec_handle_frame(sub, InboundFrameView::Text(t)).event matches Some(ev) ==> {
            &&& spec_decode_message(t) matches Ok(m)
            &&& m == (CensusMessageView::ServiceMessage { payload: ev })
        },
{
}

/// The fifteen event names the decoder knows.
pub open spec fn spec_known_event_name(name: Seq<char>) -> bool {
    ||| name == "PlayerLogin"@
    ||| name == "PlayerLogout"@
    ||| name == "Death"@
    ||| name == "VehicleDestroy"@
    ||| name == "GainExperience"@
    ||| name == "PlayerFacilityCapture"@
    ||| name == "PlayerFacilityDefend"@
    ||| name == "FacilityControl"@
    ||| name == "ContinentLock"@
    ||| name == "ContinentUnlock"@
    ||| name == "MetagameEvent"@
    ||| name == "ItemAdded"@
    ||| name == "AchievementEarned"@
    ||| name == "SkillAdded"@
    ||| name == "BattleRankUp"@
}

/// Law: a payload whose `event_name` names no known kind is refused with
/// `UnknownDiscriminator`: no default or empty event is ever produced for
/// it.
pub proof fn lemma_unknown_event_name_refused(ms: Seq<(Seq<char>, JsonSpec)>, name: Seq<char>)
    requires
        spec_get(ms, "event_name"@) == Some(JsonSpec::Str(name)),
        !spec_known_event_name(name),
    ensures
        spec_decode_event(JsonSpec::Obj(ms)) == Err::<crate::event::EventView, _>(
            DecodeError::UnknownDiscriminator,
        ),
{
    assert(spec_decode_event_named(ms, name) == Err::<crate::event::EventView, _>(
        DecodeError::UnknownDiscriminator,
    ));
}

/// The wire form of an unsigned numeric field: its decimal string.
pub open spec fn wire_u64(n: u64) -> JsonSpec {
    JsonSpec::Str(spec_u64_string(n))
}

/// The wire form of an enumeration field: its code as a decimal string.
pub open spec fn wire_code(c: i16) -> JsonSpec
    recommends
        c >= 0,
{
    JsonSpec::Str(spec_u64_string(c as u64))
}

/// The wire form of a boolean field: the strings `0` and `1`.
pub open spec fn wire_bool01(b: bool) -> JsonSpec {
    JsonSpec::Str(
        if b {
            "1"@
        } else {
            "0"@
        },
    )
}

/// The wire form of a timestamp: its epoch seconds as a decimal string.
pub open spec fn wire_secs(t: Timestamp) -> JsonSpec
    recommends
        t.epoch_secs >= 0,
{
    JsonSpec::Str(spec_u64_string(t.epoch_secs as u64))
}

/// The wire form of a duration: its seconds as a decimal string.
pub open spec fn wire_dur(d: DurationSeconds) -> JsonSpec
    recommends
        d.secs >= 0,
{
    JsonSpec::Str(spec_u64_string(d.secs as u64))
}

/// A string field holds a value the decoder will hand back unchanged.
proof fn lemma_uint_field_ok(ms: Seq<(Seq<char>, JsonSpec)>, key: Seq<char>, n: u64, max: u64)
    requires
        spec_get(ms, key) == Some(wire_u64(n)),
        n <= max,
    ensures
        spec_uint_field(ms, key, max) == Ok::<u64, MalformedCause>(n),
{
    lemma_u64_string_val(n);
}

proof fn lemma_ts_field_ok(ms: Seq<(Seq<char>, JsonSpec)>, key: Seq<char>, t: Timestamp)
    requires
        spec_get(ms, key) == Some(wire_secs(t)),
        t.epoch_secs >= 0,
    ensures
        spec_timestamp_field(ms, key) == Ok::<Timestamp, MalformedCause>(t),
{
    lemma_parse_i64_of_u64_string(t.epoch_secs as u64);
}

proof fn lemma_dur_field_ok(ms: Seq<(Seq<char>, JsonSpec)>, key: Seq<char>, d: DurationSeconds)
    requires
        spec_get(ms, key) == Some(wire_dur(d)),
        d.secs >= 0,
    ensures
        spec_duration_field(ms, key) == Ok::<DurationSeconds, MalformedCause>(d),
{
    lemma_parse_i64_of_u64_string(d.secs as u64);
}

proof fn lemma_bool01_field_ok(ms: Seq<(Seq<char>, JsonSpec)>, key: Seq<char>, b: bool)
    requires
        spec_get(ms, key) == Some(wire_bool01(b)),
    ensures
        spec_bool01_field(ms, key) == Ok::<bool, MalformedCause>(b),
{
    reveal_strlit("0");
    reveal_strlit("1");
    assert("0"@.len() == 1);
    assert("1"@.len() == 1);
    assert("0"@[0] == '0');
    assert("1"@[0] == '1');
}

proof fn lemma_faction_field_ok(ms: Seq<(Seq<char>, JsonSpec)>, key: Seq<char>, f: Faction)
    requires
        spec_get(ms, key) == Some(wire_code(f.spec_code())),
    ensures
        spec_faction_field(ms, key) == Ok::<Faction, MalformedCause>(f),
{
    assert(f.spec_code() >= 0);
    lemma_parse_i64_of_u64_string(f.spec_code() as u64);
}

proof fn lemma_loadout_field_ok(ms: Seq<(Seq<char>, JsonSpec)>, key: Seq<char>, l: Loadout)
    requires
        spec_get(ms, key) == Some(wire_code(l.spec_code())),
    ensures
        spec_loadout_field(ms, key) == Ok::<Loadout, MalformedCause>(l),
{
    assert(l.spec_code() >= 0);
    lemma_parse_i64_of_u64_string(l.spec_code() as u64);
}

proof fn lemma_world_field_ok(ms: Seq<(Seq<char>, JsonSpec)>, key: Seq<char>, w: WorldID)
    requires
        spec_get(ms, key) == Some(wire_code(w.spec_code())),
    ensures
        spec_world_field(ms, key) == Ok::<WorldID, MalformedCause>(w),
{
    assert(w.spec_code() >= 0);
    lemma_parse_i64_of_u64_string(w.spec_code() as u64);
}

/// The server's representative payload object for this event kind.
pub open spec fn wire_player_login(p: PlayerLogin) -> Seq<(Seq<char>, JsonSpec)> {
    seq![
        ("event_name"@, JsonSpec::Str("PlayerLogin"@)),
        ("character_id"@, wire_u64(p.character_id)),
        ("timestamp"@, wire_secs(p.timestamp)),
        ("world_id"@, wire_code(p.world_id.spec_code())),
    ]
}

/// Law (one kind): a representative payload of this kind decodes back to
/// exactly the event it renders.
pub proof fn lemma_player_login_round_trip(p: PlayerLogin)
    requires
        p.timestamp.epoch_secs >= 0,
    ensures
        spec_decode_event(JsonSpec::Obj(wire_player_login(p))) == Ok::<EventView, DecodeError>(
            EventView::PlayerLogin(p),
        ),
{
    let ms = wire_player_login(p);
    reveal_strlit("event_name");
    reveal_strlit("PlayerLogin");
    reveal_strlit("character_id");
    reveal_strlit("timestamp");
    reveal_strlit("world_id");
    assert("event_name"@.len() == 10);
    assert("PlayerLogin"@.len() == 11);
    assert("character_id"@.len() == 12);
    assert("timestamp"@.len() == 9);
    assert("world_id"@.len() == 8);
    
    assert(spec_get(ms, "event_name"@) == Some(JsonSpec::Str("PlayerLogin"@)));
    assert(spec_get(ms, "character_id"@) == Some(wire_u64(p.character_id))) by {
        reveal_with_fuel(spec_get, 6);
    }
    assert(spec_get(ms, "timestamp"@) == Some(wire_secs(p.timestamp))) by {
        reveal_with_fuel(spec_get, 6);
    }
    assert(spec_get(ms, "world_id"@) == Some(wire_code(p.world_id.spec_code()))) by {
        reveal_with_fuel(spec_get, 6);
    }
    lemma_uint_field_ok(ms, "character_id"@, p.character_id, u64::MAX);
    lemma_ts_field_ok(ms, "timestamp"@, p.timestamp);
    lemma_world_field_ok(ms, "world_id"@, p.world_id);
}

/// The server's representative payload object for this event kind.
pub open spec fn wire_player_logout(p: PlayerLogout) -> Seq<(Seq<char>, JsonSpec)> {
    seq![
        ("event_name"@, JsonSpec::Str("PlayerLogout"@)),
        ("character_id"@, wire_u64(p.character_id)),
        ("timestamp"@, wire_secs(p.timestamp)),
        ("world_id"@, wire_code(p.world_id.spec_code())),
    ]
}

/// Law (one kind): a representative payload of this kind decodes back to
/// exactly the event it renders.
pub proof fn lemma_player_logout_round_trip(p: PlayerLogout)
    requires
        p.timestamp.epoch_secs >= 0,
    ensures
        spec_decode_event(JsonSpec::Obj(wire_player_logout(p))) == Ok::<EventView, DecodeError>(
            EventView::PlayerLogout(p),
        ),
{
    let ms = wire_player_logout(p);
    reveal_strlit("event_name");
    reveal_strlit("PlayerLogout");
    reveal_strlit("character_id");
    reveal_strlit("timestamp");
    reveal_strlit("world_id");
    reveal_strlit("PlayerLogin");
    assert("event_name"@.len() == 10);
    assert("PlayerLogout"@.len() == 12);
    assert("character_id"@.len() == 12);
    assert("timestamp"@.len() == 9);
    assert("world_id"@.len() == 8);
    assert("PlayerLogin"@.len() == 11);
    assert("PlayerLogout"@[0] == 'P');
    assert("character_id"@[0] == 'c');
    assert(spec_get(ms, "event_name"@) == Some(JsonSpec::Str("PlayerLogout"@)));
    assert(spec_get(ms, "character_id"@) == Some(wire_u64(p.character_id))) by {
        reveal_with_fuel(spec_get, 6);
    }
    assert(spec_get(ms, "timestamp"@) == Some(wire_secs(p.timestamp))) by {
        reveal_with_fuel(spec_get, 6);
    }
    assert(spec_get(ms, "world_id"@) == Some(wire_code(p.world_id.spec_code()))) by {
        reveal_with_fuel(spec_get, 6);
    }
    lemma_uint_field_ok(ms, "character_id"@, p.character_id, u64::MAX);
    lemma_ts_field_ok(ms, "timestamp"@, p.timestamp);
    lemma_world_field_ok(ms, "world_id"@, p.world_id);
}

/// The server's representative payload object for this event kind.
pub open spec fn wire_death(p: Death) -> Seq<(Seq<char>, JsonSpec)> {
    seq![
        ("event_name"@, JsonSpec::Str("Death"@)),
        ("attacker_character_id"@, wire_u64(p.attacker_character_id)),
        ("attacker_fire_mode_id"@, wire_u64(p.attacker_fire_mode_id as u64)),
        ("attacker_loadout_id"@, wire_code(p.attacker_loadout_id.spec_code())),
        ("attacker_vehicle_id"@, wire_u64(p.attacker_vehicle_id as u64)),
        ("attacker_weapon_id"@, wire_u64(p.attacker_weapon_id as u64)),
        ("character_id"@, wire_u64(p.character_id)),
        ("character_loadout_id"@, wire_code(p.character_loadout_id.spec_code())),
        ("is_headshot"@, wire_bool01(p.is_headshot)),
        ("timestamp"@, wire_secs(p.timestamp)),
        ("vehicle_id"@, wire_u64(p.vehicle_id as u64)),
        ("world_id"@, wire_code(p.world_id.spec_code())),
        ("zone_id"@, wire_u64(p.zone_id as u64)),
    ]
}

/// Law (one kind): a representative payload of this kind decodes back to
/// exactly the event it renders.
#[verifier::rlimit(100)]
pub proof fn lemma_death_round_trip(p: Death)
    requires
        p.timestamp.epoch_secs >= 0,
    ensures
        spec_decode_event(JsonSpec::Obj(wire_death(p))) == Ok::<EventView, DecodeError>(
            EventView::Death(p),
        ),
{
    let ms = wire_death(p);
    reveal_strlit("event_name");
    reveal_strlit("Death");
    reveal_strlit("attacker_character_id");
    reveal_strlit("attacker_fire_mode_id");
    reveal_strlit("attacker_loadout_id");
    reveal_strlit("attacker_vehicle_id");
    reveal_strlit("attacker_weapon_id");
    reveal_strlit("character_id");
    reveal_strlit("character_loadout_id");
    reveal_strlit("is_headshot");
    reveal_strlit("timestamp");
    reveal_strlit("vehicle_id");
    reveal_strlit("world_id");
    reveal_strlit("zone_id");
    reveal_strlit("PlayerLogin");
    reveal_strlit("PlayerLogout");
    assert("event_name"@.len() == 10);
    assert("Death"@.len() == 5);
    assert("attacker_character_id"@.len() == 21);
    assert("attacker_fire_mode_id"@.len() == 21);
    assert("attacker_loadout_id"@.len() == 19);
    assert("attacker_vehicle_id"@.len() == 19);
    assert("attacker_weapon_id"@.len() == 18);
    assert("character_id"@.len() == 12);
    assert("character_loadout_id"@.len() == 20);
    assert("is_headshot"@.len() == 11);
    assert("timestamp"@.len() == 9);
    assert("vehicle_id"@.len() == 10);
    assert("world_id"@.len() == 8);
    assert("zone_id"@.len() == 7);
    assert("PlayerLogin"@.len() == 11);
    assert("PlayerLogout"@.len() == 12);
    assert("event_name"@[0] == 'e');
    assert("vehicle_id"@[0] == 'v');
    assert("attacker_character_id"@[9] == 'c');
    assert("attacker_fire_mode_id"@[9] == 'f');
    assert("attacker_loadout_id"@[9] == 'l');
    assert("attacker_vehicle_id"@[9] == 'v');
    assert("character_id"@[0] == 'c');
    assert("PlayerLogout"@[0] == 'P');
    assert("is_headshot"@[0] == 'i');
    assert("PlayerLogin"@[0] == 'P');
    assert(spec_get(ms, "event_name"@) == Some(JsonSpec::Str("Death"@)));
    assert(spec_get(ms, "attacker_character_id"@) == Some(wire_u64(p.attacker_character_id))) by {
        reveal_with_fuel(spec_get, 15);
    }
    assert(spec_get(ms, "attacker_fire_mode_id"@) == Some(wire_u64(p.attacker_fire_mode_id as u64))) by {
        reveal_with_fuel(spec_get, 15);
    }
    assert(spec_get(ms, "attacker_loadout_id"@) == Some(wire_code(p.attacker_loadout_id.spec_code()))) by {
        reveal_with_fuel(spec_get, 15);
    }
    assert(spec_get(ms, "attacker_vehicle_id"@) == Some(wire_u64(p.attacker_vehicle_id as u64))) by {
        reveal_with_fuel(spec_get, 15);
    }
    assert(spec_get(ms, "attacker_weapon_id"@) == Some(wire_u64(p.attacker_weapon_id as u64))) by {
        reveal_with_fuel(spec_get, 15);
    }
    assert(spec_get(ms, "character_id"@) == Some(wire_u64(p.character_id))) by {
        reveal_with_fuel(spec_get, 15);
    }
    assert(spec_get(ms, "character_loadout_id"@) == Some(wire_code(p.character_loadout_id.spec_code()))) by {
        reveal_with_fuel(spec_get, 15);
    }
    assert(spec_get(ms, "is_headshot"@) == Some(wire_bool01(p.is_headshot))) by {
        reveal_with_fuel(spec_get, 15);
    }
    assert(spec_get(ms, "timestamp"@) == Some(wire_secs(p.timestamp))) by {
        reveal_with_fuel(spec_get, 15);
    }
    assert(spec_get(ms, "vehicle_id"@) == Some(wire_u64(p.vehicle_id as u64))) by {
        reveal_with_fuel(spec_get, 15);
    }
    assert(spec_get(ms, "world_id"@) == Some(wire_code(p.world_id.spec_code()))) by {
        reveal_with_fuel(spec_get, 15);
    }
    assert(spec_get(ms, "zone_id"@) == Some(wire_u64(p.zone_id as u64))) by {
        reveal_with_fuel(spec_get, 15);
    }
    lemma_uint_field_ok(ms, "attacker_character_id"@, p.attacker_character_id, u64::MAX);
    lemma_uint_field_ok(ms, "attacker_fire_mode_id"@, p.attacker_fire_mode_id as u64, u32::MAX as u64);
    lemma_loadout_field_ok(ms, "attacker_loadout_id"@, p.attacker_loadout_id);
    lemma_uint_field_ok(ms, "attacker_vehicle_id"@, p.attacker_vehicle_id as u64, u16::MAX as u64);
    lemma_uint_field_ok(ms, "attacker_weapon_id"@, p.attacker_weapon_id as u64, u32::MAX as u64);
    lemma_uint_field_ok(ms, "character_id"@, p.character_id, u64::MAX);
    lemma_loadout_field_ok(ms, "character_loadout_id"@, p.character_loadout_id);
    lemma_bool01_field_ok(ms, "is_headshot"@, p.is_headshot);
    lemma_ts_field_ok(ms, "timestamp"@, p.timestamp);
    lemma_uint_field_ok(ms, "vehicle_id"@, p.vehicle_id as u64, u16::MAX as u64);
    assert(spec_uint_field_or_zero(ms, "vehicle_id"@, u16::MAX as u64) == spec_uint_field(ms, "vehicle_id"@, u16::MAX as u64));
    lemma_world_field_ok(ms, "world_id"@, p.world_id);
    lemma_uint_field_ok(ms, "zone_id"@, p.zone_id as u64, u32::MAX as u64);
}

/// The server's representative payload object for this event kind.
pub open spec fn wire_vehicle_destroy(p: VehicleDestroy) -> Seq<(Seq<char>, JsonSpec)> {
    seq![
        ("event_name"@, JsonSpec::Str("VehicleDestroy"@)),
        ("attacker_character_id"@, wire_u64(p.attacker_character_id)),
        ("attacker_loadout_id"@, wire_code(p.attacker_loadout_id.spec_code())),
        ("attacker_vehicle_id"@, wire_u64(p.attacker_vehicle_id as u64)),
        ("attacker_weapon_id"@, wire_u64(p.attacker_weapon_id as u64)),
        ("character_id"@, wire_u64(p.character_id)),
        ("facility_id"@, wire_u64(p.facility_id as u64)),
        ("faction_id"@, wire_code(p.faction_id.spec_code())),
        ("timestamp"@, wire_secs(p.timestamp)),
        ("vehicle_id"@, wire_u64(p.vehicle_id as u64)),
        ("world_id"@, wire_code(p.world_id.spec_code())),
        ("zone_id"@, wire_u64(p.zone_id as u64)),
    ]
}

/// Law (one kind): a representative payload of this kind decodes back to
/// exactly the event it renders.
#[verifier::rlimit(100)]
pub proof fn lemma_vehicle_destroy_round_trip(p: VehicleDestroy)
    requires
        p.timestamp.epoch_secs >= 0,
    ensures
        spec_decode_event(JsonSpec::Obj(wire_vehicle_destroy(p))) == Ok::<EventView, DecodeError>(
            EventView::VehicleDestroy(p),
        ),
{
    let ms = wire_vehicle_destroy(p);
    reveal_strlit("event_name");
    reveal_strlit("VehicleDestroy");
    reveal_strlit("attacker_character_id");
    reveal_strlit("attacker_loadout_id");
    reveal_strlit("attacker_vehicle_id");
    reveal_strlit("attacker_weapon_id");
    reveal_strlit("character_id");
    reveal_strlit("facility_id");
    reveal_strlit("faction_id");
    reveal_strlit("timestamp");
    reveal_strlit("vehicle_id");
    reveal_strlit("world_id");
    reveal_strlit("zone_id");
    reveal_strlit("PlayerLogin");
    reveal_strlit("PlayerLogout");
    reveal_strlit("Death");
    assert("event_name"@.len() == 10);
    assert("VehicleDestroy"@.len() == 14);
    assert("attacker_character_id"@.len() == 21);
    assert("attacker_loadout_id"@.len() == 19);
    assert("attacker_vehicle_id"@.len() == 19);
    assert("attacker_weapon_id"@.len() == 18);
    assert("character_id"@.len() == 12);
    assert("facility_id"@.len() == 11);
    assert("faction_id"@.len() == 10);
    assert("timestamp"@.len() == 9);
    assert("vehicle_id"@.len() == 10);
    assert("world_id"@.len() == 8);
    assert("zone_id"@.len() == 7);
    assert("PlayerLogin"@.len() == 11);
    assert("PlayerLogout"@.len() == 12);
    assert("Death"@.len() == 5);
    assert("event_name"@[0] == 'e');
    assert("faction_id"@[0] == 'f');
    assert("vehicle_id"@[0] == 'v');
    assert("attacker_loadout_id"@[9] == 'l');
    assert("attacker_vehicle_id"@[9] == 'v');
    assert("character_id"@[0] == 'c');
    assert("PlayerLogout"@[0] == 'P');
    assert("facility_id"@[0] == 'f');
    assert("PlayerLogin"@[0] == 'P');
    assert(spec_get(ms, "event_name"@) == Some(JsonSpec::Str("VehicleDestroy"@)));
    assert(spec_get(ms, "attacker_character_id"@) == Some(wire_u64(p.attacker_character_id))) by {
        reveal_with_fuel(spec_get, 14);
    }
    assert(spec_get(ms, "attacker_loadout_id"@) == Some(wire_code(p.attacker_loadout_id.spec_code()))) by {
        reveal_with_fuel(spec_get, 14);
    }
    assert(spec_get(ms, "attacker_vehicle_id"@) == Some(wire_u64(p.attacker_vehicle_id as u64))) by {
        reveal_with_fuel(spec_get, 14);
    }
    assert(spec_get(ms, "attacker_weapon_id"@) == Some(wire_u64(p.attacker_weapon_id as u64))) by {
        reveal_with_fuel(spec_get, 14);
    }
    assert(spec_get(ms, "character_id"@) == Some(wire_u64(p.character_id))) by {
        reveal_with_fuel(spec_get, 14);
    }
    assert(spec_get(ms, "facility_id"@) == Some(wire_u64(p.facility_id as u64))) by {
        reveal_with_fuel(spec_get, 14);
    }
    assert(spec_get(ms, "faction_id"@) == Some(wire_code(p.faction_id.spec_code()))) by {
        reveal_with_fuel(spec_get, 14);
    }
    assert(spec_get(ms, "timestamp"@) == Some(wire_secs(p.timestamp))) by {
        reveal_with_fuel(spec_get, 14);
    }
    assert(spec_get(ms, "vehicle_id"@) == Some(wire_u64(p.vehicle_id as u64))) by {
        reveal_with_fuel(spec_get, 14);
    }
    assert(spec_get(ms, "world_id"@) == Some(wire_code(p.world_id.spec_code()))) by {
        reveal_with_fuel(spec_get, 14);
    }
    assert(spec_get(ms, "zone_id"@) == Some(wire_u64(p.zone_id as u64))) by {
        reveal_with_fuel(spec_get, 14);
    }
    lemma_uint_field_ok(ms, "attacker_character_id"@, p.attacker_character_id, u64::MAX);
    lemma_loadout_field_ok(ms, "attacker_loadout_id"@, p.attacker_loadout_id);
    lemma_uint_field_ok(ms, "attacker_vehicle_id"@, p.attacker_vehicle_id as u64, u16::MAX as u64);
    lemma_uint_field_ok(ms, "attacker_weapon_id"@, p.attacker_weapon_id as u64, u32::MAX as u64);
    lemma_uint_field_ok(ms, "character_id"@, p.character_id, u64::MAX);
    lemma_uint_field_ok(ms, "facility_id"@, p.facility_id as u64, u32::MAX as u64);
    lemma_faction_field_ok(ms, "faction_id"@, p.faction_id);
    lemma_ts_field_ok(ms, "timestamp"@, p.timestamp);
    lemma_uint_field_ok(ms, "vehicle_id"@, p.vehicle_id as u64, u16::MAX as u64);
    lemma_world_field_ok(ms, "world_id"@, p.world_id);
    lemma_uint_field_ok(ms, "zone_id"@, p.zone_id as u64, u32::MAX as u64);
}

/// The server's representative payload object for this event kind.
pub open spec fn wire_gain_experience(p: GainExperience) -> Seq<(Seq<char>, JsonSpec)> {
    seq![
        ("event_name"@, JsonSpec::Str("GainExperience"@)),
        ("character_id"@, wire_u64(p.character_id)),
        ("experience_id"@, wire_u64(p.experience_id as u64)),
        ("loadout_id"@, wire_code(p.loadout_id.spec_code())),
        ("other_id"@, wire_u64(p.other_id)),
        ("timestamp"@, wire_secs(p.timestamp)),
        ("world_id"@, wire_code(p.world_id.spec_code())),
        ("zone_id"@, wire_u64(p.zone_id as u64)),
        ("amount"@, wire_u64(p.amount as u64)),
        ("team_id"@, wire_code(p.team_id.spec_code())),
    ]
}

/// Law (one kind): a representative payload of this kind decodes back to
/// exactly the event it renders.
#[verifier::rlimit(100)]
pub proof fn lemma_gain_experience_round_trip(p: GainExperience)
    requires
        p.timestamp.epoch_secs >= 0,
    ensures
        spec_decode_event(JsonSpec::Obj(wire_gain_experience(p))) == Ok::<EventView, DecodeError>(
            EventView::GainExperience(p),
        ),
{
    let ms = wire_gain_experience(p);
    reveal_strlit("event_name");
    reveal_strlit("GainExperience");
    reveal_strlit("character_id");
    reveal_strlit("experience_id");
    reveal_strlit("loadout_id");
    reveal_strlit("other_id");
    reveal_strlit("timestamp");
    reveal_strlit("world_id");
    reveal_strlit("zone_id");
    reveal_strlit("amount");
    reveal_strlit("team_id");
    reveal_strlit("PlayerLogin");
    reveal_strlit("PlayerLogout");
    reveal_strlit("Death");
    reveal_strlit("VehicleDestroy");
    assert("event_name"@.len() == 10);
    assert("GainExperience"@.len() == 14);
    assert("character_id"@.len() == 12);
    assert("experience_id"@.len() == 13);
    assert("loadout_id"@.len() == 10);
    assert("other_id"@.len() == 8);
    assert("timestamp"@.len() == 9);
    assert("world_id"@.len() == 8);
    assert("zone_id"@.len() == 7);
    assert("amount"@.len() == 6);
    assert("team_id"@.len() == 7);
    assert("PlayerLogin"@.len() == 11);
    assert("PlayerLogout"@.len() == 12);
    assert("Death"@.len() == 5);
    assert("VehicleDestroy"@.len() == 14);
    assert("event_name"@[0] == 'e');
    assert("loadout_id"@[0] == 'l');
    assert("GainExperience"@[0] == 'G');
    assert("VehicleDestroy"@[0] == 'V');
    assert("character_id"@[0] == 'c');
    assert("PlayerLogout"@[0] == 'P');
    assert("other_id"@[0] == 'o');
    assert("world_id"@[0] == 'w');
    assert("zone_id"@[0] == 'z');
    assert("team_id"@[0] == 't');
    assert(spec_get(ms, "event_name"@) == Some(JsonSpec::Str("GainExperience"@)));
    assert(spec_get(ms, "character_id"@) == Some(wire_u64(p.character_id))) by {
        reveal_with_fuel(spec_get, 12);
    }
    assert(spec_get(ms, "experience_id"@) == Some(wire_u64(p.experience_id as u64))) by {
        reveal_with_fuel(spec_get, 12);
    }
    assert(spec_get(ms, "loadout_id"@) == Some(wire_code(p.loadout_id.spec_code()))) by {
        reveal_with_fuel(spec_get, 12);
    }
    assert(spec_get(ms, "other_id"@) == Some(wire_u64(p.other_id))) by {
        reveal_with_fuel(spec_get, 12);
    }
    assert(spec_get(ms, "timestamp"@) == Some(wire_secs(p.timestamp))) by {
        reveal_with_fuel(spec_get, 12);
    }
    assert(spec_get(ms, "world_id"@) == Some(wire_code(p.world_id.spec_code()))) by {
        reveal_with_fuel(spec_get, 12);
    }
    assert(spec_get(ms, "zone_id"@) == Some(wire_u64(p.zone_id as u64))) by {
        reveal_with_fuel(spec_get, 12);
    }
    assert(spec_get(ms, "amount"@) == Some(wire_u64(p.amount as u64))) by {
        reveal_with_fuel(spec_get, 12);
    }
    assert(spec_get(ms, "team_id"@) == Some(wire_code(p.team_id.spec_code()))) by {
        reveal_with_fuel(spec_get, 12);
    }
    lemma_uint_field_ok(ms, "character_id"@, p.character_id, u64::MAX);
    lemma_uint_field_ok(ms, "experience_id"@, p.experience_id as u64, u16::MAX as u64);
    lemma_loadout_field_ok(ms, "loadout_id"@, p.loadout_id);
    lemma_uint_field_ok(ms, "other_id"@, p.other_id, u64::MAX);
    lemma_ts_field_ok(ms, "timestamp"@, p.timestamp);
    lemma_world_field_ok(ms, "world_id"@, p.world_id);
    lemma_uint_field_ok(ms, "zone_id"@, p.zone_id as u64, u32::MAX as u64);
    lemma_uint_field_ok(ms, "amount"@, p.amount as u64, u16::MAX as u64);
    lemma_faction_field_ok(ms, "team_id"@, p.team_id);
}

/// The server's representative payload object for this event kind.
pub open spec fn wire_player_facility_capture(p: PlayerFacilityCapture) -> Seq<(Seq<char>, JsonSpec)> {
    seq![
        ("event_name"@, JsonSpec::Str("PlayerFacilityCapture"@)),
        ("character_id"@, wire_u64(p.character_id)),
        ("facility_id"@, wire_u64(p.facility_id as u64)),
        ("outfit_id"@, JsonSpec::Num(p.outfit_id)),
        ("timestamp"@, wire_secs(p.timestamp)),
        ("world_id"@, wire_code(p.world_id.spec_code())),
        ("zone_id"@, wire_u64(p.zone_id as u64)),
    ]
}

/// Law (one kind): a representative payload of this kind decodes back to
/// exactly the event it renders.
#[verifier::rlimit(100)]
pub proof fn lemma_player_facility_capture_round_trip(p: PlayerFacilityCapture)
    requires
        p.timestamp.epoch_secs >= 0,
    ensures
        spec_decode_event(JsonSpec::Obj(wire_player_facility_capture(p))) == Ok::<EventView, DecodeError>(
            EventView::PlayerFacilityCapture(p),
        ),
{
    let ms = wire_player_facility_capture(p);
    reveal_strlit("event_name");
    reveal_strlit("PlayerFacilityCapture");
    reveal_strlit("character_id");
    reveal_strlit("facility_id");
    reveal_strlit("outfit_id");
    reveal_strlit("timestamp");
    reveal_strlit("world_id");
    reveal_strlit("zone_id");
    reveal_strlit("PlayerLogin");
    reveal_strlit("PlayerLogout");
    reveal_strlit("Death");
    reveal_strlit("VehicleDestroy");
    reveal_strlit("GainExperience");
    assert("event_name"@.len() == 10);
    assert("PlayerFacilityCapture"@.len() == 21);
    assert("character_id"@.len() == 12);
    assert("facility_id"@.len() == 11);
    assert("outfit_id"@.len() == 9);
    assert("timestamp"@.len() == 9);
    assert("world_id"@.len() == 8);
    assert("zone_id"@.len() == 7);
    assert("PlayerLogin"@.len() == 11);
    assert("PlayerLogout"@.len() == 12);
    assert("Death"@.len() == 5);
    assert("VehicleDestroy"@.len() == 14);
    assert("GainExperience"@.len() == 14);
    assert("character_id"@[0] == 'c');
    assert("PlayerLogout"@[0] == 'P');
    assert("facility_id"@[0] == 'f');
    assert("PlayerLogin"@[0] == 'P');
    assert("outfit_id"@[0] == 'o');
    assert("timestamp"@[0] == 't');
    assert("VehicleDestroy"@[0] == 'V');
    assert("GainExperience"@[0] == 'G');
    assert(spec_get(ms, "event_name"@) == Some(JsonSpec::Str("PlayerFacilityCapture"@)));
    assert(spec_get(ms, "character_id"@) == Some(wire_u64(p.character_id))) by {
        reveal_with_fuel(spec_get, 9);
    }
    assert(spec_get(ms, "facility_id"@) == Some(wire_u64(p.facility_id as u64))) by {
        reveal_with_fuel(spec_get, 9);
    }
    assert(spec_get(ms, "outfit_id"@) == Some(JsonSpec::Num(p.outfit_id))) by {
        reveal_with_fuel(spec_get, 9);
    }
    assert(spec_get(ms, "timestamp"@) == Some(wire_secs(p.timestamp))) by {
        reveal_with_fuel(spec_get, 9);
    }
    assert(spec_get(ms, "world_id"@) == Some(wire_code(p.world_id.spec_code()))) by {
        reveal_with_fuel(spec_get, 9);
    }
    assert(spec_get(ms, "zone_id"@) == Some(wire_u64(p.zone_id as u64))) by {
        reveal_with_fuel(spec_get, 9);
    }
    lemma_uint_field_ok(ms, "character_id"@, p.character_id, u64::MAX);
    lemma_uint_field_ok(ms, "facility_id"@, p.facility_id as u64, u32::MAX as u64);
    lemma_ts_field_ok(ms, "timestamp"@, p.timestamp);
    lemma_world_field_ok(ms, "world_id"@, p.world_id);
    lemma_uint_field_ok(ms, "zone_id"@, p.zone_id as u64, u32::MAX as u64);
}

/// The server's representative payload object for this event kind.
pub open spec fn wire_player_facility_defend(p: PlayerFacilityDefend) -> Seq<(Seq<char>, JsonSpec)> {
    seq![
        ("event_name"@, JsonSpec::Str("PlayerFacilityDefend"@)),
        ("character_id"@, wire_u64(p.character_id)),
        ("facility_id"@, wire_u64(p.facility_id as u64)),
        ("outfit_id"@, JsonSpec::Num(p.outfit_id)),
        ("timestamp"@, wire_secs(p.timestamp)),
        ("world_id"@, wire_code(p.world_id.spec_code())),
        ("zone_id"@, wire_u64(p.zone_id as u64)),
    ]
}

/// Law (one kind): a representative payload of this kind decodes back to
/// exactly the event it renders.
#[verifier::rlimit(100)]
pub proof fn lemma_player_facility_defend_round_trip(p: PlayerFacilityDefend)
    requires
        p.timestamp.epoch_secs >= 0,
    ensures
        spec_decode_event(JsonSpec::Obj(wire_player_facility_defend(p))) == Ok::<EventView, DecodeError>(
            EventView::PlayerFacilityDefend(p),
        ),
{
    let ms = wire_player_facility_defend(p);
    reveal_strlit("event_name");
    reveal_strlit("PlayerFacilityDefend");
    reveal_strlit("character_id");
    reveal_strlit("facility_id");
    reveal_strlit("outfit_id");
    reveal_strlit("timestamp");
    reveal_strlit("world_id");
    reveal_strlit("zone_id");
    reveal_strlit("PlayerLogin");
    reveal_strlit("PlayerLogout");
    reveal_strlit("Death");
    reveal_strlit("VehicleDestroy");
    reveal_strlit("GainExperience");
    reveal_strlit("PlayerFacilityCapture");
    assert("event_name"@.len() == 10);
    assert("PlayerFacilityDefend"@.len() == 20);
    assert("character_id"@.len() == 12);
    assert("facility_id"@.len() == 11);
    assert("outfit_id"@.len() == 9);
    assert("timestamp"@.len() == 9);
    assert("world_id"@.len() == 8);
    assert("zone_id"@.len() == 7);
    assert("PlayerLogin"@.len() == 11);
    assert("PlayerLogout"@.len() == 12);
    assert("Death"@.len() == 5);
    assert("VehicleDestroy"@.len() == 14);
    assert("GainExperience"@.len() == 14);
    assert("PlayerFacilityCapture"@.len() == 21);
    assert("character_id"@[0] == 'c');
    assert("PlayerLogout"@[0] == 'P');
    assert("facility_id"@[0] == 'f');
    assert("PlayerLogin"@[0] == 'P');
    assert("outfit_id"@[0] == 'o');
    assert("timestamp"@[0] == 't');
    assert("VehicleDestroy"@[0] == 'V');
    assert("GainExperience"@[0] == 'G');
    assert(spec_get(ms, "event_name"@) == Some(JsonSpec::Str("PlayerFacilityDefend"@)));
    assert(spec_get(ms, "character_id"@) == Some(wire_u64(p.character_id))) by {
        reveal_with_fuel(spec_get, 9);
    }
    assert(spec_get(ms, "facility_id"@) == Some(wire_u64(p.facility_id as u64))) by {
        reveal_with_fuel(spec_get, 9);
    }
    assert(spec_get(ms, "outfit_id"@) == Some(JsonSpec::Num(p.outfit_id))) by {
        reveal_with_fuel(spec_get, 9);
    }
    assert(spec_get(ms, "timestamp"@) == Some(wire_secs(p.timestamp))) by {
        reveal_with_fuel(spec_get, 9);
    }
    assert(spec_get(ms, "world_id"@) == Some(wire_code(p.world_id.spec_code()))) by {
        reveal_with_fuel(spec_get, 9);
    }
    assert(spec_get(ms, "zone_id"@) == Some(wire_u64(p.zone_id as u64))) by {
        reveal_with_fuel(spec_get, 9);
    }
    lemma_uint_field_ok(ms, "character_id"@, p.character_id, u64::MAX);
    lemma_uint_field_ok(ms, "facility_id"@, p.facility_id as u64, u32::MAX as u64);
    lemma_ts_field_ok(ms, "timestamp"@, p.timestamp);
    lemma_world_field_ok(ms, "world_id"@, p.world_id);
    lemma_uint_field_ok(ms, "zone_id"@, p.zone_id as u64, u32::MAX as u64);
}

/// The server's representative payload object for this event kind.
pub open spec fn wire_facility_control(p: FacilityControl) -> Seq<(Seq<char>, JsonSpec)> {
    seq![
        ("event_name"@, JsonSpec::Str("FacilityControl"@)),
        ("duration_held"@, wire_dur(p.duration_held)),
        ("facility_id"@, wire_u64(p.facility_id as u64)),
        ("new_faction_id"@, wire_code(p.new_faction_id.spec_code())),
        ("old_faction_id"@, wire_code(p.old_faction_id.spec_code())),
        ("outfit_id"@, JsonSpec::Num(p.outfit_id)),
        ("timestamp"@, wire_secs(p.timestamp)),
        ("world_id"@, wire_code(p.world_id.spec_code())),
        ("zone_id"@, wire_u64(p.zone_id as u64)),
    ]
}

/// Law (one kind): a representative payload of this kind decodes back to
/// exactly the event it renders.
#[verifier::rlimit(100)]
pub proof fn lemma_facility_control_round_trip(p: FacilityControl)
    requires
        p.duration_held.secs >= 0,
        p.timestamp.epoch_secs >= 0,
    ensures
        spec_decode_event(JsonSpec::Obj(wire_facility_control(p))) == Ok::<EventView, DecodeError>(
            EventView::FacilityControl(p),
        ),
{
    let ms = wire_facility_control(p);
    reveal_strlit("event_name");
    reveal_strlit("FacilityControl");
    reveal_strlit("duration_held");
    reveal_strlit("facility_id");
    reveal_strlit("new_faction_id");
    reveal_strlit("old_faction_id");
    reveal_strlit("outfit_id");
    reveal_strlit("timestamp");
    reveal_strlit("world_id");
    reveal_strlit("zone_id");
    reveal_strlit("PlayerLogin");
    reveal_strlit("PlayerLogout");
    reveal_strlit("Death");
    reveal_strlit("VehicleDestroy");
    reveal_strlit("GainExperience");
    reveal_strlit("PlayerFacilityCapture");
    reveal_strlit("PlayerFacilityDefend");
    assert("event_name"@.len() == 10);
    assert("FacilityControl"@.len() == 15);
    assert("duration_held"@.len() == 13);
    assert("facility_id"@.len() == 11);
    assert("new_faction_id"@.len() == 14);
    assert("old_faction_id"@.len() == 14);
    assert("outfit_id"@.len() == 9);
    assert("timestamp"@.len() == 9);
    assert("world_id"@.len() == 8);
    assert("zone_id"@.len() == 7);
    assert("PlayerLogin"@.len() == 11);
    assert("PlayerLogout"@.len() == 12);
    assert("Death"@.len() == 5);
    assert("VehicleDestroy"@.len() == 14);
    assert("GainExperience"@.len() == 14);
    assert("PlayerFacilityCapture"@.len() == 21);
    assert("PlayerFacilityDefend"@.len() == 20);
    assert("facility_id"@[0] == 'f');
    assert("PlayerLogin"@[0] == 'P');
    assert("new_faction_id"@[0] == 'n');
    assert("old_faction_id"@[0] == 'o');
    assert("VehicleDestroy"@[0] == 'V');
    assert("GainExperience"@[0] == 'G');
    assert("outfit_id"@[0] == 'o');
    assert("timestamp"@[0] == 't');
    assert(spec_get(ms, "event_name"@) == Some(JsonSpec::Str("FacilityControl"@)));
    assert(spec_get(ms, "duration_held"@) == Some(wire_dur(p.duration_held))) by {
        reveal_with_fuel(spec_get, 11);
    }
    assert(spec_get(ms, "facility_id"@) == Some(wire_u64(p.facility_id as u64))) by {
        reveal_with_fuel(spec_get, 11);
    }
    assert(spec_get(ms, "new_faction_id"@) == Some(wire_code(p.new_faction_id.spec_code()))) by {
        reveal_with_fuel(spec_get, 11);
    }
    assert(spec_get(ms, "old_faction_id"@) == Some(wire_code(p.old_faction_id.spec_code()))) by {
        reveal_with_fuel(spec_get, 11);
    }
    assert(spec_get(ms, "outfit_id"@) == Some(JsonSpec::Num(p.outfit_id))) by {
        reveal_with_fuel(spec_get, 11);
    }
    assert(spec_get(ms, "timestamp"@) == Some(wire_secs(p.timestamp))) by {
        reveal_with_fuel(spec_get, 11);
    }
    assert(spec_get(ms, "world_id"@) == Some(wire_code(p.world_id.spec_code()))) by {
        reveal_with_fuel(spec_get, 11);
    }
    assert(spec_get(ms, "zone_id"@) == Some(wire_u64(p.zone_id as u64))) by {
        reveal_with_fuel(spec_get, 11);
    }
    lemma_dur_field_ok(ms, "duration_held"@, p.duration_held);
    lemma_uint_field_ok(ms, "facility_id"@, p.facility_id as u64, u32::MAX as u64);
    lemma_faction_field_ok(ms, "new_faction_id"@, p.new_faction_id);
    lemma_faction_field_ok(ms, "old_faction_id"@, p.old_faction_id);
    lemma_ts_field_ok(ms, "timestamp"@, p.timestamp);
    lemma_world_field_ok(ms, "world_id"@, p.world_id);
    lemma_uint_field_ok(ms, "zone_id"@, p.zone_id as u64, u32::MAX as u64);
}

/// The server's representative payload object for this event kind.
pub open spec fn wire_continent_lock(p: ContinentLock) -> Seq<(Seq<char>, JsonSpec)> {
    seq![
        ("event_name"@, JsonSpec::Str("ContinentLock"@)),
        ("timestamp"@, wire_secs(p.timestamp)),
        ("world_id"@, wire_code(p.world_id.spec_code())),
        ("zone_id"@, wire_u64(p.zone_id as u64)),
        ("triggering_faction"@, wire_code(p.triggering_faction.spec_code())),
        ("previous_faction"@, wire_code(p.previous_faction.spec_code())),
        ("vs_population"@, wire_u64(p.vs_population as u64)),
        ("nc_population"@, wire_u64(p.nc_population as u64)),
        ("tr_population"@, wire_u64(p.tr_population as u64)),
        ("metagame_event_id"@, wire_u64(p.metagame_event_id as u64)),
    ]
}

/// Law (one kind): a representative payload of this kind decodes back to
/// exactly the event it renders.
#[verifier::rlimit(100)]
pub proof fn lemma_continent_lock_round_trip(p: ContinentLock)
    requires
        p.timestamp.epoch_secs >= 0,
    ensures
        spec_decode_event(JsonSpec::Obj(wire_continent_lock(p))) == Ok::<EventView, DecodeError>(
            EventView::ContinentLock(p),
        ),
{
    let ms = wire_continent_lock(p);
    reveal_strlit("event_name");
    reveal_strlit("ContinentLock");
    reveal_strlit("timestamp");
    reveal_strlit("world_id");
    reveal_strlit("zone_id");
    reveal_strlit("triggering_faction");
    reveal_strlit("previous_faction");
    reveal_strlit("vs_population");
    reveal_strlit("nc_population");
    reveal_strlit("tr_population");
    reveal_strlit("metagame_event_id");
    reveal_strlit("PlayerLogin");
    reveal_strlit("PlayerLogout");
    reveal_strlit("Death");
    reveal_strlit("VehicleDestroy");
    reveal_strlit("GainExperience");
    reveal_strlit("PlayerFacilityCapture");
    reveal_strlit("PlayerFacilityDefend");
    reveal_strlit("FacilityControl");
    assert("event_name"@.len() == 10);
    assert("ContinentLock"@.len() == 13);
    assert("timestamp"@.len() == 9);
    assert("world_id"@.len() == 8);
    assert("zone_id"@.len() == 7);
    assert("triggering_faction"@.len() == 18);
    assert("previous_faction"@.len() == 16);
    assert("vs_population"@.len() == 13);
    assert("nc_population"@.len() == 13);
    assert("tr_population"@.len() == 13);
    assert("metagame_event_id"@.len() == 17);
    assert("PlayerLogin"@.len() == 11);
    assert("PlayerLogout"@.len() == 12);
    assert("Death"@.len() == 5);
    assert("VehicleDestroy"@.len() == 14);
    assert("GainExperience"@.len() == 14);
    assert("PlayerFacilityCapture"@.len() == 21);
    assert("PlayerFacilityDefend"@.len() == 20);
    assert("FacilityControl"@.len() == 15);
    assert("ContinentLock"@[0] == 'C');
    assert("vs_population"@[0] == 'v');
    assert("nc_population"@[0] == 'n');
    assert("tr_population"@[0] == 't');
    assert("VehicleDestroy"@[0] == 'V');
    assert("GainExperience"@[0] == 'G');
    assert(spec_get(ms, "event_name"@) == Some(JsonSpec::Str("ContinentLock"@)));
    assert(spec_get(ms, "timestamp"@) == Some(wire_secs(p.timestamp))) by {
        reveal_with_fuel(spec_get, 12);
    }
    assert(spec_get(ms, "world_id"@) == Some(wire_code(p.world_id.spec_code()))) by {
        reveal_with_fuel(spec_get, 12);
    }
    assert(spec_get(ms, "zone_id"@) == Some(wire_u64(p.zone_id as u64))) by {
        reveal_with_fuel(spec_get, 12);
    }
    assert(spec_get(ms, "triggering_faction"@) == Some(wire_code(p.triggering_faction.spec_code()))) by {
        reveal_with_fuel(spec_get, 12);
    }
    assert(spec_get(ms, "previous_faction"@) == Some(wire_code(p.previous_faction.spec_code()))) by {
        reveal_with_fuel(spec_get, 12);
    }
    assert(spec_get(ms, "vs_population"@) == Some(wire_u64(p.vs_population as u64))) by {
        reveal_with_fuel(spec_get, 12);
    }
    assert(spec_get(ms, "nc_population"@) == Some(wire_u64(p.nc_population as u64))) by {
        reveal_with_fuel(spec_get, 12);
    }
    assert(spec_get(ms, "tr_population"@) == Some(wire_u64(p.tr_population as u64))) by {
        reveal_with_fuel(spec_get, 12);
    }
    assert(spec_get(ms, "metagame_event_id"@) == Some(wire_u64(p.metagame_event_id as u64))) by {
        reveal_with_fuel(spec_get, 12);
    }
    lemma_ts_field_ok(ms, "timestamp"@, p.timestamp);
    lemma_world_field_ok(ms, "world_id"@, p.world_id);
    lemma_uint_field_ok(ms, "zone_id"@, p.zone_id as u64, u32::MAX as u64);
    lemma_faction_field_ok(ms, "triggering_faction"@, p.triggering_faction);
    lemma_faction_field_ok(ms, "previous_faction"@, p.previous_faction);
    lemma_uint_field_ok(ms, "vs_population"@, p.vs_population as u64, u16::MAX as u64);
    lemma_uint_field_ok(ms, "nc_population"@, p.nc_population as u64, u16::MAX as u64);
    lemma_uint_field_ok(ms, "tr_population"@, p.tr_population as u64, u16::MAX as u64);
    lemma_uint_field_ok(ms, "metagame_event_id"@, p.metagame_event_id as u64, u8::MAX as u64);
}

/// The server's representative payload object for this event kind.
pub open spec fn wire_continent_unlock(p: ContinentUnlock) -> Seq<(Seq<char>, JsonSpec)> {
    seq![
        ("event_name"@, JsonSpec::Str("ContinentUnlock"@)),
        ("timestamp"@, wire_secs(p.timestamp)),
        ("world_id"@, wire_code(p.world_id.spec_code())),
        ("zone_id"@, wire_u64(p.zone_id as u64)),
        ("triggering_faction"@, wire_code(p.triggering_faction.spec_code())),
        ("previous_faction"@, wire_code(p.previous_faction.spec_code())),
        ("vs_population"@, wire_u64(p.vs_population as u64)),
        ("nc_population"@, wire_u64(p.nc_population as u64)),
        ("tr_population"@, wire_u64(p.tr_population as u64)),
        ("metagame_event_id"@, wire_u64(p.metagame_event_id as u64)),
    ]
}

/// Law (one kind): a representative payload of this kind decodes back to
/// exactly the event it renders.
#[verifier::rlimit(100)]
pub proof fn lemma_continent_unlock_round_trip(p: ContinentUnlock)
    requires
        p.timestamp.epoch_secs >= 0,
    ensures
        spec_decode_event(JsonSpec::Obj(wire_continent_unlock(p))) == Ok::<EventView, DecodeError>(
            EventView::ContinentUnlock(p),
        ),
{
    let ms = wire_continent_unlock(p);
    reveal_strlit("event_name");
    reveal_strlit("ContinentUnlock");
    reveal_strlit("timestamp");
    reveal_strlit("world_id");
    reveal_strlit("zone_id");
    reveal_strlit("triggering_faction");
    reveal_strlit("previous_faction");
    reveal_strlit("vs_population");
    reveal_strlit("nc_population");
    reveal_strlit("tr_population");
    reveal_strlit("metagame_event_id");
    reveal_strlit("PlayerLogin");
    reveal_strlit("PlayerLogout");
    reveal_strlit("Death");
    reveal_strlit("VehicleDestroy");
    reveal_strlit("GainExperience");
    reveal_strlit("PlayerFacilityCapture");
    reveal_strlit("PlayerFacilityDefend");
    reveal_strlit("FacilityControl");
    reveal_strlit("ContinentLock");
    assert("event_name"@.len() == 10);
    assert("ContinentUnlock"@.len() == 15);
    assert("timestamp"@.len() == 9);
    assert("world_id"@.len() == 8);
    assert("zone_id"@.len() == 7);
    assert("triggering_faction"@.len() == 18);
    assert("previous_faction"@.len() == 16);
    assert("vs_population"@.len() == 13);
    assert("nc_population"@.len() == 13);
    assert("tr_population"@.len() == 13);
    assert("metagame_event_id"@.len() == 17);
    assert("PlayerLogin"@.len() == 11);
    assert("PlayerLogout"@.len() == 12);
    assert("Death"@.len() == 5);
    assert("VehicleDestroy"@.len() == 14);
    assert("GainExperience"@.len() == 14);
    assert("PlayerFacilityCapture"@.len() == 21);
    assert("PlayerFacilityDefend"@.len() == 20);
    assert("FacilityControl"@.len() == 15);
    assert("ContinentLock"@.len() == 13);
    assert("ContinentUnlock"@[0] == 'C');
    assert("FacilityControl"@[0] == 'F');
    assert("vs_population"@[0] == 'v');
    assert("nc_population"@[0] == 'n');
    assert("tr_population"@[0] == 't');
    assert("ContinentLock"@[0] == 'C');
    assert("VehicleDestroy"@[0] == 'V');
    assert("GainExperience"@[0] == 'G');
    assert(spec_get(ms, "event_name"@) == Some(JsonSpec::Str("ContinentUnlock"@)));
    assert(spec_get(ms, "timestamp"@) == Some(wire_secs(p.timestamp))) by {
        reveal_with_fuel(spec_get, 12);
    }
    assert(spec_get(ms, "world_id"@) == Some(wire_code(p.world_id.spec_code()))) by {
        reveal_with_fuel(spec_get, 12);
    }
    assert(spec_get(ms, "zone_id"@) == Some(wire_u64(p.zone_id as u64))) by {
        reveal_with_fuel(spec_get, 12);
    }
    assert(spec_get(ms, "triggering_faction"@) == Some(wire_code(p.triggering_faction.spec_code()))) by {
        reveal_with_fuel(spec_get, 12);
    }
    assert(spec_get(ms, "previous_faction"@) == Some(wire_code(p.previous_faction.spec_code()))) by {
        reveal_with_fuel(spec_get, 12);
    }
    assert(spec_get(ms, "vs_population"@) == Some(wire_u64(p.vs_population as u64))) by {
        reveal_with_fuel(spec_get, 12);
    }
    assert(spec_get(ms, "nc_population"@) == Some(wire_u64(p.nc_population as u64))) by {
        reveal_with_fuel(spec_get, 12);
    }
    assert(spec_get(ms, "tr_population"@) == Some(wire_u64(p.tr_population as u64))) by {
        reveal_with_fuel(spec_get, 12);
    }
    assert(spec_get(ms, "metagame_event_id"@) == Some(wire_u64(p.metagame_event_id as u64))) by {
        reveal_with_fuel(spec_get, 12);
    }
    lemma_ts_field_ok(ms, "timestamp"@, p.timestamp);
    lemma_world_field_ok(ms, "world_id"@, p.world_id);
    lemma_uint_field_ok(ms, "zone_id"@, p.zone_id as u64, u32::MAX as u64);
    lemma_faction_field_ok(ms, "triggering_faction"@, p.triggering_faction);
    lemma_faction_field_ok(ms, "previous_faction"@, p.previous_faction);
    lemma_uint_field_ok(ms, "vs_population"@, p.vs_population as u64, u16::MAX as u64);
    lemma_uint_field_ok(ms, "nc_population"@, p.nc_population as u64, u16::MAX as u64);
    lemma_uint_field_ok(ms, "tr_population"@, p.tr_population as u64, u16::MAX as u64);
    lemma_uint_field_ok(ms, "metagame_event_id"@, p.metagame_event_id as u64, u8::MAX as u64);
}

/// The server's representative payload object for this event kind.
pub open spec fn wire_metagame_event(p: MetagameEventView) -> Seq<(Seq<char>, JsonSpec)> {
    seq![
        ("event_name"@, JsonSpec::Str("MetagameEvent"@)),
        ("timestamp"@, wire_secs(p.timestamp)),
        ("world_id"@, wire_code(p.world_id.spec_code())),
        ("instance_id"@, wire_u64(p.instance_id as u64)),
        ("experience_bonus"@, JsonSpec::Str(p.experience_bonus)),
        ("faction_nc"@, JsonSpec::Str(p.faction_nc)),
        ("faction_tr"@, JsonSpec::Str(p.faction_tr)),
        ("faction_vs"@, JsonSpec::Str(p.faction_vs)),
        ("metagame_event_id"@, wire_u64(p.metagame_event_id as u64)),
        ("metagame_event_state"@, wire_u64(p.metagame_event_state as u64)),
        ("metagame_event_state_name"@, JsonSpec::Str(p.metagame_event_state_name)),
        ("zone_id"@, wire_u64(p.zone_id as u64)),
    ]
}

/// Law (one kind): a representative payload of this kind decodes back to
/// exactly the event it renders.
#[verifier::rlimit(100)]
pub proof fn lemma_metagame_event_round_trip(p: MetagameEventView)
    requires
        p.timestamp.epoch_secs >= 0,
    ensures
        spec_decode_event(JsonSpec::Obj(wire_metagame_event(p))) == Ok::<EventView, DecodeError>(
            EventView::MetagameEvent(p),
        ),
{
    let ms = wire_metagame_event(p);
    reveal_strlit("event_name");
    reveal_strlit("MetagameEvent");
    reveal_strlit("timestamp");
    reveal_strlit("world_id");
    reveal_strlit("instance_id");
    reveal_strlit("experience_bonus");
    reveal_strlit("faction_nc");
    reveal_strlit("faction_tr");
    reveal_strlit("faction_vs");
    reveal_strlit("metagame_event_id");
    reveal_strlit("metagame_event_state");
    reveal_strlit("metagame_event_state_name");
    reveal_strlit("zone_id");
    reveal_strlit("PlayerLogin");
    reveal_strlit("PlayerLogout");
    reveal_strlit("Death");
    reveal_strlit("VehicleDestroy");
    reveal_strlit("GainExperience");
    reveal_strlit("PlayerFacilityCapture");
    reveal_strlit("PlayerFacilityDefend");
    reveal_strlit("FacilityControl");
    reveal_strlit("ContinentLock");
    reveal_strlit("ContinentUnlock");
    assert("event_name"@.len() == 10);
    assert("MetagameEvent"@.len() == 13);
    assert("timestamp"@.len() == 9);
    assert("world_id"@.len() == 8);
    assert("instance_id"@.len() == 11);
    assert("experience_bonus"@.len() == 16);
    assert("faction_nc"@.len() == 10);
    assert("faction_tr"@.len() == 10);
    assert("faction_vs"@.len() == 10);
    assert("metagame_event_id"@.len() == 17);
    assert("metagame_event_state"@.len() == 20);
    assert("metagame_event_state_name"@.len() == 25);
    assert("zone_id"@.len() == 7);
    assert("PlayerLogin"@.len() == 11);
    assert("PlayerLogout"@.len() == 12);
    assert("Death"@.len() == 5);
    assert("VehicleDestroy"@.len() == 14);
    assert("GainExperience"@.len() == 14);
    assert("PlayerFacilityCapture"@.len() == 21);
    assert("PlayerFacilityDefend"@.len() == 20);
    assert("FacilityControl"@.len() == 15);
    assert("ContinentLock"@.len() == 13);
    assert("ContinentUnlock"@.len() == 15);
    assert("event_name"@[0] == 'e');
    assert("faction_nc"@[0] == 'f');
    assert("faction_tr"@[0] == 'f');
    assert("faction_vs"@[0] == 'f');
    assert("MetagameEvent"@[0] == 'M');
    assert("ContinentLock"@[0] == 'C');
    assert("instance_id"@[0] == 'i');
    assert("PlayerLogin"@[0] == 'P');
    assert("faction_nc"@[8] == 'n');
    assert("faction_tr"@[8] == 't');
    assert("faction_vs"@[8] == 'v');
    assert("metagame_event_state"@[0] == 'm');
    assert("PlayerFacilityDefend"@[0] == 'P');
    assert("VehicleDestroy"@[0] == 'V');
    assert("GainExperience"@[0] == 'G');
    assert("FacilityControl"@[0] == 'F');
    assert("ContinentUnlock"@[0] == 'C');
    assert(spec_get(ms, "event_name"@) == Some(JsonSpec::Str("MetagameEvent"@)));
    assert(spec_get(ms, "timestamp"@) == Some(wire_secs(p.timestamp))) by {
        reveal_with_fuel(spec_get, 14);
    }
    assert(spec_get(ms, "world_id"@) == Some(wire_code(p.world_id.spec_code()))) by {
        reveal_with_fuel(spec_get, 14);
    }
    assert(spec_get(ms, "instance_id"@) == Some(wire_u64(p.instance_id as u64))) by {
        reveal_with_fuel(spec_get, 14);
    }
    assert(spec_get(ms, "experience_bonus"@) == Some(JsonSpec::Str(p.experience_bonus))) by {
        reveal_with_fuel(spec_get, 14);
    }
    assert(spec_get(ms, "faction_nc"@) == Some(JsonSpec::Str(p.faction_nc))) by {
        reveal_with_fuel(spec_get, 14);
    }
    assert(spec_get(ms, "faction_tr"@) == Some(JsonSpec::Str(p.faction_tr))) by {
        reveal_with_fuel(spec_get, 14);
    }
    assert(spec_get(ms, "faction_vs"@) == Some(JsonSpec::Str(p.faction_vs))) by {
        reveal_with_fuel(spec_get, 14);
    }
    assert(spec_get(ms, "metagame_event_id"@) == Some(wire_u64(p.metagame_event_id as u64))) by {
        reveal_with_fuel(spec_get, 14);
    }
    assert(spec_get(ms, "metagame_event_state"@) == Some(wire_u64(p.metagame_event_state as u64))) by {
        reveal_with_fuel(spec_get, 14);
    }
    assert(spec_get(ms, "metagame_event_state_name"@) == Some(JsonSpec::Str(p.metagame_event_state_name))) by {
        reveal_with_fuel(spec_get, 14);
    }
    assert(spec_get(ms, "zone_id"@) == Some(wire_u64(p.zone_id as u64))) by {
        reveal_with_fuel(spec_get, 14);
    }
    lemma_ts_field_ok(ms, "timestamp"@, p.timestamp);
    lemma_world_field_ok(ms, "world_id"@, p.world_id);
    lemma_uint_field_ok(ms, "instance_id"@, p.instance_id as u64, u32::MAX as u64);
    lemma_uint_field_ok(ms, "metagame_event_id"@, p.metagame_event_id as u64, u8::MAX as u64);
    lemma_uint_field_ok(ms, "metagame_event_state"@, p.metagame_event_state as u64, u8::MAX as u64);
    lemma_uint_field_ok(ms, "zone_id"@, p.zone_id as u64, u32::MAX as u64);
}

/// The server's representative payload object for this event kind, which
/// carries no fields of its own.
pub open spec fn wire_item_added() -> Seq<(Seq<char>, JsonSpec)> {
    seq![("event_name"@, JsonSpec::Str("ItemAdded"@))]
}

/// Law (one kind): a representative payload of this kind decodes back to
/// exactly the event it names.
pub proof fn lemma_item_added_round_trip()
    ensures
        spec_decode_event(JsonSpec::Obj(wire_item_added())) == Ok::<EventView, DecodeError>(
            EventView::ItemAdded,
        ),
{
    let ms = wire_item_added();
    reveal_strlit("event_name");
    reveal_strlit("ItemAdded");
    reveal_strlit("PlayerLogin");
    reveal_strlit("PlayerLogout");
    reveal_strlit("Death");
    reveal_strlit("VehicleDestroy");
    reveal_strlit("GainExperience");
    reveal_strlit("PlayerFacilityCapture");
    reveal_strlit("PlayerFacilityDefend");
    reveal_strlit("FacilityControl");
    reveal_strlit("ContinentLock");
    reveal_strlit("ContinentUnlock");
    reveal_strlit("MetagameEvent");
    assert("event_name"@.len() == 10);
    assert("ItemAdded"@.len() == 9);
    assert("PlayerLogin"@.len() == 11);
    assert("PlayerLogout"@.len() == 12);
    assert("Death"@.len() == 5);
    assert("VehicleDestroy"@.len() == 14);
    assert("GainExperience"@.len() == 14);
    assert("PlayerFacilityCapture"@.len() == 21);
    assert("PlayerFacilityDefend"@.len() == 20);
    assert("FacilityControl"@.len() == 15);
    assert("ContinentLock"@.len() == 13);
    assert("ContinentUnlock"@.len() == 15);
    assert("MetagameEvent"@.len() == 13);
    assert("VehicleDestroy"@[0] == 'V');
    assert("GainExperience"@[0] == 'G');
    assert("FacilityControl"@[0] == 'F');
    assert("ContinentUnlock"@[0] == 'C');
    assert("ContinentLock"@[0] == 'C');
    assert("MetagameEvent"@[0] == 'M');
    assert(spec_get(ms, "event_name"@) == Some(JsonSpec::Str("ItemAdded"@)));
}

/// The server's representative payload object for this event kind, which
/// carries no fields of its own.
pub open spec fn wire_achievement_earned() -> Seq<(Seq<char>, JsonSpec)> {
    seq![("event_name"@, JsonSpec::Str("AchievementEarned"@))]
}

/// Law (one kind): a representative payload of this kind decodes back to
/// exactly the event it names.
pub proof fn lemma_achievement_earned_round_trip()
    ensures
        spec_decode_event(JsonSpec::Obj(wire_achievement_earned())) == Ok::<EventView, DecodeError>(
            EventView::AchievementEarned,
        ),
{
    let ms = wire_achievement_earned();
    reveal_strlit("event_name");
    reveal_strlit("AchievementEarned");
    reveal_strlit("PlayerLogin");
    reveal_strlit("PlayerLogout");
    reveal_strlit("Death");
    reveal_strlit("VehicleDestroy");
    reveal_strlit("GainExperience");
    reveal_strlit("PlayerFacilityCapture");
    reveal_strlit("PlayerFacilityDefend");
    reveal_strlit("FacilityControl");
    reveal_strlit("ContinentLock");
    reveal_strlit("ContinentUnlock");
    reveal_strlit("MetagameEvent");
    reveal_strlit("ItemAdded");
    assert("event_name"@.len() == 10);
    assert("AchievementEarned"@.len() == 17);
    assert("PlayerLogin"@.len() == 11);
    assert("PlayerLogout"@.len() == 12);
    assert("Death"@.len() == 5);
    assert("VehicleDestroy"@.len() == 14);
    assert("GainExperience"@.len() == 14);
    assert("PlayerFacilityCapture"@.len() == 21);
    assert("PlayerFacilityDefend"@.len() == 20);
    assert("FacilityControl"@.len() == 15);
    assert("ContinentLock"@.len() == 13);
    assert("ContinentUnlock"@.len() == 15);
    assert("MetagameEvent"@.len() == 13);
    assert("ItemAdded"@.len() == 9);
    assert("VehicleDestroy"@[0] == 'V');
    assert("GainExperience"@[0] == 'G');
    assert("FacilityControl"@[0] == 'F');
    assert("ContinentUnlock"@[0] == 'C');
    assert("ContinentLock"@[0] == 'C');
    assert("MetagameEvent"@[0] == 'M');
    assert(spec_get(ms, "event_name"@) == Some(JsonSpec::Str("AchievementEarned"@)));
}

/// The server's representative payload object for this event kind, which
/// carries no fields of its own.
pub open spec fn wire_skill_added() -> Seq<(Seq<char>, JsonSpec)> {
    seq![("event_name"@, JsonSpec::Str("SkillAdded"@))]
}

/// Law (one kind): a representative payload of this kind decodes back to
/// exactly the event it names.
pub proof fn lemma_skill_added_round_trip()
    ensures
        spec_decode_event(JsonSpec::Obj(wire_skill_added())) == Ok::<EventView, DecodeError>(
            EventView::SkillAdded,
        ),
{
    let ms = wire_skill_added();
    reveal_strlit("event_name");
    reveal_strlit("SkillAdded");
    reveal_strlit("PlayerLogin");
    reveal_strlit("PlayerLogout");
    reveal_strlit("Death");
    reveal_strlit("VehicleDestroy");
    reveal_strlit("GainExperience");
    reveal_strlit("PlayerFacilityCapture");
    reveal_strlit("PlayerFacilityDefend");
    reveal_strlit("FacilityControl");
    reveal_strlit("ContinentLock");
    reveal_strlit("ContinentUnlock");
    reveal_strlit("MetagameEvent");
    reveal_strlit("ItemAdded");
    reveal_strlit("AchievementEarned");
    assert("event_name"@.len() == 10);
    assert("SkillAdded"@.len() == 10);
    assert("PlayerLogin"@.len() == 11);
    assert("PlayerLogout"@.len() == 12);
    assert("Death"@.len() == 5);
    assert("VehicleDestroy"@.len() == 14);
    assert("GainExperience"@.len() == 14);
    assert("PlayerFacilityCapture"@.len() == 21);
    assert("PlayerFacilityDefend"@.len() == 20);
    assert("FacilityControl"@.len() == 15);
    assert("ContinentLock"@.len() == 13);
    assert("ContinentUnlock"@.len() == 15);
    assert("MetagameEvent"@.len() == 13);
    assert("ItemAdded"@.len() == 9);
    assert("AchievementEarned"@.len() == 17);
    assert("event_name"@[0] == 'e');
    assert("SkillAdded"@[0] == 'S');
    assert("VehicleDestroy"@[0] == 'V');
    assert("GainExperience"@[0] == 'G');
    assert("FacilityControl"@[0] == 'F');
    assert("ContinentUnlock"@[0] == 'C');
    assert("ContinentLock"@[0] == 'C');
    assert("MetagameEvent"@[0] == 'M');
    assert(spec_get(ms, "event_name"@) == Some(JsonSpec::Str("SkillAdded"@)));
}

/// The server's representative payload object for this event kind, which
/// carries no fields of its own.
pub open spec fn wire_battle_rank_up() -> Seq<(Seq<char>, JsonSpec)> {
    seq![("event_name"@, JsonSpec::Str("BattleRankUp"@))]
}

/// Law (one kind): a representative payload of this kind decodes back to
/// exactly the event it names.
pub proof fn lemma_battle_rank_up_round_trip()
    ensures
        spec_decode_event(JsonSpec::Obj(wire_battle_rank_up())) == Ok::<EventView, DecodeError>(
            EventView::BattleRankUp,
        ),
{
    let ms = wire_battle_rank_up();
    reveal_strlit("event_name");
    reveal_strlit("BattleRankUp");
    reveal_strlit("PlayerLogin");
    reveal_strlit("PlayerLogout");
    reveal_strlit("Death");
    reveal_strlit("VehicleDestroy");
    reveal_strlit("GainExperience");
    reveal_strlit("PlayerFacilityCapture");
    reveal_strlit("PlayerFacilityDefend");
    reveal_strlit("FacilityControl");
    reveal_strlit("ContinentLock");
    reveal_strlit("ContinentUnlock");
    reveal_strlit("MetagameEvent");
    reveal_strlit("ItemAdded");
    reveal_strlit("AchievementEarned");
    reveal_strlit("SkillAdded");
    assert("event_name"@.len() == 10);
    assert("BattleRankUp"@.len() == 12);
    assert("PlayerLogin"@.len() == 11);
    assert("PlayerLogout"@.len() == 12);
    assert("Death"@.len() == 5);
    assert("VehicleDestroy"@.len() == 14);
    assert("GainExperience"@.len() == 14);
    assert("PlayerFacilityCapture"@.len() == 21);
    assert("PlayerFacilityDefend"@.len() == 20);
    assert("FacilityControl"@.len() == 15);
    assert("ContinentLock"@.len() == 13);
    assert("ContinentUnlock"@.len() == 15);
    assert("MetagameEvent"@.len() == 13);
    assert("ItemAdded"@.len() == 9);
    assert("AchievementEarned"@.len() == 17);
    assert("SkillAdded"@.len() == 10);
    assert("event_name"@[0] == 'e');
    assert("SkillAdded"@[0] == 'S');
    assert("BattleRankUp"@[0] == 'B');
    assert("PlayerLogout"@[0] == 'P');
    assert("VehicleDestroy"@[0] == 'V');
    assert("GainExperience"@[0] == 'G');
    assert("FacilityControl"@[0] == 'F');
    assert("ContinentUnlock"@[0] == 'C');
    assert("ContinentLock"@[0] == 'C');
    assert("MetagameEvent"@[0] == 'M');
    assert(spec_get(ms, "event_name"@) == Some(JsonSpec::Str("BattleRankUp"@)));
}

/// The server's representative payload object for any event value.
pub open spec fn spec_event_wire(e: EventView) -> Seq<(Seq<char>, JsonSpec)> {
    match e {
        EventView::PlayerLogin(p) => wire_player_login(p),
        EventView::PlayerLogout(p) => wire_player_logout(p),
        EventView::Death(p) => wire_death(p),
        EventView::VehicleDestroy(p) => wire_vehicle_destroy(p),
        EventView::GainExperience(p) => wire_gain_experience(p),
        EventView::PlayerFacilityCapture(p) => wire_player_facility_capture(p),
        EventView::PlayerFacilityDefend(p) => wire_player_facility_defend(p),
        EventView::FacilityControl(p) => wire_facility_control(p),
        EventView::ContinentLock(p) => wire_continent_lock(p),
        EventView::ContinentUnlock(p) => wire_continent_unlock(p),
        EventView::MetagameEvent(p) => wire_metagame_event(p),
        EventView::ItemAdded => wire_item_added(),
        EventView::AchievementEarned => wire_achievement_earned(),
        EventView::SkillAdded => wire_skill_added(),
        EventView::BattleRankUp => wire_battle_rank_up(),
    }
}

/// The event values the server can actually send: every timestamp and
/// duration is a non-negative count of seconds.
pub open spec fn spec_valid_event(e: EventView) -> bool {
    match e {
        EventView::PlayerLogin(p) => p.timestamp.epoch_secs >= 0,
        EventView::PlayerLogout(p) => p.timestamp.epoch_secs >= 0,
        EventView::Death(p) => p.timestamp.epoch_secs >= 0,
        EventView::VehicleDestroy(p) => p.timestamp.epoch_secs >= 0,
        EventView::GainExperience(p) => p.timestamp.epoch_secs >= 0,
        EventView::PlayerFacilityCapture(p) => p.timestamp.epoch_secs >= 0,
        EventView::PlayerFacilityDefend(p) => p.timestamp.epoch_secs >= 0,
        EventView::FacilityControl(p) => p.timestamp.epoch_secs >= 0 && p.duration_held.secs
            >= 0,
        EventView::ContinentLock(p) => p.timestamp.epoch_secs >= 0,
        EventView::ContinentUnlock(p) => p.timestamp.epoch_secs >= 0,
        EventView::MetagameEvent(p) => p.timestamp.epoch_secs >= 0,
        _ => true,
    }
}

/// Law: for every domain event kind, the server's representative payload
/// decodes back to a value equal to the event it renders — round-trip
/// fidelity per variant.
pub proof fn lemma_event_round_trip(e: EventView)
    requires
        spec_valid_event(e),
    ensures
        spec_decode_event(JsonSpec::Obj(spec_event_wire(e))) == Ok::<EventView, DecodeError>(e),
{
    match e {
        EventView::PlayerLogin(p) => lemma_player_login_round_trip(p),
        EventView::PlayerLogout(p) => lemma_player_logout_round_trip(p),
        EventView::Death(p) => lemma_death_round_trip(p),
        EventView::VehicleDestroy(p) => lemma_vehicle_destroy_round_trip(p),
        EventView::GainExperience(p) => lemma_gain_experience_round_trip(p),
        EventView::PlayerFacilityCapture(p) => lemma_player_facility_capture_round_trip(p),
        EventView::PlayerFacilityDefend(p) => lemma_player_facility_defend_round_trip(p),
        EventView::FacilityControl(p) => lemma_facility_control_round_trip(p),
        EventView::ContinentLock(p) => lemma_continent_lock_round_trip(p),
        EventView::ContinentUnlock(p) => lemma_continent_unlock_round_trip(p),
        EventView::MetagameEvent(p) => lemma_metagame_event_round_trip(p),
        EventView::ItemAdded => lemma_item_added_round_trip(),
        EventView::AchievementEarned => lemma_achievement_earned_round_trip(),
        EventView::SkillAdded => lemma_skill_added_round_trip(),
        EventView::BattleRankUp => lemma_battle_rank_up_round_trip(),
    }
}


/// The representative server frame that carries an event: a service
/// message enclosing the event's payload object.
pub open spec fn spec_event_frame(e: EventView) -> JsonSpec {
    JsonSpec::Obj(
        seq![
            ("type"@, JsonSpec::Str("serviceMessage"@)),
            ("payload"@, JsonSpec::Obj(spec_event_wire(e))),
        ],
    )
}

/// Law: for every domain event kind, rendering the representative server
/// frame as text and decoding that text yields exactly the original event,
/// as a service message — round-trip fidelity per variant, through the
/// whole codec.
pub proof fn lemma_event_frame_round_trip(e: EventView)
    requires
        spec_valid_event(e),
    ensures
        spec_decode_message(spec_render(spec_event_frame(e))) == Ok::<_, DecodeError>(
            CensusMessageView::ServiceMessage { payload: e },
        ),
{
    crate::json_laws::lemma_render_parse_round_trip(spec_event_frame(e));
    let ms = spec_event_frame(e)->Obj_0;
    reveal_strlit("type");
    reveal_strlit("payload");
    reveal_strlit("serviceMessage");
    reveal_strlit("connectionStateChanged");
    reveal_strlit("heartbeat");
    assert("type"@.len() == 4);
    assert("payload"@.len() == 7);
    assert("serviceMessage"@.len() == 14);
    assert("connectionStateChanged"@.len() == 22);
    assert("heartbeat"@.len() == 9);
    assert(spec_get(ms, "type"@) == Some(JsonSpec::Str("serviceMessage"@)));
    assert(spec_get(ms, "payload"@) == Some(JsonSpec::Obj(spec_event_wire(e)))) by {
        reveal_with_fuel(spec_get, 4);
    }
    lemma_event_round_trip(e);
}

} // verus!
