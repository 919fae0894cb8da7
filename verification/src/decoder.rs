//! The event decoder: maps a service-message payload, already parsed into a
//! wire object, to its typed domain event. Each field is coerced per its
//! declared kind: numbers, booleans, enumerations, timestamps and durations
//! all travel as strings; a coercion failure spoils only its own message.

use crate::constants::{Faction, Loadout, WorldID};
use crate::error::{DecodeError, FieldParseError, MalformedCause};
use crate::event::{
    ContinentLock, ContinentUnlock, Death, DurationSeconds, Event, EventView, FacilityControl,
    GainExperience, MetagameEvent, MetagameEventView, PlayerFacilityCapture, PlayerFacilityDefend,
    PlayerLogin, PlayerLogout, Timestamp, VehicleDestroy,
};
use crate::json::{json_view, json_view_members, JsonSpec, JsonValue};
use crate::text::{
    parse_i64_chars, parse_u64_chars, spec_parse_i64, spec_parse_u64, str_to_chars, string_eq_str,
};
use vstd::prelude::*;

verus! {

/// The value of the first member with the given key, if any.
pub open spec fn spec_get(ms: Seq<(Seq<char>, JsonSpec)>, key: Seq<char>) -> Option<JsonSpec>
    decreases ms.len(),
{
    if ms.len() == 0 {
        None
    } else if ms[0].0 == key {
        Some(ms[0].1)
    } else {
        spec_get(ms.drop_first(), key)
    }
}

/// Looks a key up among an object's members, first match wins.
pub fn obj_get<'a>(ps: &'a Vec<(String, JsonValue)>, key: &str) -> (r: Option<&'a JsonValue>)
    ensures
        match r {
            Some(v) => spec_get(json_view_members(ps@), key@) == Some(json_view(*v)),
            None => spec_get(json_view_members(ps@), key@) is None,
        },
{
    let ghost ms = json_view_members(ps@);
    proof {
        assert(ms.skip(0) =~= ms);
    }
    let mut i: usize = 0;
    while i < ps.len()
        invariant
            0 <= i <= ps@.len(),
            ms == json_view_members(ps@),
            spec_get(ms, key@) == spec_get(ms.skip(i as int), key@),
        decreases ps@.len() - i,
    {
        proof {
            assert(ms.skip(i as int)[0] == ms[i as int]);
            assert(ms.skip(i as int).drop_first() =~= ms.skip(i + 1));
        }
        if string_eq_str(&ps[i].0, key) {
            return Some(&ps[i].1);
        }
        i = i + 1;
    }
    proof {
        assert(ms.skip(i as int) =~= Seq::<(Seq<char>, JsonSpec)>::empty());
    }
    None
}

/// An unsigned numeric-from-string field: the member must be a string of
/// decimal digits whose value is at most `max`.
pub open spec fn spec_uint_field(ms: Seq<(Seq<char>, JsonSpec)>, key: Seq<char>, max: u64) -> Result<
    u64,
    MalformedCause,
> {
    match spec_get(ms, key) {
        None => Err(MalformedCause::MissingField),
        Some(j) => match j {
            JsonSpec::Str(s) => match spec_parse_u64(s) {
                Some(n) => if n <= max {
                    Ok(n)
                } else {
                    Err(MalformedCause::Field(FieldParseError::NonNumeric))
                },
                None => Err(MalformedCause::Field(FieldParseError::NonNumeric)),
            },
            _ => Err(MalformedCause::WrongFieldShape),
        },
    }
}

/// As [`spec_uint_field`], but an absent member falls back to zero.
pub open spec fn spec_uint_field_or_zero(
    ms: Seq<(Seq<char>, JsonSpec)>,
    key: Seq<char>,
    max: u64,
) -> Result<u64, MalformedCause> {
    match spec_get(ms, key) {
        None => Ok(0u64),
        Some(_) => spec_uint_field(ms, key, max),
    }
}

/// A signed numeric-from-string field, for epoch seconds and durations.
pub open spec fn spec_i64_field(ms: Seq<(Seq<char>, JsonSpec)>, key: Seq<char>) -> Result<
    i64,
    MalformedCause,
> {
    match spec_get(ms, key) {
        None => Err(MalformedCause::MissingField),
        Some(j) => match j {
            JsonSpec::Str(s) => match spec_parse_i64(s) {
                Some(n) => Ok(n),
                None => Err(MalformedCause::Field(FieldParseError::NonNumeric)),
            },
            _ => Err(MalformedCause::WrongFieldShape),
        },
    }
}

/// A boolean-from-integer-string field: exactly `"0"` or `"1"`.
pub open spec fn spec_bool01_field(ms: Seq<(Seq<char>, JsonSpec)>, key: Seq<char>) -> Result<
    bool,
    MalformedCause,
> {
    match spec_get(ms, key) {
        None => Err(MalformedCause::MissingField),
        Some(j) => match j {
            JsonSpec::Str(s) => if s == "0"@ {
                Ok(false)
            } else if s == "1"@ {
                Ok(true)
            } else {
                Err(MalformedCause::Field(FieldParseError::InvalidBoolean))
            },
            _ => Err(MalformedCause::WrongFieldShape),
        },
    }
}

/// An enumeration-from-string field: the string must parse as a signed
/// 16-bit code; an unassigned code is an unknown enumeration value.
pub open spec fn spec_enum_code_field(ms: Seq<(Seq<char>, JsonSpec)>, key: Seq<char>) -> Result<
    i16,
    MalformedCause,
> {
    match spec_get(ms, key) {
        None => Err(MalformedCause::MissingField),
        Some(j) => match j {
            JsonSpec::Str(s) => match spec_parse_i64(s) {
                Some(n) => if i16::MIN <= n <= i16::MAX {
                    Ok(n as i16)
                } else {
                    Err(MalformedCause::Field(FieldParseError::NonNumeric))
                },
                None => Err(MalformedCause::Field(FieldParseError::NonNumeric)),
            },
            _ => Err(MalformedCause::WrongFieldShape),
        },
    }
}

/// A faction field.
pub open spec fn spec_faction_field(ms: Seq<(Seq<char>, JsonSpec)>, key: Seq<char>) -> Result<
    Faction,
    MalformedCause,
> {
    match spec_enum_code_field(ms, key) {
        Ok(c) => match Faction::spec_from_code(c) {
            Some(f) => Ok(f),
            None => Err(MalformedCause::Field(FieldParseError::UnknownEnumValue)),
        },
        Err(e) => Err(e),
    }
}

/// A loadout field.
pub open spec fn spec_loadout_field(ms: Seq<(Seq<char>, JsonSpec)>, key: Seq<char>) -> Result<
    Loadout,
    MalformedCause,
> {
    match spec_enum_code_field(ms, key) {
        Ok(c) => match Loadout::spec_from_code(c) {
            Some(l) => Ok(l),
            None => Err(MalformedCause::Field(FieldParseError::UnknownEnumValue)),
        },
        Err(e) => Err(e),
    }
}

/// A world field.
pub open spec fn spec_world_field(ms: Seq<(Seq<char>, JsonSpec)>, key: Seq<char>) -> Result<
    WorldID,
    MalformedCause,
> {
    match spec_enum_code_field(ms, key) {
        Ok(c) => match WorldID::spec_from_code(c) {
            Some(w) => Ok(w),
            None => Err(MalformedCause::Field(FieldParseError::UnknownEnumValue)),
        },
        Err(e) => Err(e),
    }
}

/// A timestamp-from-epoch-seconds-string field.
pub open spec fn spec_timestamp_field(ms: Seq<(Seq<char>, JsonSpec)>, key: Seq<char>) -> Result<
    Timestamp,
    MalformedCause,
> {
    match spec_i64_field(ms, key) {
        Ok(n) => Ok(Timestamp { epoch_secs: n }),
        Err(e) => Err(e),
    }
}

/// A duration-from-seconds-string field.
pub open spec fn spec_duration_field(ms: Seq<(Seq<char>, JsonSpec)>, key: Seq<char>) -> Result<
    DurationSeconds,
    MalformedCause,
> {
    match spec_i64_field(ms, key) {
        Ok(n) => Ok(DurationSeconds { secs: n }),
        Err(e) => Err(e),
    }
}

/// A plain string field, kept as-is.
pub open spec fn spec_string_field(ms: Seq<(Seq<char>, JsonSpec)>, key: Seq<char>) -> Result<
    Seq<char>,
    MalformedCause,
> {
    match spec_get(ms, key) {
        None => Err(MalformedCause::MissingField),
        Some(j) => match j {
            JsonSpec::Str(s) => Ok(s),
            _ => Err(MalformedCause::WrongFieldShape),
        },
    }
}

/// A plain unsigned number field (carried as a wire number, not a string).
pub open spec fn spec_num_field(ms: Seq<(Seq<char>, JsonSpec)>, key: Seq<char>) -> Result<
    u64,
    MalformedCause,
> {
    match spec_get(ms, key) {
        None => Err(MalformedCause::MissingField),
        Some(j) => match j {
            JsonSpec::Num(n) => Ok(n),
            _ => Err(MalformedCause::WrongFieldShape),
        },
    }
}

/// Reads an unsigned numeric-from-string field.
pub fn uint_field(ps: &Vec<(String, JsonValue)>, key: &str, max: u64) -> (r: Result<
    u64,
    MalformedCause,
>)
    ensures
        r == spec_uint_field(json_view_members(ps@), key@, max),
{
    match obj_get(ps, key) {
        None => Err(MalformedCause::MissingField),
        Some(v) => match v {
            JsonValue::Str(s) => {
                let cs = str_to_chars(s.as_str());
                match parse_u64_chars(cs.as_slice()) {
                    Some(n) => if n <= max {
                        Ok(n)
                    } else {
                        Err(MalformedCause::Field(FieldParseError::NonNumeric))
                    },
                    None => Err(MalformedCause::Field(FieldParseError::NonNumeric)),
                }
            },
            _ => Err(MalformedCause::WrongFieldShape),
        },
    }
}

/// Reads an unsigned numeric-from-string field, absent meaning zero.
pub fn uint_field_or_zero(ps: &Vec<(String, JsonValue)>, key: &str, max: u64) -> (r: Result<
    u64,
    MalformedCause,
>)
    ensures
        r == spec_uint_field_or_zero(json_view_members(ps@), key@, max),
{
    match obj_get(ps, key) {
        None => Ok(0),
        Some(_) => uint_field(ps, key, max),
    }
}

/// Reads a signed numeric-from-string field.
pub fn i64_field(ps: &Vec<(String, JsonValue)>, key: &str) -> (r: Result<i64, MalformedCause>)
    ensures
        r == spec_i64_field(json_view_members(ps@), key@),
{
    match obj_get(ps, key) {
        None => Err(MalformedCause::MissingField),
        Some(v) => match v {
            JsonValue::Str(s) => {
                let cs = str_to_chars(s.as_str());
                match parse_i64_chars(cs.as_slice()) {
                    Some(n) => Ok(n),
                    None => Err(MalformedCause::Field(FieldParseError::NonNumeric)),
                }
            },
            _ => Err(MalformedCause::WrongFieldShape),
        },
    }
}

/// Reads a boolean-from-integer-string field: exactly `"0"` or `"1"`.
pub fn bool01_field(ps: &Vec<(String, JsonValue)>, key: &str) -> (r: Result<bool, MalformedCause>)
    ensures
        r == spec_bool01_field(json_view_members(ps@), key@),
{
    match obj_get(ps, key) {
        None => Err(MalformedCause::MissingField),
        Some(v) => match v {
            JsonValue::Str(s) => {
                if string_eq_str(s, "0") {
                    Ok(false)
                } else if string_eq_str(s, "1") {
                    Ok(true)
                } else {
                    Err(MalformedCause::Field(FieldParseError::InvalidBoolean))
                }
            },
            _ => Err(MalformedCause::WrongFieldShape),
        },
    }
}

/// Reads an enumeration code field.
pub fn enum_code_field(ps: &Vec<(String, JsonValue)>, key: &str) -> (r: Result<
    i16,
    MalformedCause,
>)
    ensures
        r == spec_enum_code_field(json_view_members(ps@), key@),
{
    match obj_get(ps, key) {
        None => Err(MalformedCause::MissingField),
        Some(v) => match v {
            JsonValue::Str(s) => {
                let cs = str_to_chars(s.as_str());
                match parse_i64_chars(cs.as_slice()) {
                    Some(n) => if -32768 <= n && n <= 32767 {
                        Ok(n as i16)
                    } else {
                        Err(MalformedCause::Field(FieldParseError::NonNumeric))
                    },
                    None => Err(MalformedCause::Field(FieldParseError::NonNumeric)),
                }
            },
            _ => Err(MalformedCause::WrongFieldShape),
        },
    }
}

/// Reads a faction field.
pub fn faction_field(ps: &Vec<(String, JsonValue)>, key: &str) -> (r: Result<
    Faction,
    MalformedCause,
>)
    ensures
        r == spec_faction_field(json_view_members(ps@), key@),
{
    match enum_code_field(ps, key) {
        Ok(c) => match Faction::from_code(c) {
            Some(f) => Ok(f),
            None => Err(MalformedCause::Field(FieldParseError::UnknownEnumValue)),
        },
        Err(e) => Err(e),
    }
}

/// Reads a loadout field.
pub fn loadout_field(ps: &Vec<(String, JsonValue)>, key: &str) -> (r: Result<
    Loadout,
    MalformedCause,
>)
    ensures
        r == spec_loadout_field(json_view_members(ps@), key@),
{
    match enum_code_field(ps, key) {
        Ok(c) => match Loadout::from_code(c) {
            Some(l) => Ok(l),
            None => Err(MalformedCause::Field(FieldParseError::UnknownEnumValue)),
        },
        Err(e) => Err(e),
    }
}

/// Reads a world field.
pub fn world_field(ps: &Vec<(String, JsonValue)>, key: &str) -> (r: Result<
    WorldID,
    MalformedCause,
>)
    ensures
        r == spec_world_field(json_view_members(ps@), key@),
{
    match enum_code_field(ps, key) {
        Ok(c) => match WorldID::from_code(c) {
            Some(w) => Ok(w),
            None => Err(MalformedCause::Field(FieldParseError::UnknownEnumValue)),
        },
        Err(e) => Err(e),
    }
}

/// Reads a timestamp field.
pub fn timestamp_field(ps: &Vec<(String, JsonValue)>, key: &str) -> (r: Result<
    Timestamp,
    MalformedCause,
>)
    ensures
        r == spec_timestamp_field(json_view_members(ps@), key@),
{
    match i64_field(ps, key) {
        Ok(n) => Ok(Timestamp { epoch_secs: n }),
        Err(e) => Err(e),
    }
}

/// Reads a duration field.
pub fn duration_field(ps: &Vec<(String, JsonValue)>, key: &str) -> (r: Result<
    DurationSeconds,
    MalformedCause,
>)
    ensures
        r == spec_duration_field(json_view_members(ps@), key@),
{
    match i64_field(ps, key) {
        Ok(n) => Ok(DurationSeconds { secs: n }),
        Err(e) => Err(e),
    }
}

/// Reads a plain string field.
pub fn string_field(ps: &Vec<(String, JsonValue)>, key: &str) -> (r: Result<
    String,
    MalformedCause,
>)
    ensures
        match r {
            Ok(s) => spec_string_field(json_view_members(ps@), key@) == Ok::<_, MalformedCause>(
                s@,
            ),
            Err(e) => spec_string_field(json_view_members(ps@), key@) == Err::<Seq<char>, _>(e),
        },
{
    match obj_get(ps, key) {
        None => Err(MalformedCause::MissingField),
        Some(v) => match v {
            JsonValue::Str(s) => Ok(s.clone()),
            _ => Err(MalformedCause::WrongFieldShape),
        },
    }
}

/// Reads a plain number field.
pub fn num_field(ps: &Vec<(String, JsonValue)>, key: &str) -> (r: Result<u64, MalformedCause>)
    ensures
        r == spec_num_field(json_view_members(ps@), key@),
{
    match obj_get(ps, key) {
        None => Err(MalformedCause::MissingField),
        Some(v) => match v {
            JsonValue::Num(n) => Ok(*n),
            _ => Err(MalformedCause::WrongFieldShape),
        },
    }
}

/// What decoding a player-login payload yields.
pub open spec fn spec_decode_player_login(ms: Seq<(Seq<char>, JsonSpec)>) -> Result<
    EventView,
    MalformedCause,
> {
    match (
        spec_uint_field(ms, "character_id"@, u64::MAX),
        spec_timestamp_field(ms, "timestamp"@),
        spec_world_field(ms, "world_id"@),
    ) {
        (Ok(c), Ok(t), Ok(w)) => Ok(
            EventView::PlayerLogin(PlayerLogin { character_id: c, timestamp: t, world_id: w }),
        ),
        (Err(e), _, _) => Err(e),
        (_, Err(e), _) => Err(e),
        (_, _, Err(e)) => Err(e),
    }
}

fn decode_player_login(ps: &Vec<(String, JsonValue)>) -> (r: Result<Event, MalformedCause>)
    ensures
        match r {
            Ok(e) => spec_decode_player_login(json_view_members(ps@)) == Ok::<_, MalformedCause>(
                e@,
            ),
            Err(e) => spec_decode_player_login(json_view_members(ps@)) == Err::<EventView, _>(e),
        },
{
    let character_id = uint_field(ps, "character_id", u64::MAX)?;
    let timestamp = timestamp_field(ps, "timestamp")?;
    let world_id = world_field(ps, "world_id")?;
    Ok(Event::PlayerLogin(PlayerLogin { character_id, timestamp, world_id }))
}

/// What decoding a player-logout payload yields.
pub open spec fn spec_decode_player_logout(ms: Seq<(Seq<char>, JsonSpec)>) -> Result<
    EventView,
    MalformedCause,
> {
    match (
        spec_uint_field(ms, "character_id"@, u64::MAX),
        spec_timestamp_field(ms, "timestamp"@),
        spec_world_field(ms, "world_id"@),
    ) {
        (Ok(c), Ok(t), Ok(w)) => Ok(
            EventView::PlayerLogout(PlayerLogout { character_id: c, timestamp: t, world_id: w }),
        ),
        (Err(e), _, _) => Err(e),
        (_, Err(e), _) => Err(e),
        (_, _, Err(e)) => Err(e),
    }
}

fn decode_player_logout(ps: &Vec<(String, JsonValue)>) -> (r: Result<Event, MalformedCause>)
    ensures
        match r {
            Ok(e) => spec_decode_player_logout(json_view_members(ps@)) == Ok::<_, MalformedCause>(
                e@,
            ),
            Err(e) => spec_decode_player_logout(json_view_members(ps@)) == Err::<EventView, _>(e),
        },
{
    let character_id = uint_field(ps, "character_id", u64::MAX)?;
    let timestamp = timestamp_field(ps, "timestamp")?;
    let world_id = world_field(ps, "world_id")?;
    Ok(Event::PlayerLogout(PlayerLogout { character_id, timestamp, world_id }))
}

/// What decoding a death payload yields. The victim's vehicle field may be
/// absent, standing for no vehicle.
pub open spec fn spec_decode_death(ms: Seq<(Seq<char>, JsonSpec)>) -> Result<
    EventView,
    MalformedCause,
> {
    match (
        spec_uint_field(ms, "attacker_character_id"@, u64::MAX),
        spec_uint_field(ms, "attacker_fire_mode_id"@, u32::MAX as u64),
        spec_loadout_field(ms, "attacker_loadout_id"@),
        spec_uint_field(ms, "attacker_vehicle_id"@, u16::MAX as u64),
        spec_uint_field(ms, "attacker_weapon_id"@, u32::MAX as u64),
        spec_uint_field(ms, "character_id"@, u64::MAX),
        spec_loadout_field(ms, "character_loadout_id"@),
        spec_bool01_field(ms, "is_headshot"@),
        spec_timestamp_field(ms, "timestamp"@),
        spec_uint_field_or_zero(ms, "vehicle_id"@, u16::MAX as u64),
        spec_world_field(ms, "world_id"@),
        spec_uint_field(ms, "zone_id"@, u32::MAX as u64),
    ) {
        (
            Ok(ac),
            Ok(afm),
            Ok(al),
            Ok(av),
            Ok(aw),
            Ok(c),
            Ok(cl),
            Ok(hs),
            Ok(t),
            Ok(v),
            Ok(w),
            Ok(z),
        ) => Ok(
            EventView::Death(
                Death {
                    attacker_character_id: ac,
                    attacker_fire_mode_id: afm as u32,
                    attacker_loadout_id: al,
                    attacker_vehicle_id: av as u16,
                    attacker_weapon_id: aw as u32,
                    character_id: c,
                    character_loadout_id: cl,
                    is_headshot: hs,
                    timestamp: t,
                    vehicle_id: v as u16,
                    world_id: w,
                    zone_id: z as u32,
                },
            ),
        ),
        (Err(e), ..) => Err(e),
        (_, Err(e), ..) => Err(e),
        (_, _, Err(e), ..) => Err(e),
        (_, _, _, Err(e), ..) => Err(e),
        (_, _, _, _, Err(e), ..) => Err(e),
        (_, _, _, _, _, Err(e), ..) => Err(e),
        (_, _, _, _, _, _, Err(e), ..) => Err(e),
        (_, _, _, _, _, _, _, Err(e), ..) => Err(e),
        (_, _, _, _, _, _, _, _, Err(e), ..) => Err(e),
        (_, _, _, _, _, _, _, _, _, Err(e), ..) => Err(e),
        (_, _, _, _, _, _, _, _, _, _, Err(e), _) => Err(e),
        (_, _, _, _, _, _, _, _, _, _, _, Err(e)) => Err(e),
    }
}

fn decode_death(ps: &Vec<(String, JsonValue)>) -> (r: Result<Event, MalformedCause>)
    ensures
        match r {
            Ok(e) => spec_decode_death(json_view_members(ps@)) == Ok::<_, MalformedCause>(e@),
            Err(e) => spec_decode_death(json_view_members(ps@)) == Err::<EventView, _>(e),
        },
{
    let attacker_character_id = uint_field(ps, "attacker_character_id", u64::MAX)?;
    let attacker_fire_mode_id = uint_field(ps, "attacker_fire_mode_id", u32::MAX as u64)? as u32;
    let attacker_loadout_id = loadout_field(ps, "attacker_loadout_id")?;
    let attacker_vehicle_id = uint_field(ps, "attacker_vehicle_id", u16::MAX as u64)? as u16;
    let attacker_weapon_id = uint_field(ps, "attacker_weapon_id", u32::MAX as u64)? as u32;
    let character_id = uint_field(ps, "character_id", u64::MAX)?;
    let character_loadout_id = loadout_field(ps, "character_loadout_id")?;
    let is_headshot = bool01_field(ps, "is_headshot")?;
    let timestamp = timestamp_field(ps, "timestamp")?;
    let vehicle_id = uint_field_or_zero(ps, "vehicle_id", u16::MAX as u64)? as u16;
    let world_id = world_field(ps, "world_id")?;
    let zone_id = uint_field(ps, "zone_id", u32::MAX as u64)? as u32;
    Ok(
        Event::Death(
            Death {
                attacker_character_id,
                attacker_fire_mode_id,
                attacker_loadout_id,
                attacker_vehicle_id,
                attacker_weapon_id,
                character_id,
                character_loadout_id,
                is_headshot,
                timestamp,
                vehicle_id,
                world_id,
                zone_id,
            },
        ),
    )
}

/// What decoding a vehicle-destroy payload yields.
pub open spec fn spec_decode_vehicle_destroy(ms: Seq<(Seq<char>, JsonSpec)>) -> Result<
    EventView,
    MalformedCause,
> {
    match (
        spec_uint_field(ms, "attacker_character_id"@, u64::MAX),
        spec_loadout_field(ms, "attacker_loadout_id"@),
        spec_uint_field(ms, "attacker_vehicle_id"@, u16::MAX as u64),
        spec_uint_field(ms, "attacker_weapon_id"@, u32::MAX as u64),
        spec_uint_field(ms, "character_id"@, u64::MAX),
        spec_uint_field(ms, "facility_id"@, u32::MAX as u64),
        spec_faction_field(ms, "faction_id"@),
        spec_timestamp_field(ms, "timestamp"@),
        spec_uint_field(ms, "vehicle_id"@, u16::MAX as u64),
        spec_world_field(ms, "world_id"@),
        spec_uint_field(ms, "zone_id"@, u32::MAX as u64),
    ) {
        (Ok(ac), Ok(al), Ok(av), Ok(aw), Ok(c), Ok(fc), Ok(fa), Ok(t), Ok(v), Ok(w), Ok(z)) => Ok(
            EventView::VehicleDestroy(
                VehicleDestroy {
                    attacker_character_id: ac,
                    attacker_loadout_id: al,
                    attacker_vehicle_id: av as u16,
                    attacker_weapon_id: aw as u32,
                    character_id: c,
                    facility_id: fc as u32,
                    faction_id: fa,
                    timestamp: t,
                    vehicle_id: v as u16,
                    world_id: w,
                    zone_id: z as u32,
                },
            ),
        ),
        (Err(e), ..) => Err(e),
        (_, Err(e), ..) => Err(e),
        (_, _, Err(e), ..) => Err(e),
        (_, _, _, Err(e), ..) => Err(e),
        (_, _, _, _, Err(e), ..) => Err(e),
        (_, _, _, _, _, Err(e), ..) => Err(e),
        (_, _, _, _, _, _, Err(e), ..) => Err(e),
        (_, _, _, _, _, _, _, Err(e), ..) => Err(e),
        (_, _, _, _, _, _, _, _, Err(e), ..) => Err(e),
        (_, _, _, _, _, _, _, _, _, Err(e), _) => Err(e),
        (_, _, _, _, _, _, _, _, _, _, Err(e)) => Err(e),
    }
}

fn decode_vehicle_destroy(ps: &Vec<(String, JsonValue)>) -> (r: Result<Event, MalformedCause>)
    ensures
        match r {
            Ok(e) => spec_decode_vehicle_destroy(json_view_members(ps@)) == Ok::<
                _,
                MalformedCause,
            >(e@),
            Err(e) => spec_decode_vehicle_destroy(json_view_members(ps@)) == Err::<EventView, _>(
                e,
            ),
        },
{
    let attacker_character_id = uint_field(ps, "attacker_character_id", u64::MAX)?;
    let attacker_loadout_id = loadout_field(ps, "attacker_loadout_id")?;
    let attacker_vehicle_id = uint_field(ps, "attacker_vehicle_id", u16::MAX as u64)? as u16;
    let attacker_weapon_id = uint_field(ps, "attacker_weapon_id", u32::MAX as u64)? as u32;
    let character_id = uint_field(ps, "character_id", u64::MAX)?;
    let facility_id = uint_field(ps, "facility_id", u32::MAX as u64)? as u32;
    let faction_id = faction_field(ps, "faction_id")?;
    let timestamp = timestamp_field(ps, "timestamp")?;
    let vehicle_id = uint_field(ps, "vehicle_id", u16::MAX as u64)? as u16;
    let world_id = world_field(ps, "world_id")?;
    let zone_id = uint_field(ps, "zone_id", u32::MAX as u64)? as u32;
    Ok(
        Event::VehicleDestroy(
            VehicleDestroy {
                attacker_character_id,
                attacker_loadout_id,
                attacker_vehicle_id,
                attacker_weapon_id,
                character_id,
                facility_id,
                faction_id,
                timestamp,
                vehicle_id,
                world_id,
                zone_id,
            },
        ),
    )
}

/// What decoding a gain-experience payload yields.
pub open spec fn spec_decode_gain_experience(ms: Seq<(Seq<char>, JsonSpec)>) -> Result<
    EventView,
    MalformedCause,
> {
    match (
        spec_uint_field(ms, "character_id"@, u64::MAX),
        spec_uint_field(ms, "experience_id"@, u16::MAX as u64),
        spec_loadout_field(ms, "loadout_id"@),
        spec_uint_field(ms, "other_id"@, u64::MAX),
        spec_timestamp_field(ms, "timestamp"@),
        spec_world_field(ms, "world_id"@),
        spec_uint_field(ms, "zone_id"@, u32::MAX as u64),
        spec_uint_field(ms, "amount"@, u16::MAX as u64),
        spec_faction_field(ms, "team_id"@),
    ) {
        (Ok(c), Ok(x), Ok(l), Ok(o), Ok(t), Ok(w), Ok(z), Ok(a), Ok(tm)) => Ok(
            EventView::GainExperience(
                GainExperience {
                    character_id: c,
                    experience_id: x as u16,
                    loadout_id: l,
                    other_id: o,
                    timestamp: t,
                    world_id: w,
                    zone_id: z as u32,
                    amount: a as u16,
                    team_id: tm,
                },
            ),
        ),
        (Err(e), ..) => Err(e),
        (_, Err(e), ..) => Err(e),
        (_, _, Err(e), ..) => Err(e),
        (_, _, _, Err(e), ..) => Err(e),
        (_, _, _, _, Err(e), ..) => Err(e),
        (_, _, _, _, _, Err(e), ..) => Err(e),
        (_, _, _, _, _, _, Err(e), ..) => Err(e),
        (_, _, _, _, _, _, _, Err(e), _) => Err(e),
        (_, _, _, _, _, _, _, _, Err(e)) => Err(e),
    }
}

fn decode_gain_experience(ps: &Vec<(String, JsonValue)>) -> (r: Result<Event, MalformedCause>)
    ensures
        match r {
            Ok(e) => spec_decode_gain_experience(json_view_members(ps@)) == Ok::<
                _,
                MalformedCause,
            >(e@),
            Err(e) => spec_decode_gain_experience(json_view_members(ps@)) == Err::<EventView, _>(
                e,
            ),
        },
{
    let character_id = uint_field(ps, "character_id", u64::MAX)?;
    let experience_id = uint_field(ps, "experience_id", u16::MAX as u64)? as u16;
    let loadout_id = loadout_field(ps, "loadout_id")?;
    let other_id = uint_field(ps, "other_id", u64::MAX)?;
    let timestamp = timestamp_field(ps, "timestamp")?;
    let world_id = world_field(ps, "world_id")?;
    let zone_id = uint_field(ps, "zone_id", u32::MAX as u64)? as u32;
    let amount = uint_field(ps, "amount", u16::MAX as u64)? as u16;
    let team_id = faction_field(ps, "team_id")?;
    Ok(
        Event::GainExperience(
            GainExperience {
                character_id,
                experience_id,
                loadout_id,
                other_id,
                timestamp,
                world_id,
                zone_id,
                amount,
                team_id,
            },
        ),
    )
}

/// What decoding a player-facility-capture payload yields. The outfit
/// identifier travels as a plain wire number.
pub open spec fn spec_decode_player_facility_capture(ms: Seq<(Seq<char>, JsonSpec)>) -> Result<
    EventView,
    MalformedCause,
> {
    match (
        spec_uint_field(ms, "character_id"@, u64::MAX),
        spec_uint_field(ms, "facility_id"@, u32::MAX as u64),
        spec_num_field(ms, "outfit_id"@),
        spec_timestamp_field(ms, "timestamp"@),
        spec_world_field(ms, "world_id"@),
        spec_uint_field(ms, "zone_id"@, u32::MAX as u64),
    ) {
        (Ok(c), Ok(f), Ok(o), Ok(t), Ok(w), Ok(z)) => Ok(
            EventView::PlayerFacilityCapture(
                PlayerFacilityCapture {
                    character_id: c,
                    facility_id: f as u32,
                    outfit_id: o,
                    timestamp: t,
                    world_id: w,
                    zone_id: z as u32,
                },
            ),
        ),
        (Err(e), ..) => Err(e),
        (_, Err(e), ..) => Err(e),
        (_, _, Err(e), ..) => Err(e),
        (_, _, _, Err(e), ..) => Err(e),
        (_, _, _, _, Err(e), _) => Err(e),
        (_, _, _, _, _, Err(e)) => Err(e),
    }
}

fn decode_player_facility_capture(ps: &Vec<(String, JsonValue)>) -> (r: Result<
    Event,
    MalformedCause,
>)
    ensures
        match r {
            Ok(e) => spec_decode_player_facility_capture(json_view_members(ps@)) == Ok::<
                _,
                MalformedCause,
            >(e@),
            Err(e) => spec_decode_player_facility_capture(json_view_members(ps@)) == Err::<
                EventView,
                _,
            >(e),
        },
{
    let character_id = uint_field(ps, "character_id", u64::MAX)?;
    let facility_id = uint_field(ps, "facility_id", u32::MAX as u64)? as u32;
    let outfit_id = num_field(ps, "outfit_id")?;
    let timestamp = timestamp_field(ps, "timestamp")?;
    let world_id = world_field(ps, "world_id")?;
    let zone_id = uint_field(ps, "zone_id", u32::MAX as u64)? as u32;
    Ok(
        Event::PlayerFacilityCapture(
            PlayerFacilityCapture {
                character_id,
                facility_id,
                outfit_id,
                timestamp,
                world_id,
                zone_id,
            },
        ),
    )
}

/// What decoding a player-facility-defend payload yields.
pub open spec fn spec_decode_player_facility_defend(ms: Seq<(Seq<char>, JsonSpec)>) -> Result<
    EventView,
    MalformedCause,
> {
    match (
        spec_uint_field(ms, "character_id"@, u64::MAX),
        spec_uint_field(ms, "facility_id"@, u32::MAX as u64),
        spec_num_field(ms, "outfit_id"@),
        spec_timestamp_field(ms, "timestamp"@),
        spec_world_field(ms, "world_id"@),
        spec_uint_field(ms, "zone_id"@, u32::MAX as u64),
    ) {
        (Ok(c), Ok(f), Ok(o), Ok(t), Ok(w), Ok(z)) => Ok(
            EventView::PlayerFacilityDefend(
                PlayerFacilityDefend {
                    character_id: c,
                    facility_id: f as u32,
                    outfit_id: o,
                    timestamp: t,
                    world_id: w,
                    zone_id: z as u32,
                },
            ),
        ),
        (Err(e), ..) => Err(e),
        (_, Err(e), ..) => Err(e),
        (_, _, Err(e), ..) => Err(e),
        (_, _, _, Err(e), ..) => Err(e),
        (_, _, _, _, Err(e), _) => Err(e),
        (_, _, _, _, _, Err(e)) => Err(e),
    }
}

fn decode_player_facility_defend(ps: &Vec<(String, JsonValue)>) -> (r: Result<
    Event,
    MalformedCause,
>)
    ensures
        match r {
            Ok(e) => spec_decode_player_facility_defend(json_view_members(ps@)) == Ok::<
                _,
                MalformedCause,
            >(e@),
            Err(e) => spec_decode_player_facility_defend(json_view_members(ps@)) == Err::<
                EventView,
                _,
            >(e),
        },
{
    let character_id = uint_field(ps, "character_id", u64::MAX)?;
    let facility_id = uint_field(ps, "facility_id", u32::MAX as u64)? as u32;
    let outfit_id = num_field(ps, "outfit_id")?;
    let timestamp = timestamp_field(ps, "timestamp")?;
    let world_id = world_field(ps, "world_id")?;
    let zone_id = uint_field(ps, "zone_id", u32::MAX as u64)? as u32;
    Ok(
        Event::PlayerFacilityDefend(
            PlayerFacilityDefend {
                character_id,
                facility_id,
                outfit_id,
                timestamp,
                world_id,
                zone_id,
            },
        ),
    )
}

/// What decoding a facility-control payload yields.
pub open spec fn spec_decode_facility_control(ms: Seq<(Seq<char>, JsonSpec)>) -> Result<
    EventView,
    MalformedCause,
> {
    match (
        spec_duration_field(ms, "duration_held"@),
        spec_uint_field(ms, "facility_id"@, u32::MAX as u64),
        spec_faction_field(ms, "new_faction_id"@),
        spec_faction_field(ms, "old_faction_id"@),
        spec_num_field(ms, "outfit_id"@),
        spec_timestamp_field(ms, "timestamp"@),
        spec_world_field(ms, "world_id"@),
        spec_uint_field(ms, "zone_id"@, u32::MAX as u64),
    ) {
        (Ok(d), Ok(f), Ok(nf), Ok(of), Ok(o), Ok(t), Ok(w), Ok(z)) => Ok(
            EventView::FacilityControl(
                FacilityControl {
                    duration_held: d,
                    facility_id: f as u32,
                    new_faction_id: nf,
                    old_faction_id: of,
                    outfit_id: o,
                    timestamp: t,
                    world_id: w,
                    zone_id: z as u32,
                },
            ),
        ),
        (Err(e), ..) => Err(e),
        (_, Err(e), ..) => Err(e),
        (_, _, Err(e), ..) => Err(e),
        (_, _, _, Err(e), ..) => Err(e),
        (_, _, _, _, Err(e), ..) => Err(e),
        (_, _, _, _, _, Err(e), ..) => Err(e),
        (_, _, _, _, _, _, Err(e), _) => Err(e),
        (_, _, _, _, _, _, _, Err(e)) => Err(e),
    }
}

fn decode_facility_control(ps: &Vec<(String, JsonValue)>) -> (r: Result<Event, MalformedCause>)
    ensures
        match r {
            Ok(e) => spec_decode_facility_control(json_view_members(ps@)) == Ok::<
                _,
                MalformedCause,
            >(e@),
            Err(e) => spec_decode_facility_control(json_view_members(ps@)) == Err::<EventView, _>(
                e,
            ),
        },
{
    let duration_held = duration_field(ps, "duration_held")?;
    let facility_id = uint_field(ps, "facility_id", u32::MAX as u64)? as u32;
    let new_faction_id = faction_field(ps, "new_faction_id")?;
    let old_faction_id = faction_field(ps, "old_faction_id")?;
    let outfit_id = num_field(ps, "outfit_id")?;
    let timestamp = timestamp_field(ps, "timestamp")?;
    let world_id = world_field(ps, "world_id")?;
    let zone_id = uint_field(ps, "zone_id", u32::MAX as u64)? as u32;
    Ok(
        Event::FacilityControl(
            FacilityControl {
                duration_held,
                facility_id,
                new_faction_id,
                old_faction_id,
                outfit_id,
                timestamp,
                world_id,
                zone_id,
            },
        ),
    )
}

/// What decoding a continent-lock payload yields.
pub open spec fn spec_decode_continent_lock(ms: Seq<(Seq<char>, JsonSpec)>) -> Result<
    EventView,
    MalformedCause,
> {
    match (
        spec_timestamp_field(ms, "timestamp"@),
        spec_world_field(ms, "world_id"@),
        spec_uint_field(ms, "zone_id"@, u32::MAX as u64),
        spec_faction_field(ms, "triggering_faction"@),
        spec_faction_field(ms, "previous_faction"@),
        spec_uint_field(ms, "vs_population"@, u16::MAX as u64),
        spec_uint_field(ms, "nc_population"@, u16::MAX as u64),
        spec_uint_field(ms, "tr_population"@, u16::MAX as u64),
        spec_uint_field(ms, "metagame_event_id"@, u8::MAX as u64),
    ) {
        (Ok(t), Ok(w), Ok(z), Ok(tf), Ok(pf), Ok(vs), Ok(nc), Ok(tr), Ok(m)) => Ok(
            EventView::ContinentLock(
                ContinentLock {
                    timestamp: t,
                    world_id: w,
                    zone_id: z as u32,
                    triggering_faction: tf,
                    previous_faction: pf,
                    vs_population: vs as u16,
                    nc_population: nc as u16,
                    tr_population: tr as u16,
                    metagame_event_id: m as u8,
                },
            ),
        ),
        (Err(e), ..) => Err(e),
        (_, Err(e), ..) => Err(e),
        (_, _, Err(e), ..) => Err(e),
        (_, _, _, Err(e), ..) => Err(e),
        (_, _, _, _, Err(e), ..) => Err(e),
        (_, _, _, _, _, Err(e), ..) => Err(e),
        (_, _, _, _, _, _, Err(e), ..) => Err(e),
        (_, _, _, _, _, _, _, Err(e), _) => Err(e),
        (_, _, _, _, _, _, _, _, Err(e)) => Err(e),
    }
}

fn decode_continent_lock(ps: &Vec<(String, JsonValue)>) -> (r: Result<Event, MalformedCause>)
    ensures
        match r {
            Ok(e) => spec_decode_continent_lock(json_view_members(ps@)) == Ok::<
                _,
                MalformedCause,
            >(e@),
            Err(e) => spec_decode_continent_lock(json_view_members(ps@)) == Err::<EventView, _>(
                e,
            ),
        },
{
    let timestamp = timestamp_field(ps, "timestamp")?;
    let world_id = world_field(ps, "world_id")?;
    let zone_id = uint_field(ps, "zone_id", u32::MAX as u64)? as u32;
    let triggering_faction = faction_field(ps, "triggering_faction")?;
    let previous_faction = faction_field(ps, "previous_faction")?;
    let vs_population = uint_field(ps, "vs_population", u16::MAX as u64)? as u16;
    let nc_population = uint_field(ps, "nc_population", u16::MAX as u64)? as u16;
    let tr_population = uint_field(ps, "tr_population", u16::MAX as u64)? as u16;
    let metagame_event_id = uint_field(ps, "metagame_event_id", u8::MAX as u64)? as u8;
    Ok(
        Event::ContinentLock(
            ContinentLock {
                timestamp,
                world_id,
                zone_id,
                triggering_faction,
                previous_faction,
                vs_population,
                nc_population,
                tr_population,
                metagame_event_id,
            },
        ),
    )
}

/// What decoding a continent-unlock payload yields.
pub open spec fn spec_decode_continent_unlock(ms: Seq<(Seq<char>, JsonSpec)>) -> Result<
    EventView,
    MalformedCause,
> {
    match (
        spec_timestamp_field(ms, "timestamp"@),
        spec_world_field(ms, "world_id"@),
        spec_uint_field(ms, "zone_id"@, u32::MAX as u64),
        spec_faction_field(ms, "triggering_faction"@),
        spec_faction_field(ms, "previous_faction"@),
        spec_uint_field(ms, "vs_population"@, u16::MAX as u64),
        spec_uint_field(ms, "nc_population"@, u16::MAX as u64),
        spec_uint_field(ms, "tr_population"@, u16::MAX as u64),
        spec_uint_field(ms, "metagame_event_id"@, u8::MAX as u64),
    ) {
        (Ok(t), Ok(w), Ok(z), Ok(tf), Ok(pf), Ok(vs), Ok(nc), Ok(tr), Ok(m)) => Ok(
            EventView::ContinentUnlock(
                ContinentUnlock {
                    timestamp: t,
                    world_id: w,
                    zone_id: z as u32,
                    triggering_faction: tf,
                    previous_faction: pf,
                    vs_population: vs as u16,
                    nc_population: nc as u16,
                    tr_population: tr as u16,
                    metagame_event_id: m as u8,
                },
            ),
        ),
        (Err(e), ..) => Err(e),
        (_, Err(e), ..) => Err(e),
        (_, _, Err(e), ..) => Err(e),
        (_, _, _, Err(e), ..) => Err(e),
        (_, _, _, _, Err(e), ..) => Err(e),
        (_, _, _, _, _, Err(e), ..) => Err(e),
        (_, _, _, _, _, _, Err(e), ..) => Err(e),
        (_, _, _, _, _, _, _, Err(e), _) => Err(e),
        (_, _, _, _, _, _, _, _, Err(e)) => Err(e),
    }
}

fn decode_continent_unlock(ps: &Vec<(String, JsonValue)>) -> (r: Result<Event, MalformedCause>)
    ensures
        match r {
            Ok(e) => spec_decode_continent_unlock(json_view_members(ps@)) == Ok::<
                _,
                MalformedCause,
            >(e@),
            Err(e) => spec_decode_continent_unlock(json_view_members(ps@)) == Err::<EventView, _>(
                e,
            ),
        },
{
    let timestamp = timestamp_field(ps, "timestamp")?;
    let world_id = world_field(ps, "world_id")?;
    let zone_id = uint_field(ps, "zone_id", u32::MAX as u64)? as u32;
    let triggering_faction = faction_field(ps, "triggering_faction")?;
    let previous_faction = faction_field(ps, "previous_faction")?;
    let vs_population = uint_field(ps, "vs_population", u16::MAX as u64)? as u16;
    let nc_population = uint_field(ps, "nc_population", u16::MAX as u64)? as u16;
    let tr_population = uint_field(ps, "tr_population", u16::MAX as u64)? as u16;
    let metagame_event_id = uint_field(ps, "metagame_event_id", u8::MAX as u64)? as u8;
    Ok(
        Event::ContinentUnlock(
            ContinentUnlock {
                timestamp,
                world_id,
                zone_id,
                triggering_faction,
                previous_faction,
                vs_population,
                nc_population,
                tr_population,
                metagame_event_id,
            },
        ),
    )
}

/// What decoding a metagame-event payload yields. The fractional per-faction
/// figures are kept as their wire text.
pub open spec fn spec_decode_metagame_event(ms: Seq<(Seq<char>, JsonSpec)>) -> Result<
    EventView,
    MalformedCause,
> {
    match (
        spec_timestamp_field(ms, "timestamp"@),
        spec_world_field(ms, "world_id"@),
        spec_uint_field(ms, "instance_id"@, u32::MAX as u64),
        spec_string_field(ms, "experience_bonus"@),
        spec_string_field(ms, "faction_nc"@),
        spec_string_field(ms, "faction_tr"@),
        spec_string_field(ms, "faction_vs"@),
        spec_uint_field(ms, "metagame_event_id"@, u8::MAX as u64),
        spec_uint_field(ms, "metagame_event_state"@, u8::MAX as u64),
        spec_string_field(ms, "metagame_event_state_name"@),
        spec_uint_field(ms, "zone_id"@, u32::MAX as u64),
    ) {
        (Ok(t), Ok(w), Ok(i), Ok(xb), Ok(fn_), Ok(ft), Ok(fv), Ok(m), Ok(st), Ok(sn), Ok(z)) => Ok(
            EventView::MetagameEvent(
                MetagameEventView {
                    timestamp: t,
                    world_id: w,
                    instance_id: i as u32,
                    experience_bonus: xb,
                    faction_nc: fn_,
                    faction_tr: ft,
                    faction_vs: fv,
                    metagame_event_id: m as u8,
                    metagame_event_state: st as u8,
                    metagame_event_state_name: sn,
                    zone_id: z as u32,
                },
            ),
        ),
        (Err(e), ..) => Err(e),
        (_, Err(e), ..) => Err(e),
        (_, _, Err(e), ..) => Err(e),
        (_, _, _, Err(e), ..) => Err(e),
        (_, _, _, _, Err(e), ..) => Err(e),
        (_, _, _, _, _, Err(e), ..) => Err(e),
        (_, _, _, _, _, _, Err(e), ..) => Err(e),
        (_, _, _, _, _, _, _, Err(e), ..) => Err(e),
        (_, _, _, _, _, _, _, _, Err(e), ..) => Err(e),
        (_, _, _, _, _, _, _, _, _, Err(e), _) => Err(e),
        (_, _, _, _, _, _, _, _, _, _, Err(e)) => Err(e),
    }
}

fn decode_metagame_event(ps: &Vec<(String, JsonValue)>) -> (r: Result<Event, MalformedCause>)
    ensures
        match r {
            Ok(e) => spec_decode_metagame_event(json_view_members(ps@)) == Ok::<
                _,
                MalformedCause,
            >(e@),
            Err(e) => spec_decode_metagame_event(json_view_members(ps@)) == Err::<EventView, _>(
                e,
            ),
        },
{
    let timestamp = timestamp_field(ps, "timestamp")?;
    let world_id = world_field(ps, "world_id")?;
    let instance_id = uint_field(ps, "instance_id", u32::MAX as u64)? as u32;
    let experience_bonus = string_field(ps, "experience_bonus")?;
    let faction_nc = string_field(ps, "faction_nc")?;
    let faction_tr = string_field(ps, "faction_tr")?;
    let faction_vs = string_field(ps, "faction_vs")?;
    let metagame_event_id = uint_field(ps, "metagame_event_id", u8::MAX as u64)? as u8;
    let metagame_event_state = uint_field(ps, "metagame_event_state", u8::MAX as u64)? as u8;
    let metagame_event_state_name = string_field(ps, "metagame_event_state_name")?;
    let zone_id = uint_field(ps, "zone_id", u32::MAX as u64)? as u32;
    Ok(
        Event::MetagameEvent(
            MetagameEvent {
                timestamp,
                world_id,
                instance_id,
                experience_bonus,
                faction_nc,
                faction_tr,
                faction_vs,
                metagame_event_id,
                metagame_event_state,
                metagame_event_state_name,
                zone_id,
            },
        ),
    )
}

/// What decoding a payload with a known event name yields.
pub open spec fn spec_decode_event_named(ms: Seq<(Seq<char>, JsonSpec)>, name: Seq<char>) -> Result<
    EventView,
    DecodeError,
> {
    if name == "PlayerLogin"@ {
        spec_wrap(spec_decode_player_login(ms))
    } else if name == "PlayerLogout"@ {
        spec_wrap(spec_decode_player_logout(ms))
    } else if name == "Death"@ {
        spec_wrap(spec_decode_death(ms))
    } else if name == "VehicleDestroy"@ {
        spec_wrap(spec_decode_vehicle_destroy(ms))
    } else if name == "GainExperience"@ {
        spec_wrap(spec_decode_gain_experience(ms))
    } else if name == "PlayerFacilityCapture"@ {
        spec_wrap(spec_decode_player_facility_capture(ms))
    } else if name == "PlayerFacilityDefend"@ {
        spec_wrap(spec_decode_player_facility_defend(ms))
    } else if name == "FacilityControl"@ {
        spec_wrap(spec_decode_facility_control(ms))
    } else if name == "ContinentLock"@ {
        spec_wrap(spec_decode_continent_lock(ms))
    } else if name == "ContinentUnlock"@ {
        spec_wrap(spec_decode_continent_unlock(ms))
    } else if name == "MetagameEvent"@ {
        spec_wrap(spec_decode_metagame_event(ms))
    } else if name == "ItemAdded"@ {
        Ok(EventView::ItemAdded)
    } else if name == "AchievementEarned"@ {
        Ok(EventView::AchievementEarned)
    } else if name == "SkillAdded"@ {
        Ok(EventView::SkillAdded)
    } else if name == "BattleRankUp"@ {
        Ok(EventView::BattleRankUp)
    } else {
        Err(DecodeError::UnknownDiscriminator)
    }
}

/// Lifts a payload-shape failure into a decode failure.
pub open spec fn spec_wrap(r: Result<EventView, MalformedCause>) -> Result<
    EventView,
    DecodeError,
> {
    match r {
        Ok(e) => Ok(e),
        Err(c) => Err(DecodeError::MalformedPayload(c)),
    }
}

/// What decoding a service-message payload yields: the payload must be an
/// object carrying an `event_name` string, which picks the event kind; an
/// unknown name is refused as an unknown discriminator rather than decoded
/// to anything.
pub open spec fn spec_decode_event(j: JsonSpec) -> Result<EventView, DecodeError> {
    match j {
        JsonSpec::Obj(ms) => match spec_get(ms, "event_name"@) {
            None => Err(DecodeError::MalformedPayload(MalformedCause::MissingDiscriminator)),
            Some(t) => match t {
                JsonSpec::Str(name) => spec_decode_event_named(ms, name),
                _ => Err(DecodeError::MalformedPayload(MalformedCause::BadDiscriminator)),
            },
        },
        _ => Err(DecodeError::MalformedPayload(MalformedCause::NotAnObject)),
    }
}

/// Decodes a service-message payload into its typed domain event.
pub fn decode_event(payload: &JsonValue) -> (r: Result<Event, DecodeError>)
    ensures
        match r {
            Ok(e) => spec_decode_event(payload@) == Ok::<_, DecodeError>(e@),
            Err(e) => spec_decode_event(payload@) == Err::<EventView, _>(e),
        },
{
    let ps = match payload {
        JsonValue::Obj(ps) => ps,
        _ => {
            return Err(DecodeError::MalformedPayload(MalformedCause::NotAnObject));
        },
    };
    proof {
        assert(payload@->Obj_0 =~= json_view_members(ps@));
    }
    let name = match obj_get(ps, "event_name") {
        Some(v) => match v {
            JsonValue::Str(s) => s,
            _ => {
                return Err(DecodeError::MalformedPayload(MalformedCause::BadDiscriminator));
            },
        },
        None => {
            return Err(DecodeError::MalformedPayload(MalformedCause::MissingDiscriminator));
        },
    };
    let out = if string_eq_str(name, "PlayerLogin") {
        wrap(decode_player_login(ps))
    } else if string_eq_str(name, "PlayerLogout") {
        wrap(decode_player_logout(ps))
    } else if string_eq_str(name, "Death") {
        wrap(decode_death(ps))
    } else if string_eq_str(name, "VehicleDestroy") {
        wrap(decode_vehicle_destroy(ps))
    } else if string_eq_str(name, "GainExperience") {
        wrap(decode_gain_experience(ps))
    } else if string_eq_str(name, "PlayerFacilityCapture") {
        wrap(decode_player_facility_capture(ps))
    } else if string_eq_str(name, "PlayerFacilityDefend") {
        wrap(decode_player_facility_defend(ps))
    } else if string_eq_str(name, "FacilityControl") {
        wrap(decode_facility_control(ps))
    } else if string_eq_str(name, "ContinentLock") {
        wrap(decode_continent_lock(ps))
    } else if string_eq_str(name, "ContinentUnlock") {
        wrap(decode_continent_unlock(ps))
    } else if string_eq_str(name, "MetagameEvent") {
        wrap(decode_metagame_event(ps))
    } else if string_eq_str(name, "ItemAdded") {
        Ok(Event::ItemAdded)
    } else if string_eq_str(name, "AchievementEarned") {
        Ok(Event::AchievementEarned)
    } else if string_eq_str(name, "SkillAdded") {
        Ok(Event::SkillAdded)
    } else if string_eq_str(name, "BattleRankUp") {
        Ok(Event::BattleRankUp)
    } else {
        Err(DecodeError::UnknownDiscriminator)
    };
    out
}

/// Lifts a payload-shape failure into a decode failure.
fn wrap(r: Result<Event, MalformedCause>) -> (out: Result<Event, DecodeError>)
    ensures
        match out {
            Ok(e) => r == Ok::<Event, MalformedCause>(e),
            Err(de) => match r {
                Ok(_) => false,
                Err(c) => de == DecodeError::MalformedPayload(c),
            },
        },
{
    match r {
        Ok(e) => Ok(e),
        Err(c) => Err(DecodeError::MalformedPayload(c)),
    }
}

} // verus!
