//! Consumer-visible domain events and their identifiers: the typed values a
//! decoded service message carries, and the event-name vocabulary used when
//! subscribing.

use crate::constants::{Faction, Loadout, WorldID};
use crate::text::{chars_to_string, push_u64_string, spec_u64_string, str_to_chars};
use crate::{CharacterID, ExperienceID, FacilityID, FiremodeID, OutfitID, VehicleID, WeaponID,
    ZoneID};
use vstd::prelude::*;

verus! {

/// An instant, as whole seconds since the Unix epoch. The wire carries it
/// as a decimal string of seconds; re-serialization reports milliseconds.
#[derive(Copy, Clone, PartialEq, Eq, Structural, Debug, Hash)]
pub struct Timestamp {
    pub epoch_secs: i64,
}

impl Timestamp {
    /// The same instant in milliseconds since the Unix epoch: the unit used
    /// when a timestamp is written back out.
    pub fn epoch_millis(&self) -> (r: i64)
        requires
            -9_223_372_036_854_775 <= self.epoch_secs <= 9_223_372_036_854_775,
        ensures
            r == self.epoch_secs * 1000,
    {
        self.epoch_secs * 1000
    }
}

/// A span of time, as whole seconds. The wire carries it as a decimal
/// string of seconds.
#[derive(Copy, Clone, PartialEq, Eq, Structural, Debug, Hash)]
pub struct DurationSeconds {
    pub secs: i64,
}

/// The name of an event kind, as used in subscriptions. A gain-experience
/// subscription may be narrowed to one experience kind.
#[derive(Copy, Clone, PartialEq, Eq, Structural, Debug, Hash)]
pub enum EventNames {
    AchievementEarned,
    BattleRankUp,
    Death,
    ItemAdded,
    SkillAdded,
    VehicleDestroy,
    GainExperience,
    GainExperienceId(ExperienceID),
    PlayerFacilityCapture,
    PlayerFacilityDefend,
    ContinentLock,
    ContinentUnlock,
    FacilityControl,
    MetagameEvent,
    PlayerLogin,
    PlayerLogout,
}

impl EventNames {
    /// The string under which this event name travels on the wire.
    pub open spec fn spec_wire_name(self) -> Seq<char> {
        match self {
            EventNames::AchievementEarned => "AchievementEarned"@,
            EventNames::BattleRankUp => "BattleRankUp"@,
            EventNames::Death => "Death"@,
            EventNames::ItemAdded => "ItemAdded"@,
            EventNames::SkillAdded => "SkillAdded"@,
            EventNames::VehicleDestroy => "VehicleDestroy"@,
            EventNames::GainExperience => "GainExperience"@,
            EventNames::GainExperienceId(id) => "GainExperience_experience_id_"@
                + spec_u64_string(id as u64),
            EventNames::PlayerFacilityCapture => "PlayerFacilityCapture"@,
            EventNames::PlayerFacilityDefend => "PlayerFacilityDefend"@,
            EventNames::ContinentLock => "ContinentLock"@,
            EventNames::ContinentUnlock => "ContinentUnlock"@,
            EventNames::FacilityControl => "FacilityControl"@,
            EventNames::MetagameEvent => "MetagameEvent"@,
            EventNames::PlayerLogin => "PlayerLogin"@,
            EventNames::PlayerLogout => "PlayerLogout"@,
        }
    }

    /// Renders this event name as its wire string.
    pub fn wire_name(&self) -> (r: String)
        ensures
            r@ == self.spec_wire_name(),
    {
        match self {
            EventNames::AchievementEarned => String::from_str("AchievementEarned"),
            EventNames::BattleRankUp => String::from_str("BattleRankUp"),
            EventNames::Death => String::from_str("Death"),
            EventNames::ItemAdded => String::from_str("ItemAdded"),
            EventNames::SkillAdded => String::from_str("SkillAdded"),
            EventNames::VehicleDestroy => String::from_str("VehicleDestroy"),
            EventNames::GainExperience => String::from_str("GainExperience"),
            EventNames::GainExperienceId(id) => {
                let mut cs = str_to_chars("GainExperience_experience_id_");
                push_u64_string(&mut cs, *id as u64);
                chars_to_string(cs)
            },
            EventNames::PlayerFacilityCapture => String::from_str("PlayerFacilityCapture"),
            EventNames::PlayerFacilityDefend => String::from_str("PlayerFacilityDefend"),
            EventNames::ContinentLock => String::from_str("ContinentLock"),
            EventNames::ContinentUnlock => String::from_str("ContinentUnlock"),
            EventNames::FacilityControl => String::from_str("FacilityControl"),
            EventNames::MetagameEvent => String::from_str("MetagameEvent"),
            EventNames::PlayerLogin => String::from_str("PlayerLogin"),
            EventNames::PlayerLogout => String::from_str("PlayerLogout"),
        }
    }
}

/// A character came online.
#[derive(Copy, Clone, PartialEq, Eq, Structural, Debug, Hash)]
pub struct PlayerLogin {
    pub character_id: CharacterID,
    pub timestamp: Timestamp,
    pub world_id: WorldID,
}

/// A character went offline.
#[derive(Copy, Clone, PartialEq, Eq, Structural, Debug, Hash)]
pub struct PlayerLogout {
    pub character_id: CharacterID,
    pub timestamp: Timestamp,
    pub world_id: WorldID,
}

/// A character was killed.
#[derive(Copy, Clone, PartialEq, Eq, Structural, Debug, Hash)]
pub struct Death {
    pub attacker_character_id: CharacterID,
    pub attacker_fire_mode_id: FiremodeID,
    pub attacker_loadout_id: Loadout,
    pub attacker_vehicle_id: VehicleID,
    pub attacker_weapon_id: WeaponID,
    pub character_id: CharacterID,
    pub character_loadout_id: Loadout,
    pub is_headshot: bool,
    pub timestamp: Timestamp,
    pub vehicle_id: VehicleID,
    pub world_id: WorldID,
    pub zone_id: ZoneID,
}

/// A vehicle was destroyed.
#[derive(Copy, Clone, PartialEq, Eq, Structural, Debug, Hash)]
pub struct VehicleDestroy {
    pub attacker_character_id: CharacterID,
    pub attacker_loadout_id: Loadout,
    pub attacker_vehicle_id: VehicleID,
    pub attacker_weapon_id: WeaponID,
    pub character_id: CharacterID,
    pub facility_id: FacilityID,
    pub faction_id: Faction,
    pub timestamp: Timestamp,
    pub vehicle_id: VehicleID,
    pub world_id: WorldID,
    pub zone_id: ZoneID,
}

/// A character earned experience.
#[derive(Copy, Clone, PartialEq, Eq, Structural, Debug, Hash)]
pub struct GainExperience {
    pub character_id: CharacterID,
    pub experience_id: ExperienceID,
    pub loadout_id: Loadout,
    pub other_id: CharacterID,
    pub timestamp: Timestamp,
    pub world_id: WorldID,
    pub zone_id: ZoneID,
    pub amount: u16,
    pub team_id: Faction,
}

/// A character took part in capturing a facility.
#[derive(Copy, Clone, PartialEq, Eq, Structural, Debug, Hash)]
pub struct PlayerFacilityCapture {
    pub character_id: CharacterID,
    pub facility_id: FacilityID,
    pub outfit_id: OutfitID,
    pub timestamp: Timestamp,
    pub world_id: WorldID,
    pub zone_id: ZoneID,
}

/// A character took part in defending a facility.
#[derive(Copy, Clone, PartialEq, Eq, Structural, Debug, Hash)]
pub struct PlayerFacilityDefend {
    pub character_id: CharacterID,
    pub facility_id: FacilityID,
    pub outfit_id: OutfitID,
    pub timestamp: Timestamp,
    pub world_id: WorldID,
    pub zone_id: ZoneID,
}

/// A facility changed hands.
#[derive(Copy, Clone, PartialEq, Eq, Structural, Debug, Hash)]
pub struct FacilityControl {
    pub duration_held: DurationSeconds,
    pub facility_id: FacilityID,
    pub new_faction_id: Faction,
    pub old_faction_id: Faction,
    pub outfit_id: OutfitID,
    pub timestamp: Timestamp,
    pub world_id: WorldID,
    pub zone_id: ZoneID,
}

/// A continent locked.
#[derive(Copy, Clone, PartialEq, Eq, Structural, Debug, Hash)]
pub struct ContinentLock {
    pub timestamp: Timestamp,
    pub world_id: WorldID,
    pub zone_id: ZoneID,
    pub triggering_faction: Faction,
    pub previous_faction: Faction,
    pub vs_population: u16,
    pub nc_population: u16,
    pub tr_population: u16,
    pub metagame_event_id: u8,
}

/// A continent unlocked.
#[derive(Copy, Clone, PartialEq, Eq, Structural, Debug, Hash)]
pub struct ContinentUnlock {
    pub timestamp: Timestamp,
    pub world_id: WorldID,
    pub zone_id: ZoneID,
    pub triggering_faction: Faction,
    pub previous_faction: Faction,
    pub vs_population: u16,
    pub nc_population: u16,
    pub tr_population: u16,
    pub metagame_event_id: u8,
}

/// An alert (metagame event) changed state. The per-faction figures and the
/// experience bonus arrive as decimal text with a fractional part; they are
/// kept as the wire text.
#[derive(Clone, PartialEq, Debug)]
pub struct MetagameEvent {
    pub timestamp: Timestamp,
    pub world_id: WorldID,
    pub instance_id: u32,
    pub experience_bonus: String,
    pub faction_nc: String,
    pub faction_tr: String,
    pub faction_vs: String,
    pub metagame_event_id: u8,
    pub metagame_event_state: u8,
    pub metagame_event_state_name: String,
    pub zone_id: ZoneID,
}

/// The mathematical value of a [`MetagameEvent`].
pub struct MetagameEventView {
    pub timestamp: Timestamp,
    pub world_id: WorldID,
    pub instance_id: u32,
    pub experience_bonus: Seq<char>,
    pub faction_nc: Seq<char>,
    pub faction_tr: Seq<char>,
    pub faction_vs: Seq<char>,
    pub metagame_event_id: u8,
    pub metagame_event_state: u8,
    pub metagame_event_state_name: Seq<char>,
    pub zone_id: ZoneID,
}

impl View for MetagameEvent {
    type V = MetagameEventView;

    open spec fn view(&self) -> MetagameEventView {
        MetagameEventView {
            timestamp: self.timestamp,
            world_id: self.world_id,
            instance_id: self.instance_id,
            experience_bonus: self.experience_bonus@,
            faction_nc: self.faction_nc@,
            faction_tr: self.faction_tr@,
            faction_vs: self.faction_vs@,
            metagame_event_id: self.metagame_event_id,
            metagame_event_state: self.metagame_event_state,
            metagame_event_state_name: self.metagame_event_state_name@,
            zone_id: self.zone_id,
        }
    }
}

/// A decoded, consumer-visible occurrence.
#[derive(Clone, PartialEq, Debug)]
pub enum Event {
    PlayerLogin(PlayerLogin),
    PlayerLogout(PlayerLogout),
    Death(Death),
    VehicleDestroy(VehicleDestroy),
    GainExperience(GainExperience),
    PlayerFacilityCapture(PlayerFacilityCapture),
    PlayerFacilityDefend(PlayerFacilityDefend),
    ContinentLock(ContinentLock),
    ContinentUnlock(ContinentUnlock),
    FacilityControl(FacilityControl),
    MetagameEvent(MetagameEvent),
    ItemAdded,
    AchievementEarned,
    SkillAdded,
    BattleRankUp,
}

/// The mathematical value of an [`Event`].
pub enum EventView {
    PlayerLogin(PlayerLogin),
    PlayerLogout(PlayerLogout),
    Death(Death),
    VehicleDestroy(VehicleDestroy),
    GainExperience(GainExperience),
    PlayerFacilityCapture(PlayerFacilityCapture),
    PlayerFacilityDefend(PlayerFacilityDefend),
    ContinentLock(ContinentLock),
    ContinentUnlock(ContinentUnlock),
    FacilityControl(FacilityControl),
    MetagameEvent(MetagameEventView),
    ItemAdded,
    AchievementEarned,
    SkillAdded,
    BattleRankUp,
}

impl View for Event {
    type V = EventView;

    open spec fn view(&self) -> EventView {
        match self {
            Event::PlayerLogin(p) => EventView::PlayerLogin(*p),
            Event::PlayerLogout(p) => EventView::PlayerLogout(*p),
            Event::Death(p) => EventView::Death(*p),
            Event::VehicleDestroy(p) => EventView::VehicleDestroy(*p),
            Event::GainExperience(p) => EventView::GainExperience(*p),
            Event::PlayerFacilityCapture(p) => EventView::PlayerFacilityCapture(*p),
            Event::PlayerFacilityDefend(p) => EventView::PlayerFacilityDefend(*p),
            Event::ContinentLock(p) => EventView::ContinentLock(*p),
            Event::ContinentUnlock(p) => EventView::ContinentUnlock(*p),
            Event::FacilityControl(p) => EventView::FacilityControl(*p),
            Event::MetagameEvent(p) => EventView::MetagameEvent(p@),
            Event::ItemAdded => EventView::ItemAdded,
            Event::AchievementEarned => EventView::AchievementEarned,
            Event::SkillAdded => EventView::SkillAdded,
            Event::BattleRankUp => EventView::BattleRankUp,
        }
    }
}

/// The kind name of an event value: the string its variant travels under.
pub open spec fn spec_event_kind_name(e: EventView) -> Seq<char> {
    match e {
        EventView::PlayerLogin(_) => "PlayerLogin"@,
        EventView::PlayerLogout(_) => "PlayerLogout"@,
        EventView::Death(_) => "Death"@,
        EventView::VehicleDestroy(_) => "VehicleDestroy"@,
        EventView::GainExperience(_) => "GainExperience"@,
        EventView::PlayerFacilityCapture(_) => "PlayerFacilityCapture"@,
        EventView::PlayerFacilityDefend(_) => "PlayerFacilityDefend"@,
        EventView::ContinentLock(_) => "ContinentLock"@,
        EventView::ContinentUnlock(_) => "ContinentUnlock"@,
        EventView::FacilityControl(_) => "FacilityControl"@,
        EventView::MetagameEvent(_) => "MetagameEvent"@,
        EventView::ItemAdded => "ItemAdded"@,
        EventView::AchievementEarned => "AchievementEarned"@,
        EventView::SkillAdded => "SkillAdded"@,
        EventView::BattleRankUp => "BattleRankUp"@,
    }
}

impl Event {
    /// The name of this event's kind, as a reader would print it.
    pub fn name(&self) -> (r: String)
        ensures
            r@ == spec_event_kind_name(self@),
    {
        match self {
            Event::PlayerLogin(_) => String::from_str("PlayerLogin"),
            Event::PlayerLogout(_) => String::from_str("PlayerLogout"),
            Event::Death(_) => String::from_str("Death"),
            Event::VehicleDestroy(_) => String::from_str("VehicleDestroy"),
            Event::GainExperience(_) => String::from_str("GainExperience"),
            Event::PlayerFacilityCapture(_) => String::from_str("PlayerFacilityCapture"),
            Event::PlayerFacilityDefend(_) => String::from_str("PlayerFacilityDefend"),
            Event::ContinentLock(_) => String::from_str("ContinentLock"),
            Event::ContinentUnlock(_) => String::from_str("ContinentUnlock"),
            Event::FacilityControl(_) => String::from_str("FacilityControl"),
            Event::MetagameEvent(_) => String::from_str("MetagameEvent"),
            Event::ItemAdded => String::from_str("ItemAdded"),
            Event::AchievementEarned => String::from_str("AchievementEarned"),
            Event::SkillAdded => String::from_str("SkillAdded"),
            Event::BattleRankUp => String::from_str("BattleRankUp"),
        }
    }
}

} // verus!
