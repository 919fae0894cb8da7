//! Client-side logic for the PlanetSide 2 Census platform: the realtime
//! event-stream protocol (wire codec, event decoder, subscription state,
//! connection supervision) and the identifier vocabulary shared with the
//! batch query API.

pub mod api;
pub mod client;
pub mod codec;
pub mod constants;
pub mod decoder;
pub mod error;
pub mod event;
pub mod json;
pub mod json_laws;
pub mod laws;
pub mod subscription;
pub mod text;

pub use constants::{Faction, Loadout, WorldID};

use vstd::prelude::*;

verus! {

/// Identifier of a player character.
pub type CharacterID = u64;

/// Identifier of an outfit (player guild).
pub type OutfitID = u64;

/// Identifier of a zone (continent instance).
pub type ZoneID = u32;

/// Identifier of a capturable facility.
pub type FacilityID = u32;

/// Identifier of an experience-gain kind.
pub type ExperienceID = u16;

/// Identifier of a vehicle model.
pub type VehicleID = u16;

/// Identifier of a weapon.
pub type WeaponID = u32;

/// Identifier of a weapon fire mode.
pub type FiremodeID = u32;

} // verus!
