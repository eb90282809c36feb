//! The worlds (maps) of the game, identified by their World folder number.
//!
//! Each map's identifier is the number of its `WorldN` data folder (for
//! example `Lorencia` is 1, matching `World1/`).

use crate::text::{decimal, parse_u32, parse_u32_spec, push_decimal, str_chars, trim, trim_chars};
use vstd::prelude::*;

verus! {

/// Every world (map) the client knows, named after the game's WorldInfo data.
///
/// [`WorldMap::id`] gives the World folder number of each map.
#[derive(Debug, Clone, Copy, PartialEq, Eq, Hash, Structural)]
pub enum WorldMap {
    /// Placeholder for ID 0 (no World0 folder exists)
    Unk0,
    /// World1: Lorencia - The starting city and main trading hub
    Lorencia,
    /// World2: Dungeon - Underground dungeon with monsters
    Dungeon,
    /// World3: Devias - Ice town
    Devias,
    /// World4: Noria - Fairy town
    Noria,
    /// World5: Lost Tower - Tower dungeon
    LostTower,
    /// World6: Exile
    Exile,
    /// World7: Arena - PvP arena
    Arena,
    /// World8: Atlans - Underwater world
    Atlans,
    /// World9: Tarkan - Desert world
    Tarkan,
    /// World10: Devil Square - Special event dungeon
    DevilSquare,
    /// World11: Icarus - Sky world
    Icarus,
    /// World12: Blood Castle 1
    BloodCastle1,
    /// World13: Blood Castle 2
    BloodCastle2,
    /// World14: Blood Castle 3
    BloodCastle3,
    /// World15: Blood Castle 4
    BloodCastle4,
    /// World16: Blood Castle 5
    BloodCastle5,
    /// World17: Blood Castle 6
    BloodCastle6,
    /// World18: Blood Castle 7
    BloodCastle7,
    /// World19: Chaos Castle 1
    ChaosCastle1,
    /// World20: Chaos Castle 2
    ChaosCastle2,
    /// World21: Chaos Castle 3
    ChaosCastle3,
    /// World22: Chaos Castle 4
    ChaosCastle4,
    /// World23: Chaos Castle 5
    ChaosCastle5,
    /// World24: Chaos Castle 6
    ChaosCastle6,
    /// World25: Kalima 1
    Kalima1,
    /// World26: Kalima 2
    Kalima2,
    /// World27: Kalima 3
    Kalima3,
    /// World28: Kalima 4
    Kalima4,
    /// World29: Kalima 5
    Kalima5,
    /// World30: Kalima 6
    Kalima6,
    /// World31: Valley of Loren - Guild siege warfare area
    ValleyOfLoren,
    /// World32: Land of Trials - Monster hunting area
    LandOfTrials,
    /// World33: Devil Square 2
    DevilSquare2,
    /// World34: Aida
    Aida,
    /// World35: Crywolf - Special event map
    Crywolf,
    /// World37: Kalima 7
    Kalima7,
    /// World38: Kanturu - Main area
    Kanturu,
    /// World39: Kanturu Remain
    KanturuRemain,
    /// World40: Refine Tower
    RefineTower,
    /// World41: Silent Map - GM/special area
    SilentMap,
    /// World42: Balgass Barracks - 3rd class change quest
    BalgassBarracks,
    /// World43: Balgass Refuge - 3rd class change quest
    BalgassRefuge,
    /// World46: Illusion Temple 1
    IllusionTemple1,
    /// World47: Illusion Temple 2
    IllusionTemple2,
    /// World48: Illusion Temple 3
    IllusionTemple3,
    /// World49: Illusion Temple 4
    IllusionTemple4,
    /// World50: Illusion Temple 5
    IllusionTemple5,
    /// World51: Elbeland 2
    Elbeland2,
    /// World52: Elbeland - Home for Summoner class
    Elbeland,
    /// World53: Blood Castle 8 (Master Level)
    BloodCastle8,
    /// World54: Chaos Castle 7 (Master Level)
    ChaosCastle7,
    /// World55: Character selection/creation screen
    CharacterScene,
    /// World56: Login scene background
    LoginScene,
    /// World57: Swamp of Peace
    SwampOfPeace,
    /// World58: Raklion
    Raklion,
    /// World59: Raklion Boss area
    RaklionBoss,
    /// World63: Santa Village - Christmas event map
    SantaVillage,
    /// World64: Vulcanus - PK/PvP area
    Vulcanus,
    /// World65: Duel Arena - PvP tournament arena
    DuelArena,
    /// World66: Doppelganger Ice Zone
    DoppelgangerIceZone,
    /// World67: Doppelganger Blaze Zone
    DoppelgangerBlazeZone,
    /// World68: Doppelganger Underwater
    DoppelgangerUnderwater,
    /// World69: Doppelganger Crystal Cave
    DoppelgangerCrystalCave,
    /// World70: Imperial Guardian 4
    ImperialGuardian4,
    /// World71: Imperial Guardian 3
    ImperialGuardian3,
    /// World72: Imperial Guardian 2
    ImperialGuardian2,
    /// World73: Imperial Guardian 1
    ImperialGuardian1,
    /// World74: New login scene (version 1)
    NewLoginScene1,
    /// World75: Event Square
    EventSquare,
    /// World78: New login scene (version 2)
    NewLoginScene2,
    /// World79: New character selection screen (version 2)
    NewCharacterScene2,
    /// World80: Loren Market
    LorenMarket,
    /// World81: Karutan 1
    Karutan1,
    /// World82: Karutan 2
    Karutan2,
    /// World83: Doppelganger Renewal
    DoppelgangerRenewal,
    /// World84: New Arena
    NewArena,
    /// World92: Acheron
    Acheron,
    /// World93: Acheron 2
    Acheron2,
    /// World94: Uruk Mountain 3
    UrukMountain3,
    /// World95: Uruk Mountain 2
    UrukMountain2,
    /// World96: Debenter
    Debenter,
    /// World97: Debenter Arca Battle
    DebenterArcaBattle,
    /// World99: Illusion Temple League
    IllusionTempleLeague,
    /// World100: Illusion Temple League 2
    IllusionTempleLeague2,
    /// World101: Uruk Mountain
    UrukMountain,
    /// World103: Tormented Square
    TormentedSquare,
    /// World111: Nars
    Nars,
    /// World113: Ferea
    Ferea,
    /// World114: Nixies Lake
    NixiesLake,
    /// World115: Loren Market (Season 6 version)
    LorenMarketS6,
    /// World117: Deep Dungeon 1
    DeepDungeon1,
    /// World118: Deep Dungeon 2
    DeepDungeon2,
    /// World119: Deep Dungeon 3
    DeepDungeon3,
    /// World120: Deep Dungeon 4
    DeepDungeon4,
    /// World121: Deep Dungeon 5
    DeepDungeon5,
    /// World122: Place of Qualification
    PlaceOfQualification,
    /// World123: Swamp of Darkness
    SwampOfDarkness,
    /// World124: Kubera Mine
    KuberaMine1,
    /// World125: Kubera Mine 2
    KuberaMine2,
    /// World129: Abyss of Atlans
    AbyssOfAtlans,
    /// World130: Abyss of Atlans 2
    AbyssOfAtlans2,
    /// World131: Abyss of Atlans 3
    AbyssOfAtlans3,
    /// World132: Scorched Tunnels
    ScorchedTunnels,
    /// World133: Red Smoke Icarus
    RedSmokeIcarus,
    /// World134: Temple of Arnil
    TempleOfArnil,
    /// World135: Ashen Aida
    AshenAida,
    /// World136: Old Kethotum
    OldKethotum,
    /// World137: Blaze Kethotum
    BlazeKethotum,
    /// World138: Kanturu Undergrounds
    KanturuUndergrounds,
    /// World139: Ignis Volcano
    IgnisVolcano,
    /// World140: Boss Battle Zone
    BossBattleZone,
    /// World141: Bloody Tarkan
    BloodyTarkan,
    /// World142: Tormenta Island
    TormentaIsland,
    /// World143: Doppelganger Ice Zone (New)
    DoppelgangerIceZoneNew,
}

/// `r` is the result of looking up World folder number `id`: the map with
/// that number, or `None` when no map has it.
pub open spec fn is_lookup_by_id(id: u8, r: Option<WorldMap>) -> bool {
    match r {
        Some(map) => map.spec_id() == id,
        None => forall|map: WorldMap| #[trigger] map.spec_id() != id,
    }
}

impl WorldMap {
    /// The World folder number of this map.
    pub open spec fn spec_id(self) -> u8 {
        match self {
            WorldMap::Unk0 => 0,
            WorldMap::Lorencia => 1,
            WorldMap::Dungeon => 2,
            WorldMap::Devias => 3,
            WorldMap::Noria => 4,
            WorldMap::LostTower => 5,
            WorldMap::Exile => 6,
            WorldMap::Arena => 7,
            WorldMap::Atlans => 8,
            WorldMap::Tarkan => 9,
            WorldMap::DevilSquare => 10,
            WorldMap::Icarus => 11,
            WorldMap::BloodCastle1 => 12,
            WorldMap::BloodCastle2 => 13,
            WorldMap::BloodCastle3 => 14,
            WorldMap::BloodCastle4 => 15,
            WorldMap::BloodCastle5 => 16,
            WorldMap::BloodCastle6 => 17,
            WorldMap::BloodCastle7 => 18,
            WorldMap::ChaosCastle1 => 19,
            WorldMap::ChaosCastle2 => 20,
            WorldMap::ChaosCastle3 => 21,
            WorldMap::ChaosCastle4 => 22,
            WorldMap::ChaosCastle5 => 23,
            WorldMap::ChaosCastle6 => 24,
            WorldMap::Kalima1 => 25,
            WorldMap::Kalima2 => 26,
            WorldMap::Kalima3 => 27,
            WorldMap::Kalima4 => 28,
            WorldMap::Kalima5 => 29,
            WorldMap::Kalima6 => 30,
            WorldMap::ValleyOfLoren => 31,
            WorldMap::LandOfTrials => 32,
            WorldMap::DevilSquare2 => 33,
            WorldMap::Aida => 34,
            WorldMap::Crywolf => 35,
            WorldMap::Kalima7 => 37,
            WorldMap::Kanturu => 38,
            WorldMap::KanturuRemain => 39,
            WorldMap::RefineTower => 40,
            WorldMap::SilentMap => 41,
            WorldMap::BalgassBarracks => 42,
            WorldMap::BalgassRefuge => 43,
            WorldMap::IllusionTemple1 => 46,
            WorldMap::IllusionTemple2 => 47,
            WorldMap::IllusionTemple3 => 48,
            WorldMap::IllusionTemple4 => 49,
            WorldMap::IllusionTemple5 => 50,
            WorldMap::Elbeland2 => 51,
            WorldMap::Elbeland => 52,
            WorldMap::BloodCastle8 => 53,
            WorldMap::ChaosCastle7 => 54,
            WorldMap::CharacterScene => 55,
            WorldMap::LoginScene => 56,
            WorldMap::SwampOfPeace => 57,
            WorldMap::Raklion => 58,
            WorldMap::RaklionBoss => 59,
            WorldMap::SantaVillage => 63,
            WorldMap::Vulcanus => 64,
            WorldMap::DuelArena => 65,
            WorldMap::DoppelgangerIceZone => 66,
            WorldMap::DoppelgangerBlazeZone => 67,
            WorldMap::DoppelgangerUnderwater => 68,
            WorldMap::DoppelgangerCrystalCave => 69,
            WorldMap::ImperialGuardian4 => 70,
            WorldMap::ImperialGuardian3 => 71,
            WorldMap::ImperialGuardian2 => 72,
            WorldMap::ImperialGuardian1 => 73,
            WorldMap::NewLoginScene1 => 74,
            WorldMap::EventSquare => 75,
            WorldMap::NewLoginScene2 => 78,
            WorldMap::NewCharacterScene2 => 79,
            WorldMap::LorenMarket => 80,
            WorldMap::Karutan1 => 81,
            WorldMap::Karutan2 => 82,
            WorldMap::DoppelgangerRenewal => 83,
            WorldMap::NewArena => 84,
            WorldMap::Acheron => 92,
            WorldMap::Acheron2 => 93,
            WorldMap::UrukMountain3 => 94,
            WorldMap::UrukMountain2 => 95,
            WorldMap::Debenter => 96,
            WorldMap::DebenterArcaBattle => 97,
            WorldMap::IllusionTempleLeague => 99,
            WorldMap::IllusionTempleLeague2 => 100,
            WorldMap::UrukMountain => 101,
            WorldMap::TormentedSquare => 103,
            WorldMap::Nars => 111,
            WorldMap::Ferea => 113,
            WorldMap::NixiesLake => 114,
            WorldMap::LorenMarketS6 => 115,
            WorldMap::DeepDungeon1 => 117,
            WorldMap::DeepDungeon2 => 118,
            WorldMap::DeepDungeon3 => 119,
            WorldMap::DeepDungeon4 => 120,
            WorldMap::DeepDungeon5 => 121,
            WorldMap::PlaceOfQualification => 122,
            WorldMap::SwampOfDarkness => 123,
            WorldMap::KuberaMine1 => 124,
            WorldMap::KuberaMine2 => 125,
            WorldMap::AbyssOfAtlans => 129,
            WorldMap::AbyssOfAtlans2 => 130,
            WorldMap::AbyssOfAtlans3 => 131,
            WorldMap::ScorchedTunnels => 132,
            WorldMap::RedSmokeIcarus => 133,
            WorldMap::TempleOfArnil => 134,
            WorldMap::AshenAida => 135,
            WorldMap::OldKethotum => 136,
            WorldMap::BlazeKethotum => 137,
            WorldMap::KanturuUndergrounds => 138,
            WorldMap::IgnisVolcano => 139,
            WorldMap::BossBattleZone => 140,
            WorldMap::BloodyTarkan => 141,
            WorldMap::TormentaIsland => 142,
            WorldMap::DoppelgangerIceZoneNew => 143,
        }
    }

    /// The human-readable name of this map.
    pub open spec fn spec_name(self) -> Seq<char> {
        match self {
            WorldMap::Unk0 => "Unknown"@,
            WorldMap::Lorencia => "Lorencia"@,
            WorldMap::Dungeon => "Dungeon"@,
            WorldMap::Devias => "Devias"@,
            WorldMap::Noria => "Noria"@,
            WorldMap::LostTower => "Lost Tower"@,
            WorldMap::Exile => "Exile"@,
            WorldMap::Arena => "Arena"@,
            WorldMap::Atlans => "Atlans"@,
            WorldMap::Tarkan => "Tarkan"@,
            WorldMap::DevilSquare => "Devil Square"@,
            WorldMap::Icarus => "Icarus"@,
            WorldMap::BloodCastle1 => "Blood Castle 1"@,
            WorldMap::BloodCastle2 => "Blood Castle 2"@,
            WorldMap::BloodCastle3 => "Blood Castle 3"@,
            WorldMap::BloodCastle4 => "Blood Castle 4"@,
            WorldMap::BloodCastle5 => "Blood Castle 5"@,
            WorldMap::BloodCastle6 => "Blood Castle 6"@,
            WorldMap::BloodCastle7 => "Blood Castle 7"@,
            WorldMap::ChaosCastle1 => "Chaos Castle 1"@,
            WorldMap::ChaosCastle2 => "Chaos Castle 2"@,
            WorldMap::ChaosCastle3 => "Chaos Castle 3"@,
            WorldMap::ChaosCastle4 => "Chaos Castle 4"@,
            WorldMap::ChaosCastle5 => "Chaos Castle 5"@,
            WorldMap::ChaosCastle6 => "Chaos Castle 6"@,
            WorldMap::Kalima1 => "Kalima 1"@,
            WorldMap::Kalima2 => "Kalima 2"@,
            WorldMap::Kalima3 => "Kalima 3"@,
            WorldMap::Kalima4 => "Kalima 4"@,
            WorldMap::Kalima5 => "Kalima 5"@,
            WorldMap::Kalima6 => "Kalima 6"@,
            WorldMap::ValleyOfLoren => "Valley of Loren"@,
            WorldMap::LandOfTrials => "Land of Trials"@,
            WorldMap::DevilSquare2 => "Devil Square 2"@,
            WorldMap::Aida => "Aida"@,
            WorldMap::Crywolf => "Crywolf"@,
            WorldMap::Kalima7 => "Kalima 7"@,
            WorldMap::Kanturu => "Kanturu"@,
            WorldMap::KanturuRemain => "Kanturu Remain"@,
            WorldMap::RefineTower => "Refine Tower"@,
            WorldMap::SilentMap => "Silent Map"@,
            WorldMap::BalgassBarracks => "Balgass Barracks"@,
            WorldMap::BalgassRefuge => "Balgass Refuge"@,
            WorldMap::IllusionTemple1 => "Illusion Temple 1"@,
            WorldMap::IllusionTemple2 => "Illusion Temple 2"@,
            WorldMap::IllusionTemple3 => "Illusion Temple 3"@,
            WorldMap::IllusionTemple4 => "Illusion Temple 4"@,
            WorldMap::IllusionTemple5 => "Illusion Temple 5"@,
            WorldMap::Elbeland2 => "Elbeland 2"@,
            WorldMap::Elbeland => "Elbeland"@,
            WorldMap::BloodCastle8 => "Blood Castle 8"@,
            WorldMap::ChaosCastle7 => "Chaos Castle 7"@,
            WorldMap::CharacterScene => "Character Selection"@,
            WorldMap::LoginScene => "Login Scene"@,
            WorldMap::SwampOfPeace => "Swamp of Peace"@,
            WorldMap::Raklion => "Raklion"@,
            WorldMap::RaklionBoss => "Raklion Boss"@,
            WorldMap::SantaVillage => "Santa Village"@,
            WorldMap::Vulcanus => "Vulcanus"@,
            WorldMap::DuelArena => "Duel Arena"@,
            WorldMap::DoppelgangerIceZone => "Doppelganger Ice Zone"@,
            WorldMap::DoppelgangerBlazeZone => "Doppelganger Blaze Zone"@,
            WorldMap::DoppelgangerUnderwater => "Doppelganger Underwater"@,
            WorldMap::DoppelgangerCrystalCave => "Doppelganger Crystal Cave"@,
            WorldMap::ImperialGuardian4 => "Imperial Guardian 4"@,
            WorldMap::ImperialGuardian3 => "Imperial Guardian 3"@,
            WorldMap::ImperialGuardian2 => "Imperial Guardian 2"@,
            WorldMap::ImperialGuardian1 => "Imperial Guardian 1"@,
            WorldMap::NewLoginScene1 => "New Login Scene 1"@,
            WorldMap::EventSquare => "Event Square"@,
            WorldMap::NewLoginScene2 => "New Login Scene 2"@,
            WorldMap::NewCharacterScene2 => "New Character Scene 2"@,
            WorldMap::LorenMarket => "Loren Market"@,
            WorldMap::Karutan1 => "Karutan 1"@,
            WorldMap::Karutan2 => "Karutan 2"@,
            WorldMap::DoppelgangerRenewal => "Doppelganger Renewal"@,
            WorldMap::NewArena => "New Arena"@,
            WorldMap::Acheron => "Acheron"@,
            WorldMap::Acheron2 => "Acheron 2"@,
            WorldMap::UrukMountain3 => "Uruk Mountain 3"@,
            WorldMap::UrukMountain2 => "Uruk Mountain 2"@,
            WorldMap::Debenter => "Debenter"@,
            WorldMap::DebenterArcaBattle => "Debenter Arca Battle"@,
            WorldMap::IllusionTempleLeague => "Illusion Temple League"@,
            WorldMap::IllusionTempleLeague2 => "Illusion Temple League 2"@,
            WorldMap::UrukMountain => "Uruk Mountain"@,
            WorldMap::TormentedSquare => "Tormented Square"@,
            WorldMap::Nars => "Nars"@,
            WorldMap::Ferea => "Ferea"@,
            WorldMap::NixiesLake => "Nixies Lake"@,
            WorldMap::LorenMarketS6 => "Loren Market"@,
            WorldMap::DeepDungeon1 => "Deep Dungeon 1"@,
            WorldMap::DeepDungeon2 => "Deep Dungeon 2"@,
            WorldMap::DeepDungeon3 => "Deep Dungeon 3"@,
            WorldMap::DeepDungeon4 => "Deep Dungeon 4"@,
            WorldMap::DeepDungeon5 => "Deep Dungeon 5"@,
            WorldMap::PlaceOfQualification => "Place of Qualification"@,
            WorldMap::SwampOfDarkness => "Swamp of Darkness"@,
            WorldMap::KuberaMine1 => "Kubera Mine"@,
            WorldMap::KuberaMine2 => "Kubera Mine 2"@,
            WorldMap::AbyssOfAtlans => "Abyss of Atlans"@,
            WorldMap::AbyssOfAtlans2 => "Abyss of Atlans 2"@,
            WorldMap::AbyssOfAtlans3 => "Abyss of Atlans 3"@,
            WorldMap::ScorchedTunnels => "Scorched Tunnels"@,
            WorldMap::RedSmokeIcarus => "Red Smoke Icarus"@,
            WorldMap::TempleOfArnil => "Temple of Arnil"@,
            WorldMap::AshenAida => "Ashen Aida"@,
            WorldMap::OldKethotum => "Old Kethotum"@,
            WorldMap::BlazeKethotum => "Blaze Kethotum"@,
            WorldMap::KanturuUndergrounds => "Kanturu Undergrounds"@,
            WorldMap::IgnisVolcano => "Ignis Volcano"@,
            WorldMap::BossBattleZone => "Boss Battle Zone"@,
            WorldMap::BloodyTarkan => "Bloody Tarkan"@,
            WorldMap::TormentaIsland => "Tormenta Island"@,
            WorldMap::DoppelgangerIceZoneNew => "Doppelganger Ice Zone (New)"@,
        }
    }

    /// Login and character-selection scenes.
    pub open spec fn spec_is_login_scene(self) -> bool {
        self == WorldMap::LoginScene
            || self == WorldMap::CharacterScene
            || self == WorldMap::NewLoginScene1
            || self == WorldMap::NewLoginScene2
            || self == WorldMap::NewCharacterScene2
    }

    /// Areas where players may fight each other.
    pub open spec fn spec_is_pvp_area(self) -> bool {
        self == WorldMap::Arena
            || self == WorldMap::Vulcanus
            || self == WorldMap::DuelArena
            || self == WorldMap::DevilSquare
            || self == WorldMap::NewArena
    }

    /// Timed event dungeons (castles, temples, doppelganger zones and the like).
    pub open spec fn spec_is_event_dungeon(self) -> bool {
        self == WorldMap::BloodCastle1
            || self == WorldMap::BloodCastle2
            || self == WorldMap::BloodCastle3
            || self == WorldMap::BloodCastle4
            || self == WorldMap::BloodCastle5
            || self == WorldMap::BloodCastle6
            || self == WorldMap::BloodCastle7
            || self == WorldMap::BloodCastle8
            || self == WorldMap::ChaosCastle1
            || self == WorldMap::ChaosCastle2
            || self == WorldMap::ChaosCastle3
            || self == WorldMap::ChaosCastle4
            || self == WorldMap::ChaosCastle5
            || self == WorldMap::ChaosCastle6
            || self == WorldMap::ChaosCastle7
            || self == WorldMap::DevilSquare
            || self == WorldMap::DevilSquare2
            || self == WorldMap::Crywolf
            || self == WorldMap::Kanturu
            || self == WorldMap::KanturuRemain
            || self == WorldMap::RefineTower
            || self == WorldMap::IllusionTemple1
            || self == WorldMap::IllusionTemple2
            || self == WorldMap::IllusionTemple3
            || self == WorldMap::IllusionTemple4
            || self == WorldMap::IllusionTemple5
            || self == WorldMap::IllusionTempleLeague
            || self == WorldMap::IllusionTempleLeague2
            || self == WorldMap::DoppelgangerIceZone
            || self == WorldMap::DoppelgangerBlazeZone
            || self == WorldMap::DoppelgangerUnderwater
            || self == WorldMap::DoppelgangerCrystalCave
            || self == WorldMap::DoppelgangerRenewal
            || self == WorldMap::DoppelgangerIceZoneNew
            || self == WorldMap::ImperialGuardian1
            || self == WorldMap::ImperialGuardian2
            || self == WorldMap::ImperialGuardian3
            || self == WorldMap::ImperialGuardian4
            || self == WorldMap::TormentedSquare
            || self == WorldMap::BossBattleZone
    }

    /// Returns the World folder number of this map (e.g. 1 for `World1`).
    pub fn id(&self) -> (r: u8)
        ensures
            r == self.spec_id(),
    {
        match self {
            WorldMap::Unk0 => 0,
            WorldMap::Lorencia => 1,
            WorldMap::Dungeon => 2,
            WorldMap::Devias => 3,
            WorldMap::Noria => 4,
            WorldMap::LostTower => 5,
            WorldMap::Exile => 6,
            WorldMap::Arena => 7,
            WorldMap::Atlans => 8,
            WorldMap::Tarkan => 9,
            WorldMap::DevilSquare => 10,
            WorldMap::Icarus => 11,
            WorldMap::BloodCastle1 => 12,
            WorldMap::BloodCastle2 => 13,
            WorldMap::BloodCastle3 => 14,
            WorldMap::BloodCastle4 => 15,
            WorldMap::BloodCastle5 => 16,
            WorldMap::BloodCastle6 => 17,
            WorldMap::BloodCastle7 => 18,
            WorldMap::ChaosCastle1 => 19,
            WorldMap::ChaosCastle2 => 20,
            WorldMap::ChaosCastle3 => 21,
            WorldMap::ChaosCastle4 => 22,
            WorldMap::ChaosCastle5 => 23,
            WorldMap::ChaosCastle6 => 24,
            WorldMap::Kalima1 => 25,
            WorldMap::Kalima2 => 26,
            WorldMap::Kalima3 => 27,
            WorldMap::Kalima4 => 28,
            WorldMap::Kalima5 => 29,
            WorldMap::Kalima6 => 30,
            WorldMap::ValleyOfLoren => 31,
            WorldMap::LandOfTrials => 32,
            WorldMap::DevilSquare2 => 33,
            WorldMap::Aida => 34,
            WorldMap::Crywolf => 35,
            WorldMap::Kalima7 => 37,
            WorldMap::Kanturu => 38,
            WorldMap::KanturuRemain => 39,
            WorldMap::RefineTower => 40,
            WorldMap::SilentMap => 41,
            WorldMap::BalgassBarracks => 42,
            WorldMap::BalgassRefuge => 43,
            WorldMap::IllusionTemple1 => 46,
            WorldMap::IllusionTemple2 => 47,
            WorldMap::IllusionTemple3 => 48,
            WorldMap::IllusionTemple4 => 49,
            WorldMap::IllusionTemple5 => 50,
            WorldMap::Elbeland2 => 51,
            WorldMap::Elbeland => 52,
            WorldMap::BloodCastle8 => 53,
            WorldMap::ChaosCastle7 => 54,
            WorldMap::CharacterScene => 55,
            WorldMap::LoginScene => 56,
            WorldMap::SwampOfPeace => 57,
            WorldMap::Raklion => 58,
            WorldMap::RaklionBoss => 59,
            WorldMap::SantaVillage => 63,
            WorldMap::Vulcanus => 64,
            WorldMap::DuelArena => 65,
            WorldMap::DoppelgangerIceZone => 66,
            WorldMap::DoppelgangerBlazeZone => 67,
            WorldMap::DoppelgangerUnderwater => 68,
            WorldMap::DoppelgangerCrystalCave => 69,
            WorldMap::ImperialGuardian4 => 70,
            WorldMap::ImperialGuardian3 => 71,
            WorldMap::ImperialGuardian2 => 72,
            WorldMap::ImperialGuardian1 => 73,
            WorldMap::NewLoginScene1 => 74,
            WorldMap::EventSquare => 75,
            WorldMap::NewLoginScene2 => 78,
            WorldMap::NewCharacterScene2 => 79,
            WorldMap::LorenMarket => 80,
            WorldMap::Karutan1 => 81,
            WorldMap::Karutan2 => 82,
            WorldMap::DoppelgangerRenewal => 83,
            WorldMap::NewArena => 84,
            WorldMap::Acheron => 92,
            WorldMap::Acheron2 => 93,
            WorldMap::UrukMountain3 => 94,
            WorldMap::UrukMountain2 => 95,
            WorldMap::Debenter => 96,
            WorldMap::DebenterArcaBattle => 97,
            WorldMap::IllusionTempleLeague => 99,
            WorldMap::IllusionTempleLeague2 => 100,
            WorldMap::UrukMountain => 101,
            WorldMap::TormentedSquare => 103,
            WorldMap::Nars => 111,
            WorldMap::Ferea => 113,
            WorldMap::NixiesLake => 114,
            WorldMap::LorenMarketS6 => 115,
            WorldMap::DeepDungeon1 => 117,
            WorldMap::DeepDungeon2 => 118,
            WorldMap::DeepDungeon3 => 119,
            WorldMap::DeepDungeon4 => 120,
            WorldMap::DeepDungeon5 => 121,
            WorldMap::PlaceOfQualification => 122,
            WorldMap::SwampOfDarkness => 123,
            WorldMap::KuberaMine1 => 124,
            WorldMap::KuberaMine2 => 125,
            WorldMap::AbyssOfAtlans => 129,
            WorldMap::AbyssOfAtlans2 => 130,
            WorldMap::AbyssOfAtlans3 => 131,
            WorldMap::ScorchedTunnels => 132,
            WorldMap::RedSmokeIcarus => 133,
            WorldMap::TempleOfArnil => 134,
            WorldMap::AshenAida => 135,
            WorldMap::OldKethotum => 136,
            WorldMap::BlazeKethotum => 137,
            WorldMap::KanturuUndergrounds => 138,
            WorldMap::IgnisVolcano => 139,
            WorldMap::BossBattleZone => 140,
            WorldMap::BloodyTarkan => 141,
            WorldMap::TormentaIsland => 142,
            WorldMap::DoppelgangerIceZoneNew => 143,
        }
    }

    /// Returns a human-readable name for the world.
    pub fn name(&self) -> (r: &'static str)
        ensures
            r@ == self.spec_name(),
    {
        match self {
            WorldMap::Unk0 => {
                proof { reveal_strlit("Unknown"); }
                "Unknown"
            },
            WorldMap::Lorencia => {
                proof { reveal_strlit("Lorencia"); }
                "Lorencia"
            },
            WorldMap::Dungeon => {
                proof { reveal_strlit("Dungeon"); }
                "Dungeon"
            },
            WorldMap::Devias => {
                proof { reveal_strlit("Devias"); }
                "Devias"
            },
            WorldMap::Noria => {
                proof { reveal_strlit("Noria"); }
                "Noria"
            },
            WorldMap::LostTower => {
                proof { reveal_strlit("Lost Tower"); }
                "Lost Tower"
            },
            WorldMap::Exile => {
                proof { reveal_strlit("Exile"); }
                "Exile"
            },
            WorldMap::Arena => {
                proof { reveal_strlit("Arena"); }
                "Arena"
            },
            WorldMap::Atlans => {
                proof { reveal_strlit("Atlans"); }
                "Atlans"
            },
            WorldMap::Tarkan => {
                proof { reveal_strlit("Tarkan"); }
                "Tarkan"
            },
            WorldMap::DevilSquare => {
                proof { reveal_strlit("Devil Square"); }
                "Devil Square"
            },
            WorldMap::Icarus => {
                proof { reveal_strlit("Icarus"); }
                "Icarus"
            },
            WorldMap::BloodCastle1 => {
                proof { reveal_strlit("Blood Castle 1"); }
                "Blood Castle 1"
            },
            WorldMap::BloodCastle2 => {
                proof { reveal_strlit("Blood Castle 2"); }
                "Blood Castle 2"
            },
            WorldMap::BloodCastle3 => {
                proof { reveal_strlit("Blood Castle 3"); }
                "Blood Castle 3"
            },
            WorldMap::BloodCastle4 => {
                proof { reveal_strlit("Blood Castle 4"); }
                "Blood Castle 4"
            },
            WorldMap::BloodCastle5 => {
                proof { reveal_strlit("Blood Castle 5"); }
                "Blood Castle 5"
            },
            WorldMap::BloodCastle6 => {
                proof { reveal_strlit("Blood Castle 6"); }
                "Blood Castle 6"
            },
            WorldMap::BloodCastle7 => {
                proof { reveal_strlit("Blood Castle 7"); }
                "Blood Castle 7"
            },
            WorldMap::ChaosCastle1 => {
                proof { reveal_strlit("Chaos Castle 1"); }
                "Chaos Castle 1"
            },
            WorldMap::ChaosCastle2 => {
                proof { reveal_strlit("Chaos Castle 2"); }
                "Chaos Castle 2"
            },
            WorldMap::ChaosCastle3 => {
                proof { reveal_strlit("Chaos Castle 3"); }
                "Chaos Castle 3"
            },
            WorldMap::ChaosCastle4 => {
                proof { reveal_strlit("Chaos Castle 4"); }
                "Chaos Castle 4"
            },
            WorldMap::ChaosCastle5 => {
                proof { reveal_strlit("Chaos Castle 5"); }
                "Chaos Castle 5"
            },
            WorldMap::ChaosCastle6 => {
                proof { reveal_strlit("Chaos Castle 6"); }
                "Chaos Castle 6"
            },
            WorldMap::Kalima1 => {
                proof { reveal_strlit("Kalima 1"); }
                "Kalima 1"
            },
            WorldMap::Kalima2 => {
                proof { reveal_strlit("Kalima 2"); }
                "Kalima 2"
            },
            WorldMap::Kalima3 => {
                proof { reveal_strlit("Kalima 3"); }
                "Kalima 3"
            },
            WorldMap::Kalima4 => {
                proof { reveal_strlit("Kalima 4"); }
                "Kalima 4"
            },
            WorldMap::Kalima5 => {
                proof { reveal_strlit("Kalima 5"); }
                "Kalima 5"
            },
            WorldMap::Kalima6 => {
                proof { reveal_strlit("Kalima 6"); }
                "Kalima 6"
            },
            WorldMap::ValleyOfLoren => {
                proof { reveal_strlit("Valley of Loren"); }
                "Valley of Loren"
            },
            WorldMap::LandOfTrials => {
                proof { reveal_strlit("Land of Trials"); }
                "Land of Trials"
            },
            WorldMap::DevilSquare2 => {
                proof { reveal_strlit("Devil Square 2"); }
                "Devil Square 2"
            },
            WorldMap::Aida => {
                proof { reveal_strlit("Aida"); }
                "Aida"
            },
            WorldMap::Crywolf => {
                proof { reveal_strlit("Crywolf"); }
                "Crywolf"
            },
            WorldMap::Kalima7 => {
                proof { reveal_strlit("Kalima 7"); }
                "Kalima 7"
            },
            WorldMap::Kanturu => {
                proof { reveal_strlit("Kanturu"); }
                "Kanturu"
            },
            WorldMap::KanturuRemain => {
                proof { reveal_strlit("Kanturu Remain"); }
                "Kanturu Remain"
            },
            WorldMap::RefineTower => {
                proof { reveal_strlit("Refine Tower"); }
                "Refine Tower"
            },
            WorldMap::SilentMap => {
                proof { reveal_strlit("Silent Map"); }
                "Silent Map"
            },
            WorldMap::BalgassBarracks => {
                proof { reveal_strlit("Balgass Barracks"); }
                "Balgass Barracks"
            },
            WorldMap::BalgassRefuge => {
                proof { reveal_strlit("Balgass Refuge"); }
                "Balgass Refuge"
            },
            WorldMap::IllusionTemple1 => {
                proof { reveal_strlit("Illusion Temple 1"); }
                "Illusion Temple 1"
            },
            WorldMap::IllusionTemple2 => {
                proof { reveal_strlit("Illusion Temple 2"); }
                "Illusion Temple 2"
            },
            WorldMap::IllusionTemple3 => {
                proof { reveal_strlit("Illusion Temple 3"); }
                "Illusion Temple 3"
            },
            WorldMap::IllusionTemple4 => {
                proof { reveal_strlit("Illusion Temple 4"); }
                "Illusion Temple 4"
            },
            WorldMap::IllusionTemple5 => {
                proof { reveal_strlit("Illusion Temple 5"); }
                "Illusion Temple 5"
            },
            WorldMap::Elbeland2 => {
                proof { reveal_strlit("Elbeland 2"); }
                "Elbeland 2"
            },
            WorldMap::Elbeland => {
                proof { reveal_strlit("Elbeland"); }
                "Elbeland"
            },
            WorldMap::BloodCastle8 => {
                proof { reveal_strlit("Blood Castle 8"); }
                "Blood Castle 8"
            },
            WorldMap::ChaosCastle7 => {
                proof { reveal_strlit("Chaos Castle 7"); }
                "Chaos Castle 7"
            },
            WorldMap::CharacterScene => {
                proof { reveal_strlit("Character Selection"); }
                "Character Selection"
            },
            WorldMap::LoginScene => {
                proof { reveal_strlit("Login Scene"); }
                "Login Scene"
            },
            WorldMap::SwampOfPeace => {
                proof { reveal_strlit("Swamp of Peace"); }
                "Swamp of Peace"
            },
            WorldMap::Raklion => {
                proof { reveal_strlit("Raklion"); }
                "Raklion"
            },
            WorldMap::RaklionBoss => {
                proof { reveal_strlit("Raklion Boss"); }
                "Raklion Boss"
            },
            WorldMap::SantaVillage => {
                proof { reveal_strlit("Santa Village"); }
                "Santa Village"
            },
            WorldMap::Vulcanus => {
                proof { reveal_strlit("Vulcanus"); }
                "Vulcanus"
            },
            WorldMap::DuelArena => {
                proof { reveal_strlit("Duel Arena"); }
                "Duel Arena"
            },
            WorldMap::DoppelgangerIceZone => {
                proof { reveal_strlit("Doppelganger Ice Zone"); }
                "Doppelganger Ice Zone"
            },
            WorldMap::DoppelgangerBlazeZone => {
                proof { reveal_strlit("Doppelganger Blaze Zone"); }
                "Doppelganger Blaze Zone"
            },
            WorldMap::DoppelgangerUnderwater => {
                proof { reveal_strlit("Doppelganger Underwater"); }
                "Doppelganger Underwater"
            },
            WorldMap::DoppelgangerCrystalCave => {
                proof { reveal_strlit("Doppelganger Crystal Cave"); }
                "Doppelganger Crystal Cave"
            },
            WorldMap::ImperialGuardian4 => {
                proof { reveal_strlit("Imperial Guardian 4"); }
                "Imperial Guardian 4"
            },
            WorldMap::ImperialGuardian3 => {
                proof { reveal_strlit("Imperial Guardian 3"); }
                "Imperial Guardian 3"
            },
            WorldMap::ImperialGuardian2 => {
                proof { reveal_strlit("Imperial Guardian 2"); }
                "Imperial Guardian 2"
            },
            WorldMap::ImperialGuardian1 => {
                proof { reveal_strlit("Imperial Guardian 1"); }
                "Imperial Guardian 1"
            },
            WorldMap::NewLoginScene1 => {
                proof { reveal_strlit("New Login Scene 1"); }
                "New Login Scene 1"
            },
            WorldMap::EventSquare => {
                proof { reveal_strlit("Event Square"); }
                "Event Square"
            },
            WorldMap::NewLoginScene2 => {
                proof { reveal_strlit("New Login Scene 2"); }
                "New Login Scene 2"
            },
            WorldMap::NewCharacterScene2 => {
                proof { reveal_strlit("New Character Scene 2"); }
                "New Character Scene 2"
            },
            WorldMap::LorenMarket => {
                proof { reveal_strlit("Loren Market"); }
                "Loren Market"
            },
            WorldMap::Karutan1 => {
                proof { reveal_strlit("Karutan 1"); }
                "Karutan 1"
            },
            WorldMap::Karutan2 => {
                proof { reveal_strlit("Karutan 2"); }
                "Karutan 2"
            },
            WorldMap::DoppelgangerRenewal => {
                proof { reveal_strlit("Doppelganger Renewal"); }
                "Doppelganger Renewal"
            },
            WorldMap::NewArena => {
                proof { reveal_strlit("New Arena"); }
                "New Arena"
            },
            WorldMap::Acheron => {
                proof { reveal_strlit("Acheron"); }
                "Acheron"
            },
            WorldMap::Acheron2 => {
                proof { reveal_strlit("Acheron 2"); }
                "Acheron 2"
            },
            WorldMap::UrukMountain3 => {
                proof { reveal_strlit("Uruk Mountain 3"); }
                "Uruk Mountain 3"
            },
            WorldMap::UrukMountain2 => {
                proof { reveal_strlit("Uruk Mountain 2"); }
                "Uruk Mountain 2"
            },
            WorldMap::Debenter => {
                proof { reveal_strlit("Debenter"); }
                "Debenter"
            },
            WorldMap::DebenterArcaBattle => {
                proof { reveal_strlit("Debenter Arca Battle"); }
                "Debenter Arca Battle"
            },
            WorldMap::IllusionTempleLeague => {
                proof { reveal_strlit("Illusion Temple League"); }
                "Illusion Temple League"
            },
            WorldMap::IllusionTempleLeague2 => {
                proof { reveal_strlit("Illusion Temple League 2"); }
                "Illusion Temple League 2"
            },
            WorldMap::UrukMountain => {
                proof { reveal_strlit("Uruk Mountain"); }
                "Uruk Mountain"
            },
            WorldMap::TormentedSquare => {
                proof { reveal_strlit("Tormented Square"); }
                "Tormented Square"
            },
            WorldMap::Nars => {
                proof { reveal_strlit("Nars"); }
                "Nars"
            },
            WorldMap::Ferea => {
                proof { reveal_strlit("Ferea"); }
                "Ferea"
            },
            WorldMap::NixiesLake => {
                proof { reveal_strlit("Nixies Lake"); }
                "Nixies Lake"
            },
            WorldMap::LorenMarketS6 => {
                proof { reveal_strlit("Loren Market"); }
                "Loren Market"
            },
            WorldMap::DeepDungeon1 => {
                proof { reveal_strlit("Deep Dungeon 1"); }
                "Deep Dungeon 1"
            },
            WorldMap::DeepDungeon2 => {
                proof { reveal_strlit("Deep Dungeon 2"); }
                "Deep Dungeon 2"
            },
            WorldMap::DeepDungeon3 => {
                proof { reveal_strlit("Deep Dungeon 3"); }
                "Deep Dungeon 3"
            },
            WorldMap::DeepDungeon4 => {
                proof { reveal_strlit("Deep Dungeon 4"); }
                "Deep Dungeon 4"
            },
            WorldMap::DeepDungeon5 => {
                proof { reveal_strlit("Deep Dungeon 5"); }
                "Deep Dungeon 5"
            },
            WorldMap::PlaceOfQualification => {
                proof { reveal_strlit("Place of Qualification"); }
                "Place of Qualification"
            },
            WorldMap::SwampOfDarkness => {
                proof { reveal_strlit("Swamp of Darkness"); }
                "Swamp of Darkness"
            },
            WorldMap::KuberaMine1 => {
                proof { reveal_strlit("Kubera Mine"); }
                "Kubera Mine"
            },
            WorldMap::KuberaMine2 => {
                proof { reveal_strlit("Kubera Mine 2"); }
                "Kubera Mine 2"
            },
            WorldMap::AbyssOfAtlans => {
                proof { reveal_strlit("Abyss of Atlans"); }
                "Abyss of Atlans"
            },
            WorldMap::AbyssOfAtlans2 => {
                proof { reveal_strlit("Abyss of Atlans 2"); }
                "Abyss of Atlans 2"
            },
            WorldMap::AbyssOfAtlans3 => {
                proof { reveal_strlit("Abyss of Atlans 3"); }
                "Abyss of Atlans 3"
            },
            WorldMap::ScorchedTunnels => {
                proof { reveal_strlit("Scorched Tunnels"); }
                "Scorched Tunnels"
            },
            WorldMap::RedSmokeIcarus => {
                proof { reveal_strlit("Red Smoke Icarus"); }
                "Red Smoke Icarus"
            },
            WorldMap::TempleOfArnil => {
                proof { reveal_strlit("Temple of Arnil"); }
                "Temple of Arnil"
            },
            WorldMap::AshenAida => {
                proof { reveal_strlit("Ashen Aida"); }
                "Ashen Aida"
            },
            WorldMap::OldKethotum => {
                proof { reveal_strlit("Old Kethotum"); }
                "Old Kethotum"
            },
            WorldMap::BlazeKethotum => {
                proof { reveal_strlit("Blaze Kethotum"); }
                "Blaze Kethotum"
            },
            WorldMap::KanturuUndergrounds => {
                proof { reveal_strlit("Kanturu Undergrounds"); }
                "Kanturu Undergrounds"
            },
            WorldMap::IgnisVolcano => {
                proof { reveal_strlit("Ignis Volcano"); }
                "Ignis Volcano"
            },
            WorldMap::BossBattleZone => {
                proof { reveal_strlit("Boss Battle Zone"); }
                "Boss Battle Zone"
            },
            WorldMap::BloodyTarkan => {
                proof { reveal_strlit("Bloody Tarkan"); }
                "Bloody Tarkan"
            },
            WorldMap::TormentaIsland => {
                proof { reveal_strlit("Tormenta Island"); }
                "Tormenta Island"
            },
            WorldMap::DoppelgangerIceZoneNew => {
                proof { reveal_strlit("Doppelganger Ice Zone (New)"); }
                "Doppelganger Ice Zone (New)"
            },
        }
    }

    /// Returns the World folder name for this map (e.g. "World1" for Lorencia).
    pub fn world_folder(&self) -> (r: String)
        ensures
            r@ == "World"@ + decimal(self.spec_id() as nat),
    {
        let mut folder = String::from_str("World");
        push_decimal(&mut folder, self.id() as u32);
        folder
    }

    /// Returns true if this is a login/character selection scene.
    pub fn is_login_scene(&self) -> (r: bool)
        ensures
            r == self.spec_is_login_scene(),
    {
        matches!(self, WorldMap::LoginScene | WorldMap::CharacterScene | WorldMap::NewLoginScene1 | WorldMap::NewLoginScene2 | WorldMap::NewCharacterScene2)
    }

    /// Returns true if this is a PvP area.
    pub fn is_pvp_area(&self) -> (r: bool)
        ensures
            r == self.spec_is_pvp_area(),
    {
        matches!(self, WorldMap::Arena | WorldMap::Vulcanus | WorldMap::DuelArena | WorldMap::DevilSquare | WorldMap::NewArena)
    }

    /// Returns true if this is a special event dungeon.
    pub fn is_event_dungeon(&self) -> (r: bool)
        ensures
            r == self.spec_is_event_dungeon(),
    {
        matches!(self, WorldMap::BloodCastle1 | WorldMap::BloodCastle2 | WorldMap::BloodCastle3 | WorldMap::BloodCastle4 | WorldMap::BloodCastle5 | WorldMap::BloodCastle6 | WorldMap::BloodCastle7 | WorldMap::BloodCastle8 | WorldMap::ChaosCastle1 | WorldMap::ChaosCastle2 | WorldMap::ChaosCastle3 | WorldMap::ChaosCastle4 | WorldMap::ChaosCastle5 | WorldMap::ChaosCastle6 | WorldMap::ChaosCastle7 | WorldMap::DevilSquare | WorldMap::DevilSquare2 | WorldMap::Crywolf | WorldMap::Kanturu | WorldMap::KanturuRemain | WorldMap::RefineTower | WorldMap::IllusionTemple1 | WorldMap::IllusionTemple2 | WorldMap::IllusionTemple3 | WorldMap::IllusionTemple4 | WorldMap::IllusionTemple5 | WorldMap::IllusionTempleLeague | WorldMap::IllusionTempleLeague2 | WorldMap::DoppelgangerIceZone | WorldMap::DoppelgangerBlazeZone | WorldMap::DoppelgangerUnderwater | WorldMap::DoppelgangerCrystalCave | WorldMap::DoppelgangerRenewal | WorldMap::DoppelgangerIceZoneNew | WorldMap::ImperialGuardian1 | WorldMap::ImperialGuardian2 | WorldMap::ImperialGuardian3 | WorldMap::ImperialGuardian4 | WorldMap::TormentedSquare | WorldMap::BossBattleZone)
    }

    /// The text shown when a map is displayed: its name.
    pub fn to_display_string(&self) -> (r: String)
        ensures
            r@ == self.spec_name(),
    {
        String::from_str(self.name())
    }

    /// Finds the map whose World folder number is `id`, if there is one.
    pub fn from_id(id: u8) -> (r: Option<WorldMap>)
        ensures
            is_lookup_by_id(id, r),
    {
        match id {
            0 => Some(WorldMap::Unk0),
            1 => Some(WorldMap::Lorencia),
            2 => Some(WorldMap::Dungeon),
            3 => Some(WorldMap::Devias),
            4 => Some(WorldMap::Noria),
            5 => Some(WorldMap::LostTower),
            6 => Some(WorldMap::Exile),
            7 => Some(WorldMap::Arena),
            8 => Some(WorldMap::Atlans),
            9 => Some(WorldMap::Tarkan),
            10 => Some(WorldMap::DevilSquare),
            11 => Some(WorldMap::Icarus),
            12 => Some(WorldMap::BloodCastle1),
            13 => Some(WorldMap::BloodCastle2),
            14 => Some(WorldMap::BloodCastle3),
            15 => Some(WorldMap::BloodCastle4),
            16 => Some(WorldMap::BloodCastle5),
            17 => Some(WorldMap::BloodCastle6),
            18 => Some(WorldMap::BloodCastle7),
            19 => Some(WorldMap::ChaosCastle1),
            20 => Some(WorldMap::ChaosCastle2),
            21 => Some(WorldMap::ChaosCastle3),
            22 => Some(WorldMap::ChaosCastle4),
            23 => Some(WorldMap::ChaosCastle5),
            24 => Some(WorldMap::ChaosCastle6),
            25 => Some(WorldMap::Kalima1),
            26 => Some(WorldMap::Kalima2),
            27 => Some(WorldMap::Kalima3),
            28 => Some(WorldMap::Kalima4),
            29 => Some(WorldMap::Kalima5),
            30 => Some(WorldMap::Kalima6),
            31 => Some(WorldMap::ValleyOfLoren),
            32 => Some(WorldMap::LandOfTrials),
            33 => Some(WorldMap::DevilSquare2),
            34 => Some(WorldMap::Aida),
            35 => Some(WorldMap::Crywolf),
            37 => Some(WorldMap::Kalima7),
            38 => Some(WorldMap::Kanturu),
            39 => Some(WorldMap::KanturuRemain),
            40 => Some(WorldMap::RefineTower),
            41 => Some(WorldMap::SilentMap),
            42 => Some(WorldMap::BalgassBarracks),
            43 => Some(WorldMap::BalgassRefuge),
            46 => Some(WorldMap::IllusionTemple1),
            47 => Some(WorldMap::IllusionTemple2),
            48 => Some(WorldMap::IllusionTemple3),
            49 => Some(WorldMap::IllusionTemple4),
            50 => Some(WorldMap::IllusionTemple5),
            51 => Some(WorldMap::Elbeland2),
            52 => Some(WorldMap::Elbeland),
            53 => Some(WorldMap::BloodCastle8),
            54 => Some(WorldMap::ChaosCastle7),
            55 => Some(WorldMap::CharacterScene),
            56 => Some(WorldMap::LoginScene),
            57 => Some(WorldMap::SwampOfPeace),
            58 => Some(WorldMap::Raklion),
            59 => Some(WorldMap::RaklionBoss),
            63 => Some(WorldMap::SantaVillage),
            64 => Some(WorldMap::Vulcanus),
            65 => Some(WorldMap::DuelArena),
            66 => Some(WorldMap::DoppelgangerIceZone),
            67 => Some(WorldMap::DoppelgangerBlazeZone),
            68 => Some(WorldMap::DoppelgangerUnderwater),
            69 => Some(WorldMap::DoppelgangerCrystalCave),
            70 => Some(WorldMap::ImperialGuardian4),
            71 => Some(WorldMap::ImperialGuardian3),
            72 => Some(WorldMap::ImperialGuardian2),
            73 => Some(WorldMap::ImperialGuardian1),
            74 => Some(WorldMap::NewLoginScene1),
            75 => Some(WorldMap::EventSquare),
            78 => Some(WorldMap::NewLoginScene2),
            79 => Some(WorldMap::NewCharacterScene2),
            80 => Some(WorldMap::LorenMarket),
            81 => Some(WorldMap::Karutan1),
            82 => Some(WorldMap::Karutan2),
            83 => Some(WorldMap::DoppelgangerRenewal),
            84 => Some(WorldMap::NewArena),
            92 => Some(WorldMap::Acheron),
            93 => Some(WorldMap::Acheron2),
            94 => Some(WorldMap::UrukMountain3),
            95 => Some(WorldMap::UrukMountain2),
            96 => Some(WorldMap::Debenter),
            97 => Some(WorldMap::DebenterArcaBattle),
            99 => Some(WorldMap::IllusionTempleLeague),
            100 => Some(WorldMap::IllusionTempleLeague2),
            101 => Some(WorldMap::UrukMountain),
            103 => Some(WorldMap::TormentedSquare),
            111 => Some(WorldMap::Nars),
            113 => Some(WorldMap::Ferea),
            114 => Some(WorldMap::NixiesLake),
            115 => Some(WorldMap::LorenMarketS6),
            117 => Some(WorldMap::DeepDungeon1),
            118 => Some(WorldMap::DeepDungeon2),
            119 => Some(WorldMap::DeepDungeon3),
            120 => Some(WorldMap::DeepDungeon4),
            121 => Some(WorldMap::DeepDungeon5),
            122 => Some(WorldMap::PlaceOfQualification),
            123 => Some(WorldMap::SwampOfDarkness),
            124 => Some(WorldMap::KuberaMine1),
            125 => Some(WorldMap::KuberaMine2),
            129 => Some(WorldMap::AbyssOfAtlans),
            130 => Some(WorldMap::AbyssOfAtlans2),
            131 => Some(WorldMap::AbyssOfAtlans3),
            132 => Some(WorldMap::ScorchedTunnels),
            133 => Some(WorldMap::RedSmokeIcarus),
            134 => Some(WorldMap::TempleOfArnil),
            135 => Some(WorldMap::AshenAida),
            136 => Some(WorldMap::OldKethotum),
            137 => Some(WorldMap::BlazeKethotum),
            138 => Some(WorldMap::KanturuUndergrounds),
            139 => Some(WorldMap::IgnisVolcano),
            140 => Some(WorldMap::BossBattleZone),
            141 => Some(WorldMap::BloodyTarkan),
            142 => Some(WorldMap::TormentaIsland),
            143 => Some(WorldMap::DoppelgangerIceZoneNew),
            _ => None,
        }
    }
}

/// Distinct maps have distinct World folder numbers.
pub proof fn lemma_id_injective(a: WorldMap, b: WorldMap)
    requires
        a.spec_id() == b.spec_id(),
    ensures
        a == b,
{
}

/// Looking a map up by its own World folder number finds that map again:
/// whatever satisfies [`WorldMap::from_id`]'s contract for `map.spec_id()`
/// is `Some(map)`.
pub proof fn lemma_from_id_of_id(map: WorldMap, r: Option<WorldMap>)
    requires
        is_lookup_by_id(map.spec_id(), r),
    ensures
        r == Some(map),
{
    if let Some(found) = r {
        lemma_id_injective(found, map);
    }
}


/// The World folder number of every map, from the game data table: each
/// map loads the data folder `World<N>` with the number given here, and
/// [`WorldMap::from_id`] finds the map of each of these numbers.
pub proof fn lemma_world_folder_numbers()
    ensures
        WorldMap::Unk0.spec_id() == 0,
        WorldMap::Lorencia.spec_id() == 1,
        WorldMap::Dungeon.spec_id() == 2,
        WorldMap::Devias.spec_id() == 3,
        WorldMap::Noria.spec_id() == 4,
        WorldMap::LostTower.spec_id() == 5,
        WorldMap::Exile.spec_id() == 6,
        WorldMap::Arena.spec_id() == 7,
        WorldMap::Atlans.spec_id() == 8,
        WorldMap::Tarkan.spec_id() == 9,
        WorldMap::DevilSquare.spec_id() == 10,
        WorldMap::Icarus.spec_id() == 11,
        WorldMap::BloodCastle1.spec_id() == 12,
        WorldMap::BloodCastle2.spec_id() == 13,
        WorldMap::BloodCastle3.spec_id() == 14,
        WorldMap::BloodCastle4.spec_id() == 15,
        WorldMap::BloodCastle5.spec_id() == 16,
        WorldMap::BloodCastle6.spec_id() == 17,
        WorldMap::BloodCastle7.spec_id() == 18,
        WorldMap::ChaosCastle1.spec_id() == 19,
        WorldMap::ChaosCastle2.spec_id() == 20,
        WorldMap::ChaosCastle3.spec_id() == 21,
        WorldMap::ChaosCastle4.spec_id() == 22,
        WorldMap::ChaosCastle5.spec_id() == 23,
        WorldMap::ChaosCastle6.spec_id() == 24,
        WorldMap::Kalima1.spec_id() == 25,
        WorldMap::Kalima2.spec_id() == 26,
        WorldMap::Kalima3.spec_id() == 27,
        WorldMap::Kalima4.spec_id() == 28,
        WorldMap::Kalima5.spec_id() == 29,
        WorldMap::Kalima6.spec_id() == 30,
        WorldMap::ValleyOfLoren.spec_id() == 31,
        WorldMap::LandOfTrials.spec_id() == 32,
        WorldMap::DevilSquare2.spec_id() == 33,
        WorldMap::Aida.spec_id() == 34,
        WorldMap::Crywolf.spec_id() == 35,
        WorldMap::Kalima7.spec_id() == 37,
        WorldMap::Kanturu.spec_id() == 38,
        WorldMap::KanturuRemain.spec_id() == 39,
        WorldMap::RefineTower.spec_id() == 40,
        WorldMap::SilentMap.spec_id() == 41,
        WorldMap::BalgassBarracks.spec_id() == 42,
        WorldMap::BalgassRefuge.spec_id() == 43,
        WorldMap::IllusionTemple1.spec_id() == 46,
        WorldMap::IllusionTemple2.spec_id() == 47,
        WorldMap::IllusionTemple3.spec_id() == 48,
        WorldMap::IllusionTemple4.spec_id() == 49,
        WorldMap::IllusionTemple5.spec_id() == 50,
        WorldMap::Elbeland2.spec_id() == 51,
        WorldMap::Elbeland.spec_id() == 52,
        WorldMap::BloodCastle8.spec_id() == 53,
        WorldMap::ChaosCastle7.spec_id() == 54,
        WorldMap::CharacterScene.spec_id() == 55,
        WorldMap::LoginScene.spec_id() == 56,
        WorldMap::SwampOfPeace.spec_id() == 57,
        WorldMap::Raklion.spec_id() == 58,
        WorldMap::RaklionBoss.spec_id() == 59,
        WorldMap::SantaVillage.spec_id() == 63,
        WorldMap::Vulcanus.spec_id() == 64,
        WorldMap::DuelArena.spec_id() == 65,
        WorldMap::DoppelgangerIceZone.spec_id() == 66,
        WorldMap::DoppelgangerBlazeZone.spec_id() == 67,
        WorldMap::DoppelgangerUnderwater.spec_id() == 68,
        WorldMap::DoppelgangerCrystalCave.spec_id() == 69,
        WorldMap::ImperialGuardian4.spec_id() == 70,
        WorldMap::ImperialGuardian3.spec_id() == 71,
        WorldMap::ImperialGuardian2.spec_id() == 72,
        WorldMap::ImperialGuardian1.spec_id() == 73,
        WorldMap::NewLoginScene1.spec_id() == 74,
        WorldMap::EventSquare.spec_id() == 75,
        WorldMap::NewLoginScene2.spec_id() == 78,
        WorldMap::NewCharacterScene2.spec_id() == 79,
        WorldMap::LorenMarket.spec_id() == 80,
        WorldMap::Karutan1.spec_id() == 81,
        WorldMap::Karutan2.spec_id() == 82,
        WorldMap::DoppelgangerRenewal.spec_id() == 83,
        WorldMap::NewArena.spec_id() == 84,
        WorldMap::Acheron.spec_id() == 92,
        WorldMap::Acheron2.spec_id() == 93,
        WorldMap::UrukMountain3.spec_id() == 94,
        WorldMap::UrukMountain2.spec_id() == 95,
        WorldMap::Debenter.spec_id() == 96,
        WorldMap::DebenterArcaBattle.spec_id() == 97,
        WorldMap::IllusionTempleLeague.spec_id() == 99,
        WorldMap::IllusionTempleLeague2.spec_id() == 100,
        WorldMap::UrukMountain.spec_id() == 101,
        WorldMap::TormentedSquare.spec_id() == 103,
        WorldMap::Nars.spec_id() == 111,
        WorldMap::Ferea.spec_id() == 113,
        WorldMap::NixiesLake.spec_id() == 114,
        WorldMap::LorenMarketS6.spec_id() == 115,
        WorldMap::DeepDungeon1.spec_id() == 117,
        WorldMap::DeepDungeon2.spec_id() == 118,
        WorldMap::DeepDungeon3.spec_id() == 119,
        WorldMap::DeepDungeon4.spec_id() == 120,
        WorldMap::DeepDungeon5.spec_id() == 121,
        WorldMap::PlaceOfQualification.spec_id() == 122,
        WorldMap::SwampOfDarkness.spec_id() == 123,
        WorldMap::KuberaMine1.spec_id() == 124,
        WorldMap::KuberaMine2.spec_id() == 125,
        WorldMap::AbyssOfAtlans.spec_id() == 129,
        WorldMap::AbyssOfAtlans2.spec_id() == 130,
        WorldMap::AbyssOfAtlans3.spec_id() == 131,
        WorldMap::ScorchedTunnels.spec_id() == 132,
        WorldMap::RedSmokeIcarus.spec_id() == 133,
        WorldMap::TempleOfArnil.spec_id() == 134,
        WorldMap::AshenAida.spec_id() == 135,
        WorldMap::OldKethotum.spec_id() == 136,
        WorldMap::BlazeKethotum.spec_id() == 137,
        WorldMap::KanturuUndergrounds.spec_id() == 138,
        WorldMap::IgnisVolcano.spec_id() == 139,
        WorldMap::BossBattleZone.spec_id() == 140,
        WorldMap::BloodyTarkan.spec_id() == 141,
        WorldMap::TormentaIsland.spec_id() == 142,
        WorldMap::DoppelgangerIceZoneNew.spec_id() == 143,
{
}

/// Looking up a World folder number finds the map of that number in the
/// game data table, and nothing for a number the table does not list.
pub proof fn lemma_from_id_table(id: u8, r: Option<WorldMap>)
    requires
        is_lookup_by_id(id, r),
    ensures
        id == 0 ==> r == Some(WorldMap::Unk0),
        id == 1 ==> r == Some(WorldMap::Lorencia),
        id == 2 ==> r == Some(WorldMap::Dungeon),
        id == 3 ==> r == Some(WorldMap::Devias),
        id == 4 ==> r == Some(WorldMap::Noria),
        id == 5 ==> r == Some(WorldMap::LostTower),
        id == 6 ==> r == Some(WorldMap::Exile),
        id == 7 ==> r == Some(WorldMap::Arena),
        id == 8 ==> r == Some(WorldMap::Atlans),
        id == 9 ==> r == Some(WorldMap::Tarkan),
        id == 10 ==> r == Some(WorldMap::DevilSquare),
        id == 11 ==> r == Some(WorldMap::Icarus),
        id == 12 ==> r == Some(WorldMap::BloodCastle1),
        id == 13 ==> r == Some(WorldMap::BloodCastle2),
        id == 14 ==> r == Some(WorldMap::BloodCastle3),
        id == 15 ==> r == Some(WorldMap::BloodCastle4),
        id == 16 ==> r == Some(WorldMap::BloodCastle5),
        id == 17 ==> r == Some(WorldMap::BloodCastle6),
        id == 18 ==> r == Some(WorldMap::BloodCastle7),
        id == 19 ==> r == Some(WorldMap::ChaosCastle1),
        id == 20 ==> r == Some(WorldMap::ChaosCastle2),
        id == 21 ==> r == Some(WorldMap::ChaosCastle3),
        id == 22 ==> r == Some(WorldMap::ChaosCastle4),
        id == 23 ==> r == Some(WorldMap::ChaosCastle5),
        id == 24 ==> r == Some(WorldMap::ChaosCastle6),
        id == 25 ==> r == Some(WorldMap::Kalima1),
        id == 26 ==> r == Some(WorldMap::Kalima2),
        id == 27 ==> r == Some(WorldMap::Kalima3),
        id == 28 ==> r == Some(WorldMap::Kalima4),
        id == 29 ==> r == Some(WorldMap::Kalima5),
        id == 30 ==> r == Some(WorldMap::Kalima6),
        id == 31 ==> r == Some(WorldMap::ValleyOfLoren),
        id == 32 ==> r == Some(WorldMap::LandOfTrials),
        id == 33 ==> r == Some(WorldMap::DevilSquare2),
        id == 34 ==> r == Some(WorldMap::Aida),
        id == 35 ==> r == Some(WorldMap::Crywolf),
        id == 37 ==> r == Some(WorldMap::Kalima7),
        id == 38 ==> r == Some(WorldMap::Kanturu),
        id == 39 ==> r == Some(WorldMap::KanturuRemain),
        id == 40 ==> r == Some(WorldMap::RefineTower),
        id == 41 ==> r == Some(WorldMap::SilentMap),
        id == 42 ==> r == Some(WorldMap::BalgassBarracks),
        id == 43 ==> r == Some(WorldMap::BalgassRefuge),
        id == 46 ==> r == Some(WorldMap::IllusionTemple1),
        id == 47 ==> r == Some(WorldMap::IllusionTemple2),
        id == 48 ==> r == Some(WorldMap::IllusionTemple3),
        id == 49 ==> r == Some(WorldMap::IllusionTemple4),
        id == 50 ==> r == Some(WorldMap::IllusionTemple5),
        id == 51 ==> r == Some(WorldMap::Elbeland2),
        id == 52 ==> r == Some(WorldMap::Elbeland),
        id == 53 ==> r == Some(WorldMap::BloodCastle8),
        id == 54 ==> r == Some(WorldMap::ChaosCastle7),
        id == 55 ==> r == Some(WorldMap::CharacterScene),
        id == 56 ==> r == Some(WorldMap::LoginScene),
        id == 57 ==> r == Some(WorldMap::SwampOfPeace),
        id == 58 ==> r == Some(WorldMap::Raklion),
        id == 59 ==> r == Some(WorldMap::RaklionBoss),
        id == 63 ==> r == Some(WorldMap::SantaVillage),
        id == 64 ==> r == Some(WorldMap::Vulcanus),
        id == 65 ==> r == Some(WorldMap::DuelArena),
        id == 66 ==> r == Some(WorldMap::DoppelgangerIceZone),
        id == 67 ==> r == Some(WorldMap::DoppelgangerBlazeZone),
        id == 68 ==> r == Some(WorldMap::DoppelgangerUnderwater),
        id == 69 ==> r == Some(WorldMap::DoppelgangerCrystalCave),
        id == 70 ==> r == Some(WorldMap::ImperialGuardian4),
        id == 71 ==> r == Some(WorldMap::ImperialGuardian3),
        id == 72 ==> r == Some(WorldMap::ImperialGuardian2),
        id == 73 ==> r == Some(WorldMap::ImperialGuardian1),
        id == 74 ==> r == Some(WorldMap::NewLoginScene1),
        id == 75 ==> r == Some(WorldMap::EventSquare),
        id == 78 ==> r == Some(WorldMap::NewLoginScene2),
        id == 79 ==> r == Some(WorldMap::NewCharacterScene2),
        id == 80 ==> r == Some(WorldMap::LorenMarket),
        id == 81 ==> r == Some(WorldMap::Karutan1),
        id == 82 ==> r == Some(WorldMap::Karutan2),
        id == 83 ==> r == Some(WorldMap::DoppelgangerRenewal),
        id == 84 ==> r == Some(WorldMap::NewArena),
        id == 92 ==> r == Some(WorldMap::Acheron),
        id == 93 ==> r == Some(WorldMap::Acheron2),
        id == 94 ==> r == Some(WorldMap::UrukMountain3),
        id == 95 ==> r == Some(WorldMap::UrukMountain2),
        id == 96 ==> r == Some(WorldMap::Debenter),
        id == 97 ==> r == Some(WorldMap::DebenterArcaBattle),
        id == 99 ==> r == Some(WorldMap::IllusionTempleLeague),
        id == 100 ==> r == Some(WorldMap::IllusionTempleLeague2),
        id == 101 ==> r == Some(WorldMap::UrukMountain),
        id == 103 ==> r == Some(WorldMap::TormentedSquare),
        id == 111 ==> r == Some(WorldMap::Nars),
        id == 113 ==> r == Some(WorldMap::Ferea),
        id == 114 ==> r == Some(WorldMap::NixiesLake),
        id == 115 ==> r == Some(WorldMap::LorenMarketS6),
        id == 117 ==> r == Some(WorldMap::DeepDungeon1),
        id == 118 ==> r == Some(WorldMap::DeepDungeon2),
        id == 119 ==> r == Some(WorldMap::DeepDungeon3),
        id == 120 ==> r == Some(WorldMap::DeepDungeon4),
        id == 121 ==> r == Some(WorldMap::DeepDungeon5),
        id == 122 ==> r == Some(WorldMap::PlaceOfQualification),
        id == 123 ==> r == Some(WorldMap::SwampOfDarkness),
        id == 124 ==> r == Some(WorldMap::KuberaMine1),
        id == 125 ==> r == Some(WorldMap::KuberaMine2),
        id == 129 ==> r == Some(WorldMap::AbyssOfAtlans),
        id == 130 ==> r == Some(WorldMap::AbyssOfAtlans2),
        id == 131 ==> r == Some(WorldMap::AbyssOfAtlans3),
        id == 132 ==> r == Some(WorldMap::ScorchedTunnels),
        id == 133 ==> r == Some(WorldMap::RedSmokeIcarus),
        id == 134 ==> r == Some(WorldMap::TempleOfArnil),
        id == 135 ==> r == Some(WorldMap::AshenAida),
        id == 136 ==> r == Some(WorldMap::OldKethotum),
        id == 137 ==> r == Some(WorldMap::BlazeKethotum),
        id == 138 ==> r == Some(WorldMap::KanturuUndergrounds),
        id == 139 ==> r == Some(WorldMap::IgnisVolcano),
        id == 140 ==> r == Some(WorldMap::BossBattleZone),
        id == 141 ==> r == Some(WorldMap::BloodyTarkan),
        id == 142 ==> r == Some(WorldMap::TormentaIsland),
        id == 143 ==> r == Some(WorldMap::DoppelgangerIceZoneNew),
        r is None <==> !(
            id == 0 || id == 1 || id == 2 || id == 3 || id == 4 || id == 5 || id == 6 || id == 7
            || id == 8 || id == 9 || id == 10 || id == 11 || id == 12 || id == 13 || id == 14 || id == 15
            || id == 16 || id == 17 || id == 18 || id == 19 || id == 20 || id == 21 || id == 22 || id == 23
            || id == 24 || id == 25 || id == 26 || id == 27 || id == 28 || id == 29 || id == 30 || id == 31
            || id == 32 || id == 33 || id == 34 || id == 35 || id == 37 || id == 38 || id == 39 || id == 40
            || id == 41 || id == 42 || id == 43 || id == 46 || id == 47 || id == 48 || id == 49 || id == 50
            || id == 51 || id == 52 || id == 53 || id == 54 || id == 55 || id == 56 || id == 57 || id == 58
            || id == 59 || id == 63 || id == 64 || id == 65 || id == 66 || id == 67 || id == 68 || id == 69
            || id == 70 || id == 71 || id == 72 || id == 73 || id == 74 || id == 75 || id == 78 || id == 79
            || id == 80 || id == 81 || id == 82 || id == 83 || id == 84 || id == 92 || id == 93 || id == 94
            || id == 95 || id == 96 || id == 97 || id == 99 || id == 100 || id == 101 || id == 103 || id == 111
            || id == 113 || id == 114 || id == 115 || id == 117 || id == 118 || id == 119 || id == 120 || id == 121
            || id == 122 || id == 123 || id == 124 || id == 125 || id == 129 || id == 130 || id == 131 || id == 132
            || id == 133 || id == 134 || id == 135 || id == 136 || id == 137 || id == 138 || id == 139 || id == 140
            || id == 141 || id == 142 || id == 143
        ),
{
    lemma_world_folder_numbers();
    match r {
        Some(_) => {},
        None => {
            assert(WorldMap::Unk0.spec_id() != id);
            assert(WorldMap::Lorencia.spec_id() != id);
            assert(WorldMap::Dungeon.spec_id() != id);
            assert(WorldMap::Devias.spec_id() != id);
            assert(WorldMap::Noria.spec_id() != id);
            assert(WorldMap::LostTower.spec_id() != id);
            assert(WorldMap::Exile.spec_id() != id);
            assert(WorldMap::Arena.spec_id() != id);
            assert(WorldMap::Atlans.spec_id() != id);
            assert(WorldMap::Tarkan.spec_id() != id);
            assert(WorldMap::DevilSquare.spec_id() != id);
            assert(WorldMap::Icarus.spec_id() != id);
            assert(WorldMap::BloodCastle1.spec_id() != id);
            assert(WorldMap::BloodCastle2.spec_id() != id);
            assert(WorldMap::BloodCastle3.spec_id() != id);
            assert(WorldMap::BloodCastle4.spec_id() != id);
            assert(WorldMap::BloodCastle5.spec_id() != id);
            assert(WorldMap::BloodCastle6.spec_id() != id);
            assert(WorldMap::BloodCastle7.spec_id() != id);
            assert(WorldMap::ChaosCastle1.spec_id() != id);
            assert(WorldMap::ChaosCastle2.spec_id() != id);
            assert(WorldMap::ChaosCastle3.spec_id() != id);
            assert(WorldMap::ChaosCastle4.spec_id() != id);
            assert(WorldMap::ChaosCastle5.spec_id() != id);
            assert(WorldMap::ChaosCastle6.spec_id() != id);
            assert(WorldMap::Kalima1.spec_id() != id);
            assert(WorldMap::Kalima2.spec_id() != id);
            assert(WorldMap::Kalima3.spec_id() != id);
            assert(WorldMap::Kalima4.spec_id() != id);
            assert(WorldMap::Kalima5.spec_id() != id);
            assert(WorldMap::Kalima6.spec_id() != id);
            assert(WorldMap::ValleyOfLoren.spec_id() != id);
            assert(WorldMap::LandOfTrials.spec_id() != id);
            assert(WorldMap::DevilSquare2.spec_id() != id);
            assert(WorldMap::Aida.spec_id() != id);
            assert(WorldMap::Crywolf.spec_id() != id);
            assert(WorldMap::Kalima7.spec_id() != id);
            assert(WorldMap::Kanturu.spec_id() != id);
            assert(WorldMap::KanturuRemain.spec_id() != id);
            assert(WorldMap::RefineTower.spec_id() != id);
            assert(WorldMap::SilentMap.spec_id() != id);
            assert(WorldMap::BalgassBarracks.spec_id() != id);
            assert(WorldMap::BalgassRefuge.spec_id() != id);
            assert(WorldMap::IllusionTemple1.spec_id() != id);
            assert(WorldMap::IllusionTemple2.spec_id() != id);
            assert(WorldMap::IllusionTemple3.spec_id() != id);
            assert(WorldMap::IllusionTemple4.spec_id() != id);
            assert(WorldMap::IllusionTemple5.spec_id() != id);
            assert(WorldMap::Elbeland2.spec_id() != id);
            assert(WorldMap::Elbeland.spec_id() != id);
            assert(WorldMap::BloodCastle8.spec_id() != id);
            assert(WorldMap::ChaosCastle7.spec_id() != id);
            assert(WorldMap::CharacterScene.spec_id() != id);
            assert(WorldMap::LoginScene.spec_id() != id);
            assert(WorldMap::SwampOfPeace.spec_id() != id);
            assert(WorldMap::Raklion.spec_id() != id);
            assert(WorldMap::RaklionBoss.spec_id() != id);
            assert(WorldMap::SantaVillage.spec_id() != id);
            assert(WorldMap::Vulcanus.spec_id() != id);
            assert(WorldMap::DuelArena.spec_id() != id);
            assert(WorldMap::DoppelgangerIceZone.spec_id() != id);
            assert(WorldMap::DoppelgangerBlazeZone.spec_id() != id);
            assert(WorldMap::DoppelgangerUnderwater.spec_id() != id);
            assert(WorldMap::DoppelgangerCrystalCave.spec_id() != id);
            assert(WorldMap::ImperialGuardian4.spec_id() != id);
            assert(WorldMap::ImperialGuardian3.spec_id() != id);
            assert(WorldMap::ImperialGuardian2.spec_id() != id);
            assert(WorldMap::ImperialGuardian1.spec_id() != id);
            assert(WorldMap::NewLoginScene1.spec_id() != id);
            assert(WorldMap::EventSquare.spec_id() != id);
            assert(WorldMap::NewLoginScene2.spec_id() != id);
            assert(WorldMap::NewCharacterScene2.spec_id() != id);
            assert(WorldMap::LorenMarket.spec_id() != id);
            assert(WorldMap::Karutan1.spec_id() != id);
            assert(WorldMap::Karutan2.spec_id() != id);
            assert(WorldMap::DoppelgangerRenewal.spec_id() != id);
            assert(WorldMap::NewArena.spec_id() != id);
            assert(WorldMap::Acheron.spec_id() != id);
            assert(WorldMap::Acheron2.spec_id() != id);
            assert(WorldMap::UrukMountain3.spec_id() != id);
            assert(WorldMap::UrukMountain2.spec_id() != id);
            assert(WorldMap::Debenter.spec_id() != id);
            assert(WorldMap::DebenterArcaBattle.spec_id() != id);
            assert(WorldMap::IllusionTempleLeague.spec_id() != id);
            assert(WorldMap::IllusionTempleLeague2.spec_id() != id);
            assert(WorldMap::UrukMountain.spec_id() != id);
            assert(WorldMap::TormentedSquare.spec_id() != id);
            assert(WorldMap::Nars.spec_id() != id);
            assert(WorldMap::Ferea.spec_id() != id);
            assert(WorldMap::NixiesLake.spec_id() != id);
            assert(WorldMap::LorenMarketS6.spec_id() != id);
            assert(WorldMap::DeepDungeon1.spec_id() != id);
            assert(WorldMap::DeepDungeon2.spec_id() != id);
            assert(WorldMap::DeepDungeon3.spec_id() != id);
            assert(WorldMap::DeepDungeon4.spec_id() != id);
            assert(WorldMap::DeepDungeon5.spec_id() != id);
            assert(WorldMap::PlaceOfQualification.spec_id() != id);
            assert(WorldMap::SwampOfDarkness.spec_id() != id);
            assert(WorldMap::KuberaMine1.spec_id() != id);
            assert(WorldMap::KuberaMine2.spec_id() != id);
            assert(WorldMap::AbyssOfAtlans.spec_id() != id);
            assert(WorldMap::AbyssOfAtlans2.spec_id() != id);
            assert(WorldMap::AbyssOfAtlans3.spec_id() != id);
            assert(WorldMap::ScorchedTunnels.spec_id() != id);
            assert(WorldMap::RedSmokeIcarus.spec_id() != id);
            assert(WorldMap::TempleOfArnil.spec_id() != id);
            assert(WorldMap::AshenAida.spec_id() != id);
            assert(WorldMap::OldKethotum.spec_id() != id);
            assert(WorldMap::BlazeKethotum.spec_id() != id);
            assert(WorldMap::KanturuUndergrounds.spec_id() != id);
            assert(WorldMap::IgnisVolcano.spec_id() != id);
            assert(WorldMap::BossBattleZone.spec_id() != id);
            assert(WorldMap::BloodyTarkan.spec_id() != id);
            assert(WorldMap::TormentaIsland.spec_id() != id);
            assert(WorldMap::DoppelgangerIceZoneNew.spec_id() != id);
        },
    }
}


/// The display name of every map, from the game data table.
pub proof fn lemma_world_name_table()
    ensures
        WorldMap::Unk0.spec_name() == "Unknown"@,
        WorldMap::Lorencia.spec_name() == "Lorencia"@,
        WorldMap::Dungeon.spec_name() == "Dungeon"@,
        WorldMap::Devias.spec_name() == "Devias"@,
        WorldMap::Noria.spec_name() == "Noria"@,
        WorldMap::LostTower.spec_name() == "Lost Tower"@,
        WorldMap::Exile.spec_name() == "Exile"@,
        WorldMap::Arena.spec_name() == "Arena"@,
        WorldMap::Atlans.spec_name() == "Atlans"@,
        WorldMap::Tarkan.spec_name() == "Tarkan"@,
        WorldMap::DevilSquare.spec_name() == "Devil Square"@,
        WorldMap::Icarus.spec_name() == "Icarus"@,
        WorldMap::BloodCastle1.spec_name() == "Blood Castle 1"@,
        WorldMap::BloodCastle2.spec_name() == "Blood Castle 2"@,
        WorldMap::BloodCastle3.spec_name() == "Blood Castle 3"@,
        WorldMap::BloodCastle4.spec_name() == "Blood Castle 4"@,
        WorldMap::BloodCastle5.spec_name() == "Blood Castle 5"@,
        WorldMap::BloodCastle6.spec_name() == "Blood Castle 6"@,
        WorldMap::BloodCastle7.spec_name() == "Blood Castle 7"@,
        WorldMap::ChaosCastle1.spec_name() == "Chaos Castle 1"@,
        WorldMap::ChaosCastle2.spec_name() == "Chaos Castle 2"@,
        WorldMap::ChaosCastle3.spec_name() == "Chaos Castle 3"@,
        WorldMap::ChaosCastle4.spec_name() == "Chaos Castle 4"@,
        WorldMap::ChaosCastle5.spec_name() == "Chaos Castle 5"@,
        WorldMap::ChaosCastle6.spec_name() == "Chaos Castle 6"@,
        WorldMap::Kalima1.spec_name() == "Kalima 1"@,
        WorldMap::Kalima2.spec_name() == "Kalima 2"@,
        WorldMap::Kalima3.spec_name() == "Kalima 3"@,
        WorldMap::Kalima4.spec_name() == "Kalima 4"@,
        WorldMap::Kalima5.spec_name() == "Kalima 5"@,
        WorldMap::Kalima6.spec_name() == "Kalima 6"@,
        WorldMap::ValleyOfLoren.spec_name() == "Valley of Loren"@,
        WorldMap::LandOfTrials.spec_name() == "Land of Trials"@,
        WorldMap::DevilSquare2.spec_name() == "Devil Square 2"@,
        WorldMap::Aida.spec_name() == "Aida"@,
        WorldMap::Crywolf.spec_name() == "Crywolf"@,
        WorldMap::Kalima7.spec_name() == "Kalima 7"@,
        WorldMap::Kanturu.spec_name() == "Kanturu"@,
        WorldMap::KanturuRemain.spec_name() == "Kanturu Remain"@,
        WorldMap::RefineTower.spec_name() == "Refine Tower"@,
        WorldMap::SilentMap.spec_name() == "Silent Map"@,
        WorldMap::BalgassBarracks.spec_name() == "Balgass Barracks"@,
        WorldMap::BalgassRefuge.spec_name() == "Balgass Refuge"@,
        WorldMap::IllusionTemple1.spec_name() == "Illusion Temple 1"@,
        WorldMap::IllusionTemple2.spec_name() == "Illusion Temple 2"@,
        WorldMap::IllusionTemple3.spec_name() == "Illusion Temple 3"@,
        WorldMap::IllusionTemple4.spec_name() == "Illusion Temple 4"@,
        WorldMap::IllusionTemple5.spec_name() == "Illusion Temple 5"@,
        WorldMap::Elbeland2.spec_name() == "Elbeland 2"@,
        WorldMap::Elbeland.spec_name() == "Elbeland"@,
        WorldMap::BloodCastle8.spec_name() == "Blood Castle 8"@,
        WorldMap::ChaosCastle7.spec_name() == "Chaos Castle 7"@,
        WorldMap::CharacterScene.spec_name() == "Character Selection"@,
        WorldMap::LoginScene.spec_name() == "Login Scene"@,
        WorldMap::SwampOfPeace.spec_name() == "Swamp of Peace"@,
        WorldMap::Raklion.spec_name() == "Raklion"@,
        WorldMap::RaklionBoss.spec_name() == "Raklion Boss"@,
        WorldMap::SantaVillage.spec_name() == "Santa Village"@,
        WorldMap::Vulcanus.spec_name() == "Vulcanus"@,
        WorldMap::DuelArena.spec_name() == "Duel Arena"@,
        WorldMap::DoppelgangerIceZone.spec_name() == "Doppelganger Ice Zone"@,
        WorldMap::DoppelgangerBlazeZone.spec_name() == "Doppelganger Blaze Zone"@,
        WorldMap::DoppelgangerUnderwater.spec_name() == "Doppelganger Underwater"@,
        WorldMap::DoppelgangerCrystalCave.spec_name() == "Doppelganger Crystal Cave"@,
        WorldMap::ImperialGuardian4.spec_name() == "Imperial Guardian 4"@,
        WorldMap::ImperialGuardian3.spec_name() == "Imperial Guardian 3"@,
        WorldMap::ImperialGuardian2.spec_name() == "Imperial Guardian 2"@,
        WorldMap::ImperialGuardian1.spec_name() == "Imperial Guardian 1"@,
        WorldMap::NewLoginScene1.spec_name() == "New Login Scene 1"@,
        WorldMap::EventSquare.spec_name() == "Event Square"@,
        WorldMap::NewLoginScene2.spec_name() == "New Login Scene 2"@,
        WorldMap::NewCharacterScene2.spec_name() == "New Character Scene 2"@,
        WorldMap::LorenMarket.spec_name() == "Loren Market"@,
        WorldMap::Karutan1.spec_name() == "Karutan 1"@,
        WorldMap::Karutan2.spec_name() == "Karutan 2"@,
        WorldMap::DoppelgangerRenewal.spec_name() == "Doppelganger Renewal"@,
        WorldMap::NewArena.spec_name() == "New Arena"@,
        WorldMap::Acheron.spec_name() == "Acheron"@,
        WorldMap::Acheron2.spec_name() == "Acheron 2"@,
        WorldMap::UrukMountain3.spec_name() == "Uruk Mountain 3"@,
        WorldMap::UrukMountain2.spec_name() == "Uruk Mountain 2"@,
        WorldMap::Debenter.spec_name() == "Debenter"@,
        WorldMap::DebenterArcaBattle.spec_name() == "Debenter Arca Battle"@,
        WorldMap::IllusionTempleLeague.spec_name() == "Illusion Temple League"@,
        WorldMap::IllusionTempleLeague2.spec_name() == "Illusion Temple League 2"@,
        WorldMap::UrukMountain.spec_name() == "Uruk Mountain"@,
        WorldMap::TormentedSquare.spec_name() == "Tormented Square"@,
        WorldMap::Nars.spec_name() == "Nars"@,
        WorldMap::Ferea.spec_name() == "Ferea"@,
        WorldMap::NixiesLake.spec_name() == "Nixies Lake"@,
        WorldMap::LorenMarketS6.spec_name() == "Loren Market"@,
        WorldMap::DeepDungeon1.spec_name() == "Deep Dungeon 1"@,
        WorldMap::DeepDungeon2.spec_name() == "Deep Dungeon 2"@,
        WorldMap::DeepDungeon3.spec_name() == "Deep Dungeon 3"@,
        WorldMap::DeepDungeon4.spec_name() == "Deep Dungeon 4"@,
        WorldMap::DeepDungeon5.spec_name() == "Deep Dungeon 5"@,
        WorldMap::PlaceOfQualification.spec_name() == "Place of Qualification"@,
        WorldMap::SwampOfDarkness.spec_name() == "Swamp of Darkness"@,
        WorldMap::KuberaMine1.spec_name() == "Kubera Mine"@,
        WorldMap::KuberaMine2.spec_name() == "Kubera Mine 2"@,
        WorldMap::AbyssOfAtlans.spec_name() == "Abyss of Atlans"@,
        WorldMap::AbyssOfAtlans2.spec_name() == "Abyss of Atlans 2"@,
        WorldMap::AbyssOfAtlans3.spec_name() == "Abyss of Atlans 3"@,
        WorldMap::ScorchedTunnels.spec_name() == "Scorched Tunnels"@,
        WorldMap::RedSmokeIcarus.spec_name() == "Red Smoke Icarus"@,
        WorldMap::TempleOfArnil.spec_name() == "Temple of Arnil"@,
        WorldMap::AshenAida.spec_name() == "Ashen Aida"@,
        WorldMap::OldKethotum.spec_name() == "Old Kethotum"@,
        WorldMap::BlazeKethotum.spec_name() == "Blaze Kethotum"@,
        WorldMap::KanturuUndergrounds.spec_name() == "Kanturu Undergrounds"@,
        WorldMap::IgnisVolcano.spec_name() == "Ignis Volcano"@,
        WorldMap::BossBattleZone.spec_name() == "Boss Battle Zone"@,
        WorldMap::BloodyTarkan.spec_name() == "Bloody Tarkan"@,
        WorldMap::TormentaIsland.spec_name() == "Tormenta Island"@,
        WorldMap::DoppelgangerIceZoneNew.spec_name() == "Doppelganger Ice Zone (New)"@,
{
}

/// The login and character selection scenes are exactly these maps.
pub proof fn lemma_is_login_scene_maps(map: WorldMap)
    ensures
        map.spec_is_login_scene() <==> (
            map == WorldMap::LoginScene || map == WorldMap::CharacterScene || map == WorldMap::NewLoginScene1 || map == WorldMap::NewLoginScene2
            || map == WorldMap::NewCharacterScene2
        ),
{
}

/// The PvP areas are exactly these maps.
pub proof fn lemma_is_pvp_area_maps(map: WorldMap)
    ensures
        map.spec_is_pvp_area() <==> (
            map == WorldMap::Arena || map == WorldMap::Vulcanus || map == WorldMap::DuelArena || map == WorldMap::DevilSquare
            || map == WorldMap::NewArena
        ),
{
}

/// The special event dungeons are exactly these maps.
pub proof fn lemma_is_event_dungeon_maps(map: WorldMap)
    ensures
        map.spec_is_event_dungeon() <==> (
            map == WorldMap::BloodCastle1 || map == WorldMap::BloodCastle2 || map == WorldMap::BloodCastle3 || map == WorldMap::BloodCastle4
            || map == WorldMap::BloodCastle5 || map == WorldMap::BloodCastle6 || map == WorldMap::BloodCastle7 || map == WorldMap::BloodCastle8
            || map == WorldMap::ChaosCastle1 || map == WorldMap::ChaosCastle2 || map == WorldMap::ChaosCastle3 || map == WorldMap::ChaosCastle4
            || map == WorldMap::ChaosCastle5 || map == WorldMap::ChaosCastle6 || map == WorldMap::ChaosCastle7 || map == WorldMap::DevilSquare
            || map == WorldMap::DevilSquare2 || map == WorldMap::Crywolf || map == WorldMap::Kanturu || map == WorldMap::KanturuRemain
            || map == WorldMap::RefineTower || map == WorldMap::IllusionTemple1 || map == WorldMap::IllusionTemple2 || map == WorldMap::IllusionTemple3
            || map == WorldMap::IllusionTemple4 || map == WorldMap::IllusionTemple5 || map == WorldMap::IllusionTempleLeague || map == WorldMap::IllusionTempleLeague2
            || map == WorldMap::DoppelgangerIceZone || map == WorldMap::DoppelgangerBlazeZone || map == WorldMap::DoppelgangerUnderwater || map == WorldMap::DoppelgangerCrystalCave
            || map == WorldMap::DoppelgangerRenewal || map == WorldMap::DoppelgangerIceZoneNew || map == WorldMap::ImperialGuardian1 || map == WorldMap::ImperialGuardian2
            || map == WorldMap::ImperialGuardian3 || map == WorldMap::ImperialGuardian4 || map == WorldMap::TormentedSquare || map == WorldMap::BossBattleZone
        ),
{
}


/// The world a gameplay session opens when nothing else is chosen.
pub open spec fn default_gameplay_world() -> WorldMap {
    WorldMap::Lorencia
}

/// What `str::parse::<u8>` gives: a decimal number of at most 255.
pub open spec fn parse_u8_spec(s: Seq<char>) -> Option<u8> {
    match parse_u32_spec(s) {
        Some(value) => if value <= 255 {
            Some(value as u8)
        } else {
            None
        },
        None => None,
    }
}

/// `r` is the gameplay world chosen by the setting `raw`: the map whose
/// World folder number the trimmed setting names, or Lorencia where there
/// is no setting, it is no number from 0 to 255, or no map has it.
pub open spec fn is_gameplay_world_choice(raw: Option<Seq<char>>, r: WorldMap) -> bool {
    match raw {
        Some(text) => match parse_u8_spec(trim(text)) {
            Some(id) => if exists|map: WorldMap| #[trigger] map.spec_id() == id {
                r.spec_id() == id
            } else {
                r == default_gameplay_world()
            },
            None => r == default_gameplay_world(),
        },
        None => r == default_gameplay_world(),
    }
}

/// Picks the gameplay world from its setting; see [`is_gameplay_world_choice`].
pub fn gameplay_world_from_setting(raw: Option<&str>) -> (r: WorldMap)
    ensures
        is_gameplay_world_choice(
            match raw {
                Some(text) => Some(text@),
                None => None,
            },
            r,
        ),
{
    match raw {
        Some(text) => {
            let trimmed = trim_chars(&str_chars(text));
            match parse_u32(&trimmed) {
                Some(value) => {
                    if value <= 255 {
                        let id = value as u8;
                        match WorldMap::from_id(id) {
                            Some(map) => map,
                            None => WorldMap::Lorencia,
                        }
                    } else {
                        WorldMap::Lorencia
                    }
                },
                None => WorldMap::Lorencia,
            }
        },
        None => WorldMap::Lorencia,
    }
}

} // verus!
