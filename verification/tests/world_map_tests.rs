use mu_online::world_map::{gameplay_world_from_setting, WorldMap};

#[test]
fn test_world_map_ids_match_folders() {
    assert_eq!(WorldMap::Lorencia.id(), 1);
    assert_eq!(WorldMap::Dungeon.id(), 2);
    assert_eq!(WorldMap::Arena.id(), 7);
    assert_eq!(WorldMap::Icarus.id(), 11);
    assert_eq!(WorldMap::BloodCastle1.id(), 12);
    assert_eq!(WorldMap::LoginScene.id(), 56);
    assert_eq!(WorldMap::Acheron.id(), 92);
    assert_eq!(WorldMap::DoppelgangerIceZoneNew.id(), 143);
}

#[test]
fn test_world_folder() {
    assert_eq!(WorldMap::Lorencia.world_folder(), "World1");
    assert_eq!(WorldMap::LoginScene.world_folder(), "World56");
    assert_eq!(WorldMap::Acheron.world_folder(), "World92");
}

#[test]
fn test_from_id() {
    assert_eq!(WorldMap::from_id(1), Some(WorldMap::Lorencia));
    assert_eq!(WorldMap::from_id(56), Some(WorldMap::LoginScene));
    assert_eq!(WorldMap::from_id(0), Some(WorldMap::Unk0));
    assert_eq!(WorldMap::from_id(255), None);
}

#[test]
fn test_renamed_maps() {
    assert_eq!(WorldMap::from_id(6), Some(WorldMap::Exile));
    assert_eq!(WorldMap::Exile.name(), "Exile");
    assert_eq!(WorldMap::from_id(7), Some(WorldMap::Arena));
    assert_eq!(WorldMap::Arena.name(), "Arena");
    assert_eq!(WorldMap::from_id(8), Some(WorldMap::Atlans));
    assert_eq!(WorldMap::Atlans.name(), "Atlans");
    assert_eq!(WorldMap::from_id(11), Some(WorldMap::Icarus));
    assert_eq!(WorldMap::Icarus.name(), "Icarus");
    assert_eq!(WorldMap::from_id(25), Some(WorldMap::Kalima1));
    assert_eq!(WorldMap::from_id(31), Some(WorldMap::ValleyOfLoren));
    assert_eq!(WorldMap::from_id(35), Some(WorldMap::Crywolf));
    assert_eq!(WorldMap::from_id(58), Some(WorldMap::Raklion));
    assert_eq!(WorldMap::from_id(64), Some(WorldMap::Vulcanus));
}

#[test]
fn test_new_maps() {
    assert_eq!(WorldMap::from_id(28), Some(WorldMap::Kalima4));
    assert_eq!(WorldMap::from_id(83), Some(WorldMap::DoppelgangerRenewal));
    assert_eq!(WorldMap::from_id(92), Some(WorldMap::Acheron));
    assert_eq!(WorldMap::from_id(101), Some(WorldMap::UrukMountain));
    assert_eq!(WorldMap::from_id(111), Some(WorldMap::Nars));
    assert_eq!(WorldMap::from_id(113), Some(WorldMap::Ferea));
    assert_eq!(WorldMap::from_id(117), Some(WorldMap::DeepDungeon1));
    assert_eq!(WorldMap::from_id(129), Some(WorldMap::AbyssOfAtlans));
    assert_eq!(
        WorldMap::from_id(143),
        Some(WorldMap::DoppelgangerIceZoneNew)
    );
}

#[test]
fn test_is_login_scene() {
    assert!(WorldMap::LoginScene.is_login_scene());
    assert!(WorldMap::CharacterScene.is_login_scene());
    assert!(WorldMap::NewCharacterScene2.is_login_scene());
    assert!(!WorldMap::EventSquare.is_login_scene());
    assert!(!WorldMap::Lorencia.is_login_scene());
}

#[test]
fn test_is_pvp_area() {
    assert!(WorldMap::Arena.is_pvp_area());
    assert!(WorldMap::Vulcanus.is_pvp_area());
    assert!(!WorldMap::Lorencia.is_pvp_area());
}

#[test]
fn test_is_event_dungeon() {
    assert!(WorldMap::BloodCastle8.is_event_dungeon());
    assert!(WorldMap::ChaosCastle7.is_event_dungeon());
    assert!(WorldMap::IllusionTemple1.is_event_dungeon());
    assert!(WorldMap::DoppelgangerRenewal.is_event_dungeon());
    assert!(WorldMap::TormentedSquare.is_event_dungeon());
    assert!(!WorldMap::Lorencia.is_event_dungeon());
}

#[test]
fn test_display() {
    assert_eq!(WorldMap::ValleyOfLoren.to_display_string(), "Valley of Loren");
    assert_eq!(WorldMap::Raklion.to_display_string(), "Raklion");
}

#[test]
fn every_id_of_a_map_looks_up_that_map() {
    for id in 0u8..=255 {
        if let Some(map) = WorldMap::from_id(id) {
            assert_eq!(map.id(), id);
            assert_eq!(map.world_folder(), format!("World{}", id));
        }
    }
}

#[test]
fn ids_without_a_map_give_none() {
    assert_eq!(WorldMap::from_id(144), None);
    assert_eq!(WorldMap::from_id(200), None);
}

#[test]
fn gameplay_world_setting_picks_the_named_map() {
    assert_eq!(gameplay_world_from_setting(None), WorldMap::Lorencia);
    assert_eq!(gameplay_world_from_setting(Some(" 56 ")), WorldMap::LoginScene);
    assert_eq!(gameplay_world_from_setting(Some("+7")), WorldMap::Arena);
    assert_eq!(gameplay_world_from_setting(Some("256")), WorldMap::Lorencia);
    assert_eq!(gameplay_world_from_setting(Some("abc")), WorldMap::Lorencia);
    assert_eq!(gameplay_world_from_setting(Some("200")), WorldMap::Lorencia);
    assert_eq!(gameplay_world_from_setting(Some("")), WorldMap::Lorencia);
}
