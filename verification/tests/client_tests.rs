use mu_online::camera_tour::{login_camera_fov_degrees, neighbor_indices, CameraTourCursor};
use mu_online::death_stab::{
    advance_death_stab_frames, arc_overflow, charge_light_active, distinct_anchor_pair,
    DeathStabFrameState,
};
use mu_online::debug_modes::{
    graphics_version_text, is_world_56, light_pool_size, parse_particle_blend_mode, sanitize_info_text,
    triangles_for_mesh, DebugFrameLimiter, DebugShadowQuality, FrameLimitMode, MeshTopology,
    ParticleBlendMode, ShadowQualityMode,
};
use mu_online::pools::{first_in_key_order, oldest_arcs, plan_light_pool};
use mu_online::scene_objects::{
    glb_asset_path_from_scene_path, is_character_model, needs_asset_check, normalize_scene_path,
    scene_object_model, scene_objects_unlit, SceneObjectModelChoice,
};
use mu_online::scene_stats::{
    reachable_entities, scene_counts, scene_object_ancestor, DebugSceneCounts,
};
use mu_online::scene_paths::{
    default_grass_candidates, grass_texture_fallbacks, legacy_terrain_map_file,
    normalize_asset_path, normalize_world_name, scene_asset_paths, scene_objects_asset_path,
    skybox_texture_candidates, to_snake_case, world_number, SceneAssetReadiness,
};
use mu_online::settings::{
    present_mode_for, FpsLimitSetting, GameSettings, GraphicsSettings, PresentModeChoice,
    RenderDistanceSetting, ResolutionSetting, ShadowFilteringChoice, ShadowQualitySetting,
    UpdateModeChoice, WindowModeSetting,
};
use mu_online::terrain::{
    build_grid_indices, find_fallback_ground_slot, find_grass_slots, grass_texture_candidates, is_billboard_dimensions,
    parse_png_dimensions, plan_grass_cells, plan_terrain_batches, plan_terrain_tiles,
    texture_slot_candidates, tile_triangle_vertices, TerrainMapData, TerrainMapHeader,
    TerrainMapSample, TerrainPass, TerrainTextureSlotsData,
};
use mu_online::vfx::{consume_rule_budget, phase_seed, plan_map_vfx, RuleBudgetState, VfxRuleBudget};
use mu_online::world_coordinates::{mirror_axis_from_setting, WorldMirrorAxis};
use std::collections::{HashMap, HashSet};

// ---------------------------------------------------------------------------
// Map effects
// ---------------------------------------------------------------------------

#[test]
fn rule_budget_respects_stride_and_cap() {
    let mut state = RuleBudgetState::default();
    let mut applied = 0u32;
    for _ in 0..10 {
        if consume_rule_budget(3, Some(2), &mut state) {
            applied += 1;
        }
    }
    assert_eq!(applied, 2);
}

#[test]
fn rule_budget_applies_every_stride_without_cap() {
    let mut state = RuleBudgetState::default();
    let outcomes: Vec<bool> = (0..7)
        .map(|_| consume_rule_budget(3, None, &mut state))
        .collect();
    assert_eq!(outcomes, vec![true, false, false, true, false, false, true]);
    assert_eq!(state, RuleBudgetState { seen: 7, applied: 3 });
}

#[test]
fn rule_budget_stride_zero_counts_as_one() {
    let mut state = RuleBudgetState::default();
    for _ in 0..5 {
        assert!(consume_rule_budget(0, None, &mut state));
    }
    assert_eq!(state.applied, 5);
    let mut capped = RuleBudgetState::default();
    assert!(!consume_rule_budget(1, Some(0), &mut capped));
    assert_eq!(capped, RuleBudgetState { seen: 1, applied: 0 });
}

#[test]
fn vfx_plan_gives_first_fitting_override_and_every_fitting_sprite() {
    let overrides = vec![
        VfxRuleBudget {
            object_type: 19,
            spawn_stride: 1,
            max_instances: Some(1),
        },
        VfxRuleBudget {
            object_type: 19,
            spawn_stride: 1,
            max_instances: None,
        },
        VfxRuleBudget {
            object_type: 7,
            spawn_stride: 2,
            max_instances: None,
        },
    ];
    let sprites = vec![
        VfxRuleBudget {
            object_type: 20,
            spawn_stride: 1,
            max_instances: None,
        },
        VfxRuleBudget {
            object_type: 20,
            spawn_stride: 2,
            max_instances: None,
        },
    ];
    let kinds = vec![19, 19, 20, 20, 7, 7, 5];
    let plans = plan_map_vfx(&overrides, &sprites, &kinds);
    let summary: Vec<(Option<usize>, Vec<usize>)> = plans
        .iter()
        .map(|p| (p.override_rule, p.sprite_rules.clone()))
        .collect();
    assert_eq!(
        summary,
        vec![
            (Some(0), vec![]),
            (Some(1), vec![]),
            (None, vec![0, 1]),
            (None, vec![0]),
            (Some(2), vec![]),
            (None, vec![]),
            (None, vec![]),
        ]
    );
}

#[test]
fn capped_rules_are_never_given_past_their_cap() {
    let overrides = vec![VfxRuleBudget {
        object_type: 3,
        spawn_stride: 1,
        max_instances: Some(2),
    }];
    let sprites = vec![VfxRuleBudget {
        object_type: 3,
        spawn_stride: 2,
        max_instances: Some(1),
    }];
    let kinds = vec![3u32; 10];
    let plans = plan_map_vfx(&overrides, &sprites, &kinds);
    assert_eq!(plans.len(), 10);
    let override_uses = plans.iter().filter(|p| p.override_rule == Some(0)).count();
    let sprite_uses = plans.iter().filter(|p| p.sprite_rules.contains(&0)).count();
    assert_eq!(override_uses, 2);
    assert_eq!(sprite_uses, 1);
    assert_eq!(plans[0].override_rule, Some(0));
    assert_eq!(plans[1].override_rule, Some(0));
    assert_eq!(plans[2].override_rule, None);
    assert_eq!(plans[0].sprite_rules, vec![0]);
}

#[test]
fn phase_seed_follows_the_congruence() {
    assert_eq!(phase_seed(0, 0), 2345);
    let expected = 7u32.wrapping_mul(1103515245).wrapping_add(12345 ^ 3) % 10_000;
    assert_eq!(phase_seed(7, 3), expected);
    assert!(phase_seed(u32::MAX, u32::MAX) < 10_000);
}

// ---------------------------------------------------------------------------
// Terrain
// ---------------------------------------------------------------------------

fn grid(rows: &[&[u8]]) -> Vec<Vec<u8>> {
    rows.iter().map(|row| row.to_vec()).collect()
}

fn map(layer1: &[&[u8]], layer2: &[&[u8]], alpha: &[&[u8]]) -> TerrainMapData {
    TerrainMapData {
        header: TerrainMapHeader::default(),
        terrain_size: 256,
        layer1: grid(layer1),
        layer2: grid(layer2),
        alpha: grid(alpha),
    }
}

#[test]
fn terrain_map_samples_cells() {
    let m = map(&[&[1, 2], &[3, 4]], &[&[5, 6], &[7, 8]], &[&[0, 9], &[10, 11]]);
    assert_eq!(m.width(), 2);
    assert_eq!(m.height(), 2);
    assert_eq!(
        m.sample(1, 0),
        Some(TerrainMapSample {
            layer1: 2,
            layer2: 6,
            alpha: 9
        })
    );
    assert_eq!(m.sample(2, 0), None);
    let ragged = map(&[&[1, 2], &[3, 4]], &[&[5, 6], &[7]], &[&[0, 9], &[10, 11]]);
    assert_eq!(ragged.sample(1, 1), None);
}

#[test]
fn texture_slot_paths_skip_blank_entries() {
    let mut slots = HashMap::new();
    slots.insert(2u16, "data/world4/TileGround01.png".to_string());
    slots.insert(3u16, "   ".to_string());
    let data = TerrainTextureSlotsData {
        world: Some(4),
        slots,
    };
    assert_eq!(data.path_for_slot(2), Some("data/world4/TileGround01.png"));
    assert_eq!(data.path_for_slot(3), None);
    assert_eq!(data.path_for_slot(4), None);
}

#[test]
fn grid_indices_cover_every_cell() {
    assert_eq!(
        build_grid_indices(3, 2),
        vec![0, 3, 1, 1, 3, 4, 1, 4, 2, 2, 4, 5]
    );
    assert_eq!(build_grid_indices(1, 5), Vec::<u32>::new());
    let indices = build_grid_indices(4, 3);
    assert_eq!(indices.len(), 6 * 3 * 2);
    assert!(indices.iter().all(|i| *i < 12));
}

#[test]
fn tile_vertices_follow_face_winding() {
    assert_eq!(tile_triangle_vertices(1, 2, 10), [21, 31, 22, 22, 31, 32]);
}

#[test]
fn png_header_gives_dimensions() {
    let mut bytes = vec![0x89, b'P', b'N', b'G', 0x0D, 0x0A, 0x1A, 0x0A, 0, 0, 0, 13];
    bytes.extend_from_slice(b"IHDR");
    bytes.extend_from_slice(&512u32.to_be_bytes());
    bytes.extend_from_slice(&128u32.to_be_bytes());
    assert_eq!(parse_png_dimensions(&bytes), Some((512, 128)));
    assert_eq!(parse_png_dimensions(&bytes[..23]), None);
    let mut bad = bytes.clone();
    bad[12] = b'X';
    assert_eq!(parse_png_dimensions(&bad), None);
    let mut not_png = bytes.clone();
    not_png[1] = b'Q';
    assert_eq!(parse_png_dimensions(&not_png), None);
}

#[test]
fn billboard_textures_are_twice_as_wide_as_high() {
    assert!(is_billboard_dimensions(512, 128));
    assert!(is_billboard_dimensions(256, 128));
    assert!(!is_billboard_dimensions(255, 128));
    assert!(!is_billboard_dimensions(256, 0));
}

#[test]
fn fallback_ground_slot_is_first_resolved_of_two_to_four() {
    let resolved: HashSet<u8> = [4u8, 3].into_iter().collect();
    assert_eq!(find_fallback_ground_slot(&resolved), Some(3));
    let none: HashSet<u8> = [0u8, 1].into_iter().collect();
    assert_eq!(find_fallback_ground_slot(&none), None);
}

#[test]
fn grass_slots_come_from_declared_grass_paths() {
    let mut slots = HashMap::new();
    slots.insert(0u16, "data/world4/TileGrass01.png".to_string());
    slots.insert(1u16, "data/world4/TileGround01.png".to_string());
    slots.insert(257u16, "data/world4/grass_B.png".to_string());
    let data = TerrainTextureSlotsData { world: None, slots };
    let found = find_grass_slots(Some(&data), [true; 5]);
    let expected: HashSet<u8> = [0u8, 1].into_iter().collect();
    assert_eq!(found, expected);
}

#[test]
fn grass_slots_fall_back_to_present_default_textures() {
    let data = TerrainTextureSlotsData::default();
    let found = find_grass_slots(Some(&data), [true, false, false, true, true]);
    let expected: HashSet<u8> = [0u8, 31, 32].into_iter().collect();
    assert_eq!(found, expected);
    assert!(find_grass_slots(None, [false; 5]).is_empty());
}

#[test]
fn billboard_like_grass_is_left_out_of_alpha_tiles() {
    // Slot 0 is billboard-like grass, slot 2 ordinary ground, slot 5 water.
    let m = map(
        &[&[0, 2, 0], &[2, 2, 5], &[0, 0, 0]],
        &[&[0, 255, 5], &[0, 0, 255], &[255, 255, 255]],
        &[&[128, 0, 0], &[0, 64, 0], &[0, 0, 0]],
    );
    let grass: HashSet<u8> = [0u8].into_iter().collect();
    let wide: HashSet<u8> = [0u8].into_iter().collect();
    let resolved: HashSet<u8> = [0u8, 2, 5].into_iter().collect();
    let tiles = plan_terrain_tiles(&m, 3, 3, Some(&grass), &wide, &resolved);
    assert!(!tiles.is_empty());
    assert_eq!(
        tiles
            .iter()
            .filter(|t| t.pass == TerrainPass::Alpha && grass.contains(&t.texture_slot))
            .count(),
        0
    );
    // The grass base of cell (0, 0) is replaced by the fallback ground slot.
    assert_eq!(tiles[0].texture_slot, 2);
    assert_eq!(tiles[0].pass, TerrainPass::Base);
}

#[test]
fn terrain_tiles_follow_layers_and_alpha() {
    let m = map(
        &[&[1, 1], &[1, 1]],
        &[&[7, 7], &[7, 7]],
        &[&[255, 255], &[255, 255]],
    );
    let empty = HashSet::new();
    let tiles = plan_terrain_tiles(&m, 2, 2, None, &empty, &empty);
    assert_eq!(tiles.len(), 1);
    assert_eq!(tiles[0].texture_slot, 7);
    assert_eq!(tiles[0].alphas, [255, 255, 255, 255]);

    let blended = map(&[&[1, 1], &[1, 1]], &[&[7, 7], &[7, 7]], &[&[10, 20], &[30, 40]]);
    let tiles = plan_terrain_tiles(&blended, 2, 2, None, &empty, &empty);
    assert_eq!(tiles.len(), 2);
    assert_eq!((tiles[0].texture_slot, tiles[0].pass), (1, TerrainPass::Base));
    assert_eq!(
        (tiles[1].texture_slot, tiles[1].pass, tiles[1].alphas),
        (7, TerrainPass::Alpha, [10, 20, 40, 30])
    );
    assert!(plan_terrain_tiles(&blended, 1, 2, None, &empty, &empty).is_empty());
}

#[test]
fn terrain_batches_are_sorted_and_counted() {
    let m = map(
        &[&[3, 1, 3], &[3, 3, 3], &[3, 3, 3]],
        &[&[7, 255, 255], &[255, 255, 255], &[255, 255, 255]],
        &[&[9, 0, 0], &[0, 0, 0], &[0, 0, 0]],
    );
    let empty = HashSet::new();
    let resolved: HashSet<u8> = [1u8, 3, 7].into_iter().collect();
    let tiles = plan_terrain_tiles(&m, 3, 3, None, &empty, &resolved);
    let batches = plan_terrain_batches(&tiles, &resolved);
    let summary: Vec<(TerrainPass, u8, usize)> = batches
        .iter()
        .map(|b| (b.pass, b.texture_slot, b.tiles))
        .collect();
    assert_eq!(
        summary,
        vec![
            (TerrainPass::Base, 1, 1),
            (TerrainPass::Base, 3, 3),
            (TerrainPass::Alpha, 7, 1)
        ]
    );
    assert_eq!(batches[1].triangles(), 6);
    let only_three: HashSet<u8> = [3u8].into_iter().collect();
    assert_eq!(plan_terrain_batches(&tiles, &only_three).len(), 1);
}

#[test]
fn grass_cells_need_grass_and_no_blend() {
    let m = map(
        &[&[0, 0, 2], &[0, 0, 0], &[0, 0, 0]],
        &[&[255, 255, 255], &[255, 255, 255], &[255, 255, 255]],
        &[&[0, 0, 0], &[0, 0, 50], &[0, 0, 0]],
    );
    let grass: HashSet<u8> = [0u8].into_iter().collect();
    let cells = plan_grass_cells(&m, 3, 3, &grass);
    let summary: Vec<(usize, usize, u8)> = cells.iter().map(|c| (c.x, c.z, c.variant)).collect();
    assert_eq!(summary, vec![(0, 0, 0), (0, 1, 1)]);
    assert_eq!((cells[1].chunk_x, cells[1].chunk_z), (0, 0));
    assert!(plan_grass_cells(&m, 0, 3, &grass).is_empty());
}

#[test]
fn texture_candidates_start_with_declared_path() {
    let mut slots = HashMap::new();
    slots.insert(2u16, "custom/ground.png".to_string());
    let data = TerrainTextureSlotsData { world: None, slots };
    let candidates = texture_slot_candidates("world4", Some(&data), 2);
    assert_eq!(candidates[0], "custom/ground.png");
    assert_eq!(candidates[1], "data/world4/TileGround01.png");
    assert_eq!(candidates.len(), 4);
    assert_eq!(texture_slot_candidates("world4", None, 2).len(), 3);
    assert!(texture_slot_candidates("world4", None, 200).is_empty());
}

// ---------------------------------------------------------------------------
// Camera tour
// ---------------------------------------------------------------------------

#[test]
fn camera_tour_loops_through_waypoints() {
    let mut cursor = CameraTourCursor::new(true);
    let mut visited = vec![cursor.current_index];
    for _ in 0..4 {
        assert!(cursor.advance_waypoint(3));
        visited.push(cursor.current_index);
    }
    assert_eq!(visited, vec![0, 1, 2, 0, 1]);
    assert_eq!(cursor.next_index, 2);
    assert!(cursor.active);
}

#[test]
fn camera_tour_without_loop_stops_at_last_waypoint() {
    let mut cursor = CameraTourCursor::new(false);
    assert!(cursor.advance_waypoint(3));
    assert!(!cursor.advance_waypoint(3));
    assert_eq!(cursor.current_index, 2);
    assert!(!cursor.active);
}

#[test]
fn camera_tour_cursor_is_normalized() {
    let mut cursor = CameraTourCursor {
        current_index: 9,
        next_index: 9,
        active: true,
        loop_enabled: true,
    };
    cursor.normalize(4);
    assert_eq!((cursor.current_index, cursor.next_index), (0, 1));
    let mut same = CameraTourCursor {
        current_index: 3,
        next_index: 3,
        active: true,
        loop_enabled: true,
    };
    same.normalize(4);
    assert_eq!((same.current_index, same.next_index), (3, 0));
    assert_eq!(neighbor_indices(0, 1, 4), (3, 2));
    assert_eq!(neighbor_indices(2, 3, 4), (1, 0));
}

#[test]
fn login_cameras_have_their_field_of_view() {
    assert_eq!(login_camera_fov_degrees("world_56"), Some(35));
    assert_eq!(login_camera_fov_degrees("world_74"), Some(65));
    assert_eq!(login_camera_fov_degrees("world_78"), Some(61));
    assert_eq!(login_camera_fov_degrees("World_56"), None);
}

// ---------------------------------------------------------------------------
// Debug toggles and overlay rules
// ---------------------------------------------------------------------------

#[test]
fn frame_limit_cycles_and_plans() {
    let start = DebugFrameLimiter::default().mode;
    assert_eq!(start, FrameLimitMode::Default);
    assert_eq!(start.next(), FrameLimitMode::MonitorLimit);
    assert_eq!(start.next().next().next(), start);
    assert_eq!(start.to_display_string(), "60 FPS");
    assert_eq!(FrameLimitMode::MonitorLimit.label(), "VSync (monitor)");
    assert_eq!(FrameLimitMode::Disabled.label(), "Desativado");
    assert_eq!(
        start.plan().update_mode,
        UpdateModeChoice::Reactive { fps: 60 }
    );
    assert_eq!(
        FrameLimitMode::Disabled.plan().present_mode,
        PresentModeChoice::AutoNoVsync
    );
}

#[test]
fn shadow_debug_mode_cycles_and_plans() {
    let start = DebugShadowQuality::default().mode;
    assert_eq!(start, ShadowQualityMode::Low);
    assert_eq!(start.next().next().next(), ShadowQualityMode::Off);
    assert_eq!(start.next().next().next().next(), start);
    assert_eq!(start.label(), "Baixa (Hardware2x2, 1 cascade, 1024)");
    assert_eq!(ShadowQualityMode::Off.to_display_string(), "Desativada");
    let high = ShadowQualityMode::High.plan();
    assert_eq!(high.shadow_map_size, Some(4096));
    assert_eq!(high.num_cascades, Some(3));
    assert_eq!(high.first_cascade_far_bound, Some(800));
    assert_eq!(high.filtering, Some(ShadowFilteringChoice::Gaussian));
    assert!(!ShadowQualityMode::Off.plan().shadows_enabled);
}

#[test]
fn light_pool_size_reads_setting() {
    assert_eq!(light_pool_size(None), 12);
    assert_eq!(light_pool_size(Some(" 5 ")), 5);
    assert_eq!(light_pool_size(Some("100")), 64);
    assert_eq!(light_pool_size(Some("-3")), 12);
    assert_eq!(light_pool_size(Some("lots")), 12);
}

#[test]
fn particle_blend_modes_parse() {
    assert_eq!(parse_particle_blend_mode(" ADD "), ParticleBlendMode::Additive);
    assert_eq!(parse_particle_blend_mode("Additive"), ParticleBlendMode::Additive);
    assert_eq!(parse_particle_blend_mode("alpha"), ParticleBlendMode::Alpha);
    assert_eq!(parse_particle_blend_mode("adds"), ParticleBlendMode::Alpha);
}

#[test]
fn info_text_is_trimmed_or_na() {
    assert_eq!(sanitize_info_text("  world4 "), "world4");
    assert_eq!(sanitize_info_text(" \t "), "n/a");
}

#[test]
fn triangles_depend_on_topology() {
    assert_eq!(triangles_for_mesh(Some(12), 100, MeshTopology::TriangleList), 4);
    assert_eq!(triangles_for_mesh(None, 10, MeshTopology::TriangleList), 3);
    assert_eq!(triangles_for_mesh(Some(5), 0, MeshTopology::TriangleStrip), 3);
    assert_eq!(triangles_for_mesh(Some(1), 0, MeshTopology::TriangleStrip), 0);
    assert_eq!(triangles_for_mesh(Some(9), 0, MeshTopology::Other), 0);
}

#[test]
fn world_56_is_recognized_ignoring_case() {
    assert!(is_world_56("WORLD_56", None));
    assert!(is_world_56("world1", Some("World_56")));
    assert!(!is_world_56("world1", Some("world56")));
}

// ---------------------------------------------------------------------------
// Scene objects
// ---------------------------------------------------------------------------

#[test]
fn scene_paths_of_models() {
    assert_eq!(normalize_scene_path("data/Object1/Tree01.glb"), "data/Object1/Tree01.glb#Scene0");
    assert_eq!(normalize_scene_path("data/Object1/Tree01.glb#Scene1"), "data/Object1/Tree01.glb#Scene1");
    assert_eq!(normalize_scene_path("data/Object1/Tree01.GLB"), "data/Object1/Tree01.GLB");
    assert_eq!(
        glb_asset_path_from_scene_path(" data/Object1/Tree01.GLB #Scene0"),
        Some("data/Object1/Tree01.GLB".to_string())
    );
    assert_eq!(glb_asset_path_from_scene_path("data/a.gltf#Scene0"), None);
}

#[test]
fn character_models_are_monsters_and_npcs() {
    assert!(is_character_model("data/Monster/Monster01.glb"));
    assert!(is_character_model("data/NPC/Smith.glb"));
    assert!(!is_character_model("data/Object1/Tree01.glb"));
}

#[test]
fn scene_object_model_choice() {
    assert_eq!(scene_object_model("", Some(true), true), SceneObjectModelChoice::Proxy);
    assert_eq!(scene_object_model("m.glb", Some(false), true), SceneObjectModelChoice::Proxy);
    assert_eq!(scene_object_model("m.glb", Some(true), false), SceneObjectModelChoice::Scene);
    assert_eq!(scene_object_model("m.glb", None, false), SceneObjectModelChoice::Proxy);
    assert_eq!(scene_object_model("m.glb", None, true), SceneObjectModelChoice::Scene);
    assert!(needs_asset_check("m.glb", None));
    assert!(!needs_asset_check("m.glb", Some(true)));
}

#[test]
fn unlit_setting_defaults_to_on() {
    assert!(scene_objects_unlit(None));
    assert!(scene_objects_unlit(Some("yes")));
    assert!(!scene_objects_unlit(Some(" OFF ")));
    assert!(!scene_objects_unlit(Some("0")));
}

// ---------------------------------------------------------------------------
// Scene paths, settings, coordinates
// ---------------------------------------------------------------------------

#[test]
fn world_names_are_normalized() {
    assert_eq!(normalize_world_name(""), "World1");
    assert_eq!(normalize_world_name("  World4 "), "world4");
    assert_eq!(normalize_world_name("74"), "world74");
    assert_eq!(normalize_world_name("WorldX"), "WorldX");
    assert_eq!(normalize_world_name("world_56"), "world_56");
    assert_eq!(world_number("world74"), Some(74));
    assert_eq!(world_number("world_56"), None);
    assert_eq!(legacy_terrain_map_file(4), "enc_terrain4.map.json");
}

#[test]
fn scene_object_override_paths() {
    assert_eq!(
        scene_objects_asset_path("world4", None),
        "data/world4/scene_objects.json"
    );
    assert_eq!(
        scene_objects_asset_path("world4", Some(" alt.json ")),
        "data/world4/alt.json"
    );
    assert_eq!(
        scene_objects_asset_path("world4", Some("a\\b.json")),
        "a/b.json"
    );
    assert_eq!(
        scene_objects_asset_path("world4", Some("  ")),
        "data/world4/scene_objects.json"
    );
    let paths = scene_asset_paths("world4", None);
    assert_eq!(
        paths.legacy_terrain_map,
        Some("data/world4/enc_terrain4.map.json".to_string())
    );
    assert_eq!(paths.map_vfx, None);
}

#[test]
fn asset_path_helpers() {
    assert_eq!(to_snake_case("TileGrass01"), "tile_grass01");
    assert_eq!(normalize_asset_path("  \\data\\x.png "), "data/x.png");
    assert_eq!(
        default_grass_candidates("world4", 30),
        vec!["data/world4/TileGrass01.png", "data/world4/tile_grass01.png"]
    );
    assert_eq!(grass_texture_fallbacks("w").len(), 12);
    let sky = skybox_texture_candidates("world4");
    assert_eq!(sky.len(), 12);
    assert_eq!(sky[1], "data/world4/map1.png");
    assert_eq!(sky[11], "data/effect/clouds4.png");
}

#[test]
fn scene_readiness_needs_every_asset() {
    let ready = SceneAssetReadiness {
        terrain_config: true,
        heightmap: true,
        terrain_map: false,
        legacy_terrain_map: Some(true),
        scene_objects: true,
        camera_tour: true,
        map_vfx: None,
    };
    assert!(ready.is_ready());
    assert!(!SceneAssetReadiness {
        legacy_terrain_map: None,
        ..ready
    }
    .is_ready());
    assert!(!SceneAssetReadiness {
        map_vfx: Some(false),
        ..ready
    }
    .is_ready());
}

#[test]
fn settings_cycles_and_defaults() {
    assert_eq!(WindowModeSetting::Windowed.next(), WindowModeSetting::Fullscreen);
    assert_eq!(ShadowQualitySetting::High.next(), ShadowQualitySetting::Off);
    assert_eq!(FpsLimitSetting::Unlimited.next(), FpsLimitSetting::Default60);
    assert_eq!(RenderDistanceSetting::Ultra.max_distance(), 12000);
    assert_eq!(
        ResolutionSetting {
            width: 2560,
            height: 1440
        }
        .next(),
        ResolutionSetting::default()
    );
    assert_eq!(ResolutionSetting::default().label(), "1280x720");
    let defaults = GameSettings::default();
    assert_eq!(defaults.graphics, GraphicsSettings::default());
    assert_eq!(present_mode_for(&defaults.graphics), PresentModeChoice::AutoVsync);
    assert_eq!(FpsLimitSetting::Monitor.label(), "Monitor");
}

#[test]
fn mirror_axis_setting_defaults_to_z() {
    assert_eq!(mirror_axis_from_setting(None), WorldMirrorAxis::Z);
    assert_eq!(mirror_axis_from_setting(Some(" xz ")), WorldMirrorAxis::XZ);
    assert_eq!(WorldMirrorAxis::parse("none"), Some(WorldMirrorAxis::NoMirror));
    assert!(!WorldMirrorAxis::XZ.flips_handedness());
    assert!(WorldMirrorAxis::X.flips_handedness());
}

// ---------------------------------------------------------------------------
// Death Stab timeline
// ---------------------------------------------------------------------------

#[test]
fn death_stab_cues_fire_once_in_order() {
    let mut state = DeathStabFrameState {
        last_processed_life_int: 20,
        sound_played: false,
        impact_applied: false,
    };
    let first = advance_death_stab_frames(&mut state, 13);
    assert_eq!(first.len(), 7);
    assert!(first.iter().all(|e| !e.play_sound && !e.impact));
    assert_eq!(first[2].life, 17);
    assert!(first[2].energy_window);
    assert_eq!(first[6].spike_step, Some(1));

    let second = advance_death_stab_frames(&mut state, 5);
    let sounds: Vec<i32> = second.iter().filter(|e| e.play_sound).map(|e| e.life).collect();
    let impacts: Vec<i32> = second.iter().filter(|e| e.impact).map(|e| e.life).collect();
    assert_eq!(sounds, vec![12]);
    assert_eq!(impacts, vec![10]);
    assert!(state.sound_played && state.impact_applied);
    assert_eq!(state.last_processed_life_int, 5);

    assert!(advance_death_stab_frames(&mut state, 7).is_empty());
}

#[test]
fn death_stab_helpers() {
    assert!(charge_light_active(8));
    assert!(charge_light_active(18));
    assert!(!charge_light_active(19));
    assert_eq!(distinct_anchor_pair(3, 3, 4), (3, 0));
    assert_eq!(distinct_anchor_pair(1, 2, 4), (1, 2));
    assert_eq!(arc_overflow(10, 5), 3);
    assert_eq!(arc_overflow(2, 5), 0);
    assert_eq!(arc_overflow(usize::MAX, 5), usize::MAX - 12);
}

#[test]
fn graphics_version_joins_driver_details() {
    assert_eq!(graphics_version_text(" Mesa ", " 24.0 "), "Mesa 24.0");
    assert_eq!(graphics_version_text("Mesa", "  "), "Mesa");
    assert_eq!(graphics_version_text("", ""), "n/a");
}

// ---------------------------------------------------------------------------
// Pools
// ---------------------------------------------------------------------------

#[test]
fn stable_key_order_picks_smallest_keys_first() {
    assert_eq!(
        first_in_key_order(&vec![5, 1, 5, 0, 9], 3),
        vec![true, true, false, true, false]
    );
    assert_eq!(first_in_key_order(&vec![2, 2, 2], 2), vec![true, true, false]);
    assert_eq!(first_in_key_order(&vec![4, 3], 9), vec![true, true]);
}

#[test]
fn light_pool_trims_and_fills() {
    let plan = plan_light_pool(&vec![3, 0, 5, 1], 2);
    assert_eq!(plan.despawn, vec![true, false, true, false]);
    assert!(plan.spawn_slots.is_empty());
    let grow = plan_light_pool(&vec![0, 1], 5);
    assert_eq!(grow.despawn, vec![false, false]);
    assert_eq!(grow.spawn_slots, vec![2, 3, 4]);
    assert_eq!(plan_light_pool(&vec![], 2).spawn_slots, vec![0, 1]);
}

#[test]
fn oldest_arcs_give_way() {
    assert_eq!(oldest_arcs(&vec![7, 3, 9, 4], 2), vec![false, true, false, true]);
    assert_eq!(oldest_arcs(&vec![7, 3], 0), vec![false, false]);
}

#[test]
fn grass_texture_candidates_follow_slot_order() {
    let mut slots = HashMap::new();
    slots.insert(31u16, " \\data\\world4\\TileGrass02.png".to_string());
    slots.insert(0u16, "data/world4/TileGrass01.png".to_string());
    slots.insert(2u16, "data/world4/TileGround01.png".to_string());
    let data = TerrainTextureSlotsData { world: None, slots };
    let grass: HashSet<u8> = [31u8, 0, 5].into_iter().collect();
    assert_eq!(
        grass_texture_candidates(Some(&data), &grass),
        vec![
            "data/world4/TileGrass01.png".to_string(),
            "data/world4/TileGrass02.png".to_string()
        ]
    );
    assert!(grass_texture_candidates(None, &grass).is_empty());
}

// ---------------------------------------------------------------------------
// Scene statistics
// ---------------------------------------------------------------------------

#[test]
fn reachable_entities_follow_children() {
    // 0 -> 1 -> 2, 3 -> 0 (3 not a root), 4 alone, 1 also lists a stale child 9.
    let children = vec![vec![1], vec![2, 9], vec![], vec![0], vec![]];
    assert_eq!(
        reachable_entities(&vec![0, 7], &children),
        vec![true, true, true, false, false]
    );
    // A cycle is visited once.
    let cyclic = vec![vec![1], vec![0]];
    assert_eq!(reachable_entities(&vec![1], &cyclic), vec![true, true]);
}

#[test]
fn scene_counts_cover_reached_meshes() {
    let children = vec![vec![1, 2], vec![3], vec![], vec![], vec![]];
    let meshes = vec![None, Some(10), Some(u64::MAX), Some(4), Some(100)];
    let visible = vec![false, true, false, true, true];
    let roots_of = vec![None, Some(0), Some(0), Some(1), Some(4)];
    let counts = scene_counts(&vec![0], &children, &meshes, &visible, &roots_of);
    assert_eq!(
        counts,
        DebugSceneCounts {
            mesh_count: 3,
            visible_mesh_count: 2,
            polygon_count: u64::MAX,
            visible_polygon_count: 14,
            visible_object_count: 2,
        }
    );
}

#[test]
fn scene_object_ancestor_walks_up() {
    let parent = vec![None, Some(0), Some(1), Some(2)];
    let is_object = vec![false, true, false, false];
    assert_eq!(scene_object_ancestor(3, &parent, &is_object), Some(1));
    assert_eq!(scene_object_ancestor(1, &parent, &is_object), Some(1));
    assert_eq!(scene_object_ancestor(0, &parent, &is_object), None);
    assert_eq!(scene_object_ancestor(8, &parent, &is_object), None);
}

#[test]
fn every_setting_cycle_returns_to_its_start() {
    for mode in WindowModeSetting::all() {
        assert_eq!(mode.next().next(), mode);
        assert_ne!(mode.next(), mode);
    }
    for quality in ShadowQualitySetting::all() {
        assert_eq!(quality.next().next().next().next(), quality);
    }
    for limit in FpsLimitSetting::all() {
        assert_eq!(limit.next().next().next(), limit);
    }
    for distance in RenderDistanceSetting::all() {
        assert_eq!(distance.next().next().next().next(), distance);
    }
    for resolution in ResolutionSetting::presets() {
        assert_eq!(resolution.next().next().next().next(), resolution);
    }
}

#[test]
fn terrain_tiles_stay_inside_the_mesh() {
    let m = map(
        &[&[1, 2, 3, 4], &[1, 2, 3, 4], &[1, 2, 3, 4]],
        &[&[5, 5, 5, 5], &[5, 5, 5, 5], &[5, 5, 5, 5]],
        &[&[0, 9, 0, 9], &[9, 0, 9, 0], &[0, 0, 0, 0]],
    );
    let empty = HashSet::new();
    let tiles = plan_terrain_tiles(&m, 3, 9, None, &empty, &empty);
    assert!(!tiles.is_empty());
    assert!(tiles.iter().all(|t| t.x + 1 < 3 && t.z + 1 < 9));
}
