use sro_hud::minimap::{
    area_region, build_dungeon_groups, coord_text, current_floor, dot_sign, dungeon_tile_entry,
    floor_badge_text, floor_label, recenter, same_context, sync_minimap_dungeon_context,
    tile_in_range, tile_path, zoom_in, zoom_out, DotSign, DungeonContextAction, DungeonGroups,
    MinimapDungeonContext, MinimapState, RemoteKind, DEFAULT_ZOOM_IDX, DOT_POOL_SIZE,
    ZOOM_LEVEL_COUNT,
};

#[test]
fn coordinate_labels_use_the_original_axis_letters() {
    assert_eq!(coord_text('X', 6400), "X: 6400");
    assert_eq!(coord_text('Y', -70), "Y: -70");
}

#[test]
fn dot_sizes_match_the_sign_art() {
    assert_eq!(DotSign::Monster.size(), 8);
    assert_eq!(DotSign::Npc.size(), 8);
    assert_eq!(DotSign::OtherPlayer.size(), 8);
    assert_eq!(DotSign::Unique.size(), 12);
    assert_eq!(DOT_POOL_SIZE, 64);
}

#[test]
fn each_entity_kind_draws_its_own_sign() {
    assert_eq!(dot_sign(RemoteKind::Item, false), None);
    assert_eq!(dot_sign(RemoteKind::Monster, false), Some(DotSign::Monster));
    assert_eq!(dot_sign(RemoteKind::Monster, true), Some(DotSign::Unique));
    assert_eq!(dot_sign(RemoteKind::Npc, false), Some(DotSign::Npc));
    assert_eq!(dot_sign(RemoteKind::Player, true), Some(DotSign::OtherPlayer));
}

#[test]
fn the_zoom_buttons_step_and_stop_at_the_ends() {
    let mut state = MinimapState::default();
    assert_eq!(state.zoom_idx, DEFAULT_ZOOM_IDX);
    assert_eq!(state.center_region, None);
    for _ in 0..10 {
        zoom_in(&mut state);
    }
    assert_eq!(state.zoom_idx, ZOOM_LEVEL_COUNT - 1);
    zoom_out(&mut state);
    assert_eq!(state.zoom_idx, ZOOM_LEVEL_COUNT - 2);
    for _ in 0..10 {
        zoom_out(&mut state);
    }
    assert_eq!(state.zoom_idx, 0);
}

#[test]
fn the_grid_repoints_only_when_the_region_changes() {
    let mut state = MinimapState::default();
    assert!(recenter(&mut state, 168, 98), "the first position always repoints");
    assert!(!recenter(&mut state, 168, 98));
    assert!(recenter(&mut state, 169, 98));
    assert_eq!(state.center_region, Some((169, 98)));
}

#[test]
fn the_area_region_is_z_times_256_plus_x() {
    assert_eq!(area_region(None, Some((168, 98))), Some(98 * 256 + 168));
    assert_eq!(area_region(None, None), None);
    assert_eq!(area_region(None, Some((256, 0))), None, "off the region grid");
    assert_eq!(area_region(None, Some((-1, 4))), None);
    assert_eq!(area_region(Some(32769), Some((168, 98))), Some(32769), "a dungeon names itself");
}

#[test]
fn the_floor_badge_reads_basements_and_upper_floors() {
    assert_eq!(floor_label(Some((true, 3)), "whatever"), "B3");
    assert_eq!(floor_label(Some((false, 1)), "whatever"), "1F");
    // no floor row: the name's trailing number, else blank
    assert_eq!(floor_label(None, "donwhang_event02"), "2F");
    assert_eq!(floor_label(None, "floor"), "");
    assert_eq!(floor_label(None, ""), "");
    assert_eq!(floor_label(None, "f99999999999"), "", "a number past u32 reads as none");
}

fn context(group: Option<&str>) -> MinimapDungeonContext {
    MinimapDungeonContext {
        region_id: 32769,
        floor: "dh_a01_floor01".to_string(),
        group: group.map(|g| g.to_string()),
        floor_number: Some((false, 1)),
    }
}

#[test]
fn tiles_load_from_the_overworld_or_the_floor_set() {
    assert_eq!(tile_path(168, 98, None), "media://minimap/168x98.ddj");
    let ctx = context(Some("donwhang"));
    assert_eq!(
        tile_path(127, 126, Some(&ctx)),
        "media://minimap_d/donwhang/dh_a01_floor01_127x126.ddj"
    );
    assert!(tile_in_range(0, 255, None));
    assert!(!tile_in_range(256, 3, None));
    assert!(!tile_in_range(3, -1, None));
    assert!(tile_in_range(127, 126, Some(&ctx)));
    assert!(!tile_in_range(127, 126, Some(&context(None))), "a floor without tiles hides them");
}

#[test]
fn a_tile_path_names_its_floor_and_group() {
    assert_eq!(
        dungeon_tile_entry("minimap_d/donwhang/dh_a01_floor01_127x126.ddj"),
        Some(("dh_a01_floor01".to_string(), "donwhang".to_string()))
    );
    assert_eq!(dungeon_tile_entry("minimap/168x98.ddj"), None);
    assert_eq!(dungeon_tile_entry("minimap_d/donwhang.ddj"), None, "no group directory");
    assert_eq!(dungeon_tile_entry("minimap_d/donwhang/readme.txt"), None);
    assert_eq!(dungeon_tile_entry("minimap_d/donwhang/floor.ddj"), None, "no coordinates");
}

#[test]
fn the_archive_index_is_case_and_slash_insensitive_and_first_wins() {
    let paths = vec![
        "Minimap_D\\DonWhang\\DH_A01_Floor01_127x126.ddj".to_string(),
        "minimap_d/other/dh_a01_floor01_128x126.ddj".to_string(),
        "minimap_d/qin/qt_floor02_1x1.ddj".to_string(),
        "interface/minimap/mm_window.ddj".to_string(),
    ];
    let groups = build_dungeon_groups(&paths);
    assert_eq!(groups.entries.len(), 2);
    assert_eq!(groups.group_of("dh_a01_floor01"), Some("donwhang".to_string()));
    assert_eq!(groups.group_of("qt_floor02"), Some("qin".to_string()));
    assert_eq!(groups.group_of("nowhere"), None);
}

#[test]
fn indexing_the_same_floor_twice_keeps_the_first_group() {
    let mut groups = DungeonGroups::new();
    groups.insert_tile_path("minimap_d/a/f_1x1.ddj");
    groups.insert_tile_path("minimap_d/b/f_2x2.ddj");
    assert_eq!(groups.group_of("f"), Some("a".to_string()));
}

#[test]
fn the_current_floor_is_the_block_label_lowercased() {
    assert_eq!(current_floor(Some("DH_A01_Floor01"), &[]), Some("dh_a01_floor01".to_string()));
    assert_eq!(current_floor(None, &["Event_Floor"]), Some("event_floor".to_string()));
    assert_eq!(current_floor(None, &["a", "b"]), None);
    assert_eq!(current_floor(None, &[]), None);
}

#[test]
fn the_context_follows_the_dungeon_and_resets_the_grid() {
    let mut state = MinimapState::default();
    state.center_region = Some((1, 1));
    let mut groups = DungeonGroups::new();
    groups.insert_tile_path("minimap_d/donwhang/dh_a01_floor01_127x126.ddj");

    // outside a dungeon with no context: nothing to do
    let action = sync_minimap_dungeon_context(None, true, None, None, None, None, &mut state);
    assert!(matches!(action, DungeonContextAction::Keep));
    assert_eq!(state.center_region, Some((1, 1)));

    // inside, but the archive is not indexed yet
    let action = sync_minimap_dungeon_context(Some(32769), true, None, None, None, None, &mut state);
    assert!(matches!(action, DungeonContextAction::IndexArchive));

    // the floor is known: the context is set and the grid re-points
    let action = sync_minimap_dungeon_context(
        Some(32769),
        true,
        Some(&groups),
        Some("dh_a01_floor01".to_string()),
        Some((false, 1)),
        None,
        &mut state,
    );
    let ctx = match action {
        DungeonContextAction::Replace(ctx) => ctx,
        _ => panic!("expected a new context"),
    };
    assert!(same_context(&ctx, &context(Some("donwhang"))));
    assert_eq!(state.center_region, None);

    // the same floor again changes nothing
    state.center_region = Some((127, 126));
    let action = sync_minimap_dungeon_context(
        Some(32769),
        true,
        Some(&groups),
        Some("dh_a01_floor01".to_string()),
        Some((false, 1)),
        Some(&ctx),
        &mut state,
    );
    assert!(matches!(action, DungeonContextAction::Keep));
    assert_eq!(state.center_region, Some((127, 126)));

    // leaving the dungeon clears it
    let action = sync_minimap_dungeon_context(None, true, None, None, None, Some(&ctx), &mut state);
    assert!(matches!(action, DungeonContextAction::Clear));
    assert_eq!(state.center_region, None);

    assert_eq!(floor_badge_text(Some(&ctx)), "1F");
    assert_eq!(floor_badge_text(None), "");
}
