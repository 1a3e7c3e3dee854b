use alveus_idle::app_state::{InRoom, Screen};
use alveus_idle::collision::{
    build_all_collision_masks, enclosure_for_room, key_for_asset_id, rebuild_mask_for_asset_event, is_walkable, is_walkable_with_dynamic, resolve_spawn_tile, truncate_ui_message,
    walkable_neighbors, CollisionLoadFailure, CollisionLoadFailures, CollisionMapKey, CollisionMasks,
    DynamicObstacleTiles, InEnclosure, LiveObstacle, COLLISION_LOAD_REASON_RECURSIVE_DEPENDENCY_FAILED,
    MAX_UI_MESSAGE_CHARS,
};
use alveus_idle::configs::{polly_placement, push_pop_placement};
use alveus_idle::content::{adjacent_tiles, tile_in_bounds};
use alveus_idle::types::{EnclosureId, TileBounds, TilePosition};

fn walkable_adjacent(
    masks: &CollisionMasks,
    key: CollisionMapKey,
    from: TilePosition,
    bounds: TileBounds,
) -> Vec<TilePosition> {
    adjacent_tiles(from)
        .into_iter()
        .filter(|tile| {
            tile_in_bounds(*tile, bounds) && is_walkable_with_dynamic(masks, &Vec::new(), &Vec::new(), key, *tile)
        })
        .collect()
}

#[test]
fn push_pop_wander_never_includes_feeding_dish() {
    let key = CollisionMapKey::Enclosure(EnclosureId::PushPopEnclosure);
    let mut masks = CollisionMasks::default();
    masks.set_static_mask(key, vec![TilePosition { x: 8, y: 6 }]);

    let dish = TilePosition { x: 8, y: 6 };
    assert!(
        !masks.is_statically_walkable(key, dish),
        "feeding dish tile must be blocked"
    );

    let from = TilePosition { x: 8, y: 5 };
    let bounds = push_pop_placement().wander_bounds;
    let neighbors = walkable_adjacent(&masks, key, from, bounds);

    assert!(
        !neighbors.contains(&dish),
        "wander candidates from (8,5) must not include the dish at (8,6)"
    );
}

fn nutrition_playpen_static_blocked() -> Vec<TilePosition> {
    vec![
        TilePosition { x: 9, y: 2 },
        TilePosition { x: 7, y: 5 },
        TilePosition { x: 8, y: 3 },
    ]
}

#[test]
fn polly_playpen_stations_reachable_and_home_has_wander_neighbors() {
    let key = CollisionMapKey::Enclosure(EnclosureId::NutritionHousePlaypen);
    let mut masks = CollisionMasks::default();
    masks.set_static_mask(key, nutrition_playpen_static_blocked());

    let bounds = polly_placement().wander_bounds;
    let home = polly_placement().home_position;
    let nesting = TilePosition { x: 9, y: 2 };
    let enrichment = TilePosition { x: 7, y: 5 };
    let bowl = TilePosition { x: 8, y: 3 };

    assert!(!masks.is_statically_walkable(key, nesting), "nesting box must be blocked");
    assert!(!masks.is_statically_walkable(key, enrichment), "enrichment post must be blocked");
    assert!(!masks.is_statically_walkable(key, bowl), "feed bowl must be blocked");
    assert!(
        masks.is_statically_walkable(key, TilePosition { x: 6, y: 3 }),
        "former gate tile must be open floor"
    );
    assert!(masks.is_statically_walkable(key, home), "Polly home must be walkable");

    let home_neighbors = walkable_adjacent(&masks, key, home, bounds);
    assert!(
        home_neighbors.len() >= 2,
        "Polly home needs ≥2 wander neighbors, got {home_neighbors:?}"
    );

    let nesting_adj = walkable_adjacent(&masks, key, nesting, bounds);
    assert!(!nesting_adj.is_empty(), "nesting box needs a walkable adjacent tile, got none");

    let enrich_adj = walkable_adjacent(&masks, key, enrichment, bounds);
    assert!(!enrich_adj.is_empty(), "enrichment post needs a walkable adjacent tile, got none");

    let bowl_adj = walkable_adjacent(&masks, key, bowl, bounds);
    assert!(!bowl_adj.is_empty(), "feed bowl needs a walkable adjacent tile, got none");
}

#[test]
fn live_obstacle_tile_blocks_movement() {
    let key = CollisionMapKey::Enclosure(EnclosureId::PushPopEnclosure);
    let mut masks = CollisionMasks::default();
    masks.set_static_mask(key, Vec::new());

    let blocked = TilePosition { x: 7, y: 5 };
    assert!(is_walkable_with_dynamic(&masks, &Vec::new(), &Vec::new(), key, blocked));
    assert!(!is_walkable_with_dynamic(&masks, &Vec::new(), &vec![blocked], key, blocked));
}

fn sample_failure(key: CollisionMapKey) -> CollisionLoadFailure {
    CollisionLoadFailure {
        key,
        asset_path: key.asset_path().to_string(),
        reason: COLLISION_LOAD_REASON_RECURSIVE_DEPENDENCY_FAILED.to_string(),
    }
}

#[test]
fn collision_load_failures_dedupe_by_key() {
    let mut failures = CollisionLoadFailures::default();
    let key = CollisionMapKey::Overview;

    assert!(failures.record(sample_failure(key)));
    assert!(!failures.record(sample_failure(key)));
    assert_eq!(failures.entries.len(), 1);
    assert!(failures.contains_key(key));
}

#[test]
fn collision_load_failures_clear_removes_stale_entries() {
    let mut failures = CollisionLoadFailures::default();
    assert!(failures.record(sample_failure(CollisionMapKey::Overview)));
    assert!(!failures.is_empty());

    failures.clear();
    assert!(failures.is_empty());
    assert!(failures.record(sample_failure(CollisionMapKey::Overview)));
    assert_eq!(failures.entries.len(), 1);
}

#[test]
fn collision_load_failures_toast_message_is_concise() {
    let mut failures = CollisionLoadFailures::default();
    for key in [
        CollisionMapKey::Overview,
        CollisionMapKey::Enclosure(EnclosureId::NutritionHousePlaypen),
        CollisionMapKey::Enclosure(EnclosureId::PushPopEnclosure),
    ] {
        assert!(failures.record(sample_failure(key)));
    }

    let toast = failures.toast_message();
    assert!(toast.contains("Could not load 3 maps"));
    assert!(!toast.contains('\n'));
    assert!(toast.chars().count() < 80);

    let detail = failures.loading_detail_message();
    assert!(detail.contains("Could not load a required map"));
    assert!(detail.chars().count() <= MAX_UI_MESSAGE_CHARS);
}

#[test]
fn collision_load_failures_player_message_is_bounded() {
    let mut failures = CollisionLoadFailures::default();
    for key in [
        CollisionMapKey::Overview,
        CollisionMapKey::Enclosure(EnclosureId::NutritionHousePlaypen),
        CollisionMapKey::Enclosure(EnclosureId::PushPopEnclosure),
        CollisionMapKey::Enclosure(EnclosureId::Pasture),
        CollisionMapKey::Enclosure(EnclosureId::ReptileEnclosure),
    ] {
        assert!(failures.record(sample_failure(key)));
    }

    let msg = failures.loading_detail_message();
    assert!(msg.contains("Could not load a required map"));
    assert!(msg.chars().count() <= MAX_UI_MESSAGE_CHARS);
}

#[test]
fn single_failure_toast_names_the_map() {
    let mut failures = CollisionLoadFailures::default();
    assert!(failures.record(sample_failure(CollisionMapKey::Overview)));
    let toast = failures.toast_message();
    assert!(toast.contains("Could not load"));
    assert!(!toast.contains('\n'));
}

#[test]
fn truncate_ui_message_keeps_short_messages() {
    let short = "short message".to_string();
    assert_eq!(truncate_ui_message(short.clone()), short);
    let long: String = std::iter::repeat('x').take(1000).collect();
    let cut = truncate_ui_message(long);
    assert!(cut.chars().count() <= MAX_UI_MESSAGE_CHARS);
}

#[test]
fn room_enclosure_round_trip_examples() {
    assert_eq!(enclosure_for_room(InRoom::PushPopEnclosure), EnclosureId::PushPopEnclosure);
    assert_eq!(
        CollisionMapKey::for_screen(&Screen::InRoom(InRoom::PushPopEnclosure)),
        CollisionMapKey::Enclosure(EnclosureId::PushPopEnclosure)
    );
    assert_eq!(CollisionMapKey::for_screen(&Screen::Gameplay), CollisionMapKey::Overview);
    assert_eq!(CollisionMapKey::Overview.enclosure_id(), None);
}

#[test]
fn missing_mask_is_not_walkable() {
    let masks = CollisionMasks::default();
    let key = CollisionMapKey::Overview;
    assert!(!masks.is_statically_walkable(key, TilePosition { x: 1, y: 1 }));
}

#[test]
fn live_obstacle_in_other_enclosure_does_not_block() {
    let key = CollisionMapKey::Enclosure(EnclosureId::PushPopEnclosure);
    let mut masks = CollisionMasks::default();
    masks.set_static_mask(key, Vec::new());
    let tile = TilePosition { x: 3, y: 3 };
    let other = vec![LiveObstacle {
        entity: 7,
        tile,
        in_enclosure: Some(InEnclosure(EnclosureId::Pasture)),
    }];
    assert!(is_walkable(&masks, &Vec::new(), &other, key, tile, None));
    let same = vec![LiveObstacle {
        entity: 7,
        tile,
        in_enclosure: Some(InEnclosure(EnclosureId::PushPopEnclosure)),
    }];
    assert!(!is_walkable(&masks, &Vec::new(), &same, key, tile, None));
    assert!(is_walkable(&masks, &Vec::new(), &same, key, tile, Some(7)));
    let persisted = vec![(EnclosureId::PushPopEnclosure, DynamicObstacleTiles(vec![tile]))];
    assert!(!is_walkable(&masks, &persisted, &Vec::new(), key, tile, None));
}

#[test]
fn walkable_neighbors_stays_in_bounds() {
    let key = CollisionMapKey::Enclosure(EnclosureId::PushPopEnclosure);
    let mut masks = CollisionMasks::default();
    masks.set_static_mask(key, vec![TilePosition { x: 2, y: 1 }]);
    let bounds = TileBounds {
        bottom_left: TilePosition { x: 0, y: 0 },
        top_right: TilePosition { x: 2, y: 2 },
    };
    let got = walkable_neighbors(TilePosition { x: 1, y: 1 }, bounds, key, &masks, &Vec::new(), &Vec::new(), None);
    assert_eq!(
        got,
        vec![
            TilePosition { x: 0, y: 1 },
            TilePosition { x: 1, y: 0 },
            TilePosition { x: 1, y: 2 },
        ]
    );
}

#[test]
fn resolve_spawn_tile_moves_off_a_blocked_tile() {
    let key = CollisionMapKey::Enclosure(EnclosureId::PushPopEnclosure);
    let mut masks = CollisionMasks::default();
    let preferred = TilePosition { x: 1, y: 1 };
    masks.set_static_mask(key, vec![preferred]);
    let bounds = TileBounds {
        bottom_left: TilePosition { x: 0, y: 0 },
        top_right: TilePosition { x: 2, y: 2 },
    };
    let got = resolve_spawn_tile(preferred, bounds, key, &masks, &Vec::new(), &Vec::new(), None);
    assert_ne!(got, preferred);
    assert!(tile_in_bounds(got, bounds));
    assert!(masks.is_statically_walkable(key, got));

    let open = TilePosition { x: 2, y: 2 };
    assert_eq!(resolve_spawn_tile(open, bounds, key, &masks, &Vec::new(), &Vec::new(), None), open);

    let mut all_blocked = CollisionMasks::default();
    let mut every = Vec::new();
    for x in 0..3 {
        for y in 0..3 {
            every.push(TilePosition { x, y });
        }
    }
    all_blocked.set_static_mask(key, every);
    assert_eq!(
        resolve_spawn_tile(preferred, bounds, key, &all_blocked, &Vec::new(), &Vec::new(), None),
        preferred
    );
}

fn manhattan(a: TilePosition, b: TilePosition) -> u32 {
    a.x.abs_diff(b.x) + a.y.abs_diff(b.y)
}

#[test]
fn resolve_spawn_tile_picks_a_nearest_free_tile() {
    let key = CollisionMapKey::Enclosure(EnclosureId::Pasture);
    let bounds = TileBounds {
        bottom_left: TilePosition { x: 0, y: 0 },
        top_right: TilePosition { x: 4, y: 4 },
    };
    let preferred = TilePosition { x: 2, y: 2 };
    let mut ring = vec![preferred];
    for t in adjacent_tiles(preferred) {
        ring.push(t);
    }
    let mut masks = CollisionMasks::default();
    masks.set_static_mask(key, vec![preferred, TilePosition { x: 1, y: 2 }]);
    let near = resolve_spawn_tile(preferred, bounds, key, &masks, &Vec::new(), &Vec::new(), None);
    assert_eq!(manhattan(near, preferred), 1);

    let mut walled = CollisionMasks::default();
    walled.set_static_mask(key, ring);
    let far = resolve_spawn_tile(preferred, bounds, key, &walled, &Vec::new(), &Vec::new(), None);
    assert_eq!(manhattan(far, preferred), 2);
    assert!(walled.is_statically_walkable(key, far));
}

#[test]
fn masks_are_built_for_loaded_maps_only() {
    let mut masks = CollisionMasks::default();
    let overview_tiles = vec![
        (TilePosition { x: 1, y: 1 }, true),
        (TilePosition { x: 2, y: 2 }, false),
        (TilePosition { x: 1, y: 1 }, true),
    ];
    let maps = vec![
        (CollisionMapKey::Overview, Some(overview_tiles)),
        (CollisionMapKey::Enclosure(EnclosureId::Pasture), None),
    ];
    build_all_collision_masks(&mut masks, &maps);
    assert!(masks.contains(CollisionMapKey::Overview));
    assert!(!masks.is_statically_walkable(CollisionMapKey::Overview, TilePosition { x: 1, y: 1 }));
    assert!(masks.is_statically_walkable(CollisionMapKey::Overview, TilePosition { x: 2, y: 2 }));
    assert!(!masks.contains(CollisionMapKey::Enclosure(EnclosureId::Pasture)));
}

#[test]
fn asset_events_rebuild_the_matching_map() {
    let interiors = vec![
        (EnclosureId::NutritionHousePlaypen, 11),
        (EnclosureId::PushPopEnclosure, 12),
        (EnclosureId::Pasture, 12),
    ];
    assert_eq!(key_for_asset_id(10, 10, &interiors), Some(CollisionMapKey::Overview));
    assert_eq!(
        key_for_asset_id(12, 10, &interiors),
        Some(CollisionMapKey::Enclosure(EnclosureId::PushPopEnclosure))
    );
    assert_eq!(key_for_asset_id(99, 10, &interiors), None);

    let mut masks = CollisionMasks::default();
    let tiles = vec![(TilePosition { x: 4, y: 4 }, true)];
    rebuild_mask_for_asset_event(&mut masks, 12, 10, &interiors, &tiles);
    let key = CollisionMapKey::Enclosure(EnclosureId::PushPopEnclosure);
    assert!(!masks.is_statically_walkable(key, TilePosition { x: 4, y: 4 }));
    assert!(masks.is_statically_walkable(key, TilePosition { x: 4, y: 5 }));
    rebuild_mask_for_asset_event(&mut masks, 99, 10, &interiors, &tiles);
    assert!(!masks.contains(CollisionMapKey::Overview));
}
