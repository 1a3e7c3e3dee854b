use alveus_idle::app_state::{InRoom, Screen};
use alveus_idle::cleaning::{
    apply_poop_dump, apply_poop_pickup, pick_random_poop_tile, pick_random_poop_tile_in_bounds, poops_visible,
    room_for_enclosure, sync_missing_poop_entities, sync_threshold_poop_spawn, sync_threshold_poops_for_config, try_dump_poop, try_pickup_poop,
    PoopPickedUpEvent, PoopWheelbarrow,
};
use alveus_idle::collision::{CollisionMapKey, CollisionMasks, DynamicObstacleTiles, InEnclosure, LiveObstacle};
use alveus_idle::configs::{poop_config_for, target_poop_count, PoopConfig};
use alveus_idle::types::{CleanStat, EnclosureId, Stat, TileBounds, TilePosition};
use rand::rngs::StdRng;
use rand::SeedableRng;

fn test_config() -> PoopConfig {
    PoopConfig {
        spawn_thresholds: vec![Stat(800)],
        poop_decay_per_hour: 1,
        cleanliness_restore_per_poop: CleanStat(Stat(1)),
        spawn_bounds: TileBounds {
            bottom_left: TilePosition { x: 0, y: 0 },
            top_right: TilePosition { x: 2, y: 2 },
        },
    }
}

fn test_key() -> CollisionMapKey {
    CollisionMapKey::Enclosure(EnclosureId::PushPopEnclosure)
}

fn all_test_tiles() -> Vec<TilePosition> {
    vec![
        TilePosition { x: 0, y: 0 },
        TilePosition { x: 1, y: 0 },
        TilePosition { x: 2, y: 0 },
        TilePosition { x: 0, y: 1 },
        TilePosition { x: 1, y: 1 },
        TilePosition { x: 2, y: 1 },
        TilePosition { x: 0, y: 2 },
        TilePosition { x: 1, y: 2 },
        TilePosition { x: 2, y: 2 },
    ]
}

#[test]
fn pick_random_poop_tile_in_bounds_returns_none_when_fully_blocked_by_mask() {
    let config = test_config();
    let key = test_key();
    let mut masks = CollisionMasks::default();
    masks.set_static_mask(key, all_test_tiles());
    let blocked = Vec::new();
    let live = Vec::new();
    let mut rng = StdRng::seed_from_u64(1);

    assert!(pick_random_poop_tile_in_bounds(&config, key, &masks, &blocked, &live, None, &mut rng).is_none());
}

#[test]
fn pick_random_poop_tile_in_bounds_excludes_blocked_tiles() {
    let config = test_config();
    let key = test_key();
    let mut masks = CollisionMasks::default();
    masks.set_static_mask(key, Vec::new());
    let blocked = vec![TilePosition { x: 0, y: 0 }, TilePosition { x: 2, y: 2 }];
    let live = Vec::new();
    let mut rng = StdRng::seed_from_u64(2);

    for _ in 0..20 {
        let tile = pick_random_poop_tile_in_bounds(&config, key, &masks, &blocked, &live, None, &mut rng)
            .expect("open tiles remain");
        assert!(!blocked.contains(&tile));
    }
}

#[test]
fn pick_random_poop_tile_in_bounds_excludes_live_tiles() {
    let config = test_config();
    let key = test_key();
    let mut masks = CollisionMasks::default();
    masks.set_static_mask(key, Vec::new());
    let blocked = Vec::new();
    let live = vec![TilePosition { x: 1, y: 1 }];
    let mut rng = StdRng::seed_from_u64(3);

    for _ in 0..20 {
        let tile = pick_random_poop_tile_in_bounds(&config, key, &masks, &blocked, &live, None, &mut rng)
            .expect("open tiles remain");
        assert!(!live.contains(&tile));
    }
}

#[test]
fn pick_random_poop_tile_in_bounds_respects_exclude() {
    let config = test_config();
    let key = test_key();
    let mut masks = CollisionMasks::default();
    masks.set_static_mask(key, Vec::new());
    let blocked = Vec::new();
    let live = Vec::new();
    let exclude = TilePosition { x: 1, y: 1 };
    let mut rng = StdRng::seed_from_u64(4);

    for _ in 0..20 {
        let tile = pick_random_poop_tile_in_bounds(&config, key, &masks, &blocked, &live, Some(exclude), &mut rng)
            .expect("open tiles remain");
        assert_ne!(tile, exclude);
    }
}

#[test]
fn pick_random_poop_tile_in_bounds_picks_valid_tile() {
    let config = test_config();
    let key = test_key();
    let mut masks = CollisionMasks::default();
    masks.set_static_mask(key, Vec::new());
    let blocked = Vec::new();
    let live = Vec::new();
    let mut rng = StdRng::seed_from_u64(5);

    let tile = pick_random_poop_tile_in_bounds(&config, key, &masks, &blocked, &live, None, &mut rng)
        .expect("should pick from open grid");
    assert!(all_test_tiles().contains(&tile));
}

#[test]
fn only_one_open_tile_is_always_picked() {
    let config = test_config();
    let key = test_key();
    let mut masks = CollisionMasks::default();
    let mut blocked_by_mask = all_test_tiles();
    blocked_by_mask.retain(|t| *t != TilePosition { x: 2, y: 1 });
    masks.set_static_mask(key, blocked_by_mask);
    let mut rng = StdRng::seed_from_u64(9);
    for _ in 0..10 {
        assert_eq!(
            pick_random_poop_tile_in_bounds(&config, key, &masks, &Vec::new(), &Vec::new(), None, &mut rng),
            Some(TilePosition { x: 2, y: 1 })
        );
    }
}

#[test]
fn pick_random_poop_tile_skips_saved_and_scoped_live_tiles() {
    let config = test_config();
    let key = test_key();
    let mut masks = CollisionMasks::default();
    let mut mask = all_test_tiles();
    mask.retain(|t| t.y != 0);
    masks.set_static_mask(key, mask);
    let saved = DynamicObstacleTiles(vec![TilePosition { x: 0, y: 0 }]);
    let live = vec![
        LiveObstacle { entity: 1, tile: TilePosition { x: 1, y: 0 }, in_enclosure: Some(InEnclosure(EnclosureId::PushPopEnclosure)) },
        LiveObstacle { entity: 2, tile: TilePosition { x: 2, y: 0 }, in_enclosure: Some(InEnclosure(EnclosureId::Pasture)) },
    ];
    let mut rng = StdRng::seed_from_u64(11);
    for _ in 0..10 {
        assert_eq!(
            pick_random_poop_tile(EnclosureId::PushPopEnclosure, &config, key, &masks, &saved, &live, None, &mut rng),
            Some(TilePosition { x: 2, y: 0 })
        );
    }
}

#[test]
fn threshold_sync_spawns_up_to_the_target() {
    let config = test_config();
    let key = test_key();
    let mut masks = CollisionMasks::default();
    masks.set_static_mask(key, Vec::new());
    let mut tiles = DynamicObstacleTiles(Vec::new());
    let mut rng = StdRng::seed_from_u64(6);
    let spawned = sync_threshold_poops_for_config(
        EnclosureId::PushPopEnclosure,
        &config,
        Stat(800),
        &masks,
        &mut tiles,
        &Vec::new(),
        None,
        &mut rng,
    );
    assert_eq!(spawned.len(), 1);
    assert_eq!(tiles.0, spawned);
    let again = sync_threshold_poops_for_config(
        EnclosureId::PushPopEnclosure,
        &config,
        Stat(800),
        &masks,
        &mut tiles,
        &Vec::new(),
        None,
        &mut rng,
    );
    assert!(again.is_empty());
    let clean = sync_threshold_poops_for_config(
        EnclosureId::PushPopEnclosure,
        &config,
        Stat(801),
        &masks,
        &mut DynamicObstacleTiles(Vec::new()),
        &Vec::new(),
        None,
        &mut rng,
    );
    assert!(clean.is_empty());
}

#[test]
fn target_poop_count_counts_reached_thresholds() {
    let thresholds = [Stat(800), Stat(500), Stat(200)];
    assert_eq!(target_poop_count(Stat(1000), &thresholds), 0);
    assert_eq!(target_poop_count(Stat(800), &thresholds), 1);
    assert_eq!(target_poop_count(Stat(499), &thresholds), 2);
    assert_eq!(target_poop_count(Stat(0), &thresholds), 3);
}

#[test]
fn wheelbarrow_fills_to_capacity_and_empties() {
    let mut wheelbarrow = PoopWheelbarrow::default();
    assert_eq!(try_dump_poop(&wheelbarrow), Err("Wheelbarrow is empty"));
    for _ in 0..10 {
        assert_eq!(try_pickup_poop(&mut wheelbarrow, EnclosureId::PushPopEnclosure), Ok(()));
    }
    assert_eq!(wheelbarrow.count(), 10);
    assert_eq!(
        try_pickup_poop(&mut wheelbarrow, EnclosureId::PushPopEnclosure),
        Err("Wheelbarrow is full — empty it at the compost bin")
    );
    assert_eq!(try_dump_poop(&wheelbarrow).map(|v| v.len()), Ok(10));
    assert_eq!(apply_poop_dump(&mut wheelbarrow), "Emptied wheelbarrow");
    assert_eq!(wheelbarrow.count(), 0);
}

#[test]
fn poop_pickup_restores_cleanliness_and_reports_count() {
    let mut wheelbarrow = PoopWheelbarrow::default();
    try_pickup_poop(&mut wheelbarrow, EnclosureId::PushPopEnclosure).unwrap();
    let tile = TilePosition { x: 4, y: 4 };
    let mut records = vec![(EnclosureId::PushPopEnclosure, DynamicObstacleTiles(vec![tile, TilePosition { x: 5, y: 5 }]))];
    let effects = apply_poop_pickup(
        PoopPickedUpEvent { entity: 3, enclosure_id: EnclosureId::PushPopEnclosure, tile },
        &wheelbarrow,
        &mut records,
    );
    assert_eq!(effects.message, "Picked up poop (1/10)");
    assert_eq!(effects.improve.amount, 350);
    assert_eq!(records[0].1 .0, vec![TilePosition { x: 5, y: 5 }]);
}

#[test]
fn poops_show_only_in_their_room() {
    assert!(poops_visible(Screen::InRoom(InRoom::PushPopEnclosure), EnclosureId::PushPopEnclosure));
    assert!(!poops_visible(Screen::InRoom(InRoom::NutritionHouse), EnclosureId::PushPopEnclosure));
    assert!(!poops_visible(Screen::Gameplay, EnclosureId::PushPopEnclosure));
    assert_eq!(room_for_enclosure(EnclosureId::NutritionHousePlaypen), InRoom::NutritionHouse);
}

#[test]
fn missing_poop_entities_are_the_unspawned_tiles() {
    let tiles = DynamicObstacleTiles(vec![TilePosition { x: 1, y: 1 }, TilePosition { x: 2, y: 2 }]);
    let existing = vec![TilePosition { x: 2, y: 2 }];
    assert_eq!(sync_missing_poop_entities(&tiles, &existing), vec![TilePosition { x: 1, y: 1 }]);
}

#[test]
fn shipped_poop_config_is_shared() {
    let config = poop_config_for(EnclosureId::Pasture);
    assert_eq!(config.spawn_thresholds, vec![Stat(800), Stat(500), Stat(200)]);
    assert_eq!(config.cleanliness_restore_per_poop, CleanStat(Stat(350)));
}

#[test]
fn runtime_poop_is_scoped_to_its_room() {
    let room = Screen::InRoom(room_for_enclosure(EnclosureId::PushPopEnclosure));
    assert_eq!(room, Screen::InRoom(InRoom::PushPopEnclosure));
    assert!(poops_visible(room, EnclosureId::PushPopEnclosure));
    assert!(!poops_visible(Screen::Gameplay, EnclosureId::PushPopEnclosure));
}

#[test]
fn threshold_spawn_pass_shows_poops_of_the_current_room() {
    let mut masks = CollisionMasks::default();
    masks.set_static_mask(CollisionMapKey::Overview, Vec::new());
    masks.set_static_mask(CollisionMapKey::Enclosure(EnclosureId::NutritionHousePlaypen), Vec::new());
    masks.set_static_mask(CollisionMapKey::Enclosure(EnclosureId::PushPopEnclosure), Vec::new());
    let mut enclosures = vec![
        (EnclosureId::NutritionHousePlaypen, Stat(1000), DynamicObstacleTiles(Vec::new())),
        (EnclosureId::PushPopEnclosure, Stat(700), DynamicObstacleTiles(Vec::new())),
    ];
    let mut rng = StdRng::seed_from_u64(21);
    let room = Screen::InRoom(InRoom::PushPopEnclosure);
    let shown = sync_threshold_poop_spawn(room, &masks, None, &Vec::new(), &mut enclosures, &mut rng);
    assert!(enclosures[0].2 .0.is_empty());
    assert_eq!(enclosures[1].2 .0.len(), 1);
    assert_eq!(shown.len(), 1);
    assert_eq!(shown[0].tile, enclosures[1].2 .0[0]);
    assert_eq!(shown[0].room, InRoom::PushPopEnclosure);

    enclosures[1].1 = Stat(100);
    let hidden = sync_threshold_poop_spawn(Screen::Gameplay, &masks, None, &Vec::new(), &mut enclosures, &mut rng);
    assert!(hidden.is_empty());
    assert_eq!(enclosures[1].2 .0.len(), 3);

    let mut untouched = vec![(EnclosureId::Pasture, Stat(0), DynamicObstacleTiles(Vec::new()))];
    let none = sync_threshold_poop_spawn(room, &CollisionMasks::default(), None, &Vec::new(), &mut untouched, &mut rng);
    assert!(none.is_empty());
    assert!(untouched[0].2 .0.is_empty());
}
