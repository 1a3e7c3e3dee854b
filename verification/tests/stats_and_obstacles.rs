use alveus_idle::collision::{
    cleanup_dynamic_obstacle, collision_load_failure_reason, register_dynamic_obstacle, required_collision_map_state,
    sync_dynamic_obstacle_position, AssetLoadState, CollisionMapKey, CollisionMasks, DependencyLoadState,
    DynamicObstacleTiles, InEnclosure, LiveObstacle, RequiredCollisionMapState, COLLISION_LOAD_REASON_RECURSIVE_DEPENDENCY_FAILED,
    COLLISION_LOAD_REASON_ROOT_ASSET_FAILED,
};
use alveus_idle::stats::{
    AnimalStat, EnclosureStat, ImproveStatEvent, StatChangeOutcome, StatTarget, StatsWorld, WorsenStatEvent,
};
use alveus_idle::movement::{start_animal_movement, NpcWander};
use alveus_idle::types::{AnimalId, EnclosureId, TileBounds, TilePosition};

#[test]
fn dynamic_tiles_insert_once_and_remove_all() {
    let a = TilePosition { x: 1, y: 1 };
    let b = TilePosition { x: 2, y: 2 };
    let mut tiles = DynamicObstacleTiles::default();
    tiles.insert(a);
    tiles.insert(a);
    tiles.insert(b);
    assert_eq!(tiles.0, vec![a, b]);
    assert!(tiles.contains(a));
    tiles.remove(a);
    assert_eq!(tiles.0, vec![b]);
    assert!(!tiles.contains(a));
    tiles.clear();
    assert!(tiles.0.is_empty());
}

#[test]
fn followed_obstacle_moves_its_blocked_tile() {
    let key = CollisionMapKey::Enclosure(EnclosureId::PushPopEnclosure);
    let mut masks = CollisionMasks::default();
    masks.set_static_mask(key, vec![TilePosition { x: 9, y: 9 }]);
    let mut records = vec![
        (EnclosureId::Pasture, DynamicObstacleTiles::default()),
        (EnclosureId::PushPopEnclosure, DynamicObstacleTiles::default()),
    ];
    let start = TilePosition { x: 3, y: 3 };
    let mut followed = register_dynamic_obstacle(&masks, &mut records, EnclosureId::PushPopEnclosure, start);
    assert_eq!(records[1].1 .0, vec![start]);
    let next = TilePosition { x: 4, y: 3 };
    sync_dynamic_obstacle_position(&masks, &mut records, &mut followed, EnclosureId::PushPopEnclosure, next);
    assert_eq!(records[1].1 .0, vec![next]);
    assert_eq!(followed.last_tile, next);
    let blocked = TilePosition { x: 9, y: 9 };
    sync_dynamic_obstacle_position(&masks, &mut records, &mut followed, EnclosureId::PushPopEnclosure, blocked);
    assert!(records[1].1 .0.is_empty());
    cleanup_dynamic_obstacle(&mut records, followed);
    assert!(records[1].1 .0.is_empty());
    assert!(records[0].1 .0.is_empty());
}

#[test]
fn map_fails_exactly_when_it_has_a_reason() {
    for root in [AssetLoadState::NotLoaded, AssetLoadState::Loading, AssetLoadState::Loaded, AssetLoadState::Failed] {
        for deps in [DependencyLoadState::NotLoaded, DependencyLoadState::Loading, DependencyLoadState::Loaded, DependencyLoadState::Failed] {
            let states = Some((root, deps));
            assert_eq!(
                required_collision_map_state(states) == RequiredCollisionMapState::Failed,
                collision_load_failure_reason(states).is_some()
            );
        }
    }
    assert_eq!(required_collision_map_state(None), RequiredCollisionMapState::Pending);
    assert_eq!(
        required_collision_map_state(Some((AssetLoadState::Loaded, DependencyLoadState::Loaded))),
        RequiredCollisionMapState::Loaded
    );
    assert_eq!(
        collision_load_failure_reason(Some((AssetLoadState::Failed, DependencyLoadState::Failed))),
        Some(COLLISION_LOAD_REASON_ROOT_ASSET_FAILED)
    );
    assert_eq!(
        collision_load_failure_reason(Some((AssetLoadState::Loaded, DependencyLoadState::Failed))),
        Some(COLLISION_LOAD_REASON_RECURSIVE_DEPENDENCY_FAILED)
    );
}

fn hunger_of(world: &StatsWorld, id: AnimalId) -> u32 {
    world.animals.iter().find(|a| a.id == id).unwrap().stats.hunger
}

#[test]
fn stat_changes_clamp_to_the_scale() {
    let mut world = StatsWorld::new_save();
    let target = StatTarget::Animal { id: AnimalId::Georgie, stat: AnimalStat::Hunger };
    assert_eq!(world.improve_stat(ImproveStatEvent { target, amount: 500 }), StatChangeOutcome::Applied);
    assert_eq!(hunger_of(&world, AnimalId::Georgie), 1000);
    world.worsen_stat(WorsenStatEvent { target, amount: 300 });
    assert_eq!(hunger_of(&world, AnimalId::Georgie), 700);
    world.improve_stat(ImproveStatEvent { target, amount: 300 });
    assert_eq!(hunger_of(&world, AnimalId::Georgie), 1000);
    world.worsen_stat(WorsenStatEvent { target, amount: u32::MAX });
    assert_eq!(hunger_of(&world, AnimalId::Georgie), 0);
    world.improve_stat(ImproveStatEvent { target, amount: u32::MAX });
    assert_eq!(hunger_of(&world, AnimalId::Georgie), 1000);
}

#[test]
fn animal_cleanliness_is_its_enclosures() {
    let mut world = StatsWorld::new_save();
    let enclosure = world.animals.iter().find(|a| a.id == AnimalId::PushPop).unwrap().enclosure.0;
    let outcome = world.worsen_stat(WorsenStatEvent {
        target: StatTarget::Animal { id: AnimalId::PushPop, stat: AnimalStat::Cleanliness },
        amount: 250,
    });
    assert_eq!(outcome, StatChangeOutcome::Applied);
    let record = world.enclosures.iter().find(|e| e.id == enclosure).unwrap();
    assert_eq!(record.stats.cleanliness, 750);
    let other = world.enclosures.iter().filter(|e| e.id != enclosure).all(|e| e.stats.cleanliness == 1000);
    assert!(other);
    let mut empty = StatsWorld { animals: Vec::new(), enclosures: Vec::new() };
    assert_eq!(
        empty.worsen_stat(WorsenStatEvent {
            target: StatTarget::Enclosure { id: EnclosureId::Pasture, stat: EnclosureStat::Cleanliness },
            amount: 1,
        }),
        StatChangeOutcome::EnclosureNotFound(EnclosureId::Pasture)
    );
}

#[test]
fn missing_records_are_added_once() {
    let mut world = StatsWorld { animals: Vec::new(), enclosures: Vec::new() };
    world.spawn_missing_stat_entries();
    let fresh = StatsWorld::new_save();
    assert_eq!(world.animals, fresh.animals);
    assert_eq!(world.enclosures, fresh.enclosures);
    world.spawn_missing_stat_entries();
    assert_eq!(world.animals.len(), fresh.animals.len());
    assert_eq!(world.enclosures.len(), fresh.enclosures.len());
}

#[test]
fn npc_does_not_enter_static_or_dynamic_obstacles() {
    let key = CollisionMapKey::Enclosure(EnclosureId::NutritionHousePlaypen);
    let home = TilePosition { x: 8, y: 4 };
    let blocked = TilePosition { x: 8, y: 5 };
    let bounds = TileBounds { bottom_left: home, top_right: blocked };
    let mut masks = CollisionMasks::default();
    masks.set_static_mask(key, vec![blocked]);

    let mut desired = home;
    let mut wander = NpcWander { bounds, target: Some(blocked) };
    start_animal_movement(1, AnimalId::Polly, home, &mut desired, &mut wander, true, &masks, &Vec::new(), &Vec::new());
    assert_eq!(desired, home, "NPC must remain on walkable tile when target is statically blocked");
    assert_eq!(wander.target, None);

    masks.set_static_mask(key, Vec::new());
    let live = vec![LiveObstacle {
        entity: 2,
        tile: blocked,
        in_enclosure: Some(InEnclosure(EnclosureId::NutritionHousePlaypen)),
    }];
    let mut wander = NpcWander { bounds, target: Some(blocked) };
    start_animal_movement(1, AnimalId::Polly, home, &mut desired, &mut wander, true, &masks, &Vec::new(), &live);
    assert_eq!(desired, home, "NPC must not step onto a live dynamic obstacle");

    let mut wander = NpcWander { bounds, target: Some(blocked) };
    start_animal_movement(1, AnimalId::Polly, home, &mut desired, &mut wander, true, &masks, &Vec::new(), &Vec::new());
    assert_eq!(desired, blocked);
}
