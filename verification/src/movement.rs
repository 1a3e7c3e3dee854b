//! Tile-based movement: turning an intent into a one-tile step, and the
//! wandering of animals (foreground NPCs, background records, and offline
//! catch-up).

use vstd::prelude::*;

use rand::rngs::StdRng;

use crate::collision::{
    CollisionMapKey, CollisionMasks, DynamicObstacleTiles, LiveObstacle, collision_key_for_animal,
    is_walkable, random_wander_step, spec_is_walkable, spec_walkable_neighbors,
};
use crate::command::MovementIntent;
use crate::configs::{spec_animal_default_placement, spec_enclosure_for_animal};
use crate::types::{AnimalId, EnclosureId, TileBounds, TilePosition};

verus! {

/// The tile one step from `tile` in direction `intent`, staying on the grid.
pub open spec fn spec_step_tile(tile: TilePosition, intent: MovementIntent) -> TilePosition {
    match intent {
        MovementIntent::Up => TilePosition { y: if tile.y < u32::MAX { (tile.y + 1) as u32 } else { u32::MAX }, ..tile },
        MovementIntent::Down => TilePosition { y: if tile.y > 0 { (tile.y - 1) as u32 } else { 0 }, ..tile },
        MovementIntent::Left => TilePosition { x: if tile.x > 0 { (tile.x - 1) as u32 } else { 0 }, ..tile },
        MovementIntent::Right => TilePosition { x: if tile.x < u32::MAX { (tile.x + 1) as u32 } else { u32::MAX }, ..tile },
    }
}

pub fn step_tile(tile: TilePosition, intent: MovementIntent) -> (r: TilePosition)
    ensures
        r == spec_step_tile(tile, intent),
{
    match intent {
        MovementIntent::Up => TilePosition { x: tile.x, y: tile.y.saturating_add(1) },
        MovementIntent::Down => TilePosition { x: tile.x, y: tile.y.saturating_sub(1) },
        MovementIntent::Left => TilePosition { x: tile.x.saturating_sub(1), y: tile.y },
        MovementIntent::Right => TilePosition { x: tile.x.saturating_add(1), y: tile.y },
    }
}

/// A step changes only the axis of its direction, by one tile: Left and Right
/// keep the row and move one column (Left stops at column 0), Up and Down keep
/// the column and move one row (Down stops at row 0, Up at the last row).
pub proof fn law_step_moves_one_tile_along_its_axis(tile: TilePosition, intent: MovementIntent)
    ensures
        intent == MovementIntent::Left ==> spec_step_tile(tile, intent).y == tile.y
            && spec_step_tile(tile, intent).x == (if tile.x > 0 { tile.x - 1 } else { 0 }),
        intent == MovementIntent::Right ==> spec_step_tile(tile, intent).y == tile.y
            && spec_step_tile(tile, intent).x == (if tile.x < u32::MAX { tile.x + 1 } else { tile.x as int }),
        intent == MovementIntent::Down ==> spec_step_tile(tile, intent).x == tile.x
            && spec_step_tile(tile, intent).y == (if tile.y > 0 { tile.y - 1 } else { 0 }),
        intent == MovementIntent::Up ==> spec_step_tile(tile, intent).x == tile.x
            && spec_step_tile(tile, intent).y == (if tile.y < u32::MAX { tile.y + 1 } else { tile.y as int }),
{
}

/// A tile-walking character: its entity, movement intent, desired and
/// current tile, and whether it is itself a dynamic obstacle.
#[derive(Debug, Clone, Copy, PartialEq, Eq, Structural)]
pub struct Mover {
    pub entity: u64,
    pub intent: Option<MovementIntent>,
    pub desired: TilePosition,
    pub current: TilePosition,
    pub is_dynamic_obstacle: bool,
}

/// One frame of intent handling for a mover on map `key` (whose mask must
/// exist): a mover still walking drops its intent; an idle mover with an
/// intent targets the next tile when it is walkable (ignoring itself when it
/// is an obstacle), and the intent is consumed.
pub open spec fn spec_update_desired(
    m: Mover,
    masks: Map<CollisionMapKey, Set<TilePosition>>,
    persisted: Seq<(EnclosureId, DynamicObstacleTiles)>,
    live: Seq<LiveObstacle>,
    key: CollisionMapKey,
) -> Mover {
    if !masks.contains_key(key) {
        m
    } else if m.desired != m.current {
        Mover { intent: None, ..m }
    } else {
        match m.intent {
            Some(intent) => {
                let next = spec_step_tile(m.current, intent);
                let ignore = if m.is_dynamic_obstacle { Some(m.entity) } else { None };
                if spec_is_walkable(masks, persisted, live, key, next, ignore) {
                    Mover { intent: None, desired: next, ..m }
                } else {
                    Mover { intent: None, ..m }
                }
            },
            None => m,
        }
    }
}

pub fn update_desired_position(
    masks: &CollisionMasks,
    persisted_obstacles: &Vec<(EnclosureId, DynamicObstacleTiles)>,
    live_obstacles: &Vec<LiveObstacle>,
    key: CollisionMapKey,
    mover: &mut Mover,
)
    ensures
        *final(mover) == spec_update_desired(*old(mover), masks@, persisted_obstacles@, live_obstacles@, key),
{
    if !masks.contains(key) {
        return;
    }
    if mover.desired != mover.current {
        mover.intent = None;
        return;
    }
    if let Some(intent) = mover.intent {
        let next = step_tile(mover.current, intent);
        let ignore = if mover.is_dynamic_obstacle { Some(mover.entity) } else { None };
        if is_walkable(masks, persisted_obstacles, live_obstacles, key, next, ignore) {
            mover.desired = next;
        }
        mover.intent = None;
    }
}

/// A step starts (its timer restarts) only when the desired tile differs from
/// the current one.
pub fn should_start_movement(desired: TilePosition, current: TilePosition) -> (r: bool)
    ensures
        r == (desired != current),
{
    desired != current
}

/// When the step timer of a moving character finishes, it arrives on its
/// desired tile.
pub fn finish_movement(desired: TilePosition, current: &mut TilePosition, timer_finished: bool) -> (arrived: bool)
    ensures
        arrived == (desired != *old(current) && timer_finished),
        *final(current) == (if arrived { desired } else { *old(current) }),
{
    if desired == *current || !timer_finished {
        return false;
    }
    *current = desired;
    true
}

// ---------------------------------------------------------
// Animal wander
// ---------------------------------------------------------

/// A legal wander step: to a walkable in-bounds neighbour, or staying put
/// when there is none.
pub open spec fn wander_step_ok(
    from: TilePosition,
    to: TilePosition,
    bounds: TileBounds,
    masks: Map<CollisionMapKey, Set<TilePosition>>,
    persisted: Seq<(EnclosureId, DynamicObstacleTiles)>,
    live: Seq<LiveObstacle>,
    key: CollisionMapKey,
    ignore: Option<u64>,
) -> bool {
    let c = spec_walkable_neighbors(from, bounds, masks, persisted, live, key, ignore);
    (c.len() == 0 && to == from) || (c.len() > 0 && c.contains(to))
}

/// `path` is a chain of legal wander steps.
pub open spec fn wander_path_ok(
    path: Seq<TilePosition>,
    bounds: TileBounds,
    masks: Map<CollisionMapKey, Set<TilePosition>>,
    persisted: Seq<(EnclosureId, DynamicObstacleTiles)>,
    live: Seq<LiveObstacle>,
    key: CollisionMapKey,
    ignore: Option<u64>,
) -> bool {
    forall|i: int| 0 <= i < path.len() - 1 ==> #[trigger] wander_step_ok(path[i], path[i + 1], bounds, masks, persisted, live, key, ignore)
}

/// A background animal record that wanders while it is off screen.
#[derive(Debug, Clone, Copy, PartialEq, Eq, Structural)]
pub struct WanderingAnimal {
    pub entity: u64,
    pub enclosure: EnclosureId,
    pub tile: TilePosition,
    pub bounds: TileBounds,
}

/// A tile every step of a wander from it can take (coordinates below the
/// maximum, also for the bounds).
pub open spec fn wander_fits(a: WanderingAnimal) -> bool {
    a.tile.x < u32::MAX && a.tile.y < u32::MAX && a.bounds.top_right.x < u32::MAX && a.bounds.top_right.y < u32::MAX
}

proof fn lemma_step_stays_small(
    from: TilePosition,
    to: TilePosition,
    bounds: TileBounds,
    masks: Map<CollisionMapKey, Set<TilePosition>>,
    persisted: Seq<(EnclosureId, DynamicObstacleTiles)>,
    live: Seq<LiveObstacle>,
    key: CollisionMapKey,
    ignore: Option<u64>,
)
    requires
        wander_step_ok(from, to, bounds, masks, persisted, live, key, ignore),
        from.x < u32::MAX,
        from.y < u32::MAX,
        bounds.top_right.x < u32::MAX,
        bounds.top_right.y < u32::MAX,
    ensures
        to.x < u32::MAX,
        to.y < u32::MAX,
{
    let pred = |t: TilePosition|
        crate::content::spec_tile_in_bounds(t, bounds) && spec_is_walkable(masks, persisted, live, key, t, ignore);
    let c = spec_walkable_neighbors(from, bounds, masks, persisted, live, key, ignore);
    if c.len() > 0 {
        crate::content::spec_adjacent_tiles(from).lemma_filter_contains_rev(pred, to);
    }
}

/// Offline catch-up: each background animal takes `pending` wander steps,
/// once the mask of every wandering animal's enclosure exists; then nothing
/// is pending. Without masks, or with one missing, nothing happens yet.
pub fn apply_offline_wander(
    pending: &mut u32,
    masks: Option<&CollisionMasks>,
    persisted_obstacles: &Vec<(EnclosureId, DynamicObstacleTiles)>,
    live_obstacles: &Vec<LiveObstacle>,
    animals: &mut Vec<WanderingAnimal>,
    rng: &mut StdRng,
)
    requires
        forall|i: int| 0 <= i < old(animals)@.len() ==> wander_fits(#[trigger] old(animals)@[i]),
    ensures
        ({
            let ready = *old(pending) > 0 && (masks matches Some(m) && forall|i: int|
                0 <= i < old(animals)@.len() ==> m@.contains_key(
                    CollisionMapKey::Enclosure((#[trigger] old(animals)@[i]).enclosure),
                ));
            &&& !ready ==> *final(pending) == *old(pending) && final(animals)@ == old(animals)@
            &&& ready ==> {
                &&& *final(pending) == 0
                &&& final(animals)@.len() == old(animals)@.len()
                &&& forall|i: int| 0 <= i < old(animals)@.len() ==> {
                    let a = #[trigger] old(animals)@[i];
                    let b = final(animals)@[i];
                    &&& b == WanderingAnimal { tile: b.tile, ..a }
                    &&& exists|path: Seq<TilePosition>| {
                        &&& path.len() == *old(pending) + 1
                        &&& path[0] == a.tile
                        &&& path.last() == b.tile
                        &&& #[trigger] wander_path_ok(path, a.bounds, masks->0@, persisted_obstacles@, live_obstacles@,
                            CollisionMapKey::Enclosure(a.enclosure), Some(a.entity))
                    }
                }
            }
        }),
{
    if *pending == 0 {
        return;
    }
    let m = match masks {
        None => return,
        Some(m) => m,
    };
    let mut c: usize = 0;
    while c < animals.len()
        invariant
            0 <= c <= animals@.len(),
            animals@ == old(animals)@,
            *pending == *old(pending),
            masks == Some(m),
            forall|j: int| 0 <= j < c ==> m@.contains_key(CollisionMapKey::Enclosure((#[trigger] animals@[j]).enclosure)),
        decreases animals.len() - c,
    {
        if !m.contains(CollisionMapKey::Enclosure(animals[c].enclosure)) {
            assert(!m@.contains_key(CollisionMapKey::Enclosure(old(animals)@[c as int].enclosure)));
            return;
        }
        c += 1;
    }
    let steps = *pending;
    let ghost start = animals@;
    let mut i: usize = 0;
    while i < animals.len()
        invariant
            0 <= i <= animals@.len(),
            animals@.len() == start.len(),
            start == old(animals)@,
            steps == *old(pending),
            steps > 0,
            masks == Some(m),
            forall|j: int| 0 <= j < start.len() ==> wander_fits(#[trigger] start[j]),
            forall|j: int| i <= j < start.len() ==> #[trigger] animals@[j] == start[j],
            forall|j: int| 0 <= j < i ==> {
                let a = #[trigger] start[j];
                let b = animals@[j];
                &&& b == WanderingAnimal { tile: b.tile, ..a }
                &&& exists|path: Seq<TilePosition>| {
                    &&& path.len() == steps + 1
                    &&& path[0] == a.tile
                    &&& path.last() == b.tile
                    &&& #[trigger] wander_path_ok(path, a.bounds, m@, persisted_obstacles@, live_obstacles@,
                        CollisionMapKey::Enclosure(a.enclosure), Some(a.entity))
                }
            },
        decreases animals.len() - i,
    {
        let a = animals[i];
        let key = CollisionMapKey::Enclosure(a.enclosure);
        let mut pos = a.tile;
        let ghost mut path: Seq<TilePosition> = seq![a.tile];
        let mut s: u32 = 0;
        assert(a == start[i as int]);
        while s < steps
            invariant
                0 <= s <= steps,
                path.len() == s + 1,
                path[0] == a.tile,
                path.last() == pos,
                pos.x < u32::MAX,
                pos.y < u32::MAX,
                a.bounds.top_right.x < u32::MAX,
                a.bounds.top_right.y < u32::MAX,
                wander_path_ok(path, a.bounds, m@, persisted_obstacles@, live_obstacles@, key, Some(a.entity)),
            decreases steps - s,
        {
            let next = random_wander_step(pos, a.bounds, key, m, persisted_obstacles, live_obstacles, Some(a.entity), rng);
            proof {
                assert(wander_step_ok(pos, next, a.bounds, m@, persisted_obstacles@, live_obstacles@, key, Some(a.entity)));
                lemma_step_stays_small(pos, next, a.bounds, m@, persisted_obstacles@, live_obstacles@, key, Some(a.entity));
                let old_path = path;
                path = path.push(next);
                assert forall|k: int| 0 <= k < path.len() - 1 implies #[trigger] wander_step_ok(
                    path[k],
                    path[k + 1],
                    a.bounds,
                    m@,
                    persisted_obstacles@,
                    live_obstacles@,
                    key,
                    Some(a.entity),
                ) by {
                    if k < old_path.len() - 1 {
                        assert(path[k] == old_path[k] && path[k + 1] == old_path[k + 1]);
                    } else {
                        assert(path[k] == pos && path[k + 1] == next);
                    }
                }
            }
            pos = next;
            s += 1;
        }
        animals.set(i, WanderingAnimal { tile: pos, ..a });
        proof {
            assert(wander_path_ok(path, a.bounds, m@, persisted_obstacles@, live_obstacles@, key, Some(a.entity)));
        }
        i += 1;
    }
    *pending = 0;
}

/// A background wander tick for one animal record: when its enclosure's mask
/// exists and its idle timer just finished, it moves to a random walkable
/// neighbour (staying put when there is none).
pub fn background_wander_tick(
    animal: &mut WanderingAnimal,
    idle_finished: bool,
    masks: &CollisionMasks,
    persisted_obstacles: &Vec<(EnclosureId, DynamicObstacleTiles)>,
    live_obstacles: &Vec<LiveObstacle>,
    rng: &mut StdRng,
)
    requires
        wander_fits(*old(animal)),
    ensures
        ({
            let a = *old(animal);
            let key = CollisionMapKey::Enclosure(a.enclosure);
            &&& *final(animal) == WanderingAnimal { tile: final(animal).tile, ..a }
            &&& !(masks@.contains_key(key) && idle_finished) ==> final(animal).tile == a.tile
            &&& masks@.contains_key(key) && idle_finished ==> wander_step_ok(
                a.tile,
                final(animal).tile,
                a.bounds,
                masks@,
                persisted_obstacles@,
                live_obstacles@,
                key,
                Some(a.entity),
            )
        }),
{
    let key = CollisionMapKey::Enclosure(animal.enclosure);
    if !masks.contains(key) || !idle_finished {
        return;
    }
    animal.tile = random_wander_step(
        animal.tile,
        animal.bounds,
        key,
        masks,
        persisted_obstacles,
        live_obstacles,
        Some(animal.entity),
        rng,
    );
}

/// The saved tile of every record of `animal_id` follows its on-screen NPC.
pub fn sync_npc_position_to_stats(animal_id: AnimalId, tile: TilePosition, saved: &mut Vec<(AnimalId, TilePosition)>)
    ensures
        final(saved)@.len() == old(saved)@.len(),
        forall|i: int| 0 <= i < old(saved)@.len() ==> #[trigger] final(saved)@[i] == (if old(saved)@[i].0 == animal_id {
            (animal_id, tile)
        } else {
            old(saved)@[i]
        }),
{
    let ghost start = saved@;
    let mut i: usize = 0;
    while i < saved.len()
        invariant
            0 <= i <= saved@.len(),
            saved@.len() == start.len(),
            start == old(saved)@,
            forall|j: int| 0 <= j < i ==> #[trigger] saved@[j] == (if start[j].0 == animal_id {
                (animal_id, tile)
            } else {
                start[j]
            }),
            forall|j: int| i <= j < start.len() ==> #[trigger] saved@[j] == start[j],
        decreases saved.len() - i,
    {
        if saved[i].0 == animal_id {
            saved.set(i, (animal_id, tile));
        }
        i += 1;
    }
}

/// An on-screen animal NPC's wander state: its zone and its next target.
#[derive(Debug, Clone, Copy, PartialEq, Eq, Structural)]
pub struct NpcWander {
    pub bounds: TileBounds,
    pub target: Option<TilePosition>,
}

/// Choosing an NPC's next target: only for animals with a collision map that
/// exists, without a target yet, when the idle timer just finished; the
/// target is a random walkable neighbour (none when there is none). Returns
/// whether a target was set (the move timer then restarts).
pub fn tick_animal_wander(
    entity: u64,
    animal_id: AnimalId,
    current: TilePosition,
    wander: &mut NpcWander,
    idle_finished: bool,
    masks: &CollisionMasks,
    persisted_obstacles: &Vec<(EnclosureId, DynamicObstacleTiles)>,
    live_obstacles: &Vec<LiveObstacle>,
    rng: &mut StdRng,
) -> (targeted: bool)
    requires
        masks@.contains_key(CollisionMapKey::Enclosure(spec_enclosure_for_animal(animal_id)))
            ==> current.x < u32::MAX && current.y < u32::MAX,
    ensures
        final(wander).bounds == old(wander).bounds,
        ({
            let key = CollisionMapKey::Enclosure(spec_enclosure_for_animal(animal_id));
            let eligible = spec_animal_default_placement(animal_id) is Some && masks@.contains_key(key)
                && old(wander).target is None && idle_finished;
            let c = spec_walkable_neighbors(current, old(wander).bounds, masks@, persisted_obstacles@, live_obstacles@, key, Some(entity));
            &&& !eligible ==> !targeted && final(wander).target == old(wander).target
            &&& eligible ==> targeted == (c.len() > 0)
            &&& eligible && c.len() == 0 ==> final(wander).target is None
            &&& eligible && c.len() > 0 ==> (final(wander).target matches Some(t) && c.contains(t))
        }),
{
    let key = match collision_key_for_animal(animal_id) {
        None => return false,
        Some(k) => k,
    };
    if !masks.contains(key) || wander.target.is_some() || !idle_finished {
        return false;
    }
    let candidates = crate::collision::walkable_neighbors(
        current,
        wander.bounds,
        key,
        masks,
        persisted_obstacles,
        live_obstacles,
        Some(entity),
    );
    match crate::random::choose_from_slice(&candidates, rng) {
        Some(t) => {
            wander.target = Some(t);
            true
        },
        None => false,
    }
}

/// Starting an NPC's step toward its target once its move timer finished:
/// reaching the target clears it; otherwise the desired tile becomes the
/// target when the map exists and the target is still walkable, and the
/// target is cleared. Before the timer finishes nothing changes (the host
/// animates the step).
pub fn start_animal_movement(
    entity: u64,
    animal_id: AnimalId,
    current: TilePosition,
    desired: &mut TilePosition,
    wander: &mut NpcWander,
    move_finished: bool,
    masks: &CollisionMasks,
    persisted_obstacles: &Vec<(EnclosureId, DynamicObstacleTiles)>,
    live_obstacles: &Vec<LiveObstacle>,
)
    ensures
        final(wander).bounds == old(wander).bounds,
        ({
            let key = CollisionMapKey::Enclosure(spec_enclosure_for_animal(animal_id));
            let has_key = spec_animal_default_placement(animal_id) is Some;
            match old(wander).target {
                None => *final(desired) == *old(desired) && final(wander).target is None,
                Some(t) => if !has_key {
                    *final(desired) == *old(desired) && final(wander).target == old(wander).target
                } else if current == t {
                    *final(desired) == *old(desired) && final(wander).target is None
                } else if move_finished {
                    &&& final(wander).target is None
                    &&& *final(desired) == (if masks@.contains_key(key) && spec_is_walkable(
                        masks@,
                        persisted_obstacles@,
                        live_obstacles@,
                        key,
                        t,
                        Some(entity),
                    ) {
                        t
                    } else {
                        *old(desired)
                    })
                } else {
                    *final(desired) == *old(desired) && final(wander).target == old(wander).target
                },
            }
        }),
{
    let key = match collision_key_for_animal(animal_id) {
        None => return,
        Some(k) => k,
    };
    let target = match wander.target {
        None => return,
        Some(t) => t,
    };
    if current == target {
        wander.target = None;
        return;
    }
    if move_finished {
        if masks.contains(key) && is_walkable(masks, persisted_obstacles, live_obstacles, key, target, Some(entity)) {
            *desired = target;
        }
        wander.target = None;
    }
}

} // verus!
