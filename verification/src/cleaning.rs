//! Poop pickup into the wheelbarrow, emptying it at the compost bin, and
//! threshold-driven poop spawning on enclosure floors.

use vstd::prelude::*;

use rand::rngs::StdRng;

use crate::app_state::{InRoom, Screen};
use crate::collision::{
    CollisionMapKey, CollisionMasks, DynamicObstacleTiles, InEnclosure, LiveObstacle,
    collision_ready, enclosure_for_room, spec_collision_ready, first_record, spec_enclosure_for_room, statically_walkable,
    tiles_contain,
};
use crate::configs::{
    PoopConfig, WHEELBARROW_CAPACITY, poop_config_for, spec_poop_thresholds, spec_push_pop_placement,
    target_poop_count, thresholds_reached,
};
use crate::content::spec_tile_in_bounds;
use crate::random::choose_from_iter;
use crate::stats::{EnclosureStat, ImproveStatEvent, StatTarget};
use crate::text::{decimal, decimal_string};
use crate::types::{EnclosureId, Stat, TileBounds, TilePosition};

verus! {

/// The room interior that shows an enclosure.
pub open spec fn spec_room_for_enclosure(id: EnclosureId) -> InRoom {
    match id {
        EnclosureId::PushPopEnclosure => InRoom::PushPopEnclosure,
        EnclosureId::NutritionHousePlaypen => InRoom::NutritionHouse,
        EnclosureId::Pasture => InRoom::Pasture,
        EnclosureId::ReptileEnclosure => InRoom::ReptileEnclosure,
    }
}

pub fn room_for_enclosure(id: EnclosureId) -> (r: InRoom)
    ensures
        r == spec_room_for_enclosure(id),
{
    match id {
        EnclosureId::PushPopEnclosure => InRoom::PushPopEnclosure,
        EnclosureId::NutritionHousePlaypen => InRoom::NutritionHouse,
        EnclosureId::Pasture => InRoom::Pasture,
        EnclosureId::ReptileEnclosure => InRoom::ReptileEnclosure,
    }
}

/// Poops carried in the wheelbarrow, in pickup order.
#[derive(Debug, Clone, Default)]
pub struct PoopWheelbarrow {
    pub poops: Vec<EnclosureId>,
}

/// Runtime-spawned poop pile the player can pick up.
#[derive(Debug, Clone, Copy, PartialEq, Eq, Structural, Default)]
pub struct PoopPile {
    pub enclosure_id: EnclosureId,
}

/// Compost bin / dump station. Not tied to one enclosure.
#[derive(Debug, Clone)]
pub struct PoopDump {
    pub prompt: String,
}

pub open spec fn wheelbarrow_full_message() -> Seq<char> {
    "Wheelbarrow is full — empty it at the compost bin"@
}

pub open spec fn wheelbarrow_empty_message() -> Seq<char> {
    "Wheelbarrow is empty"@
}

impl PoopWheelbarrow {
    /// Number of carried poops, saturating at `u8::MAX`.
    pub fn count(&self) -> (r: u8)
        ensures
            r == (if self.poops@.len() < 255 { self.poops@.len() } else { 255 }),
    {
        if self.poops.len() < 255 {
            self.poops.len() as u8
        } else {
            255
        }
    }
}

/// The wheelbarrow's poops after picking up one of `enclosure_id`: unchanged
/// when it is full.
pub open spec fn after_pickup(poops: Seq<EnclosureId>, enclosure_id: EnclosureId) -> Seq<EnclosureId> {
    if poops.len() >= WHEELBARROW_CAPACITY {
        poops
    } else {
        poops.push(enclosure_id)
    }
}

/// Put one poop of `enclosure_id` in the wheelbarrow unless it is full.
pub fn try_pickup_poop(wheelbarrow: &mut PoopWheelbarrow, enclosure_id: EnclosureId) -> (r: Result<(), &'static str>)
    ensures
        final(wheelbarrow).poops@ == after_pickup(old(wheelbarrow).poops@, enclosure_id),
        old(wheelbarrow).poops@.len() >= WHEELBARROW_CAPACITY ==> {
            &&& r matches Err(m) && m@ == wheelbarrow_full_message()
            &&& final(wheelbarrow).poops@ == old(wheelbarrow).poops@
        },
        old(wheelbarrow).poops@.len() < WHEELBARROW_CAPACITY ==> {
            &&& r is Ok
            &&& final(wheelbarrow).poops@ == old(wheelbarrow).poops@.push(enclosure_id)
        },
{
    if wheelbarrow.poops.len() >= WHEELBARROW_CAPACITY as usize {
        return Err("Wheelbarrow is full — empty it at the compost bin");
    }
    wheelbarrow.poops.push(enclosure_id);
    Ok(())
}

/// The wheelbarrow never holds more than its capacity: a pickup into a
/// wheelbarrow within capacity keeps it within capacity, and adds the poop
/// exactly when there was room.
pub proof fn law_wheelbarrow_never_overfills(poops: Seq<EnclosureId>, enclosure_id: EnclosureId)
    requires
        poops.len() <= WHEELBARROW_CAPACITY,
    ensures
        after_pickup(poops, enclosure_id).len() <= WHEELBARROW_CAPACITY,
        (after_pickup(poops, enclosure_id).len() == poops.len() + 1) == (poops.len() < WHEELBARROW_CAPACITY),
{
}

fn copy_poops(poops: &Vec<EnclosureId>) -> (r: Vec<EnclosureId>)
    ensures
        r@ == poops@,
{
    let mut out: Vec<EnclosureId> = Vec::new();
    let mut i: usize = 0;
    while i < poops.len()
        invariant
            0 <= i <= poops@.len(),
            out@ == poops@.take(i as int),
        decreases poops.len() - i,
    {
        out.push(poops[i]);
        i += 1;
        assert(out@ =~= poops@.take(i as int));
    }
    assert(poops@.take(i as int) =~= poops@);
    out
}

/// The poops to dump at the compost bin, or an error when the wheelbarrow is empty.
pub fn try_dump_poop(wheelbarrow: &PoopWheelbarrow) -> (r: Result<Vec<EnclosureId>, &'static str>)
    ensures
        wheelbarrow.poops@.len() == 0 ==> (r matches Err(m) && m@ == wheelbarrow_empty_message()),
        wheelbarrow.poops@.len() > 0 ==> (r matches Ok(v) && v@ == wheelbarrow.poops@),
{
    if wheelbarrow.poops.len() == 0 {
        return Err("Wheelbarrow is empty");
    }
    Ok(copy_poops(&wheelbarrow.poops))
}

// ---------------------------------------------------------
// Poop spawning
// ---------------------------------------------------------

/// The tiles of live obstacles scoped to `enclosure_id`.
pub fn live_obstacles_for_enclosure(enclosure_id: EnclosureId, live_obstacles: &Vec<LiveObstacle>) -> (r: Vec<TilePosition>)
    ensures
        forall|t: TilePosition| r@.contains(t) <==> exists|j: int|
            0 <= j < live_obstacles@.len() && (#[trigger] live_obstacles@[j]).tile == t
                && live_obstacles@[j].in_enclosure == Some(InEnclosure(enclosure_id)),
{
    let mut out: Vec<TilePosition> = Vec::new();
    let mut i: usize = 0;
    while i < live_obstacles.len()
        invariant
            0 <= i <= live_obstacles@.len(),
            forall|t: TilePosition| out@.contains(t) <==> exists|j: int|
                0 <= j < i && (#[trigger] live_obstacles@[j]).tile == t
                    && live_obstacles@[j].in_enclosure == Some(InEnclosure(enclosure_id)),
        decreases live_obstacles.len() - i,
    {
        let obstacle = live_obstacles[i];
        let ghost before = out@;
        let scoped = match obstacle.in_enclosure {
            Some(InEnclosure(id)) => id == enclosure_id,
            None => false,
        };
        if scoped {
            out.push(obstacle.tile);
        }
        proof {
            assert(live_obstacles@[i as int] == obstacle);
            assert forall|t: TilePosition| out@.contains(t) <==> exists|j: int|
                0 <= j < i + 1 && (#[trigger] live_obstacles@[j]).tile == t
                    && live_obstacles@[j].in_enclosure == Some(InEnclosure(enclosure_id)) by {
                if out@.contains(t) {
                    let k = choose|k: int| 0 <= k < out@.len() && out@[k] == t;
                    if k < before.len() {
                        assert(before.contains(t));
                    }
                }
                if exists|j: int| 0 <= j < i + 1 && (#[trigger] live_obstacles@[j]).tile == t
                    && live_obstacles@[j].in_enclosure == Some(InEnclosure(enclosure_id)) {
                    let j = choose|j: int| 0 <= j < i + 1 && (#[trigger] live_obstacles@[j]).tile == t
                        && live_obstacles@[j].in_enclosure == Some(InEnclosure(enclosure_id));
                    if j < i {
                        assert(before.contains(t));
                        let k = choose|k: int| 0 <= k < before.len() && before[k] == t;
                        assert(out@[k] == t);
                    } else {
                        assert(out@[before.len() as int] == t);
                    }
                }
            }
        }
        i += 1;
    }
    out
}

/// A tile a poop may be spawned on.
pub open spec fn poop_candidate(
    tile: TilePosition,
    config: PoopConfig,
    key: CollisionMapKey,
    masks: Map<CollisionMapKey, Set<TilePosition>>,
    blocked: Seq<TilePosition>,
    live: Seq<TilePosition>,
    exclude: Option<TilePosition>,
) -> bool {
    &&& spec_tile_in_bounds(tile, config.spawn_bounds)
    &&& exclude != Some(tile)
    &&& !blocked.contains(tile)
    &&& statically_walkable(masks, key, tile)
    &&& !live.contains(tile)
}

/// Candidate tiles before `(x, y)` in column-major order from the bottom left.
pub open spec fn candidate_before(tile: TilePosition, x: int, y: int) -> bool {
    tile.x < x || (tile.x == x && tile.y < y)
}

/// A random spawn tile for a poop among the candidate tiles of the spawn
/// bounds; `None` exactly when there is no candidate.
pub fn pick_random_poop_tile_in_bounds(
    config: &PoopConfig,
    key: CollisionMapKey,
    masks: &CollisionMasks,
    blocked: &Vec<TilePosition>,
    live: &Vec<TilePosition>,
    exclude: Option<TilePosition>,
    rng: &mut StdRng,
) -> (r: Option<TilePosition>)
    ensures
        r is None <==> !exists|t: TilePosition| #[trigger] poop_candidate(t, *config, key, masks@, blocked@, live@, exclude),
        r matches Some(t) ==> poop_candidate(t, *config, key, masks@, blocked@, live@, exclude),
{
    let bl = config.spawn_bounds.bottom_left;
    let tr = config.spawn_bounds.top_right;
    let mut candidates: Vec<TilePosition> = Vec::new();
    if bl.x <= tr.x && bl.y <= tr.y {
        let mut x: u32 = bl.x;
        loop
            invariant_except_break
                forall|t: TilePosition| candidates@.contains(t) <==> (poop_candidate(t, *config, key, masks@, blocked@, live@, exclude)
                    && t.x < x),
            invariant
                bl == config.spawn_bounds.bottom_left,
                tr == config.spawn_bounds.top_right,
                bl.x <= x <= tr.x,
                bl.y <= tr.y,
            ensures
                forall|t: TilePosition| candidates@.contains(t) <==> (poop_candidate(t, *config, key, masks@, blocked@, live@, exclude)
                    && t.x <= tr.x),
            decreases tr.x - x,
        {
            let mut y: u32 = bl.y;
            loop
                invariant_except_break
                    forall|t: TilePosition| candidates@.contains(t) <==> (poop_candidate(t, *config, key, masks@, blocked@, live@, exclude)
                        && candidate_before(t, x as int, y as int)),
                invariant
                    bl == config.spawn_bounds.bottom_left,
                    tr == config.spawn_bounds.top_right,
                    bl.x <= x <= tr.x,
                    bl.y <= y <= tr.y,
                ensures
                    forall|t: TilePosition| candidates@.contains(t) <==> (poop_candidate(t, *config, key, masks@, blocked@, live@, exclude)
                        && t.x <= x),
                decreases tr.y - y,
            {
                let tile = TilePosition { x, y };
                let ghost before = candidates@;
                let excluded = match exclude {
                    Some(e) => e == tile,
                    None => false,
                };
                if !excluded && !tiles_contain(blocked, tile) && masks.is_statically_walkable(key, tile)
                    && !tiles_contain(live, tile) {
                    candidates.push(tile);
                }
                proof {
                    assert forall|t: TilePosition| candidates@.contains(t) <==> (poop_candidate(t, *config, key, masks@, blocked@, live@, exclude)
                        && (candidate_before(t, x as int, y as int) || t == tile)) by {
                        if candidates@.contains(t) {
                            let k = choose|k: int| 0 <= k < candidates@.len() && candidates@[k] == t;
                            if k < before.len() {
                                assert(before.contains(t));
                            }
                        }
                        if poop_candidate(t, *config, key, masks@, blocked@, live@, exclude) && candidate_before(t, x as int, y as int) {
                            let k = choose|k: int| 0 <= k < before.len() && before[k] == t;
                            assert(candidates@[k] == t);
                        }
                        if poop_candidate(t, *config, key, masks@, blocked@, live@, exclude) && t == tile {
                            assert(candidates@[before.len() as int] == t);
                        }
                    }
                }
                if y == tr.y {
                    proof {
                        assert forall|t: TilePosition| candidates@.contains(t) <==> (poop_candidate(t, *config, key, masks@, blocked@, live@, exclude)
                            && t.x <= x) by {
                            if poop_candidate(t, *config, key, masks@, blocked@, live@, exclude) && t.x == x && t.y == y {
                                assert(t == tile);
                            }
                        }
                    }
                    break;
                }
                proof {
                    assert forall|t: TilePosition| (candidate_before(t, x as int, y as int) || t == tile)
                        == candidate_before(t, x as int, y + 1) by {
                        if t.x == x && t.y == y {
                            assert(t == tile);
                        }
                    }
                }
                y += 1;
            }
            if x == tr.x {
                break;
            }
            x += 1;
        }
    }
    proof {
        assert forall|t: TilePosition| candidates@.contains(t) <==> poop_candidate(t, *config, key, masks@, blocked@, live@, exclude) by {}
        if exists|t: TilePosition| #[trigger] poop_candidate(t, *config, key, masks@, blocked@, live@, exclude) {
            let t = choose|t: TilePosition| #[trigger] poop_candidate(t, *config, key, masks@, blocked@, live@, exclude);
            assert(candidates@.contains(t));
        }
    }
    choose_from_iter(candidates, rng)
}

/// A random spawn tile for a poop of `enclosure_id`, avoiding its saved
/// poops and the live obstacles scoped to it.
pub fn pick_random_poop_tile(
    enclosure_id: EnclosureId,
    config: &PoopConfig,
    key: CollisionMapKey,
    masks: &CollisionMasks,
    tiles: &DynamicObstacleTiles,
    live_obstacles: &Vec<LiveObstacle>,
    exclude: Option<TilePosition>,
    rng: &mut StdRng,
) -> (r: Option<TilePosition>)
    ensures
        ({
            let live = |t: TilePosition| exists|j: int|
                0 <= j < live_obstacles@.len() && (#[trigger] live_obstacles@[j]).tile == t
                    && live_obstacles@[j].in_enclosure == Some(InEnclosure(enclosure_id));
            let ok = |t: TilePosition| spec_tile_in_bounds(t, config.spawn_bounds) && exclude != Some(t)
                && !tiles.0@.contains(t) && statically_walkable(masks@, key, t) && !live(t);
            &&& r is None <==> !exists|t: TilePosition| #[trigger] ok(t)
            &&& r matches Some(t) ==> ok(t)
        }),
{
    let live = live_obstacles_for_enclosure(enclosure_id, live_obstacles);
    let r = pick_random_poop_tile_in_bounds(config, key, masks, &tiles.0, &live, exclude, rng);
    proof {
        let livef = |t: TilePosition| exists|j: int|
            0 <= j < live_obstacles@.len() && (#[trigger] live_obstacles@[j]).tile == t
                && live_obstacles@[j].in_enclosure == Some(InEnclosure(enclosure_id));
        let ok = |t: TilePosition| spec_tile_in_bounds(t, config.spawn_bounds) && exclude != Some(t)
            && !tiles.0@.contains(t) && statically_walkable(masks@, key, t) && !livef(t);
        assert forall|t: TilePosition| ok(t) == poop_candidate(t, *config, key, masks@, tiles.0@, live@, exclude) by {}
        if exists|t: TilePosition| #[trigger] ok(t) {
            let t = choose|t: TilePosition| #[trigger] ok(t);
            assert(poop_candidate(t, *config, key, masks@, tiles.0@, live@, exclude));
        }
    }
    r
}

/// What one threshold pass does to an enclosure's saved poop tiles: without a
/// mask nothing; otherwise the `spawned` tiles are appended in order, each a
/// spawn candidate when it was placed, until the count reaches the target for
/// `cleanliness` or no candidate is left.
pub open spec fn threshold_spawn_ok(
    enclosure_id: EnclosureId,
    thresholds: Seq<Stat>,
    bounds: TileBounds,
    cleanliness: Stat,
    masks: Map<CollisionMapKey, Set<TilePosition>>,
    live_obstacles: Seq<LiveObstacle>,
    exclude: Option<TilePosition>,
    before: Seq<TilePosition>,
    after: Seq<TilePosition>,
    spawned: Seq<TilePosition>,
) -> bool {
    let key = CollisionMapKey::Enclosure(enclosure_id);
    let target = thresholds_reached(cleanliness, thresholds) as u32;
    let live = |t: TilePosition| exists|j: int|
        0 <= j < live_obstacles.len() && (#[trigger] live_obstacles[j]).tile == t
            && live_obstacles[j].in_enclosure == Some(InEnclosure(enclosure_id));
    let ok = |t: TilePosition, blocked: Seq<TilePosition>| spec_tile_in_bounds(t, bounds)
        && exclude != Some(t) && !blocked.contains(t) && statically_walkable(masks, key, t) && !live(t);
    &&& !masks.contains_key(key) ==> spawned.len() == 0 && after == before
    &&& masks.contains_key(key) ==> {
        &&& after == before + spawned
        &&& forall|i: int| 0 <= i < spawned.len() ==> ok(#[trigger] spawned[i], before + spawned.take(i))
        &&& before.len() >= target ==> spawned.len() == 0
        &&& before.len() < target ==> after.len() <= target
        &&& after.len() < target ==> !exists|t: TilePosition| #[trigger] ok(t, after)
    }
}

/// Add floor poops until their count reaches the target for `cleanliness`
/// (or no spawn tile is left). Returns the tiles added, in order.
pub fn sync_threshold_poops_for_config(
    enclosure_id: EnclosureId,
    config: &PoopConfig,
    cleanliness: Stat,
    masks: &CollisionMasks,
    tiles: &mut DynamicObstacleTiles,
    live_obstacles: &Vec<LiveObstacle>,
    exclude: Option<TilePosition>,
    rng: &mut StdRng,
) -> (spawned: Vec<TilePosition>)
    requires
        old(tiles).0@.len() <= u32::MAX,
    ensures
        threshold_spawn_ok(
            enclosure_id,
            config.spawn_thresholds@,
            config.spawn_bounds,
            cleanliness,
            masks@,
            live_obstacles@,
            exclude,
            old(tiles).0@,
            final(tiles).0@,
            spawned@,
        ),
{
    let ghost key_g = CollisionMapKey::Enclosure(enclosure_id);
    let key = CollisionMapKey::Enclosure(enclosure_id);
    let mut spawned: Vec<TilePosition> = Vec::new();
    if !masks.contains(key) {
        return spawned;
    }
    let target = target_poop_count(cleanliness, config.spawn_thresholds.as_slice());
    let ghost start = tiles.0@;
    while (tiles.0.len() as u32) < target
        invariant
            key == key_g,
            key == CollisionMapKey::Enclosure(enclosure_id),
            masks@.contains_key(key),
            target == thresholds_reached(cleanliness, config.spawn_thresholds@) as u32,
            start == old(tiles).0@,
            start.len() <= u32::MAX,
            tiles.0@ == start + spawned@,
            tiles.0@.len() <= u32::MAX,
            start.len() < target ==> tiles.0@.len() <= target,
            start.len() >= target ==> spawned@.len() == 0,
            forall|i: int| 0 <= i < spawned@.len() ==> {
                let t = #[trigger] spawned@[i];
                &&& spec_tile_in_bounds(t, config.spawn_bounds)
                &&& exclude != Some(t)
                &&& !(start + spawned@.take(i)).contains(t)
                &&& statically_walkable(masks@, key, t)
                &&& !(exists|j: int| 0 <= j < live_obstacles@.len() && (#[trigger] live_obstacles@[j]).tile == t
                    && live_obstacles@[j].in_enclosure == Some(InEnclosure(enclosure_id)))
            },
        ensures
            tiles.0@.len() < target ==> !exists|t: TilePosition| #[trigger] spec_tile_in_bounds(t, config.spawn_bounds)
                && exclude != Some(t) && !tiles.0@.contains(t) && statically_walkable(masks@, key, t)
                && !(exists|j: int| 0 <= j < live_obstacles@.len() && (#[trigger] live_obstacles@[j]).tile == t
                    && live_obstacles@[j].in_enclosure == Some(InEnclosure(enclosure_id))),
        decreases target - tiles.0@.len(),
    {
        let picked = pick_random_poop_tile(enclosure_id, config, key, masks, tiles, live_obstacles, exclude, rng);
        let tile = match picked {
            None => {
                proof {
                    assert forall|t: TilePosition| !(spec_tile_in_bounds(t, config.spawn_bounds)
                        && exclude != Some(t) && !tiles.0@.contains(t) && statically_walkable(masks@, key, t)
                        && !(exists|j: int| 0 <= j < live_obstacles@.len() && (#[trigger] live_obstacles@[j]).tile == t
                            && live_obstacles@[j].in_enclosure == Some(InEnclosure(enclosure_id)))) by {
                        let livef = |t: TilePosition| exists|j: int|
                            0 <= j < live_obstacles@.len() && (#[trigger] live_obstacles@[j]).tile == t
                                && live_obstacles@[j].in_enclosure == Some(InEnclosure(enclosure_id));
                        let ok = |t: TilePosition| spec_tile_in_bounds(t, config.spawn_bounds) && exclude != Some(t)
                            && !tiles.0@.contains(t) && statically_walkable(masks@, key, t) && !livef(t);
                        assert(!ok(t));
                    }
                }
                break;
            },
            Some(t) => t,
        };
        let ghost before = tiles.0@;
        let ghost spawned_before = spawned@;
        tiles.insert(tile);
        spawned.push(tile);
        proof {
            assert(tiles.0@ =~= start + spawned@);
            assert forall|i: int| 0 <= i < spawned@.len() implies {
                let t = #[trigger] spawned@[i];
                &&& spec_tile_in_bounds(t, config.spawn_bounds)
                &&& exclude != Some(t)
                &&& !(start + spawned@.take(i)).contains(t)
                &&& statically_walkable(masks@, key, t)
                &&& !(exists|j: int| 0 <= j < live_obstacles@.len() && (#[trigger] live_obstacles@[j]).tile == t
                    && live_obstacles@[j].in_enclosure == Some(InEnclosure(enclosure_id)))
            } by {
                if i < spawned_before.len() {
                    assert(spawned@.take(i) =~= spawned_before.take(i));
                    assert(spawned@[i] == spawned_before[i]);
                } else {
                    assert(spawned@.take(i) =~= spawned_before);
                }
            }
        }
    }
    proof {
        let live = |t: TilePosition| exists|j: int|
            0 <= j < live_obstacles@.len() && (#[trigger] live_obstacles@[j]).tile == t
                && live_obstacles@[j].in_enclosure == Some(InEnclosure(enclosure_id));
        let ok = |t: TilePosition, blocked: Seq<TilePosition>| spec_tile_in_bounds(t, config.spawn_bounds)
            && exclude != Some(t) && !blocked.contains(t) && statically_walkable(masks@, key, t) && !live(t);
        assert forall|i: int| 0 <= i < spawned@.len() implies ok(#[trigger] spawned@[i], old(tiles).0@ + spawned@.take(i)) by {
            let t = spawned@[i];
            assert(!(start + spawned@.take(i)).contains(t));
        }
    }
    spawned
}

/// The saved poop tiles that have no visible poop yet, in saved order.
pub fn sync_missing_poop_entities(tiles: &DynamicObstacleTiles, existing: &Vec<TilePosition>) -> (r: Vec<TilePosition>)
    ensures
        r@ == tiles.0@.filter(|t: TilePosition| !existing@.contains(t)),
{
    let ghost pred = |t: TilePosition| !existing@.contains(t);
    let mut out: Vec<TilePosition> = Vec::new();
    let mut i: usize = 0;
    while i < tiles.0.len()
        invariant
            0 <= i <= tiles.0@.len(),
            pred == (|t: TilePosition| !existing@.contains(t)),
            out@ == tiles.0@.take(i as int).filter(pred),
        decreases tiles.0.len() - i,
    {
        let t = tiles.0[i];
        proof {
            assert(tiles.0@.take(i + 1) =~= tiles.0@.take(i as int).push(t));
            tiles.0@.take(i as int).lemma_filter_push(t, pred);
        }
        if !tiles_contain(existing, t) {
            out.push(t);
        }
        i += 1;
    }
    assert(tiles.0@.take(i as int) =~= tiles.0@);
    out
}

/// Whether poops spawned for `enclosure_id` are visible now: the player is in
/// that enclosure's room.
pub open spec fn spec_poops_visible(screen: Screen, enclosure_id: EnclosureId) -> bool {
    screen matches Screen::InRoom(room) && spec_enclosure_for_room(room) == enclosure_id
}

pub fn poops_visible(screen: Screen, enclosure_id: EnclosureId) -> (r: bool)
    ensures
        r == spec_poops_visible(screen, enclosure_id),
{
    match screen {
        Screen::InRoom(room) => enclosure_for_room(room) == enclosure_id,
        _ => false,
    }
}

/// A poop was picked up from a tile.
#[derive(Debug, Clone, Copy, PartialEq, Eq, Structural)]
pub struct PoopPickedUpEvent {
    pub entity: u64,
    pub enclosure_id: EnclosureId,
    pub tile: TilePosition,
}

/// What a pickup does besides the wheelbarrow: the stat restored and the
/// pickup line shown.
#[derive(Debug, Clone, PartialEq, Eq)]
pub struct PoopPickupEffects {
    pub improve: ImproveStatEvent,
    pub message: String,
}

pub open spec fn picked_up_poop_message(count: int) -> Seq<char> {
    "Picked up poop ("@ + decimal(count as nat) + "/"@ + decimal(WHEELBARROW_CAPACITY as nat) + ")"@
}

/// Apply a pickup: unblock the poop's tile in its enclosure's record, restore
/// the enclosure's cleanliness by the configured amount, and report the
/// wheelbarrow load.
pub fn apply_poop_pickup(
    event: PoopPickedUpEvent,
    wheelbarrow: &PoopWheelbarrow,
    records: &mut Vec<(EnclosureId, DynamicObstacleTiles)>,
) -> (r: PoopPickupEffects)
    ensures
        ({
            let idx = first_record(old(records)@, event.enclosure_id, 0);
            &&& crate::collision::other_records_unchanged(old(records)@, final(records)@, idx)
            &&& idx >= old(records)@.len() ==> final(records)@ == old(records)@
            &&& idx < old(records)@.len() ==> final(records)@[idx].1.0@
                == crate::collision::removed_tile(old(records)@[idx].1.0@, event.tile)
        }),
        r.improve == (ImproveStatEvent {
            target: StatTarget::Enclosure { id: event.enclosure_id, stat: EnclosureStat::Cleanliness },
            amount: 350,
        }),
        r.message@ == picked_up_poop_message(
            if wheelbarrow.poops@.len() < 255 { wheelbarrow.poops@.len() as int } else { 255 },
        ),
{
    crate::collision::cleanup_dynamic_obstacle(
        records,
        crate::collision::TrackedDynamicObstacle { enclosure_id: event.enclosure_id, last_tile: event.tile },
    );
    let config = poop_config_for(event.enclosure_id);
    let improve = ImproveStatEvent {
        target: StatTarget::Enclosure { id: event.enclosure_id, stat: EnclosureStat::Cleanliness },
        amount: config.cleanliness_restore_per_poop.0.0,
    };
    let mut message = String::from_str("Picked up poop (");
    let count = decimal_string(wheelbarrow.count() as u64);
    message.append(count.as_str());
    message.append("/");
    let cap = decimal_string(WHEELBARROW_CAPACITY as u64);
    message.append(cap.as_str());
    message.append(")");
    PoopPickupEffects { improve, message }
}

/// Empty the wheelbarrow at the compost bin; the pickup line to show.
pub fn apply_poop_dump(wheelbarrow: &mut PoopWheelbarrow) -> (message: String)
    ensures
        final(wheelbarrow).poops@.len() == 0,
        message@ == "Emptied wheelbarrow"@,
{
    wheelbarrow.poops.clear();
    String::from_str("Emptied wheelbarrow")
}

/// A poop to show: its enclosure, the room it is shown in, and its tile.
#[derive(Debug, Clone, Copy, PartialEq, Eq, Structural)]
pub struct PoopSpawn {
    pub enclosure_id: EnclosureId,
    pub room: InRoom,
    pub tile: TilePosition,
}

/// The poops added to one enclosure record by a pass (`before` the pass,
/// `after` it), as shown when its enclosure is visible on `screen`.
pub open spec fn new_poops(
    screen: Screen,
    before: (EnclosureId, Stat, DynamicObstacleTiles),
    after: (EnclosureId, Stat, DynamicObstacleTiles),
) -> Seq<PoopSpawn> {
    if spec_poops_visible(screen, before.0) {
        after.2.0@.skip(before.2.0@.len() as int).map_values(
            |t: TilePosition| PoopSpawn { enclosure_id: before.0, room: spec_room_for_enclosure(before.0), tile: t },
        )
    } else {
        Seq::empty()
    }
}

/// The poops to show for the first `n` records, record by record.
pub open spec fn shown_poops(
    screen: Screen,
    start: Seq<(EnclosureId, Stat, DynamicObstacleTiles)>,
    now: Seq<(EnclosureId, Stat, DynamicObstacleTiles)>,
    n: nat,
) -> Seq<PoopSpawn>
    decreases n,
{
    if n == 0 {
        Seq::empty()
    } else {
        shown_poops(screen, start, now, (n - 1) as nat) + new_poops(screen, start[n - 1], now[n - 1])
    }
}

proof fn lemma_shown_poops_prefix(
    screen: Screen,
    start: Seq<(EnclosureId, Stat, DynamicObstacleTiles)>,
    a: Seq<(EnclosureId, Stat, DynamicObstacleTiles)>,
    b: Seq<(EnclosureId, Stat, DynamicObstacleTiles)>,
    n: nat,
)
    requires
        forall|j: int| 0 <= j < n ==> #[trigger] a[j] == b[j],
    ensures
        shown_poops(screen, start, a, n) == shown_poops(screen, start, b, n),
    decreases n,
{
    if n > 0 {
        lemma_shown_poops_prefix(screen, start, a, b, (n - 1) as nat);
        assert(a[n - 1] == b[n - 1]);
    }
}

/// One pass of threshold poop spawning over every enclosure record (id,
/// cleanliness, saved poop tiles), once all required collision maps exist.
/// Each record gets the threshold pass of the shipped poop configuration,
/// never placing a poop on the player's tile. Returns the poops to show:
/// those added to the enclosure the player is in, in record order.
pub fn sync_threshold_poop_spawn(
    screen: Screen,
    masks: &CollisionMasks,
    player_tile: Option<TilePosition>,
    live_obstacles: &Vec<LiveObstacle>,
    enclosures: &mut Vec<(EnclosureId, Stat, DynamicObstacleTiles)>,
    rng: &mut StdRng,
) -> (shown: Vec<PoopSpawn>)
    requires
        forall|i: int| 0 <= i < old(enclosures)@.len() ==> (#[trigger] old(enclosures)@[i]).2.0@.len() <= u32::MAX,
    ensures
        final(enclosures)@.len() == old(enclosures)@.len(),
        forall|i: int| 0 <= i < old(enclosures)@.len() ==> {
            &&& (#[trigger] final(enclosures)@[i]).0 == old(enclosures)@[i].0
            &&& final(enclosures)@[i].1 == old(enclosures)@[i].1
            &&& old(enclosures)@[i].2.0@.is_prefix_of(final(enclosures)@[i].2.0@)
        },
        !spec_collision_ready(masks@) ==> shown@.len() == 0 && final(enclosures)@ == old(enclosures)@,
        spec_collision_ready(masks@) ==> {
            &&& forall|i: int| 0 <= i < old(enclosures)@.len() ==> threshold_spawn_ok(
                old(enclosures)@[i].0,
                spec_poop_thresholds(),
                spec_push_pop_placement().wander_bounds,
                old(enclosures)@[i].1,
                masks@,
                live_obstacles@,
                player_tile,
                old(enclosures)@[i].2.0@,
                (#[trigger] final(enclosures)@[i]).2.0@,
                final(enclosures)@[i].2.0@.skip(old(enclosures)@[i].2.0@.len() as int),
            )
            &&& shown@ == shown_poops(screen, old(enclosures)@, final(enclosures)@, old(enclosures)@.len())
        },
{
    let mut shown: Vec<PoopSpawn> = Vec::new();
    if !collision_ready(masks) {
        return shown;
    }
    let ghost start = enclosures@;
    let mut i: usize = 0;
    while i < enclosures.len()
        invariant
            0 <= i <= enclosures@.len(),
            enclosures@.len() == start.len(),
            start == old(enclosures)@,
            forall|j: int| 0 <= j < start.len() ==> (#[trigger] start[j]).2.0@.len() <= u32::MAX,
            forall|j: int| 0 <= j < start.len() ==> {
                &&& (#[trigger] enclosures@[j]).0 == start[j].0
                &&& enclosures@[j].1 == start[j].1
                &&& start[j].2.0@.is_prefix_of(enclosures@[j].2.0@)
            },
            forall|j: int| i <= j < start.len() ==> #[trigger] enclosures@[j] == start[j],
            forall|j: int| 0 <= j < i ==> threshold_spawn_ok(
                start[j].0,
                spec_poop_thresholds(),
                spec_push_pop_placement().wander_bounds,
                start[j].1,
                masks@,
                live_obstacles@,
                player_tile,
                start[j].2.0@,
                (#[trigger] enclosures@[j]).2.0@,
                enclosures@[j].2.0@.skip(start[j].2.0@.len() as int),
            ),
            shown@ == shown_poops(screen, start, enclosures@, i as nat),
        decreases enclosures.len() - i,
    {
        let enclosure_id = enclosures[i].0;
        let cleanliness = enclosures[i].1;
        let config = poop_config_for(enclosure_id);
        let visible = poops_visible(screen, enclosure_id);
        let room = room_for_enclosure(enclosure_id);
        let ghost before = enclosures@;
        let spawned = sync_threshold_poops_for_config(
            enclosure_id,
            &config,
            cleanliness,
            masks,
            &mut enclosures[i].2,
            live_obstacles,
            player_tile,
            rng,
        );
        let ghost after_call = enclosures@;
        let ghost f = |t: TilePosition| PoopSpawn { enclosure_id, room, tile: t };
        proof {
            let old_tiles = start[i as int].2.0@;
            let new_tiles = enclosures@[i as int].2.0@;
            assert(before[i as int] == start[i as int]);
            assert(new_tiles.skip(old_tiles.len() as int) =~= spawned@);
            assert(new_tiles.take(old_tiles.len() as int) =~= old_tiles);
            assert forall|j: int| 0 <= j < i implies #[trigger] enclosures@[j] == before[j] by {}
            lemma_shown_poops_prefix(screen, start, enclosures@, before, i as nat);
            assert forall|j: int| 0 <= j < i + 1 implies threshold_spawn_ok(
                start[j].0,
                spec_poop_thresholds(),
                spec_push_pop_placement().wander_bounds,
                start[j].1,
                masks@,
                live_obstacles@,
                player_tile,
                start[j].2.0@,
                (#[trigger] enclosures@[j]).2.0@,
                enclosures@[j].2.0@.skip(start[j].2.0@.len() as int),
            ) by {
                if j < i {
                    assert(enclosures@[j] == before[j]);
                }
            }
            assert(shown@ == shown_poops(screen, start, enclosures@, i as nat));
        }
        let ghost shown_start = shown@;
        if visible {
            let mut k: usize = 0;
            while k < spawned.len()
                invariant
                    0 <= k <= spawned@.len(),
                    f == (|t: TilePosition| PoopSpawn { enclosure_id, room, tile: t }),
                    shown@ == shown_start + spawned@.take(k as int).map_values(f),
                decreases spawned.len() - k,
            {
                shown.push(PoopSpawn { enclosure_id, room, tile: spawned[k] });
                proof {
                    assert(spawned@.take(k + 1) =~= spawned@.take(k as int).push(spawned@[k as int]));
                    assert(shown@ =~= shown_start + spawned@.take(k + 1).map_values(f));
                }
                k += 1;
            }
            proof {
                assert(spawned@.take(spawned@.len() as int) =~= spawned@);
            }
        }
        proof {
            let added = new_poops(screen, start[i as int], enclosures@[i as int]);
            assert(start[i as int].0 == enclosure_id);
            if visible {
                assert(added =~= spawned@.map_values(f));
            } else {
                assert(added =~= Seq::<PoopSpawn>::empty());
            }
            assert(shown_poops(screen, start, enclosures@, (i + 1) as nat)
                == shown_poops(screen, start, enclosures@, i as nat) + added);
            assert(shown@ =~= shown_poops(screen, start, enclosures@, (i + 1) as nat));
        }
        i += 1;
    }
    proof {
        assert(shown@ == shown_poops(screen, start, enclosures@, start.len()));
    }
    shown
}

} // verus!
