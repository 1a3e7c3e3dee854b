//! Room interiors: where a room's resident animal appears when the room is
//! entered.

use vstd::prelude::*;
use crate::collision::{
    CollisionMapKey, CollisionMasks, DynamicObstacleTiles, LiveObstacle, nearest_free, no_walkable_reachable,
    resolve_spawn_tile, spec_is_walkable,
};
use crate::configs::{animal_default_placement, spec_animal_default_placement};
use crate::content::{default_tile_position, spec_tile_in_bounds};
use crate::types::{AnimalId, EnclosureId, TileBounds, TilePosition};

verus! {

/// The saved tile of the first record of `id`, if any.
pub open spec fn saved_tile_of(saved: Seq<(AnimalId, TilePosition)>, id: AnimalId) -> Option<TilePosition>
    decreases saved.len(),
{
    if saved.len() == 0 {
        None
    } else if saved[0].0 == id {
        Some(saved[0].1)
    } else {
        saved_tile_of(saved.drop_first(), id)
    }
}

/// Where the resident would like to appear: its saved tile, else its home
/// tile, else the player's room spawn.
pub open spec fn resident_preferred(saved: Seq<(AnimalId, TilePosition)>, id: AnimalId, room_spawn: TilePosition) -> TilePosition {
    match saved_tile_of(saved, id) {
        Some(t) => t,
        None => match spec_animal_default_placement(id) {
            Some(p) => p.home_position,
            None => room_spawn,
        },
    }
}

/// The area searched for a free tile: the resident's wander bounds, or just
/// the preferred tile when it has no placement.
pub open spec fn resident_bounds(id: AnimalId, preferred: TilePosition) -> TileBounds {
    match spec_animal_default_placement(id) {
        Some(p) => p.wander_bounds,
        None => TileBounds { bottom_left: preferred, top_right: preferred },
    }
}

fn find_saved_tile(saved: &Vec<(AnimalId, TilePosition)>, id: AnimalId) -> (r: Option<TilePosition>)
    ensures
        r == saved_tile_of(saved@, id),
{
    let mut i: usize = 0;
    assert(saved@.skip(0) =~= saved@);
    while i < saved.len()
        invariant
            0 <= i <= saved@.len(),
            saved_tile_of(saved@, id) == saved_tile_of(saved@.skip(i as int), id),
        decreases saved.len() - i,
    {
        assert(saved@.skip(i as int).drop_first() =~= saved@.skip(i + 1));
        if saved[i].0 == id {
            return Some(saved[i].1);
        }
        i += 1;
    }
    None
}

/// The tile the resident animal of a room spawns on when the room is entered:
/// the preferred tile when it is walkable, else the first walkable tile a
/// breadth-first search of the resident's bounds meets, else the preferred
/// tile again.
pub fn resident_spawn_tile(
    animal_id: AnimalId,
    saved: &Vec<(AnimalId, TilePosition)>,
    room_spawn: TilePosition,
    key: CollisionMapKey,
    static_masks: &CollisionMasks,
    persisted_obstacles: &Vec<(EnclosureId, DynamicObstacleTiles)>,
    live_obstacles: &Vec<LiveObstacle>,
) -> (r: TilePosition)
    requires
        !spec_is_walkable(static_masks@, persisted_obstacles@, live_obstacles@, key, resident_preferred(saved@, animal_id, room_spawn), None)
            ==> resident_preferred(saved@, animal_id, room_spawn).x < u32::MAX
            && resident_preferred(saved@, animal_id, room_spawn).y < u32::MAX,
    ensures
        ({
            let preferred = resident_preferred(saved@, animal_id, room_spawn);
            let bounds = resident_bounds(animal_id, preferred);
            let walkable = |t: TilePosition| spec_is_walkable(static_masks@, persisted_obstacles@, live_obstacles@, key, t, None);
            &&& walkable(preferred) ==> r == preferred
            &&& r != preferred ==> spec_tile_in_bounds(r, bounds) && walkable(r) && nearest_free(preferred, r, bounds, walkable)
            &&& r == preferred && !walkable(preferred) ==> no_walkable_reachable(
                preferred,
                bounds,
                static_masks@,
                persisted_obstacles@,
                live_obstacles@,
                key,
                None,
            )
        }),
{
    let preferred = match find_saved_tile(saved, animal_id) {
        Some(t) => t,
        None => match default_tile_position(animal_id) {
            Some(t) => t,
            None => room_spawn,
        },
    };
    let bounds = match animal_default_placement(animal_id) {
        Some(p) => p.wander_bounds,
        None => TileBounds { bottom_left: preferred, top_right: preferred },
    };
    resolve_spawn_tile(preferred, bounds, key, static_masks, persisted_obstacles, live_obstacles, None)
}

} // verus!
