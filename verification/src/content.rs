//! Room-object ids and tile-adjacency helpers.

use vstd::prelude::*;

use crate::configs::{animal_default_placement, spec_animal_default_placement};
use crate::types::{AnimalId, TileBounds, TilePosition};

verus! {

/// Identifies an interactable room object authored on interior tiles.
#[derive(Debug, Clone, Copy, PartialEq, Eq, Hash, Structural, Default)]
pub enum RoomObjectId {
    #[default]
    DietFridge,
    SeedChest,
    PushPopFeedingDish,
    CompostBin,
}

pub open spec fn spec_room_object_display_name(object_id: RoomObjectId) -> Seq<char> {
    match object_id {
        RoomObjectId::DietFridge => "Diet Fridge"@,
        RoomObjectId::SeedChest => "Seed Chest"@,
        RoomObjectId::PushPopFeedingDish => "Push Pop's Feeding Dish"@,
        RoomObjectId::CompostBin => "Compost Bin"@,
    }
}

pub fn room_object_display_name(object_id: RoomObjectId) -> (r: &'static str)
    ensures
        r@ == spec_room_object_display_name(object_id),
{
    match object_id {
        RoomObjectId::DietFridge => "Diet Fridge",
        RoomObjectId::SeedChest => "Seed Chest",
        RoomObjectId::PushPopFeedingDish => "Push Pop's Feeding Dish",
        RoomObjectId::CompostBin => "Compost Bin",
    }
}

/// Home tile of an animal that has a default placement.
pub fn default_tile_position(animal_id: AnimalId) -> (r: Option<TilePosition>)
    ensures
        r == (match spec_animal_default_placement(animal_id) {
            Some(p) => Some(p.home_position),
            None => None,
        }),
{
    match animal_default_placement(animal_id) {
        Some(placement) => Some(placement.home_position),
        None => None,
    }
}

/// `|a - b|` on naturals.
pub open spec fn abs_diff(a: int, b: int) -> int {
    if a >= b { a - b } else { b - a }
}

/// Manhattan distance between two tiles.
pub open spec fn tile_distance(a: TilePosition, b: TilePosition) -> int {
    abs_diff(a.x as int, b.x as int) + abs_diff(a.y as int, b.y as int)
}

/// True when the player tile is on or orthogonally adjacent to the object tile.
pub fn can_interact(player: TilePosition, object: TilePosition) -> (r: bool)
    ensures
        r == (tile_distance(player, object) <= 1),
{
    let dx = if player.x >= object.x { player.x - object.x } else { object.x - player.x };
    let dy = if player.y >= object.y { player.y - object.y } else { object.y - player.y };
    (dx == 0 && dy <= 1) || (dx == 1 && dy == 0)
}

pub open spec fn spec_tile_in_bounds(tile: TilePosition, bounds: TileBounds) -> bool {
    &&& bounds.bottom_left.x <= tile.x <= bounds.top_right.x
    &&& bounds.bottom_left.y <= tile.y <= bounds.top_right.y
}

pub fn tile_in_bounds(tile: TilePosition, bounds: TileBounds) -> (r: bool)
    ensures
        r == spec_tile_in_bounds(tile, bounds),
{
    tile.x >= bounds.bottom_left.x && tile.x <= bounds.top_right.x && tile.y
        >= bounds.bottom_left.y && tile.y <= bounds.top_right.y
}

/// Left, right, down and up neighbours, in that order; the left and down
/// neighbours saturate at the grid edge.
pub open spec fn spec_adjacent_tiles(tile: TilePosition) -> Seq<TilePosition> {
    seq![
        TilePosition { x: if tile.x > 0 { (tile.x - 1) as u32 } else { 0 }, y: tile.y },
        TilePosition { x: (tile.x + 1) as u32, y: tile.y },
        TilePosition { x: tile.x, y: if tile.y > 0 { (tile.y - 1) as u32 } else { 0 } },
        TilePosition { x: tile.x, y: (tile.y + 1) as u32 },
    ]
}

pub fn adjacent_tiles(tile: TilePosition) -> (r: [TilePosition; 4])
    requires
        tile.x < u32::MAX,
        tile.y < u32::MAX,
    ensures
        r@ == spec_adjacent_tiles(tile),
{
    let r = [
        TilePosition { x: tile.x.saturating_sub(1), y: tile.y },
        TilePosition { x: tile.x + 1, y: tile.y },
        TilePosition { x: tile.x, y: tile.y.saturating_sub(1) },
        TilePosition { x: tile.x, y: tile.y + 1 },
    ];
    assert(r@ =~= spec_adjacent_tiles(tile));
    r
}

} // verus!
