//! Collision: static blocked-tile masks per map, save-backed dynamic blocked
//! tiles, walkability queries, and the record of maps that failed to load.

use vstd::prelude::*;

use crate::app_state::{InRoom, Screen};
use crate::cleaning::spec_room_for_enclosure;
use crate::configs::{
    animal_default_placement, enclosure_for_animal, spec_animal_default_placement,
    spec_enclosure_for_animal,
};
use crate::content::{
    adjacent_tiles, spec_adjacent_tiles, spec_tile_in_bounds, tile_in_bounds,
};
use crate::random::choose_from_slice;
use crate::text::{decimal, decimal_string};
use crate::types::{AnimalId, EnclosureId, TileBounds, TilePosition};

verus! {

// ---------------------------------------------------------
// Collision keys
// ---------------------------------------------------------

/// Identifies one collision map: the overview or an enclosure interior.
#[derive(Debug, Clone, Copy, PartialEq, Eq, Hash, Structural)]
pub enum CollisionMapKey {
    Overview,
    Enclosure(EnclosureId),
}

/// The enclosure shown by a room interior.
pub open spec fn spec_enclosure_for_room(room: InRoom) -> EnclosureId {
    match room {
        InRoom::NutritionHouse => EnclosureId::NutritionHousePlaypen,
        InRoom::PushPopEnclosure => EnclosureId::PushPopEnclosure,
        InRoom::Pasture => EnclosureId::Pasture,
        InRoom::ReptileEnclosure => EnclosureId::ReptileEnclosure,
    }
}

pub fn enclosure_for_room(room: InRoom) -> (r: EnclosureId)
    ensures
        r == spec_enclosure_for_room(room),
{
    match room {
        InRoom::NutritionHouse => EnclosureId::NutritionHousePlaypen,
        InRoom::PushPopEnclosure => EnclosureId::PushPopEnclosure,
        InRoom::Pasture => EnclosureId::Pasture,
        InRoom::ReptileEnclosure => EnclosureId::ReptileEnclosure,
    }
}

/// Rooms and enclosures correspond one to one: the enclosure of the room of
/// an enclosure is that enclosure, and the other way round.
pub proof fn law_room_enclosure_round_trip(room: InRoom, id: EnclosureId)
    ensures
        spec_room_for_enclosure(spec_enclosure_for_room(room)) == room,
        spec_enclosure_for_room(spec_room_for_enclosure(id)) == id,
{
}

pub open spec fn spec_key_for_screen(screen: Screen) -> CollisionMapKey {
    match screen {
        Screen::InRoom(room) => CollisionMapKey::Enclosure(spec_enclosure_for_room(room)),
        _ => CollisionMapKey::Overview,
    }
}

pub open spec fn spec_asset_path(key: CollisionMapKey) -> Seq<char> {
    match key {
        CollisionMapKey::Overview => "maps/overview/map.tmx"@,
        CollisionMapKey::Enclosure(EnclosureId::NutritionHousePlaypen) => "maps/interiors/nutrition_house_interior.tmx"@,
        CollisionMapKey::Enclosure(EnclosureId::PushPopEnclosure) => "maps/interiors/push_pop_enclosure_interior.tmx"@,
        CollisionMapKey::Enclosure(EnclosureId::Pasture) => "maps/interiors/pasture_interior.tmx"@,
        CollisionMapKey::Enclosure(EnclosureId::ReptileEnclosure) => "maps/interiors/reptile_enclosure_interior.tmx"@,
    }
}

pub open spec fn spec_enclosure_debug_name(id: EnclosureId) -> Seq<char> {
    match id {
        EnclosureId::NutritionHousePlaypen => "NutritionHousePlaypen"@,
        EnclosureId::PushPopEnclosure => "PushPopEnclosure"@,
        EnclosureId::Pasture => "Pasture"@,
        EnclosureId::ReptileEnclosure => "ReptileEnclosure"@,
    }
}

/// The key as written in player and log copy, e.g. `Enclosure(Pasture)`.
pub open spec fn spec_key_debug_name(key: CollisionMapKey) -> Seq<char> {
    match key {
        CollisionMapKey::Overview => "Overview"@,
        CollisionMapKey::Enclosure(id) => "Enclosure("@ + spec_enclosure_debug_name(id) + ")"@,
    }
}

fn enclosure_debug_name(id: EnclosureId) -> (r: &'static str)
    ensures
        r@ == spec_enclosure_debug_name(id),
{
    match id {
        EnclosureId::NutritionHousePlaypen => "NutritionHousePlaypen",
        EnclosureId::PushPopEnclosure => "PushPopEnclosure",
        EnclosureId::Pasture => "Pasture",
        EnclosureId::ReptileEnclosure => "ReptileEnclosure",
    }
}

impl CollisionMapKey {
    /// The map the player walks on for `screen`.
    pub fn for_screen(screen: &Screen) -> (r: Self)
        ensures
            r == spec_key_for_screen(*screen),
    {
        match screen {
            Screen::InRoom(room) => CollisionMapKey::Enclosure(enclosure_for_room(*room)),
            _ => CollisionMapKey::Overview,
        }
    }

    pub open spec fn spec_enclosure_id(self) -> Option<EnclosureId> {
        match self {
            CollisionMapKey::Overview => None,
            CollisionMapKey::Enclosure(id) => Some(id),
        }
    }

    pub fn enclosure_id(self) -> (r: Option<EnclosureId>)
        ensures
            r == self.spec_enclosure_id(),
    {
        match self {
            CollisionMapKey::Overview => None,
            CollisionMapKey::Enclosure(id) => Some(id),
        }
    }

    /// Asset path used when requesting this map for collision masks.
    pub fn asset_path(self) -> (r: &'static str)
        ensures
            r@ == spec_asset_path(self),
    {
        match self {
            CollisionMapKey::Overview => "maps/overview/map.tmx",
            CollisionMapKey::Enclosure(EnclosureId::NutritionHousePlaypen) => "maps/interiors/nutrition_house_interior.tmx",
            CollisionMapKey::Enclosure(EnclosureId::PushPopEnclosure) => "maps/interiors/push_pop_enclosure_interior.tmx",
            CollisionMapKey::Enclosure(EnclosureId::Pasture) => "maps/interiors/pasture_interior.tmx",
            CollisionMapKey::Enclosure(EnclosureId::ReptileEnclosure) => "maps/interiors/reptile_enclosure_interior.tmx",
        }
    }

    /// The key as written in player and log copy.
    pub fn debug_name(self) -> (r: String)
        ensures
            r@ == spec_key_debug_name(self),
    {
        match self {
            CollisionMapKey::Overview => String::from_str("Overview"),
            CollisionMapKey::Enclosure(id) => {
                let mut s = String::from_str("Enclosure(");
                s.append(enclosure_debug_name(id));
                s.append(")");
                s
            },
        }
    }
}

/// The collision map of an animal's home enclosure, for animals that have a
/// default placement.
pub fn collision_key_for_animal(animal_id: AnimalId) -> (r: Option<CollisionMapKey>)
    ensures
        r == (if spec_animal_default_placement(animal_id) is Some {
            Some(CollisionMapKey::Enclosure(spec_enclosure_for_animal(animal_id)))
        } else {
            None::<CollisionMapKey>
        }),
{
    match animal_default_placement(animal_id) {
        Some(_) => Some(CollisionMapKey::Enclosure(enclosure_for_animal(animal_id))),
        None => None,
    }
}

// ---------------------------------------------------------
// Load failures
// ---------------------------------------------------------

/// Stable reason category: the root map asset failed to load.
pub const COLLISION_LOAD_REASON_ROOT_ASSET_FAILED: &'static str = "root_asset_failed";

/// Stable reason category: a dependency of the map failed to load.
pub const COLLISION_LOAD_REASON_RECURSIVE_DEPENDENCY_FAILED: &'static str = "recursive_dependency_failed";

/// One failed required collision map.
#[derive(Debug, Clone, PartialEq, Eq)]
pub struct CollisionLoadFailure {
    pub key: CollisionMapKey,
    pub asset_path: String,
    pub reason: String,
}

/// Required-map load failures of the current loading attempt, at most one per key.
#[derive(Debug, Clone, Default)]
pub struct CollisionLoadFailures {
    pub entries: Vec<CollisionLoadFailure>,
}

/// Whether some entry of `entries` has `key`.
pub open spec fn has_key(entries: Seq<CollisionLoadFailure>, key: CollisionMapKey) -> bool {
    exists|i: int| 0 <= i < entries.len() && (#[trigger] entries[i]).key == key
}

/// No two entries share a key.
pub open spec fn keys_unique(entries: Seq<CollisionLoadFailure>) -> bool {
    forall|i: int, j: int| 0 <= i < j < entries.len() ==> (#[trigger] entries[i]).key != (#[trigger] entries[j]).key
}

pub const MAX_FAILURE_DETAILS_IN_UI: usize = 3;

pub const MAX_UI_MESSAGE_CHARS: usize = 400;

/// Concise toast copy for the title screen.
pub open spec fn spec_toast_message(entries: Seq<CollisionLoadFailure>) -> Seq<char> {
    if entries.len() == 0 {
        Seq::empty()
    } else if entries.len() == 1 {
        "Could not load map ("@ + spec_key_debug_name(entries[0].key) + "). See log."@
    } else {
        "Could not load "@ + decimal(entries.len()) + " maps. See log."@
    }
}

/// One detail line of the loading-screen copy.
pub open spec fn detail_line(e: CollisionLoadFailure) -> Seq<char> {
    "\n- "@ + spec_key_debug_name(e.key) + ": "@ + e.asset_path@ + " ("@ + e.reason@ + ")"@
}

/// The detail lines of `entries`, in order.
pub open spec fn detail_lines(entries: Seq<CollisionLoadFailure>) -> Seq<char>
    decreases entries.len(),
{
    if entries.len() == 0 {
        Seq::empty()
    } else {
        detail_lines(entries.drop_last()) + detail_line(entries.last())
    }
}

/// The loading-screen copy before it is cut to the UI limit.
pub open spec fn full_detail_message(entries: Seq<CollisionLoadFailure>) -> Seq<char> {
    let shown = if entries.len() > MAX_FAILURE_DETAILS_IN_UI { entries.take(MAX_FAILURE_DETAILS_IN_UI as int) } else { entries };
    let more = if entries.len() > MAX_FAILURE_DETAILS_IN_UI {
        "\n…and "@ + decimal((entries.len() - MAX_FAILURE_DETAILS_IN_UI) as nat) + " more"@
    } else {
        Seq::empty()
    };
    "Could not load a required map. Returning to title…"@ + "\n"@ + detail_lines(shown) + more
        + "\nCheck the asset and log for details."@
}

/// `msg` cut to the UI limit: longer copy keeps its first 399 characters and
/// ends with an ellipsis.
pub open spec fn truncated_ui_message(msg: Seq<char>) -> Seq<char> {
    if msg.len() > MAX_UI_MESSAGE_CHARS {
        msg.take(MAX_UI_MESSAGE_CHARS - 1).push('…')
    } else {
        msg
    }
}

pub fn truncate_ui_message(msg: String) -> (r: String)
    ensures
        r@ == truncated_ui_message(msg@),
        r@.len() <= MAX_UI_MESSAGE_CHARS || r@ == msg@,
{
    let n = msg.as_str().unicode_len();
    if n > MAX_UI_MESSAGE_CHARS {
        let head = msg.as_str().substring_char(0, MAX_UI_MESSAGE_CHARS - 1);
        let mut out = String::from_str(head);
        out.append("…");
        proof {
            reveal_strlit("…");
            assert(out@ =~= msg@.take(MAX_UI_MESSAGE_CHARS - 1).push('…'));
        }
        out
    } else {
        msg
    }
}

impl CollisionLoadFailures {
    pub fn clear(&mut self)
        ensures
            final(self).entries@.len() == 0,
    {
        self.entries.clear();
    }

    pub fn is_empty(&self) -> (r: bool)
        ensures
            r == (self.entries@.len() == 0),
    {
        self.entries.len() == 0
    }

    pub fn contains_key(&self, key: CollisionMapKey) -> (r: bool)
        ensures
            r == has_key(self.entries@, key),
    {
        let mut i: usize = 0;
        while i < self.entries.len()
            invariant
                0 <= i <= self.entries@.len(),
                forall|j: int| 0 <= j < i ==> (#[trigger] self.entries@[j]).key != key,
            decreases self.entries.len() - i,
        {
            if self.entries[i].key == key {
                assert(self.entries@[i as int].key == key);
                return true;
            }
            i += 1;
        }
        false
    }

    /// Record a failure if its key is new. Returns whether it was recorded.
    pub fn record(&mut self, failure: CollisionLoadFailure) -> (inserted: bool)
        ensures
            inserted == !has_key(old(self).entries@, failure.key),
            inserted ==> final(self).entries@ == old(self).entries@.push(failure),
            !inserted ==> final(self).entries@ == old(self).entries@,
            keys_unique(old(self).entries@) ==> keys_unique(final(self).entries@),
    {
        if self.contains_key(failure.key) {
            return false;
        }
        self.entries.push(failure);
        true
    }

    /// Concise toast copy for the title screen.
    pub fn toast_message(&self) -> (r: String)
        ensures
            r@ == spec_toast_message(self.entries@),
    {
        let n = self.entries.len();
        if n == 0 {
            String::new()
        } else if n == 1 {
            let mut s = String::from_str("Could not load map (");
            let name = self.entries[0].key.debug_name();
            s.append(name.as_str());
            s.append("). See log.");
            s
        } else {
            let mut s = String::from_str("Could not load ");
            let count = decimal_string(n as u64);
            s.append(count.as_str());
            s.append(" maps. See log.");
            s
        }
    }

    /// Detailed loading-screen copy: a headline, up to three key/path/reason
    /// lines, a count of the rest, and a closing hint; cut to the UI limit.
    pub fn loading_detail_message(&self) -> (r: String)
        ensures
            self.entries@.len() == 0 ==> r@ == Seq::<char>::empty(),
            self.entries@.len() > 0 ==> r@ == truncated_ui_message(full_detail_message(self.entries@)),
            r@.len() <= MAX_UI_MESSAGE_CHARS,
    {
        if self.entries.len() == 0 {
            return String::new();
        }
        let mut msg = String::from_str("Could not load a required map. Returning to title…");
        msg.append("\n");
        let ghost entries = self.entries@;
        let ghost shown = if entries.len() > MAX_FAILURE_DETAILS_IN_UI { entries.take(MAX_FAILURE_DETAILS_IN_UI as int) } else { entries };
        let ghost head = "Could not load a required map. Returning to title…"@ + "\n"@;
        let limit = if self.entries.len() > MAX_FAILURE_DETAILS_IN_UI { MAX_FAILURE_DETAILS_IN_UI } else { self.entries.len() };
        let mut i: usize = 0;
        while i < limit
            invariant
                entries == self.entries@,
                limit == shown.len(),
                limit <= entries.len(),
                shown == entries.take(limit as int),
                0 <= i <= limit,
                msg@ == head + detail_lines(shown.take(i as int)),
            decreases limit - i,
        {
            let e = &self.entries[i];
            let name = e.key.debug_name();
            msg.append("\n- ");
            msg.append(name.as_str());
            msg.append(": ");
            msg.append(e.asset_path.as_str());
            msg.append(" (");
            msg.append(e.reason.as_str());
            msg.append(")");
            proof {
                assert(shown.take(i + 1).drop_last() =~= shown.take(i as int));
                assert(shown.take(i + 1).last() == entries[i as int]);
                assert(msg@ =~= head + detail_lines(shown.take(i + 1)));
            }
            i += 1;
        }
        assert(shown.take(limit as int) =~= shown);
        if self.entries.len() > MAX_FAILURE_DETAILS_IN_UI {
            msg.append("\n…and ");
            let rest = decimal_string((self.entries.len() - MAX_FAILURE_DETAILS_IN_UI) as u64);
            msg.append(rest.as_str());
            msg.append(" more");
        }
        msg.append("\nCheck the asset and log for details.");
        proof {
            assert(msg@ =~= full_detail_message(entries));
        }
        let r = truncate_ui_message(msg);
        proof {
            if !(r@.len() <= MAX_UI_MESSAGE_CHARS) {
                assert(r@ == full_detail_message(entries));
            }
        }
        r
    }
}

// ---------------------------------------------------------
// Static masks
// ---------------------------------------------------------

/// Slot of a key in the mask table.
pub open spec fn spec_key_index(key: CollisionMapKey) -> int {
    match key {
        CollisionMapKey::Overview => 0,
        CollisionMapKey::Enclosure(EnclosureId::NutritionHousePlaypen) => 1,
        CollisionMapKey::Enclosure(EnclosureId::PushPopEnclosure) => 2,
        CollisionMapKey::Enclosure(EnclosureId::Pasture) => 3,
        CollisionMapKey::Enclosure(EnclosureId::ReptileEnclosure) => 4,
    }
}

fn key_index(key: CollisionMapKey) -> (r: usize)
    ensures
        r == spec_key_index(key),
        r < 5,
{
    match key {
        CollisionMapKey::Overview => 0,
        CollisionMapKey::Enclosure(EnclosureId::NutritionHousePlaypen) => 1,
        CollisionMapKey::Enclosure(EnclosureId::PushPopEnclosure) => 2,
        CollisionMapKey::Enclosure(EnclosureId::Pasture) => 3,
        CollisionMapKey::Enclosure(EnclosureId::ReptileEnclosure) => 4,
    }
}

/// Static blocked tiles of each collision map that has been built; one slot
/// per key.
#[derive(Debug, Clone)]
pub struct CollisionMasks {
    static_blocked: [Option<Vec<TilePosition>>; 5],
}

impl View for CollisionMasks {
    type V = Map<CollisionMapKey, Set<TilePosition>>;

    /// Each built map's key to its set of blocked tiles.
    closed spec fn view(&self) -> Map<CollisionMapKey, Set<TilePosition>> {
        Map::new(
            |k: CollisionMapKey| self.static_blocked@[spec_key_index(k)] is Some,
            |k: CollisionMapKey| self.static_blocked@[spec_key_index(k)]->0@.to_set(),
        )
    }
}

impl Default for CollisionMasks {
    fn default() -> (r: Self)
        ensures
            r@ == Map::<CollisionMapKey, Set<TilePosition>>::empty(),
    {
        let r = CollisionMasks { static_blocked: [None, None, None, None, None] };
        assert(r@ =~= Map::<CollisionMapKey, Set<TilePosition>>::empty());
        r
    }
}

/// Whether `tiles` holds `tile`.
pub fn tiles_contain(tiles: &Vec<TilePosition>, tile: TilePosition) -> (r: bool)
    ensures
        r == tiles@.contains(tile),
{
    let mut i: usize = 0;
    while i < tiles.len()
        invariant
            0 <= i <= tiles@.len(),
            forall|j: int| 0 <= j < i ==> tiles@[j] != tile,
        decreases tiles.len() - i,
    {
        if tiles[i] == tile {
            assert(tiles@[i as int] == tile);
            return true;
        }
        i += 1;
    }
    false
}

/// A tile is statically walkable on `key` when that map is built and the
/// tile is not among its blocked tiles.
pub open spec fn statically_walkable(masks: Map<CollisionMapKey, Set<TilePosition>>, key: CollisionMapKey, tile: TilePosition) -> bool {
    masks.contains_key(key) && !masks[key].contains(tile)
}

impl CollisionMasks {
    pub fn contains(&self, key: CollisionMapKey) -> (r: bool)
        ensures
            r == self@.contains_key(key),
    {
        self.static_blocked[key_index(key)].is_some()
    }

    /// Install the blocked tiles of `key`, replacing any earlier mask.
    pub fn set_static_mask(&mut self, key: CollisionMapKey, blocked: Vec<TilePosition>)
        ensures
            final(self)@ == old(self)@.insert(key, blocked@.to_set()),
    {
        let ghost before = self@;
        let i = key_index(key);
        self.static_blocked[i] = Some(blocked);
        proof {
            assert forall|k: CollisionMapKey| spec_key_index(k) == i implies k == key by {}
            assert(self@ =~= before.insert(key, blocked@.to_set()));
        }
    }

    pub fn remove(&mut self, key: CollisionMapKey)
        ensures
            final(self)@ == old(self)@.remove(key),
    {
        let ghost before = self@;
        let i = key_index(key);
        self.static_blocked[i] = None;
        proof {
            assert forall|k: CollisionMapKey| spec_key_index(k) == i implies k == key by {}
            assert(self@ =~= before.remove(key));
        }
    }

    pub fn is_statically_walkable(&self, key: CollisionMapKey, tile: TilePosition) -> (r: bool)
        ensures
            r == statically_walkable(self@, key, tile),
    {
        match &self.static_blocked[key_index(key)] {
            Some(blocked) => !tiles_contain(blocked, tile),
            None => false,
        }
    }
}

/// Installing a mask and then asking about a tile of that map answers from
/// the installed tiles; other maps keep their answers.
pub proof fn law_set_mask_then_walkable(
    masks: CollisionMasks,
    key: CollisionMapKey,
    blocked: Seq<TilePosition>,
    other: CollisionMapKey,
    tile: TilePosition,
)
    ensures
        statically_walkable(masks@.insert(key, blocked.to_set()), key, tile) == !blocked.contains(tile),
        other != key ==> statically_walkable(masks@.insert(key, blocked.to_set()), other, tile)
            == statically_walkable(masks@, other, tile),
        !statically_walkable(masks@.remove(key), key, tile),
{
}

/// Maps required before gameplay movement and wander.
pub open spec fn spec_required_collision_keys() -> Seq<CollisionMapKey> {
    seq![
        CollisionMapKey::Overview,
        CollisionMapKey::Enclosure(EnclosureId::NutritionHousePlaypen),
        CollisionMapKey::Enclosure(EnclosureId::PushPopEnclosure),
    ]
}

pub fn required_collision_keys() -> (r: [CollisionMapKey; 3])
    ensures
        r@ == spec_required_collision_keys(),
{
    let r = [
        CollisionMapKey::Overview,
        CollisionMapKey::Enclosure(EnclosureId::NutritionHousePlaypen),
        CollisionMapKey::Enclosure(EnclosureId::PushPopEnclosure),
    ];
    assert(r@ =~= spec_required_collision_keys());
    r
}

/// Every required map has a mask.
pub open spec fn spec_collision_ready(masks: Map<CollisionMapKey, Set<TilePosition>>) -> bool {
    forall|i: int| 0 <= i < spec_required_collision_keys().len()
        ==> masks.contains_key(#[trigger] spec_required_collision_keys()[i])
}

pub fn collision_ready(masks: &CollisionMasks) -> (r: bool)
    ensures
        r == spec_collision_ready(masks@),
{
    let keys = required_collision_keys();
    let mut i: usize = 0;
    while i < 3
        invariant
            0 <= i <= 3,
            keys@ == spec_required_collision_keys(),
            forall|j: int| 0 <= j < i ==> masks@.contains_key(#[trigger] spec_required_collision_keys()[j]),
        decreases 3 - i,
    {
        if !masks.contains(keys[i]) {
            return false;
        }
        i += 1;
    }
    true
}

// ---------------------------------------------------------
// Dynamic obstacles
// ---------------------------------------------------------

/// Save-backed dynamic blocked tiles of an enclosure (e.g. poop piles).
#[derive(Debug, Clone, Default)]
pub struct DynamicObstacleTiles(pub Vec<TilePosition>);

/// The tiles after inserting `tile`: unchanged when it is already present.
pub open spec fn inserted_tile(tiles: Seq<TilePosition>, tile: TilePosition) -> Seq<TilePosition> {
    if tiles.contains(tile) {
        tiles
    } else {
        tiles.push(tile)
    }
}

/// The tiles after removing every occurrence of `tile`, in order.
pub open spec fn removed_tile(tiles: Seq<TilePosition>, tile: TilePosition) -> Seq<TilePosition> {
    tiles.filter(other_than(tile))
}

/// Holds of every tile but `tile`.
pub open spec fn other_than(tile: TilePosition) -> spec_fn(TilePosition) -> bool {
    |t: TilePosition| t != tile
}

impl DynamicObstacleTiles {
    pub fn contains(&self, tile: TilePosition) -> (r: bool)
        ensures
            r == self.0@.contains(tile),
    {
        tiles_contain(&self.0, tile)
    }

    /// Add `tile` unless it is already present.
    pub fn insert(&mut self, tile: TilePosition)
        ensures
            final(self).0@ == inserted_tile(old(self).0@, tile),
    {
        if !tiles_contain(&self.0, tile) {
            self.0.push(tile);
        }
    }

    /// Remove every occurrence of `tile`, keeping the order of the rest.
    pub fn remove(&mut self, tile: TilePosition)
        ensures
            final(self).0@ == removed_tile(old(self).0@, tile),
    {
        let ghost pred = other_than(tile);
        let mut kept: Vec<TilePosition> = Vec::new();
        let mut i: usize = 0;
        while i < self.0.len()
            invariant
                0 <= i <= self.0@.len(),
                self.0@ == old(self).0@,
                pred == other_than(tile),
                kept@ == self.0@.take(i as int).filter(pred),
            decreases self.0.len() - i,
        {
            let t = self.0[i];
            proof {
                assert(self.0@.take(i + 1) =~= self.0@.take(i as int).push(t));
                self.0@.take(i as int).lemma_filter_push(t, pred);
                assert(pred(t) == (t != tile));
            }
            if t != tile {
                kept.push(t);
            }
            i += 1;
        }
        assert(self.0@.take(i as int) =~= self.0@);
        self.0 = kept;
    }

    pub fn clear(&mut self)
        ensures
            final(self).0@.len() == 0,
    {
        self.0.clear();
    }
}

/// Inserting a tile makes it blocked; removing it unblocks it and leaves the
/// other tiles; both keep a duplicate-free list duplicate-free.
pub proof fn law_dynamic_insert_remove(tiles: Seq<TilePosition>, tile: TilePosition, other: TilePosition)
    ensures
        inserted_tile(tiles, tile).contains(tile),
        !removed_tile(tiles, tile).contains(tile),
        other != tile ==> removed_tile(tiles, other).contains(tile) == tiles.contains(tile),
        other != tile ==> inserted_tile(tiles, other).contains(tile) == tiles.contains(tile),
        !tiles.contains(tile) ==> removed_tile(inserted_tile(tiles, tile), tile) == removed_tile(tiles, tile),
        tiles.no_duplicates() ==> inserted_tile(tiles, tile).no_duplicates(),
{
    let pred = other_than(tile);
    let f = tiles.filter(pred);
    if !tiles.contains(tile) {
        assert(tiles.push(tile)[tiles.len() as int] == tile);
    }
    if f.contains(tile) {
        tiles.lemma_filter_contains_rev(pred, tile);
    }
    if other != tile {
        let pred_o = other_than(other);
        let g = tiles.filter(pred_o);
        if tiles.contains(tile) {
            let i = choose|i: int| 0 <= i < tiles.len() && tiles[i] == tile;
            tiles.lemma_filter_contains(pred_o, i);
        }
        if g.contains(tile) {
            tiles.lemma_filter_contains_rev(pred_o, tile);
        }
        if !tiles.contains(other) {
            let p = tiles.push(other);
            if p.contains(tile) {
                let i = choose|i: int| 0 <= i < p.len() && p[i] == tile;
                assert(i < tiles.len());
                assert(tiles[i] == tile);
            }
            if tiles.contains(tile) {
                let i = choose|i: int| 0 <= i < tiles.len() && tiles[i] == tile;
                assert(p[i] == tile);
            }
        }
    }
    if !tiles.contains(tile) {
        tiles.lemma_filter_push(tile, pred);
    }
    if tiles.no_duplicates() && !tiles.contains(tile) {
        let p = tiles.push(tile);
        assert forall|i: int, j: int| 0 <= i < p.len() && 0 <= j < p.len() && i != j implies p[i] != p[j] by {
            if i < tiles.len() && j < tiles.len() {
            } else if i == tiles.len() {
                assert(tiles.contains(p[j]) || j == i);
            } else {
                assert(tiles.contains(p[i]) || j == i);
            }
        }
    }
}

// ---------------------------------------------------------
// Walkability
// ---------------------------------------------------------

/// Limits a dynamic obstacle to one enclosure's interior map.
#[derive(Debug, Clone, Copy, PartialEq, Eq, Structural)]
pub struct InEnclosure(pub EnclosureId);

/// A live dynamic obstacle: its entity, its tile, and its optional enclosure
/// scope.
#[derive(Debug, Clone, Copy, PartialEq, Eq, Structural)]
pub struct LiveObstacle {
    pub entity: u64,
    pub tile: TilePosition,
    pub in_enclosure: Option<InEnclosure>,
}

/// A live obstacle without a scope blocks every map; a scoped one blocks
/// only its enclosure's interior.
pub open spec fn spec_live_obstacle_blocks(key: CollisionMapKey, in_enclosure: Option<InEnclosure>) -> bool {
    match in_enclosure {
        None => true,
        Some(InEnclosure(id)) => key.spec_enclosure_id() == Some(id),
    }
}

/// A live obstacle without an enclosure scope (such as the player) blocks its
/// tile on every collision map; one scoped to an enclosure blocks only that
/// enclosure's map.
pub proof fn law_live_obstacle_scope(id: EnclosureId, other: EnclosureId)
    ensures
        spec_live_obstacle_blocks(CollisionMapKey::Overview, None),
        spec_live_obstacle_blocks(CollisionMapKey::Enclosure(id), None),
        spec_live_obstacle_blocks(CollisionMapKey::Enclosure(id), Some(InEnclosure(id))),
        !spec_live_obstacle_blocks(CollisionMapKey::Overview, Some(InEnclosure(id))),
        other != id ==> !spec_live_obstacle_blocks(CollisionMapKey::Enclosure(other), Some(InEnclosure(id))),
{
}

/// A tile under an unscoped live obstacle that is not ignored is not walkable
/// on any map.
pub proof fn law_unscoped_live_obstacle_blocks_everywhere(
    masks: Map<CollisionMapKey, Set<TilePosition>>,
    persisted: Seq<(EnclosureId, DynamicObstacleTiles)>,
    live: Seq<LiveObstacle>,
    key: CollisionMapKey,
    j: int,
    ignore: Option<u64>,
)
    requires
        0 <= j < live.len(),
        live[j].in_enclosure is None,
        ignore != Some(live[j].entity),
    ensures
        !spec_is_walkable(masks, persisted, live, key, live[j].tile, ignore),
{
    assert(live_blocks(live, key, live[j].tile, ignore));
}

pub fn live_obstacle_blocks(key: CollisionMapKey, in_enclosure: Option<InEnclosure>) -> (r: bool)
    ensures
        r == spec_live_obstacle_blocks(key, in_enclosure),
{
    match in_enclosure {
        None => true,
        Some(InEnclosure(id)) => match key.enclosure_id() {
            Some(k) => k == id,
            None => false,
        },
    }
}

/// A saved dynamic tile of the map's enclosure covers `tile`.
pub open spec fn persisted_blocks(persisted: Seq<(EnclosureId, DynamicObstacleTiles)>, key: CollisionMapKey, tile: TilePosition) -> bool {
    match key.spec_enclosure_id() {
        None => false,
        Some(enc) => exists|i: int|
            0 <= i < persisted.len() && (#[trigger] persisted[i]).0 == enc && persisted[i].1.0@.contains(tile),
    }
}

/// A live obstacle other than `ignore` stands on `tile` and blocks `key`.
pub open spec fn live_blocks(live: Seq<LiveObstacle>, key: CollisionMapKey, tile: TilePosition, ignore: Option<u64>) -> bool {
    exists|j: int|
        0 <= j < live.len() && ignore != Some((#[trigger] live[j]).entity) && live[j].tile == tile
            && spec_live_obstacle_blocks(key, live[j].in_enclosure)
}

/// Walkable: statically open on the map, not a saved dynamic tile of its
/// enclosure, and not under a live obstacle (other than the ignored entity).
pub open spec fn spec_is_walkable(
    masks: Map<CollisionMapKey, Set<TilePosition>>,
    persisted: Seq<(EnclosureId, DynamicObstacleTiles)>,
    live: Seq<LiveObstacle>,
    key: CollisionMapKey,
    tile: TilePosition,
    ignore: Option<u64>,
) -> bool {
    &&& statically_walkable(masks, key, tile)
    &&& !persisted_blocks(persisted, key, tile)
    &&& !live_blocks(live, key, tile, ignore)
}

pub fn is_walkable(
    static_masks: &CollisionMasks,
    persisted_obstacles: &Vec<(EnclosureId, DynamicObstacleTiles)>,
    live_obstacles: &Vec<LiveObstacle>,
    key: CollisionMapKey,
    tile: TilePosition,
    ignore_entity: Option<u64>,
) -> (r: bool)
    ensures
        r == spec_is_walkable(static_masks@, persisted_obstacles@, live_obstacles@, key, tile, ignore_entity),
{
    if !static_masks.is_statically_walkable(key, tile) {
        return false;
    }
    if let Some(enc_id) = key.enclosure_id() {
        let mut i: usize = 0;
        while i < persisted_obstacles.len()
            invariant
                0 <= i <= persisted_obstacles@.len(),
                key.spec_enclosure_id() == Some(enc_id),
                forall|k: int| 0 <= k < i ==> !((#[trigger] persisted_obstacles@[k]).0 == enc_id
                    && persisted_obstacles@[k].1.0@.contains(tile)),
            decreases persisted_obstacles.len() - i,
        {
            let entry = &persisted_obstacles[i];
            if entry.0 == enc_id && entry.1.contains(tile) {
                assert(persisted_obstacles@[i as int].0 == enc_id);
                return false;
            }
            i += 1;
        }
    }
    let mut j: usize = 0;
    while j < live_obstacles.len()
        invariant
            0 <= j <= live_obstacles@.len(),
            forall|k: int| 0 <= k < j ==> !(ignore_entity != Some((#[trigger] live_obstacles@[k]).entity)
                && live_obstacles@[k].tile == tile && spec_live_obstacle_blocks(key, live_obstacles@[k].in_enclosure)),
        decreases live_obstacles.len() - j,
    {
        let obstacle = live_obstacles[j];
        let ignored = match ignore_entity {
            Some(e) => e == obstacle.entity,
            None => false,
        };
        if !ignored && obstacle.tile == tile && live_obstacle_blocks(key, obstacle.in_enclosure) {
            assert(live_obstacles@[j as int] == obstacle);
            return false;
        }
        j += 1;
    }
    true
}

/// Walkable against plain lists of saved and live blocked tiles.
pub fn is_walkable_with_dynamic(
    static_masks: &CollisionMasks,
    persisted_tiles: &Vec<TilePosition>,
    live_tiles: &Vec<TilePosition>,
    key: CollisionMapKey,
    tile: TilePosition,
) -> (r: bool)
    ensures
        r == (statically_walkable(static_masks@, key, tile) && !persisted_tiles@.contains(tile)
            && !live_tiles@.contains(tile)),
{
    static_masks.is_statically_walkable(key, tile) && !tiles_contain(persisted_tiles, tile) && !tiles_contain(live_tiles, tile)
}

/// The in-bounds walkable neighbours of `from`, in neighbour order.
pub open spec fn spec_walkable_neighbors(
    from: TilePosition,
    bounds: TileBounds,
    masks: Map<CollisionMapKey, Set<TilePosition>>,
    persisted: Seq<(EnclosureId, DynamicObstacleTiles)>,
    live: Seq<LiveObstacle>,
    key: CollisionMapKey,
    ignore: Option<u64>,
) -> Seq<TilePosition> {
    spec_adjacent_tiles(from).filter(
        |t: TilePosition| spec_tile_in_bounds(t, bounds) && spec_is_walkable(masks, persisted, live, key, t, ignore),
    )
}

pub fn walkable_neighbors(
    from: TilePosition,
    bounds: TileBounds,
    key: CollisionMapKey,
    static_masks: &CollisionMasks,
    persisted_obstacles: &Vec<(EnclosureId, DynamicObstacleTiles)>,
    live_obstacles: &Vec<LiveObstacle>,
    ignore_entity: Option<u64>,
) -> (r: Vec<TilePosition>)
    requires
        static_masks@.contains_key(key) ==> from.x < u32::MAX && from.y < u32::MAX,
    ensures
        r@ == spec_walkable_neighbors(from, bounds, static_masks@, persisted_obstacles@, live_obstacles@, key, ignore_entity),
{
    let ghost pred = |t: TilePosition|
        spec_tile_in_bounds(t, bounds) && spec_is_walkable(
            static_masks@,
            persisted_obstacles@,
            live_obstacles@,
            key,
            t,
            ignore_entity,
        );
    let mut out: Vec<TilePosition> = Vec::new();
    if !static_masks.contains(key) {
        proof {
            assert(spec_adjacent_tiles(from).filter(pred) =~= Seq::<TilePosition>::empty()) by {
                let f = spec_adjacent_tiles(from).filter(pred);
                if f.len() > 0 {
                    spec_adjacent_tiles(from).lemma_filter_contains_rev(pred, f[0]);
                }
            }
        }
        return out;
    }
    let adj = adjacent_tiles(from);
    let mut k: usize = 0;
    while k < 4
        invariant
            0 <= k <= 4,
            adj@ == spec_adjacent_tiles(from),
            pred == (|t: TilePosition|
                spec_tile_in_bounds(t, bounds) && spec_is_walkable(
                    static_masks@,
                    persisted_obstacles@,
                    live_obstacles@,
                    key,
                    t,
                    ignore_entity,
                )),
            out@ == adj@.take(k as int).filter(pred),
        decreases 4 - k,
    {
        let t = adj[k];
        proof {
            assert(adj@.take(k + 1) =~= adj@.take(k as int).push(t));
            adj@.take(k as int).lemma_filter_push(t, pred);
        }
        if tile_in_bounds(t, bounds) && is_walkable(
            static_masks,
            persisted_obstacles,
            live_obstacles,
            key,
            t,
            ignore_entity,
        ) {
            out.push(t);
        }
        k += 1;
    }
    assert(adj@.take(4) =~= adj@);
    out
}

/// One random wander step: a uniformly drawn walkable neighbour, or `from`
/// when there is none.
pub fn random_wander_step(
    from: TilePosition,
    bounds: TileBounds,
    key: CollisionMapKey,
    static_masks: &CollisionMasks,
    persisted_obstacles: &Vec<(EnclosureId, DynamicObstacleTiles)>,
    live_obstacles: &Vec<LiveObstacle>,
    ignore_entity: Option<u64>,
    rng: &mut rand::rngs::StdRng,
) -> (r: TilePosition)
    requires
        static_masks@.contains_key(key) ==> from.x < u32::MAX && from.y < u32::MAX,
    ensures
        ({
            let c = spec_walkable_neighbors(from, bounds, static_masks@, persisted_obstacles@, live_obstacles@, key, ignore_entity);
            &&& c.len() == 0 ==> r == from
            &&& c.len() > 0 ==> c.contains(r)
        }),
{
    let candidates = walkable_neighbors(
        from,
        bounds,
        key,
        static_masks,
        persisted_obstacles,
        live_obstacles,
        ignore_entity,
    );
    match choose_from_slice(&candidates, rng) {
        Some(t) => t,
        None => from,
    }
}

// ---------------------------------------------------------
// Spawn-tile search
// ---------------------------------------------------------

/// Number of tiles inside `bounds` (zero when it is inverted).
pub open spec fn grid_area(bounds: TileBounds) -> int {
    if bounds.bottom_left.x <= bounds.top_right.x && bounds.bottom_left.y <= bounds.top_right.y {
        (bounds.top_right.x - bounds.bottom_left.x + 1) * (bounds.top_right.y - bounds.bottom_left.y + 1)
    } else {
        0
    }
}

proof fn lemma_grid_index_range(a: int, b: int, w: int, h: int)
    by (nonlinear_arith)
    requires
        0 <= a < w,
        0 <= b < h,
    ensures
        0 <= b * w + a < w * h,
{
}

proof fn lemma_grid_index_injective(a1: int, b1: int, a2: int, b2: int, w: int)
    by (nonlinear_arith)
    requires
        0 <= a1 < w,
        0 <= a2 < w,
        0 <= b1,
        0 <= b2,
        b1 * w + a1 == b2 * w + a2,
    ensures
        a1 == a2,
        b1 == b2,
{
}

/// Distinct tiles inside `bounds` are at most as many as the tiles of `bounds`.
pub proof fn lemma_distinct_tiles_fit(s: Seq<TilePosition>, bounds: TileBounds)
    requires
        s.no_duplicates(),
        forall|i: int| 0 <= i < s.len() ==> spec_tile_in_bounds(#[trigger] s[i], bounds),
    ensures
        s.len() <= grid_area(bounds),
{
    if s.len() == 0 {
        return;
    }
    assert(spec_tile_in_bounds(s[0], bounds));
    let bl = bounds.bottom_left;
    let tr = bounds.top_right;
    let w: int = tr.x - bl.x + 1;
    let h: int = tr.y - bl.y + 1;
    let f = |t: TilePosition| (t.y - bl.y) * w + (t.x - bl.x);
    let set = s.to_set();
    s.unique_seq_to_set();
    assert(vstd::relations::injective_on(f, set)) by {
        assert forall|a: TilePosition, b: TilePosition| set.contains(a) && set.contains(b) && #[trigger] f(a) == #[trigger] f(b) implies a == b by {
            let ia = choose|i: int| 0 <= i < s.len() && s[i] == a;
            let ib = choose|i: int| 0 <= i < s.len() && s[i] == b;
            assert(spec_tile_in_bounds(s[ia], bounds));
            assert(spec_tile_in_bounds(s[ib], bounds));
            lemma_grid_index_injective(a.x - bl.x, a.y - bl.y, b.x - bl.x, b.y - bl.y, w);
        }
    }
    vstd::set_lib::lemma_map_size(set, set.map(f), f);
    let range = vstd::set_lib::set_int_range(0, w * h);
    assert(set.map(f).subset_of(range)) by {
        assert forall|x: int| set.map(f).contains(x) implies range.contains(x) by {
            let t = choose|t: TilePosition| set.contains(t) && f(t) == x;
            let i = choose|i: int| 0 <= i < s.len() && s[i] == t;
            assert(spec_tile_in_bounds(s[i], bounds));
            lemma_grid_index_range(t.x - bl.x, t.y - bl.y, w, h);
        }
    }
    lemma_grid_index_range(0, 0, w, h);
    vstd::set_lib::lemma_int_range(0, w * h);
    vstd::set_lib::lemma_len_subset(set.map(f), range);
}

/// Every in-bounds neighbour of a tile of `s` is in `s`.
pub open spec fn closed_under_steps(s: Set<TilePosition>, bounds: TileBounds) -> bool {
    forall|t: TilePosition, k: int|
        #![trigger s.contains(t), spec_adjacent_tiles(t)[k]]
        s.contains(t) && 0 <= k < 4 && spec_tile_in_bounds(spec_adjacent_tiles(t)[k], bounds)
            ==> s.contains(spec_adjacent_tiles(t)[k])
}

/// No walkable tile can be reached from `start` by in-bounds neighbour steps:
/// some step-closed set of unwalkable tiles holds `start`.
pub open spec fn no_walkable_reachable(
    start: TilePosition,
    bounds: TileBounds,
    masks: Map<CollisionMapKey, Set<TilePosition>>,
    persisted: Seq<(EnclosureId, DynamicObstacleTiles)>,
    live: Seq<LiveObstacle>,
    key: CollisionMapKey,
    ignore: Option<u64>,
) -> bool {
    exists|s: Set<TilePosition>|
        #[trigger] s.contains(start) && closed_under_steps(s, bounds) && (forall|t: TilePosition|
            s.contains(t) ==> !spec_is_walkable(masks, persisted, live, key, t, ignore))
}

/// Each tile of `path` after the first is an in-bounds neighbour of the one
/// before it.
pub open spec fn step_path(path: Seq<TilePosition>, bounds: TileBounds) -> bool {
    &&& forall|i: int| 0 <= i < path.len() - 1 ==> spec_adjacent_tiles(#[trigger] path[i]).contains(path[i + 1])
    &&& forall|i: int| 1 <= i < path.len() ==> spec_tile_in_bounds(#[trigger] path[i], bounds)
}

/// `t` can be reached from `start` in at most `n` in-bounds neighbour steps
/// that leave only from tiles that are not `free`.
pub open spec fn within_steps(
    start: TilePosition,
    t: TilePosition,
    n: nat,
    bounds: TileBounds,
    free: spec_fn(TilePosition) -> bool,
) -> bool {
    exists|path: Seq<TilePosition>|
        #[trigger] step_path(path, bounds) && 1 <= path.len() <= n + 1 && path[0] == start && path.last() == t
            && (forall|i: int| 0 <= i < path.len() - 1 ==> !free(#[trigger] path[i]))
}

/// No tile within `n` steps of `start` is free.
pub open spec fn none_free_within(start: TilePosition, n: nat, bounds: TileBounds, free: spec_fn(TilePosition) -> bool) -> bool {
    forall|t: TilePosition| #[trigger] within_steps(start, t, n, bounds, free) ==> !free(t)
}

/// `r` is a nearest free tile to `start`: it is reached in some `n >= 1`
/// steps and no tile within `n - 1` steps is free.
pub open spec fn nearest_free(
    start: TilePosition,
    r: TilePosition,
    bounds: TileBounds,
    free: spec_fn(TilePosition) -> bool,
) -> bool {
    exists|n: nat|
        n >= 1 && #[trigger] within_steps(start, r, n, bounds, free) && none_free_within(start, (n - 1) as nat, bounds, free)
}

proof fn lemma_within_start(start: TilePosition, bounds: TileBounds, free: spec_fn(TilePosition) -> bool)
    ensures
        within_steps(start, start, 0, bounds, free),
{
    let p = seq![start];
    assert(step_path(p, bounds));
}

/// One more step from a tile that is not free reaches its in-bounds neighbours.
proof fn lemma_within_extend(
    start: TilePosition,
    u: TilePosition,
    t: TilePosition,
    n: nat,
    bounds: TileBounds,
    free: spec_fn(TilePosition) -> bool,
)
    requires
        within_steps(start, u, n, bounds, free),
        !free(u),
        spec_adjacent_tiles(u).contains(t),
        spec_tile_in_bounds(t, bounds),
    ensures
        within_steps(start, t, n + 1, bounds, free),
{
    let p = choose|p: Seq<TilePosition>|
        #[trigger] step_path(p, bounds) && 1 <= p.len() <= n + 1 && p[0] == start && p.last() == u
            && (forall|i: int| 0 <= i < p.len() - 1 ==> !free(#[trigger] p[i]));
    let q = p.push(t);
    assert forall|i: int| 0 <= i < q.len() - 1 implies spec_adjacent_tiles(#[trigger] q[i]).contains(q[i + 1]) by {
        if i < p.len() - 1 {
            assert(q[i] == p[i] && q[i + 1] == p[i + 1]);
        } else {
            assert(q[i] == u);
        }
    }
    assert forall|i: int| 1 <= i < q.len() implies spec_tile_in_bounds(#[trigger] q[i], bounds) by {
        if i < p.len() {
            assert(q[i] == p[i]);
        }
    }
    assert forall|i: int| 0 <= i < q.len() - 1 implies !free(#[trigger] q[i]) by {
        if i < p.len() - 1 {
            assert(q[i] == p[i]);
        } else {
            assert(q[i] == u);
        }
    }
    assert(step_path(q, bounds));
}

/// A tile other than `start` within `n` steps is one step beyond a tile that
/// is not free and lies within `n - 1` steps.
proof fn lemma_within_unfold(start: TilePosition, t: TilePosition, n: nat, bounds: TileBounds, free: spec_fn(TilePosition) -> bool)
    -> (u: TilePosition)
    requires
        within_steps(start, t, n, bounds, free),
        t != start,
    ensures
        n > 0,
        within_steps(start, u, (n - 1) as nat, bounds, free),
        !free(u),
        spec_adjacent_tiles(u).contains(t),
        spec_tile_in_bounds(t, bounds),
{
    let p = choose|p: Seq<TilePosition>|
        #[trigger] step_path(p, bounds) && 1 <= p.len() <= n + 1 && p[0] == start && p.last() == t
            && (forall|i: int| 0 <= i < p.len() - 1 ==> !free(#[trigger] p[i]));
    assert(p.len() >= 2);
    let q = p.drop_last();
    let u = q.last();
    assert(u == p[p.len() - 2]);
    assert(spec_adjacent_tiles(p[p.len() - 2]).contains(p[p.len() - 1]));
    assert(spec_tile_in_bounds(p[p.len() - 1], bounds));
    assert(!free(p[p.len() - 2]));
    assert forall|i: int| 0 <= i < q.len() - 1 implies spec_adjacent_tiles(#[trigger] q[i]).contains(q[i + 1]) by {
        assert(q[i] == p[i] && q[i + 1] == p[i + 1]);
    }
    assert forall|i: int| 1 <= i < q.len() implies spec_tile_in_bounds(#[trigger] q[i], bounds) by {
        assert(q[i] == p[i]);
    }
    assert forall|i: int| 0 <= i < q.len() - 1 implies !free(#[trigger] q[i]) by {
        assert(q[i] == p[i]);
    }
    assert(step_path(q, bounds));
    u
}

proof fn lemma_within_mono(start: TilePosition, t: TilePosition, n: nat, m: nat, bounds: TileBounds, free: spec_fn(TilePosition) -> bool)
    requires
        within_steps(start, t, n, bounds, free),
        n <= m,
    ensures
        within_steps(start, t, m, bounds, free),
{
    let p = choose|p: Seq<TilePosition>|
        #[trigger] step_path(p, bounds) && 1 <= p.len() <= n + 1 && p[0] == start && p.last() == t
            && (forall|i: int| 0 <= i < p.len() - 1 ==> !free(#[trigger] p[i]));
    assert(step_path(p, bounds));
}

/// Within no steps lies only `start`.
proof fn lemma_within_zero(start: TilePosition, t: TilePosition, bounds: TileBounds, free: spec_fn(TilePosition) -> bool)
    requires
        within_steps(start, t, 0, bounds, free),
    ensures
        t == start,
{
    let p = choose|p: Seq<TilePosition>|
        #[trigger] step_path(p, bounds) && 1 <= p.len() <= 0 + 1 && p[0] == start && p.last() == t
            && (forall|i: int| 0 <= i < p.len() - 1 ==> !free(#[trigger] p[i]));
}

/// Moving the search head to the next queued tile keeps the search layered:
/// every queued tile is at most one layer past the new head, and every tile
/// within the new head's layer is queued.
proof fn lemma_bfs_next_layer(
    preferred: TilePosition,
    order: Seq<TilePosition>,
    depth: Seq<nat>,
    head: int,
    bounds: TileBounds,
    walk: spec_fn(TilePosition) -> bool,
)
    requires
        0 <= head,
        head + 1 < order.len(),
        depth.len() == order.len(),
        order[0] == preferred,
        forall|i: int| 0 <= i < order.len() ==> !walk(#[trigger] order[i]),
        forall|i: int, j: int| 0 <= i <= j < depth.len() ==> #[trigger] depth[i] <= #[trigger] depth[j],
        forall|i: int| 0 <= i < depth.len() ==> #[trigger] depth[i] <= depth[head] + 1,
        forall|i: int, n: nat| 0 <= i < order.len() && #[trigger] within_steps(preferred, order[i], n, bounds, walk)
            ==> depth[i] <= n,
        forall|t: TilePosition| #[trigger] within_steps(preferred, t, depth[head], bounds, walk) ==> order.contains(t),
        forall|i: int, k: int|
            #![trigger order[i], spec_adjacent_tiles(order[i])[k]]
            0 <= i <= head && 0 <= k < 4 && spec_tile_in_bounds(spec_adjacent_tiles(order[i])[k], bounds)
                ==> order.contains(spec_adjacent_tiles(order[i])[k]),
    ensures
        forall|i: int| 0 <= i < depth.len() ==> #[trigger] depth[i] <= depth[head + 1] + 1,
        forall|t: TilePosition| #[trigger] within_steps(preferred, t, depth[head + 1], bounds, walk) ==> order.contains(t),
{
    let h = head + 1;
    let dh = depth[head];
    assert(depth[head] <= depth[h]);
    assert forall|i: int| 0 <= i < depth.len() implies #[trigger] depth[i] <= depth[h] + 1 by {
        assert(depth[i] <= dh + 1);
    }
    assert(depth[h] <= dh + 1);
    assert forall|t: TilePosition| #[trigger] within_steps(preferred, t, depth[h], bounds, walk)
        implies order.contains(t) by {
        if depth[h] == dh {
        } else if t == preferred {
            assert(order[0] == t);
        } else {
            let u = lemma_within_unfold(preferred, t, depth[h], bounds, walk);
            assert((depth[h] - 1) as nat == dh);
            assert(within_steps(preferred, u, dh, bounds, walk));
            assert(order.contains(u));
            let i = choose|i: int| 0 <= i < order.len() && order[i] == u;
            assert(within_steps(preferred, order[i], dh, bounds, walk));
            assert(depth[i] <= dh);
            if i > head {
                assert(depth[h] <= depth[i]);
            }
            let k = choose|k: int| 0 <= k < 4 && spec_adjacent_tiles(u)[k] == t;
            assert(order.contains(spec_adjacent_tiles(order[i])[k]));
        }
    }
}

/// Pick a spawn tile: `preferred` when it is walkable, otherwise the first
/// walkable in-bounds tile met by a breadth-first search from `preferred` (a
/// nearest one); `preferred` again when the search finds none.
pub fn resolve_spawn_tile(
    preferred: TilePosition,
    bounds: TileBounds,
    key: CollisionMapKey,
    static_masks: &CollisionMasks,
    persisted_obstacles: &Vec<(EnclosureId, DynamicObstacleTiles)>,
    live_obstacles: &Vec<LiveObstacle>,
    ignore_entity: Option<u64>,
) -> (r: TilePosition)
    requires
        !spec_is_walkable(static_masks@, persisted_obstacles@, live_obstacles@, key, preferred, ignore_entity) ==> {
            &&& preferred.x < u32::MAX
            &&& preferred.y < u32::MAX
            &&& bounds.top_right.x < u32::MAX
            &&& bounds.top_right.y < u32::MAX
        },
    ensures
        spec_is_walkable(static_masks@, persisted_obstacles@, live_obstacles@, key, preferred, ignore_entity)
            ==> r == preferred,
        r != preferred ==> spec_tile_in_bounds(r, bounds)
            && spec_is_walkable(static_masks@, persisted_obstacles@, live_obstacles@, key, r, ignore_entity)
            && nearest_free(preferred, r, bounds, |t: TilePosition|
                spec_is_walkable(static_masks@, persisted_obstacles@, live_obstacles@, key, t, ignore_entity)),
        r == preferred && !spec_is_walkable(static_masks@, persisted_obstacles@, live_obstacles@, key, preferred, ignore_entity)
            ==> no_walkable_reachable(preferred, bounds, static_masks@, persisted_obstacles@, live_obstacles@, key, ignore_entity),
{
    let ghost walk = |t: TilePosition|
        spec_is_walkable(static_masks@, persisted_obstacles@, live_obstacles@, key, t, ignore_entity);
    if is_walkable(static_masks, persisted_obstacles, live_obstacles, key, preferred, ignore_entity) {
        return preferred;
    }
    let mut order: Vec<TilePosition> = Vec::new();
    order.push(preferred);
    let mut head: usize = 0;
    let ghost mut depth: Seq<nat> = seq![0nat];
    proof {
        assert(order@.drop_first() =~= Seq::<TilePosition>::empty());
        lemma_within_start(preferred, bounds, walk);
        assert forall|t: TilePosition| within_steps(preferred, t, depth[0], bounds, walk) implies order@.contains(t) by {
            lemma_within_zero(preferred, t, bounds, walk);
            assert(order@[0] == t);
        }
    }
    while head < order.len()
        invariant
            walk == (|t: TilePosition|
                spec_is_walkable(static_masks@, persisted_obstacles@, live_obstacles@, key, t, ignore_entity)),
            bounds.top_right.x < u32::MAX,
            bounds.top_right.y < u32::MAX,
            preferred.x < u32::MAX,
            preferred.y < u32::MAX,
            order@.len() >= 1,
            order@[0] == preferred,
            head <= order@.len(),
            order@.no_duplicates(),
            order@.len() <= grid_area(bounds) + 1,
            forall|i: int| 1 <= i < order@.len() ==> spec_tile_in_bounds(#[trigger] order@[i], bounds),
            forall|i: int| 0 <= i < order@.len() ==> !walk(#[trigger] order@[i]),
            depth.len() == order@.len(),
            depth[0] == 0,
            forall|i: int| 0 <= i < order@.len() ==> within_steps(preferred, #[trigger] order@[i], depth[i], bounds, walk),
            forall|i: int, j: int| 0 <= i <= j < depth.len() ==> #[trigger] depth[i] <= #[trigger] depth[j],
            head < order@.len() ==> forall|i: int| 0 <= i < depth.len() ==> #[trigger] depth[i] <= depth[head as int] + 1,
            forall|i: int, n: nat| 0 <= i < order@.len() && #[trigger] within_steps(preferred, order@[i], n, bounds, walk)
                ==> depth[i] <= n,
            head < order@.len() ==> forall|t: TilePosition|
                #[trigger] within_steps(preferred, t, depth[head as int], bounds, walk) ==> order@.contains(t),
            forall|i: int, k: int|
                #![trigger order@[i], spec_adjacent_tiles(order@[i])[k]]
                0 <= i < head && 0 <= k < 4 && spec_tile_in_bounds(spec_adjacent_tiles(order@[i])[k], bounds)
                    ==> order@.contains(spec_adjacent_tiles(order@[i])[k]),
        decreases 2 * (grid_area(bounds) + 1 - order@.len()) + (order@.len() - head),
    {
        let tile = order[head];
        proof {
            if head > 0 {
                assert(spec_tile_in_bounds(order@[head as int], bounds));
            }
        }
        let adj = adjacent_tiles(tile);
        let ghost len0 = order@.len();
        let mut k: usize = 0;
        while k < 4
            invariant
                walk == (|t: TilePosition|
                    spec_is_walkable(static_masks@, persisted_obstacles@, live_obstacles@, key, t, ignore_entity)),
                0 <= k <= 4,
                adj@ == spec_adjacent_tiles(tile),
                tile == order@[head as int],
                head < len0 <= order@.len(),
                order@.len() >= 1,
                order@[0] == preferred,
                order@.no_duplicates(),
                forall|i: int| 1 <= i < order@.len() ==> spec_tile_in_bounds(#[trigger] order@[i], bounds),
                forall|i: int| 0 <= i < order@.len() ==> !walk(#[trigger] order@[i]),
                depth.len() == order@.len(),
                depth[0] == 0,
                forall|i: int| 0 <= i < order@.len() ==> within_steps(preferred, #[trigger] order@[i], depth[i], bounds, walk),
                forall|i: int, j: int| 0 <= i <= j < depth.len() ==> #[trigger] depth[i] <= #[trigger] depth[j],
                forall|i: int| 0 <= i < depth.len() ==> #[trigger] depth[i] <= depth[head as int] + 1,
                forall|i: int, n: nat| 0 <= i < order@.len() && #[trigger] within_steps(preferred, order@[i], n, bounds, walk)
                    ==> depth[i] <= n,
                forall|t: TilePosition|
                    #[trigger] within_steps(preferred, t, depth[head as int], bounds, walk) ==> order@.contains(t),
                forall|i: int, j: int|
                    #![trigger order@[i], spec_adjacent_tiles(order@[i])[j]]
                    0 <= i < head && 0 <= j < 4 && spec_tile_in_bounds(spec_adjacent_tiles(order@[i])[j], bounds)
                        ==> order@.contains(spec_adjacent_tiles(order@[i])[j]),
                forall|j: int| 0 <= j < k && spec_tile_in_bounds(#[trigger] adj@[j], bounds) ==> order@.contains(adj@[j]),
                order@.len() - len0 <= k,
            decreases 4 - k,
        {
            let next = adj[k];
            proof {
                if spec_tile_in_bounds(next, bounds) {
                    let d = depth[head as int];
                    assert(spec_adjacent_tiles(tile)[k as int] == next);
                    assert(spec_adjacent_tiles(tile).contains(next));
                    assert(within_steps(preferred, tile, d, bounds, walk));
                    assert(!walk(tile));
                    lemma_within_extend(preferred, tile, next, d, bounds, walk);
                }
            }
            if tile_in_bounds(next, bounds) && !tiles_contain(&order, next) {
                if is_walkable(static_masks, persisted_obstacles, live_obstacles, key, next, ignore_entity) {
                    proof {
                        if next == preferred {
                            assert(order@[0] == next);
                        }
                        let d = depth[head as int];
                        assert forall|t: TilePosition| #[trigger] within_steps(preferred, t, d, bounds, walk)
                            implies !walk(t) by {
                            assert(order@.contains(t));
                            let i = choose|i: int| 0 <= i < order@.len() && order@[i] == t;
                            assert(!walk(order@[i]));
                        }
                        assert(within_steps(preferred, next, d + 1, bounds, walk));
                        assert(none_free_within(preferred, ((d + 1) - 1) as nat, bounds, walk));
                        assert(nearest_free(preferred, next, bounds, walk));
                    }
                    return next;
                }
                let ghost before = order@;
                let ghost before_depth = depth;
                order.push(next);
                proof {
                    let d = depth[head as int];
                    depth = depth.push(d + 1);
                    assert forall|n: nat| #[trigger] within_steps(preferred, next, n, bounds, walk) implies d + 1 <= n by {
                        if n <= d {
                            lemma_within_mono(preferred, next, n, d, bounds, walk);
                            assert(before.contains(next));
                        }
                    }
                    assert(order@[before.len() as int] == next);
                    assert forall|x: TilePosition| before.contains(x) implies order@.contains(x) by {
                        let i = choose|i: int| 0 <= i < before.len() && before[i] == x;
                        assert(order@[i] == x);
                    }
                    assert forall|i: int, j: int| 0 <= i < order@.len() && 0 <= j < order@.len() && i != j
                        implies order@[i] != order@[j] by {
                        if i < before.len() && j < before.len() {
                            assert(before[i] != before[j]);
                        } else if i == before.len() {
                            assert(order@[j] == before[j]);
                            if before[j] == next {
                                assert(before.contains(next));
                            }
                        } else {
                            assert(order@[i] == before[i]);
                            if before[i] == next {
                                assert(before.contains(next));
                            }
                        }
                    }
                    assert(walk(next) == spec_is_walkable(static_masks@, persisted_obstacles@, live_obstacles@, key, next, ignore_entity));
                    assert forall|i: int| 0 <= i < order@.len() implies within_steps(preferred, #[trigger] order@[i], depth[i],
                        bounds, walk) by {
                        if i < before.len() {
                            assert(order@[i] == before[i]);
                            assert(depth[i] == before_depth[i]);
                        }
                    }
                    assert forall|i: int, n: nat| 0 <= i < order@.len() && #[trigger] within_steps(preferred, order@[i], n, bounds, walk)
                        implies depth[i] <= n by {
                        if i < before.len() {
                            assert(order@[i] == before[i]);
                            assert(depth[i] == before_depth[i]);
                        }
                    }
                    assert forall|t: TilePosition| #[trigger] within_steps(preferred, t, depth[head as int], bounds, walk)
                        implies order@.contains(t) by {
                        assert(before.contains(t));
                        let i = choose|i: int| 0 <= i < before.len() && before[i] == t;
                        assert(order@[i] == t);
                    }
                }
            }
            k += 1;
        }
        proof {
            assert(forall|j: int| 0 <= j < 4 ==> #[trigger] adj@[j] == spec_adjacent_tiles(order@[head as int])[j]);
            let d = order@.drop_first();
            assert forall|i: int, j: int| 0 <= i < d.len() && 0 <= j < d.len() && i != j implies d[i] != d[j] by {
                assert(order@[i + 1] != order@[j + 1]);
            }
            assert forall|i: int| 0 <= i < d.len() implies spec_tile_in_bounds(#[trigger] d[i], bounds) by {
                assert(spec_tile_in_bounds(order@[i + 1], bounds));
            }
            lemma_distinct_tiles_fit(d, bounds);
        }
        proof {
            assert forall|i: int, j: int|
                #![trigger order@[i], spec_adjacent_tiles(order@[i])[j]]
                0 <= i <= head && 0 <= j < 4 && spec_tile_in_bounds(spec_adjacent_tiles(order@[i])[j], bounds)
                    implies order@.contains(spec_adjacent_tiles(order@[i])[j]) by {
                if i == head {
                    assert(adj@[j] == spec_adjacent_tiles(order@[head as int])[j]);
                }
            }
            if head + 1 < order@.len() {
                lemma_bfs_next_layer(preferred, order@, depth, head as int, bounds, walk);
            }
        }
        head += 1;
    }
    proof {
        let set = order@.to_set();
        assert(set.contains(preferred)) by {
            assert(order@[0] == preferred);
        }
        assert(closed_under_steps(set, bounds)) by {
            assert forall|t: TilePosition, k: int|
                set.contains(t) && 0 <= k < 4 && spec_tile_in_bounds(spec_adjacent_tiles(t)[k], bounds)
                implies set.contains(spec_adjacent_tiles(t)[k]) by {
                let i = choose|i: int| 0 <= i < order@.len() && order@[i] == t;
                assert(order@.contains(spec_adjacent_tiles(order@[i])[k]));
            }
        }
        assert forall|t: TilePosition| set.contains(t) implies !walk(t) by {
            let i = choose|i: int| 0 <= i < order@.len() && order@[i] == t;
            assert(!walk(order@[i]));
        }
        assert(forall|t: TilePosition| set.contains(t) ==> !spec_is_walkable(static_masks@, persisted_obstacles@, live_obstacles@, key, t, ignore_entity));
    }
    preferred
}

// ---------------------------------------------------------
// Required-map load states
// ---------------------------------------------------------

/// Load state of a map's root asset.
#[derive(Debug, Clone, Copy, PartialEq, Eq, Structural)]
pub enum AssetLoadState {
    NotLoaded,
    Loading,
    Loaded,
    Failed,
}

/// Combined load state of a map's recursive dependencies.
#[derive(Debug, Clone, Copy, PartialEq, Eq, Structural)]
pub enum DependencyLoadState {
    NotLoaded,
    Loading,
    Loaded,
    Failed,
}

/// Combined state of a root map and all of its recursive dependencies.
#[derive(Debug, Clone, Copy, PartialEq, Eq, Structural)]
pub enum RequiredCollisionMapState {
    Pending,
    Loaded,
    Failed,
}

pub open spec fn spec_required_map_state(states: Option<(AssetLoadState, DependencyLoadState)>) -> RequiredCollisionMapState {
    match states {
        Some((AssetLoadState::Failed, _)) => RequiredCollisionMapState::Failed,
        Some((_, DependencyLoadState::Failed)) => RequiredCollisionMapState::Failed,
        Some((AssetLoadState::Loaded, DependencyLoadState::Loaded)) => RequiredCollisionMapState::Loaded,
        _ => RequiredCollisionMapState::Pending,
    }
}

/// Failed when the root or a dependency failed, loaded when both loaded,
/// pending otherwise.
pub fn required_collision_map_state(states: Option<(AssetLoadState, DependencyLoadState)>) -> (r: RequiredCollisionMapState)
    ensures
        r == spec_required_map_state(states),
{
    match states {
        Some((AssetLoadState::Failed, _)) => RequiredCollisionMapState::Failed,
        Some((_, DependencyLoadState::Failed)) => RequiredCollisionMapState::Failed,
        Some((AssetLoadState::Loaded, DependencyLoadState::Loaded)) => RequiredCollisionMapState::Loaded,
        _ => RequiredCollisionMapState::Pending,
    }
}

pub open spec fn spec_failure_reason(states: Option<(AssetLoadState, DependencyLoadState)>) -> Option<Seq<char>> {
    match states {
        Some((AssetLoadState::Failed, _)) => Some(COLLISION_LOAD_REASON_ROOT_ASSET_FAILED@),
        Some((_, DependencyLoadState::Failed)) => Some(COLLISION_LOAD_REASON_RECURSIVE_DEPENDENCY_FAILED@),
        _ => None,
    }
}

/// The stable reason category of a failed map; a root failure wins.
pub fn collision_load_failure_reason(states: Option<(AssetLoadState, DependencyLoadState)>) -> (r: Option<&'static str>)
    ensures
        r is None <==> spec_failure_reason(states) is None,
        r matches Some(m) ==> spec_failure_reason(states) == Some(m@),
{
    match states {
        Some((AssetLoadState::Failed, _)) => Some(COLLISION_LOAD_REASON_ROOT_ASSET_FAILED),
        Some((_, DependencyLoadState::Failed)) => Some(COLLISION_LOAD_REASON_RECURSIVE_DEPENDENCY_FAILED),
        _ => None,
    }
}

/// A map is failed exactly when it has a failure reason.
pub proof fn law_failed_iff_reason(states: Option<(AssetLoadState, DependencyLoadState)>)
    ensures
        (spec_required_map_state(states) == RequiredCollisionMapState::Failed) == (spec_failure_reason(states) is Some),
{
}

/// Every required map has finished loading, one way or the other.
pub fn required_collision_maps_terminal(maps: &Vec<(CollisionMapKey, Option<(AssetLoadState, DependencyLoadState)>)>) -> (r: bool)
    ensures
        r == (forall|i: int| 0 <= i < maps@.len()
            ==> spec_required_map_state((#[trigger] maps@[i]).1) != RequiredCollisionMapState::Pending),
{
    let mut i: usize = 0;
    while i < maps.len()
        invariant
            0 <= i <= maps@.len(),
            forall|j: int| 0 <= j < i ==> spec_required_map_state((#[trigger] maps@[j]).1) != RequiredCollisionMapState::Pending,
        decreases maps.len() - i,
    {
        if required_collision_map_state(maps[i].1) == RequiredCollisionMapState::Pending {
            return false;
        }
        i += 1;
    }
    true
}

/// The failure entry recorded for `key` with `states` is well formed.
pub open spec fn failure_entry_for(e: CollisionLoadFailure, states: Option<(AssetLoadState, DependencyLoadState)>) -> bool {
    &&& e.asset_path@ == spec_asset_path(e.key)
    &&& spec_failure_reason(states) == Some(e.reason@)
}

/// Record each failed required map once per key. Returns the keys recorded
/// now (their failures are new and go to the log).
pub fn record_failed_collision_map_loads(
    maps: &Vec<(CollisionMapKey, Option<(AssetLoadState, DependencyLoadState)>)>,
    failures: &mut CollisionLoadFailures,
) -> (recorded: Vec<CollisionMapKey>)
    ensures
        final(failures).entries@.len() == old(failures).entries@.len() + recorded@.len(),
        final(failures).entries@.take(old(failures).entries@.len() as int) == old(failures).entries@,
        forall|i: int| 0 <= i < recorded@.len() ==> {
            let e = #[trigger] final(failures).entries@[old(failures).entries@.len() + i];
            &&& e.key == recorded@[i]
            &&& !has_key(old(failures).entries@, e.key)
            &&& exists|j: int| 0 <= j < maps@.len() && (#[trigger] maps@[j]).0 == e.key
                && spec_required_map_state(maps@[j].1) == RequiredCollisionMapState::Failed
                && failure_entry_for(e, maps@[j].1)
        },
        forall|j: int| 0 <= j < maps@.len() && spec_required_map_state((#[trigger] maps@[j]).1)
            == RequiredCollisionMapState::Failed ==> has_key(final(failures).entries@, maps@[j].0),
        keys_unique(old(failures).entries@) ==> keys_unique(final(failures).entries@),
{
    let ghost old_entries = failures.entries@;
    let mut recorded: Vec<CollisionMapKey> = Vec::new();
    let mut i: usize = 0;
    while i < maps.len()
        invariant
            0 <= i <= maps@.len(),
            old_entries == old(failures).entries@,
            failures.entries@.len() == old_entries.len() + recorded@.len(),
            failures.entries@.take(old_entries.len() as int) == old_entries,
            forall|k: int| 0 <= k < recorded@.len() ==> {
                let e = #[trigger] failures.entries@[old_entries.len() + k];
                &&& e.key == recorded@[k]
                &&& !has_key(old_entries, e.key)
                &&& exists|j: int| 0 <= j < maps@.len() && (#[trigger] maps@[j]).0 == e.key
                    && spec_required_map_state(maps@[j].1) == RequiredCollisionMapState::Failed
                    && failure_entry_for(e, maps@[j].1)
            },
            forall|j: int| 0 <= j < i && spec_required_map_state((#[trigger] maps@[j]).1)
                == RequiredCollisionMapState::Failed ==> has_key(failures.entries@, maps@[j].0),
            keys_unique(old_entries) ==> keys_unique(failures.entries@),
        decreases maps.len() - i,
    {
        let (key, states) = maps[i];
        if !failures.contains_key(key) {
            if let Some(reason) = collision_load_failure_reason(states) {
                let failure = CollisionLoadFailure {
                    key,
                    asset_path: key.asset_path().to_string(),
                    reason: reason.to_string(),
                };
                let ghost before = failures.entries@;
                let ghost rec_before = recorded@;
                let inserted = failures.record(failure);
                if inserted {
                    recorded.push(key);
                }
                proof {
                    assert(failures.entries@ == before.push(failure));
                    assert(failures.entries@.take(old_entries.len() as int) =~= before.take(old_entries.len() as int));
                    assert(maps@[i as int].0 == key);
                    assert(failure_entry_for(failure, maps@[i as int].1));
                    assert forall|k: int| 0 <= k < recorded@.len() implies {
                        let e = #[trigger] failures.entries@[old_entries.len() + k];
                        &&& e.key == recorded@[k]
                        &&& !has_key(old_entries, e.key)
                        &&& exists|j: int| 0 <= j < maps@.len() && (#[trigger] maps@[j]).0 == e.key
                            && spec_required_map_state(maps@[j].1) == RequiredCollisionMapState::Failed
                            && failure_entry_for(e, maps@[j].1)
                    } by {
                        if k < rec_before.len() {
                            assert(failures.entries@[old_entries.len() + k] == before[old_entries.len() + k]);
                        } else {
                            assert(failures.entries@[old_entries.len() + k] == failure);
                            if has_key(old_entries, key) {
                                let w = choose|w: int| 0 <= w < old_entries.len() && (#[trigger] old_entries[w]).key == key;
                                assert(before[w] == old_entries[w]);
                                assert(has_key(before, key));
                            }
                        }
                    }
                    assert(failures.entries@[before.len() as int] == failure);
                    assert(has_key(failures.entries@, key));
                    assert forall|j: int| 0 <= j < i + 1 && spec_required_map_state((#[trigger] maps@[j]).1)
                        == RequiredCollisionMapState::Failed implies has_key(failures.entries@, maps@[j].0) by {
                        if j < i {
                            let w = choose|w: int| 0 <= w < before.len() && (#[trigger] before[w]).key == maps@[j].0;
                            assert(failures.entries@[w] == before[w]);
                        }
                    }
                }
            }
        } else {
            proof {
                assert forall|j: int| 0 <= j < i + 1 && spec_required_map_state((#[trigger] maps@[j]).1)
                    == RequiredCollisionMapState::Failed implies has_key(failures.entries@, maps@[j].0) by {
                    if j == i {
                        assert(maps@[j].0 == key);
                    }
                }
            }
        }
        i += 1;
    }
    recorded
}

// ---------------------------------------------------------
// Map assets
// ---------------------------------------------------------

/// The enclosure of the first interior entry loaded from `asset_id`.
pub open spec fn first_interior_with(interior_ids: Seq<(EnclosureId, u64)>, asset_id: u64) -> Option<EnclosureId>
    decreases interior_ids.len(),
{
    if interior_ids.len() == 0 {
        None
    } else if interior_ids[0].1 == asset_id {
        Some(interior_ids[0].0)
    } else {
        first_interior_with(interior_ids.drop_first(), asset_id)
    }
}

/// The collision map an asset belongs to: the overview map, else the first
/// interior loaded from it.
pub open spec fn spec_key_for_asset_id(asset_id: u64, overview_id: u64, interior_ids: Seq<(EnclosureId, u64)>) -> Option<
    CollisionMapKey,
> {
    if asset_id == overview_id {
        Some(CollisionMapKey::Overview)
    } else {
        match first_interior_with(interior_ids, asset_id) {
            Some(id) => Some(CollisionMapKey::Enclosure(id)),
            None => None,
        }
    }
}

/// The collision map whose asset has id `asset_id`, given the ids of the
/// overview map and of the interior maps.
pub fn key_for_asset_id(asset_id: u64, overview_id: u64, interior_ids: &Vec<(EnclosureId, u64)>) -> (r: Option<CollisionMapKey>)
    ensures
        r == spec_key_for_asset_id(asset_id, overview_id, interior_ids@),
{
    if asset_id == overview_id {
        return Some(CollisionMapKey::Overview);
    }
    let mut i: usize = 0;
    assert(interior_ids@.skip(0) =~= interior_ids@);
    while i < interior_ids.len()
        invariant
            0 <= i <= interior_ids@.len(),
            asset_id != overview_id,
            first_interior_with(interior_ids@, asset_id) == first_interior_with(interior_ids@.skip(i as int), asset_id),
        decreases interior_ids.len() - i,
    {
        assert(interior_ids@.skip(i as int).drop_first() =~= interior_ids@.skip(i + 1));
        let (id, handle) = interior_ids[i];
        if handle == asset_id {
            return Some(CollisionMapKey::Enclosure(id));
        }
        i += 1;
    }
    None
}

/// A map asset was added or changed: rebuild the mask of the map it belongs
/// to, if any.
pub fn rebuild_mask_for_asset_event(
    masks: &mut CollisionMasks,
    asset_id: u64,
    overview_id: u64,
    interior_ids: &Vec<(EnclosureId, u64)>,
    tiles: &Vec<(TilePosition, bool)>,
)
    ensures
        final(masks)@ == (match spec_key_for_asset_id(asset_id, overview_id, interior_ids@) {
            Some(key) => old(masks)@.insert(key, obstacle_set(tiles@)),
            None => old(masks)@,
        }),
{
    if let Some(key) = key_for_asset_id(asset_id, overview_id, interior_ids) {
        let built = build_obstacle_mask(tiles);
        proof {
            assert(built@.to_set() =~= obstacle_set(tiles@));
        }
        masks.set_static_mask(key, built);
    }
}

pub open spec fn obstacle_type_path() -> Seq<char> {
    "alveus_components::Obstacle"@
}

/// Whether a tileset tile's class-property type names include the obstacle
/// component.
pub fn tile_has_obstacle_class(property_types: &Vec<String>) -> (r: bool)
    ensures
        r == exists|i: int| 0 <= i < property_types@.len() && (#[trigger] property_types@[i])@ == obstacle_type_path(),
{
    let target = String::from_str("alveus_components::Obstacle");
    let mut i: usize = 0;
    while i < property_types.len()
        invariant
            0 <= i <= property_types@.len(),
            target@ == obstacle_type_path(),
            forall|j: int| 0 <= j < i ==> (#[trigger] property_types@[j])@ != obstacle_type_path(),
        decreases property_types.len() - i,
    {
        if property_types[i] == target {
            assert(property_types@[i as int]@ == obstacle_type_path());
            return true;
        }
        i += 1;
    }
    false
}

/// The blocked tiles of a map: the distinct positions of its layer tiles
/// whose tileset tile carries the obstacle class.
pub fn build_obstacle_mask(tiles: &Vec<(TilePosition, bool)>) -> (r: Vec<TilePosition>)
    ensures
        r@.no_duplicates(),
        forall|t: TilePosition| r@.contains(t) <==> exists|i: int|
            0 <= i < tiles@.len() && (#[trigger] tiles@[i]) == (t, true),
{
    let mut out: Vec<TilePosition> = Vec::new();
    let mut i: usize = 0;
    while i < tiles.len()
        invariant
            0 <= i <= tiles@.len(),
            out@.no_duplicates(),
            forall|t: TilePosition| out@.contains(t) <==> exists|j: int|
                0 <= j < i && (#[trigger] tiles@[j]) == (t, true),
        decreases tiles.len() - i,
    {
        let (pos, is_obstacle) = tiles[i];
        let ghost before = out@;
        if is_obstacle && !tiles_contain(&out, pos) {
            out.push(pos);
            proof {
                assert forall|a: int, b: int| 0 <= a < out@.len() && 0 <= b < out@.len() && a != b
                    implies out@[a] != out@[b] by {
                    if a < before.len() && b < before.len() {
                    } else if a == before.len() {
                        assert(out@[b] == before[b]);
                        if before[b] == pos {
                            assert(before.contains(pos));
                        }
                    } else {
                        assert(out@[a] == before[a]);
                        if before[a] == pos {
                            assert(before.contains(pos));
                        }
                    }
                }
            }
        }
        proof {
            assert forall|t: TilePosition| out@.contains(t) <==> exists|j: int|
                0 <= j < i + 1 && (#[trigger] tiles@[j]) == (t, true) by {
                if out@.contains(t) {
                    let k = choose|k: int| 0 <= k < out@.len() && out@[k] == t;
                    if k < before.len() {
                        assert(before.contains(t));
                    } else {
                        assert(tiles@[i as int] == (t, true));
                    }
                }
                if exists|j: int| 0 <= j < i + 1 && (#[trigger] tiles@[j]) == (t, true) {
                    let j = choose|j: int| 0 <= j < i + 1 && (#[trigger] tiles@[j]) == (t, true);
                    if j < i {
                        assert(before.contains(t));
                        let k = choose|k: int| 0 <= k < before.len() && before[k] == t;
                        assert(out@[k] == t);
                    } else if before.contains(t) {
                        let k = choose|k: int| 0 <= k < before.len() && before[k] == t;
                        assert(out@[k] == t);
                    } else {
                        assert(out@[before.len() as int] == t);
                    }
                }
            }
        }
        i += 1;
    }
    out
}

/// The obstacle tiles of a map's layer tiles.
pub open spec fn obstacle_set(tiles: Seq<(TilePosition, bool)>) -> Set<TilePosition> {
    Set::new(|t: TilePosition| exists|i: int| 0 <= i < tiles.len() && (#[trigger] tiles[i]) == (t, true))
}

/// The mask table after installing, in order, the mask of every map whose
/// tiles are available; maps still loading leave their entry as it was.
pub open spec fn masks_after(
    masks: Map<CollisionMapKey, Set<TilePosition>>,
    maps: Seq<(CollisionMapKey, Option<Vec<(TilePosition, bool)>>)>,
) -> Map<CollisionMapKey, Set<TilePosition>>
    decreases maps.len(),
{
    if maps.len() == 0 {
        masks
    } else {
        let prev = masks_after(masks, maps.drop_last());
        match maps.last().1 {
            Some(tiles) => prev.insert(maps.last().0, obstacle_set(tiles@)),
            None => prev,
        }
    }
}

/// Build and install the collision mask of every map whose tiles are
/// available (the overview and each interior), in order.
pub fn build_all_collision_masks(masks: &mut CollisionMasks, maps: &Vec<(CollisionMapKey, Option<Vec<(TilePosition, bool)>>)>)
    ensures
        final(masks)@ == masks_after(old(masks)@, maps@),
{
    let ghost start = masks@;
    let mut i: usize = 0;
    while i < maps.len()
        invariant
            0 <= i <= maps@.len(),
            start == old(masks)@,
            masks@ == masks_after(start, maps@.take(i as int)),
        decreases maps.len() - i,
    {
        proof {
            assert(maps@.take(i + 1).drop_last() =~= maps@.take(i as int));
            assert(maps@.take(i + 1).last() == maps@[i as int]);
        }
        match &maps[i].1 {
            Some(tiles) => {
                let built = build_obstacle_mask(tiles);
                proof {
                    assert(built@.to_set() =~= obstacle_set(tiles@));
                }
                masks.set_static_mask(maps[i].0, built);
            },
            None => {},
        }
        i += 1;
    }
    assert(maps@.take(maps@.len() as int) =~= maps@);
}

// ---------------------------------------------------------
// Saved dynamic obstacles
// ---------------------------------------------------------

/// A saved dynamic obstacle being followed: its enclosure and its last tile.
#[derive(Debug, Clone, Copy, PartialEq, Eq, Structural)]
pub struct TrackedDynamicObstacle {
    pub enclosure_id: EnclosureId,
    pub last_tile: TilePosition,
}

/// Index of the first record of `enclosure_id`; `records.len()` when none.
pub open spec fn first_record(records: Seq<(EnclosureId, DynamicObstacleTiles)>, enclosure_id: EnclosureId, from: int) -> int
    decreases records.len() - from,
{
    if from < 0 || from >= records.len() {
        records.len() as int
    } else if records[from].0 == enclosure_id {
        from
    } else {
        first_record(records, enclosure_id, from + 1)
    }
}

fn find_record(records: &Vec<(EnclosureId, DynamicObstacleTiles)>, enclosure_id: EnclosureId) -> (r: usize)
    ensures
        r == first_record(records@, enclosure_id, 0),
        r <= records@.len(),
{
    let mut i: usize = 0;
    while i < records.len()
        invariant
            0 <= i <= records@.len(),
            first_record(records@, enclosure_id, 0) == first_record(records@, enclosure_id, i as int),
        decreases records.len() - i,
    {
        if records[i].0 == enclosure_id {
            return i;
        }
        i += 1;
    }
    i
}

/// Only the tiles of record `idx` may change.
pub open spec fn other_records_unchanged(
    before: Seq<(EnclosureId, DynamicObstacleTiles)>,
    after: Seq<(EnclosureId, DynamicObstacleTiles)>,
    idx: int,
) -> bool {
    &&& after.len() == before.len()
    &&& forall|i: int| 0 <= i < before.len() && i != idx ==> #[trigger] after[i] == before[i]
    &&& forall|i: int| 0 <= i < before.len() ==> (#[trigger] after[i]).0 == before[i].0
}

/// A saved dynamic obstacle appeared on `tile` in `enclosure_id`: its tile
/// becomes blocked in the enclosure's record when statically walkable.
pub fn register_dynamic_obstacle(
    static_masks: &CollisionMasks,
    records: &mut Vec<(EnclosureId, DynamicObstacleTiles)>,
    enclosure_id: EnclosureId,
    tile: TilePosition,
) -> (followed: TrackedDynamicObstacle)
    ensures
        followed == (TrackedDynamicObstacle { enclosure_id, last_tile: tile }),
        ({
            let idx = first_record(old(records)@, enclosure_id, 0);
            &&& other_records_unchanged(old(records)@, final(records)@, idx)
            &&& idx < old(records)@.len() && statically_walkable(static_masks@, CollisionMapKey::Enclosure(enclosure_id), tile) ==> {
                let before = old(records)@[idx].1.0@;
                final(records)@[idx].1.0@ == (if before.contains(tile) { before } else { before.push(tile) })
            }
            &&& !(idx < old(records)@.len() && statically_walkable(static_masks@, CollisionMapKey::Enclosure(enclosure_id), tile))
                ==> final(records)@ == old(records)@
        }),
{
    let key = CollisionMapKey::Enclosure(enclosure_id);
    let idx = find_record(records, enclosure_id);
    if static_masks.is_statically_walkable(key, tile) && idx < records.len() {
        records[idx].1.insert(tile);
    }
    TrackedDynamicObstacle { enclosure_id, last_tile: tile }
}

/// A followed saved obstacle now stands on `tile`: when it moved, its old tile
/// is unblocked and the new one blocked (when statically walkable) in its
/// enclosure's record, and the new tile is remembered.
pub fn sync_dynamic_obstacle_position(
    static_masks: &CollisionMasks,
    records: &mut Vec<(EnclosureId, DynamicObstacleTiles)>,
    followed: &mut TrackedDynamicObstacle,
    enclosure_id: EnclosureId,
    tile: TilePosition,
)
    ensures
        old(followed).last_tile == tile ==> final(records)@ == old(records)@ && *final(followed) == *old(followed),
        old(followed).last_tile != tile ==> {
            let idx = first_record(old(records)@, enclosure_id, 0);
            &&& final(followed).last_tile == tile
            &&& final(followed).enclosure_id == old(followed).enclosure_id
            &&& other_records_unchanged(old(records)@, final(records)@, idx)
            &&& idx >= old(records)@.len() ==> final(records)@ == old(records)@
            &&& idx < old(records)@.len() ==> {
                let removed = removed_tile(old(records)@[idx].1.0@, old(followed).last_tile);
                final(records)@[idx].1.0@ == (if statically_walkable(static_masks@, CollisionMapKey::Enclosure(enclosure_id), tile) {
                    inserted_tile(removed, tile)
                } else {
                    removed
                })
            }
        },
{
    if followed.last_tile == tile {
        return;
    }
    let key = CollisionMapKey::Enclosure(enclosure_id);
    let idx = find_record(records, enclosure_id);
    if idx < records.len() {
        records[idx].1.remove(followed.last_tile);
        if static_masks.is_statically_walkable(key, tile) {
            records[idx].1.insert(tile);
        }
    }
    followed.last_tile = tile;
}

/// A followed saved obstacle went away: its last tile is unblocked in its
/// enclosure's record.
pub fn cleanup_dynamic_obstacle(records: &mut Vec<(EnclosureId, DynamicObstacleTiles)>, followed: TrackedDynamicObstacle)
    ensures
        ({
            let idx = first_record(old(records)@, followed.enclosure_id, 0);
            &&& other_records_unchanged(old(records)@, final(records)@, idx)
            &&& idx >= old(records)@.len() ==> final(records)@ == old(records)@
            &&& idx < old(records)@.len() ==> final(records)@[idx].1.0@
                == removed_tile(old(records)@[idx].1.0@, followed.last_tile)
        }),
{
    let idx = find_record(records, followed.enclosure_id);
    if idx < records.len() {
        records[idx].1.remove(followed.last_tile);
    }
}

} // verus!
