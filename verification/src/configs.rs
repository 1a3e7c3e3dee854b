//! Canonical gameplay numbers and static content tables.

use vstd::prelude::*;

use crate::types::{
    AnimalId, CareMenuId, ChoreId, CleanStat, EnclosureId, ItemId, Stat, TileBounds, TilePosition,
};

verus! {

/// Internal stat scale: design fractions `0.0–1.0` map to `0..=STAT_SCALE`.
pub const STAT_SCALE: u32 = 1000;

/// Full / initial value for hunger, happiness, and enclosure cleanliness.
pub const STAT_FULL: u32 = 1000;

/// World tile size in pixels.
pub const TILE_SIZE: u32 = 32;

/// Caretaker satchel capacity (two carried items).
pub const SATCHEL_MAX_SLOTS: u8 = 2;

/// Poops the wheelbarrow can carry before it must be emptied.
pub const WHEELBARROW_CAPACITY: u8 = 10;

/// Rough idle wander rate used for offline catch-up (steps per hour).
pub const OFFLINE_WANDER_STEPS_PER_HOUR: u32 = 30;

// ---------------------------------------------------------
// Items
// ---------------------------------------------------------

#[derive(Debug, Clone, Copy)]
pub struct ItemStaticData {
    pub display_name: &'static str,
}

/// Player-facing name of an item.
pub open spec fn spec_item_display_name(item_id: ItemId) -> Seq<char> {
    match item_id {
        ItemId::TortoiseLeafyGreens => "Tortoise Leafy Greens"@,
        ItemId::ChickenGrains => "Chicken Grains"@,
        ItemId::RawVeggieTub => "Lettuce & Veggie Tub"@,
        ItemId::PreparedVeggieDiet => "Prepared Veggie Diet"@,
        ItemId::MiniMirror => "Mini Mirror"@,
    }
}

/// Exhaustive item table.
pub fn item_data(item_id: ItemId) -> (r: ItemStaticData)
    ensures
        r.display_name@ == spec_item_display_name(item_id),
{
    match item_id {
        ItemId::TortoiseLeafyGreens => ItemStaticData { display_name: "Tortoise Leafy Greens" },
        ItemId::ChickenGrains => ItemStaticData { display_name: "Chicken Grains" },
        ItemId::RawVeggieTub => ItemStaticData { display_name: "Lettuce & Veggie Tub" },
        ItemId::PreparedVeggieDiet => ItemStaticData { display_name: "Prepared Veggie Diet" },
        ItemId::MiniMirror => ItemStaticData { display_name: "Mini Mirror" },
    }
}

pub fn item_display_name(item_id: ItemId) -> (r: &'static str)
    ensures
        r@ == spec_item_display_name(item_id),
{
    item_data(item_id).display_name
}

/// Prep recipe: input item + chore → output item.
#[derive(Debug, Clone, Copy, PartialEq, Eq, Structural)]
pub struct PrepRecipe {
    pub chore_id: ChoreId,
    pub input: ItemId,
    pub output: ItemId,
}

/// The prep recipe table, in lookup order.
pub open spec fn spec_prep_recipes() -> Seq<PrepRecipe> {
    seq![PrepRecipe { chore_id: ChoreId::ChopVeggies, input: ItemId::RawVeggieTub, output: ItemId::PreparedVeggieDiet }]
}

pub fn prep_recipes() -> (r: Vec<PrepRecipe>)
    ensures
        r@ == spec_prep_recipes(),
{
    let mut v = Vec::new();
    v.push(PrepRecipe { chore_id: ChoreId::ChopVeggies, input: ItemId::RawVeggieTub, output: ItemId::PreparedVeggieDiet });
    assert(v@ =~= spec_prep_recipes());
    v
}

/// First recipe of `recipes` for `chore_id` that consumes `input`.
pub open spec fn first_recipe(recipes: Seq<PrepRecipe>, chore_id: ChoreId, input: ItemId) -> Option<PrepRecipe>
    decreases recipes.len(),
{
    if recipes.len() == 0 {
        None
    } else if recipes[0].chore_id == chore_id && recipes[0].input == input {
        Some(recipes[0])
    } else {
        first_recipe(recipes.drop_first(), chore_id, input)
    }
}

pub fn prep_recipe_for(chore_id: ChoreId, input: ItemId) -> (r: Option<PrepRecipe>)
    ensures
        r == first_recipe(spec_prep_recipes(), chore_id, input),
{
    let recipes = prep_recipes();
    assert(recipes@.skip(0) =~= recipes@);
    let mut i: usize = 0;
    while i < recipes.len()
        invariant
            recipes@ == spec_prep_recipes(),
            0 <= i <= recipes@.len(),
            first_recipe(spec_prep_recipes(), chore_id, input)
                == first_recipe(recipes@.skip(i as int), chore_id, input),
        decreases recipes.len() - i,
    {
        assert(recipes@.skip(i as int).drop_first() =~= recipes@.skip(i + 1));
        let recipe = recipes[i];
        if recipe.chore_id == chore_id && recipe.input == input {
            return Some(recipe);
        }
        i += 1;
    }
    None
}

/// Items offered by a care item-picker menu.
pub open spec fn spec_care_menu_options(menu_id: CareMenuId) -> Seq<ItemId> {
    match menu_id {
        CareMenuId::Fridge => seq![ItemId::RawVeggieTub, ItemId::TortoiseLeafyGreens],
    }
}

pub fn care_menu_options(menu_id: CareMenuId) -> (r: Vec<ItemId>)
    ensures
        r@ == spec_care_menu_options(menu_id),
{
    match menu_id {
        CareMenuId::Fridge => {
            let mut v = Vec::new();
            v.push(ItemId::RawVeggieTub);
            v.push(ItemId::TortoiseLeafyGreens);
            assert(v@ =~= spec_care_menu_options(menu_id));
            v
        },
    }
}

// ---------------------------------------------------------
// Animals
// ---------------------------------------------------------

#[derive(Debug, Clone, Copy)]
pub struct AnimalStaticData {
    pub animal_id: AnimalId,
    pub display_name: &'static str,
    /// Common species label for HUD / education hooks.
    pub species: &'static str,
    /// Short home / enclosure label for HUD cards.
    pub home_label: &'static str,
    /// Hunger lost per simulated hour, in stat units (`0.04` of [`STAT_SCALE`]).
    pub hunger_decay_per_hour: u32,
    /// Happiness lost per simulated hour, in stat units (`0.05` of [`STAT_SCALE`]).
    pub happiness_decay_per_hour: u32,
}

pub open spec fn spec_animal_display_name(animal_id: AnimalId) -> Seq<char> {
    match animal_id {
        AnimalId::Polly => "Polly"@,
        AnimalId::PushPop => "Push Pop"@,
        AnimalId::Stompy => "Stompy"@,
        AnimalId::Georgie => "Georgie"@,
        AnimalId::Siren => "Siren"@,
    }
}

pub open spec fn spec_animal_species(animal_id: AnimalId) -> Seq<char> {
    match animal_id {
        AnimalId::Polly => "Silkie Chicken"@,
        AnimalId::PushPop => "Sulcata Tortoise"@,
        AnimalId::Stompy => "Emu"@,
        AnimalId::Georgie => "African Bullfrog"@,
        AnimalId::Siren => "Blue-fronted Amazon"@,
    }
}

pub open spec fn spec_animal_home_label(animal_id: AnimalId) -> Seq<char> {
    match animal_id {
        AnimalId::Polly => "Playpen"@,
        AnimalId::PushPop => "Push Pop Enclosure"@,
        AnimalId::Stompy => "Pasture Grassland"@,
        AnimalId::Georgie => "Studio"@,
        AnimalId::Siren => "Studio"@,
    }
}

/// The record describes `animal_id` exactly as the animal table does.
pub open spec fn animal_data_matches(r: AnimalStaticData, animal_id: AnimalId) -> bool {
    &&& r.animal_id == animal_id
    &&& r.display_name@ == spec_animal_display_name(animal_id)
    &&& r.species@ == spec_animal_species(animal_id)
    &&& r.home_label@ == spec_animal_home_label(animal_id)
    &&& r.hunger_decay_per_hour == 40
    &&& r.happiness_decay_per_hour == 50
}

/// Exhaustive lookup of the animal table.
pub fn animal_data(animal_id: AnimalId) -> (r: AnimalStaticData)
    ensures
        animal_data_matches(r, animal_id),
{
    match animal_id {
        AnimalId::Polly => AnimalStaticData {
            animal_id: AnimalId::Polly,
            display_name: "Polly",
            species: "Silkie Chicken",
            home_label: "Playpen",
            hunger_decay_per_hour: 40,
            happiness_decay_per_hour: 50,
        },
        AnimalId::PushPop => AnimalStaticData {
            animal_id: AnimalId::PushPop,
            display_name: "Push Pop",
            species: "Sulcata Tortoise",
            home_label: "Push Pop Enclosure",
            hunger_decay_per_hour: 40,
            happiness_decay_per_hour: 50,
        },
        AnimalId::Stompy => AnimalStaticData {
            animal_id: AnimalId::Stompy,
            display_name: "Stompy",
            species: "Emu",
            home_label: "Pasture Grassland",
            hunger_decay_per_hour: 40,
            happiness_decay_per_hour: 50,
        },
        AnimalId::Georgie => AnimalStaticData {
            animal_id: AnimalId::Georgie,
            display_name: "Georgie",
            species: "African Bullfrog",
            home_label: "Studio",
            hunger_decay_per_hour: 40,
            happiness_decay_per_hour: 50,
        },
        AnimalId::Siren => AnimalStaticData {
            animal_id: AnimalId::Siren,
            display_name: "Siren",
            species: "Blue-fronted Amazon",
            home_label: "Studio",
            hunger_decay_per_hour: 40,
            happiness_decay_per_hour: 50,
        },
    }
}

/// Every animal, in table order.
pub open spec fn spec_all_animals() -> Seq<AnimalId> {
    seq![AnimalId::Polly, AnimalId::PushPop, AnimalId::Stompy, AnimalId::Georgie, AnimalId::Siren]
}

pub fn all_animals() -> (r: Vec<AnimalId>)
    ensures
        r@ == spec_all_animals(),
{
    let mut v = Vec::new();
    v.push(AnimalId::Polly);
    v.push(AnimalId::PushPop);
    v.push(AnimalId::Stompy);
    v.push(AnimalId::Georgie);
    v.push(AnimalId::Siren);
    assert(v@ =~= spec_all_animals());
    v
}

/// The animal table (`ANIMALS_DATA`), one record per animal in table order.
pub fn animals_data() -> (r: Vec<AnimalStaticData>)
    ensures
        r@.len() == spec_all_animals().len(),
        forall|i: int| 0 <= i < r@.len() ==> animal_data_matches(#[trigger] r@[i], spec_all_animals()[i]),
{
    let ids = all_animals();
    let mut v: Vec<AnimalStaticData> = Vec::new();
    let mut i: usize = 0;
    while i < ids.len()
        invariant
            ids@ == spec_all_animals(),
            0 <= i <= ids@.len(),
            v@.len() == i,
            forall|j: int| 0 <= j < i ==> animal_data_matches(#[trigger] v@[j], spec_all_animals()[j]),
        decreases ids.len() - i,
    {
        v.push(animal_data(ids[i]));
        i += 1;
    }
    v
}

pub open spec fn spec_enclosure_for_animal(animal_id: AnimalId) -> EnclosureId {
    match animal_id {
        AnimalId::Polly => EnclosureId::NutritionHousePlaypen,
        AnimalId::PushPop => EnclosureId::PushPopEnclosure,
        AnimalId::Stompy => EnclosureId::Pasture,
        AnimalId::Georgie | AnimalId::Siren => EnclosureId::ReptileEnclosure,
    }
}

pub fn enclosure_for_animal(animal_id: AnimalId) -> (r: EnclosureId)
    ensures
        r == spec_enclosure_for_animal(animal_id),
{
    match animal_id {
        AnimalId::Polly => EnclosureId::NutritionHousePlaypen,
        AnimalId::PushPop => EnclosureId::PushPopEnclosure,
        AnimalId::Stompy => EnclosureId::Pasture,
        AnimalId::Georgie | AnimalId::Siren => EnclosureId::ReptileEnclosure,
    }
}

// ---------------------------------------------------------
// Enclosures
// ---------------------------------------------------------

#[derive(Debug, Clone, Copy)]
pub struct EnclosureStaticData {
    pub enclosure_id: EnclosureId,
    pub display_name: &'static str,
    /// Cleanliness units lost per hour on the [`STAT_SCALE`] integer scale.
    pub cleanliness_decay_per_hour: u32,
}

pub open spec fn spec_enclosure_display_name(enclosure_id: EnclosureId) -> Seq<char> {
    match enclosure_id {
        EnclosureId::NutritionHousePlaypen => "Nutrition House Playpen"@,
        EnclosureId::PushPopEnclosure => "Push Pop Enclosure"@,
        EnclosureId::Pasture => "Pasture Grassland"@,
        EnclosureId::ReptileEnclosure => "Reptile Enclosure"@,
    }
}

pub open spec fn enclosure_data_matches(r: EnclosureStaticData, enclosure_id: EnclosureId) -> bool {
    &&& r.enclosure_id == enclosure_id
    &&& r.display_name@ == spec_enclosure_display_name(enclosure_id)
    &&& r.cleanliness_decay_per_hour == 30
}

pub fn enclosure_data(enclosure_id: EnclosureId) -> (r: EnclosureStaticData)
    ensures
        enclosure_data_matches(r, enclosure_id),
{
    match enclosure_id {
        EnclosureId::NutritionHousePlaypen => EnclosureStaticData {
            enclosure_id: EnclosureId::NutritionHousePlaypen,
            display_name: "Nutrition House Playpen",
            cleanliness_decay_per_hour: 30,
        },
        EnclosureId::PushPopEnclosure => EnclosureStaticData {
            enclosure_id: EnclosureId::PushPopEnclosure,
            display_name: "Push Pop Enclosure",
            cleanliness_decay_per_hour: 30,
        },
        EnclosureId::Pasture => EnclosureStaticData {
            enclosure_id: EnclosureId::Pasture,
            display_name: "Pasture Grassland",
            cleanliness_decay_per_hour: 30,
        },
        EnclosureId::ReptileEnclosure => EnclosureStaticData {
            enclosure_id: EnclosureId::ReptileEnclosure,
            display_name: "Reptile Enclosure",
            cleanliness_decay_per_hour: 30,
        },
    }
}

/// Every enclosure, in table order.
pub open spec fn spec_all_enclosures() -> Seq<EnclosureId> {
    seq![
        EnclosureId::NutritionHousePlaypen,
        EnclosureId::PushPopEnclosure,
        EnclosureId::Pasture,
        EnclosureId::ReptileEnclosure,
    ]
}

pub fn all_enclosures() -> (r: Vec<EnclosureId>)
    ensures
        r@ == spec_all_enclosures(),
{
    let mut v = Vec::new();
    v.push(EnclosureId::NutritionHousePlaypen);
    v.push(EnclosureId::PushPopEnclosure);
    v.push(EnclosureId::Pasture);
    v.push(EnclosureId::ReptileEnclosure);
    assert(v@ =~= spec_all_enclosures());
    v
}

// ---------------------------------------------------------
// Animal placement (defaults for new saves)
// ---------------------------------------------------------

#[derive(Debug, Clone, Copy, PartialEq, Eq, Structural)]
pub struct AnimalPlacementDef {
    pub animal_id: AnimalId,
    /// Default tile for new saves only — not the runtime spawn point.
    pub home_position: TilePosition,
    pub wander_bounds: TileBounds,
}

pub open spec fn spec_polly_placement() -> AnimalPlacementDef {
    AnimalPlacementDef {
        animal_id: AnimalId::Polly,
        home_position: TilePosition { x: 8, y: 4 },
        wander_bounds: TileBounds {
            bottom_left: TilePosition { x: 7, y: 1 },
            top_right: TilePosition { x: 9, y: 5 },
        },
    }
}

pub open spec fn spec_push_pop_placement() -> AnimalPlacementDef {
    AnimalPlacementDef {
        animal_id: AnimalId::PushPop,
        home_position: TilePosition { x: 8, y: 4 },
        wander_bounds: TileBounds {
            bottom_left: TilePosition { x: 5, y: 3 },
            top_right: TilePosition { x: 10, y: 8 },
        },
    }
}

pub fn polly_placement() -> (r: AnimalPlacementDef)
    ensures
        r == spec_polly_placement(),
{
    AnimalPlacementDef {
        animal_id: AnimalId::Polly,
        home_position: TilePosition { x: 8, y: 4 },
        wander_bounds: TileBounds {
            bottom_left: TilePosition { x: 7, y: 1 },
            top_right: TilePosition { x: 9, y: 5 },
        },
    }
}

pub fn push_pop_placement() -> (r: AnimalPlacementDef)
    ensures
        r == spec_push_pop_placement(),
{
    AnimalPlacementDef {
        animal_id: AnimalId::PushPop,
        home_position: TilePosition { x: 8, y: 4 },
        wander_bounds: TileBounds {
            bottom_left: TilePosition { x: 5, y: 3 },
            top_right: TilePosition { x: 10, y: 8 },
        },
    }
}

pub open spec fn spec_animal_default_placement(animal_id: AnimalId) -> Option<AnimalPlacementDef> {
    match animal_id {
        AnimalId::Polly => Some(spec_polly_placement()),
        AnimalId::PushPop => Some(spec_push_pop_placement()),
        _ => None,
    }
}

pub fn animal_default_placement(animal_id: AnimalId) -> (r: Option<AnimalPlacementDef>)
    ensures
        r == spec_animal_default_placement(animal_id),
{
    match animal_id {
        AnimalId::Polly => Some(polly_placement()),
        AnimalId::PushPop => Some(push_pop_placement()),
        _ => None,
    }
}

// ---------------------------------------------------------
// Room tile configs (implemented interiors)
// ---------------------------------------------------------

#[derive(Debug, Clone, Copy, PartialEq, Eq, Structural)]
pub struct RoomTileConfig {
    pub room_spawn: TilePosition,
    pub exit_spawn: TilePosition,
    pub exit_door: TilePosition,
}

pub open spec fn spec_nutrition_house_room() -> RoomTileConfig {
    RoomTileConfig {
        room_spawn: TilePosition { x: 5, y: 2 },
        exit_spawn: TilePosition { x: 33, y: 12 },
        exit_door: TilePosition { x: 5, y: 0 },
    }
}

pub open spec fn spec_push_pop_enclosure_room() -> RoomTileConfig {
    RoomTileConfig {
        room_spawn: TilePosition { x: 6, y: 2 },
        exit_spawn: TilePosition { x: 40, y: 33 },
        exit_door: TilePosition { x: 6, y: 0 },
    }
}

pub fn nutrition_house_room() -> (r: RoomTileConfig)
    ensures
        r == spec_nutrition_house_room(),
{
    RoomTileConfig {
        room_spawn: TilePosition { x: 5, y: 2 },
        exit_spawn: TilePosition { x: 33, y: 12 },
        exit_door: TilePosition { x: 5, y: 0 },
    }
}

pub fn push_pop_enclosure_room() -> (r: RoomTileConfig)
    ensures
        r == spec_push_pop_enclosure_room(),
{
    RoomTileConfig {
        room_spawn: TilePosition { x: 6, y: 2 },
        exit_spawn: TilePosition { x: 40, y: 33 },
        exit_door: TilePosition { x: 6, y: 0 },
    }
}

/// Default overview spawn when entering gameplay.
pub fn overview_player_spawn() -> (r: TilePosition)
    ensures
        r == (TilePosition { x: 0, y: 0 }),
{
    TilePosition { x: 0, y: 0 }
}

// ---------------------------------------------------------
// Cleaning / poop
// ---------------------------------------------------------

#[derive(Debug, Clone, PartialEq, Eq)]
pub struct PoopConfig {
    /// Cleanliness at or below each threshold ([`STAT_SCALE`] units) adds one poop.
    pub spawn_thresholds: Vec<Stat>,
    /// Extra cleanliness units lost per hour per poop on the floor.
    pub poop_decay_per_hour: u32,
    /// Cleanliness restored when a poop is picked up (not when the wheelbarrow is emptied).
    pub cleanliness_restore_per_poop: CleanStat,
    pub spawn_bounds: TileBounds,
}

/// The thresholds of the shipped poop configuration.
pub open spec fn spec_poop_thresholds() -> Seq<Stat> {
    seq![Stat(800), Stat(500), Stat(200)]
}

/// The configuration holds the shipped Push Pop poop numbers.
pub open spec fn is_shipped_poop_config(c: PoopConfig) -> bool {
    &&& c.spawn_thresholds@ == spec_poop_thresholds()
    &&& c.poop_decay_per_hour == 20
    &&& c.cleanliness_restore_per_poop == CleanStat(Stat(350))
    &&& c.spawn_bounds == spec_push_pop_placement().wander_bounds
}

/// Exhaustive over [`EnclosureId`]. Placeholder arms copy Push Pop until tuned.
pub fn poop_config_for(id: EnclosureId) -> (r: PoopConfig)
    ensures
        is_shipped_poop_config(r),
{
    let mut thresholds = Vec::new();
    thresholds.push(Stat(800));
    thresholds.push(Stat(500));
    thresholds.push(Stat(200));
    assert(thresholds@ =~= spec_poop_thresholds());
    PoopConfig {
        spawn_thresholds: thresholds,
        poop_decay_per_hour: 20,
        cleanliness_restore_per_poop: CleanStat(Stat(350)),
        spawn_bounds: push_pop_placement().wander_bounds,
    }
}

/// Number of thresholds that `cleanliness` is at or below.
pub open spec fn thresholds_reached(cleanliness: Stat, thresholds: Seq<Stat>) -> nat
    decreases thresholds.len(),
{
    if thresholds.len() == 0 {
        0
    } else {
        thresholds_reached(cleanliness, thresholds.drop_last()) + (if cleanliness.0
            <= thresholds.last().0 {
            1nat
        } else {
            0nat
        })
    }
}

pub proof fn lemma_thresholds_reached_bounded(cleanliness: Stat, thresholds: Seq<Stat>)
    ensures
        thresholds_reached(cleanliness, thresholds) <= thresholds.len(),
    decreases thresholds.len(),
{
    if thresholds.len() > 0 {
        lemma_thresholds_reached_bounded(cleanliness, thresholds.drop_last());
    }
}

/// How many poops should be on the floor given current enclosure cleanliness.
pub fn target_poop_count(cleanliness: Stat, thresholds: &[Stat]) -> (r: u32)
    ensures
        r == thresholds_reached(cleanliness, thresholds@) as u32,
{
    let mut count: usize = 0;
    let mut i: usize = 0;
    while i < thresholds.len()
        invariant
            0 <= i <= thresholds@.len(),
            count == thresholds_reached(cleanliness, thresholds@.take(i as int)),
        decreases thresholds.len() - i,
    {
        proof {
            assert(thresholds@.take(i + 1).drop_last() =~= thresholds@.take(i as int));
            lemma_thresholds_reached_bounded(cleanliness, thresholds@.take(i as int));
        }
        if cleanliness.0 <= thresholds[i].0 {
            count += 1;
        }
        i += 1;
    }
    assert(thresholds@.take(i as int) =~= thresholds@);
    #[verifier::truncate]
    (count as u32)
}

/// The stat values are in non-increasing order.
pub open spec fn descending(s: Seq<Stat>) -> bool {
    forall|i: int, j: int| 0 <= i < j < s.len() ==> s[i].0 >= s[j].0
}

/// The thresholds in non-increasing order, as the threshold-crossing decay walk
/// visits them.
pub fn thresholds_descending(thresholds: &[Stat]) -> (r: Vec<Stat>)
    ensures
        descending(r@),
        r@.to_multiset() == thresholds@.to_multiset(),
{
    broadcast use vstd::seq_lib::group_to_multiset_ensures;

    let mut out: Vec<Stat> = Vec::new();
    let mut i: usize = 0;
    while i < thresholds.len()
        invariant
            0 <= i <= thresholds@.len(),
            descending(out@),
            out@.to_multiset() == thresholds@.take(i as int).to_multiset(),
        decreases thresholds.len() - i,
    {
        let x = thresholds[i];
        let mut k: usize = 0;
        while k < out.len() && out[k].0 >= x.0
            invariant
                0 <= k <= out@.len(),
                forall|j: int| 0 <= j < k ==> out@[j].0 >= x.0,
            decreases out.len() - k,
        {
            k += 1;
        }
        let ghost before = out@;
        out.insert(k, x);
        proof {
            before.insert_ensures(k as int, x);
            assert(out@.remove(k as int) =~= before);
            vstd::seq_lib::to_multiset_remove(out@, k as int);
            out@.to_multiset_ensures();
            assert(out@.contains(x)) by {
                assert(out@[k as int] == x);
            }
            assert(out@.to_multiset().count(x) > 0);
            assert(out@.to_multiset() =~= before.to_multiset().insert(x));
            assert(thresholds@.take(i + 1) =~= thresholds@.take(i as int).push(x));
            thresholds@.take(i as int).to_multiset_ensures();
            assert forall|a: int, b: int| 0 <= a < b < out@.len() implies out@[a].0 >= out@[b].0 by {
                if b < k {
                } else if b == k {
                } else if a < k {
                    assert(out@[b] == before[b - 1]);
                    if (k as int) < before.len() {
                        assert(before[k as int].0 < x.0);
                    }
                } else if a == k {
                    assert(out@[b] == before[b - 1]);
                    assert(before[k as int].0 < x.0);
                } else {
                    assert(out@[a] == before[a - 1]);
                    assert(out@[b] == before[b - 1]);
                }
            }
        }
        i += 1;
    }
    assert(thresholds@.take(i as int) =~= thresholds@);
    out
}

} // verus!
