//! Shared identifiers and spatial value types.

use vstd::prelude::*;

verus! {

/// A resident animal of the sanctuary.
#[derive(Debug, Clone, Copy, PartialEq, Eq, Hash, Structural, Default)]
pub enum AnimalId {
    #[default]
    Polly,
    PushPop,
    Stompy,
    Georgie,
    Siren,
}

impl AnimalId {
    /// Stable snake-case key of the animal.
    pub open spec fn key(self) -> Seq<char> {
        match self {
            AnimalId::Polly => "polly"@,
            AnimalId::PushPop => "push_pop"@,
            AnimalId::Stompy => "stompy"@,
            AnimalId::Georgie => "georgie"@,
            AnimalId::Siren => "siren"@,
        }
    }

    pub fn as_str(&self) -> (s: &'static str)
        ensures
            s@ == self.key(),
    {
        match self {
            AnimalId::Polly => "polly",
            AnimalId::PushPop => "push_pop",
            AnimalId::Stompy => "stompy",
            AnimalId::Georgie => "georgie",
            AnimalId::Siren => "siren",
        }
    }
}

/// Identifies a care item-picker menu opened via an `OpenMenu` tile.
#[derive(Debug, Clone, Copy, PartialEq, Eq, Hash, Structural)]
pub enum CareMenuId {
    Fridge,
}

impl CareMenuId {
    pub open spec fn key(self) -> Seq<char> {
        match self {
            CareMenuId::Fridge => "fridge"@,
        }
    }

    pub fn as_str(self) -> (s: &'static str)
        ensures
            s@ == self.key(),
    {
        match self {
            CareMenuId::Fridge => "fridge",
        }
    }
}

/// Identifies a mini-chore interaction (prep taps, etc.).
#[derive(Debug, Clone, Copy, PartialEq, Eq, Hash, Structural)]
pub enum ChoreId {
    ChopVeggies,
}

impl ChoreId {
    pub open spec fn key(self) -> Seq<char> {
        match self {
            ChoreId::ChopVeggies => "chop_veggies"@,
        }
    }

    pub fn as_str(self) -> (s: &'static str)
        ensures
            s@ == self.key(),
    {
        match self {
            ChoreId::ChopVeggies => "chop_veggies",
        }
    }
}

/// An enclosure whose cleanliness is tracked.
#[derive(Debug, Clone, Copy, PartialEq, Eq, Hash, Structural, Default)]
pub enum EnclosureId {
    #[default]
    NutritionHousePlaypen,
    PushPopEnclosure,
    Pasture,
    ReptileEnclosure,
}

impl EnclosureId {
    pub open spec fn key(self) -> Seq<char> {
        match self {
            EnclosureId::NutritionHousePlaypen => "nutrition_house_playpen"@,
            EnclosureId::PushPopEnclosure => "push_pop_enclosure"@,
            EnclosureId::Pasture => "pasture"@,
            EnclosureId::ReptileEnclosure => "reptile_enclosure"@,
        }
    }

    pub fn as_str(&self) -> (s: &'static str)
        ensures
            s@ == self.key(),
    {
        match self {
            EnclosureId::NutritionHousePlaypen => "nutrition_house_playpen",
            EnclosureId::PushPopEnclosure => "push_pop_enclosure",
            EnclosureId::Pasture => "pasture",
            EnclosureId::ReptileEnclosure => "reptile_enclosure",
        }
    }
}

/// A carriable item.
#[derive(Debug, Clone, Copy, PartialEq, Eq, Hash, Structural)]
pub enum ItemId {
    TortoiseLeafyGreens,
    ChickenGrains,
    RawVeggieTub,
    PreparedVeggieDiet,
    MiniMirror,
}

impl ItemId {
    pub open spec fn key(self) -> Seq<char> {
        match self {
            ItemId::TortoiseLeafyGreens => "tortoise_leafy_greens"@,
            ItemId::ChickenGrains => "chicken_grains"@,
            ItemId::RawVeggieTub => "raw_veggie_tub"@,
            ItemId::PreparedVeggieDiet => "prepared_veggie_diet"@,
            ItemId::MiniMirror => "mini_mirror"@,
        }
    }

    pub fn as_str(&self) -> (s: &'static str)
        ensures
            s@ == self.key(),
    {
        match self {
            ItemId::TortoiseLeafyGreens => "tortoise_leafy_greens",
            ItemId::ChickenGrains => "chicken_grains",
            ItemId::RawVeggieTub => "raw_veggie_tub",
            ItemId::PreparedVeggieDiet => "prepared_veggie_diet",
            ItemId::MiniMirror => "mini_mirror",
        }
    }
}

/// Discrete units on the game's stat scale.
///
/// Direction-agnostic: a stored value, an improvement amount or a worsening
/// amount. Callers that mutate stored state clamp to the configured scale.
#[derive(Debug, Default, Clone, Copy, PartialEq, Eq, PartialOrd, Ord, Hash, Structural)]
pub struct Stat(pub u32);

impl Stat {
    pub fn get(self) -> (r: u32)
        ensures
            r == self.0,
    {
        self.0
    }

    pub fn is_zero(self) -> (r: bool)
        ensures
            r == (self.0 == 0),
    {
        self.0 == 0
    }

    /// `min(self + amount, cap)`, where the sum saturates at `u32::MAX`.
    pub fn saturating_add_capped(self, amount: Self, cap: Self) -> (r: Self)
        ensures
            r.0 == spec_min(spec_saturating_add(self.0 as int, amount.0 as int), cap.0 as int),
    {
        let summed = self.0.saturating_add(amount.0);
        Stat(if summed < cap.0 { summed } else { cap.0 })
    }

    /// `max(self - amount, 0)`.
    pub fn saturating_sub(self, amount: Self) -> (r: Self)
        ensures
            r.0 == (if self.0 >= amount.0 { self.0 - amount.0 } else { 0 }),
    {
        Stat(self.0.saturating_sub(amount.0))
    }
}

/// Sum clamped to the `u32` range.
pub open spec fn spec_saturating_add(a: int, b: int) -> int {
    if a + b > u32::MAX { u32::MAX as int } else { a + b }
}

pub open spec fn spec_min(a: int, b: int) -> int {
    if a < b { a } else { b }
}

impl From<Stat> for u32 {
    fn from(value: Stat) -> u32 {
        value.0
    }
}

impl vstd::std_specs::convert::FromSpecImpl<Stat> for u32 {
    open spec fn obeys_from_spec() -> bool {
        true
    }

    open spec fn from_spec(value: Stat) -> u32 {
        value.0
    }
}

/// Hunger delta authored by a feed action.
#[derive(Debug, Clone, Copy, PartialEq, Eq, Hash, Structural)]
pub struct FeedStat(pub Stat);

/// Happiness delta authored by an enrichment action.
#[derive(Debug, Clone, Copy, PartialEq, Eq, Hash, Structural)]
pub struct EnrichStat(pub Stat);

/// Enclosure cleanliness delta authored by a cleaning action.
#[derive(Debug, Clone, Copy, PartialEq, Eq, Hash, Structural)]
pub struct CleanStat(pub Stat);

impl From<FeedStat> for Stat {
    fn from(value: FeedStat) -> Stat {
        value.0
    }
}

impl vstd::std_specs::convert::FromSpecImpl<FeedStat> for Stat {
    open spec fn obeys_from_spec() -> bool {
        true
    }

    open spec fn from_spec(value: FeedStat) -> Stat {
        value.0
    }
}

impl From<EnrichStat> for Stat {
    fn from(value: EnrichStat) -> Stat {
        value.0
    }
}

impl vstd::std_specs::convert::FromSpecImpl<EnrichStat> for Stat {
    open spec fn obeys_from_spec() -> bool {
        true
    }

    open spec fn from_spec(value: EnrichStat) -> Stat {
        value.0
    }
}

impl From<CleanStat> for Stat {
    fn from(value: CleanStat) -> Stat {
        value.0
    }
}

impl vstd::std_specs::convert::FromSpecImpl<CleanStat> for Stat {
    open spec fn obeys_from_spec() -> bool {
        true
    }

    open spec fn from_spec(value: CleanStat) -> Stat {
        value.0
    }
}

/// A tile coordinate on a map grid.
#[derive(Clone, Copy, Debug, Default, PartialEq, Eq, Hash, Structural)]
pub struct TilePosition {
    pub x: u32,
    pub y: u32,
}

/// Inclusive rectangular tile range (bottom-left to top-right).
#[derive(Debug, Clone, Copy, PartialEq, Eq, Structural)]
pub struct TileBounds {
    pub bottom_left: TilePosition,
    pub top_right: TilePosition,
}

} // verus!
