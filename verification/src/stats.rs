//! Animal and enclosure stats: the stat-change rules applied by improve and
//! worsen events, and the default / missing stat records of a save.

use vstd::prelude::*;

use crate::configs::{
    STAT_FULL, STAT_SCALE, all_animals, all_enclosures, animal_default_placement,
    enclosure_for_animal, spec_all_animals, spec_all_enclosures, spec_animal_default_placement,
    spec_enclosure_for_animal,
};
use crate::types::{AnimalId, EnclosureId, TileBounds, TilePosition};

verus! {

#[derive(Debug, Clone, Copy, PartialEq, Eq, Hash, Structural)]
pub enum AnimalStat {
    Hunger,
    Happiness,
    Cleanliness,
}

#[derive(Debug, Clone, Copy, PartialEq, Eq, Hash, Structural)]
pub enum EnclosureStat {
    Cleanliness,
}

#[derive(Debug, Clone, Copy, PartialEq, Eq, Hash, Structural)]
pub enum StatTarget {
    Animal { id: AnimalId, stat: AnimalStat },
    Enclosure { id: EnclosureId, stat: EnclosureStat },
}

#[derive(Debug, Clone, Copy, PartialEq, Eq, Structural)]
pub struct ImproveStatEvent {
    pub target: StatTarget,
    pub amount: u32,
}

#[derive(Debug, Clone, Copy, PartialEq, Eq, Structural)]
pub struct WorsenStatEvent {
    pub target: StatTarget,
    pub amount: u32,
}

/// Hunger and happiness of one animal, each in `[0, STAT_SCALE]`.
#[derive(Debug, Clone, Copy, PartialEq, Eq, Structural)]
pub struct AnimalStats {
    pub hunger: u32,
    pub happiness: u32,
}

/// Cleanliness of one enclosure, in `[0, STAT_SCALE]`.
#[derive(Debug, Clone, Copy, PartialEq, Eq, Structural)]
pub struct EnclosureStats {
    pub cleanliness: u32,
}

/// The enclosure an animal lives in.
#[derive(Debug, Clone, Copy, PartialEq, Eq, Hash, Structural)]
pub struct AnimalEnclosure(pub EnclosureId);

/// Saved tile of an animal.
#[derive(Debug, Clone, Copy, PartialEq, Eq, Structural)]
pub struct AnimalTilePosition(pub TilePosition);

/// One animal's stat record.
#[derive(Debug, Clone, Copy, PartialEq, Eq, Structural)]
pub struct AnimalEntry {
    pub id: AnimalId,
    pub stats: AnimalStats,
    pub enclosure: AnimalEnclosure,
}

/// One enclosure's stat record.
#[derive(Debug, Clone, Copy, PartialEq, Eq, Structural)]
pub struct EnclosureEntry {
    pub id: EnclosureId,
    pub stats: EnclosureStats,
}

/// Every animal and enclosure stat record of the running game.
#[derive(Debug, Clone)]
pub struct StatsWorld {
    pub animals: Vec<AnimalEntry>,
    pub enclosures: Vec<EnclosureEntry>,
}

/// What an improve or worsen event found to act on.
#[derive(Debug, Clone, Copy, PartialEq, Eq, Structural)]
pub enum StatChangeOutcome {
    Applied,
    /// No animal record carries the targeted animal id.
    AnimalNotFound(AnimalId),
    /// The animal was found but no enclosure record carries its enclosure id.
    EnclosureNotFound(EnclosureId),
}

/// `value + amount`, saturating at `u32::MAX`, then capped at the stat scale.
pub open spec fn improved(value: u32, amount: u32) -> u32 {
    let sum = if value + amount > u32::MAX { u32::MAX as int } else { value + amount };
    (if sum < STAT_SCALE { sum } else { STAT_SCALE as int }) as u32
}

/// `value - amount`, floored at zero.
pub open spec fn worsened(value: u32, amount: u32) -> u32 {
    if value >= amount { (value - amount) as u32 } else { 0 }
}

pub open spec fn change(value: u32, amount: u32, improve: bool) -> u32 {
    if improve { improved(value, amount) } else { worsened(value, amount) }
}

fn improve_value(value: u32, amount: u32) -> (r: u32)
    ensures
        r == improved(value, amount),
{
    let sum = value.saturating_add(amount);
    if sum < STAT_SCALE { sum } else { STAT_SCALE }
}

fn worsen_value(value: u32, amount: u32) -> (r: u32)
    ensures
        r == worsened(value, amount),
{
    value.saturating_sub(amount)
}

fn change_value(value: u32, amount: u32, improve: bool) -> (r: u32)
    ensures
        r == change(value, amount, improve),
{
    if improve { improve_value(value, amount) } else { worsen_value(value, amount) }
}

/// The animal record with hunger or happiness changed.
pub open spec fn animal_changed(e: AnimalEntry, stat: AnimalStat, amount: u32, improve: bool) -> AnimalEntry {
    match stat {
        AnimalStat::Hunger => AnimalEntry {
            stats: AnimalStats { hunger: change(e.stats.hunger, amount, improve), ..e.stats },
            ..e
        },
        AnimalStat::Happiness => AnimalEntry {
            stats: AnimalStats { happiness: change(e.stats.happiness, amount, improve), ..e.stats },
            ..e
        },
        AnimalStat::Cleanliness => e,
    }
}

/// Enclosure of the first animal record with `id`.
pub open spec fn first_animal_enclosure(animals: Seq<AnimalEntry>, id: AnimalId) -> Option<EnclosureId>
    decreases animals.len(),
{
    if animals.len() == 0 {
        None
    } else if animals[0].id == id {
        Some(animals[0].enclosure.0)
    } else {
        first_animal_enclosure(animals.drop_first(), id)
    }
}

pub open spec fn has_animal(animals: Seq<AnimalEntry>, id: AnimalId) -> bool {
    exists|i: int| 0 <= i < animals.len() && animals[i].id == id
}

pub open spec fn has_enclosure(enclosures: Seq<EnclosureEntry>, id: EnclosureId) -> bool {
    exists|i: int| 0 <= i < enclosures.len() && enclosures[i].id == id
}

/// Every animal record with `id` gets `stat` changed by `amount`.
pub open spec fn animals_after(animals: Seq<AnimalEntry>, id: AnimalId, stat: AnimalStat, amount: u32, improve: bool) -> Seq<AnimalEntry> {
    Seq::new(animals.len(), |i: int| if animals[i].id == id { animal_changed(animals[i], stat, amount, improve) } else { animals[i] })
}

/// Every enclosure record with `id` gets its cleanliness changed by `amount`.
pub open spec fn enclosures_after(enclosures: Seq<EnclosureEntry>, id: EnclosureId, amount: u32, improve: bool) -> Seq<EnclosureEntry> {
    Seq::new(enclosures.len(), |i: int| if enclosures[i].id == id {
        EnclosureEntry { stats: EnclosureStats { cleanliness: change(enclosures[i].stats.cleanliness, amount, improve) }, ..enclosures[i] }
    } else {
        enclosures[i]
    })
}

/// The stat records after applying one stat change (`improve` selects the
/// direction), as a pair of animal and enclosure records.
pub open spec fn world_after(
    animals: Seq<AnimalEntry>,
    enclosures: Seq<EnclosureEntry>,
    target: StatTarget,
    amount: u32,
    improve: bool,
) -> (Seq<AnimalEntry>, Seq<EnclosureEntry>) {
    match target {
        StatTarget::Animal { id, stat: AnimalStat::Cleanliness } => match first_animal_enclosure(animals, id) {
            Some(enc) => (animals, enclosures_after(enclosures, enc, amount, improve)),
            None => (animals, enclosures),
        },
        StatTarget::Animal { id, stat } => (animals_after(animals, id, stat, amount, improve), enclosures),
        StatTarget::Enclosure { id, .. } => (animals, enclosures_after(enclosures, id, amount, improve)),
    }
}

/// What the change reports back about the records it looked for.
pub open spec fn outcome_of(animals: Seq<AnimalEntry>, enclosures: Seq<EnclosureEntry>, target: StatTarget) -> StatChangeOutcome {
    match target {
        StatTarget::Animal { id, stat: AnimalStat::Cleanliness } => match first_animal_enclosure(animals, id) {
            Some(enc) => if has_enclosure(enclosures, enc) {
                StatChangeOutcome::Applied
            } else {
                StatChangeOutcome::EnclosureNotFound(enc)
            },
            None => StatChangeOutcome::AnimalNotFound(id),
        },
        StatTarget::Animal { id, .. } => if has_animal(animals, id) {
            StatChangeOutcome::Applied
        } else {
            StatChangeOutcome::AnimalNotFound(id)
        },
        StatTarget::Enclosure { id, .. } => if has_enclosure(enclosures, id) {
            StatChangeOutcome::Applied
        } else {
            StatChangeOutcome::EnclosureNotFound(id)
        },
    }
}

fn find_animal_enclosure(animals: &Vec<AnimalEntry>, id: AnimalId) -> (r: Option<EnclosureId>)
    ensures
        r == first_animal_enclosure(animals@, id),
{
    let mut i: usize = 0;
    assert(animals@.skip(0) =~= animals@);
    while i < animals.len()
        invariant
            0 <= i <= animals@.len(),
            first_animal_enclosure(animals@, id) == first_animal_enclosure(animals@.skip(i as int), id),
        decreases animals.len() - i,
    {
        assert(animals@.skip(i as int).drop_first() =~= animals@.skip(i + 1));
        if animals[i].id == id {
            return Some(animals[i].enclosure.0);
        }
        i += 1;
    }
    None
}

fn change_enclosures(enclosures: &mut Vec<EnclosureEntry>, id: EnclosureId, amount: u32, improve: bool) -> (found: bool)
    ensures
        final(enclosures)@ == enclosures_after(old(enclosures)@, id, amount, improve),
        found == has_enclosure(old(enclosures)@, id),
{
    let ghost start = enclosures@;
    let mut found = false;
    let mut i: usize = 0;
    while i < enclosures.len()
        invariant
            enclosures@.len() == start.len(),
            0 <= i <= start.len(),
            forall|j: int| 0 <= j < i ==> #[trigger] enclosures@[j] == enclosures_after(start, id, amount, improve)[j],
            forall|j: int| i <= j < start.len() ==> #[trigger] enclosures@[j] == start[j],
            found == exists|j: int| 0 <= j < i && start[j].id == id,
        decreases start.len() - i,
    {
        let e = enclosures[i];
        if e.id == id {
            let cleanliness = change_value(e.stats.cleanliness, amount, improve);
            enclosures.set(i, EnclosureEntry { id: e.id, stats: EnclosureStats { cleanliness } });
            found = true;
        }
        i += 1;
    }
    assert(enclosures@ =~= enclosures_after(start, id, amount, improve));
    found
}

fn change_animals(animals: &mut Vec<AnimalEntry>, id: AnimalId, stat: AnimalStat, amount: u32, improve: bool) -> (found: bool)
    requires
        stat != AnimalStat::Cleanliness,
    ensures
        final(animals)@ == animals_after(old(animals)@, id, stat, amount, improve),
        found == has_animal(old(animals)@, id),
{
    let ghost start = animals@;
    let mut found = false;
    let mut i: usize = 0;
    while i < animals.len()
        invariant
            stat != AnimalStat::Cleanliness,
            animals@.len() == start.len(),
            0 <= i <= start.len(),
            forall|j: int| 0 <= j < i ==> #[trigger] animals@[j] == animals_after(start, id, stat, amount, improve)[j],
            forall|j: int| i <= j < start.len() ==> #[trigger] animals@[j] == start[j],
            found == exists|j: int| 0 <= j < i && start[j].id == id,
        decreases start.len() - i,
    {
        let e = animals[i];
        if e.id == id {
            let stats = match stat {
                AnimalStat::Hunger => AnimalStats {
                    hunger: change_value(e.stats.hunger, amount, improve),
                    happiness: e.stats.happiness,
                },
                _ => AnimalStats {
                    hunger: e.stats.hunger,
                    happiness: change_value(e.stats.happiness, amount, improve),
                },
            };
            animals.set(i, AnimalEntry { id: e.id, stats, enclosure: e.enclosure });
            found = true;
        }
        i += 1;
    }
    assert(animals@ =~= animals_after(start, id, stat, amount, improve));
    found
}

impl StatsWorld {
    fn apply_change(&mut self, target: StatTarget, amount: u32, improve: bool) -> (r: StatChangeOutcome)
        ensures
            (final(self).animals@, final(self).enclosures@)
                == world_after(old(self).animals@, old(self).enclosures@, target, amount, improve),
            r == outcome_of(old(self).animals@, old(self).enclosures@, target),
    {
        match target {
            StatTarget::Animal { id, stat: AnimalStat::Cleanliness } => {
                match find_animal_enclosure(&self.animals, id) {
                    Some(enc) => {
                        if change_enclosures(&mut self.enclosures, enc, amount, improve) {
                            StatChangeOutcome::Applied
                        } else {
                            StatChangeOutcome::EnclosureNotFound(enc)
                        }
                    },
                    None => StatChangeOutcome::AnimalNotFound(id),
                }
            },
            StatTarget::Animal { id, stat } => {
                if change_animals(&mut self.animals, id, stat, amount, improve) {
                    StatChangeOutcome::Applied
                } else {
                    StatChangeOutcome::AnimalNotFound(id)
                }
            },
            StatTarget::Enclosure { id, .. } => {
                if change_enclosures(&mut self.enclosures, id, amount, improve) {
                    StatChangeOutcome::Applied
                } else {
                    StatChangeOutcome::EnclosureNotFound(id)
                }
            },
        }
    }

    /// Apply an [`ImproveStatEvent`]: the targeted stat of every matching record
    /// rises by `amount`, capped at [`STAT_SCALE`]. An animal's cleanliness is
    /// its enclosure's cleanliness (the enclosure of the first record with that
    /// animal id).
    pub fn improve_stat(&mut self, event: ImproveStatEvent) -> (r: StatChangeOutcome)
        ensures
            (final(self).animals@, final(self).enclosures@)
                == world_after(old(self).animals@, old(self).enclosures@, event.target, event.amount, true),
            r == outcome_of(old(self).animals@, old(self).enclosures@, event.target),
    {
        self.apply_change(event.target, event.amount, true)
    }

    /// Apply a [`WorsenStatEvent`]: the targeted stat of every matching record
    /// falls by `amount`, floored at zero.
    pub fn worsen_stat(&mut self, event: WorsenStatEvent) -> (r: StatChangeOutcome)
        ensures
            (final(self).animals@, final(self).enclosures@)
                == world_after(old(self).animals@, old(self).enclosures@, event.target, event.amount, false),
            r == outcome_of(old(self).animals@, old(self).enclosures@, event.target),
    {
        self.apply_change(event.target, event.amount, false)
    }
}

/// Record of an animal in a new save: full stats in its home enclosure.
pub open spec fn default_animal_entry(id: AnimalId) -> AnimalEntry {
    AnimalEntry {
        id,
        stats: AnimalStats { hunger: STAT_FULL, happiness: STAT_FULL },
        enclosure: AnimalEnclosure(spec_enclosure_for_animal(id)),
    }
}

/// Record of an enclosure in a new save: fully clean.
pub open spec fn default_enclosure_entry(id: EnclosureId) -> EnclosureEntry {
    EnclosureEntry { id, stats: EnclosureStats { cleanliness: STAT_FULL } }
}

/// Table animals without a record in `existing`, in table order.
pub open spec fn missing_animals(table: Seq<AnimalId>, existing: Seq<AnimalEntry>) -> Seq<AnimalId>
    decreases table.len(),
{
    if table.len() == 0 {
        seq![]
    } else {
        let rest = missing_animals(table.drop_last(), existing);
        if has_animal(existing, table.last()) { rest } else { rest.push(table.last()) }
    }
}

/// Table enclosures without a record in `existing`, in table order.
pub open spec fn missing_enclosures(table: Seq<EnclosureId>, existing: Seq<EnclosureEntry>) -> Seq<EnclosureId>
    decreases table.len(),
{
    if table.len() == 0 {
        seq![]
    } else {
        let rest = missing_enclosures(table.drop_last(), existing);
        if has_enclosure(existing, table.last()) { rest } else { rest.push(table.last()) }
    }
}

fn contains_animal(animals: &Vec<AnimalEntry>, id: AnimalId) -> (r: bool)
    ensures
        r == has_animal(animals@, id),
{
    let mut i: usize = 0;
    while i < animals.len()
        invariant
            0 <= i <= animals@.len(),
            forall|j: int| 0 <= j < i ==> animals@[j].id != id,
        decreases animals.len() - i,
    {
        if animals[i].id == id {
            return true;
        }
        i += 1;
    }
    false
}

fn contains_enclosure(enclosures: &Vec<EnclosureEntry>, id: EnclosureId) -> (r: bool)
    ensures
        r == has_enclosure(enclosures@, id),
{
    let mut i: usize = 0;
    while i < enclosures.len()
        invariant
            0 <= i <= enclosures@.len(),
            forall|j: int| 0 <= j < i ==> enclosures@[j].id != id,
        decreases enclosures.len() - i,
    {
        if enclosures[i].id == id {
            return true;
        }
        i += 1;
    }
    false
}

fn default_animal(id: AnimalId) -> (r: AnimalEntry)
    ensures
        r == default_animal_entry(id),
{
    AnimalEntry {
        id,
        stats: AnimalStats { hunger: STAT_FULL, happiness: STAT_FULL },
        enclosure: AnimalEnclosure(enclosure_for_animal(id)),
    }
}

impl StatsWorld {
    /// Stat records of a new save: every enclosure and every animal of the
    /// tables, in table order, at full stats.
    pub fn new_save() -> (r: StatsWorld)
        ensures
            r.enclosures@ == spec_all_enclosures().map_values(|id: EnclosureId| default_enclosure_entry(id)),
            r.animals@ == spec_all_animals().map_values(|id: AnimalId| default_animal_entry(id)),
    {
        let mut world = StatsWorld { animals: Vec::new(), enclosures: Vec::new() };
        world.spawn_missing_stat_entries();
        proof {
            assert(missing_enclosures(spec_all_enclosures(), seq![]) =~= spec_all_enclosures()) by {
                reveal_with_fuel(missing_enclosures, 5);
            }
            assert(missing_animals(spec_all_animals(), seq![]) =~= spec_all_animals()) by {
                reveal_with_fuel(missing_animals, 6);
            }
        }
        assert(world.enclosures@ =~= spec_all_enclosures().map_values(|id: EnclosureId| default_enclosure_entry(id)));
        assert(world.animals@ =~= spec_all_animals().map_values(|id: AnimalId| default_animal_entry(id)));
        world
    }

    /// Append a default record for every table enclosure and animal that has
    /// none (a save from an older build may lack some).
    pub fn spawn_missing_stat_entries(&mut self)
        ensures
            final(self).enclosures@ == old(self).enclosures@ + missing_enclosures(spec_all_enclosures(), old(self).enclosures@).map_values(
                |id: EnclosureId| default_enclosure_entry(id),
            ),
            final(self).animals@ == old(self).animals@ + missing_animals(spec_all_animals(), old(self).animals@).map_values(
                |id: AnimalId| default_animal_entry(id),
            ),
    {
        let ghost old_enc = self.enclosures@;
        let ghost old_ani = self.animals@;
        let enclosure_ids = all_enclosures();
        let mut added_enc: Vec<EnclosureEntry> = Vec::new();
        let mut i: usize = 0;
        while i < enclosure_ids.len()
            invariant
                enclosure_ids@ == spec_all_enclosures(),
                self.enclosures@ == old_enc,
                self.animals@ == old_ani,
                0 <= i <= enclosure_ids@.len(),
                added_enc@ == missing_enclosures(enclosure_ids@.take(i as int), old_enc).map_values(
                    |id: EnclosureId| default_enclosure_entry(id),
                ),
            decreases enclosure_ids.len() - i,
        {
            let id = enclosure_ids[i];
            assert(enclosure_ids@.take(i + 1).drop_last() =~= enclosure_ids@.take(i as int));
            if !contains_enclosure(&self.enclosures, id) {
                added_enc.push(EnclosureEntry { id, stats: EnclosureStats { cleanliness: STAT_FULL } });
            }
            i += 1;
            assert(added_enc@ =~= missing_enclosures(enclosure_ids@.take(i as int), old_enc).map_values(
                |id: EnclosureId| default_enclosure_entry(id),
            ));
        }
        assert(enclosure_ids@.take(i as int) =~= enclosure_ids@);

        let animal_ids = all_animals();
        let mut added_ani: Vec<AnimalEntry> = Vec::new();
        let mut k: usize = 0;
        while k < animal_ids.len()
            invariant
                animal_ids@ == spec_all_animals(),
                self.enclosures@ == old_enc,
                self.animals@ == old_ani,
                0 <= k <= animal_ids@.len(),
                added_ani@ == missing_animals(animal_ids@.take(k as int), old_ani).map_values(
                    |id: AnimalId| default_animal_entry(id),
                ),
            decreases animal_ids.len() - k,
        {
            let id = animal_ids[k];
            assert(animal_ids@.take(k + 1).drop_last() =~= animal_ids@.take(k as int));
            if !contains_animal(&self.animals, id) {
                added_ani.push(default_animal(id));
            }
            k += 1;
            assert(added_ani@ =~= missing_animals(animal_ids@.take(k as int), old_ani).map_values(
                |id: AnimalId| default_animal_entry(id),
            ));
        }
        assert(animal_ids@.take(k as int) =~= animal_ids@);
        self.enclosures.append(&mut added_enc);
        self.animals.append(&mut added_ani);
    }
}

/// Saved tile and background-wander bounds of an animal with a default
/// placement (its home tile and wander zone); neither for other animals.
pub fn animal_world_components(animal_id: AnimalId) -> (r: (Option<AnimalTilePosition>, Option<TileBounds>))
    ensures
        r == (match spec_animal_default_placement(animal_id) {
            Some(p) => (Some(AnimalTilePosition(p.home_position)), Some(p.wander_bounds)),
            None => (None, None),
        }),
{
    match animal_default_placement(animal_id) {
        Some(placement) => (Some(AnimalTilePosition(placement.home_position)), Some(placement.wander_bounds)),
        None => (None, None),
    }
}

// ---------------------------------------------------------
// Stat laws
// ---------------------------------------------------------

/// An improvement never leaves a stat above the scale, and never lowers a
/// stat that is within the scale.
pub proof fn law_improve_within_scale(value: u32, amount: u32)
    ensures
        improved(value, amount) <= STAT_SCALE,
        value <= STAT_SCALE ==> value <= improved(value, amount),
{
}

/// Improving a stat within the scale adds the amount and caps the sum at the
/// scale: an improvement that would pass the cap fills the stat to the scale.
pub proof fn law_improve_adds_then_caps(value: u32, amount: u32)
    requires
        value <= STAT_SCALE,
    ensures
        value + amount >= STAT_SCALE ==> improved(value, amount) == STAT_SCALE,
        value + amount < STAT_SCALE ==> improved(value, amount) == value + amount,
        improved(value, amount) == (if value + amount < 1000 { value + amount } else { 1000 }),
{
}

/// A worsening never raises a stat and never goes below zero.
pub proof fn law_worsen_floors_at_zero(value: u32, amount: u32)
    ensures
        worsened(value, amount) <= value,
        amount >= value ==> worsened(value, amount) == 0,
{
}

/// Worsening by an amount and improving by the same amount gives the stat
/// back, when neither step clamps.
pub proof fn law_worsen_then_improve_restores(value: u32, amount: u32)
    requires
        amount <= value <= STAT_SCALE,
    ensures
        improved(worsened(value, amount), amount) == value,
{
}

/// A stat change keeps every record and its id; it changes only records
/// with the targeted id.
pub proof fn law_change_keeps_records(
    animals: Seq<AnimalEntry>,
    enclosures: Seq<EnclosureEntry>,
    target: StatTarget,
    amount: u32,
    improve: bool,
)
    ensures
        ({
            let (a2, e2) = world_after(animals, enclosures, target, amount, improve);
            &&& a2.len() == animals.len()
            &&& e2.len() == enclosures.len()
            &&& forall|i: int| 0 <= i < animals.len() ==> (#[trigger] a2[i]).id == animals[i].id
                && a2[i].enclosure == animals[i].enclosure
            &&& forall|i: int| 0 <= i < enclosures.len() ==> (#[trigger] e2[i]).id == enclosures[i].id
            &&& forall|i: int| 0 <= i < animals.len() && !(target matches StatTarget::Animal { id, .. } && id == animals[i].id)
                ==> a2[i] == animals[i]
        }),
{
}

/// After missing records are added, every table animal and enclosure has a
/// record; adding again adds nothing.
pub proof fn law_missing_entries_complete(animals: Seq<AnimalEntry>, enclosures: Seq<EnclosureEntry>)
    ensures
        ({
            let a2 = animals + missing_animals(spec_all_animals(), animals).map_values(|id: AnimalId| default_animal_entry(id));
            let e2 = enclosures + missing_enclosures(spec_all_enclosures(), enclosures).map_values(
                |id: EnclosureId| default_enclosure_entry(id),
            );
            &&& forall|i: int| 0 <= i < spec_all_animals().len() ==> has_animal(a2, #[trigger] spec_all_animals()[i])
            &&& forall|i: int| 0 <= i < spec_all_enclosures().len() ==> has_enclosure(e2, #[trigger] spec_all_enclosures()[i])
            &&& missing_animals(spec_all_animals(), a2).len() == 0
            &&& missing_enclosures(spec_all_enclosures(), e2).len() == 0
        }),
{
    lemma_missing_animals_complete(spec_all_animals(), animals);
    lemma_missing_enclosures_complete(spec_all_enclosures(), enclosures);
}

proof fn lemma_missing_animals_complete(table: Seq<AnimalId>, existing: Seq<AnimalEntry>)
    ensures
        ({
            let a2 = existing + missing_animals(table, existing).map_values(|id: AnimalId| default_animal_entry(id));
            &&& forall|i: int| 0 <= i < table.len() ==> has_animal(a2, #[trigger] table[i])
            &&& missing_animals(table, a2).len() == 0
        }),
    decreases table.len(),
{
    let f = |id: AnimalId| default_animal_entry(id);
    let a2 = existing + missing_animals(table, existing).map_values(f);
    if table.len() > 0 {
        let prefix = table.drop_last();
        lemma_missing_animals_complete(prefix, existing);
        let a1 = existing + missing_animals(prefix, existing).map_values(f);
        let rest = missing_animals(prefix, existing);
        // every record of a1 is a record of a2
        assert forall|id: AnimalId| has_animal(a1, id) implies has_animal(a2, id) by {
            let k = choose|k: int| 0 <= k < a1.len() && a1[k].id == id;
            if has_animal(existing, table.last()) {
                assert(a2 =~= a1);
            } else {
                assert(missing_animals(table, existing) == rest.push(table.last()));
                assert(a2[k] == a1[k]);
            }
        }
        assert forall|i: int| 0 <= i < table.len() implies has_animal(a2, #[trigger] table[i]) by {
            if i < prefix.len() {
                assert(prefix[i] == table[i]);
                assert(has_animal(a1, prefix[i]));
            } else if has_animal(existing, table.last()) {
                let k = choose|k: int| 0 <= k < existing.len() && existing[k].id == table.last();
                assert(a2[k] == existing[k]);
            } else {
                assert(missing_animals(table, existing) == rest.push(table.last()));
                assert(a2[a2.len() - 1] == default_animal_entry(table.last()));
            }
        }
        lemma_none_missing_animals(table, a2);
    }
}

proof fn lemma_none_missing_animals(table: Seq<AnimalId>, records: Seq<AnimalEntry>)
    requires
        forall|i: int| 0 <= i < table.len() ==> has_animal(records, #[trigger] table[i]),
    ensures
        missing_animals(table, records).len() == 0,
    decreases table.len(),
{
    if table.len() > 0 {
        let prefix = table.drop_last();
        assert forall|i: int| 0 <= i < prefix.len() implies has_animal(records, #[trigger] prefix[i]) by {
            assert(prefix[i] == table[i]);
        }
        lemma_none_missing_animals(prefix, records);
        assert(has_animal(records, table[table.len() - 1]));
    }
}

proof fn lemma_missing_enclosures_complete(table: Seq<EnclosureId>, existing: Seq<EnclosureEntry>)
    ensures
        ({
            let e2 = existing + missing_enclosures(table, existing).map_values(|id: EnclosureId| default_enclosure_entry(id));
            &&& forall|i: int| 0 <= i < table.len() ==> has_enclosure(e2, #[trigger] table[i])
            &&& missing_enclosures(table, e2).len() == 0
        }),
    decreases table.len(),
{
    let f = |id: EnclosureId| default_enclosure_entry(id);
    let e2 = existing + missing_enclosures(table, existing).map_values(f);
    if table.len() > 0 {
        let prefix = table.drop_last();
        lemma_missing_enclosures_complete(prefix, existing);
        let e1 = existing + missing_enclosures(prefix, existing).map_values(f);
        let rest = missing_enclosures(prefix, existing);
        assert forall|id: EnclosureId| has_enclosure(e1, id) implies has_enclosure(e2, id) by {
            let k = choose|k: int| 0 <= k < e1.len() && e1[k].id == id;
            if has_enclosure(existing, table.last()) {
                assert(e2 =~= e1);
            } else {
                assert(missing_enclosures(table, existing) == rest.push(table.last()));
                assert(e2[k] == e1[k]);
            }
        }
        assert forall|i: int| 0 <= i < table.len() implies has_enclosure(e2, #[trigger] table[i]) by {
            if i < prefix.len() {
                assert(prefix[i] == table[i]);
                assert(has_enclosure(e1, prefix[i]));
            } else if has_enclosure(existing, table.last()) {
                let k = choose|k: int| 0 <= k < existing.len() && existing[k].id == table.last();
                assert(e2[k] == existing[k]);
            } else {
                assert(missing_enclosures(table, existing) == rest.push(table.last()));
                assert(e2[e2.len() - 1] == default_enclosure_entry(table.last()));
            }
        }
        lemma_none_missing_enclosures(table, e2);
    }
}

proof fn lemma_none_missing_enclosures(table: Seq<EnclosureId>, records: Seq<EnclosureEntry>)
    requires
        forall|i: int| 0 <= i < table.len() ==> has_enclosure(records, #[trigger] table[i]),
    ensures
        missing_enclosures(table, records).len() == 0,
    decreases table.len(),
{
    if table.len() > 0 {
        let prefix = table.drop_last();
        assert forall|i: int| 0 <= i < prefix.len() implies has_enclosure(records, #[trigger] prefix[i]) by {
            assert(prefix[i] == table[i]);
        }
        lemma_none_missing_enclosures(prefix, records);
        assert(has_enclosure(records, table[table.len() - 1]));
    }
}

} // verus!
