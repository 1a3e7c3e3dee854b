//! Player care interactions: the two-slot satchel, the care item-picker menu,
//! and the dispatch of an interaction on the tile in front of the player.

use vstd::prelude::*;
use vstd::multiset::Multiset;

use crate::app_state::{Menu, Screen, spec_tile_interaction_allowed, tile_interaction_allowed};
use crate::cleaning::{
    PoopDump, PoopPile, PoopWheelbarrow, try_dump_poop, try_pickup_poop, wheelbarrow_empty_message,
    wheelbarrow_full_message,
};
use crate::content::{can_interact, tile_distance};
use crate::configs::{
    SATCHEL_MAX_SLOTS, WHEELBARROW_CAPACITY, care_menu_options, first_recipe, item_display_name, prep_recipe_for,
    spec_animal_display_name, spec_care_menu_options, spec_item_display_name, spec_prep_recipes,
    animal_data,
};
use crate::menus_model::{ListMenuState, wrapped_cursor};
use crate::stats::{AnimalStat, ImproveStatEvent, StatTarget};
use crate::text::{concat2, decimal, decimal_string};
use crate::types::{
    AnimalId, CareMenuId, ChoreId, CleanStat, EnclosureId, EnrichStat, FeedStat, ItemId, TilePosition,
};

verus! {

// ---------------------------------------------------------
// Satchel
// ---------------------------------------------------------

/// The caretaker's two carried-item slots.
#[derive(Debug, Clone, Copy, PartialEq, Eq)]
pub struct PlayerSatchel {
    pub slots: [Option<ItemId>; 2],
}

impl Default for PlayerSatchel {
    fn default() -> (r: Self)
        ensures
            r.slots@ == seq![None::<ItemId>, None::<ItemId>],
    {
        let r = PlayerSatchel { slots: [None, None] };
        assert(r.slots@ =~= seq![None::<ItemId>, None::<ItemId>]);
        r
    }
}

/// Items held by one slot.
pub open spec fn slot_items(slot: Option<ItemId>) -> Multiset<ItemId> {
    match slot {
        Some(item) => Multiset::singleton(item),
        None => Multiset::empty(),
    }
}

/// Items held by the slots of `s`, counted with multiplicity.
pub open spec fn carried_items(s: Seq<Option<ItemId>>) -> Multiset<ItemId>
    decreases s.len(),
{
    if s.len() == 0 {
        Multiset::empty()
    } else {
        carried_items(s.drop_last()).add(slot_items(s.last()))
    }
}

/// Index of the first slot of `s`, at or after `from`, that holds exactly
/// `target`; `s.len()` when there is none.
pub open spec fn find_slot(s: Seq<Option<ItemId>>, target: Option<ItemId>, from: int) -> int
    decreases s.len() - from,
{
    if from < 0 || from >= s.len() {
        s.len() as int
    } else if s[from] == target {
        from
    } else {
        find_slot(s, target, from + 1)
    }
}

/// Index of the first occupied slot of `s` at or after `from`; `s.len()` when
/// there is none.
pub open spec fn find_occupied(s: Seq<Option<ItemId>>, from: int) -> int
    decreases s.len() - from,
{
    if from < 0 || from >= s.len() {
        s.len() as int
    } else if s[from] is Some {
        from
    } else {
        find_occupied(s, from + 1)
    }
}

pub open spec fn all_empty(s: Seq<Option<ItemId>>) -> bool {
    forall|i: int| 0 <= i < s.len() ==> s[i] is None
}

pub open spec fn all_occupied(s: Seq<Option<ItemId>>) -> bool {
    forall|i: int| 0 <= i < s.len() ==> s[i] is Some
}

pub open spec fn satchel_full_message() -> Seq<char> {
    "Satchel is full"@
}

pub open spec fn satchel_already_empty_message() -> Seq<char> {
    "Satchel is already empty"@
}

pub open spec fn not_carrying_message() -> Seq<char> {
    "You are not carrying any food"@
}

pub open spec fn wrong_item_message() -> Seq<char> {
    "Wrong item for this feeding dish"@
}

/// The message a take or a check for `item` fails with.
pub open spec fn missing_item_message(s: Seq<Option<ItemId>>) -> Seq<char> {
    if all_empty(s) { not_carrying_message() } else { wrong_item_message() }
}

/// A free slot exists.
pub open spec fn can_give(s: Seq<Option<ItemId>>) -> bool {
    find_slot(s, None, 0) < s.len()
}

/// The slots after `item` is put in the first free slot.
pub open spec fn gave(s: Seq<Option<ItemId>>, item: ItemId) -> Seq<Option<ItemId>> {
    s.update(find_slot(s, None, 0), Some(item))
}

/// Some slot holds `item`.
pub open spec fn can_take(s: Seq<Option<ItemId>>, item: ItemId) -> bool {
    find_slot(s, Some(item), 0) < s.len()
}

/// The slots after the first slot holding `item` is emptied.
pub open spec fn took(s: Seq<Option<ItemId>>, item: ItemId) -> Seq<Option<ItemId>> {
    s.update(find_slot(s, Some(item), 0), None)
}

/// The slots after the first occupied slot is emptied.
pub open spec fn dropped(s: Seq<Option<ItemId>>) -> Seq<Option<ItemId>> {
    s.update(find_occupied(s, 0), None)
}

pub proof fn lemma_find_slot_bounds(s: Seq<Option<ItemId>>, target: Option<ItemId>, from: int)
    requires
        0 <= from,
    ensures
        from <= find_slot(s, target, from) <= s.len() || find_slot(s, target, from) == s.len(),
        find_slot(s, target, from) < s.len() ==> s[find_slot(s, target, from)] == target,
        forall|j: int| from <= j < find_slot(s, target, from) ==> s[j] != target,
    decreases s.len() - from,
{
    if from < s.len() && s[from] != target {
        lemma_find_slot_bounds(s, target, from + 1);
    }
}

pub proof fn lemma_find_occupied_bounds(s: Seq<Option<ItemId>>, from: int)
    requires
        0 <= from,
    ensures
        from <= find_occupied(s, from) <= s.len() || find_occupied(s, from) == s.len(),
        find_occupied(s, from) < s.len() ==> s[find_occupied(s, from)] is Some,
        forall|j: int| from <= j < find_occupied(s, from) ==> s[j] is None,
    decreases s.len() - from,
{
    if from < s.len() && s[from] is None {
        lemma_find_occupied_bounds(s, from + 1);
    }
}

impl PlayerSatchel {
    pub open spec fn carried(self) -> Multiset<ItemId> {
        carried_items(self.slots@)
    }

    pub fn is_full(&self) -> (r: bool)
        ensures
            r == all_occupied(self.slots@),
    {
        self.slots[0].is_some() && self.slots[1].is_some()
    }

    pub fn is_empty(&self) -> (r: bool)
        ensures
            r == all_empty(self.slots@),
    {
        self.slots[0].is_none() && self.slots[1].is_none()
    }

    /// Number of occupied slots.
    pub fn occupied_count(&self) -> (r: u8)
        ensures
            r == carried_items(self.slots@).len(),
    {
        proof {
            lemma_carried_pair(self.slots@);
        }
        let a: u8 = if self.slots[0].is_some() { 1 } else { 0 };
        let b: u8 = if self.slots[1].is_some() { 1 } else { 0 };
        a + b
    }
}

/// Place `item_id` in the first empty slot.
pub fn try_give_item(satchel: &mut PlayerSatchel, item_id: ItemId) -> (r: Result<(), &'static str>)
    ensures
        can_give(old(satchel).slots@) ==> r is Ok && final(satchel).slots@ == gave(old(satchel).slots@, item_id),
        !can_give(old(satchel).slots@) ==> (r matches Err(m) && m@ == satchel_full_message())
            && final(satchel).slots@ == old(satchel).slots@,
{
    let ghost s = satchel.slots@;
    if satchel.is_full() {
        proof {
            assert(s[0] is Some && s[1] is Some);
            assert(find_slot(s, None, 0) == 2) by {
                reveal_with_fuel(find_slot, 3);
            }
        }
        return Err("Satchel is full");
    }
    let mut i: usize = 0;
    while i < 2
        invariant
            0 <= i <= 2,
            satchel.slots@ == s,
            s == old(satchel).slots@,
            s.len() == 2,
            find_slot(s, None, 0) == find_slot(s, None, i as int),
        decreases 2 - i,
    {
        if satchel.slots[i].is_none() {
            assert(find_slot(s, None, i as int) == i);
            satchel.slots[i] = Some(item_id);
            assert(satchel.slots@ =~= s.update(i as int, Some(item_id)));
            return Ok(());
        }
        i += 1;
    }
    Err("Satchel is full")
}

fn slot_holds(slot: Option<ItemId>, item_id: ItemId) -> (r: bool)
    ensures
        r == (slot == Some(item_id)),
{
    match slot {
        Some(item) => item == item_id,
        None => false,
    }
}

/// Drop the first occupied slot. Returns the dropped item.
pub fn try_drop_item(satchel: &mut PlayerSatchel) -> (r: Result<ItemId, &'static str>)
    ensures
        find_occupied(old(satchel).slots@, 0) < 2 ==> {
            &&& r == Ok::<ItemId, &'static str>(old(satchel).slots@[find_occupied(old(satchel).slots@, 0)]->0)
            &&& final(satchel).slots@ == dropped(old(satchel).slots@)
        },
        find_occupied(old(satchel).slots@, 0) >= 2 ==> (r matches Err(m) && m@ == satchel_already_empty_message())
            && final(satchel).slots@ == old(satchel).slots@,
{
    let ghost s = satchel.slots@;
    let mut i: usize = 0;
    while i < 2
        invariant
            0 <= i <= 2,
            satchel.slots@ == s,
            s == old(satchel).slots@,
            s.len() == 2,
            find_occupied(s, 0) == find_occupied(s, i as int),
        decreases 2 - i,
    {
        if let Some(item) = satchel.slots[i] {
            assert(find_occupied(s, i as int) == i);
            satchel.slots[i] = None;
            assert(satchel.slots@ =~= s.update(i as int, None));
            return Ok(item);
        }
        i += 1;
    }
    Err("Satchel is already empty")
}

/// Whether some slot holds `item_id`.
pub fn satchel_contains(satchel: &PlayerSatchel, item_id: ItemId) -> (r: bool)
    ensures
        r == satchel.slots@.contains(Some(item_id)),
{
    let r = slot_holds(satchel.slots[0], item_id) || slot_holds(satchel.slots[1], item_id);
    proof {
        let s = satchel.slots@;
        if r {
            if s[0] == Some(item_id) {
                assert(s.contains(Some(item_id)));
            } else {
                assert(s[1] == Some(item_id));
                assert(s.contains(Some(item_id)));
            }
        } else {
            assert forall|j: int| 0 <= j < s.len() implies s[j] != Some(item_id) by {
                assert(j == 0 || j == 1);
            }
        }
    }
    r
}

/// Remove the first slot holding `item_id`.
pub fn try_take_item(satchel: &mut PlayerSatchel, item_id: ItemId) -> (r: Result<(), &'static str>)
    ensures
        can_take(old(satchel).slots@, item_id) ==> r is Ok && final(satchel).slots@ == took(old(satchel).slots@, item_id),
        !can_take(old(satchel).slots@, item_id) ==> (r matches Err(m) && m@ == missing_item_message(old(satchel).slots@))
            && final(satchel).slots@ == old(satchel).slots@,
{
    let ghost s = satchel.slots@;
    let mut i: usize = 0;
    while i < 2
        invariant
            0 <= i <= 2,
            satchel.slots@ == s,
            s == old(satchel).slots@,
            s.len() == 2,
            find_slot(s, Some(item_id), 0) == find_slot(s, Some(item_id), i as int),
        decreases 2 - i,
    {
        if slot_holds(satchel.slots[i], item_id) {
            assert(find_slot(s, Some(item_id), i as int) == i);
            satchel.slots[i] = None;
            assert(satchel.slots@ =~= s.update(i as int, None));
            return Ok(());
        }
        i += 1;
    }
    if satchel.is_empty() {
        Err("You are not carrying any food")
    } else {
        Err("Wrong item for this feeding dish")
    }
}

/// Check, without changing the satchel, that `required_item` is carried.
pub fn validate_has_item(satchel: &PlayerSatchel, required_item: ItemId) -> (r: Result<(), &'static str>)
    ensures
        satchel.slots@.contains(Some(required_item)) ==> r is Ok,
        !satchel.slots@.contains(Some(required_item)) ==> (r matches Err(m) && m@ == missing_item_message(satchel.slots@)),
{
    if satchel_contains(satchel, required_item) {
        Ok(())
    } else if satchel.is_empty() {
        Err("You are not carrying any food")
    } else {
        Err("Wrong item for this feeding dish")
    }
}

/// The feeding-dish check: the same as [`validate_has_item`].
pub fn validate_feed_animal(satchel: &PlayerSatchel, required_item: ItemId) -> (r: Result<(), &'static str>)
    ensures
        satchel.slots@.contains(Some(required_item)) ==> r is Ok,
        !satchel.slots@.contains(Some(required_item)) ==> (r matches Err(m) && m@ == missing_item_message(satchel.slots@)),
{
    validate_has_item(satchel, required_item)
}

/// Feeding consumes the required item: the same as [`try_take_item`].
pub fn try_feed_animal(satchel: &mut PlayerSatchel, required_item: ItemId) -> (r: Result<(), &'static str>)
    ensures
        can_take(old(satchel).slots@, required_item) ==> r is Ok && final(satchel).slots@ == took(old(satchel).slots@, required_item),
        !can_take(old(satchel).slots@, required_item) ==> (r matches Err(m) && m@ == missing_item_message(old(satchel).slots@))
            && final(satchel).slots@ == old(satchel).slots@,
{
    try_take_item(satchel, required_item)
}

/// Enrichment consumes its required item, if it has one.
pub fn try_enrich_animal(satchel: &mut PlayerSatchel, required_item: Option<ItemId>) -> (r: Result<(), &'static str>)
    ensures
        required_item is None ==> r is Ok && final(satchel).slots@ == old(satchel).slots@,
        required_item matches Some(item) ==> {
            &&& can_take(old(satchel).slots@, item) ==> r is Ok && final(satchel).slots@ == took(old(satchel).slots@, item)
            &&& !can_take(old(satchel).slots@, item) ==> (r matches Err(m) && m@ == missing_item_message(old(satchel).slots@))
                && final(satchel).slots@ == old(satchel).slots@
        },
{
    match required_item {
        Some(item) => try_take_item(satchel, item),
        None => Ok(()),
    }
}

// ---------------------------------------------------------
// Satchel laws
// ---------------------------------------------------------

/// For a two-slot satchel, the carried items are those of its two slots.
pub proof fn lemma_carried_pair(s: Seq<Option<ItemId>>)
    requires
        s.len() == 2,
    ensures
        carried_items(s) == slot_items(s[0]).add(slot_items(s[1])),
{
    let s1 = s.drop_last();
    assert(s1.drop_last().len() == 0);
    assert(carried_items(s1.drop_last()) == Multiset::<ItemId>::empty());
    assert(s1.last() == s[0]);
    assert(carried_items(s1) =~= slot_items(s[0]));
}

/// A slot search finds a slot exactly when one holds the target.
pub proof fn lemma_find_slot_contains(s: Seq<Option<ItemId>>, target: Option<ItemId>)
    ensures
        (find_slot(s, target, 0) < s.len()) == s.contains(target),
{
    lemma_find_slot_bounds(s, target, 0);
    if s.contains(target) {
        let j = choose|j: int| 0 <= j < s.len() && s[j] == target;
        assert(!(find_slot(s, target, 0) >= s.len())) by {
            if find_slot(s, target, 0) >= s.len() {
                assert(s[j] != target);
            }
        }
    }
}

/// Giving an item adds exactly that item to what is carried; giving fails
/// exactly when both slots are taken.
pub proof fn law_give_adds_item(satchel: PlayerSatchel, item: ItemId)
    ensures
        can_give(satchel.slots@) ==> carried_items(gave(satchel.slots@, item)) =~= carried_items(satchel.slots@).insert(item),
        !can_give(satchel.slots@) <==> all_occupied(satchel.slots@),
        all_occupied(satchel.slots@) <==> carried_items(satchel.slots@).len() == 2,
{
    let s = satchel.slots@;
    lemma_find_slot_bounds(s, None, 0);
    lemma_carried_pair(s);
    let idx = find_slot(s, None, 0);
    if idx < 2 {
        lemma_carried_pair(gave(s, item));
        assert(slot_items(s[idx]) =~= Multiset::<ItemId>::empty());
    } else {
        assert(s[0] != None::<ItemId>);
        assert(s[1] != None::<ItemId>);
    }
    if all_occupied(s) {
        assert(s[0] is Some && s[1] is Some);
        assert(find_slot(s, None, 0) == 2) by {
            reveal_with_fuel(find_slot, 3);
        }
    }
}

/// Taking an item succeeds exactly when it is carried, and then removes one
/// copy of it from what is carried.
pub proof fn law_take_removes_item(satchel: PlayerSatchel, item: ItemId)
    ensures
        can_take(satchel.slots@, item) == (carried_items(satchel.slots@).count(item) > 0),
        can_take(satchel.slots@, item) ==> carried_items(took(satchel.slots@, item)) =~= carried_items(satchel.slots@).remove(item),
{
    let s = satchel.slots@;
    lemma_find_slot_bounds(s, Some(item), 0);
    lemma_carried_pair(s);
    if can_take(s, item) {
        lemma_carried_pair(took(s, item));
    } else {
        assert(s[0] != Some(item));
        assert(s[1] != Some(item));
    }
}

/// Dropping removes the first carried item from what is carried, and fails
/// exactly on an empty satchel.
pub proof fn law_drop_removes_first_item(satchel: PlayerSatchel)
    ensures
        ({
            let s = satchel.slots@;
            let idx = find_occupied(s, 0);
            &&& idx >= 2 <==> carried_items(s).len() == 0
            &&& idx < 2 ==> carried_items(s).count(s[idx]->0) > 0
                && carried_items(dropped(s)) =~= carried_items(s).remove(s[idx]->0)
        }),
{
    let s = satchel.slots@;
    lemma_find_occupied_bounds(s, 0);
    lemma_carried_pair(s);
    let idx = find_occupied(s, 0);
    if idx < 2 {
        lemma_carried_pair(dropped(s));
    } else {
        assert(s[0] is None && s[1] is None);
    }
    if carried_items(s).len() == 0 {
        if s[0] is Some {
            assert(slot_items(s[0]).len() == 1);
        }
        if s[1] is Some {
            assert(slot_items(s[1]).len() == 1);
        }
        assert(find_occupied(s, 0) == 2) by {
            reveal_with_fuel(find_occupied, 3);
        }
    }
}

/// The check before feeding agrees with the take that follows it: it passes
/// exactly when the take succeeds, and both fail with the same message.
pub proof fn law_validate_matches_take(satchel: PlayerSatchel, item: ItemId)
    ensures
        satchel.slots@.contains(Some(item)) == can_take(satchel.slots@, item),
{
    lemma_find_slot_contains(satchel.slots@, Some(item));
}

/// Giving an item and then taking the same item back succeeds and leaves the
/// satchel carrying what it carried before.
pub proof fn law_give_then_take_restores(satchel: PlayerSatchel, item: ItemId)
    requires
        can_give(satchel.slots@),
    ensures
        can_take(gave(satchel.slots@, item), item),
        carried_items(took(gave(satchel.slots@, item), item)) =~= carried_items(satchel.slots@),
{
    law_give_adds_item(satchel, item);
    let s = satchel.slots@;
    lemma_find_slot_bounds(s, None, 0);
    let given = gave(s, item);
    lemma_carried_pair(given);
    assert(carried_items(given).count(item) > 0);
    lemma_find_slot_bounds(given, Some(item), 0);
    lemma_carried_pair(s);
    if !can_take(given, item) {
        assert(given[0] != Some(item));
        assert(given[1] != Some(item));
    }
    lemma_carried_pair(took(given, item));
}

/// Taking an item frees a slot, so a give right after a take always succeeds.
pub proof fn law_take_frees_a_slot(satchel: PlayerSatchel, item: ItemId)
    requires
        can_take(satchel.slots@, item),
    ensures
        can_give(took(satchel.slots@, item)),
{
    let s = satchel.slots@;
    lemma_find_slot_bounds(s, Some(item), 0);
    let t = took(s, item);
    lemma_find_slot_bounds(t, None, 0);
    let i = find_slot(s, Some(item), 0);
    assert(t[i] == None::<ItemId>);
    if !can_give(t) {
        assert(t[0] != None::<ItemId>);
        assert(t[1] != None::<ItemId>);
    }
}

// ---------------------------------------------------------
// Player-facing messages
// ---------------------------------------------------------

/// Where a care message is shown.
#[derive(Debug, Clone, PartialEq, Eq)]
pub enum CareMessage {
    /// A care-feedback toast.
    Feedback(String),
    /// The transient pickup line of the satchel card.
    Pickup(String),
}

pub open spec fn feedback_is(m: CareMessage, text: Seq<char>) -> bool {
    m matches CareMessage::Feedback(t) && t@ == text
}

pub open spec fn pickup_is(m: CareMessage, text: Seq<char>) -> bool {
    m matches CareMessage::Pickup(t) && t@ == text
}

pub open spec fn picked_up_message(item: ItemId) -> Seq<char> {
    "Picked up "@ + spec_item_display_name(item)
}

pub open spec fn dropped_message(item: ItemId) -> Seq<char> {
    "Dropped "@ + spec_item_display_name(item)
}

pub open spec fn took_message(item: ItemId) -> Seq<char> {
    "Took "@ + spec_item_display_name(item)
}

pub open spec fn prepared_message(item: ItemId) -> Seq<char> {
    "Prepared "@ + spec_item_display_name(item)
}

pub open spec fn got_message(item: ItemId) -> Seq<char> {
    "Got "@ + spec_item_display_name(item)
}

pub open spec fn finished_message(prompt: Seq<char>) -> Seq<char> {
    "Finished "@ + prompt
}

/// Player-facing care outcome copy keyed by the restored stat.
pub open spec fn spec_care_outcome_message(animal_id: AnimalId, stat: AnimalStat) -> Seq<char> {
    match stat {
        AnimalStat::Cleanliness => "Cleaned "@ + spec_animal_display_name(animal_id),
        AnimalStat::Happiness => "Enriched "@ + spec_animal_display_name(animal_id),
        AnimalStat::Hunger => "Fed "@ + spec_animal_display_name(animal_id),
    }
}

pub fn care_outcome_message(animal_id: AnimalId, stat: AnimalStat) -> (r: String)
    ensures
        r@ == spec_care_outcome_message(animal_id, stat),
{
    let name = animal_data(animal_id).display_name;
    match stat {
        AnimalStat::Cleanliness => concat2("Cleaned ", name),
        AnimalStat::Happiness => concat2("Enriched ", name),
        AnimalStat::Hunger => concat2("Fed ", name),
    }
}

// ---------------------------------------------------------
// Care item-picker menu
// ---------------------------------------------------------

pub const EMPTY_CARE_MENU_MESSAGE: &'static str = "No items are available";

pub const MISSING_CARE_MENU_MESSAGE: &'static str = "This item menu is unavailable";

/// Care-specific context wrapped around the shared list-menu model; the list
/// cursor is authoritative for every input path.
#[derive(Debug, Clone)]
pub struct CareMenuState {
    pub menu_id: Option<CareMenuId>,
    pub list: ListMenuState<ItemId>,
}

impl CareMenuState {
    /// The closed picker: no menu, no options, cursor on the first row.
    pub open spec fn is_reset(&self) -> bool {
        &&& self.menu_id is None
        &&& self.list.options@.len() == 0
        &&& self.list.cursor == 0
    }

    pub fn new(menu_id: Option<CareMenuId>, options: Vec<ItemId>) -> (r: Self)
        ensures
            r.menu_id == menu_id,
            r.list.options@ == options@,
            r.list.cursor == 0,
    {
        CareMenuState { menu_id, list: ListMenuState::new(options) }
    }
}

impl Default for CareMenuState {
    fn default() -> (r: Self)
        ensures
            r.is_reset(),
    {
        CareMenuState { menu_id: None, list: ListMenuState { options: Vec::new(), cursor: 0 } }
    }
}

/// Open the picker of `menu_id` with its configured options and request the
/// picker menu state.
pub fn open_care_menu(menu_id: CareMenuId, care_menu: &mut CareMenuState, next_menu: &mut Option<Menu>)
    ensures
        final(care_menu).menu_id == Some(menu_id),
        final(care_menu).list.options@ == spec_care_menu_options(menu_id),
        final(care_menu).list.cursor == 0,
        *final(next_menu) == Some(Menu::CareItemPicker),
{
    *care_menu = CareMenuState::new(Some(menu_id), care_menu_options(menu_id));
    *next_menu = Some(Menu::CareItemPicker);
}

/// Move the picker cursor by `delta` rows with wrap-around.
pub fn care_menu_move_cursor(care_menu: &mut CareMenuState, delta: i32)
    requires
        old(care_menu).list.options@.len() <= i32::MAX,
        old(care_menu).list.options@.len() > 0 ==> i32::MIN <= (old(care_menu).list.cursor as i32) + delta <= i32::MAX,
    ensures
        final(care_menu).menu_id == old(care_menu).menu_id,
        final(care_menu).list.options@ == old(care_menu).list.options@,
        old(care_menu).list.options@.len() == 0 ==> final(care_menu).list.cursor == old(care_menu).list.cursor,
        old(care_menu).list.options@.len() > 0 ==> final(care_menu).list.cursor == wrapped_cursor(
            (old(care_menu).list.cursor as i32) as int,
            delta as int,
            old(care_menu).list.options@.len() as int,
        ),
{
    care_menu.list.move_cursor(delta);
}

/// Select an available picker row; false when the row does not exist or is
/// already selected.
pub fn care_menu_set_cursor(care_menu: &mut CareMenuState, index: usize) -> (changed: bool)
    ensures
        final(care_menu).menu_id == old(care_menu).menu_id,
        final(care_menu).list.options@ == old(care_menu).list.options@,
        changed == (index < old(care_menu).list.options@.len() && old(care_menu).list.cursor != index),
        final(care_menu).list.cursor == (if changed { index } else { old(care_menu).list.cursor }),
{
    care_menu.list.set_cursor(index)
}

/// The item under the picker cursor, or why there is none.
pub fn selected_care_menu_item(care_menu: &CareMenuState) -> (r: Result<ItemId, &'static str>)
    ensures
        care_menu.menu_id is None ==> (r matches Err(m) && m@ == MISSING_CARE_MENU_MESSAGE@),
        care_menu.menu_id is Some && care_menu.list.cursor >= care_menu.list.options@.len()
            ==> (r matches Err(m) && m@ == EMPTY_CARE_MENU_MESSAGE@),
        care_menu.menu_id is Some && care_menu.list.cursor < care_menu.list.options@.len()
            ==> r == Ok::<ItemId, &'static str>(care_menu.list.options@[care_menu.list.cursor as int]),
{
    if care_menu.menu_id.is_none() {
        return Err(MISSING_CARE_MENU_MESSAGE);
    }
    match care_menu.list.selected() {
        Some(item) => Ok(*item),
        None => Err(EMPTY_CARE_MENU_MESSAGE),
    }
}

/// Close the picker: reset its state and request that no menu is open.
pub fn cancel_care_menu(care_menu: &mut CareMenuState, next_menu: &mut Option<Menu>)
    ensures
        final(care_menu).is_reset(),
        *final(next_menu) == Some(Menu::Closed),
{
    *care_menu = CareMenuState::default();
    *next_menu = Some(Menu::Closed);
}

/// Whether the picker has an item under its cursor.
pub open spec fn picker_has_selection(care_menu: CareMenuState) -> bool {
    care_menu.menu_id is Some && care_menu.list.cursor < care_menu.list.options@.len()
}

pub open spec fn picker_selection(care_menu: CareMenuState) -> ItemId {
    care_menu.list.options@[care_menu.list.cursor as int]
}

/// What confirming the picker does to the satchel and which message it shows.
pub open spec fn confirm_effect(care_menu: CareMenuState, before: Seq<Option<ItemId>>, after: Seq<Option<ItemId>>, m: CareMessage) -> bool {
    if care_menu.menu_id is None {
        pickup_is(m, MISSING_CARE_MENU_MESSAGE@) && after == before
    } else if !picker_has_selection(care_menu) {
        pickup_is(m, EMPTY_CARE_MENU_MESSAGE@) && after == before
    } else if can_give(before) {
        feedback_is(m, took_message(picker_selection(care_menu))) && after == gave(before, picker_selection(care_menu))
    } else {
        pickup_is(m, satchel_full_message()) && after == before
    }
}

/// Take the selected item into the satchel, then close the picker.
pub fn confirm_care_menu(care_menu: &mut CareMenuState, satchel: &mut PlayerSatchel, next_menu: &mut Option<Menu>) -> (r: CareMessage)
    ensures
        confirm_effect(*old(care_menu), old(satchel).slots@, final(satchel).slots@, r),
        final(care_menu).is_reset(),
        *final(next_menu) == Some(Menu::Closed),
{
    let item = match selected_care_menu_item(care_menu) {
        Ok(item) => item,
        Err(message) => {
            cancel_care_menu(care_menu, next_menu);
            return CareMessage::Pickup(message.to_string());
        },
    };
    let r = match try_give_item(satchel, item) {
        Ok(()) => CareMessage::Feedback(concat2("Took ", item_display_name(item))),
        Err(message) => CareMessage::Pickup(message.to_string()),
    };
    *care_menu = CareMenuState::default();
    *next_menu = Some(Menu::Closed);
    r
}

// ---------------------------------------------------------
// Interaction components and events
// ---------------------------------------------------------

/// Gives the player an item when interacted with.
#[derive(Debug, Clone)]
pub struct GiveItem {
    pub item_id: ItemId,
    pub prompt: String,
}

/// Feeds an animal when the player interacts with the correct item; always
/// restores hunger.
#[derive(Debug, Clone)]
pub struct FeedAnimal {
    pub animal_id: AnimalId,
    pub required_item: ItemId,
    pub delta: FeedStat,
    pub prompt: String,
}

/// Enriches an animal (happiness); the item is optional.
#[derive(Debug, Clone)]
pub struct EnrichAnimal {
    pub animal_id: AnimalId,
    pub required_item: Option<ItemId>,
    pub delta: EnrichStat,
    pub prompt: String,
}

/// Cleans an animal's enclosure; the item is optional.
#[derive(Debug, Clone)]
pub struct CleanAnimal {
    pub animal_id: AnimalId,
    pub required_item: Option<ItemId>,
    pub delta: CleanStat,
    pub prompt: String,
}

/// One-shot prep / transform chore (e.g. chop veggies at the prep table).
#[derive(Debug, Clone)]
pub struct MiniChore {
    pub chore_id: ChoreId,
    pub required_item: Option<ItemId>,
    pub output_item: Option<ItemId>,
    pub prompt: String,
}

/// Opens a care item-picker menu.
#[derive(Debug, Clone)]
pub struct OpenMenu {
    pub menu_id: CareMenuId,
    pub prompt: String,
}

/// The player successfully fed an animal at a dish.
#[derive(Debug, Clone, Copy, PartialEq, Eq, Structural)]
pub struct AnimalFedEvent {
    pub animal_id: AnimalId,
    pub required_item: ItemId,
    pub delta: FeedStat,
    pub dish_position: TilePosition,
}

/// The player successfully enriched an animal.
#[derive(Debug, Clone, Copy, PartialEq, Eq, Structural)]
pub struct AnimalEnrichedEvent {
    pub animal_id: AnimalId,
    pub required_item: Option<ItemId>,
    pub delta: EnrichStat,
    pub station_position: TilePosition,
}

/// The player successfully cleaned an animal's enclosure.
#[derive(Debug, Clone, Copy, PartialEq, Eq, Structural)]
pub struct AnimalCleanedEvent {
    pub animal_id: AnimalId,
    pub required_item: Option<ItemId>,
    pub delta: CleanStat,
    pub station_position: TilePosition,
}

// ---------------------------------------------------------
// Mini chores
// ---------------------------------------------------------

/// The item a chore produces from `required`: its authored output, else the
/// prep recipe's.
pub open spec fn chore_output(chore: MiniChore, required: ItemId) -> Option<ItemId> {
    match chore.output_item {
        Some(out) => Some(out),
        None => match first_recipe(spec_prep_recipes(), chore.chore_id, required) {
            Some(recipe) => Some(recipe.output),
            None => None,
        },
    }
}

/// What performing `chore` does to the satchel and which message it shows.
pub open spec fn chore_effect(chore: MiniChore, before: Seq<Option<ItemId>>, after: Seq<Option<ItemId>>, m: CareMessage) -> bool {
    match chore.required_item {
        Some(required) => if !can_take(before, required) {
            pickup_is(m, missing_item_message(before)) && after == before
        } else {
            match chore_output(chore, required) {
                Some(out) => feedback_is(m, prepared_message(out)) && after == gave(took(before, required), out),
                None => feedback_is(m, finished_message(chore.prompt@)) && after == took(before, required),
            }
        },
        None => match chore.output_item {
            Some(out) => if can_give(before) {
                feedback_is(m, got_message(out)) && after == gave(before, out)
            } else {
                pickup_is(m, satchel_full_message()) && after == before
            },
            None => feedback_is(m, finished_message(chore.prompt@)) && after == before,
        },
    }
}

fn chore_output_for(chore: &MiniChore, required: ItemId) -> (r: Option<ItemId>)
    ensures
        r == chore_output(*chore, required),
{
    match chore.output_item {
        Some(out) => Some(out),
        None => match prep_recipe_for(chore.chore_id, required) {
            Some(recipe) => Some(recipe.output),
            None => None,
        },
    }
}

/// Perform a mini chore: consume its required item, if any, and produce its
/// output, if any.
pub fn handle_mini_chore(chore: &MiniChore, satchel: &mut PlayerSatchel) -> (r: CareMessage)
    ensures
        chore_effect(*chore, old(satchel).slots@, final(satchel).slots@, r),
{
    if let Some(required) = chore.required_item {
        proof {
            law_validate_matches_take(*satchel, required);
        }
        if let Err(message) = validate_has_item(satchel, required) {
            return CareMessage::Pickup(message.to_string());
        }
        proof {
            law_take_frees_a_slot(*satchel, required);
        }
        if let Err(message) = try_take_item(satchel, required) {
            return CareMessage::Pickup(message.to_string());
        }
        if let Some(output) = chore_output_for(chore, required) {
            if let Err(message) = try_give_item(satchel, output) {
                let _ = try_give_item(satchel, required);
                return CareMessage::Pickup(message.to_string());
            }
            return CareMessage::Feedback(concat2("Prepared ", item_display_name(output)));
        }
    } else if let Some(output) = chore.output_item {
        if let Err(message) = try_give_item(satchel, output) {
            return CareMessage::Pickup(message.to_string());
        }
        return CareMessage::Feedback(concat2("Got ", item_display_name(output)));
    }
    CareMessage::Feedback(concat2("Finished ", chore.prompt.as_str()))
}

// ---------------------------------------------------------
// Interaction dispatch
// ---------------------------------------------------------

/// The interaction components of the tile the player faces, with its tile.
#[derive(Debug, Clone)]
pub struct InteractionTarget {
    pub tile: TilePosition,
    pub give: Option<GiveItem>,
    pub feed: Option<FeedAnimal>,
    pub enrich: Option<EnrichAnimal>,
    pub clean: Option<CleanAnimal>,
    pub chore: Option<MiniChore>,
    pub open: Option<OpenMenu>,
    pub poop: Option<PoopPile>,
    pub dump: Option<PoopDump>,
}

/// What one interaction request led to.
#[derive(Debug, Clone, PartialEq, Eq)]
pub enum InteractOutcome {
    /// The request was ignored.
    Nothing,
    /// A message was shown and nothing else happened beyond the satchel change.
    Message(CareMessage),
    Fed(AnimalFedEvent),
    Enriched(AnimalEnrichedEvent),
    Cleaned(AnimalCleanedEvent),
    /// The care item picker was opened.
    MenuOpened,
    PoopPickedUp { enclosure_id: EnclosureId, tile: TilePosition },
    PoopDumped(Vec<EnclosureId>),
}

/// Which interaction component wins on a tile; the order is give, feed,
/// enrich, clean, chore, open menu, poop, dump.
#[derive(Debug, Clone, Copy, PartialEq, Eq, Structural)]
pub enum InteractionKind {
    Give,
    Feed,
    Enrich,
    Clean,
    Chore,
    Open,
    Poop,
    Dump,
    Inert,
}

pub open spec fn interaction_kind(t: InteractionTarget) -> InteractionKind {
    if t.give is Some {
        InteractionKind::Give
    } else if t.feed is Some {
        InteractionKind::Feed
    } else if t.enrich is Some {
        InteractionKind::Enrich
    } else if t.clean is Some {
        InteractionKind::Clean
    } else if t.chore is Some {
        InteractionKind::Chore
    } else if t.open is Some {
        InteractionKind::Open
    } else if t.poop is Some {
        InteractionKind::Poop
    } else if t.dump is Some {
        InteractionKind::Dump
    } else {
        InteractionKind::Inert
    }
}

pub fn interaction_kind_of(t: &InteractionTarget) -> (r: InteractionKind)
    ensures
        r == interaction_kind(*t),
{
    if t.give.is_some() {
        InteractionKind::Give
    } else if t.feed.is_some() {
        InteractionKind::Feed
    } else if t.enrich.is_some() {
        InteractionKind::Enrich
    } else if t.clean.is_some() {
        InteractionKind::Clean
    } else if t.chore.is_some() {
        InteractionKind::Chore
    } else if t.open.is_some() {
        InteractionKind::Open
    } else if t.poop.is_some() {
        InteractionKind::Poop
    } else if t.dump.is_some() {
        InteractionKind::Dump
    } else {
        InteractionKind::Inert
    }
}

/// An optional required item is present in the slots (or none is required).
pub open spec fn has_optional(s: Seq<Option<ItemId>>, required: Option<ItemId>) -> bool {
    match required {
        Some(item) => s.contains(Some(item)),
        None => true,
    }
}

fn check_optional_item(satchel: &PlayerSatchel, required: Option<ItemId>) -> (r: Result<(), &'static str>)
    ensures
        has_optional(satchel.slots@, required) ==> r is Ok,
        !has_optional(satchel.slots@, required) ==> (r matches Err(m) && m@ == missing_item_message(satchel.slots@)),
{
    match required {
        Some(item) => validate_has_item(satchel, item),
        None => Ok(()),
    }
}

/// The carried poops of an optional wheelbarrow.
pub open spec fn wheel_view(w: Option<PoopWheelbarrow>) -> Option<Seq<EnclosureId>> {
    match w {
        Some(w) => Some(w.poops@),
        None => None,
    }
}

/// What an interaction with a tile of kind `interaction_kind(t)` does, given
/// the satchel and wheelbarrow before and after and the picker state after.
pub open spec fn target_effect(
    t: InteractionTarget,
    before: Seq<Option<ItemId>>,
    after: Seq<Option<ItemId>>,
    wheel_before: Option<PoopWheelbarrow>,
    wheel_after: Option<PoopWheelbarrow>,
    menu_after: CareMenuState,
    next_after: Option<Menu>,
    r: InteractOutcome,
) -> bool {
    match interaction_kind(t) {
        InteractionKind::Give => {
            let item = t.give->0.item_id;
            &&& wheel_view(wheel_after) == wheel_view(wheel_before)
            &&& if can_give(before) {
                after == gave(before, item) && (r matches InteractOutcome::Message(m) && feedback_is(m, picked_up_message(item)))
            } else {
                after == before && (r matches InteractOutcome::Message(m) && pickup_is(m, satchel_full_message()))
            }
        },
        InteractionKind::Feed => {
            let feed = t.feed->0;
            &&& wheel_view(wheel_after) == wheel_view(wheel_before) && after == before
            &&& if before.contains(Some(feed.required_item)) {
                r == InteractOutcome::Fed(AnimalFedEvent {
                    animal_id: feed.animal_id,
                    required_item: feed.required_item,
                    delta: feed.delta,
                    dish_position: t.tile,
                })
            } else {
                r matches InteractOutcome::Message(m) && pickup_is(m, missing_item_message(before))
            }
        },
        InteractionKind::Enrich => {
            let enrich = t.enrich->0;
            &&& wheel_view(wheel_after) == wheel_view(wheel_before) && after == before
            &&& if has_optional(before, enrich.required_item) {
                r == InteractOutcome::Enriched(AnimalEnrichedEvent {
                    animal_id: enrich.animal_id,
                    required_item: enrich.required_item,
                    delta: enrich.delta,
                    station_position: t.tile,
                })
            } else {
                r matches InteractOutcome::Message(m) && pickup_is(m, missing_item_message(before))
            }
        },
        InteractionKind::Clean => {
            let clean = t.clean->0;
            &&& wheel_view(wheel_after) == wheel_view(wheel_before) && after == before
            &&& if has_optional(before, clean.required_item) {
                r == InteractOutcome::Cleaned(AnimalCleanedEvent {
                    animal_id: clean.animal_id,
                    required_item: clean.required_item,
                    delta: clean.delta,
                    station_position: t.tile,
                })
            } else {
                r matches InteractOutcome::Message(m) && pickup_is(m, missing_item_message(before))
            }
        },
        InteractionKind::Chore => {
            &&& wheel_view(wheel_after) == wheel_view(wheel_before)
            &&& r matches InteractOutcome::Message(m) && chore_effect(t.chore->0, before, after, m)
        },
        InteractionKind::Open => {
            let menu_id = t.open->0.menu_id;
            &&& wheel_view(wheel_after) == wheel_view(wheel_before) && after == before
            &&& r == InteractOutcome::MenuOpened
            &&& menu_after.menu_id == Some(menu_id)
            &&& menu_after.list.options@ == spec_care_menu_options(menu_id)
            &&& menu_after.list.cursor == 0
            &&& next_after == Some(Menu::CareItemPicker)
        },
        InteractionKind::Poop => {
            let enclosure_id = t.poop->0.enclosure_id;
            &&& after == before
            &&& match wheel_before {
                None => r == InteractOutcome::Nothing && wheel_view(wheel_after) == wheel_view(wheel_before),
                Some(w) => if w.poops@.len() >= WHEELBARROW_CAPACITY {
                    &&& wheel_view(wheel_after) == wheel_view(wheel_before)
                    &&& r matches InteractOutcome::Message(m) && pickup_is(m, wheelbarrow_full_message())
                } else {
                    &&& wheel_view(wheel_after) == Some(w.poops@.push(enclosure_id))
                    &&& r == InteractOutcome::PoopPickedUp { enclosure_id, tile: t.tile }
                },
            }
        },
        InteractionKind::Dump => {
            &&& after == before && wheel_view(wheel_after) == wheel_view(wheel_before)
            &&& match wheel_before {
                None => r == InteractOutcome::Nothing,
                Some(w) => if w.poops@.len() == 0 {
                    r matches InteractOutcome::Message(m) && pickup_is(m, wheelbarrow_empty_message())
                } else {
                    r matches InteractOutcome::PoopDumped(v) && v@ == w.poops@
                },
            }
        },
        InteractionKind::Inert => r == InteractOutcome::Nothing && after == before && wheel_view(wheel_after) == wheel_view(wheel_before),
    }
}

/// Carry out the winning interaction component of `target`.
pub fn interact_with_target(
    target: &InteractionTarget,
    satchel: &mut PlayerSatchel,
    care_menu: &mut CareMenuState,
    next_menu: &mut Option<Menu>,
    wheelbarrow: &mut Option<PoopWheelbarrow>,
) -> (r: InteractOutcome)
    ensures
        target_effect(
            *target,
            old(satchel).slots@,
            final(satchel).slots@,
            *old(wheelbarrow),
            *final(wheelbarrow),
            *final(care_menu),
            *final(next_menu),
            r,
        ),
        interaction_kind(*target) != InteractionKind::Open ==> {
            &&& final(care_menu).menu_id == old(care_menu).menu_id
            &&& final(care_menu).list == old(care_menu).list
            &&& *final(next_menu) == *old(next_menu)
        },
{
    if let Some(give) = &target.give {
        return match try_give_item(satchel, give.item_id) {
            Ok(()) => InteractOutcome::Message(
                CareMessage::Feedback(concat2("Picked up ", item_display_name(give.item_id))),
            ),
            Err(message) => InteractOutcome::Message(CareMessage::Pickup(message.to_string())),
        };
    }
    if let Some(feed) = &target.feed {
        if let Err(message) = validate_has_item(satchel, feed.required_item) {
            return InteractOutcome::Message(CareMessage::Pickup(message.to_string()));
        }
        return InteractOutcome::Fed(AnimalFedEvent {
            animal_id: feed.animal_id,
            required_item: feed.required_item,
            delta: feed.delta,
            dish_position: target.tile,
        });
    }
    if let Some(enrich) = &target.enrich {
        if let Err(message) = check_optional_item(satchel, enrich.required_item) {
            return InteractOutcome::Message(CareMessage::Pickup(message.to_string()));
        }
        return InteractOutcome::Enriched(AnimalEnrichedEvent {
            animal_id: enrich.animal_id,
            required_item: enrich.required_item,
            delta: enrich.delta,
            station_position: target.tile,
        });
    }
    if let Some(clean) = &target.clean {
        if let Err(message) = check_optional_item(satchel, clean.required_item) {
            return InteractOutcome::Message(CareMessage::Pickup(message.to_string()));
        }
        return InteractOutcome::Cleaned(AnimalCleanedEvent {
            animal_id: clean.animal_id,
            required_item: clean.required_item,
            delta: clean.delta,
            station_position: target.tile,
        });
    }
    if let Some(chore) = &target.chore {
        return InteractOutcome::Message(handle_mini_chore(chore, satchel));
    }
    if let Some(open) = &target.open {
        open_care_menu(open.menu_id, care_menu, next_menu);
        return InteractOutcome::MenuOpened;
    }
    if let Some(poop) = &target.poop {
        let mut w = match wheelbarrow.take() {
            None => return InteractOutcome::Nothing,
            Some(w) => w,
        };
        let r = match try_pickup_poop(&mut w, poop.enclosure_id) {
            Ok(()) => InteractOutcome::PoopPickedUp { enclosure_id: poop.enclosure_id, tile: target.tile },
            Err(message) => InteractOutcome::Message(CareMessage::Pickup(message.to_string())),
        };
        *wheelbarrow = Some(w);
        return r;
    }
    if target.dump.is_some() {
        return match wheelbarrow {
            None => InteractOutcome::Nothing,
            Some(w) => match try_dump_poop(w) {
                Ok(poops) => InteractOutcome::PoopDumped(poops),
                Err(message) => InteractOutcome::Message(CareMessage::Pickup(message.to_string())),
            },
        };
    }
    InteractOutcome::Nothing
}

/// What an interact request does: while the care picker is open (with a
/// player) it confirms the picker; otherwise, with tile interaction allowed,
/// a player and a faced target, the target's winning component acts; in
/// every other case nothing changes.
pub open spec fn interact_effect(
    screen: Screen,
    menu: Menu,
    player_present: bool,
    target: Option<InteractionTarget>,
    before: Seq<Option<ItemId>>,
    after: Seq<Option<ItemId>>,
    menu_before: CareMenuState,
    menu_after: CareMenuState,
    next_before: Option<Menu>,
    next_after: Option<Menu>,
    wheel_before: Option<PoopWheelbarrow>,
    wheel_after: Option<PoopWheelbarrow>,
    r: InteractOutcome,
) -> bool {
    if menu == Menu::CareItemPicker && player_present {
        &&& r matches InteractOutcome::Message(m) && confirm_effect(menu_before, before, after, m)
        &&& menu_after.is_reset()
        &&& next_after == Some(Menu::Closed)
        &&& wheel_view(wheel_after) == wheel_view(wheel_before)
    } else if menu == Menu::CareItemPicker || !spec_tile_interaction_allowed(screen, menu) || !player_present
        || target is None {
        &&& r == InteractOutcome::Nothing
        &&& after == before
        &&& menu_after.menu_id == menu_before.menu_id
        &&& menu_after.list == menu_before.list
        &&& next_after == next_before
        &&& wheel_view(wheel_after) == wheel_view(wheel_before)
    } else {
        &&& target_effect(target->0, before, after, wheel_before, wheel_after, menu_after, next_after, r)
        &&& interaction_kind(target->0) != InteractionKind::Open ==> {
            &&& menu_after.menu_id == menu_before.menu_id
            &&& menu_after.list == menu_before.list
            &&& next_after == next_before
        }
    }
}

/// Handle an interact request (see [`interact_effect`]).
pub fn on_interaction_interact(
    screen: Screen,
    menu: Menu,
    player_present: bool,
    target: &Option<InteractionTarget>,
    satchel: &mut PlayerSatchel,
    care_menu: &mut CareMenuState,
    next_menu: &mut Option<Menu>,
    wheelbarrow: &mut Option<PoopWheelbarrow>,
) -> (r: InteractOutcome)
    ensures
        interact_effect(
            screen,
            menu,
            player_present,
            *target,
            old(satchel).slots@,
            final(satchel).slots@,
            *old(care_menu),
            *final(care_menu),
            *old(next_menu),
            *final(next_menu),
            *old(wheelbarrow),
            *final(wheelbarrow),
            r,
        ),
{
    if menu == Menu::CareItemPicker {
        if !player_present {
            return InteractOutcome::Nothing;
        }
        return InteractOutcome::Message(confirm_care_menu(care_menu, satchel, next_menu));
    }
    if !tile_interaction_allowed(screen, menu) || !player_present {
        return InteractOutcome::Nothing;
    }
    match target {
        None => InteractOutcome::Nothing,
        Some(t) => interact_with_target(t, satchel, care_menu, next_menu, wheelbarrow),
    }
}

// ---------------------------------------------------------
// Applying care
// ---------------------------------------------------------

/// The result of applying a successful care interaction.
#[derive(Debug, Clone, PartialEq, Eq)]
pub enum CareApplyOutcome {
    /// The item could not be consumed; the message is shown on the satchel card.
    Rejected(String),
    /// The stat improvement to apply and the care-feedback toast.
    Applied { improve: ImproveStatEvent, message: String },
}

/// What consuming the optional `required` item and restoring `stat` of
/// `animal_id` by `amount` does.
pub open spec fn care_apply_effect(
    animal_id: AnimalId,
    stat: AnimalStat,
    amount: u32,
    required: Option<ItemId>,
    before: Seq<Option<ItemId>>,
    after: Seq<Option<ItemId>>,
    r: CareApplyOutcome,
) -> bool {
    match required {
        Some(item) if !can_take(before, item) => {
            &&& after == before
            &&& r matches CareApplyOutcome::Rejected(m) && m@ == missing_item_message(before)
        },
        _ => {
            &&& after == (match required {
                Some(item) => took(before, item),
                None => before,
            })
            &&& r matches CareApplyOutcome::Applied { improve, message }
            &&& improve == (ImproveStatEvent { target: StatTarget::Animal { id: animal_id, stat }, amount })
            &&& message@ == spec_care_outcome_message(animal_id, stat)
        },
    }
}

fn apply_care(
    animal_id: AnimalId,
    stat: AnimalStat,
    amount: u32,
    required: Option<ItemId>,
    satchel: &mut PlayerSatchel,
) -> (r: CareApplyOutcome)
    ensures
        care_apply_effect(animal_id, stat, amount, required, old(satchel).slots@, final(satchel).slots@, r),
{
    if let Err(message) = try_enrich_animal(satchel, required) {
        return CareApplyOutcome::Rejected(message.to_string());
    }
    CareApplyOutcome::Applied {
        improve: ImproveStatEvent { target: StatTarget::Animal { id: animal_id, stat }, amount },
        message: care_outcome_message(animal_id, stat),
    }
}

/// Consume the dish's item and restore the animal's hunger.
pub fn apply_animal_fed(event: AnimalFedEvent, satchel: &mut PlayerSatchel) -> (r: CareApplyOutcome)
    ensures
        care_apply_effect(
            event.animal_id,
            AnimalStat::Hunger,
            event.delta.0.0,
            Some(event.required_item),
            old(satchel).slots@,
            final(satchel).slots@,
            r,
        ),
{
    apply_care(event.animal_id, AnimalStat::Hunger, event.delta.0.0, Some(event.required_item), satchel)
}

/// Consume the station's item, if any, and restore the animal's happiness.
pub fn apply_animal_enriched(event: AnimalEnrichedEvent, satchel: &mut PlayerSatchel) -> (r: CareApplyOutcome)
    ensures
        care_apply_effect(
            event.animal_id,
            AnimalStat::Happiness,
            event.delta.0.0,
            event.required_item,
            old(satchel).slots@,
            final(satchel).slots@,
            r,
        ),
{
    apply_care(event.animal_id, AnimalStat::Happiness, event.delta.0.0, event.required_item, satchel)
}

/// Consume the station's item, if any, and restore the enclosure's cleanliness.
pub fn apply_animal_cleaned(event: AnimalCleanedEvent, satchel: &mut PlayerSatchel) -> (r: CareApplyOutcome)
    ensures
        care_apply_effect(
            event.animal_id,
            AnimalStat::Cleanliness,
            event.delta.0.0,
            event.required_item,
            old(satchel).slots@,
            final(satchel).slots@,
            r,
        ),
{
    apply_care(event.animal_id, AnimalStat::Cleanliness, event.delta.0.0, event.required_item, satchel)
}

// ---------------------------------------------------------
// Dropping, navigation and the faced target
// ---------------------------------------------------------

/// Drop the first carried item; the message to show, or nothing for an
/// empty satchel.
pub fn perform_drop(satchel: &mut PlayerSatchel) -> (r: Option<String>)
    ensures
        find_occupied(old(satchel).slots@, 0) < 2 ==> {
            &&& r matches Some(m) && m@ == dropped_message(old(satchel).slots@[find_occupied(old(satchel).slots@, 0)]->0)
            &&& final(satchel).slots@ == dropped(old(satchel).slots@)
        },
        find_occupied(old(satchel).slots@, 0) >= 2 ==> r is None && final(satchel).slots@ == old(satchel).slots@,
{
    match try_drop_item(satchel) {
        Ok(item) => Some(concat2("Dropped ", item_display_name(item))),
        Err(_) => None,
    }
}

/// What a drop request does: with tile interaction allowed and a player, the
/// first carried item is dropped (with its message); otherwise, or with an
/// empty satchel, nothing changes.
pub open spec fn drop_effect(
    screen: Screen,
    menu: Menu,
    player_present: bool,
    before: Seq<Option<ItemId>>,
    after: Seq<Option<ItemId>>,
    r: Option<String>,
) -> bool {
    if spec_tile_interaction_allowed(screen, menu) && player_present && find_occupied(before, 0) < 2 {
        &&& r matches Some(m) && m@ == dropped_message(before[find_occupied(before, 0)]->0)
        &&& after == dropped(before)
    } else {
        r is None && after == before
    }
}

/// Handle a drop request (see [`drop_effect`]).
pub fn on_interaction_drop_item(screen: Screen, menu: Menu, player_present: bool, satchel: &mut PlayerSatchel) -> (r: Option<String>)
    ensures
        drop_effect(screen, menu, player_present, old(satchel).slots@, final(satchel).slots@, r),
{
    if !tile_interaction_allowed(screen, menu) || !player_present {
        return None;
    }
    perform_drop(satchel)
}

/// Handle a picker navigation request: with a player, move the cursor one
/// row. Returns whether the request was handled (the caller then clears the
/// player's movement intent).
pub fn on_interaction_navigate_care_menu(
    care_menu: &mut CareMenuState,
    direction: crate::menus_model::ListMenuDirection,
    player_present: bool,
) -> (handled: bool)
    requires
        old(care_menu).list.options@.len() <= i32::MAX,
        player_present && old(care_menu).list.options@.len() > 0
            ==> i32::MIN <= (old(care_menu).list.cursor as i32) + direction.spec_delta() <= i32::MAX,
    ensures
        handled == player_present,
        final(care_menu).menu_id == old(care_menu).menu_id,
        final(care_menu).list.options@ == old(care_menu).list.options@,
        !player_present || old(care_menu).list.options@.len() == 0
            ==> final(care_menu).list.cursor == old(care_menu).list.cursor,
        player_present && old(care_menu).list.options@.len() > 0 ==> final(care_menu).list.cursor
            == wrapped_cursor(
            (old(care_menu).list.cursor as i32) as int,
            direction.spec_delta(),
            old(care_menu).list.options@.len() as int,
        ),
{
    if !player_present {
        return false;
    }
    care_menu_move_cursor(care_menu, direction.delta());
    true
}

/// Index of the first interactable of `interactables` in reach of `player`;
/// `interactables.len()` when there is none.
pub open spec fn first_in_reach(player: TilePosition, interactables: Seq<(u64, TilePosition)>, from: int) -> int
    decreases interactables.len() - from,
{
    if from < 0 || from >= interactables.len() {
        interactables.len() as int
    } else if tile_distance(player, interactables[from].1) <= 1 {
        from
    } else {
        first_in_reach(player, interactables, from + 1)
    }
}

/// The interactable the player faces: the first, in the given order, on or
/// orthogonally next to the player's tile. None without a single player.
pub fn update_interaction_target(player: Option<TilePosition>, interactables: &Vec<(u64, TilePosition)>) -> (r: Option<u64>)
    ensures
        player is None ==> r is None,
        player matches Some(p) ==> {
            let idx = first_in_reach(p, interactables@, 0);
            &&& idx < interactables@.len() ==> r == Some(interactables@[idx].0)
            &&& idx >= interactables@.len() ==> r is None
        },
{
    let p = match player {
        None => return None,
        Some(p) => p,
    };
    let mut i: usize = 0;
    while i < interactables.len()
        invariant
            0 <= i <= interactables@.len(),
            player == Some(p),
            first_in_reach(p, interactables@, 0) == first_in_reach(p, interactables@, i as int),
        decreases interactables.len() - i,
    {
        let (entity, tile) = interactables[i];
        if can_interact(p, tile) {
            return Some(entity);
        }
        i += 1;
    }
    None
}

// ---------------------------------------------------------
// Care item-picker presentation
// ---------------------------------------------------------

pub open spec fn spec_care_menu_title(menu_id: Option<CareMenuId>) -> Seq<char> {
    match menu_id {
        Some(CareMenuId::Fridge) => "Fridge supplies"@,
        None => "Choose an item"@,
    }
}

/// Title of the picker overlay.
pub fn care_menu_title(menu_id: Option<CareMenuId>) -> (r: &'static str)
    ensures
        r@ == spec_care_menu_title(menu_id),
{
    match menu_id {
        Some(CareMenuId::Fridge) => "Fridge supplies",
        None => "Choose an item",
    }
}

/// The highlighted row of the picker overlay: the cursor, when the menu is
/// known and the cursor is on a row.
pub fn care_picker_selected_index(care_menu: &CareMenuState) -> (r: Option<usize>)
    ensures
        r == (if picker_has_selection(*care_menu) { Some(care_menu.list.cursor) } else { None::<usize> }),
{
    if care_menu.menu_id.is_some() && care_menu.list.cursor < care_menu.list.options.len() {
        Some(care_menu.list.cursor)
    } else {
        None
    }
}

pub open spec fn spec_care_picker_empty_copy(care_menu: CareMenuState) -> Seq<char> {
    if care_menu.menu_id is None {
        "This item menu is unavailable. Press Esc to close."@
    } else {
        "No items are available. Press Esc to close."@
    }
}

/// Copy shown when the picker has no rows.
pub fn care_picker_empty_copy(care_menu: &CareMenuState) -> (r: &'static str)
    ensures
        r@ == spec_care_picker_empty_copy(*care_menu),
{
    if care_menu.menu_id.is_none() {
        "This item menu is unavailable. Press Esc to close."
    } else {
        "No items are available. Press Esc to close."
    }
}

/// Row labels of the picker overlay: the display names of the options, or
/// no rows when the menu is unknown.
pub fn care_picker_entries(care_menu: &CareMenuState) -> (r: Vec<&'static str>)
    ensures
        care_menu.menu_id is None ==> r@.len() == 0,
        care_menu.menu_id is Some ==> {
            &&& r@.len() == care_menu.list.options@.len()
            &&& forall|i: int| 0 <= i < r@.len() ==> (#[trigger] r@[i])@ == spec_item_display_name(care_menu.list.options@[i])
        },
{
    let mut out: Vec<&'static str> = Vec::new();
    if care_menu.menu_id.is_none() {
        return out;
    }
    let mut i: usize = 0;
    while i < care_menu.list.options.len()
        invariant
            care_menu.menu_id is Some,
            0 <= i <= care_menu.list.options@.len(),
            out@.len() == i,
            forall|k: int| 0 <= k < i ==> (#[trigger] out@[k])@ == spec_item_display_name(care_menu.list.options@[k]),
        decreases care_menu.list.options.len() - i,
    {
        out.push(item_display_name(care_menu.list.options[i]));
        i += 1;
    }
    out
}

/// Summary line of the picker overlay, e.g. `Satchel: 1/2 slots occupied`.
pub fn satchel_summary(satchel: &PlayerSatchel) -> (r: String)
    ensures
        r@ == "Satchel: "@ + decimal(carried_items(satchel.slots@).len()) + "/"@ + decimal(
            SATCHEL_MAX_SLOTS as nat,
        ) + " slots occupied"@,
{
    let count = satchel.occupied_count();
    let mut s = String::from_str("Satchel: ");
    let n = decimal_string(count as u64);
    s.append(n.as_str());
    s.append("/");
    let cap = decimal_string(SATCHEL_MAX_SLOTS as u64);
    s.append(cap.as_str());
    s.append(" slots occupied");
    s
}

} // verus!
