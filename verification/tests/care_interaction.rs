use alveus_idle::app_state::Menu;
use alveus_idle::configs::{care_menu_options, item_display_name, prep_recipe_for};
use alveus_idle::interaction::{
    care_menu_move_cursor, care_menu_set_cursor, care_outcome_message, care_picker_empty_copy, care_picker_entries,
    care_picker_selected_index, confirm_care_menu, handle_mini_chore, open_care_menu, satchel_summary,
    selected_care_menu_item, try_drop_item, try_enrich_animal, try_feed_animal, try_give_item, try_take_item,
    validate_has_item, CareMenuState, CareMessage, MiniChore, PlayerSatchel, EMPTY_CARE_MENU_MESSAGE,
    MISSING_CARE_MENU_MESSAGE,
};
use alveus_idle::stats::AnimalStat;
use alveus_idle::types::{AnimalId, CareMenuId, ChoreId, ItemId};

#[test]
fn care_outcome_message_matches_stat() {
    assert_eq!(care_outcome_message(AnimalId::PushPop, AnimalStat::Hunger), "Fed Push Pop");
    assert_eq!(care_outcome_message(AnimalId::Polly, AnimalStat::Cleanliness), "Cleaned Polly");
    assert_eq!(care_outcome_message(AnimalId::PushPop, AnimalStat::Happiness), "Enriched Push Pop");
}

#[test]
fn care_items_map_to_generic_entries_and_cursor_selection() {
    let mut care = CareMenuState::new(
        Some(CareMenuId::Fridge),
        vec![ItemId::RawVeggieTub, ItemId::TortoiseLeafyGreens],
    );
    assert_eq!(care_picker_entries(&care), vec!["Lettuce & Veggie Tub", "Tortoise Leafy Greens"]);
    assert_eq!(care_picker_selected_index(&care), Some(0));

    care.list.cursor = 1;
    assert_eq!(care_picker_selected_index(&care), Some(1));
}

#[test]
fn invalid_care_states_supply_domain_specific_empty_copy() {
    for (care_menu, expected) in [
        (
            CareMenuState::new(Some(CareMenuId::Fridge), Vec::new()),
            "No items are available. Press Esc to close.",
        ),
        (
            CareMenuState::new(None, vec![ItemId::RawVeggieTub]),
            "This item menu is unavailable. Press Esc to close.",
        ),
    ] {
        assert_eq!(care_picker_empty_copy(&care_menu), expected);
    }
}

#[test]
fn give_fills_first_free_slot_then_reports_full() {
    let mut satchel = PlayerSatchel::default();
    assert_eq!(try_give_item(&mut satchel, ItemId::MiniMirror), Ok(()));
    assert_eq!(satchel.slots, [Some(ItemId::MiniMirror), None]);
    assert_eq!(try_give_item(&mut satchel, ItemId::ChickenGrains), Ok(()));
    assert_eq!(satchel.slots, [Some(ItemId::MiniMirror), Some(ItemId::ChickenGrains)]);
    assert_eq!(try_give_item(&mut satchel, ItemId::RawVeggieTub), Err("Satchel is full"));
    assert_eq!(satchel.slots, [Some(ItemId::MiniMirror), Some(ItemId::ChickenGrains)]);
}

#[test]
fn give_then_take_restores_the_satchel() {
    let mut satchel = PlayerSatchel { slots: [None, Some(ItemId::ChickenGrains)] };
    let before = satchel;
    assert_eq!(try_give_item(&mut satchel, ItemId::MiniMirror), Ok(()));
    assert_eq!(try_take_item(&mut satchel, ItemId::MiniMirror), Ok(()));
    assert_eq!(satchel, before);
}

#[test]
fn take_reports_why_it_failed() {
    let mut empty = PlayerSatchel::default();
    assert_eq!(try_take_item(&mut empty, ItemId::MiniMirror), Err("You are not carrying any food"));
    let mut wrong = PlayerSatchel { slots: [Some(ItemId::ChickenGrains), None] };
    assert_eq!(try_take_item(&mut wrong, ItemId::MiniMirror), Err("Wrong item for this feeding dish"));
    assert_eq!(wrong.slots, [Some(ItemId::ChickenGrains), None]);
    assert_eq!(validate_has_item(&wrong, ItemId::ChickenGrains), Ok(()));
    assert_eq!(validate_has_item(&wrong, ItemId::MiniMirror), Err("Wrong item for this feeding dish"));
}

#[test]
fn drop_removes_the_first_carried_item() {
    let mut satchel = PlayerSatchel { slots: [None, Some(ItemId::ChickenGrains)] };
    assert_eq!(try_drop_item(&mut satchel), Ok(ItemId::ChickenGrains));
    assert_eq!(satchel.slots, [None, None]);
    assert_eq!(try_drop_item(&mut satchel), Err("Satchel is already empty"));
}

#[test]
fn feed_and_enrich_consume_their_items() {
    let mut satchel = PlayerSatchel { slots: [Some(ItemId::TortoiseLeafyGreens), Some(ItemId::MiniMirror)] };
    assert_eq!(try_feed_animal(&mut satchel, ItemId::TortoiseLeafyGreens), Ok(()));
    assert_eq!(satchel.slots, [None, Some(ItemId::MiniMirror)]);
    assert_eq!(try_enrich_animal(&mut satchel, None), Ok(()));
    assert_eq!(satchel.slots, [None, Some(ItemId::MiniMirror)]);
    assert_eq!(try_enrich_animal(&mut satchel, Some(ItemId::MiniMirror)), Ok(()));
    assert_eq!(satchel.slots, [None, None]);
}

#[test]
fn fridge_picker_round_trip() {
    let mut care = CareMenuState::default();
    let mut next = None;
    open_care_menu(CareMenuId::Fridge, &mut care, &mut next);
    assert_eq!(next, Some(Menu::CareItemPicker));
    assert_eq!(care.list.options, care_menu_options(CareMenuId::Fridge));
    care_menu_move_cursor(&mut care, -1);
    assert_eq!(care.list.cursor, 1);
    assert!(!care_menu_set_cursor(&mut care, 1));
    assert!(care_menu_set_cursor(&mut care, 0));
    assert_eq!(selected_care_menu_item(&care), Ok(ItemId::RawVeggieTub));

    let mut satchel = PlayerSatchel::default();
    let message = confirm_care_menu(&mut care, &mut satchel, &mut next);
    assert_eq!(message, CareMessage::Feedback("Took Lettuce & Veggie Tub".to_string()));
    assert_eq!(satchel.slots, [Some(ItemId::RawVeggieTub), None]);
    assert_eq!(next, Some(Menu::Closed));
    assert_eq!(care.menu_id, None);
    assert!(care.list.options.is_empty());
}

#[test]
fn confirm_reports_missing_empty_and_full() {
    let mut satchel = PlayerSatchel::default();
    let mut next = None;
    let mut missing = CareMenuState::new(None, vec![ItemId::RawVeggieTub]);
    assert_eq!(selected_care_menu_item(&missing), Err(MISSING_CARE_MENU_MESSAGE));
    assert_eq!(
        confirm_care_menu(&mut missing, &mut satchel, &mut next),
        CareMessage::Pickup(MISSING_CARE_MENU_MESSAGE.to_string())
    );
    let mut empty = CareMenuState::new(Some(CareMenuId::Fridge), Vec::new());
    assert_eq!(
        confirm_care_menu(&mut empty, &mut satchel, &mut next),
        CareMessage::Pickup(EMPTY_CARE_MENU_MESSAGE.to_string())
    );
    let mut full = PlayerSatchel { slots: [Some(ItemId::MiniMirror), Some(ItemId::MiniMirror)] };
    let mut care = CareMenuState::new(Some(CareMenuId::Fridge), vec![ItemId::RawVeggieTub]);
    assert_eq!(
        confirm_care_menu(&mut care, &mut full, &mut next),
        CareMessage::Pickup("Satchel is full".to_string())
    );
    assert_eq!(satchel.slots, [None, None]);
}

#[test]
fn chopping_veggies_prepares_the_diet() {
    assert!(prep_recipe_for(ChoreId::ChopVeggies, ItemId::RawVeggieTub).is_some());
    assert!(prep_recipe_for(ChoreId::ChopVeggies, ItemId::MiniMirror).is_none());
    let chore = MiniChore {
        chore_id: ChoreId::ChopVeggies,
        required_item: Some(ItemId::RawVeggieTub),
        output_item: None,
        prompt: "Chop veggies".to_string(),
    };
    let mut satchel = PlayerSatchel { slots: [Some(ItemId::RawVeggieTub), None] };
    assert_eq!(
        handle_mini_chore(&chore, &mut satchel),
        CareMessage::Feedback("Prepared Prepared Veggie Diet".to_string())
    );
    assert_eq!(satchel.slots, [Some(ItemId::PreparedVeggieDiet), None]);

    let mut empty = PlayerSatchel::default();
    assert_eq!(
        handle_mini_chore(&chore, &mut empty),
        CareMessage::Pickup("You are not carrying any food".to_string())
    );
}

#[test]
fn satchel_summary_counts_slots() {
    let satchel = PlayerSatchel { slots: [None, Some(ItemId::MiniMirror)] };
    assert_eq!(satchel_summary(&satchel), "Satchel: 1/2 slots occupied");
    assert_eq!(item_display_name(ItemId::MiniMirror), "Mini Mirror");
}
