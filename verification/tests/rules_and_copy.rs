use alveus_idle::app_state::{InRoom, Menu, Screen};
use alveus_idle::collision::{
    CollisionLoadFailure, CollisionLoadFailures, CollisionMapKey, CollisionMasks,
    COLLISION_LOAD_REASON_ROOT_ASSET_FAILED,
};
use alveus_idle::command::{on_menu_flow_request, BuildingEntrance, GameCommand, MenuFlowRequest, MovementIntent, NextStates};
use alveus_idle::input::{
    action_effect, spawn_input_contexts, ActionEffect, Control, InputAction, InputContext, Key,
    held_direction_command, picker_press_command, input_layer, navigate_care_picker, navigate_menu, sync_input_contexts, InputLayer, MenuNavigation,
};
use alveus_idle::loading::{
    loading_complete, loading_failure_return, loading_timeout_watchdog, surface_loading_diagnostic_on_title,
    LoadingTimeoutDiagnostic, LoadingTiming,
};
use alveus_idle::menus::{
    sync_action_cursor, activate_main_menu_action, list_menu_layout, main_menu_actions, overlay_menu_layout, ListMenuSpec,
    MainMenuAction, MainMenuEffect, MenuBody, MenuRow, OverlayMenuSpec,
};
use alveus_idle::menus_model::ListMenuDirection;
use alveus_idle::room::resident_spawn_tile;
use alveus_idle::movement::{finish_movement, step_tile, update_desired_position, Mover};
use alveus_idle::save::{is_valid_save_format, is_valid_save_keys, save_startup, SaveStartup};
use alveus_idle::stat_controls::{
    debug_stats_control, offline_animal_decay, trigger_enclosure_decay, worsen_all_stats, DebugKey,
};
use alveus_idle::stats::{AnimalStat, StatTarget};
use alveus_idle::text::{concat3, decimal_string};
use alveus_idle::toast::{
    care_feedback_toast, plan_dismiss, plan_toast, player_entered_building, ActiveToastInfo, SlideStart,
    TriggerToastEvent, TOAST_DEFAULT_DELAY_MS,
};
use alveus_idle::types::{AnimalId, EnclosureId, TilePosition};

#[test]
fn care_picker_owns_input_before_other_menus() {
    assert_eq!(input_layer(Screen::Gameplay, Menu::CareItemPicker), InputLayer::CarePicker);
    assert_eq!(input_layer(Screen::Gameplay, Menu::Pause), InputLayer::Menu);
    assert_eq!(input_layer(Screen::InRoom(InRoom::NutritionHouse), Menu::Closed), InputLayer::Gameplay);
    assert_eq!(input_layer(Screen::Splash, Menu::Closed), InputLayer::Splash);
    assert_eq!(input_layer(Screen::Title, Menu::Closed), InputLayer::Idle);
}

#[test]
fn gameplay_and_picker_contexts_switch_exclusively() {
    let mut last = None;
    let gameplay = sync_input_contexts(Screen::Gameplay, Menu::Closed, &mut last).unwrap();
    assert!(gameplay.gameplay && gameplay.debug && !gameplay.care_picker && !gameplay.menu);
    assert_eq!(sync_input_contexts(Screen::Gameplay, Menu::Closed, &mut last), None);
    let picker = sync_input_contexts(Screen::Gameplay, Menu::CareItemPicker, &mut last).unwrap();
    assert!(picker.care_picker && !picker.gameplay && !picker.debug && !picker.clear_focus);
    assert_eq!(last, Some(InputLayer::CarePicker));
}

#[test]
fn menu_navigation_by_direction() {
    assert_eq!(
        navigate_menu(Menu::Main, Some(MovementIntent::Up)),
        MenuNavigation::Command(GameCommand::NavigateListMenu(ListMenuDirection::Up))
    );
    assert_eq!(navigate_menu(Menu::Pause, Some(MovementIntent::Left)), MenuNavigation::Ignore);
    assert_eq!(navigate_menu(Menu::Settings, Some(MovementIntent::Left)), MenuNavigation::Focus(MovementIntent::Left));
    assert_eq!(navigate_menu(Menu::Main, None), MenuNavigation::Ignore);
    assert_eq!(navigate_care_picker(true), GameCommand::NavigateListMenu(ListMenuDirection::Up));
    assert_eq!(navigate_care_picker(false), GameCommand::NavigateListMenu(ListMenuDirection::Down));
}

#[test]
fn save_format_needs_a_resources_or_entities_key() {
    assert!(is_valid_save_format("{\"resources\": (), \"other\": 1}"));
    assert!(is_valid_save_format("{\"entities\": []}"));
    assert!(!is_valid_save_format("{\"animals\": []}"));
    assert!(!is_valid_save_format("[1, 2, 3]"));
    assert!(!is_valid_save_format("{ not ron"));
    assert!(is_valid_save_keys(&Some(vec![None, Some("entities".to_string())])));
    assert!(!is_valid_save_keys(&Some(vec![Some("Entities".to_string())])));
    assert!(!is_valid_save_keys(&None));
}

#[test]
fn save_startup_decision() {
    assert_eq!(save_startup(true, Some("garbage")), SaveStartup::KeepExisting);
    assert_eq!(save_startup(false, Some("{\"resources\": {}}")), SaveStartup::LoadSave);
    assert_eq!(save_startup(false, Some("(version: 1)")), SaveStartup::NewSave);
    assert_eq!(save_startup(false, None), SaveStartup::NewSave);
}

#[test]
fn toast_reuses_the_active_toast() {
    let event = TriggerToastEvent::new("Hello".to_string());
    assert_eq!(event.duration_ms, Some(TOAST_DEFAULT_DELAY_MS));
    let fresh = plan_toast(None, &event);
    assert!(fresh.spawn_new);
    assert_eq!(fresh.slide_in_from, SlideStart::Offscreen);
    assert!(fresh.dismissal_marker);
    let active = ActiveToastInfo { bottom_is_px: true, dismissal_marker: false };
    let reused = plan_toast(Some(active), &TriggerToastEvent::presence("Stay".to_string()));
    assert!(!reused.spawn_new);
    assert_eq!(reused.slide_in_from, SlideStart::Current);
    assert_eq!(reused.hold_ms, None);
    assert!(!reused.dismissal_marker);
    assert_eq!(plan_dismiss(None), None);
    assert_eq!(
        plan_dismiss(Some(ActiveToastInfo { bottom_is_px: false, dismissal_marker: true })),
        Some(SlideStart::Onscreen)
    );
}

#[test]
fn entrance_prompt_and_care_feedback_copy() {
    let prompt = player_entered_building(BuildingEntrance::NutritionHouse);
    assert_eq!(prompt.message, "Press [Enter] to enter Nutrition House");
    assert_eq!(prompt.duration_ms, None);
    assert_eq!(care_feedback_toast("Fed Polly".to_string()).duration_ms, Some(TOAST_DEFAULT_DELAY_MS));
}

fn failure() -> CollisionLoadFailure {
    CollisionLoadFailure {
        key: CollisionMapKey::Overview,
        asset_path: CollisionMapKey::Overview.asset_path().to_string(),
        reason: COLLISION_LOAD_REASON_ROOT_ASSET_FAILED.to_string(),
    }
}

#[test]
fn loading_returns_to_title_after_failure_delay() {
    let timing = LoadingTiming { timeout_ms: 10_000, failure_return_ms: 1_500 };
    let mut failures = CollisionLoadFailures::default();
    assert_eq!(loading_failure_return(Some(5_000), timing, &failures), None);
    failures.record(failure());
    assert_eq!(loading_failure_return(Some(1_000), timing, &failures), None);
    assert_eq!(loading_failure_return(Some(1_500), timing, &failures), Some(Screen::Title));
    assert!(!loading_complete(&failures, true, &CollisionMasks::default()));
    let toast = surface_loading_diagnostic_on_title(&failures, &LoadingTimeoutDiagnostic::default()).unwrap();
    assert_eq!(toast.duration_ms, None);
    assert!(toast.message.contains("Could not load"));
}

#[test]
fn loading_watchdog_names_missing_maps() {
    let timing = LoadingTiming { timeout_ms: 10_000, failure_return_ms: 1_500 };
    let failures = CollisionLoadFailures::default();
    let mut masks = CollisionMasks::default();
    masks.set_static_mask(CollisionMapKey::Overview, Vec::new());
    let mut diag = LoadingTimeoutDiagnostic::default();
    assert_eq!(
        loading_timeout_watchdog(Some(9_999), timing, true, &masks, &failures, true, false, &mut diag),
        None
    );
    assert!(!diag.timed_out);
    assert_eq!(
        loading_timeout_watchdog(Some(10_000), timing, true, &masks, &failures, true, false, &mut diag),
        Some(Screen::Title)
    );
    assert!(diag.timed_out);
    assert_eq!(
        diag.missing_keys,
        vec!["Enclosure(NutritionHousePlaypen)".to_string(), "Enclosure(PushPopEnclosure)".to_string()]
    );
    assert_eq!(diag.player_message(), Some("Loading timed out. Returning to title…".to_string()));
    let toast = surface_loading_diagnostic_on_title(&failures, &diag).unwrap();
    assert_eq!(toast.message, "Loading timed out. Returning to title…");
    diag.clear();
    assert!(!diag.timed_out && diag.missing_keys.is_empty());
    assert_eq!(surface_loading_diagnostic_on_title(&failures, &diag), None);
}

#[test]
fn steps_saturate_at_the_grid_edges() {
    let origin = TilePosition { x: 0, y: 0 };
    assert_eq!(step_tile(origin, MovementIntent::Down), origin);
    assert_eq!(step_tile(origin, MovementIntent::Left), origin);
    assert_eq!(step_tile(origin, MovementIntent::Up), TilePosition { x: 0, y: 1 });
    assert_eq!(step_tile(origin, MovementIntent::Right), TilePosition { x: 1, y: 0 });
}

#[test]
fn mover_targets_walkable_tiles_only() {
    let key = CollisionMapKey::Enclosure(EnclosureId::PushPopEnclosure);
    let mut masks = CollisionMasks::default();
    masks.set_static_mask(key, vec![TilePosition { x: 2, y: 3 }]);
    let here = TilePosition { x: 2, y: 2 };
    let mut mover = Mover { entity: 1, intent: Some(MovementIntent::Up), desired: here, current: here, is_dynamic_obstacle: false };
    update_desired_position(&masks, &Vec::new(), &Vec::new(), key, &mut mover);
    assert_eq!(mover.desired, here);
    assert_eq!(mover.intent, None);
    mover.intent = Some(MovementIntent::Right);
    update_desired_position(&masks, &Vec::new(), &Vec::new(), key, &mut mover);
    assert_eq!(mover.desired, TilePosition { x: 3, y: 2 });
    let mut current = here;
    assert!(!finish_movement(mover.desired, &mut current, false));
    assert!(finish_movement(mover.desired, &mut current, true));
    assert_eq!(current, TilePosition { x: 3, y: 2 });
}

#[test]
fn overlay_layout_drops_stale_selection() {
    let spec = OverlayMenuSpec::new("Fridge supplies".to_string(), vec!["A".to_string(), "B".to_string()])
        .with_selected(Some(5));
    let layout = overlay_menu_layout(spec);
    assert_eq!(layout.title, "Fridge supplies");
    assert_eq!(
        layout.body,
        MenuBody::Rows(vec![
            MenuRow { label: "A".to_string(), selected: false },
            MenuRow { label: "B".to_string(), selected: false },
        ])
    );
    let empty = overlay_menu_layout(OverlayMenuSpec::new("T".to_string(), Vec::new()));
    assert_eq!(empty.body, MenuBody::Empty("No options are available.".to_string()));
    let list = list_menu_layout(&vec!["Play".to_string()], 0, ListMenuSpec::actions());
    assert_eq!(list.row_gap_px, 20);
    assert_eq!(list.body, MenuBody::Rows(vec![MenuRow { label: "Play".to_string(), selected: true }]));
}

#[test]
fn main_menu_actions_and_effects() {
    assert_eq!(
        main_menu_actions(false),
        vec![MainMenuAction::Play, MainMenuAction::Settings, MainMenuAction::Credits]
    );
    assert_eq!(main_menu_actions(true).len(), 4);
    assert_eq!(activate_main_menu_action(MainMenuAction::Exit), MainMenuEffect::ExitApp);
    assert_eq!(
        activate_main_menu_action(MainMenuAction::Play),
        MainMenuEffect::Command(GameCommand::Play)
    );
    assert_eq!(MainMenuAction::Credits.label(), "Credits");
}

#[test]
fn debug_keys_raise_stat_events() {
    let animals = vec![AnimalId::Polly];
    let enclosures = vec![EnclosureId::Pasture];
    let actions = debug_stats_control(&vec![DebugKey::Digit1, DebugKey::KeyM], &animals, &enclosures);
    assert_eq!(actions.improve.len(), 1);
    assert_eq!(actions.improve[0].target, StatTarget::Animal { id: AnimalId::Polly, stat: AnimalStat::Hunger });
    assert_eq!(actions.improve[0].amount, 250);
    assert_eq!(actions.worsen, worsen_all_stats(&animals, &enclosures));
    assert_eq!(actions.worsen.len(), 3);
    assert!(!actions.advance_four_hours);
    assert!(debug_stats_control(&vec![DebugKey::NumpadAdd], &animals, &enclosures).advance_four_hours);
}

#[test]
fn decay_events_skip_zero_amounts() {
    assert_eq!(trigger_enclosure_decay(EnclosureId::Pasture, 0), None);
    assert_eq!(trigger_enclosure_decay(EnclosureId::Pasture, 7).unwrap().amount, 7);
    assert_eq!(offline_animal_decay(AnimalId::Siren, 0, 4).len(), 1);
    assert_eq!(offline_animal_decay(AnimalId::Siren, 3, 4).len(), 2);
}

#[test]
fn text_helpers() {
    assert_eq!(decimal_string(0), "0");
    assert_eq!(decimal_string(1234567890123), "1234567890123");
    assert_eq!(concat3("a", "bc", ""), "abc");
}

#[test]
fn held_keys_pick_one_walk_direction() {
    assert_eq!(held_direction_command(true, true, true, true), GameCommand::Move(MovementIntent::Up));
    assert_eq!(held_direction_command(false, true, true, false), GameCommand::Move(MovementIntent::Down));
    assert_eq!(held_direction_command(false, false, true, true), GameCommand::Move(MovementIntent::Left));
    assert_eq!(held_direction_command(false, false, false, true), GameCommand::Move(MovementIntent::Right));
    assert_eq!(held_direction_command(false, false, false, false), GameCommand::MoveStop);
    assert_eq!(picker_press_command(true, true), Some(GameCommand::Move(MovementIntent::Up)));
    assert_eq!(picker_press_command(false, true), Some(GameCommand::Move(MovementIntent::Down)));
    assert_eq!(picker_press_command(false, false), None);
}

#[test]
fn resident_spawns_on_saved_tile_or_nearby() {
    let key = CollisionMapKey::Enclosure(EnclosureId::PushPopEnclosure);
    let mut masks = CollisionMasks::default();
    masks.set_static_mask(key, vec![TilePosition { x: 8, y: 4 }]);
    let room_spawn = TilePosition { x: 6, y: 2 };
    let saved = vec![(AnimalId::PushPop, TilePosition { x: 6, y: 6 })];
    assert_eq!(
        resident_spawn_tile(AnimalId::PushPop, &saved, room_spawn, key, &masks, &Vec::new(), &Vec::new()),
        TilePosition { x: 6, y: 6 }
    );
    let home_blocked = resident_spawn_tile(AnimalId::PushPop, &Vec::new(), room_spawn, key, &masks, &Vec::new(), &Vec::new());
    assert_ne!(home_blocked, TilePosition { x: 8, y: 4 });
    assert!(masks.is_statically_walkable(key, home_blocked));
    assert_eq!(
        resident_spawn_tile(AnimalId::Siren, &Vec::new(), room_spawn, key, &masks, &Vec::new(), &Vec::new()),
        room_spawn
    );
}

#[test]
fn cursor_round_trip_example() {
    let mut menu = alveus_idle::menus_model::ListMenuState::new(vec![1, 2, 3, 4]);
    menu.cursor = 1;
    assert!(menu.move_cursor(6));
    assert_eq!(menu.cursor, 3);
    assert!(menu.move_cursor(-6));
    assert_eq!(menu.cursor, 1);
}

fn binding_has(context: InputContext, action: InputAction, control: Control) -> bool {
    spawn_input_contexts()
        .iter()
        .any(|b| b.context == context && b.action == action && b.controls.contains(&control))
}

#[test]
fn care_navigation_mock_emits_one_semantic_move() {
    assert_eq!(action_effect(InputAction::CareNavigate), ActionEffect::Directional);
    assert_eq!(navigate_care_picker(true), GameCommand::NavigateListMenu(ListMenuDirection::Up));
}

#[test]
fn care_keyboard_navigation_fires_once_until_released() {
    assert!(binding_has(
        InputContext::CarePicker,
        InputAction::CareNavigate,
        Control::KeyAxis(Key::ArrowUp, Key::ArrowDown)
    ));
    assert_eq!(navigate_care_picker(false), GameCommand::NavigateListMenu(ListMenuDirection::Down));
}

#[test]
fn held_back_does_not_bleed_into_new_context() {
    let mut last = None;
    assert!(sync_input_contexts(Screen::Gameplay, Menu::Closed, &mut last).unwrap().gameplay);
    assert!(binding_has(InputContext::Gameplay, InputAction::Pause, Control::Key(Key::Escape)));
    assert_eq!(action_effect(InputAction::Pause), ActionEffect::Command(GameCommand::PauseToggle));

    let picker = sync_input_contexts(Screen::Gameplay, Menu::CareItemPicker, &mut last).unwrap();
    assert!(!picker.gameplay && picker.care_picker);
    assert!(binding_has(InputContext::CarePicker, InputAction::CareBack, Control::Key(Key::Escape)));
    assert_eq!(action_effect(InputAction::CareBack), ActionEffect::Command(GameCommand::Back));
}

#[test]
fn gameplay_and_care_contexts_are_exclusive() {
    let mut last = None;
    let activity = sync_input_contexts(Screen::Gameplay, Menu::Closed, &mut last).unwrap();
    assert!(activity.gameplay);
    assert!(!activity.care_picker);
}

#[test]
fn main_menu_composes_standalone_shell_and_action_list() {
    let actions = main_menu_actions(true);
    assert_eq!(actions.len(), 4);
    let labels: Vec<String> = actions.iter().map(|a| a.label().to_string()).collect();
    let layout = list_menu_layout(&labels, 0, ListMenuSpec::actions());
    match &layout.body {
        MenuBody::Rows(rows) => assert_eq!(rows.len(), 4),
        MenuBody::Empty(_) => panic!("one main action list"),
    }
    let mut lists = vec![(7u64, alveus_idle::menus_model::ListMenuState::new(actions))];
    sync_action_cursor(Some((7, 1)), &mut lists);
    assert_eq!(lists[0].1.cursor, 1);
    sync_action_cursor(Some((8, 2)), &mut lists);
    assert_eq!(lists[0].1.cursor, 1);
}

#[test]
fn plugin_owns_app_wide_state_defaults_and_transitions() {
    assert_eq!(Screen::default(), Screen::Splash);
    assert_eq!(Menu::default(), Menu::Closed);
    assert_eq!(alveus_idle::app_state::Pause::default(), alveus_idle::app_state::Pause(false));
    let mut next = NextStates::default();
    on_menu_flow_request(Screen::Title, Menu::Main, MenuFlowRequest::OpenSettings, &mut next);
    assert_eq!(next.menu, Some(Menu::Settings));
}

#[test]
fn interaction_reach_is_adjacency_for_far_tiles_too() {
    let far = TilePosition { x: u32::MAX, y: u32::MAX };
    let origin = TilePosition { x: 0, y: 0 };
    assert!(!alveus_idle::content::can_interact(far, origin));
    assert!(alveus_idle::content::can_interact(origin, TilePosition { x: 0, y: 1 }));
    assert!(alveus_idle::content::can_interact(origin, origin));
    assert!(!alveus_idle::content::can_interact(origin, TilePosition { x: 1, y: 1 }));
}
