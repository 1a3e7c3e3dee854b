use alveus_idle::app_state::{all_menus, all_screens, tile_interaction_allowed, InRoom, Menu, Pause, Screen};
use alveus_idle::command::{
    apply_game_command, go_back_menu, on_list_menu_navigate_request, on_menu_flow_request, on_movement_request,
    on_play_request, on_room_request, route_game_command, try_exit_room, BuildingEntrance, GameCommand, GameWorld,
    HostAction, InteractionRequest, MenuFlowRequest, MovementIntent, MovementRequest, NextStates, PlayerSpawnPoint,
    PlayerState, RoomRequest, RoutedRequest, StepRequest,
};
use alveus_idle::interaction::{CareMenuState, PlayerSatchel};
use alveus_idle::menus_model::{ListMenuDirection, ListMenuState};
use alveus_idle::stats::{AnimalStat, StatChangeOutcome, StatTarget, StatsWorld};
use alveus_idle::types::{AnimalId, CareMenuId, ItemId, Stat, TilePosition};

fn expected_tile_interaction_policy(screen: Screen, menu: Menu) -> bool {
    match screen {
        Screen::Gameplay | Screen::InRoom(_) => match menu {
            Menu::Closed => true,
            Menu::Main | Menu::Credits | Menu::Settings | Menu::Pause | Menu::CareItemPicker => false,
        },
        Screen::Splash | Screen::Title | Screen::Loading | Screen::FatalError => match menu {
            Menu::Closed | Menu::Main | Menu::Credits | Menu::Settings | Menu::Pause | Menu::CareItemPicker => false,
        },
    }
}

#[test]
fn tile_interaction_policy_covers_every_screen_and_menu_variant() {
    for screen in all_screens() {
        for menu in all_menus() {
            assert_eq!(
                tile_interaction_allowed(screen, menu),
                expected_tile_interaction_policy(screen, menu),
                "unexpected tile-interaction policy for {screen:?} + {menu:?}"
            );
        }
    }
}

#[test]
fn state_lists_cover_every_room() {
    let screens = all_screens();
    for room in [InRoom::NutritionHouse, InRoom::PushPopEnclosure, InRoom::Pasture, InRoom::ReptileEnclosure] {
        assert!(screens.contains(&Screen::InRoom(room)));
    }
    assert_eq!(all_menus().len(), 6);
    assert_eq!(Screen::default(), Screen::Splash);
    assert_eq!(Menu::default(), Menu::Closed);
    assert_eq!(Pause::default(), Pause(false));
}

#[test]
fn fatal_error_drops_all_but_harness_verbs() {
    assert_eq!(route_game_command(Screen::FatalError, Menu::Closed, GameCommand::Interact), None);
    assert_eq!(
        route_game_command(Screen::FatalError, Menu::Closed, GameCommand::AdvanceFrames(2)),
        Some(RoutedRequest::AdvanceFrames(2))
    );
    assert_eq!(
        route_game_command(Screen::FatalError, Menu::Closed, GameCommand::Screenshot { path: "a.png".to_string() }),
        Some(RoutedRequest::Screenshot { path: "a.png".to_string() })
    );
}

#[test]
fn care_picker_takes_over_back_continue_and_navigation() {
    let picker = Menu::CareItemPicker;
    assert_eq!(
        route_game_command(Screen::Gameplay, picker, GameCommand::Back),
        Some(RoutedRequest::Interaction(InteractionRequest::CancelCareMenu))
    );
    assert_eq!(
        route_game_command(Screen::Gameplay, picker, GameCommand::Continue),
        Some(RoutedRequest::Interaction(InteractionRequest::ConfirmCareMenu))
    );
    assert_eq!(
        route_game_command(Screen::Gameplay, picker, GameCommand::NavigateListMenu(ListMenuDirection::Down)),
        Some(RoutedRequest::Interaction(InteractionRequest::NavigateCareMenu(ListMenuDirection::Down)))
    );
    assert_eq!(
        route_game_command(Screen::Title, Menu::Main, GameCommand::Back),
        Some(RoutedRequest::MenuFlow(MenuFlowRequest::Back))
    );
    assert_eq!(
        route_game_command(Screen::Gameplay, Menu::Closed, GameCommand::Move(MovementIntent::Left)),
        Some(RoutedRequest::Movement(MovementRequest::Move(MovementIntent::Left)))
    );
}

#[test]
fn pause_toggle_opens_then_closes() {
    let mut next = NextStates::default();
    on_menu_flow_request(Screen::Gameplay, Menu::Closed, MenuFlowRequest::PauseToggle, &mut next);
    assert_eq!(next.menu, Some(Menu::Pause));
    assert_eq!(next.pause, Some(Pause(true)));
    let mut next2 = NextStates::default();
    on_menu_flow_request(Screen::Gameplay, Menu::Pause, MenuFlowRequest::PauseToggle, &mut next2);
    assert_eq!(next2.menu, Some(Menu::Closed));
    let mut untouched = NextStates::default();
    on_menu_flow_request(Screen::Title, Menu::Main, MenuFlowRequest::PauseToggle, &mut untouched);
    assert_eq!(untouched, NextStates::default());
}

#[test]
fn back_returns_to_the_opening_menu() {
    let mut next = None;
    go_back_menu(Screen::Title, Menu::Settings, &mut next);
    assert_eq!(next, Some(Menu::Main));
    go_back_menu(Screen::Gameplay, Menu::Settings, &mut next);
    assert_eq!(next, Some(Menu::Pause));
    go_back_menu(Screen::Title, Menu::Credits, &mut next);
    assert_eq!(next, Some(Menu::Main));
    let mut untouched = Some(Menu::Credits);
    go_back_menu(Screen::Title, Menu::Main, &mut untouched);
    assert_eq!(untouched, Some(Menu::Credits));
}

#[test]
fn movement_needs_tile_interaction_but_stop_always_applies() {
    let mut intent = None;
    on_movement_request(Screen::Gameplay, Menu::Closed, MovementRequest::Move(MovementIntent::Up), true, &mut intent);
    assert_eq!(intent, Some(MovementIntent::Up));
    on_movement_request(Screen::Gameplay, Menu::Pause, MovementRequest::Move(MovementIntent::Down), true, &mut intent);
    assert_eq!(intent, Some(MovementIntent::Up));
    on_movement_request(Screen::Gameplay, Menu::Pause, MovementRequest::Stop, true, &mut intent);
    assert_eq!(intent, None);
    on_movement_request(Screen::Gameplay, Menu::Closed, MovementRequest::Move(MovementIntent::Up), false, &mut intent);
    assert_eq!(intent, None);
}

#[test]
fn list_navigation_only_moves_main_and_pause_menus() {
    let mut list = ListMenuState::new(vec!["a", "b", "c"]);
    assert_eq!(on_list_menu_navigate_request(Menu::Main, ListMenuDirection::Up, &mut list), Some(2));
    assert_eq!(on_list_menu_navigate_request(Menu::Settings, ListMenuDirection::Up, &mut list), None);
    assert_eq!(list.cursor, 2);
}

#[test]
fn entering_then_leaving_a_room_returns_to_its_exit_spawn() {
    let mut spawn = PlayerSpawnPoint::default();
    assert_eq!(spawn.position, TilePosition { x: 0, y: 0 });
    let mut next = None;
    on_room_request(
        Screen::Gameplay,
        Menu::Closed,
        RoomRequest::EnterBuilding,
        Some(BuildingEntrance::PushPopEnclosure),
        &mut spawn,
        &mut next,
    );
    assert_eq!(next, Some(Screen::InRoom(InRoom::PushPopEnclosure)));
    let mut next2 = None;
    on_room_request(
        Screen::InRoom(InRoom::PushPopEnclosure),
        Menu::Closed,
        RoomRequest::ExitRoom,
        None,
        &mut spawn,
        &mut next2,
    );
    assert_eq!(next2, Some(Screen::Gameplay));
    assert_eq!(spawn.position, TilePosition { x: 40, y: 33 });

    let mut blocked = None;
    on_room_request(
        Screen::Gameplay,
        Menu::Pause,
        RoomRequest::EnterBuilding,
        Some(BuildingEntrance::NutritionHouse),
        &mut spawn,
        &mut blocked,
    );
    assert_eq!(blocked, None);
}

#[test]
fn exit_door_or_force_leaves_the_room() {
    let mut spawn = PlayerSpawnPoint::default();
    let mut next = None;
    let door = TilePosition { x: 5, y: 0 };
    let out = TilePosition { x: 33, y: 12 };
    assert!(!try_exit_room(TilePosition { x: 1, y: 1 }, door, out, Screen::Gameplay, &mut spawn, &mut next, false));
    assert_eq!(next, None);
    assert!(try_exit_room(door, door, out, Screen::Gameplay, &mut spawn, &mut next, false));
    assert_eq!(spawn.position, out);
    assert_eq!(next, Some(Screen::Gameplay));
}

#[test]
fn play_waits_for_resources() {
    assert_eq!(on_play_request(false, None), Screen::Loading);
    assert_eq!(on_play_request(true, None), Screen::Gameplay);
}

#[test]
fn step_requests_add_and_drain() {
    let mut step = StepRequest::default();
    step.add(3);
    assert!(step.take_one());
    assert!(step.take_one());
    assert!(step.take_one());
    assert!(!step.take_one());
    step.add(u32::MAX);
    step.add(5);
    assert_eq!(step.pending, u32::MAX);
    assert_eq!(step.take_all(), u32::MAX);
    assert_eq!(step.pending, 0);
}

fn world() -> GameWorld {
    GameWorld {
        screen: Screen::Gameplay,
        menu: Menu::Closed,
        player: Some(PlayerState { tile: TilePosition { x: 3, y: 3 }, intent: None, entrance: None }),
        satchel: PlayerSatchel::default(),
        care_menu: CareMenuState::default(),
        wheelbarrow: None,
        target: None,
        stats: StatsWorld::new_save(),
        step: StepRequest::default(),
        spawn_point: PlayerSpawnPoint::default(),
        next: NextStates::default(),
    }
}

#[test]
fn game_commands_drive_the_world() {
    let mut w = world();
    assert_eq!(apply_game_command(&mut w, GameCommand::Move(MovementIntent::Right)), HostAction::Nothing);
    assert_eq!(w.player.unwrap().intent, Some(MovementIntent::Right));
    assert_eq!(apply_game_command(&mut w, GameCommand::MoveStop), HostAction::Nothing);
    assert_eq!(w.player.unwrap().intent, None);
    assert_eq!(apply_game_command(&mut w, GameCommand::AdvanceFrames(4)), HostAction::Nothing);
    assert_eq!(w.step.pending, 4);
    assert_eq!(apply_game_command(&mut w, GameCommand::PauseToggle), HostAction::SpawnPauseOverlay);
    assert_eq!(w.next.menu, Some(Menu::Pause));
    assert_eq!(apply_game_command(&mut w, GameCommand::Play), HostAction::PlayClicked);

    let worsen = GameCommand::WorsenStat {
        target: StatTarget::Animal { id: AnimalId::Polly, stat: AnimalStat::Hunger },
        amount: Stat(300),
    };
    assert_eq!(apply_game_command(&mut w, worsen), HostAction::StatChanged(StatChangeOutcome::Applied));
    let polly = w.stats.animals.iter().find(|a| a.id == AnimalId::Polly).unwrap();
    assert_eq!(polly.stats.hunger, 700);
}

#[test]
fn picker_commands_navigate_and_confirm() {
    let mut w = world();
    w.menu = Menu::CareItemPicker;
    w.care_menu = CareMenuState::new(Some(CareMenuId::Fridge), vec![ItemId::RawVeggieTub, ItemId::TortoiseLeafyGreens]);
    assert_eq!(
        apply_game_command(&mut w, GameCommand::NavigateListMenu(ListMenuDirection::Down)),
        HostAction::Nothing
    );
    assert_eq!(w.care_menu.list.cursor, 1);
    let r = apply_game_command(&mut w, GameCommand::Continue);
    assert!(matches!(r, HostAction::PickerConfirmed(_)));
    assert_eq!(w.satchel.slots, [Some(ItemId::TortoiseLeafyGreens), None]);
    assert_eq!(w.next.menu, Some(Menu::Closed));

    let mut fatal = world();
    fatal.screen = Screen::FatalError;
    assert_eq!(apply_game_command(&mut fatal, GameCommand::Move(MovementIntent::Up)), HostAction::Nothing);
    assert_eq!(fatal.player.unwrap().intent, None);
}

#[test]
fn leaving_a_room_without_exit_spawn_changes_nothing() {
    let mut spawn = PlayerSpawnPoint::default();
    spawn.position = TilePosition { x: 9, y: 9 };
    let mut next = None;
    on_room_request(Screen::InRoom(InRoom::Pasture), Menu::Closed, RoomRequest::ExitRoom, None, &mut spawn, &mut next);
    assert_eq!(next, None);
    assert_eq!(spawn.position, TilePosition { x: 9, y: 9 });
}

#[test]
fn picker_navigation_stops_the_player() {
    let mut w = world();
    w.menu = Menu::CareItemPicker;
    w.player = Some(PlayerState { tile: TilePosition { x: 3, y: 3 }, intent: Some(MovementIntent::Left), entrance: None });
    w.care_menu = CareMenuState::new(Some(CareMenuId::Fridge), vec![ItemId::RawVeggieTub, ItemId::TortoiseLeafyGreens]);
    apply_game_command(&mut w, GameCommand::NavigateListMenu(ListMenuDirection::Down));
    assert_eq!(w.player.unwrap().intent, None);
    assert_eq!(w.care_menu.list.cursor, 1);
}

#[test]
fn fatal_error_ignores_picker_bounds() {
    let mut w = world();
    w.screen = Screen::FatalError;
    w.menu = Menu::CareItemPicker;
    w.care_menu = CareMenuState::new(Some(CareMenuId::Fridge), vec![ItemId::RawVeggieTub]);
    w.care_menu.list.cursor = i32::MAX as usize;
    assert_eq!(apply_game_command(&mut w, GameCommand::Move(MovementIntent::Down)), HostAction::Nothing);
    assert_eq!(w.care_menu.list.cursor, i32::MAX as usize);
}
