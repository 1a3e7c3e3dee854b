//! The semantic verb set of the game and its dispatch: routing of verbs to
//! requests, menu flow, room entry and exit, and the frame-step budget.

use vstd::prelude::*;

use crate::app_state::{InRoom, Menu, Pause, Screen, spec_tile_interaction_allowed, tile_interaction_allowed};
use crate::collision::{CollisionMasks, collision_ready, spec_collision_ready};
use crate::configs::{
    nutrition_house_room, overview_player_spawn, push_pop_enclosure_room, spec_nutrition_house_room,
    spec_push_pop_enclosure_room,
};
use crate::menus_model::{ListMenuDirection, ListMenuState, wrapped_cursor};
use crate::cleaning::PoopWheelbarrow;
use crate::interaction::{
    CareMenuState, CareMessage, InteractOutcome, InteractionTarget, PlayerSatchel, cancel_care_menu,
    care_menu_move_cursor, confirm_care_menu, confirm_effect, drop_effect, interact_effect,
    on_interaction_drop_item, on_interaction_interact, wheel_view,
};
use crate::stats::{
    ImproveStatEvent, StatChangeOutcome, StatTarget, StatsWorld, WorsenStatEvent, outcome_of, world_after,
};
use crate::types::{Stat, TilePosition};

verus! {

/// Direction the player wants to walk.
#[derive(Debug, Clone, Copy, PartialEq, Eq, Hash, Structural)]
pub enum MovementIntent {
    Up,
    Down,
    Left,
    Right,
}

/// Which building entrance the player stands on.
#[derive(Debug, Clone, Copy, PartialEq, Eq, Hash, Structural, Default)]
pub enum BuildingEntrance {
    #[default]
    NoEntrance,
    NutritionHouse,
    PushPopEnclosure,
}

/// Where the player appears when the overview is entered.
#[derive(Debug, Clone, Copy, PartialEq, Eq, Structural)]
pub struct PlayerSpawnPoint {
    pub position: TilePosition,
}

impl Default for PlayerSpawnPoint {
    fn default() -> (r: Self)
        ensures
            r.position == (TilePosition { x: 0, y: 0 }),
    {
        PlayerSpawnPoint { position: overview_player_spawn() }
    }
}

/// The complete, semantic verb set for the game: every action a player (or
/// an external controller) can take. Debug and harness verbs follow the
/// player verbs. The two floating-point payloads travel as their IEEE-754
/// bit patterns and are interpreted by the host.
#[derive(Debug, Clone, PartialEq, Eq)]
pub enum GameCommand {
    /// Start (or change) the player walking one direction.
    Move(MovementIntent),
    /// Clear the player's movement intent.
    MoveStop,
    /// Move the cursor on the active list menu one step.
    NavigateListMenu(ListMenuDirection),
    /// Interact with whatever is in front of the player; confirms the care
    /// item picker while it is open.
    Interact,
    /// Drop the first occupied satchel slot.
    DropItem,
    /// Enter the building whose entrance the player stands on.
    EnterBuilding,
    /// Leave the current room interior back to the overview.
    ExitRoom,
    /// Toggle the pause menu during gameplay.
    PauseToggle,
    /// Press "Play" on the title screen.
    Play,
    /// Go back one level in the current menu.
    Back,
    /// Skip the splash screen.
    SkipSplash,
    /// Open the Settings menu.
    OpenSettings,
    /// Open the Credits menu.
    OpenCredits,
    /// Close the active menu and continue playing; confirms the care item
    /// picker while it is open.
    Continue,
    /// Abandon the session and return to the Title screen.
    QuitToTitle,
    /// Debug: increase a stat.
    ImproveStat { target: StatTarget, amount: Stat },
    /// Debug: decrease a stat.
    WorsenStat { target: StatTarget, amount: Stat },
    /// Debug: fast-forward simulated decay by `hours` (bits of an `f32`).
    AdvanceTime { hours_bits: u32 },
    /// Debug: nudge the global audio volume by `delta` (bits of an `f32`).
    AdjustVolume { delta_bits: u32 },
    /// Harness: capture a PNG of the composed frame to `path`.
    Screenshot { path: String },
    /// Harness: in step mode, simulate `n` more frames.
    AdvanceFrames(u32),
}

// ---------------------------------------------------------
// Frame steps
// ---------------------------------------------------------

/// Frames the headless loop should simulate before blocking again.
#[derive(Debug, Clone, Copy, PartialEq, Eq, Structural, Default)]
pub struct StepRequest {
    pub pending: u32,
}

/// Pending frames after requesting `frames` more, saturating at `u32::MAX`.
pub open spec fn added_pending(pending: u32, frames: u32) -> u32 {
    if pending + frames > u32::MAX {
        u32::MAX
    } else {
        (pending + frames) as u32
    }
}

/// Pending frames after consuming one frame, if any.
pub open spec fn after_take_one(pending: u32) -> u32 {
    if pending > 0 {
        (pending - 1) as u32
    } else {
        0
    }
}

/// Pending frames after `n` calls of `take_one`.
pub open spec fn drained(pending: u32, n: nat) -> u32
    decreases n,
{
    if n == 0 {
        pending
    } else {
        after_take_one(drained(pending, (n - 1) as nat))
    }
}

impl StepRequest {
    /// Request `frames` more frames, saturating at `u32::MAX`.
    pub fn add(&mut self, frames: u32)
        ensures
            final(self).pending == added_pending(old(self).pending, frames),
    {
        self.pending = self.pending.saturating_add(frames);
    }

    /// Consume one pending frame, if any.
    pub fn take_one(&mut self) -> (taken: bool)
        ensures
            taken == (old(self).pending > 0),
            final(self).pending == after_take_one(old(self).pending),
    {
        if self.pending > 0 {
            self.pending -= 1;
            true
        } else {
            false
        }
    }

    /// Consume every pending frame; returns how many there were.
    pub fn take_all(&mut self) -> (taken: u32)
        ensures
            taken == old(self).pending,
            final(self).pending == 0,
    {
        let taken = self.pending;
        self.pending = 0;
        taken
    }
}

proof fn lemma_drained(frames: u32, k: nat)
    requires
        k <= frames,
    ensures
        drained(frames, k) == frames - k,
    decreases k,
{
    if k > 0 {
        lemma_drained(frames, (k - 1) as nat);
    }
}

/// Frame requests are handed out one at a time: after `add(frames)` on an
/// empty request, the first `frames` calls of `take_one` succeed (each finds
/// a pending frame) and leave nothing pending.
pub proof fn law_step_requests_add_and_drain(frames: u32, k: nat)
    ensures
        added_pending(0, frames) == frames,
        k <= frames ==> drained(frames, k) == frames - k,
        k < frames ==> drained(frames, k) > 0,
        drained(frames, frames as nat) == 0,
{
    if k <= frames {
        lemma_drained(frames, k);
    }
    lemma_drained(frames, frames as nat);
}

/// Frame requests add up until the counter saturates, and never lose frames
/// that were already pending.
pub proof fn law_step_requests_accumulate(pending: u32, a: u32, b: u32)
    ensures
        added_pending(pending, a) >= pending,
        pending + a + b <= u32::MAX ==> added_pending(added_pending(pending, a), b) == pending + a + b,
{
}

// ---------------------------------------------------------
// Routing
// ---------------------------------------------------------

/// A movement request for the single player.
#[derive(Debug, Clone, Copy, PartialEq, Eq, Structural)]
pub enum MovementRequest {
    Move(MovementIntent),
    Stop,
}

/// A request for the care interaction layer.
#[derive(Debug, Clone, Copy, PartialEq, Eq, Structural)]
pub enum InteractionRequest {
    Interact,
    DropItem,
    NavigateCareMenu(ListMenuDirection),
    ConfirmCareMenu,
    CancelCareMenu,
}

/// A request to enter or leave a room interior.
#[derive(Debug, Clone, Copy, PartialEq, Eq, Structural)]
pub enum RoomRequest {
    EnterBuilding,
    ExitRoom,
}

/// A request for the menu and screen flow.
#[derive(Debug, Clone, Copy, PartialEq, Eq, Structural)]
pub enum MenuFlowRequest {
    PauseToggle,
    Back,
    SkipSplash,
    OpenSettings,
    OpenCredits,
    Continue,
    QuitToTitle,
}

/// Where a verb goes.
#[derive(Debug, Clone, PartialEq, Eq)]
pub enum RoutedRequest {
    Movement(MovementRequest),
    ListMenuNavigate(ListMenuDirection),
    Interaction(InteractionRequest),
    Room(RoomRequest),
    MenuFlow(MenuFlowRequest),
    Play,
    ImproveStat(ImproveStatEvent),
    WorsenStat(WorsenStatEvent),
    AdvanceTime { hours_bits: u32 },
    AdjustVolume { delta_bits: u32 },
    Screenshot { path: String },
    AdvanceFrames(u32),
}

/// Only the passive harness verbs still apply on the fatal-error screen.
pub open spec fn passes_fatal_filter(command: GameCommand) -> bool {
    command is Screenshot || command is AdvanceFrames
}

/// Where `command` is routed, given the current menu (for the verbs the care
/// item picker takes over).
pub open spec fn spec_route(menu: Menu, command: GameCommand) -> RoutedRequest {
    let picker = menu == Menu::CareItemPicker;
    match command {
        GameCommand::Move(intent) => RoutedRequest::Movement(MovementRequest::Move(intent)),
        GameCommand::MoveStop => RoutedRequest::Movement(MovementRequest::Stop),
        GameCommand::NavigateListMenu(d) => if picker {
            RoutedRequest::Interaction(InteractionRequest::NavigateCareMenu(d))
        } else {
            RoutedRequest::ListMenuNavigate(d)
        },
        GameCommand::Interact => RoutedRequest::Interaction(InteractionRequest::Interact),
        GameCommand::DropItem => RoutedRequest::Interaction(InteractionRequest::DropItem),
        GameCommand::EnterBuilding => RoutedRequest::Room(RoomRequest::EnterBuilding),
        GameCommand::ExitRoom => RoutedRequest::Room(RoomRequest::ExitRoom),
        GameCommand::PauseToggle => RoutedRequest::MenuFlow(MenuFlowRequest::PauseToggle),
        GameCommand::Play => RoutedRequest::Play,
        GameCommand::Back => if picker {
            RoutedRequest::Interaction(InteractionRequest::CancelCareMenu)
        } else {
            RoutedRequest::MenuFlow(MenuFlowRequest::Back)
        },
        GameCommand::SkipSplash => RoutedRequest::MenuFlow(MenuFlowRequest::SkipSplash),
        GameCommand::OpenSettings => RoutedRequest::MenuFlow(MenuFlowRequest::OpenSettings),
        GameCommand::OpenCredits => RoutedRequest::MenuFlow(MenuFlowRequest::OpenCredits),
        GameCommand::Continue => if picker {
            RoutedRequest::Interaction(InteractionRequest::ConfirmCareMenu)
        } else {
            RoutedRequest::MenuFlow(MenuFlowRequest::Continue)
        },
        GameCommand::QuitToTitle => RoutedRequest::MenuFlow(MenuFlowRequest::QuitToTitle),
        GameCommand::ImproveStat { target, amount } => RoutedRequest::ImproveStat(ImproveStatEvent { target, amount: amount.0 }),
        GameCommand::WorsenStat { target, amount } => RoutedRequest::WorsenStat(WorsenStatEvent { target, amount: amount.0 }),
        GameCommand::AdvanceTime { hours_bits } => RoutedRequest::AdvanceTime { hours_bits },
        GameCommand::AdjustVolume { delta_bits } => RoutedRequest::AdjustVolume { delta_bits },
        GameCommand::Screenshot { path } => RoutedRequest::Screenshot { path },
        GameCommand::AdvanceFrames(n) => RoutedRequest::AdvanceFrames(n),
    }
}

/// Route one verb. On the fatal-error screen every verb but the passive
/// harness ones is dropped (`None`); otherwise the verb is routed and the
/// state transitions it may have queued need a flush.
pub fn route_game_command(screen: Screen, menu: Menu, command: GameCommand) -> (r: Option<RoutedRequest>)
    ensures
        screen == Screen::FatalError && !passes_fatal_filter(command) ==> r is None,
        !(screen == Screen::FatalError && !passes_fatal_filter(command)) ==> match r {
            Some(req) => match (req, spec_route(menu, command)) {
                (RoutedRequest::Screenshot { path: p1 }, RoutedRequest::Screenshot { path: p2 }) => p1@ == p2@,
                (a, b) => a == b,
            },
            None => false,
        },
{
    if screen == Screen::FatalError {
        match &command {
            GameCommand::Screenshot { .. } | GameCommand::AdvanceFrames(_) => {},
            _ => return None,
        }
    }
    let picker = menu == Menu::CareItemPicker;
    let routed = match command {
        GameCommand::Move(intent) => RoutedRequest::Movement(MovementRequest::Move(intent)),
        GameCommand::MoveStop => RoutedRequest::Movement(MovementRequest::Stop),
        GameCommand::NavigateListMenu(d) => if picker {
            RoutedRequest::Interaction(InteractionRequest::NavigateCareMenu(d))
        } else {
            RoutedRequest::ListMenuNavigate(d)
        },
        GameCommand::Interact => RoutedRequest::Interaction(InteractionRequest::Interact),
        GameCommand::DropItem => RoutedRequest::Interaction(InteractionRequest::DropItem),
        GameCommand::EnterBuilding => RoutedRequest::Room(RoomRequest::EnterBuilding),
        GameCommand::ExitRoom => RoutedRequest::Room(RoomRequest::ExitRoom),
        GameCommand::PauseToggle => RoutedRequest::MenuFlow(MenuFlowRequest::PauseToggle),
        GameCommand::Play => RoutedRequest::Play,
        GameCommand::Back => if picker {
            RoutedRequest::Interaction(InteractionRequest::CancelCareMenu)
        } else {
            RoutedRequest::MenuFlow(MenuFlowRequest::Back)
        },
        GameCommand::SkipSplash => RoutedRequest::MenuFlow(MenuFlowRequest::SkipSplash),
        GameCommand::OpenSettings => RoutedRequest::MenuFlow(MenuFlowRequest::OpenSettings),
        GameCommand::OpenCredits => RoutedRequest::MenuFlow(MenuFlowRequest::OpenCredits),
        GameCommand::Continue => if picker {
            RoutedRequest::Interaction(InteractionRequest::ConfirmCareMenu)
        } else {
            RoutedRequest::MenuFlow(MenuFlowRequest::Continue)
        },
        GameCommand::QuitToTitle => RoutedRequest::MenuFlow(MenuFlowRequest::QuitToTitle),
        GameCommand::ImproveStat { target, amount } => RoutedRequest::ImproveStat(ImproveStatEvent { target, amount: amount.0 }),
        GameCommand::WorsenStat { target, amount } => RoutedRequest::WorsenStat(WorsenStatEvent { target, amount: amount.0 }),
        GameCommand::AdvanceTime { hours_bits } => RoutedRequest::AdvanceTime { hours_bits },
        GameCommand::AdjustVolume { delta_bits } => RoutedRequest::AdjustVolume { delta_bits },
        GameCommand::Screenshot { path } => RoutedRequest::Screenshot { path },
        GameCommand::AdvanceFrames(n) => RoutedRequest::AdvanceFrames(n),
    };
    Some(routed)
}

/// Each player verb is routed to the request of the same name, whatever menu
/// is open; only Back, Continue and list navigation go to the care picker
/// while it is open, and to the menu flow otherwise.
pub proof fn law_verbs_route_to_their_namesake(menu: Menu, intent: MovementIntent, d: ListMenuDirection)
    ensures
        spec_route(menu, GameCommand::Move(intent)) == RoutedRequest::Movement(MovementRequest::Move(intent)),
        spec_route(menu, GameCommand::MoveStop) == RoutedRequest::Movement(MovementRequest::Stop),
        spec_route(menu, GameCommand::Interact) == RoutedRequest::Interaction(InteractionRequest::Interact),
        spec_route(menu, GameCommand::DropItem) == RoutedRequest::Interaction(InteractionRequest::DropItem),
        spec_route(menu, GameCommand::EnterBuilding) == RoutedRequest::Room(RoomRequest::EnterBuilding),
        spec_route(menu, GameCommand::ExitRoom) == RoutedRequest::Room(RoomRequest::ExitRoom),
        spec_route(menu, GameCommand::PauseToggle) == RoutedRequest::MenuFlow(MenuFlowRequest::PauseToggle),
        spec_route(menu, GameCommand::Play) == RoutedRequest::Play,
        spec_route(menu, GameCommand::SkipSplash) == RoutedRequest::MenuFlow(MenuFlowRequest::SkipSplash),
        spec_route(menu, GameCommand::OpenSettings) == RoutedRequest::MenuFlow(MenuFlowRequest::OpenSettings),
        spec_route(menu, GameCommand::OpenCredits) == RoutedRequest::MenuFlow(MenuFlowRequest::OpenCredits),
        spec_route(menu, GameCommand::QuitToTitle) == RoutedRequest::MenuFlow(MenuFlowRequest::QuitToTitle),
        menu == Menu::CareItemPicker ==> {
            &&& spec_route(menu, GameCommand::Back) == RoutedRequest::Interaction(InteractionRequest::CancelCareMenu)
            &&& spec_route(menu, GameCommand::Continue) == RoutedRequest::Interaction(InteractionRequest::ConfirmCareMenu)
            &&& spec_route(menu, GameCommand::NavigateListMenu(d))
                == RoutedRequest::Interaction(InteractionRequest::NavigateCareMenu(d))
        },
        menu != Menu::CareItemPicker ==> {
            &&& spec_route(menu, GameCommand::Back) == RoutedRequest::MenuFlow(MenuFlowRequest::Back)
            &&& spec_route(menu, GameCommand::Continue) == RoutedRequest::MenuFlow(MenuFlowRequest::Continue)
            &&& spec_route(menu, GameCommand::NavigateListMenu(d)) == RoutedRequest::ListMenuNavigate(d)
        },
{
}

// ---------------------------------------------------------
// Menu flow
// ---------------------------------------------------------

/// State transitions queued for the end of the frame.
#[derive(Debug, Clone, Copy, PartialEq, Eq, Structural, Default)]
pub struct NextStates {
    pub screen: Option<Screen>,
    pub menu: Option<Menu>,
    pub pause: Option<Pause>,
}

pub open spec fn spec_go_back_menu(screen: Screen, menu: Menu) -> Option<Menu> {
    match menu {
        Menu::Settings => Some(if screen == Screen::Title { Menu::Main } else { Menu::Pause }),
        Menu::Credits => Some(Menu::Main),
        Menu::Pause | Menu::CareItemPicker => Some(Menu::Closed),
        Menu::Main | Menu::Closed => None,
    }
}

/// Go back one menu level: Settings returns to the title's main menu or to
/// the pause menu, Credits to the main menu; Pause and the care picker close.
pub fn go_back_menu(screen: Screen, menu: Menu, next_menu: &mut Option<Menu>)
    ensures
        *final(next_menu) == (match spec_go_back_menu(screen, menu) {
            Some(m) => Some(m),
            None => *old(next_menu),
        }),
{
    match menu {
        Menu::Settings => {
            *next_menu = Some(if screen == Screen::Title { Menu::Main } else { Menu::Pause });
        },
        Menu::Credits => {
            *next_menu = Some(Menu::Main);
        },
        Menu::Pause | Menu::CareItemPicker => {
            *next_menu = Some(Menu::Closed);
        },
        Menu::Main | Menu::Closed => {},
    }
}

/// Open the pause menu from gameplay: pause the simulation and show the menu.
pub fn open_pause_from_gameplay(next: &mut NextStates)
    ensures
        *final(next) == (NextStates { pause: Some(Pause(true)), menu: Some(Menu::Pause), ..*old(next) }),
{
    next.pause = Some(Pause(true));
    next.menu = Some(Menu::Pause);
}

/// Close whatever menu is open.
pub fn close_menu_state(next: &mut NextStates)
    ensures
        *final(next) == (NextStates { menu: Some(Menu::Closed), ..*old(next) }),
{
    next.menu = Some(Menu::Closed);
}

/// The transitions a menu-flow request queues.
pub open spec fn spec_menu_flow(screen: Screen, menu: Menu, request: MenuFlowRequest, n: NextStates) -> NextStates {
    match request {
        MenuFlowRequest::PauseToggle => if screen == Screen::Gameplay && menu == Menu::Closed {
            NextStates { pause: Some(Pause(true)), menu: Some(Menu::Pause), ..n }
        } else if screen == Screen::Gameplay {
            NextStates { menu: Some(Menu::Closed), ..n }
        } else {
            n
        },
        MenuFlowRequest::Back => match spec_go_back_menu(screen, menu) {
            Some(m) => NextStates { menu: Some(m), ..n },
            None => n,
        },
        MenuFlowRequest::SkipSplash => NextStates { screen: Some(Screen::Title), ..n },
        MenuFlowRequest::OpenSettings => NextStates { menu: Some(Menu::Settings), ..n },
        MenuFlowRequest::OpenCredits => NextStates { menu: Some(Menu::Credits), ..n },
        MenuFlowRequest::Continue => NextStates { menu: Some(Menu::Closed), ..n },
        MenuFlowRequest::QuitToTitle => NextStates { screen: Some(Screen::Title), ..n },
    }
}

pub fn on_menu_flow_request(screen: Screen, menu: Menu, request: MenuFlowRequest, next: &mut NextStates)
    ensures
        *final(next) == spec_menu_flow(screen, menu, request, *old(next)),
{
    match request {
        MenuFlowRequest::PauseToggle => {
            if screen == Screen::Gameplay && menu == Menu::Closed {
                open_pause_from_gameplay(next);
            } else if screen == Screen::Gameplay {
                close_menu_state(next);
            }
        },
        MenuFlowRequest::Back => {
            go_back_menu(screen, menu, &mut next.menu);
        },
        MenuFlowRequest::SkipSplash => {
            next.screen = Some(Screen::Title);
        },
        MenuFlowRequest::OpenSettings => {
            next.menu = Some(Menu::Settings);
        },
        MenuFlowRequest::OpenCredits => {
            next.menu = Some(Menu::Credits);
        },
        MenuFlowRequest::Continue => {
            close_menu_state(next);
        },
        MenuFlowRequest::QuitToTitle => {
            next.screen = Some(Screen::Title);
        },
    }
}

/// Pause toggles: from gameplay with no menu it opens the pause menu, and a
/// second toggle (with the pause menu open) closes it again.
pub proof fn law_pause_toggle_round_trip(n: NextStates)
    ensures
        spec_menu_flow(Screen::Gameplay, Menu::Closed, MenuFlowRequest::PauseToggle, n).menu == Some(Menu::Pause),
        spec_menu_flow(Screen::Gameplay, Menu::Closed, MenuFlowRequest::PauseToggle, n).pause == Some(Pause(true)),
        spec_menu_flow(Screen::Gameplay, Menu::Pause, MenuFlowRequest::PauseToggle, n).menu == Some(Menu::Closed),
{
}

/// Going back from Settings returns to the menu Settings was opened from: the
/// title's main menu, or the pause menu in gameplay; Back never opens Settings
/// or Credits.
pub proof fn law_back_returns_to_opener(screen: Screen, menu: Menu)
    ensures
        spec_go_back_menu(Screen::Title, Menu::Settings) == Some(Menu::Main),
        screen != Screen::Title ==> spec_go_back_menu(screen, Menu::Settings) == Some(Menu::Pause),
        spec_go_back_menu(screen, Menu::Credits) == Some(Menu::Main),
        spec_go_back_menu(screen, menu) != Some(Menu::Settings),
        spec_go_back_menu(screen, menu) != Some(Menu::Credits),
{
}

// ---------------------------------------------------------
// Movement and list navigation
// ---------------------------------------------------------

/// Apply a movement request to the single player's intent. Walking needs
/// tile interaction to be allowed; stopping always applies. Without a single
/// player nothing changes.
pub fn on_movement_request(
    screen: Screen,
    menu: Menu,
    request: MovementRequest,
    player_present: bool,
    intent: &mut Option<MovementIntent>,
)
    ensures
        !player_present ==> *final(intent) == *old(intent),
        player_present ==> *final(intent) == (match request {
            MovementRequest::Move(i) => if spec_tile_interaction_allowed(screen, menu) {
                Some(i)
            } else {
                *old(intent)
            },
            MovementRequest::Stop => None::<MovementIntent>,
        }),
{
    if !player_present {
        return;
    }
    match request {
        MovementRequest::Move(i) => {
            if tile_interaction_allowed(screen, menu) {
                *intent = Some(i);
            }
        },
        MovementRequest::Stop => {
            *intent = None;
        },
    }
}

/// Move the cursor of the main or pause list menu; the row to focus, if the
/// menu is one of those.
pub fn on_list_menu_navigate_request<T>(menu: Menu, direction: ListMenuDirection, list: &mut ListMenuState<T>) -> (focus: Option<usize>)
    requires
        old(list).options@.len() <= i32::MAX,
        (menu == Menu::Main || menu == Menu::Pause) && old(list).options@.len() > 0
            ==> i32::MIN <= (old(list).cursor as i32) + direction.spec_delta() <= i32::MAX,
    ensures
        final(list).options@ == old(list).options@,
        !(menu == Menu::Main || menu == Menu::Pause) ==> focus is None && final(list).cursor == old(list).cursor,
        (menu == Menu::Main || menu == Menu::Pause) ==> {
            &&& focus == Some(final(list).cursor)
            &&& old(list).options@.len() == 0 ==> final(list).cursor == old(list).cursor
            &&& old(list).options@.len() > 0 ==> final(list).cursor == wrapped_cursor(
                (old(list).cursor as i32) as int,
                direction.spec_delta(),
                old(list).options@.len() as int,
            )
        },
{
    match menu {
        Menu::Main | Menu::Pause => {
            list.move_cursor(direction.delta());
            Some(list.cursor)
        },
        _ => None,
    }
}

// ---------------------------------------------------------
// Rooms
// ---------------------------------------------------------

/// Request `room_state` when the player stands on the required entrance.
pub fn try_enter_room(
    player_entrance: BuildingEntrance,
    required_entrance: BuildingEntrance,
    room_state: Screen,
    next_screen: &mut Option<Screen>,
) -> (entered: bool)
    ensures
        entered == (player_entrance == required_entrance),
        *final(next_screen) == (if entered { Some(room_state) } else { *old(next_screen) }),
{
    if player_entrance == required_entrance {
        *next_screen = Some(room_state);
        true
    } else {
        false
    }
}

/// Leave a room when forced or when the player stands on its exit door: the
/// overview spawn point moves to the exit spawn and the gameplay screen is
/// requested.
pub fn try_exit_room(
    player_pos: TilePosition,
    exit_door: TilePosition,
    exit_spawn: TilePosition,
    gameplay_state: Screen,
    spawn_point: &mut PlayerSpawnPoint,
    next_screen: &mut Option<Screen>,
    force: bool,
) -> (exited: bool)
    ensures
        exited == (force || player_pos == exit_door),
        exited ==> final(spawn_point).position == exit_spawn && *final(next_screen) == Some(gameplay_state),
        !exited ==> *final(spawn_point) == *old(spawn_point) && *final(next_screen) == *old(next_screen),
{
    let should_exit = force || (player_pos.x == exit_door.x && player_pos.y == exit_door.y);
    if should_exit {
        spawn_point.position = exit_spawn;
        *next_screen = Some(gameplay_state);
        true
    } else {
        false
    }
}

/// The interior an entrance leads to.
pub open spec fn entrance_room(entrance: BuildingEntrance) -> Option<InRoom> {
    match entrance {
        BuildingEntrance::NutritionHouse => Some(InRoom::NutritionHouse),
        BuildingEntrance::PushPopEnclosure => Some(InRoom::PushPopEnclosure),
        BuildingEntrance::NoEntrance => None,
    }
}

/// Where the player reappears on the overview after leaving a room; rooms
/// that cannot be entered yet have none.
pub open spec fn room_exit_spawn(room: InRoom) -> Option<TilePosition> {
    match room {
        InRoom::NutritionHouse => Some(spec_nutrition_house_room().exit_spawn),
        InRoom::PushPopEnclosure => Some(spec_push_pop_enclosure_room().exit_spawn),
        InRoom::Pasture | InRoom::ReptileEnclosure => None,
    }
}

fn exit_spawn_for(room: InRoom) -> (r: Option<TilePosition>)
    ensures
        r == room_exit_spawn(room),
{
    match room {
        InRoom::NutritionHouse => Some(nutrition_house_room().exit_spawn),
        InRoom::PushPopEnclosure => Some(push_pop_enclosure_room().exit_spawn),
        InRoom::Pasture | InRoom::ReptileEnclosure => None,
    }
}

/// Enter a building: only on the overview with tile interaction allowed and
/// a single player on an entrance tile.
pub open spec fn spec_enter_building(screen: Screen, menu: Menu, entrance: Option<BuildingEntrance>, next_screen: Option<Screen>) -> Option<Screen> {
    if screen == Screen::Gameplay && spec_tile_interaction_allowed(screen, menu) {
        match entrance {
            Some(e) => match entrance_room(e) {
                Some(room) => Some(Screen::InRoom(room)),
                None => next_screen,
            },
            None => next_screen,
        }
    } else {
        next_screen
    }
}

/// Leave a room interior regardless of the player's tile (with tile
/// interaction allowed): from a room with an exit spawn the spawn point moves
/// there and the overview is requested; the rooms that cannot be entered yet
/// have no exit spawn and nothing changes.
pub open spec fn spec_exit_room(screen: Screen, menu: Menu, spawn: PlayerSpawnPoint, next_screen: Option<Screen>) -> (PlayerSpawnPoint, Option<Screen>) {
    if spec_tile_interaction_allowed(screen, menu) {
        match screen {
            Screen::InRoom(room) => match room_exit_spawn(room) {
                Some(p) => (PlayerSpawnPoint { position: p }, Some(Screen::Gameplay)),
                None => (spawn, next_screen),
            },
            _ => (spawn, next_screen),
        }
    } else {
        (spawn, next_screen)
    }
}

fn enter_building(screen: Screen, menu: Menu, entrance: Option<BuildingEntrance>, next_screen: &mut Option<Screen>)
    ensures
        *final(next_screen) == spec_enter_building(screen, menu, entrance, *old(next_screen)),
{
    if screen != Screen::Gameplay || !tile_interaction_allowed(screen, menu) {
        return;
    }
    let entrance = match entrance {
        Some(e) => e,
        None => return,
    };
    match entrance {
        BuildingEntrance::NutritionHouse => {
            try_enter_room(entrance, BuildingEntrance::NutritionHouse, Screen::InRoom(InRoom::NutritionHouse), next_screen);
        },
        BuildingEntrance::PushPopEnclosure => {
            try_enter_room(
                entrance,
                BuildingEntrance::PushPopEnclosure,
                Screen::InRoom(InRoom::PushPopEnclosure),
                next_screen,
            );
        },
        BuildingEntrance::NoEntrance => {},
    }
}

fn exit_room(screen: Screen, menu: Menu, spawn_point: &mut PlayerSpawnPoint, next_screen: &mut Option<Screen>)
    ensures
        (*final(spawn_point), *final(next_screen)) == spec_exit_room(screen, menu, *old(spawn_point), *old(next_screen)),
{
    if !tile_interaction_allowed(screen, menu) {
        return;
    }
    let room = match screen {
        Screen::InRoom(room) => room,
        _ => return,
    };
    match exit_spawn_for(room) {
        Some(exit_spawn) => {
            spawn_point.position = exit_spawn;
            *next_screen = Some(Screen::Gameplay);
        },
        None => {},
    }
}

/// Handle a room request: entering needs the player's entrance; leaving
/// force-exits the current interior.
pub fn on_room_request(
    screen: Screen,
    menu: Menu,
    request: RoomRequest,
    player_entrance: Option<BuildingEntrance>,
    spawn_point: &mut PlayerSpawnPoint,
    next_screen: &mut Option<Screen>,
)
    ensures
        request == RoomRequest::EnterBuilding ==> *final(spawn_point) == *old(spawn_point)
            && *final(next_screen) == spec_enter_building(screen, menu, player_entrance, *old(next_screen)),
        request == RoomRequest::ExitRoom ==> (*final(spawn_point), *final(next_screen))
            == spec_exit_room(screen, menu, *old(spawn_point), *old(next_screen)),
{
    match request {
        RoomRequest::EnterBuilding => enter_building(screen, menu, player_entrance, next_screen),
        RoomRequest::ExitRoom => exit_room(screen, menu, spawn_point, next_screen),
    }
}

/// Entering a building and leaving again brings the player back to the
/// overview, at the room's exit spawn.
pub proof fn law_enter_then_exit(entrance: BuildingEntrance, spawn: PlayerSpawnPoint, n: Option<Screen>)
    requires
        entrance != BuildingEntrance::NoEntrance,
    ensures
        ({
            let entered = spec_enter_building(Screen::Gameplay, Menu::Closed, Some(entrance), n);
            &&& entered matches Some(Screen::InRoom(room))
            &&& spec_exit_room(entered->0, Menu::Closed, spawn, None).1 == Some(Screen::Gameplay)
            &&& spec_exit_room(entered->0, Menu::Closed, spawn, None).0.position == room_exit_spawn(entrance_room(entrance)->0)->0
        }),
{
}

/// Leaving an enterable room always returns to the overview: from the
/// Nutrition House and Push Pop interiors, with tile interaction allowed, the
/// exit verb requests the gameplay screen and moves the spawn point to the
/// room's exit spawn; from the rooms that cannot be entered yet it does
/// nothing.
pub proof fn law_exit_room_returns_to_overview(room: InRoom, spawn: PlayerSpawnPoint, n: Option<Screen>)
    ensures
        (room == InRoom::NutritionHouse || room == InRoom::PushPopEnclosure) ==> {
            &&& spec_exit_room(Screen::InRoom(room), Menu::Closed, spawn, n).1 == Some(Screen::Gameplay)
            &&& spec_exit_room(Screen::InRoom(room), Menu::Closed, spawn, n).0.position == room_exit_spawn(room)->0
        },
        (room == InRoom::Pasture || room == InRoom::ReptileEnclosure)
            ==> spec_exit_room(Screen::InRoom(room), Menu::Closed, spawn, n) == (spawn, n),
{
}

/// Leaving a room puts the overview spawn point at that room's own exit
/// spawn: the Nutrition House door leads to (33, 12) and the Push Pop
/// Enclosure gate to (40, 33).
pub proof fn law_exit_spawn_is_the_rooms_own(spawn: PlayerSpawnPoint, n: Option<Screen>)
    ensures
        room_exit_spawn(InRoom::NutritionHouse) == Some(spec_nutrition_house_room().exit_spawn),
        room_exit_spawn(InRoom::PushPopEnclosure) == Some(spec_push_pop_enclosure_room().exit_spawn),
        spec_exit_room(Screen::InRoom(InRoom::NutritionHouse), Menu::Closed, spawn, n).0.position
            == (TilePosition { x: 33, y: 12 }),
        spec_exit_room(Screen::InRoom(InRoom::PushPopEnclosure), Menu::Closed, spawn, n).0.position
            == (TilePosition { x: 40, y: 33 }),
{
}

/// The screen the Play button leads to: gameplay when every tracked resource
/// and every required collision map is ready (a missing mask table counts as
/// ready), loading otherwise.
pub fn on_play_request(resources_ready: bool, masks: Option<&CollisionMasks>) -> (r: Screen)
    ensures
        r == (if resources_ready && (match masks {
            Some(m) => spec_collision_ready(m@),
            None => true,
        }) {
            Screen::Gameplay
        } else {
            Screen::Loading
        }),
{
    let collision_ready_flag = match masks {
        Some(m) => collision_ready(m),
        None => true,
    };
    if resources_ready && collision_ready_flag {
        Screen::Gameplay
    } else {
        Screen::Loading
    }
}

// ---------------------------------------------------------
// Applying verbs to the game world
// ---------------------------------------------------------

/// The single player: its tile, its movement intent, and the entrance it
/// stands on (if any).
#[derive(Debug, Clone, Copy, PartialEq, Eq, Structural)]
pub struct PlayerState {
    pub tile: TilePosition,
    pub intent: Option<MovementIntent>,
    pub entrance: Option<BuildingEntrance>,
}

/// The part of the running game that verbs read and change. Screen and menu
/// are the current states; `next` holds the transitions queued this frame.
#[derive(Debug, Clone)]
pub struct GameWorld {
    pub screen: Screen,
    pub menu: Menu,
    pub player: Option<PlayerState>,
    pub satchel: PlayerSatchel,
    pub care_menu: CareMenuState,
    pub wheelbarrow: Option<PoopWheelbarrow>,
    pub target: Option<InteractionTarget>,
    pub stats: StatsWorld,
    pub step: StepRequest,
    pub spawn_point: PlayerSpawnPoint,
    pub next: NextStates,
}

/// What the host still has to do after a verb was applied.
#[derive(Debug, Clone, PartialEq, Eq)]
pub enum HostAction {
    Nothing,
    Interacted(InteractOutcome),
    Dropped(Option<String>),
    /// The care picker was confirmed from the Continue verb.
    PickerConfirmed(CareMessage),
    /// Move the cursor of the main or pause list menu.
    NavigateListMenu(ListMenuDirection),
    /// The pause overlay must be spawned.
    SpawnPauseOverlay,
    /// The Play button was pressed.
    PlayClicked,
    StatChanged(StatChangeOutcome),
    AdvanceTime { hours_bits: u32 },
    AdjustVolume { delta_bits: u32 },
    Screenshot { path: String },
}

/// Care items, picker and wheelbarrow are as before.
pub open spec fn same_items(b: GameWorld, a: GameWorld) -> bool {
    &&& a.satchel.slots@ == b.satchel.slots@
    &&& a.care_menu.menu_id == b.care_menu.menu_id
    &&& a.care_menu.list == b.care_menu.list
    &&& wheel_view(a.wheelbarrow) == wheel_view(b.wheelbarrow)
}

pub open spec fn same_stats(b: GameWorld, a: GameWorld) -> bool {
    a.stats.animals@ == b.stats.animals@ && a.stats.enclosures@ == b.stats.enclosures@
}

/// Everything a verb can change is as before, except what the flags allow.
pub open spec fn frame(b: GameWorld, a: GameWorld, player: bool, items: bool, stats: bool, step: bool, spawn: bool, next: bool) -> bool {
    &&& a.screen == b.screen
    &&& a.menu == b.menu
    &&& a.target == b.target
    &&& !player ==> a.player == b.player
    &&& !items ==> same_items(b, a)
    &&& !stats ==> same_stats(b, a)
    &&& !step ==> a.step == b.step
    &&& !spawn ==> a.spawn_point == b.spawn_point
    &&& !next ==> a.next == b.next
}

pub open spec fn unchanged(b: GameWorld, a: GameWorld) -> bool {
    frame(b, a, false, false, false, false, false, false)
}

pub open spec fn move_delta(intent: MovementIntent) -> int {
    match intent {
        MovementIntent::Up => -1,
        MovementIntent::Down => 1,
        MovementIntent::Left | MovementIntent::Right => 0,
    }
}

/// The player with its intent replaced.
pub open spec fn with_intent(p: Option<PlayerState>, intent: Option<MovementIntent>) -> Option<PlayerState> {
    match p {
        Some(p) => Some(PlayerState { intent, ..p }),
        None => None,
    }
}

/// What applying `command` to `b` gives (`a`, with host action `r`).
/// Rows the care-picker cursor moves for `command`, when the picker takes it.
pub open spec fn picker_step(command: GameCommand) -> int {
    match command {
        GameCommand::Move(intent) => move_delta(intent),
        GameCommand::NavigateListMenu(d) => d.spec_delta(),
        _ => 0,
    }
}

/// `command` moves the care-picker cursor: the picker is open on a screen
/// that takes verbs, a player exists, and the verb is a cursor step.
pub open spec fn picker_step_taken(world: GameWorld, command: GameCommand) -> bool {
    &&& world.screen != Screen::FatalError
    &&& world.menu == Menu::CareItemPicker
    &&& world.player is Some
    &&& picker_step(command) != 0
}

pub open spec fn command_effect(b: GameWorld, a: GameWorld, command: GameCommand, r: HostAction) -> bool {
    let picker = b.menu == Menu::CareItemPicker;
    let allowed = spec_tile_interaction_allowed(b.screen, b.menu);
    if b.screen == Screen::FatalError && !passes_fatal_filter(command) {
        r == HostAction::Nothing && unchanged(b, a)
    } else {
        match command {
            GameCommand::Move(intent) => {
                &&& r == HostAction::Nothing
                &&& if picker {
                    if b.player is None {
                        unchanged(b, a)
                    } else {
                        &&& frame(b, a, true, true, false, false, false, false)
                        &&& a.player == with_intent(b.player, None)
                        &&& a.satchel.slots@ == b.satchel.slots@
                        &&& wheel_view(a.wheelbarrow) == wheel_view(b.wheelbarrow)
                        &&& a.care_menu.menu_id == b.care_menu.menu_id
                        &&& a.care_menu.list.options@ == b.care_menu.list.options@
                        &&& (move_delta(intent) == 0 || b.care_menu.list.options@.len() == 0)
                            ==> a.care_menu.list.cursor == b.care_menu.list.cursor
                        &&& (move_delta(intent) != 0 && b.care_menu.list.options@.len() > 0)
                            ==> a.care_menu.list.cursor == wrapped_cursor(
                                (b.care_menu.list.cursor as i32) as int,
                                move_delta(intent),
                                b.care_menu.list.options@.len() as int,
                            )
                    }
                } else if allowed {
                    frame(b, a, true, false, false, false, false, false) && a.player == with_intent(b.player, Some(intent))
                } else {
                    unchanged(b, a)
                }
            },
            GameCommand::MoveStop => r == HostAction::Nothing && frame(b, a, true, false, false, false, false, false)
                && a.player == with_intent(b.player, None),
            GameCommand::NavigateListMenu(d) => if picker {
                &&& r == HostAction::Nothing
                &&& if b.player is None {
                    unchanged(b, a)
                } else {
                    &&& frame(b, a, true, true, false, false, false, false)
                    &&& a.player == with_intent(b.player, None)
                    &&& a.satchel.slots@ == b.satchel.slots@
                    &&& wheel_view(a.wheelbarrow) == wheel_view(b.wheelbarrow)
                    &&& a.care_menu.menu_id == b.care_menu.menu_id
                    &&& a.care_menu.list.options@ == b.care_menu.list.options@
                    &&& b.care_menu.list.options@.len() == 0 ==> a.care_menu.list.cursor == b.care_menu.list.cursor
                    &&& b.care_menu.list.options@.len() > 0 ==> a.care_menu.list.cursor == wrapped_cursor(
                        (b.care_menu.list.cursor as i32) as int,
                        d.spec_delta(),
                        b.care_menu.list.options@.len() as int,
                    )
                }
            } else {
                r == HostAction::NavigateListMenu(d) && unchanged(b, a)
            },
            GameCommand::Interact => {
                &&& frame(b, a, false, true, false, false, false, true)
                &&& a.next == NextStates { menu: a.next.menu, ..b.next }
                &&& r matches HostAction::Interacted(o) && interact_effect(
                    b.screen,
                    b.menu,
                    b.player is Some,
                    b.target,
                    b.satchel.slots@,
                    a.satchel.slots@,
                    b.care_menu,
                    a.care_menu,
                    b.next.menu,
                    a.next.menu,
                    b.wheelbarrow,
                    a.wheelbarrow,
                    o,
                )
            },
            GameCommand::DropItem => {
                &&& frame(b, a, false, true, false, false, false, false)
                &&& a.care_menu.menu_id == b.care_menu.menu_id && a.care_menu.list == b.care_menu.list
                &&& wheel_view(a.wheelbarrow) == wheel_view(b.wheelbarrow)
                &&& r matches HostAction::Dropped(m) && drop_effect(b.screen, b.menu, b.player is Some, b.satchel.slots@, a.satchel.slots@, m)
            },
            GameCommand::EnterBuilding => {
                &&& r == HostAction::Nothing
                &&& frame(b, a, false, false, false, false, false, true)
                &&& a.next == NextStates {
                    screen: spec_enter_building(b.screen, b.menu, match b.player { Some(p) => p.entrance, None => None }, b.next.screen),
                    ..b.next
                }
            },
            GameCommand::ExitRoom => {
                &&& r == HostAction::Nothing
                &&& if b.player is Some {
                    &&& frame(b, a, false, false, false, false, true, true)
                    &&& (a.spawn_point, a.next.screen) == spec_exit_room(b.screen, b.menu, b.spawn_point, b.next.screen)
                    &&& a.next == NextStates { screen: a.next.screen, ..b.next }
                } else {
                    unchanged(b, a)
                }
            },
            GameCommand::PauseToggle => if b.screen == Screen::Gameplay && b.menu == Menu::Closed {
                r == HostAction::SpawnPauseOverlay && frame(b, a, false, false, false, false, false, true)
                    && a.next == spec_menu_flow(b.screen, b.menu, MenuFlowRequest::PauseToggle, b.next)
            } else {
                r == HostAction::Nothing && frame(b, a, false, false, false, false, false, true)
                    && a.next == spec_menu_flow(b.screen, b.menu, MenuFlowRequest::PauseToggle, b.next)
            },
            GameCommand::Play => r == HostAction::PlayClicked && unchanged(b, a),
            GameCommand::Back => {
                &&& r == HostAction::Nothing
                &&& if picker {
                    &&& frame(b, a, false, true, false, false, false, true)
                    &&& a.satchel.slots@ == b.satchel.slots@
                    &&& wheel_view(a.wheelbarrow) == wheel_view(b.wheelbarrow)
                    &&& a.care_menu.is_reset()
                    &&& a.next == NextStates { menu: Some(Menu::Closed), ..b.next }
                } else {
                    frame(b, a, false, false, false, false, false, true)
                        && a.next == spec_menu_flow(b.screen, b.menu, MenuFlowRequest::Back, b.next)
                }
            },
            GameCommand::SkipSplash => r == HostAction::Nothing && frame(b, a, false, false, false, false, false, true)
                && a.next == spec_menu_flow(b.screen, b.menu, MenuFlowRequest::SkipSplash, b.next),
            GameCommand::OpenSettings => r == HostAction::Nothing && frame(b, a, false, false, false, false, false, true)
                && a.next == spec_menu_flow(b.screen, b.menu, MenuFlowRequest::OpenSettings, b.next),
            GameCommand::OpenCredits => r == HostAction::Nothing && frame(b, a, false, false, false, false, false, true)
                && a.next == spec_menu_flow(b.screen, b.menu, MenuFlowRequest::OpenCredits, b.next),
            GameCommand::Continue => if picker {
                &&& frame(b, a, false, true, false, false, false, true)
                &&& wheel_view(a.wheelbarrow) == wheel_view(b.wheelbarrow)
                &&& a.care_menu.is_reset()
                &&& a.next == NextStates { menu: Some(Menu::Closed), ..b.next }
                &&& r matches HostAction::PickerConfirmed(m) && confirm_effect(b.care_menu, b.satchel.slots@, a.satchel.slots@, m)
            } else {
                r == HostAction::Nothing && frame(b, a, false, false, false, false, false, true)
                    && a.next == spec_menu_flow(b.screen, b.menu, MenuFlowRequest::Continue, b.next)
            },
            GameCommand::QuitToTitle => r == HostAction::Nothing && frame(b, a, false, false, false, false, false, true)
                && a.next == spec_menu_flow(b.screen, b.menu, MenuFlowRequest::QuitToTitle, b.next),
            GameCommand::ImproveStat { target, amount } => {
                &&& frame(b, a, false, false, true, false, false, false)
                &&& (a.stats.animals@, a.stats.enclosures@) == world_after(b.stats.animals@, b.stats.enclosures@, target, amount.0, true)
                &&& r == HostAction::StatChanged(outcome_of(b.stats.animals@, b.stats.enclosures@, target))
            },
            GameCommand::WorsenStat { target, amount } => {
                &&& frame(b, a, false, false, true, false, false, false)
                &&& (a.stats.animals@, a.stats.enclosures@) == world_after(b.stats.animals@, b.stats.enclosures@, target, amount.0, false)
                &&& r == HostAction::StatChanged(outcome_of(b.stats.animals@, b.stats.enclosures@, target))
            },
            GameCommand::AdvanceTime { hours_bits } => r == HostAction::AdvanceTime { hours_bits } && unchanged(b, a),
            GameCommand::AdjustVolume { delta_bits } => r == HostAction::AdjustVolume { delta_bits } && unchanged(b, a),
            GameCommand::Screenshot { path } => (r matches HostAction::Screenshot { path: p } && p@ == path@) && unchanged(b, a),
            GameCommand::AdvanceFrames(n) => {
                &&& r == HostAction::Nothing
                &&& frame(b, a, false, false, false, true, false, false)
                &&& a.step.pending == added_pending(b.step.pending, n)
            },
        }
    }
}

fn clear_intent(player: &mut Option<PlayerState>)
    ensures
        *final(player) == with_intent(*old(player), None),
{
    if let Some(p) = player {
        p.intent = None;
    }
}

/// Apply one verb to the game world. On the fatal-error screen only the
/// passive harness verbs apply. See [`command_effect`] for every verb.
pub fn apply_game_command(world: &mut GameWorld, command: GameCommand) -> (r: HostAction)
    requires
        picker_step_taken(*old(world), command) ==> {
            &&& old(world).care_menu.list.options@.len() <= i32::MAX
            &&& old(world).care_menu.list.options@.len() > 0 ==> i32::MIN <= (old(world).care_menu.list.cursor as i32)
                + picker_step(command) <= i32::MAX
        },
    ensures
        command_effect(*old(world), *final(world), command, r),
{
    if world.screen == Screen::FatalError {
        match &command {
            GameCommand::Screenshot { .. } | GameCommand::AdvanceFrames(_) => {},
            _ => return HostAction::Nothing,
        }
    }
    let picker = world.menu == Menu::CareItemPicker;
    match command {
        GameCommand::Move(intent) => {
            if picker {
                if world.player.is_none() {
                    return HostAction::Nothing;
                }
                clear_intent(&mut world.player);
                let delta: i32 = match intent {
                    MovementIntent::Up => -1,
                    MovementIntent::Down => 1,
                    MovementIntent::Left | MovementIntent::Right => 0,
                };
                if delta != 0 {
                    care_menu_move_cursor(&mut world.care_menu, delta);
                }
                return HostAction::Nothing;
            }
            if !tile_interaction_allowed(world.screen, world.menu) {
                return HostAction::Nothing;
            }
            if let Some(p) = &mut world.player {
                p.intent = Some(intent);
            }
            HostAction::Nothing
        },
        GameCommand::MoveStop => {
            clear_intent(&mut world.player);
            HostAction::Nothing
        },
        GameCommand::NavigateListMenu(d) => {
            if picker {
                if world.player.is_some() {
                    clear_intent(&mut world.player);
                    care_menu_move_cursor(&mut world.care_menu, d.delta());
                }
                HostAction::Nothing
            } else {
                HostAction::NavigateListMenu(d)
            }
        },
        GameCommand::Interact => {
            let present = world.player.is_some();
            let outcome = on_interaction_interact(
                world.screen,
                world.menu,
                present,
                &world.target,
                &mut world.satchel,
                &mut world.care_menu,
                &mut world.next.menu,
                &mut world.wheelbarrow,
            );
            HostAction::Interacted(outcome)
        },
        GameCommand::DropItem => {
            let present = world.player.is_some();
            HostAction::Dropped(on_interaction_drop_item(world.screen, world.menu, present, &mut world.satchel))
        },
        GameCommand::EnterBuilding => {
            let entrance = match world.player {
                Some(p) => p.entrance,
                None => None,
            };
            enter_building(world.screen, world.menu, entrance, &mut world.next.screen);
            HostAction::Nothing
        },
        GameCommand::ExitRoom => {
            if world.player.is_some() {
                exit_room(world.screen, world.menu, &mut world.spawn_point, &mut world.next.screen);
            }
            HostAction::Nothing
        },
        GameCommand::PauseToggle => {
            let spawn_overlay = world.screen == Screen::Gameplay && world.menu == Menu::Closed;
            on_menu_flow_request(world.screen, world.menu, MenuFlowRequest::PauseToggle, &mut world.next);
            if spawn_overlay {
                HostAction::SpawnPauseOverlay
            } else {
                HostAction::Nothing
            }
        },
        GameCommand::Play => HostAction::PlayClicked,
        GameCommand::Back => {
            if picker {
                cancel_care_menu(&mut world.care_menu, &mut world.next.menu);
            } else {
                on_menu_flow_request(world.screen, world.menu, MenuFlowRequest::Back, &mut world.next);
            }
            HostAction::Nothing
        },
        GameCommand::SkipSplash => {
            on_menu_flow_request(world.screen, world.menu, MenuFlowRequest::SkipSplash, &mut world.next);
            HostAction::Nothing
        },
        GameCommand::OpenSettings => {
            on_menu_flow_request(world.screen, world.menu, MenuFlowRequest::OpenSettings, &mut world.next);
            HostAction::Nothing
        },
        GameCommand::OpenCredits => {
            on_menu_flow_request(world.screen, world.menu, MenuFlowRequest::OpenCredits, &mut world.next);
            HostAction::Nothing
        },
        GameCommand::Continue => {
            if picker {
                let m = confirm_care_menu(&mut world.care_menu, &mut world.satchel, &mut world.next.menu);
                HostAction::PickerConfirmed(m)
            } else {
                on_menu_flow_request(world.screen, world.menu, MenuFlowRequest::Continue, &mut world.next);
                HostAction::Nothing
            }
        },
        GameCommand::QuitToTitle => {
            on_menu_flow_request(world.screen, world.menu, MenuFlowRequest::QuitToTitle, &mut world.next);
            HostAction::Nothing
        },
        GameCommand::ImproveStat { target, amount } => {
            HostAction::StatChanged(world.stats.improve_stat(ImproveStatEvent { target, amount: amount.0 }))
        },
        GameCommand::WorsenStat { target, amount } => {
            HostAction::StatChanged(world.stats.worsen_stat(WorsenStatEvent { target, amount: amount.0 }))
        },
        GameCommand::AdvanceTime { hours_bits } => HostAction::AdvanceTime { hours_bits },
        GameCommand::AdjustVolume { delta_bits } => HostAction::AdjustVolume { delta_bits },
        GameCommand::Screenshot { path } => HostAction::Screenshot { path },
        GameCommand::AdvanceFrames(n) => {
            world.step.add(n);
            HostAction::Nothing
        },
    }
}

} // verus!
