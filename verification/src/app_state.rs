//! App-wide screen, menu and pause states, and the tile-interaction policy.

use vstd::prelude::*;

verus! {

/// Whether or not the game is paused.
#[derive(Copy, Clone, Eq, PartialEq, Hash, Debug, Default, Structural)]
pub struct Pause(pub bool);

/// A room interior the player can be inside.
#[derive(Clone, Copy, Eq, PartialEq, Hash, Debug, Default, Structural)]
pub enum InRoom {
    #[default]
    NutritionHouse,
    PushPopEnclosure,
    /// Reserved for a future pasture interior; not enterable in gameplay yet.
    Pasture,
    /// Reserved for a future reptile enclosure interior; not enterable in gameplay yet.
    ReptileEnclosure,
}

/// The game's main screen states.
#[derive(Copy, Clone, Eq, PartialEq, Hash, Debug, Default, Structural)]
pub enum Screen {
    #[default]
    Splash,
    Title,
    Loading,
    /// A required startup asset failed or Loading timed out; the process cannot
    /// safely enter gameplay.
    FatalError,
    Gameplay,
    InRoom(InRoom),
}

/// The game's menu states.
#[derive(Copy, Clone, Eq, PartialEq, Hash, Debug, Default, Structural)]
pub enum Menu {
    /// No overlay menu is open.
    #[default]
    Closed,
    Main,
    Credits,
    Settings,
    Pause,
    /// In-world care item picker (fridge, etc.).
    CareItemPicker,
}

pub open spec fn spec_screen_supports_tile_interaction(screen: Screen) -> bool {
    screen is Gameplay || screen is InRoom
}

/// Whether `screen` represents a world where tile interaction exists.
pub fn screen_supports_tile_interaction(screen: Screen) -> (r: bool)
    ensures
        r == spec_screen_supports_tile_interaction(screen),
{
    match screen {
        Screen::Gameplay | Screen::InRoom(_) => true,
        _ => false,
    }
}

pub open spec fn spec_tile_interaction_allowed(screen: Screen, menu: Menu) -> bool {
    spec_screen_supports_tile_interaction(screen) && menu == Menu::Closed
}

/// Tile interaction is available on the overview and in every room interior,
/// but any active overlay menu owns input until it is closed.
pub fn tile_interaction_allowed(screen: Screen, menu: Menu) -> (r: bool)
    ensures
        r == spec_tile_interaction_allowed(screen, menu),
{
    screen_supports_tile_interaction(screen) && menu == Menu::Closed
}

/// Every room interior.
pub open spec fn spec_all_rooms() -> Seq<InRoom> {
    seq![InRoom::NutritionHouse, InRoom::PushPopEnclosure, InRoom::Pasture, InRoom::ReptileEnclosure]
}

/// Every screen value, each room interior on its own.
pub open spec fn spec_all_screens() -> Seq<Screen> {
    seq![Screen::Splash, Screen::Title, Screen::Loading, Screen::FatalError, Screen::Gameplay]
        + spec_all_rooms().map_values(|r: InRoom| Screen::InRoom(r))
}

/// Every menu value.
pub open spec fn spec_all_menus() -> Seq<Menu> {
    seq![Menu::Closed, Menu::Main, Menu::Credits, Menu::Settings, Menu::Pause, Menu::CareItemPicker]
}

pub fn all_screens() -> (r: Vec<Screen>)
    ensures
        r@ == spec_all_screens(),
{
    let mut v: Vec<Screen> = Vec::new();
    v.push(Screen::Splash);
    v.push(Screen::Title);
    v.push(Screen::Loading);
    v.push(Screen::FatalError);
    v.push(Screen::Gameplay);
    v.push(Screen::InRoom(InRoom::NutritionHouse));
    v.push(Screen::InRoom(InRoom::PushPopEnclosure));
    v.push(Screen::InRoom(InRoom::Pasture));
    v.push(Screen::InRoom(InRoom::ReptileEnclosure));
    assert(v@ =~= spec_all_screens());
    v
}

pub fn all_menus() -> (r: Vec<Menu>)
    ensures
        r@ == spec_all_menus(),
{
    let mut v: Vec<Menu> = Vec::new();
    v.push(Menu::Closed);
    v.push(Menu::Main);
    v.push(Menu::Credits);
    v.push(Menu::Settings);
    v.push(Menu::Pause);
    v.push(Menu::CareItemPicker);
    assert(v@ =~= spec_all_menus());
    v
}

/// The lists are complete: every screen and every menu value occurs.
pub proof fn law_state_lists_complete(screen: Screen, menu: Menu)
    ensures
        spec_all_screens().contains(screen),
        spec_all_menus().contains(menu),
{
    let s = spec_all_screens();
    match screen {
        Screen::Splash => assert(s[0] == screen),
        Screen::Title => assert(s[1] == screen),
        Screen::Loading => assert(s[2] == screen),
        Screen::FatalError => assert(s[3] == screen),
        Screen::Gameplay => assert(s[4] == screen),
        Screen::InRoom(InRoom::NutritionHouse) => assert(s[5] == screen),
        Screen::InRoom(InRoom::PushPopEnclosure) => assert(s[6] == screen),
        Screen::InRoom(InRoom::Pasture) => assert(s[7] == screen),
        Screen::InRoom(InRoom::ReptileEnclosure) => assert(s[8] == screen),
    }
    let m = spec_all_menus();
    match menu {
        Menu::Closed => assert(m[0] == menu),
        Menu::Main => assert(m[1] == menu),
        Menu::Credits => assert(m[2] == menu),
        Menu::Settings => assert(m[3] == menu),
        Menu::Pause => assert(m[4] == menu),
        Menu::CareItemPicker => assert(m[5] == menu),
    }
}

/// Tile interaction is allowed exactly on the overview and in room
/// interiors, with no menu open.
pub proof fn law_tile_interaction_policy(screen: Screen, menu: Menu)
    ensures
        spec_tile_interaction_allowed(screen, menu) <==> ((screen == Screen::Gameplay || screen is InRoom)
            && menu == Menu::Closed),
{
}

} // verus!
