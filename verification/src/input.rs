//! Local input: which control context owns input for the current screen and
//! menu, the bindings of every context, and the verb each action sends.

use vstd::prelude::*;

use crate::app_state::{Menu, Screen};
use crate::command::{GameCommand, MovementIntent};
use crate::menus_model::ListMenuDirection;
use crate::stat_controls::DEBUG_STAT_IMPROVE_AMOUNT;
use crate::stats::{AnimalStat, StatTarget};
use crate::types::{AnimalId, Stat};

verus! {

/// The control context that owns input.
#[derive(Debug, Clone, Copy, PartialEq, Eq, Hash, Structural)]
pub enum InputLayer {
    /// No context owns input (title, loading, fatal error).
    Idle,
    Splash,
    Gameplay,
    CarePicker,
    Menu,
}

pub open spec fn spec_input_layer(screen: Screen, menu: Menu) -> InputLayer {
    if menu == Menu::CareItemPicker {
        InputLayer::CarePicker
    } else if menu != Menu::Closed {
        InputLayer::Menu
    } else {
        match screen {
            Screen::Splash => InputLayer::Splash,
            Screen::Gameplay | Screen::InRoom(_) => InputLayer::Gameplay,
            Screen::Title | Screen::Loading | Screen::FatalError => InputLayer::Idle,
        }
    }
}

/// The care picker owns input while open; any other menu owns it next; with
/// no menu, the screen decides.
pub fn input_layer(screen: Screen, menu: Menu) -> (r: InputLayer)
    ensures
        r == spec_input_layer(screen, menu),
{
    if menu == Menu::CareItemPicker {
        InputLayer::CarePicker
    } else if menu != Menu::Closed {
        InputLayer::Menu
    } else {
        match screen {
            Screen::Splash => InputLayer::Splash,
            Screen::Gameplay | Screen::InRoom(_) => InputLayer::Gameplay,
            Screen::Title | Screen::Loading | Screen::FatalError => InputLayer::Idle,
        }
    }
}

/// Which contexts are active, and whether UI focus is cleared.
#[derive(Debug, Clone, Copy, PartialEq, Eq, Structural)]
pub struct ContextActivity {
    pub gameplay: bool,
    pub care_picker: bool,
    pub menu: bool,
    pub splash: bool,
    pub debug: bool,
    pub clear_focus: bool,
}

pub open spec fn activity_for(layer: InputLayer) -> ContextActivity {
    ContextActivity {
        gameplay: layer == InputLayer::Gameplay,
        care_picker: layer == InputLayer::CarePicker,
        menu: layer == InputLayer::Menu,
        splash: layer == InputLayer::Splash,
        debug: layer == InputLayer::Gameplay,
        clear_focus: layer == InputLayer::Idle || layer == InputLayer::Splash || layer == InputLayer::Gameplay,
    }
}

/// Switch contexts when the owning layer changed since last time: exactly
/// the layer's context is active (debug keys ride along with gameplay), and
/// focus is cleared outside menus. `None` when nothing changed.
pub fn sync_input_contexts(screen: Screen, menu: Menu, last_layer: &mut Option<InputLayer>) -> (r: Option<ContextActivity>)
    ensures
        *old(last_layer) == Some(spec_input_layer(screen, menu)) ==> r is None && *final(last_layer) == *old(last_layer),
        *old(last_layer) != Some(spec_input_layer(screen, menu)) ==> r == Some(activity_for(spec_input_layer(screen, menu)))
            && *final(last_layer) == Some(spec_input_layer(screen, menu)),
{
    let layer = input_layer(screen, menu);
    if *last_layer == Some(layer) {
        return None;
    }
    let activity = ContextActivity {
        gameplay: layer == InputLayer::Gameplay,
        care_picker: layer == InputLayer::CarePicker,
        menu: layer == InputLayer::Menu,
        splash: layer == InputLayer::Splash,
        debug: layer == InputLayer::Gameplay,
        clear_focus: layer == InputLayer::Idle || layer == InputLayer::Splash || layer == InputLayer::Gameplay,
    };
    *last_layer = Some(layer);
    Some(activity)
}

/// At most one context is active at a time, apart from debug keys riding
/// along with gameplay.
pub proof fn law_contexts_exclusive(screen: Screen, menu: Menu)
    ensures
        ({
            let a = activity_for(spec_input_layer(screen, menu));
            &&& a.gameplay ==> !a.care_picker && !a.menu && !a.splash
            &&& a.care_picker ==> !a.gameplay && !a.menu && !a.splash && !a.debug
            &&& a.menu ==> !a.gameplay && !a.care_picker && !a.splash && !a.debug
            &&& a.debug == a.gameplay
        }),
{
}

// ---------------------------------------------------------
// Bindings
// ---------------------------------------------------------

/// A control context.
#[derive(Debug, Clone, Copy, PartialEq, Eq, Hash, Structural)]
pub enum InputContext {
    Gameplay,
    CarePicker,
    Menu,
    Splash,
    Debug,
}

/// An input action.
#[derive(Debug, Clone, Copy, PartialEq, Eq, Hash, Structural)]
pub enum InputAction {
    WorldMove,
    Interact,
    DropItem,
    EnterBuilding,
    ExitRoom,
    Pause,
    CareNavigate,
    CareConfirm,
    CareBack,
    MenuNavigate,
    MenuConfirm,
    MenuBack,
    SkipSplash,
    PollyHunger,
    PollyCleanliness,
    PollyHappiness,
    StompyHunger,
    StompyCleanliness,
    StompyHappiness,
    GeorgieHunger,
    GeorgieCleanliness,
    GeorgieHappiness,
    SirenHunger,
    SirenCleanliness,
    SirenHappiness,
    PushPopHunger,
    PushPopCleanliness,
    PushPopHappiness,
    WorsenAllStats,
    AdvanceDebugTime,
    ToggleDebugUi,
}

/// A keyboard key used by a binding.
#[derive(Debug, Clone, Copy, PartialEq, Eq, Hash, Structural)]
pub enum Key {
    Space,
    KeyK,
    Enter,
    Backspace,
    Escape,
    KeyP,
    KeyW,
    KeyS,
    ArrowUp,
    ArrowDown,
    Digit1,
    Digit2,
    Digit3,
    Digit4,
    Digit5,
    Digit6,
    Digit7,
    Digit8,
    Digit9,
    Digit0,
    KeyI,
    KeyO,
    KeyU,
    KeyJ,
    KeyY,
    Minus,
    NumpadSubtract,
    KeyM,
    Equal,
    NumpadAdd,
    KeyL,
    F12,
}

/// A gamepad button used by a binding.
#[derive(Debug, Clone, Copy, PartialEq, Eq, Hash, Structural)]
pub enum PadButton {
    South,
    East,
    West,
    North,
    Start,
    DPadUp,
    DPadDown,
}

/// One control bound to an action.
#[derive(Debug, Clone, Copy, PartialEq, Eq, Hash, Structural)]
pub enum Control {
    Key(Key),
    Pad(PadButton),
    /// WASD as four directions.
    WasdKeys,
    /// The arrow keys as four directions.
    ArrowKeys,
    /// The d-pad as four directions.
    DPad,
    /// The left stick as a two-axis value.
    LeftStick,
    /// Two keys for the positive and negative direction of one axis.
    KeyAxis(Key, Key),
    /// Two buttons for the positive and negative direction of one axis.
    PadAxis(PadButton, PadButton),
    /// The left stick's vertical axis.
    LeftStickY,
}

/// Bindings of one action: every action is guarded (it fires once per press
/// and consumes the input); directional actions also have a dead zone.
#[derive(Debug, Clone, PartialEq, Eq)]
pub struct ActionBinding {
    pub context: InputContext,
    pub action: InputAction,
    pub dead_zone: bool,
    pub controls: Vec<Control>,
}

/// Every binding, context by context, as the contexts are spawned.
pub open spec fn spec_input_bindings() -> Seq<(InputContext, InputAction, bool, Seq<Control>)> {
    seq![
        (InputContext::Gameplay, InputAction::WorldMove, true, seq![Control::WasdKeys, Control::ArrowKeys, Control::DPad, Control::LeftStick]),
        (InputContext::Gameplay, InputAction::Interact, false, seq![Control::Key(Key::Space), Control::Pad(PadButton::South)]),
        (InputContext::Gameplay, InputAction::DropItem, false, seq![Control::Key(Key::KeyK), Control::Pad(PadButton::West)]),
        (InputContext::Gameplay, InputAction::EnterBuilding, false, seq![Control::Key(Key::Enter), Control::Pad(PadButton::North)]),
        (InputContext::Gameplay, InputAction::ExitRoom, false, seq![Control::Key(Key::Backspace), Control::Pad(PadButton::East)]),
        (InputContext::Gameplay, InputAction::Pause, false, seq![Control::Key(Key::Escape), Control::Key(Key::KeyP), Control::Pad(PadButton::Start)]),
        (InputContext::CarePicker, InputAction::CareNavigate, true, seq![
            Control::KeyAxis(Key::KeyW, Key::KeyS),
            Control::KeyAxis(Key::ArrowUp, Key::ArrowDown),
            Control::PadAxis(PadButton::DPadUp, PadButton::DPadDown),
            Control::LeftStickY,
        ]),
        (InputContext::CarePicker, InputAction::CareConfirm, false, seq![Control::Key(Key::Enter), Control::Key(Key::Space), Control::Pad(PadButton::South)]),
        (InputContext::CarePicker, InputAction::CareBack, false, seq![
            Control::Key(Key::Escape),
            Control::Key(Key::KeyP),
            Control::Pad(PadButton::East),
            Control::Pad(PadButton::Start),
        ]),
        (InputContext::Menu, InputAction::MenuNavigate, true, seq![Control::WasdKeys, Control::ArrowKeys, Control::DPad, Control::LeftStick]),
        (InputContext::Menu, InputAction::MenuConfirm, false, seq![Control::Pad(PadButton::South)]),
        (InputContext::Menu, InputAction::MenuBack, false, seq![
            Control::Key(Key::Escape),
            Control::Key(Key::KeyP),
            Control::Pad(PadButton::East),
            Control::Pad(PadButton::Start),
        ]),
        (InputContext::Splash, InputAction::SkipSplash, false, seq![
            Control::Key(Key::Escape),
            Control::Key(Key::Enter),
            Control::Key(Key::Space),
            Control::Pad(PadButton::South),
            Control::Pad(PadButton::Start),
        ]),
        (InputContext::Debug, InputAction::PollyHunger, false, seq![Control::Key(Key::Digit1)]),
        (InputContext::Debug, InputAction::PollyCleanliness, false, seq![Control::Key(Key::Digit2)]),
        (InputContext::Debug, InputAction::PollyHappiness, false, seq![Control::Key(Key::Digit3)]),
        (InputContext::Debug, InputAction::StompyHunger, false, seq![Control::Key(Key::Digit4)]),
        (InputContext::Debug, InputAction::StompyCleanliness, false, seq![Control::Key(Key::Digit5)]),
        (InputContext::Debug, InputAction::StompyHappiness, false, seq![Control::Key(Key::Digit6)]),
        (InputContext::Debug, InputAction::GeorgieHunger, false, seq![Control::Key(Key::Digit7)]),
        (InputContext::Debug, InputAction::GeorgieCleanliness, false, seq![Control::Key(Key::Digit8)]),
        (InputContext::Debug, InputAction::GeorgieHappiness, false, seq![Control::Key(Key::Digit9)]),
        (InputContext::Debug, InputAction::SirenHunger, false, seq![Control::Key(Key::Digit0)]),
        (InputContext::Debug, InputAction::SirenCleanliness, false, seq![Control::Key(Key::KeyI)]),
        (InputContext::Debug, InputAction::SirenHappiness, false, seq![Control::Key(Key::KeyO)]),
        (InputContext::Debug, InputAction::PushPopHunger, false, seq![Control::Key(Key::KeyU)]),
        (InputContext::Debug, InputAction::PushPopCleanliness, false, seq![Control::Key(Key::KeyJ)]),
        (InputContext::Debug, InputAction::PushPopHappiness, false, seq![Control::Key(Key::KeyY)]),
        (InputContext::Debug, InputAction::WorsenAllStats, false, seq![Control::Key(Key::Minus), Control::Key(Key::NumpadSubtract), Control::Key(Key::KeyM)]),
        (InputContext::Debug, InputAction::AdvanceDebugTime, false, seq![Control::Key(Key::Equal), Control::Key(Key::NumpadAdd), Control::Key(Key::KeyL)]),
        (InputContext::Debug, InputAction::ToggleDebugUi, false, seq![Control::Key(Key::F12)]),
    ]
}

/// The binding matches an entry of the table.
pub open spec fn binding_is(b: ActionBinding, e: (InputContext, InputAction, bool, Seq<Control>)) -> bool {
    b.context == e.0 && b.action == e.1 && b.dead_zone == e.2 && b.controls@ == e.3
}

fn bind(
    out: &mut Vec<ActionBinding>,
    context: InputContext,
    action: InputAction,
    dead_zone: bool,
    controls: Vec<Control>,
)
    ensures
        final(out)@.len() == old(out)@.len() + 1,
        forall|i: int| 0 <= i < old(out)@.len() ==> #[trigger] final(out)@[i] == old(out)@[i],
        final(out)@.last() == (ActionBinding { context, action, dead_zone, controls }),
{
    out.push(ActionBinding { context, action, dead_zone, controls });
}

fn keys1(a: Control) -> (r: Vec<Control>)
    ensures
        r@ == seq![a],
{
    let mut v = Vec::new();
    v.push(a);
    assert(v@ =~= seq![a]);
    v
}

fn keys2(a: Control, b: Control) -> (r: Vec<Control>)
    ensures
        r@ == seq![a, b],
{
    let mut v = Vec::new();
    v.push(a);
    v.push(b);
    assert(v@ =~= seq![a, b]);
    v
}

fn keys3(a: Control, b: Control, c: Control) -> (r: Vec<Control>)
    ensures
        r@ == seq![a, b, c],
{
    let mut v = Vec::new();
    v.push(a);
    v.push(b);
    v.push(c);
    assert(v@ =~= seq![a, b, c]);
    v
}

fn keys4(a: Control, b: Control, c: Control, d: Control) -> (r: Vec<Control>)
    ensures
        r@ == seq![a, b, c, d],
{
    let mut v = Vec::new();
    v.push(a);
    v.push(b);
    v.push(c);
    v.push(d);
    assert(v@ =~= seq![a, b, c, d]);
    v
}

fn keys5(a: Control, b: Control, c: Control, d: Control, e: Control) -> (r: Vec<Control>)
    ensures
        r@ == seq![a, b, c, d, e],
{
    let mut v = Vec::new();
    v.push(a);
    v.push(b);
    v.push(c);
    v.push(d);
    v.push(e);
    assert(v@ =~= seq![a, b, c, d, e]);
    v
}

/// The bindings of every context (see [`spec_input_bindings`]).
#[verifier::rlimit(50)]
pub fn spawn_input_contexts() -> (r: Vec<ActionBinding>)
    ensures
        r@.len() == spec_input_bindings().len(),
        forall|i: int| 0 <= i < r@.len() ==> binding_is(#[trigger] r@[i], spec_input_bindings()[i]),
{
    let mut out: Vec<ActionBinding> = Vec::new();
    bind(&mut out, InputContext::Gameplay, InputAction::WorldMove, true,
        keys4(Control::WasdKeys, Control::ArrowKeys, Control::DPad, Control::LeftStick));
    bind(&mut out, InputContext::Gameplay, InputAction::Interact, false,
        keys2(Control::Key(Key::Space), Control::Pad(PadButton::South)));
    bind(&mut out, InputContext::Gameplay, InputAction::DropItem, false,
        keys2(Control::Key(Key::KeyK), Control::Pad(PadButton::West)));
    bind(&mut out, InputContext::Gameplay, InputAction::EnterBuilding, false,
        keys2(Control::Key(Key::Enter), Control::Pad(PadButton::North)));
    bind(&mut out, InputContext::Gameplay, InputAction::ExitRoom, false,
        keys2(Control::Key(Key::Backspace), Control::Pad(PadButton::East)));
    bind(&mut out, InputContext::Gameplay, InputAction::Pause, false,
        keys3(Control::Key(Key::Escape), Control::Key(Key::KeyP), Control::Pad(PadButton::Start)));
    bind(&mut out, InputContext::CarePicker, InputAction::CareNavigate, true,
        keys4(
            Control::KeyAxis(Key::KeyW, Key::KeyS),
            Control::KeyAxis(Key::ArrowUp, Key::ArrowDown),
            Control::PadAxis(PadButton::DPadUp, PadButton::DPadDown),
            Control::LeftStickY,
        ));
    bind(&mut out, InputContext::CarePicker, InputAction::CareConfirm, false,
        keys3(Control::Key(Key::Enter), Control::Key(Key::Space), Control::Pad(PadButton::South)));
    bind(&mut out, InputContext::CarePicker, InputAction::CareBack, false,
        keys4(Control::Key(Key::Escape), Control::Key(Key::KeyP), Control::Pad(PadButton::East), Control::Pad(PadButton::Start)));
    bind(&mut out, InputContext::Menu, InputAction::MenuNavigate, true,
        keys4(Control::WasdKeys, Control::ArrowKeys, Control::DPad, Control::LeftStick));
    bind(&mut out, InputContext::Menu, InputAction::MenuConfirm, false, keys1(Control::Pad(PadButton::South)));
    bind(&mut out, InputContext::Menu, InputAction::MenuBack, false,
        keys4(Control::Key(Key::Escape), Control::Key(Key::KeyP), Control::Pad(PadButton::East), Control::Pad(PadButton::Start)));
    bind(&mut out, InputContext::Splash, InputAction::SkipSplash, false,
        keys5(
            Control::Key(Key::Escape),
            Control::Key(Key::Enter),
            Control::Key(Key::Space),
            Control::Pad(PadButton::South),
            Control::Pad(PadButton::Start),
        ));
    bind(&mut out, InputContext::Debug, InputAction::PollyHunger, false, keys1(Control::Key(Key::Digit1)));
    bind(&mut out, InputContext::Debug, InputAction::PollyCleanliness, false, keys1(Control::Key(Key::Digit2)));
    bind(&mut out, InputContext::Debug, InputAction::PollyHappiness, false, keys1(Control::Key(Key::Digit3)));
    bind(&mut out, InputContext::Debug, InputAction::StompyHunger, false, keys1(Control::Key(Key::Digit4)));
    bind(&mut out, InputContext::Debug, InputAction::StompyCleanliness, false, keys1(Control::Key(Key::Digit5)));
    bind(&mut out, InputContext::Debug, InputAction::StompyHappiness, false, keys1(Control::Key(Key::Digit6)));
    bind(&mut out, InputContext::Debug, InputAction::GeorgieHunger, false, keys1(Control::Key(Key::Digit7)));
    bind(&mut out, InputContext::Debug, InputAction::GeorgieCleanliness, false, keys1(Control::Key(Key::Digit8)));
    bind(&mut out, InputContext::Debug, InputAction::GeorgieHappiness, false, keys1(Control::Key(Key::Digit9)));
    bind(&mut out, InputContext::Debug, InputAction::SirenHunger, false, keys1(Control::Key(Key::Digit0)));
    bind(&mut out, InputContext::Debug, InputAction::SirenCleanliness, false, keys1(Control::Key(Key::KeyI)));
    bind(&mut out, InputContext::Debug, InputAction::SirenHappiness, false, keys1(Control::Key(Key::KeyO)));
    bind(&mut out, InputContext::Debug, InputAction::PushPopHunger, false, keys1(Control::Key(Key::KeyU)));
    bind(&mut out, InputContext::Debug, InputAction::PushPopCleanliness, false, keys1(Control::Key(Key::KeyJ)));
    bind(&mut out, InputContext::Debug, InputAction::PushPopHappiness, false, keys1(Control::Key(Key::KeyY)));
    bind(&mut out, InputContext::Debug, InputAction::WorsenAllStats, false,
        keys3(Control::Key(Key::Minus), Control::Key(Key::NumpadSubtract), Control::Key(Key::KeyM)));
    bind(&mut out, InputContext::Debug, InputAction::AdvanceDebugTime, false,
        keys3(Control::Key(Key::Equal), Control::Key(Key::NumpadAdd), Control::Key(Key::KeyL)));
    bind(&mut out, InputContext::Debug, InputAction::ToggleDebugUi, false, keys1(Control::Key(Key::F12)));
    out
}

// ---------------------------------------------------------
// Actions to verbs
// ---------------------------------------------------------

/// What starting an action sends.
#[derive(Debug, Clone, PartialEq, Eq)]
pub enum ActionEffect {
    Command(GameCommand),
    /// Worsen every stat (the debug key).
    WorsenAllStats,
    /// Fast-forward the debug time step.
    AdvanceDebugTime,
    /// Toggle the UI debug overlay.
    ToggleUiDebug,
    /// Activate the focused menu row.
    ConfirmFocused,
    /// Directional actions carry a value and are handled on their own.
    Directional,
}

pub open spec fn debug_care(id: AnimalId, stat: AnimalStat) -> ActionEffect {
    ActionEffect::Command(GameCommand::ImproveStat {
        target: StatTarget::Animal { id, stat },
        amount: Stat(DEBUG_STAT_IMPROVE_AMOUNT),
    })
}

pub open spec fn spec_action_effect(action: InputAction) -> ActionEffect {
    match action {
        InputAction::WorldMove | InputAction::CareNavigate | InputAction::MenuNavigate => ActionEffect::Directional,
        InputAction::Interact => ActionEffect::Command(GameCommand::Interact),
        InputAction::DropItem => ActionEffect::Command(GameCommand::DropItem),
        InputAction::EnterBuilding => ActionEffect::Command(GameCommand::EnterBuilding),
        InputAction::ExitRoom => ActionEffect::Command(GameCommand::ExitRoom),
        InputAction::Pause => ActionEffect::Command(GameCommand::PauseToggle),
        InputAction::CareConfirm => ActionEffect::Command(GameCommand::Continue),
        InputAction::CareBack => ActionEffect::Command(GameCommand::Back),
        InputAction::MenuConfirm => ActionEffect::ConfirmFocused,
        InputAction::MenuBack => ActionEffect::Command(GameCommand::Back),
        InputAction::SkipSplash => ActionEffect::Command(GameCommand::SkipSplash),
        InputAction::PollyHunger => debug_care(AnimalId::Polly, AnimalStat::Hunger),
        InputAction::PollyCleanliness => debug_care(AnimalId::Polly, AnimalStat::Cleanliness),
        InputAction::PollyHappiness => debug_care(AnimalId::Polly, AnimalStat::Happiness),
        InputAction::StompyHunger => debug_care(AnimalId::Stompy, AnimalStat::Hunger),
        InputAction::StompyCleanliness => debug_care(AnimalId::Stompy, AnimalStat::Cleanliness),
        InputAction::StompyHappiness => debug_care(AnimalId::Stompy, AnimalStat::Happiness),
        InputAction::GeorgieHunger => debug_care(AnimalId::Georgie, AnimalStat::Hunger),
        InputAction::GeorgieCleanliness => debug_care(AnimalId::Georgie, AnimalStat::Cleanliness),
        InputAction::GeorgieHappiness => debug_care(AnimalId::Georgie, AnimalStat::Happiness),
        InputAction::SirenHunger => debug_care(AnimalId::Siren, AnimalStat::Hunger),
        InputAction::SirenCleanliness => debug_care(AnimalId::Siren, AnimalStat::Cleanliness),
        InputAction::SirenHappiness => debug_care(AnimalId::Siren, AnimalStat::Happiness),
        InputAction::PushPopHunger => debug_care(AnimalId::PushPop, AnimalStat::Hunger),
        InputAction::PushPopCleanliness => debug_care(AnimalId::PushPop, AnimalStat::Cleanliness),
        InputAction::PushPopHappiness => debug_care(AnimalId::PushPop, AnimalStat::Happiness),
        InputAction::WorsenAllStats => ActionEffect::WorsenAllStats,
        InputAction::AdvanceDebugTime => ActionEffect::AdvanceDebugTime,
        InputAction::ToggleDebugUi => ActionEffect::ToggleUiDebug,
    }
}

fn care(id: AnimalId, stat: AnimalStat) -> (r: ActionEffect)
    ensures
        r == debug_care(id, stat),
{
    ActionEffect::Command(GameCommand::ImproveStat {
        target: StatTarget::Animal { id, stat },
        amount: Stat(DEBUG_STAT_IMPROVE_AMOUNT),
    })
}

/// The verb (or other effect) of starting `action`.
pub fn action_effect(action: InputAction) -> (r: ActionEffect)
    ensures
        r == spec_action_effect(action),
{
    match action {
        InputAction::WorldMove | InputAction::CareNavigate | InputAction::MenuNavigate => ActionEffect::Directional,
        InputAction::Interact => ActionEffect::Command(GameCommand::Interact),
        InputAction::DropItem => ActionEffect::Command(GameCommand::DropItem),
        InputAction::EnterBuilding => ActionEffect::Command(GameCommand::EnterBuilding),
        InputAction::ExitRoom => ActionEffect::Command(GameCommand::ExitRoom),
        InputAction::Pause => ActionEffect::Command(GameCommand::PauseToggle),
        InputAction::CareConfirm => ActionEffect::Command(GameCommand::Continue),
        InputAction::CareBack => ActionEffect::Command(GameCommand::Back),
        InputAction::MenuConfirm => ActionEffect::ConfirmFocused,
        InputAction::MenuBack => ActionEffect::Command(GameCommand::Back),
        InputAction::SkipSplash => ActionEffect::Command(GameCommand::SkipSplash),
        InputAction::PollyHunger => care(AnimalId::Polly, AnimalStat::Hunger),
        InputAction::PollyCleanliness => care(AnimalId::Polly, AnimalStat::Cleanliness),
        InputAction::PollyHappiness => care(AnimalId::Polly, AnimalStat::Happiness),
        InputAction::StompyHunger => care(AnimalId::Stompy, AnimalStat::Hunger),
        InputAction::StompyCleanliness => care(AnimalId::Stompy, AnimalStat::Cleanliness),
        InputAction::StompyHappiness => care(AnimalId::Stompy, AnimalStat::Happiness),
        InputAction::GeorgieHunger => care(AnimalId::Georgie, AnimalStat::Hunger),
        InputAction::GeorgieCleanliness => care(AnimalId::Georgie, AnimalStat::Cleanliness),
        InputAction::GeorgieHappiness => care(AnimalId::Georgie, AnimalStat::Happiness),
        InputAction::SirenHunger => care(AnimalId::Siren, AnimalStat::Hunger),
        InputAction::SirenCleanliness => care(AnimalId::Siren, AnimalStat::Cleanliness),
        InputAction::SirenHappiness => care(AnimalId::Siren, AnimalStat::Happiness),
        InputAction::PushPopHunger => care(AnimalId::PushPop, AnimalStat::Hunger),
        InputAction::PushPopCleanliness => care(AnimalId::PushPop, AnimalStat::Cleanliness),
        InputAction::PushPopHappiness => care(AnimalId::PushPop, AnimalStat::Happiness),
        InputAction::WorsenAllStats => ActionEffect::WorsenAllStats,
        InputAction::AdvanceDebugTime => ActionEffect::AdvanceDebugTime,
        InputAction::ToggleDebugUi => ActionEffect::ToggleUiDebug,
    }
}

/// The care picker's navigation: a positive axis value moves up.
pub fn navigate_care_picker(positive: bool) -> (r: GameCommand)
    ensures
        r == GameCommand::NavigateListMenu(if positive { ListMenuDirection::Up } else { ListMenuDirection::Down }),
{
    GameCommand::NavigateListMenu(if positive { ListMenuDirection::Up } else { ListMenuDirection::Down })
}

/// The held direction keys become a walk verb: up wins over down, down over
/// left, left over right; with none held the player stops.
pub fn held_direction_command(up: bool, down: bool, left: bool, right: bool) -> (r: GameCommand)
    ensures
        r == (if up {
            GameCommand::Move(MovementIntent::Up)
        } else if down {
            GameCommand::Move(MovementIntent::Down)
        } else if left {
            GameCommand::Move(MovementIntent::Left)
        } else if right {
            GameCommand::Move(MovementIntent::Right)
        } else {
            GameCommand::MoveStop
        }),
{
    if up {
        GameCommand::Move(MovementIntent::Up)
    } else if down {
        GameCommand::Move(MovementIntent::Down)
    } else if left {
        GameCommand::Move(MovementIntent::Left)
    } else if right {
        GameCommand::Move(MovementIntent::Right)
    } else {
        GameCommand::MoveStop
    }
}

/// A fresh up or down press in the care picker becomes one walk verb (up
/// wins); otherwise nothing is sent.
pub fn picker_press_command(up_pressed: bool, down_pressed: bool) -> (r: Option<GameCommand>)
    ensures
        r == (if up_pressed {
            Some(GameCommand::Move(MovementIntent::Up))
        } else if down_pressed {
            Some(GameCommand::Move(MovementIntent::Down))
        } else {
            None::<GameCommand>
        }),
{
    if up_pressed {
        Some(GameCommand::Move(MovementIntent::Up))
    } else if down_pressed {
        Some(GameCommand::Move(MovementIntent::Down))
    } else {
        None
    }
}

/// Menu navigation by direction.
#[derive(Debug, Clone, PartialEq, Eq)]
pub enum MenuNavigation {
    /// Move the list cursor of the main or pause menu.
    Command(GameCommand),
    /// Move UI focus spatially (settings, credits), showing the focus ring.
    Focus(MovementIntent),
    Ignore,
}

/// What a menu navigation in direction `intent` does in `menu`: list menus
/// move their cursor (up and down only); grid menus move focus spatially.
pub fn navigate_menu(menu: Menu, intent: Option<MovementIntent>) -> (r: MenuNavigation)
    ensures
        r == (match intent {
            None => MenuNavigation::Ignore,
            Some(i) => match menu {
                Menu::Main | Menu::Pause => match i {
                    MovementIntent::Up => MenuNavigation::Command(GameCommand::NavigateListMenu(ListMenuDirection::Up)),
                    MovementIntent::Down => MenuNavigation::Command(GameCommand::NavigateListMenu(ListMenuDirection::Down)),
                    _ => MenuNavigation::Ignore,
                },
                Menu::Settings | Menu::Credits => MenuNavigation::Focus(i),
                _ => MenuNavigation::Ignore,
            },
        }),
{
    let i = match intent {
        None => return MenuNavigation::Ignore,
        Some(i) => i,
    };
    match menu {
        Menu::Main | Menu::Pause => match i {
            MovementIntent::Up => MenuNavigation::Command(GameCommand::NavigateListMenu(ListMenuDirection::Up)),
            MovementIntent::Down => MenuNavigation::Command(GameCommand::NavigateListMenu(ListMenuDirection::Down)),
            _ => MenuNavigation::Ignore,
        },
        Menu::Settings | Menu::Credits => MenuNavigation::Focus(i),
        _ => MenuNavigation::Ignore,
    }
}

} // verus!
