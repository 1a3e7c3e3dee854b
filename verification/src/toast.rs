//! The toast notification: what a trigger or a dismissal does to the single
//! on-screen toast, and the building-entrance prompts.

use vstd::prelude::*;

use crate::command::BuildingEntrance;
use crate::text::concat2;

verus! {

/// Slide duration of the toast, in milliseconds.
pub const TOAST_SLIDE_DURATION_MS: u64 = 300;

/// How long a temporary toast stays on screen, in milliseconds.
pub const TOAST_DEFAULT_DELAY_MS: u64 = 2400;

/// Show a toast with `message`; `duration_ms` is how long it stays before
/// sliding out, `None` for a toast that stays until dismissed.
#[derive(Debug, Clone, PartialEq, Eq)]
pub struct TriggerToastEvent {
    pub message: String,
    pub duration_ms: Option<u64>,
}

impl TriggerToastEvent {
    /// A temporary toast with the default delay.
    pub fn new(message: String) -> (r: Self)
        ensures
            r.message@ == message@,
            r.duration_ms == Some(TOAST_DEFAULT_DELAY_MS),
    {
        TriggerToastEvent { message, duration_ms: Some(TOAST_DEFAULT_DELAY_MS) }
    }

    /// A toast that stays visible until dismissed.
    pub fn presence(message: String) -> (r: Self)
        ensures
            r.message@ == message@,
            r.duration_ms is None,
    {
        TriggerToastEvent { message, duration_ms: None }
    }
}

/// Where a slide starts.
#[derive(Debug, Clone, Copy, PartialEq, Eq, Structural)]
pub enum SlideStart {
    /// The toast's current position.
    Current,
    /// Below the screen.
    Offscreen,
    /// The resting on-screen position.
    Onscreen,
}

/// The toast on screen, as far as the decisions need it: whether its
/// position is a plain pixel offset, and whether it despawns when its
/// animation completes.
#[derive(Debug, Clone, Copy, PartialEq, Eq, Structural)]
pub struct ActiveToastInfo {
    pub bottom_is_px: bool,
    pub dismissal_marker: bool,
}

/// What showing a toast does.
#[derive(Debug, Clone, PartialEq, Eq)]
pub struct ToastPlan {
    /// Spawn a new toast (none was on screen) or update the active one.
    pub spawn_new: bool,
    pub message: String,
    /// Where the slide-in starts; it always ends on screen.
    pub slide_in_from: SlideStart,
    pub slide_ms: u64,
    /// The hold before sliding out (and then despawning); `None` keeps the
    /// toast until it is dismissed.
    pub hold_ms: Option<u64>,
    /// Whether the toast despawns when its animation completes.
    pub dismissal_marker: bool,
}

/// Plan showing `event`: an active toast is reused (its text replaced and
/// its slide restarted from where it is); otherwise a new toast slides in
/// from below the screen.
pub fn plan_toast(active: Option<ActiveToastInfo>, event: &TriggerToastEvent) -> (r: ToastPlan)
    ensures
        r.message@ == event.message@,
        r.spawn_new == active is None,
        r.slide_in_from == (match active {
            Some(a) => if a.bottom_is_px { SlideStart::Current } else { SlideStart::Offscreen },
            None => SlideStart::Offscreen,
        }),
        r.slide_ms == TOAST_SLIDE_DURATION_MS,
        r.hold_ms == event.duration_ms,
        r.dismissal_marker == event.duration_ms is Some,
{
    let slide_in_from = match active {
        Some(a) => if a.bottom_is_px { SlideStart::Current } else { SlideStart::Offscreen },
        None => SlideStart::Offscreen,
    };
    ToastPlan {
        spawn_new: active.is_none(),
        message: event.message.clone(),
        slide_in_from,
        slide_ms: TOAST_SLIDE_DURATION_MS,
        hold_ms: event.duration_ms,
        dismissal_marker: event.duration_ms.is_some(),
    }
}

/// Plan dismissing the toast: an active toast slides out from where it is
/// (or from its resting position) and then despawns; with no toast nothing
/// happens.
pub fn plan_dismiss(active: Option<ActiveToastInfo>) -> (r: Option<SlideStart>)
    ensures
        active is None ==> r is None,
        active matches Some(a) ==> r == Some(if a.bottom_is_px { SlideStart::Current } else { SlideStart::Onscreen }),
{
    match active {
        Some(a) => Some(if a.bottom_is_px { SlideStart::Current } else { SlideStart::Onscreen }),
        None => None,
    }
}

/// A finished toast animation despawns the toast only when it carries the
/// dismissal marker.
pub fn despawn_on_anim_completed(info: ActiveToastInfo) -> (r: bool)
    ensures
        r == info.dismissal_marker,
{
    info.dismissal_marker
}

pub open spec fn spec_entrance_name(entrance: BuildingEntrance) -> Seq<char> {
    match entrance {
        BuildingEntrance::NutritionHouse => "Nutrition House"@,
        BuildingEntrance::PushPopEnclosure => "Push Pop Enclosure"@,
        _ => "Unknown Area"@,
    }
}

/// The prompt shown while the player stands on an entrance; it stays until
/// the player walks off.
pub fn player_entered_building(entrance: BuildingEntrance) -> (r: TriggerToastEvent)
    ensures
        r.message@ == "Press [Enter] to enter "@ + spec_entrance_name(entrance),
        r.duration_ms is None,
{
    let name = match entrance {
        BuildingEntrance::NutritionHouse => "Nutrition House",
        BuildingEntrance::PushPopEnclosure => "Push Pop Enclosure",
        _ => "Unknown Area",
    };
    TriggerToastEvent::presence(concat2("Press [Enter] to enter ", name))
}

/// A care-feedback message becomes a temporary toast.
pub fn care_feedback_toast(message: String) -> (r: TriggerToastEvent)
    ensures
        r.message@ == message@,
        r.duration_ms == Some(TOAST_DEFAULT_DELAY_MS),
{
    TriggerToastEvent::new(message)
}

} // verus!
