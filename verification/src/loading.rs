//! Loading-screen decisions: when loading completes, when a failed or stalled
//! load returns to the title, and what the player is told about it.

use vstd::prelude::*;

use crate::app_state::Screen;
use crate::collision::{
    CollisionLoadFailures, CollisionMapKey, CollisionMasks, DependencyLoadState, collision_ready,
    required_collision_keys, spec_collision_ready, spec_key_debug_name, spec_required_collision_keys,
    spec_toast_message,
};
use crate::toast::TriggerToastEvent;

verus! {

/// Loading deadlines, in milliseconds.
#[derive(Debug, Clone, Copy, PartialEq, Eq, Structural)]
pub struct LoadingTiming {
    pub timeout_ms: u64,
    pub failure_return_ms: u64,
}

/// Why a loading visit timed out without an explicit failure.
#[derive(Debug, Clone, Default)]
pub struct LoadingTimeoutDiagnostic {
    pub timed_out: bool,
    pub missing_keys: Vec<String>,
    pub is_all_done: bool,
    pub has_level_assets: bool,
    pub has_interior_assets: bool,
}

pub open spec fn timeout_message() -> Seq<char> {
    "Loading timed out. Returning to title…"@
}

impl LoadingTimeoutDiagnostic {
    pub open spec fn is_cleared(&self) -> bool {
        &&& !self.timed_out
        &&& self.missing_keys@.len() == 0
        &&& !self.is_all_done
        &&& !self.has_level_assets
        &&& !self.has_interior_assets
    }

    pub fn clear(&mut self)
        ensures
            final(self).is_cleared(),
    {
        self.timed_out = false;
        self.missing_keys = Vec::new();
        self.is_all_done = false;
        self.has_level_assets = false;
        self.has_interior_assets = false;
    }

    /// Toast-sized copy for a timed-out load; nothing otherwise.
    pub fn player_message(&self) -> (r: Option<String>)
        ensures
            !self.timed_out ==> r is None,
            self.timed_out ==> (r matches Some(m) && m@ == timeout_message()),
    {
        if !self.timed_out {
            return None;
        }
        Some(String::from_str("Loading timed out. Returning to title…"))
    }
}

/// Loading is complete when no map failed, every tracked resource is done,
/// and every required collision map has a mask.
pub fn loading_complete(failures: &CollisionLoadFailures, resources_done: bool, masks: &CollisionMasks) -> (r: bool)
    ensures
        r == (failures.entries@.len() == 0 && resources_done && spec_collision_ready(masks@)),
{
    failures.is_empty() && resources_done && collision_ready(masks)
}

/// Masks are built during loading once the map assets exist, until every
/// required map has one.
pub fn should_build_masks_during_loading(has_level_assets: bool, has_interior_assets: bool, masks: &CollisionMasks) -> (r: bool)
    ensures
        r == (has_level_assets && has_interior_assets && !spec_collision_ready(masks@)),
{
    has_level_assets && has_interior_assets && !collision_ready(masks)
}

/// Every required map's dependencies have finished loading, one way or the
/// other.
pub fn all_required_collision_maps_terminal(states: &Vec<Option<DependencyLoadState>>) -> (r: bool)
    ensures
        r == (forall|i: int| 0 <= i < states@.len() ==> (#[trigger] states@[i]) == Some(DependencyLoadState::Loaded)
            || states@[i] == Some(DependencyLoadState::Failed)),
{
    let mut i: usize = 0;
    while i < states.len()
        invariant
            0 <= i <= states@.len(),
            forall|j: int| 0 <= j < i ==> (#[trigger] states@[j]) == Some(DependencyLoadState::Loaded)
                || states@[j] == Some(DependencyLoadState::Failed),
        decreases states.len() - i,
    {
        match states[i] {
            Some(DependencyLoadState::Loaded) | Some(DependencyLoadState::Failed) => {},
            _ => return false,
        }
        i += 1;
    }
    true
}

/// After a map failed, return to the title once the failure-return delay has
/// passed since loading started.
pub fn loading_failure_return(elapsed_ms: Option<u64>, timing: LoadingTiming, failures: &CollisionLoadFailures) -> (r: Option<Screen>)
    ensures
        r == (if failures.entries@.len() > 0 && (elapsed_ms matches Some(e) && e >= timing.failure_return_ms) {
            Some(Screen::Title)
        } else {
            None::<Screen>
        }),
{
    if failures.is_empty() {
        return None;
    }
    match elapsed_ms {
        None => None,
        Some(e) => if e < timing.failure_return_ms {
            None
        } else {
            Some(Screen::Title)
        },
    }
}

/// Debug names of the required maps that have no mask, in required order.
pub open spec fn missing_key_names(masks: Map<CollisionMapKey, Set<crate::types::TilePosition>>) -> Seq<Seq<char>> {
    spec_required_collision_keys().filter(|k: CollisionMapKey| !masks.contains_key(k)).map_values(
        |k: CollisionMapKey| spec_key_debug_name(k),
    )
}

/// The watchdog for a load that stalls without an explicit failure: once the
/// timeout has passed (and loading is not in fact complete), it records why
/// and returns to the title.
pub fn loading_timeout_watchdog(
    elapsed_ms: Option<u64>,
    timing: LoadingTiming,
    resources_done: bool,
    masks: &CollisionMasks,
    failures: &CollisionLoadFailures,
    has_level_assets: bool,
    has_interior_assets: bool,
    timeout: &mut LoadingTimeoutDiagnostic,
) -> (r: Option<Screen>)
    ensures
        ({
            let fires = failures.entries@.len() == 0 && (elapsed_ms matches Some(e) && e >= timing.timeout_ms)
                && !(resources_done && spec_collision_ready(masks@));
            &&& fires ==> {
                &&& r == Some(Screen::Title)
                &&& final(timeout).timed_out
                &&& final(timeout).is_all_done == resources_done
                &&& final(timeout).has_level_assets == has_level_assets
                &&& final(timeout).has_interior_assets == has_interior_assets
                &&& final(timeout).missing_keys@.len() == missing_key_names(masks@).len()
                &&& forall|i: int| 0 <= i < final(timeout).missing_keys@.len()
                    ==> (#[trigger] final(timeout).missing_keys@[i])@ == missing_key_names(masks@)[i]
            }
            &&& !fires ==> r is None && final(timeout).timed_out == old(timeout).timed_out
                && final(timeout).missing_keys@ == old(timeout).missing_keys@
        }),
{
    if !failures.is_empty() {
        return None;
    }
    let e = match elapsed_ms {
        None => return None,
        Some(e) => e,
    };
    if e < timing.timeout_ms {
        return None;
    }
    if resources_done && collision_ready(masks) {
        return None;
    }
    let keys = required_collision_keys();
    let ghost pred = |k: CollisionMapKey| !masks@.contains_key(k);
    let ghost f = |k: CollisionMapKey| spec_key_debug_name(k);
    let mut missing: Vec<String> = Vec::new();
    let mut i: usize = 0;
    while i < 3
        invariant
            0 <= i <= 3,
            keys@ == spec_required_collision_keys(),
            pred == (|k: CollisionMapKey| !masks@.contains_key(k)),
            f == (|k: CollisionMapKey| spec_key_debug_name(k)),
            missing@.len() == keys@.take(i as int).filter(pred).map_values(f).len(),
            forall|j: int| 0 <= j < missing@.len() ==> (#[trigger] missing@[j])@ == keys@.take(i as int).filter(pred).map_values(f)[j],
        decreases 3 - i,
    {
        let k = keys[i];
        proof {
            assert(keys@.take(i + 1) =~= keys@.take(i as int).push(k));
            keys@.take(i as int).lemma_filter_push(k, pred);
        }
        if !masks.contains(k) {
            missing.push(k.debug_name());
        }
        proof {
            let prev = keys@.take(i as int).filter(pred);
            let next = keys@.take(i + 1).filter(pred);
            if pred(k) {
                assert(next == prev.push(k));
                assert(next.map_values(f) =~= prev.map_values(f).push(f(k)));
            } else {
                assert(next == prev);
            }
        }
        i += 1;
    }
    assert(keys@.take(3) =~= keys@);
    timeout.timed_out = true;
    timeout.missing_keys = missing;
    timeout.is_all_done = resources_done;
    timeout.has_level_assets = has_level_assets;
    timeout.has_interior_assets = has_interior_assets;
    Some(Screen::Title)
}

/// On the title screen, surface the last loading problem as a toast that
/// stays: the map failures if any, else a timeout.
pub fn surface_loading_diagnostic_on_title(failures: &CollisionLoadFailures, timeout: &LoadingTimeoutDiagnostic) -> (r: Option<TriggerToastEvent>)
    ensures
        failures.entries@.len() > 0 ==> (r matches Some(t) && t.message@ == spec_toast_message(failures.entries@)
            && t.duration_ms is None),
        failures.entries@.len() == 0 && timeout.timed_out ==> (r matches Some(t) && t.message@ == timeout_message()
            && t.duration_ms is None),
        failures.entries@.len() == 0 && !timeout.timed_out ==> r is None,
{
    if !failures.is_empty() {
        return Some(TriggerToastEvent::presence(failures.toast_message()));
    }
    match timeout.player_message() {
        Some(message) => Some(TriggerToastEvent::presence(message)),
        None => None,
    }
}

} // verus!
