//! Stat events raised by debug controls and by decay.

use vstd::prelude::*;

use crate::stats::{AnimalStat, EnclosureStat, ImproveStatEvent, StatTarget, WorsenStatEvent};
use crate::types::{AnimalId, EnclosureId};

verus! {

/// Amount a debug care key restores.
pub const DEBUG_STAT_IMPROVE_AMOUNT: u32 = 250;

/// Amount the debug "worsen all" key removes from every stat.
pub const DEBUG_STAT_WORSEN_AMOUNT: u32 = 100;

/// The keyboard keys the debug stat controls react to.
#[derive(Debug, Clone, Copy, PartialEq, Eq, Hash, Structural)]
pub enum DebugKey {
    Digit1,
    Digit2,
    Digit3,
    Digit4,
    Digit5,
    Digit6,
    Digit7,
    Digit8,
    Digit9,
    Digit0,
    KeyI,
    KeyO,
    KeyU,
    KeyJ,
    KeyY,
    Minus,
    NumpadSubtract,
    KeyM,
    Equal,
    NumpadAdd,
    KeyL,
}

/// The care keys, in the order they are checked: for each animal, hunger,
/// cleanliness and happiness.
pub open spec fn debug_care_table() -> Seq<(DebugKey, AnimalId, AnimalStat)> {
    seq![
        (DebugKey::Digit1, AnimalId::Polly, AnimalStat::Hunger),
        (DebugKey::Digit2, AnimalId::Polly, AnimalStat::Cleanliness),
        (DebugKey::Digit3, AnimalId::Polly, AnimalStat::Happiness),
        (DebugKey::Digit4, AnimalId::Stompy, AnimalStat::Hunger),
        (DebugKey::Digit5, AnimalId::Stompy, AnimalStat::Cleanliness),
        (DebugKey::Digit6, AnimalId::Stompy, AnimalStat::Happiness),
        (DebugKey::Digit7, AnimalId::Georgie, AnimalStat::Hunger),
        (DebugKey::Digit8, AnimalId::Georgie, AnimalStat::Cleanliness),
        (DebugKey::Digit9, AnimalId::Georgie, AnimalStat::Happiness),
        (DebugKey::Digit0, AnimalId::Siren, AnimalStat::Hunger),
        (DebugKey::KeyI, AnimalId::Siren, AnimalStat::Cleanliness),
        (DebugKey::KeyO, AnimalId::Siren, AnimalStat::Happiness),
        (DebugKey::KeyU, AnimalId::PushPop, AnimalStat::Hunger),
        (DebugKey::KeyJ, AnimalId::PushPop, AnimalStat::Cleanliness),
        (DebugKey::KeyY, AnimalId::PushPop, AnimalStat::Happiness),
    ]
}

fn debug_care_table_exec() -> (r: Vec<(DebugKey, AnimalId, AnimalStat)>)
    ensures
        r@ == debug_care_table(),
{
    let mut v: Vec<(DebugKey, AnimalId, AnimalStat)> = Vec::new();
    v.push((DebugKey::Digit1, AnimalId::Polly, AnimalStat::Hunger));
    v.push((DebugKey::Digit2, AnimalId::Polly, AnimalStat::Cleanliness));
    v.push((DebugKey::Digit3, AnimalId::Polly, AnimalStat::Happiness));
    v.push((DebugKey::Digit4, AnimalId::Stompy, AnimalStat::Hunger));
    v.push((DebugKey::Digit5, AnimalId::Stompy, AnimalStat::Cleanliness));
    v.push((DebugKey::Digit6, AnimalId::Stompy, AnimalStat::Happiness));
    v.push((DebugKey::Digit7, AnimalId::Georgie, AnimalStat::Hunger));
    v.push((DebugKey::Digit8, AnimalId::Georgie, AnimalStat::Cleanliness));
    v.push((DebugKey::Digit9, AnimalId::Georgie, AnimalStat::Happiness));
    v.push((DebugKey::Digit0, AnimalId::Siren, AnimalStat::Hunger));
    v.push((DebugKey::KeyI, AnimalId::Siren, AnimalStat::Cleanliness));
    v.push((DebugKey::KeyO, AnimalId::Siren, AnimalStat::Happiness));
    v.push((DebugKey::KeyU, AnimalId::PushPop, AnimalStat::Hunger));
    v.push((DebugKey::KeyJ, AnimalId::PushPop, AnimalStat::Cleanliness));
    v.push((DebugKey::KeyY, AnimalId::PushPop, AnimalStat::Happiness));
    assert(v@ =~= debug_care_table());
    v
}

fn key_pressed(pressed: &Vec<DebugKey>, key: DebugKey) -> (r: bool)
    ensures
        r == pressed@.contains(key),
{
    let mut i: usize = 0;
    while i < pressed.len()
        invariant
            0 <= i <= pressed@.len(),
            forall|j: int| 0 <= j < i ==> pressed@[j] != key,
        decreases pressed.len() - i,
    {
        if pressed[i] == key {
            assert(pressed@[i as int] == key);
            return true;
        }
        i += 1;
    }
    false
}

pub open spec fn improve_for(entry: (DebugKey, AnimalId, AnimalStat)) -> ImproveStatEvent {
    ImproveStatEvent {
        target: StatTarget::Animal { id: entry.1, stat: entry.2 },
        amount: DEBUG_STAT_IMPROVE_AMOUNT,
    }
}

/// The improvements the pressed care keys ask for, in table order.
pub open spec fn debug_improvements(pressed: Seq<DebugKey>) -> Seq<ImproveStatEvent> {
    debug_care_table().filter(|e: (DebugKey, AnimalId, AnimalStat)| pressed.contains(e.0)).map_values(
        |e: (DebugKey, AnimalId, AnimalStat)| improve_for(e),
    )
}

pub open spec fn worsen_animal(id: AnimalId, stat: AnimalStat) -> WorsenStatEvent {
    WorsenStatEvent { target: StatTarget::Animal { id, stat }, amount: DEBUG_STAT_WORSEN_AMOUNT }
}

/// Hunger then happiness of each animal, in order.
pub open spec fn worsen_animals(animals: Seq<AnimalId>) -> Seq<WorsenStatEvent>
    decreases animals.len(),
{
    if animals.len() == 0 {
        Seq::empty()
    } else {
        worsen_animals(animals.drop_last()).push(worsen_animal(animals.last(), AnimalStat::Hunger)).push(
            worsen_animal(animals.last(), AnimalStat::Happiness),
        )
    }
}

pub open spec fn worsen_enclosure(id: EnclosureId) -> WorsenStatEvent {
    WorsenStatEvent { target: StatTarget::Enclosure { id, stat: EnclosureStat::Cleanliness }, amount: DEBUG_STAT_WORSEN_AMOUNT }
}

/// Every stat of every animal and enclosure, worsened by the debug amount.
pub open spec fn worsen_everything(animals: Seq<AnimalId>, enclosures: Seq<EnclosureId>) -> Seq<WorsenStatEvent> {
    worsen_animals(animals) + enclosures.map_values(|id: EnclosureId| worsen_enclosure(id))
}

/// Worsen every stat of every animal and enclosure by the debug amount.
pub fn worsen_all_stats(animals: &Vec<AnimalId>, enclosures: &Vec<EnclosureId>) -> (r: Vec<WorsenStatEvent>)
    ensures
        r@ == worsen_everything(animals@, enclosures@),
{
    let mut out: Vec<WorsenStatEvent> = Vec::new();
    let mut i: usize = 0;
    while i < animals.len()
        invariant
            0 <= i <= animals@.len(),
            out@ == worsen_animals(animals@.take(i as int)),
        decreases animals.len() - i,
    {
        let id = animals[i];
        proof {
            assert(animals@.take(i + 1).drop_last() =~= animals@.take(i as int));
        }
        out.push(WorsenStatEvent {
            target: StatTarget::Animal { id, stat: AnimalStat::Hunger },
            amount: DEBUG_STAT_WORSEN_AMOUNT,
        });
        out.push(WorsenStatEvent {
            target: StatTarget::Animal { id, stat: AnimalStat::Happiness },
            amount: DEBUG_STAT_WORSEN_AMOUNT,
        });
        i += 1;
    }
    assert(animals@.take(i as int) =~= animals@);
    let ghost head = out@;
    let mut k: usize = 0;
    while k < enclosures.len()
        invariant
            0 <= k <= enclosures@.len(),
            head == worsen_animals(animals@),
            out@ == head + enclosures@.take(k as int).map_values(|id: EnclosureId| worsen_enclosure(id)),
        decreases enclosures.len() - k,
    {
        let id = enclosures[k];
        out.push(WorsenStatEvent {
            target: StatTarget::Enclosure { id, stat: EnclosureStat::Cleanliness },
            amount: DEBUG_STAT_WORSEN_AMOUNT,
        });
        k += 1;
        assert(out@ =~= head + enclosures@.take(k as int).map_values(|id: EnclosureId| worsen_enclosure(id)));
    }
    assert(enclosures@.take(k as int) =~= enclosures@);
    out
}

/// The stat events of one frame of debug controls.
#[derive(Debug, Clone, PartialEq, Eq)]
pub struct DebugStatActions {
    pub improve: Vec<ImproveStatEvent>,
    pub worsen: Vec<WorsenStatEvent>,
    /// Fast-forward simulated time by four hours.
    pub advance_four_hours: bool,
}

pub open spec fn any_pressed(pressed: Seq<DebugKey>, a: DebugKey, b: DebugKey, c: DebugKey) -> bool {
    pressed.contains(a) || pressed.contains(b) || pressed.contains(c)
}

/// Debug stat controls for the keys just pressed: care keys restore one stat
/// of one animal; `-` (or numpad minus, or M) worsens every stat; `=` (or
/// numpad plus, or L) fast-forwards four hours.
pub fn debug_stats_control(pressed: &Vec<DebugKey>, animals: &Vec<AnimalId>, enclosures: &Vec<EnclosureId>) -> (r: DebugStatActions)
    ensures
        r.improve@ == debug_improvements(pressed@),
        r.worsen@ == (if any_pressed(pressed@, DebugKey::Minus, DebugKey::NumpadSubtract, DebugKey::KeyM) {
            worsen_everything(animals@, enclosures@)
        } else {
            Seq::<WorsenStatEvent>::empty()
        }),
        r.advance_four_hours == any_pressed(pressed@, DebugKey::Equal, DebugKey::NumpadAdd, DebugKey::KeyL),
{
    let table = debug_care_table_exec();
    let ghost pred = |e: (DebugKey, AnimalId, AnimalStat)| pressed@.contains(e.0);
    let ghost f = |e: (DebugKey, AnimalId, AnimalStat)| improve_for(e);
    let mut improve: Vec<ImproveStatEvent> = Vec::new();
    let mut i: usize = 0;
    while i < table.len()
        invariant
            0 <= i <= table@.len(),
            table@ == debug_care_table(),
            pred == (|e: (DebugKey, AnimalId, AnimalStat)| pressed@.contains(e.0)),
            f == (|e: (DebugKey, AnimalId, AnimalStat)| improve_for(e)),
            improve@ == table@.take(i as int).filter(pred).map_values(f),
        decreases table.len() - i,
    {
        let e = table[i];
        proof {
            assert(table@.take(i + 1) =~= table@.take(i as int).push(e));
            table@.take(i as int).lemma_filter_push(e, pred);
        }
        if key_pressed(pressed, e.0) {
            improve.push(ImproveStatEvent {
                target: StatTarget::Animal { id: e.1, stat: e.2 },
                amount: DEBUG_STAT_IMPROVE_AMOUNT,
            });
        }
        proof {
            let prev = table@.take(i as int).filter(pred);
            if pred(e) {
                assert(improve@ =~= prev.push(e).map_values(f));
            }
        }
        i += 1;
    }
    assert(table@.take(i as int) =~= table@);
    let worsen_pressed = key_pressed(pressed, DebugKey::Minus) || key_pressed(pressed, DebugKey::NumpadSubtract)
        || key_pressed(pressed, DebugKey::KeyM);
    let worsen = if worsen_pressed {
        worsen_all_stats(animals, enclosures)
    } else {
        Vec::new()
    };
    let advance = key_pressed(pressed, DebugKey::Equal) || key_pressed(pressed, DebugKey::NumpadAdd)
        || key_pressed(pressed, DebugKey::KeyL);
    DebugStatActions { improve, worsen, advance_four_hours: advance }
}

/// Enclosure decay raises an event only for a positive amount.
pub fn trigger_enclosure_decay(id: EnclosureId, amount: u32) -> (r: Option<WorsenStatEvent>)
    ensures
        amount == 0 ==> r is None,
        amount > 0 ==> r == Some(WorsenStatEvent { target: StatTarget::Enclosure { id, stat: EnclosureStat::Cleanliness }, amount }),
{
    if amount == 0 {
        return None;
    }
    Some(WorsenStatEvent { target: StatTarget::Enclosure { id, stat: EnclosureStat::Cleanliness }, amount })
}

/// Animal decay always raises a hunger and a happiness event, in that order.
pub fn trigger_animal_decay(id: AnimalId, hunger_decay: u32, happiness_decay: u32) -> (r: (WorsenStatEvent, WorsenStatEvent))
    ensures
        r.0 == (WorsenStatEvent { target: StatTarget::Animal { id, stat: AnimalStat::Hunger }, amount: hunger_decay }),
        r.1 == (WorsenStatEvent { target: StatTarget::Animal { id, stat: AnimalStat::Happiness }, amount: happiness_decay }),
{
    (
        WorsenStatEvent { target: StatTarget::Animal { id, stat: AnimalStat::Hunger }, amount: hunger_decay },
        WorsenStatEvent { target: StatTarget::Animal { id, stat: AnimalStat::Happiness }, amount: happiness_decay },
    )
}

/// Offline decay raises animal events only for positive amounts.
pub fn offline_animal_decay(id: AnimalId, hunger_decay: u32, happiness_decay: u32) -> (r: Vec<WorsenStatEvent>)
    ensures
        r@ == (if hunger_decay > 0 {
            seq![WorsenStatEvent { target: StatTarget::Animal { id, stat: AnimalStat::Hunger }, amount: hunger_decay }]
        } else {
            Seq::empty()
        }) + (if happiness_decay > 0 {
            seq![WorsenStatEvent { target: StatTarget::Animal { id, stat: AnimalStat::Happiness }, amount: happiness_decay }]
        } else {
            Seq::empty()
        }),
{
    let mut out: Vec<WorsenStatEvent> = Vec::new();
    if hunger_decay > 0 {
        out.push(WorsenStatEvent { target: StatTarget::Animal { id, stat: AnimalStat::Hunger }, amount: hunger_decay });
    }
    if happiness_decay > 0 {
        out.push(WorsenStatEvent { target: StatTarget::Animal { id, stat: AnimalStat::Happiness }, amount: happiness_decay });
    }
    assert(out@ =~= (if hunger_decay > 0 {
        seq![WorsenStatEvent { target: StatTarget::Animal { id, stat: AnimalStat::Hunger }, amount: hunger_decay }]
    } else {
        Seq::empty()
    }) + (if happiness_decay > 0 {
        seq![WorsenStatEvent { target: StatTarget::Animal { id, stat: AnimalStat::Happiness }, amount: happiness_decay }]
    } else {
        Seq::empty()
    }));
    out
}

} // verus!
