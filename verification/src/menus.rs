//! Menu presentation decisions: what an overlay or list menu shows, how the
//! selection is projected onto its rows, and what the main menu's actions do.

use vstd::prelude::*;

use crate::command::GameCommand;
use crate::menus_model::ListMenuState;

verus! {

/// What an overlay menu shows: a title, an optional summary line, its rows
/// (or copy for when there are none), the selected row, and an optional
/// controls hint.
#[derive(Debug, Clone)]
pub struct OverlayMenuSpec {
    pub title: String,
    pub summary: Option<String>,
    pub entries: Vec<String>,
    pub selected: Option<usize>,
    pub empty_copy: String,
    pub controls: Option<String>,
}

impl OverlayMenuSpec {
    pub fn new(title: String, entries: Vec<String>) -> (r: Self)
        ensures
            r.title@ == title@,
            r.entries@ == entries@,
            r.summary is None,
            r.selected is None,
            r.empty_copy@ == "No options are available."@,
            r.controls is None,
    {
        OverlayMenuSpec {
            title,
            summary: None,
            entries,
            selected: None,
            empty_copy: String::from_str("No options are available."),
            controls: None,
        }
    }

    pub fn with_summary(self, summary: String) -> (r: Self)
        ensures
            r == (OverlayMenuSpec { summary: Some(summary), ..self }),
    {
        OverlayMenuSpec { summary: Some(summary), ..self }
    }

    pub fn with_selected(self, selected: Option<usize>) -> (r: Self)
        ensures
            r == (OverlayMenuSpec { selected, ..self }),
    {
        OverlayMenuSpec { selected, ..self }
    }

    pub fn with_empty_copy(self, empty_copy: String) -> (r: Self)
        ensures
            r == (OverlayMenuSpec { empty_copy, ..self }),
    {
        OverlayMenuSpec { empty_copy, ..self }
    }

    pub fn with_controls(self, controls: String) -> (r: Self)
        ensures
            r == (OverlayMenuSpec { controls: Some(controls), ..self }),
    {
        OverlayMenuSpec { controls: Some(controls), ..self }
    }
}

/// One row of a menu: its label and whether it is highlighted.
#[derive(Debug, Clone, PartialEq, Eq)]
pub struct MenuRow {
    pub label: String,
    pub selected: bool,
}

/// The body of a menu: an empty-state line, or its rows in order.
#[derive(Debug, Clone, PartialEq, Eq)]
pub enum MenuBody {
    Empty(String),
    Rows(Vec<MenuRow>),
}

/// The content of an overlay menu card, top to bottom.
#[derive(Debug, Clone, PartialEq, Eq)]
pub struct OverlayMenuLayout {
    pub title: String,
    pub summary: Option<String>,
    pub body: MenuBody,
    pub controls: Option<String>,
}

/// The rows are exactly `labels`, in order, with row `selected` (if any)
/// highlighted.
pub open spec fn rows_match(rows: Seq<MenuRow>, labels: Seq<String>, selected: Option<usize>) -> bool {
    &&& rows.len() == labels.len()
    &&& forall|i: int| 0 <= i < rows.len() ==> (#[trigger] rows[i]).label@ == labels[i]@
        && rows[i].selected == (selected == Some(i as usize))
}

fn build_rows(labels: &Vec<String>, selected: Option<usize>) -> (r: Vec<MenuRow>)
    ensures
        rows_match(r@, labels@, selected),
{
    let mut rows: Vec<MenuRow> = Vec::new();
    let mut i: usize = 0;
    while i < labels.len()
        invariant
            0 <= i <= labels@.len(),
            rows@.len() == i,
            forall|k: int| 0 <= k < i ==> (#[trigger] rows@[k]).label@ == labels@[k]@
                && rows@[k].selected == (selected == Some(k as usize)),
        decreases labels.len() - i,
    {
        let is_selected = match selected {
            Some(s) => s == i,
            None => false,
        };
        rows.push(MenuRow { label: labels[i].clone(), selected: is_selected });
        i += 1;
    }
    rows
}

/// Lay out an overlay menu: a selection beyond the rows is dropped; no rows
/// means the empty-state copy.
pub fn overlay_menu_layout(spec: OverlayMenuSpec) -> (r: OverlayMenuLayout)
    ensures
        r.title@ == spec.title@,
        r.summary == spec.summary,
        r.controls == spec.controls,
        spec.entries@.len() == 0 ==> (r.body matches MenuBody::Empty(c) && c@ == spec.empty_copy@),
        spec.entries@.len() > 0 ==> (r.body matches MenuBody::Rows(rows) && rows_match(
            rows@,
            spec.entries@,
            match spec.selected {
                Some(s) => if s < spec.entries@.len() { Some(s) } else { None },
                None => None,
            },
        )),
{
    let selected = match spec.selected {
        Some(s) => if s < spec.entries.len() { Some(s) } else { None },
        None => None,
    };
    let body = if spec.entries.len() == 0 {
        MenuBody::Empty(spec.empty_copy)
    } else {
        MenuBody::Rows(build_rows(&spec.entries, selected))
    };
    OverlayMenuLayout { title: spec.title, summary: spec.summary, body, controls: spec.controls }
}

/// Whether a list menu's rows are focusable buttons or one selection list.
#[derive(Debug, Clone, Copy, PartialEq, Eq, Structural)]
pub enum ListMenuKind {
    /// Each row is a focusable button and activates immediately.
    Actions,
    /// The list owns one active row; rows are not focusable.
    Selection,
}

/// A list menu's kind and its copy for when it has no rows.
#[derive(Debug, Clone)]
pub struct ListMenuSpec {
    pub kind: ListMenuKind,
    pub empty_copy: String,
}

impl ListMenuSpec {
    pub fn actions() -> (r: Self)
        ensures
            r.kind == ListMenuKind::Actions,
            r.empty_copy@ == "No actions are available."@,
    {
        ListMenuSpec { kind: ListMenuKind::Actions, empty_copy: String::from_str("No actions are available.") }
    }

    pub fn selection() -> (r: Self)
        ensures
            r.kind == ListMenuKind::Selection,
            r.empty_copy@ == "No options are available."@,
    {
        ListMenuSpec { kind: ListMenuKind::Selection, empty_copy: String::from_str("No options are available.") }
    }

    pub fn with_empty_copy(self, empty_copy: String) -> (r: Self)
        ensures
            r.kind == self.kind,
            r.empty_copy == empty_copy,
    {
        ListMenuSpec { empty_copy, ..self }
    }
}

/// The content of a list menu.
#[derive(Debug, Clone, PartialEq, Eq)]
pub struct ListMenuLayout {
    pub body: MenuBody,
    /// Gap between rows, in pixels.
    pub row_gap_px: u32,
}

/// Lay out a list menu over `labels` with the cursor at `cursor`: action rows
/// are spaced wider; the row under the cursor is highlighted (focused for
/// action rows, selected for selection rows).
pub fn list_menu_layout(labels: &Vec<String>, cursor: usize, spec: ListMenuSpec) -> (r: ListMenuLayout)
    ensures
        labels@.len() == 0 ==> (r.body matches MenuBody::Empty(c) && c@ == spec.empty_copy@),
        labels@.len() > 0 ==> (r.body matches MenuBody::Rows(rows) && rows_match(
            rows@,
            labels@,
            if cursor < labels@.len() { Some(cursor) } else { None },
        )),
        r.row_gap_px == (match spec.kind {
            ListMenuKind::Actions => 20u32,
            ListMenuKind::Selection => 8u32,
        }),
{
    let gap: u32 = match spec.kind {
        ListMenuKind::Actions => 20,
        ListMenuKind::Selection => 8,
    };
    if labels.len() == 0 {
        return ListMenuLayout { body: MenuBody::Empty(spec.empty_copy), row_gap_px: gap };
    }
    let selected = if cursor < labels.len() { Some(cursor) } else { None };
    ListMenuLayout { body: MenuBody::Rows(build_rows(labels, selected)), row_gap_px: gap }
}

/// Index of the first list of `lists` with id `list`, at or after `from`;
/// `lists.len()` when there is none.
pub open spec fn first_list<T>(lists: Seq<(u64, ListMenuState<T>)>, list: u64, from: int) -> int
    decreases lists.len() - from,
{
    if from < 0 || from >= lists.len() {
        lists.len() as int
    } else if lists[from].0 == list {
        from
    } else {
        first_list(lists, list, from + 1)
    }
}

/// Keep an action menu's cursor on the focused row: when a row (its list and
/// index) has focus, the first list with that id moves its cursor there as
/// `set_cursor` does; every other list is left alone.
pub fn sync_action_cursor<T>(focused: Option<(u64, usize)>, lists: &mut Vec<(u64, ListMenuState<T>)>)
    ensures
        final(lists)@.len() == old(lists)@.len(),
        forall|j: int| 0 <= j < old(lists)@.len() ==> {
            &&& (#[trigger] final(lists)@[j]).0 == old(lists)@[j].0
            &&& final(lists)@[j].1.options@ == old(lists)@[j].1.options@
            &&& final(lists)@[j].1.cursor == (match focused {
                Some((list, index)) => if j == first_list(old(lists)@, list, 0) && index < old(lists)@[j].1.options@.len() {
                    index
                } else {
                    old(lists)@[j].1.cursor
                },
                None => old(lists)@[j].1.cursor,
            })
        },
{
    let (list, index) = match focused {
        Some(f) => f,
        None => return,
    };
    let mut i: usize = 0;
    while i < lists.len()
        invariant
            0 <= i <= lists@.len(),
            lists@ == old(lists)@,
            focused == Some((list, index)),
            first_list(lists@, list, 0) == first_list(lists@, list, i as int),
        decreases lists.len() - i,
    {
        if lists[i].0 == list {
            let ghost before = lists@;
            lists[i].1.set_cursor(index);
            proof {
                assert(first_list(before, list, i as int) == i);
                assert forall|j: int| 0 <= j < before.len() && j != i implies #[trigger] lists@[j] == before[j] by {}
                assert(lists@[i as int].0 == before[i as int].0);
            }
            return;
        }
        i += 1;
    }
}

/// A menu row entity: itself, its list, its index, and whether it is
/// currently marked selected.
#[derive(Debug, Clone, Copy, PartialEq, Eq, Structural)]
pub struct RowEntity {
    pub entity: u64,
    pub list: u64,
    pub index: usize,
    pub is_selected: bool,
}

/// How the selection of one list is projected onto its rows.
#[derive(Debug, Clone, PartialEq, Eq)]
pub struct SelectionProjection {
    /// Rows to mark selected.
    pub insert: Vec<u64>,
    /// Rows to unmark.
    pub remove: Vec<u64>,
    /// The list's active row: the last of its rows at the selected index.
    pub active: Option<u64>,
}

pub open spec fn should_select(row: RowEntity, list: u64, selected: Option<usize>) -> bool {
    row.list == list && selected == Some(row.index)
}

/// The last row of `list` at the selected index, among the first `n` rows.
pub open spec fn last_selected(rows: Seq<RowEntity>, list: u64, selected: Option<usize>, n: int) -> Option<u64>
    decreases n,
{
    if n <= 0 {
        None
    } else if should_select(rows[n - 1], list, selected) {
        Some(rows[n - 1].entity)
    } else {
        last_selected(rows, list, selected, n - 1)
    }
}

/// Project `selected` onto the rows of `list`: mark the row at that index,
/// unmark the others that are marked; rows of other lists are left alone.
pub fn project_selection(list: u64, selected: Option<usize>, rows: &Vec<RowEntity>) -> (r: SelectionProjection)
    ensures
        r.insert@ == rows@.filter(|e: RowEntity| should_select(e, list, selected) && !e.is_selected).map_values(
            |e: RowEntity| e.entity,
        ),
        r.remove@ == rows@.filter(|e: RowEntity| e.list == list && !should_select(e, list, selected) && e.is_selected).map_values(
            |e: RowEntity| e.entity,
        ),
        r.active == last_selected(rows@, list, selected, rows@.len() as int),
{
    let ghost p_in = |e: RowEntity| should_select(e, list, selected) && !e.is_selected;
    let ghost p_out = |e: RowEntity| e.list == list && !should_select(e, list, selected) && e.is_selected;
    let ghost f = |e: RowEntity| e.entity;
    let mut insert: Vec<u64> = Vec::new();
    let mut remove: Vec<u64> = Vec::new();
    let mut active: Option<u64> = None;
    let mut i: usize = 0;
    while i < rows.len()
        invariant
            0 <= i <= rows@.len(),
            p_in == (|e: RowEntity| should_select(e, list, selected) && !e.is_selected),
            p_out == (|e: RowEntity| e.list == list && !should_select(e, list, selected) && e.is_selected),
            f == (|e: RowEntity| e.entity),
            insert@ == rows@.take(i as int).filter(p_in).map_values(f),
            remove@ == rows@.take(i as int).filter(p_out).map_values(f),
            active == last_selected(rows@, list, selected, i as int),
        decreases rows.len() - i,
    {
        let row = rows[i];
        proof {
            assert(rows@.take(i + 1) =~= rows@.take(i as int).push(row));
            rows@.take(i as int).lemma_filter_push(row, p_in);
            rows@.take(i as int).lemma_filter_push(row, p_out);
        }
        let ghost ins_before = rows@.take(i as int).filter(p_in);
        let ghost rem_before = rows@.take(i as int).filter(p_out);
        if row.list == list {
            let should = match selected {
                Some(s) => s == row.index,
                None => false,
            };
            if should {
                active = Some(row.entity);
            }
            if should && !row.is_selected {
                insert.push(row.entity);
            } else if !should && row.is_selected {
                remove.push(row.entity);
            }
        }
        proof {
            if p_in(row) {
                assert(insert@ =~= ins_before.push(row).map_values(f));
            }
            if p_out(row) {
                assert(remove@ =~= rem_before.push(row).map_values(f));
            }
        }
        i += 1;
    }
    assert(rows@.take(i as int) =~= rows@);
    SelectionProjection { insert, remove, active }
}

// ---------------------------------------------------------
// Main menu
// ---------------------------------------------------------

/// An action of the title screen's main menu.
#[derive(Debug, Clone, Copy, PartialEq, Eq, Structural)]
pub enum MainMenuAction {
    Play,
    Settings,
    Credits,
    Exit,
}

pub open spec fn spec_main_menu_label(action: MainMenuAction) -> Seq<char> {
    match action {
        MainMenuAction::Play => "Play"@,
        MainMenuAction::Settings => "Settings"@,
        MainMenuAction::Credits => "Credits"@,
        MainMenuAction::Exit => "Exit"@,
    }
}

impl MainMenuAction {
    pub fn label(self) -> (r: &'static str)
        ensures
            r@ == spec_main_menu_label(self),
    {
        match self {
            MainMenuAction::Play => "Play",
            MainMenuAction::Settings => "Settings",
            MainMenuAction::Credits => "Credits",
            MainMenuAction::Exit => "Exit",
        }
    }
}

/// The main menu's actions in order; Exit only where the platform can exit.
pub fn main_menu_actions(can_exit: bool) -> (r: Vec<MainMenuAction>)
    ensures
        r@ == (if can_exit {
            seq![MainMenuAction::Play, MainMenuAction::Settings, MainMenuAction::Credits, MainMenuAction::Exit]
        } else {
            seq![MainMenuAction::Play, MainMenuAction::Settings, MainMenuAction::Credits]
        }),
{
    let mut v: Vec<MainMenuAction> = Vec::new();
    v.push(MainMenuAction::Play);
    v.push(MainMenuAction::Settings);
    v.push(MainMenuAction::Credits);
    if can_exit {
        v.push(MainMenuAction::Exit);
    }
    proof {
        if can_exit {
            assert(v@ =~= seq![MainMenuAction::Play, MainMenuAction::Settings, MainMenuAction::Credits, MainMenuAction::Exit]);
        } else {
            assert(v@ =~= seq![MainMenuAction::Play, MainMenuAction::Settings, MainMenuAction::Credits]);
        }
    }
    v
}

/// What activating a main-menu action does: a verb, or leaving the app.
#[derive(Debug, Clone, PartialEq, Eq)]
pub enum MainMenuEffect {
    Command(GameCommand),
    ExitApp,
}

pub fn activate_main_menu_action(action: MainMenuAction) -> (r: MainMenuEffect)
    ensures
        r == (match action {
            MainMenuAction::Play => MainMenuEffect::Command(GameCommand::Play),
            MainMenuAction::Settings => MainMenuEffect::Command(GameCommand::OpenSettings),
            MainMenuAction::Credits => MainMenuEffect::Command(GameCommand::OpenCredits),
            MainMenuAction::Exit => MainMenuEffect::ExitApp,
        }),
{
    match action {
        MainMenuAction::Play => MainMenuEffect::Command(GameCommand::Play),
        MainMenuAction::Settings => MainMenuEffect::Command(GameCommand::OpenSettings),
        MainMenuAction::Credits => MainMenuEffect::Command(GameCommand::OpenCredits),
        MainMenuAction::Exit => MainMenuEffect::ExitApp,
    }
}

/// The pause menu's buttons and the verb each sends, top to bottom.
pub open spec fn spec_pause_menu_buttons() -> Seq<(Seq<char>, GameCommand)> {
    seq![
        ("Continue"@, GameCommand::Continue),
        ("Settings"@, GameCommand::OpenSettings),
        ("Quit to title"@, GameCommand::QuitToTitle),
    ]
}

pub fn pause_menu_buttons() -> (r: Vec<(&'static str, GameCommand)>)
    ensures
        r@.len() == spec_pause_menu_buttons().len(),
        forall|i: int| 0 <= i < r@.len() ==> (#[trigger] r@[i]).0@ == spec_pause_menu_buttons()[i].0
            && r@[i].1 == spec_pause_menu_buttons()[i].1,
{
    let mut v: Vec<(&'static str, GameCommand)> = Vec::new();
    v.push(("Continue", GameCommand::Continue));
    v.push(("Settings", GameCommand::OpenSettings));
    v.push(("Quit to title", GameCommand::QuitToTitle));
    v
}

// ---------------------------------------------------------
// Credits
// ---------------------------------------------------------

pub open spec fn spec_created_by() -> Seq<(Seq<char>, Seq<char>)> {
    seq![
        ("Bernardo António Borda d'Água"@, "Design & programming"@),
        ("Alveus Sanctuary"@, "Ambassadors & inspiration (fan project)"@),
    ]
}

pub open spec fn spec_asset_credits() -> Seq<(Seq<char>, Seq<char>)> {
    seq![
        ("Button SFX"@, "CC0 by Jaszunio15"@),
        ("Music"@, "CC BY 3.0 by Kevin MacLeod"@),
        ("Bevy logo"@, "All rights reserved by the Bevy Foundation, permission granted for splash screen use when unmodified"@),
    ]
}

/// The rows match a table of (name, credit) pairs.
pub open spec fn pairs_match(r: Seq<(&'static str, &'static str)>, t: Seq<(Seq<char>, Seq<char>)>) -> bool {
    &&& r.len() == t.len()
    &&& forall|i: int| 0 <= i < r.len() ==> (#[trigger] r[i]).0@ == t[i].0 && r[i].1@ == t[i].1
}

/// Who made the game.
pub fn created_by() -> (r: Vec<(&'static str, &'static str)>)
    ensures
        pairs_match(r@, spec_created_by()),
{
    let mut v: Vec<(&'static str, &'static str)> = Vec::new();
    v.push(("Bernardo António Borda d'Água", "Design & programming"));
    v.push(("Alveus Sanctuary", "Ambassadors & inspiration (fan project)"));
    v
}

/// Third-party assets and their licences.
pub fn asset_credits() -> (r: Vec<(&'static str, &'static str)>)
    ensures
        pairs_match(r@, spec_asset_credits()),
{
    let mut v: Vec<(&'static str, &'static str)> = Vec::new();
    v.push(("Button SFX", "CC0 by Jaszunio15"));
    v.push(("Music", "CC BY 3.0 by Kevin MacLeod"));
    v.push((
        "Bevy logo",
        "All rights reserved by the Bevy Foundation, permission granted for splash screen use when unmodified",
    ));
    v
}

/// Horizontal placement of a grid cell.
#[derive(Debug, Clone, Copy, PartialEq, Eq, Structural)]
pub enum CellAlign {
    End,
    Start,
}

/// Cell `k` of a two-column grid over `content`: even cells hold the names
/// (right-aligned), odd cells the credits (left-aligned).
pub open spec fn grid_cell(content: Seq<(&'static str, &'static str)>, k: int) -> (&'static str, CellAlign) {
    if k % 2 == 0 {
        (content[k / 2].0, CellAlign::End)
    } else {
        (content[k / 2].1, CellAlign::Start)
    }
}

/// A two-column credits grid: each pair becomes a right-aligned name cell and
/// a left-aligned credit cell, row by row.
pub fn credits_grid(content: &Vec<(&'static str, &'static str)>) -> (r: Vec<(&'static str, CellAlign)>)
    ensures
        r@.len() == 2 * content@.len(),
        forall|k: int| 0 <= k < r@.len() ==> #[trigger] r@[k] == grid_cell(content@, k),
{
    let mut out: Vec<(&'static str, CellAlign)> = Vec::new();
    let mut i: usize = 0;
    while i < content.len()
        invariant
            0 <= i <= content@.len(),
            out@.len() == 2 * i,
            forall|k: int| 0 <= k < out@.len() ==> #[trigger] out@[k] == grid_cell(content@, k),
        decreases content.len() - i,
    {
        let (name, credit) = content[i];
        out.push((name, CellAlign::End));
        out.push((credit, CellAlign::Start));
        proof {
            assert((2 * i) % 2 == 0 && (2 * i) / 2 == i);
            assert((2 * i + 1) % 2 == 1 && (2 * i + 1) / 2 == i);
        }
        i += 1;
    }
    out
}

} // verus!
