//! The keys that reach the main screen once no popup or editor has taken
//! them: the help overlay, the panel and tab keys, the timer keys and quit,
//! and which action on the lists or the store a key leaves to be done.
use vstd::prelude::*;

use crate::app::{
    pause_spec, panel_for_shortcut, quit_record_spec, start_spec, stop_spec, timer_in_range,
    HistoryPanelTab, PanelFocus, RightPanelTab, ScreenData, SidebarTab, TimerModel, TimerPhase,
    TimerRecord, TimerState,
};
use crate::config::TimerSettings;
use crate::history::{focus_places, max_history_scroll};
use crate::panel_search::{
    handle_panel_search_key, search_model, search_of, search_step, search_wf, PanelSearchStates,
    SearchKey, SearchOutcome,
};
use crate::selection::PanelSearchTarget;
use crate::overlays::{
    handle_overlay_key, overlay_fits, overlay_key_step, overlay_outcome_is, OverlayOutcome,
    OverlayResult, OverlayState,
};
use crate::overlays::{
    goes_down, goes_up, is_down_key, is_letter, is_up_key, letter_key, minus_floored, typed_char,
};
use crate::task_editor::EditorKey;

verus! {

/// The main screen: which panel has the keyboard, the tab shown in the
/// sidebar, the right pane and the history, whether help is open and how
/// far it is scrolled, how many lines it shows, how far the day's sessions
/// are scrolled, and whether the program is to end.
#[derive(Debug, Clone, Copy, PartialEq, Eq)]
pub struct ShellState {
    pub focused_panel: PanelFocus,
    pub active_sidebar_tab: SidebarTab,
    pub active_right_panel_tab: RightPanelTab,
    pub active_history_panel_tab: HistoryPanelTab,
    pub help_open: bool,
    pub help_scroll: usize,
    pub help_viewport_lines: usize,
    pub history_scroll: usize,
    pub should_quit: bool,
}

/// An action on a project, tag or filter list.
#[derive(Debug, Clone, Copy, PartialEq, Eq)]
pub enum ItemAction {
    Create,
    Edit,
    ConfirmDelete,
    ToggleFavorite,
    OpenSort,
    MoveDown,
    MoveUp,
}

/// An action on the selected task.
#[derive(Debug, Clone, Copy, PartialEq, Eq)]
pub enum TaskAction {
    Edit,
    CreateChild,
    ConfirmDelete,
    ToggleAssignment,
    OpenSort,
    Expand,
    Collapse,
    MoveDown,
    MoveUp,
    ToggleHideCompleted,
    ToggleStatus,
}

/// What a key leaves to be done once the screen state and the timer have
/// changed: nothing; quitting, with the session to record as voided where
/// one runs; opening the quick-add popup; moving the selection of a sidebar
/// list by a number of rows, or to its first or last row; opening the
/// selected sidebar row; an action on the selected project, tag or filter;
/// moving the favorites selection, or to its first or last row, or toggling
/// the selected favorite; moving the task selection or scrolling the task
/// details; an action on the selected task; the task search or clearing the
/// task of the timer or of the selected session; the note editor, viewer or
/// clearing the note; the timer started (and whether the focus task is to be
/// taken from the assigned task); the timer stopped, with what to record.
#[derive(Debug, Clone, Copy, PartialEq, Eq)]
pub enum GlobalOutcome {
    Nothing,
    Quit(Option<TimerRecord>),
    OpenCreateTask,
    SidebarMove(SidebarTab, isize),
    SidebarFirst(SidebarTab),
    SidebarLast(SidebarTab),
    SidebarOpen(SidebarTab),
    SidebarItem(SidebarTab, ItemAction),
    FavoriteMove(isize),
    FavoriteFirst,
    FavoriteLast,
    FavoriteToggle,
    TaskMove(isize),
    TaskDetailsScroll(isize),
    Task(TaskAction),
    TimerTaskSearch,
    TimerTaskClear,
    HistoryTaskSearch,
    HistoryTaskClear,
    NoteEdit,
    NoteView,
    NoteClear,
    TimerStarted(bool),
    TimerStopped(Option<TimerRecord>),
}

/// The sidebar tab after `t`, wrapping around.
pub open spec fn sidebar_after(t: SidebarTab) -> SidebarTab {
    match t {
        SidebarTab::Navigation => SidebarTab::Projects,
        SidebarTab::Projects => SidebarTab::Tags,
        SidebarTab::Tags => SidebarTab::Filters,
        SidebarTab::Filters => SidebarTab::Navigation,
    }
}

/// The sidebar tab before `t`, wrapping around.
pub open spec fn sidebar_before(t: SidebarTab) -> SidebarTab {
    match t {
        SidebarTab::Navigation => SidebarTab::Filters,
        SidebarTab::Projects => SidebarTab::Navigation,
        SidebarTab::Tags => SidebarTab::Projects,
        SidebarTab::Filters => SidebarTab::Tags,
    }
}

/// The other right pane tab.
pub open spec fn other_right_tab(t: RightPanelTab) -> RightPanelTab {
    match t {
        RightPanelTab::Tasks => RightPanelTab::Statistics,
        RightPanelTab::Statistics => RightPanelTab::Tasks,
    }
}

/// The other history tab.
pub open spec fn other_history_tab(t: HistoryPanelTab) -> HistoryPanelTab {
    match t {
        HistoryPanelTab::Today => HistoryPanelTab::Last7Days,
        HistoryPanelTab::Last7Days => HistoryPanelTab::Today,
    }
}

/// The panel after `p` in the order Tab walks, wrapping around.
pub open spec fn panel_after(p: PanelFocus) -> PanelFocus {
    match p {
        PanelFocus::Timer => PanelFocus::History,
        PanelFocus::History => PanelFocus::Navigation,
        PanelFocus::Navigation => PanelFocus::Favorites,
        PanelFocus::Favorites => PanelFocus::RightPane,
        PanelFocus::RightPane => PanelFocus::Timer,
    }
}

/// The panel before `p`, wrapping around.
pub open spec fn panel_before(p: PanelFocus) -> PanelFocus {
    match p {
        PanelFocus::Timer => PanelFocus::RightPane,
        PanelFocus::History => PanelFocus::Timer,
        PanelFocus::Navigation => PanelFocus::History,
        PanelFocus::Favorites => PanelFocus::Navigation,
        PanelFocus::RightPane => PanelFocus::Favorites,
    }
}

/// The sidebar tab that the digits 3 to 6 open.
pub open spec fn sidebar_for_digit(c: char) -> Option<SidebarTab> {
    if c == '3' {
        Some(SidebarTab::Navigation)
    } else if c == '4' {
        Some(SidebarTab::Projects)
    } else if c == '5' {
        Some(SidebarTab::Tags)
    } else if c == '6' {
        Some(SidebarTab::Filters)
    } else {
        None
    }
}

/// The sidebar tab that a key among 3 to 6 opens.
pub open spec fn digit_tab(key: EditorKey) -> Option<SidebarTab> {
    match typed_char(key) {
        Some(c) => sidebar_for_digit(c),
        None => None,
    }
}

/// The panel that a digit key focuses.
pub open spec fn shortcut_panel(key: EditorKey) -> Option<PanelFocus> {
    match typed_char(key) {
        Some(c) => panel_for_shortcut(c),
        None => None,
    }
}

/// `a` plus `b`, but no more than `cap`.
pub open spec fn up_to(a: nat, b: nat, cap: nat) -> nat {
    if a + b < cap {
        a + b
    } else {
        cap
    }
}

/// The lines a page of help scrolls: the lines it shows, at least one.
pub open spec fn help_page(ui: ShellState) -> nat {
    if ui.help_viewport_lines == 0 {
        1
    } else {
        ui.help_viewport_lines as nat
    }
}

/// How far help of `lines` lines scrolls: to its last screenful.
pub open spec fn help_scroll_max(ui: ShellState, lines: nat) -> nat {
    minus_floored(lines, help_page(ui))
}

/// How far the day's sessions scroll: one less than the focus sessions.
pub open spec fn history_scroll_max(data: ScreenData) -> nat {
    let n = focus_places(data.history_entries@, data.history_entries@.len() as int).len();
    if n > 0 {
        (n - 1) as nat
    } else {
        0
    }
}

/// A key while help is open: Esc or `?` closes it and scrolls it back to
/// the top; down/`j` and up/`k` scroll a line, page down and up a screenful,
/// Home and End to the top and to the last screenful; other keys do nothing.
pub open spec fn help_key_step(ui: ShellState, key: EditorKey, lines: nat) -> ShellState {
    let max = help_scroll_max(ui, lines);
    let s = ui.help_scroll as nat;
    if key == EditorKey::Esc || is_letter(key, '?') {
        ShellState { help_open: false, help_scroll: 0, ..ui }
    } else if goes_down(key) {
        ShellState { help_scroll: up_to(s, 1, max) as usize, ..ui }
    } else if goes_up(key) {
        ShellState { help_scroll: minus_floored(s, 1) as usize, ..ui }
    } else if key == EditorKey::PageDown {
        ShellState { help_scroll: up_to(s, help_page(ui), max) as usize, ..ui }
    } else if key == EditorKey::PageUp {
        ShellState { help_scroll: minus_floored(s, help_page(ui)) as usize, ..ui }
    } else if key == EditorKey::Home {
        ShellState { help_scroll: 0, ..ui }
    } else if key == EditorKey::End {
        ShellState { help_scroll: max as usize, ..ui }
    } else {
        ui
    }
}

/// A key on the timer panel: `a` searches a task to assign and `u` clears
/// it; `n`, `v` and `N` edit, show and clear the note of the coming session;
/// `s`, space or Enter start or resume the timer (a focus phase not yet
/// started takes the assigned task as its focus task); `p` pauses it; `x`
/// or Esc stop it.
pub open spec fn timer_panel_step(t: TimerModel, key: EditorKey, now: int, settings: TimerSettings) -> (TimerModel, GlobalOutcome) {
    if is_letter(key, 'a') {
        (t, GlobalOutcome::TimerTaskSearch)
    } else if is_letter(key, 'u') {
        (t, GlobalOutcome::TimerTaskClear)
    } else if is_letter(key, 'n') {
        (t, GlobalOutcome::NoteEdit)
    } else if is_letter(key, 'v') {
        (t, GlobalOutcome::NoteView)
    } else if is_letter(key, 'N') {
        (t, GlobalOutcome::NoteClear)
    } else if is_letter(key, 's') || is_letter(key, ' ') || key == EditorKey::Enter {
        (
            start_spec(t, now),
            GlobalOutcome::TimerStarted(t.phase == TimerPhase::Focus && t.current_phase_started_at is None),
        )
    } else if is_letter(key, 'p') {
        (pause_spec(t, now), GlobalOutcome::Nothing)
    } else if is_letter(key, 'x') || key == EditorKey::Esc {
        (stop_spec(t, now, settings).0, GlobalOutcome::TimerStopped(stop_spec(t, now, settings).1))
    } else {
        (t, GlobalOutcome::Nothing)
    }
}

/// A key on the history panel: right/`l` and left/`h` switch its tab; on
/// today's tab down/`j` and up/`k` scroll a session, page down and up five,
/// Home and End to the first and the last; `n`, `v` and `N` edit, show and
/// clear the note of the selected session; `a` searches a task for it and
/// `u` clears its task.
pub open spec fn history_panel_step(data: ScreenData, ui: ShellState, key: EditorKey) -> (ShellState, GlobalOutcome) {
    let today = ui.active_history_panel_tab == HistoryPanelTab::Today;
    let s = ui.history_scroll as nat;
    let max = history_scroll_max(data);
    let scrolled = |n: nat| (ShellState { history_scroll: if today { n as usize } else { ui.history_scroll }, ..ui }, GlobalOutcome::Nothing);
    if key == EditorKey::Right || is_letter(key, 'l') || key == EditorKey::Left || is_letter(key, 'h') {
        (ShellState { active_history_panel_tab: other_history_tab(ui.active_history_panel_tab), ..ui }, GlobalOutcome::Nothing)
    } else if goes_down(key) {
        scrolled(up_to(s, 1, max))
    } else if goes_up(key) {
        scrolled(minus_floored(s, 1))
    } else if key == EditorKey::PageDown {
        scrolled(up_to(s, 5, max))
    } else if key == EditorKey::PageUp {
        scrolled(minus_floored(s, 5))
    } else if key == EditorKey::Home {
        scrolled(0)
    } else if key == EditorKey::End {
        scrolled(max)
    } else if is_letter(key, 'n') {
        (ui, GlobalOutcome::NoteEdit)
    } else if is_letter(key, 'v') {
        (ui, GlobalOutcome::NoteView)
    } else if is_letter(key, 'N') {
        (ui, GlobalOutcome::NoteClear)
    } else if is_letter(key, 'a') {
        (ui, GlobalOutcome::HistoryTaskSearch)
    } else if is_letter(key, 'u') {
        (ui, GlobalOutcome::HistoryTaskClear)
    } else {
        (ui, GlobalOutcome::Nothing)
    }
}

/// The action that a letter takes on the selected project, tag or filter:
/// `C` creates, `e` edits, `d` asks to delete, `f` toggles the favorite,
/// `o` opens the sort popup, `J` and `K` move it down and up.
pub open spec fn item_action(key: EditorKey) -> Option<ItemAction> {
    if is_letter(key, 'C') {
        Some(ItemAction::Create)
    } else if is_letter(key, 'e') {
        Some(ItemAction::Edit)
    } else if is_letter(key, 'd') {
        Some(ItemAction::ConfirmDelete)
    } else if is_letter(key, 'f') {
        Some(ItemAction::ToggleFavorite)
    } else if is_letter(key, 'o') {
        Some(ItemAction::OpenSort)
    } else if is_letter(key, 'J') {
        Some(ItemAction::MoveDown)
    } else if is_letter(key, 'K') {
        Some(ItemAction::MoveUp)
    } else {
        None
    }
}

/// A key on the navigation panel: right/`l` and left/`h` switch the sidebar
/// tab; down/`j` and up/`k` move the selection of its list a row, page down
/// and up five rows, Home and End to the first and the last row; Enter opens
/// the selected row in the task list, which takes the keyboard; on the
/// project, tag and filter tabs the letters of `item_action` act on the
/// selected row.
pub open spec fn navigation_step(ui: ShellState, key: EditorKey) -> (ShellState, GlobalOutcome) {
    let tab = ui.active_sidebar_tab;
    if key == EditorKey::Right || is_letter(key, 'l') {
        (ShellState { active_sidebar_tab: sidebar_after(tab), ..ui }, GlobalOutcome::Nothing)
    } else if key == EditorKey::Left || is_letter(key, 'h') {
        (ShellState { active_sidebar_tab: sidebar_before(tab), ..ui }, GlobalOutcome::Nothing)
    } else if goes_down(key) {
        (ui, GlobalOutcome::SidebarMove(tab, 1))
    } else if goes_up(key) {
        (ui, GlobalOutcome::SidebarMove(tab, -1isize))
    } else if key == EditorKey::PageDown {
        (ui, GlobalOutcome::SidebarMove(tab, 5))
    } else if key == EditorKey::PageUp {
        (ui, GlobalOutcome::SidebarMove(tab, -5isize))
    } else if key == EditorKey::Home {
        (ui, GlobalOutcome::SidebarFirst(tab))
    } else if key == EditorKey::End {
        (ui, GlobalOutcome::SidebarLast(tab))
    } else if key == EditorKey::Enter {
        (
            ShellState {
                focused_panel: PanelFocus::RightPane,
                active_right_panel_tab: RightPanelTab::Tasks,
                ..ui
            },
            GlobalOutcome::SidebarOpen(tab),
        )
    } else if tab != SidebarTab::Navigation && item_action(key) is Some {
        (ui, GlobalOutcome::SidebarItem(tab, item_action(key)->0))
    } else {
        (ui, GlobalOutcome::Nothing)
    }
}

/// A key on the favorites panel: down/`j` and up/`k` move the selection a
/// row, page down and up five, Home and End to the first and the last row;
/// `f` toggles the selected favorite.
pub open spec fn favorites_step(key: EditorKey) -> GlobalOutcome {
    if goes_down(key) {
        GlobalOutcome::FavoriteMove(1)
    } else if goes_up(key) {
        GlobalOutcome::FavoriteMove(-1isize)
    } else if key == EditorKey::PageDown {
        GlobalOutcome::FavoriteMove(5)
    } else if key == EditorKey::PageUp {
        GlobalOutcome::FavoriteMove(-5isize)
    } else if key == EditorKey::Home {
        GlobalOutcome::FavoriteFirst
    } else if key == EditorKey::End {
        GlobalOutcome::FavoriteLast
    } else if is_letter(key, 'f') {
        GlobalOutcome::FavoriteToggle
    } else {
        GlobalOutcome::Nothing
    }
}

/// The action that a key takes on the selected task: `e` edits it, `C`
/// adds a subtask, `d` asks to delete it, `a` assigns it to the timer or
/// takes it off, `o` opens the sort popup, `=` and `-` expand and collapse
/// it, `J` and `K` move it among its siblings, `f` hides or shows completed
/// tasks, and space completes it or opens it again.
pub open spec fn task_action(key: EditorKey) -> Option<TaskAction> {
    if is_letter(key, 'e') {
        Some(TaskAction::Edit)
    } else if is_letter(key, 'C') {
        Some(TaskAction::CreateChild)
    } else if is_letter(key, 'd') {
        Some(TaskAction::ConfirmDelete)
    } else if is_letter(key, 'a') {
        Some(TaskAction::ToggleAssignment)
    } else if is_letter(key, 'o') {
        Some(TaskAction::OpenSort)
    } else if is_letter(key, '=') {
        Some(TaskAction::Expand)
    } else if is_letter(key, '-') {
        Some(TaskAction::Collapse)
    } else if is_letter(key, 'J') {
        Some(TaskAction::MoveDown)
    } else if is_letter(key, 'K') {
        Some(TaskAction::MoveUp)
    } else if is_letter(key, 'f') {
        Some(TaskAction::ToggleHideCompleted)
    } else if is_letter(key, ' ') {
        Some(TaskAction::ToggleStatus)
    } else {
        None
    }
}

/// A key on the right pane: right/`l` and left/`h` switch its tab; on the
/// task tab down/`j` and up/`k` move the selection, page down and up scroll
/// the details eight lines, and the keys of `task_action` act on the
/// selected task.
pub open spec fn right_pane_step(ui: ShellState, key: EditorKey) -> (ShellState, GlobalOutcome) {
    let tasks = ui.active_right_panel_tab == RightPanelTab::Tasks;
    if key == EditorKey::Right || is_letter(key, 'l') || key == EditorKey::Left || is_letter(key, 'h') {
        (ShellState { active_right_panel_tab: other_right_tab(ui.active_right_panel_tab), ..ui }, GlobalOutcome::Nothing)
    } else if !tasks {
        (ui, GlobalOutcome::Nothing)
    } else if goes_down(key) {
        (ui, GlobalOutcome::TaskMove(1))
    } else if goes_up(key) {
        (ui, GlobalOutcome::TaskMove(-1isize))
    } else if key == EditorKey::PageDown {
        (ui, GlobalOutcome::TaskDetailsScroll(8))
    } else if key == EditorKey::PageUp {
        (ui, GlobalOutcome::TaskDetailsScroll(-8isize))
    } else if task_action(key) is Some {
        (ui, GlobalOutcome::Task(task_action(key)->0))
    } else {
        (ui, GlobalOutcome::Nothing)
    }
}

/// A key that no popup took. While help is open it goes to help. Otherwise
/// `?` opens help at the top; 3 to 6 focus the navigation panel on its
/// navigation, project, tag or filter tab; `c` opens the quick-add popup;
/// `q` quits, recording a running session as voided; the other digit
/// shortcuts focus their panel; Tab and Shift+Tab focus the next and the
/// previous panel; any other key goes to the focused panel.
pub open spec fn global_key_step(
    data: ScreenData,
    ui: ShellState,
    t: TimerModel,
    key: EditorKey,
    now: int,
    settings: TimerSettings,
    help_lines: nat,
) -> (ShellState, TimerModel, GlobalOutcome) {
    if ui.help_open {
        (help_key_step(ui, key, help_lines), t, GlobalOutcome::Nothing)
    } else if is_letter(key, '?') {
        (ShellState { help_open: true, help_scroll: 0, ..ui }, t, GlobalOutcome::Nothing)
    } else if digit_tab(key) is Some {
        (
            ShellState {
                focused_panel: PanelFocus::Navigation,
                active_sidebar_tab: digit_tab(key)->0,
                ..ui
            },
            t,
            GlobalOutcome::Nothing,
        )
    } else if is_letter(key, 'c') {
        (ui, t, GlobalOutcome::OpenCreateTask)
    } else if is_letter(key, 'q') {
        (ShellState { should_quit: true, ..ui }, t, GlobalOutcome::Quit(quit_record_spec(t, now)))
    } else if shortcut_panel(key) is Some {
        (ShellState { focused_panel: shortcut_panel(key)->0, ..ui }, t, GlobalOutcome::Nothing)
    } else if key == EditorKey::Tab {
        (ShellState { focused_panel: panel_after(ui.focused_panel), ..ui }, t, GlobalOutcome::Nothing)
    } else if key == EditorKey::BackTab {
        (ShellState { focused_panel: panel_before(ui.focused_panel), ..ui }, t, GlobalOutcome::Nothing)
    } else {
        match ui.focused_panel {
            PanelFocus::Timer => {
                let (t2, o) = timer_panel_step(t, key, now, settings);
                (ui, t2, o)
            },
            PanelFocus::History => {
                let (u2, o) = history_panel_step(data, ui, key);
                (u2, t, o)
            },
            PanelFocus::Navigation => {
                let (u2, o) = navigation_step(ui, key);
                (u2, t, o)
            },
            PanelFocus::Favorites => (ui, t, favorites_step(key)),
            PanelFocus::RightPane => {
                let (u2, o) = right_pane_step(ui, key);
                (u2, t, o)
            },
        }
    }
}

/// Tab and then Shift+Tab give the keyboard back to the panel that had it,
/// and change nothing else on the screen or in the timer.
pub proof fn tab_then_back_tab_restores(
    data: ScreenData,
    ui: ShellState,
    t: TimerModel,
    now: int,
    settings: TimerSettings,
    help_lines: nat,
)
    requires
        !ui.help_open,
    ensures
        ({
            let first = global_key_step(data, ui, t, EditorKey::Tab, now, settings, help_lines);
            let second = global_key_step(data, first.0, first.1, EditorKey::BackTab, now, settings, help_lines);
            &&& second.0 == ui
            &&& second.1 == t
            &&& first.2 == GlobalOutcome::Nothing
            &&& second.2 == GlobalOutcome::Nothing
        }),
{
}

/// Opening help and closing it again leaves the screen as it was, but for
/// the help scroll, which is back at the top.
pub proof fn help_open_then_close(
    data: ScreenData,
    ui: ShellState,
    t: TimerModel,
    now: int,
    settings: TimerSettings,
    help_lines: nat,
)
    requires
        !ui.help_open,
    ensures
        ({
            let first = global_key_step(data, ui, t, EditorKey::Char('?'), now, settings, help_lines);
            let second = global_key_step(data, first.0, first.1, EditorKey::Esc, now, settings, help_lines);
            &&& first.0.help_open
            &&& second.0 == ShellState { help_scroll: 0, ..ui }
            &&& second.1 == t
        }),
{
}

/// While help is open no key changes the timer, ends the program or leaves
/// anything to be done, and the help scroll stays within its last screenful
/// once it was there.
pub proof fn help_keeps_the_rest(
    data: ScreenData,
    ui: ShellState,
    t: TimerModel,
    key: EditorKey,
    now: int,
    settings: TimerSettings,
    help_lines: nat,
)
    requires
        ui.help_open,
        ui.help_scroll <= help_scroll_max(ui, help_lines),
        help_lines <= usize::MAX,
    ensures
        ({
            let r = global_key_step(data, ui, t, key, now, settings, help_lines);
            &&& r.1 == t
            &&& r.2 == GlobalOutcome::Nothing
            &&& r.0.should_quit == ui.should_quit
            &&& r.0.focused_panel == ui.focused_panel
            &&& r.0.help_scroll <= help_scroll_max(ui, help_lines)
        }),
{
}

/// Only the keys of the timer panel touch the timer, and only `q` ends the
/// program, with the session to record where one runs.
pub proof fn timer_and_quit_keys(
    data: ScreenData,
    ui: ShellState,
    t: TimerModel,
    key: EditorKey,
    now: int,
    settings: TimerSettings,
    help_lines: nat,
)
    ensures
        ({
            let r = global_key_step(data, ui, t, key, now, settings, help_lines);
            &&& r.1 != t ==> !ui.help_open && ui.focused_panel == PanelFocus::Timer
            &&& (r.0.should_quit && !ui.should_quit) ==> r.2 == GlobalOutcome::Quit(quit_record_spec(t, now))
            &&& r.0.should_quit == (ui.should_quit || (!ui.help_open && is_letter(key, 'q')))
        }),
{
}

fn up_to_of(a: usize, b: usize, cap: usize) -> (r: usize)
    ensures
        r == up_to(a as nat, b as nat, cap as nat),
{
    if a < cap && cap - a > b {
        a + b
    } else {
        cap
    }
}

fn char_of(key: EditorKey) -> (r: Option<char>)
    ensures
        r == typed_char(key),
{
    match key {
        EditorKey::Char(c) => Some(c),
        EditorKey::Ctrl(c) => Some(c),
        _ => None,
    }
}

fn sidebar_for_digit_of(c: char) -> (r: Option<SidebarTab>)
    ensures
        r == sidebar_for_digit(c),
{
    match c {
        '3' => Some(SidebarTab::Navigation),
        '4' => Some(SidebarTab::Projects),
        '5' => Some(SidebarTab::Tags),
        '6' => Some(SidebarTab::Filters),
        _ => None,
    }
}

fn help_key(ui: &mut ShellState, key: EditorKey, help_lines: usize)
    ensures
        *final(ui) == help_key_step(*old(ui), key, help_lines as nat),
{
    let page = if ui.help_viewport_lines == 0 {
        1
    } else {
        ui.help_viewport_lines
    };
    let max = help_lines.saturating_sub(page);
    let s = ui.help_scroll;
    if key == EditorKey::Esc || letter_key(key, '?') {
        ui.help_open = false;
        ui.help_scroll = 0;
    } else if is_down_key(key) {
        ui.help_scroll = up_to_of(s, 1, max);
    } else if is_up_key(key) {
        ui.help_scroll = s.saturating_sub(1);
    } else if key == EditorKey::PageDown {
        ui.help_scroll = up_to_of(s, page, max);
    } else if key == EditorKey::PageUp {
        ui.help_scroll = s.saturating_sub(page);
    } else if key == EditorKey::Home {
        ui.help_scroll = 0;
    } else if key == EditorKey::End {
        ui.help_scroll = max;
    }
}

fn timer_panel_key(timer: &mut TimerState, key: EditorKey, now: i64, settings: &TimerSettings) -> (r: GlobalOutcome)
    requires
        timer_in_range(old(timer)@, now as int),
    ensures
        (final(timer)@, r) == timer_panel_step(old(timer)@, key, now as int, *settings),
{
    if letter_key(key, 'a') {
        GlobalOutcome::TimerTaskSearch
    } else if letter_key(key, 'u') {
        GlobalOutcome::TimerTaskClear
    } else if letter_key(key, 'n') {
        GlobalOutcome::NoteEdit
    } else if letter_key(key, 'v') {
        GlobalOutcome::NoteView
    } else if letter_key(key, 'N') {
        GlobalOutcome::NoteClear
    } else if letter_key(key, 's') || letter_key(key, ' ') || key == EditorKey::Enter {
        let begins = timer.phase == TimerPhase::Focus && timer.current_phase_started_at.is_none();
        timer.start_or_resume(now);
        GlobalOutcome::TimerStarted(begins)
    } else if letter_key(key, 'p') {
        timer.pause(now);
        GlobalOutcome::Nothing
    } else if letter_key(key, 'x') || key == EditorKey::Esc {
        let record = timer.stop(now, settings);
        GlobalOutcome::TimerStopped(record)
    } else {
        GlobalOutcome::Nothing
    }
}

fn history_panel_key(ui: &mut ShellState, data: &ScreenData, key: EditorKey) -> (r: GlobalOutcome)
    ensures
        (*final(ui), r) == history_panel_step(*data, *old(ui), key),
{
    let today = ui.active_history_panel_tab == HistoryPanelTab::Today;
    let s = ui.history_scroll;
    if key == EditorKey::Right || letter_key(key, 'l') || key == EditorKey::Left || letter_key(key, 'h') {
        ui.active_history_panel_tab = match ui.active_history_panel_tab {
            HistoryPanelTab::Today => HistoryPanelTab::Last7Days,
            HistoryPanelTab::Last7Days => HistoryPanelTab::Today,
        };
        return GlobalOutcome::Nothing;
    }
    let scrolls = is_down_key(key) || is_up_key(key) || key == EditorKey::PageDown || key
        == EditorKey::PageUp || key == EditorKey::Home || key == EditorKey::End;
    if scrolls {
        if today {
            let max = max_history_scroll(data.history_entries.as_slice());
            ui.history_scroll = if is_down_key(key) {
                up_to_of(s, 1, max)
            } else if is_up_key(key) {
                s.saturating_sub(1)
            } else if key == EditorKey::PageDown {
                up_to_of(s, 5, max)
            } else if key == EditorKey::PageUp {
                s.saturating_sub(5)
            } else if key == EditorKey::Home {
                0
            } else {
                max
            };
        }
        return GlobalOutcome::Nothing;
    }
    if letter_key(key, 'n') {
        GlobalOutcome::NoteEdit
    } else if letter_key(key, 'v') {
        GlobalOutcome::NoteView
    } else if letter_key(key, 'N') {
        GlobalOutcome::NoteClear
    } else if letter_key(key, 'a') {
        GlobalOutcome::HistoryTaskSearch
    } else if letter_key(key, 'u') {
        GlobalOutcome::HistoryTaskClear
    } else {
        GlobalOutcome::Nothing
    }
}

fn item_action_of(key: EditorKey) -> (r: Option<ItemAction>)
    ensures
        r == item_action(key),
{
    if letter_key(key, 'C') {
        Some(ItemAction::Create)
    } else if letter_key(key, 'e') {
        Some(ItemAction::Edit)
    } else if letter_key(key, 'd') {
        Some(ItemAction::ConfirmDelete)
    } else if letter_key(key, 'f') {
        Some(ItemAction::ToggleFavorite)
    } else if letter_key(key, 'o') {
        Some(ItemAction::OpenSort)
    } else if letter_key(key, 'J') {
        Some(ItemAction::MoveDown)
    } else if letter_key(key, 'K') {
        Some(ItemAction::MoveUp)
    } else {
        None
    }
}

fn navigation_key(ui: &mut ShellState, key: EditorKey) -> (r: GlobalOutcome)
    ensures
        (*final(ui), r) == navigation_step(*old(ui), key),
{
    let tab = ui.active_sidebar_tab;
    if key == EditorKey::Right || letter_key(key, 'l') {
        ui.active_sidebar_tab = match tab {
            SidebarTab::Navigation => SidebarTab::Projects,
            SidebarTab::Projects => SidebarTab::Tags,
            SidebarTab::Tags => SidebarTab::Filters,
            SidebarTab::Filters => SidebarTab::Navigation,
        };
        GlobalOutcome::Nothing
    } else if key == EditorKey::Left || letter_key(key, 'h') {
        ui.active_sidebar_tab = match tab {
            SidebarTab::Navigation => SidebarTab::Filters,
            SidebarTab::Projects => SidebarTab::Navigation,
            SidebarTab::Tags => SidebarTab::Projects,
            SidebarTab::Filters => SidebarTab::Tags,
        };
        GlobalOutcome::Nothing
    } else if is_down_key(key) {
        GlobalOutcome::SidebarMove(tab, 1)
    } else if is_up_key(key) {
        GlobalOutcome::SidebarMove(tab, -1)
    } else if key == EditorKey::PageDown {
        GlobalOutcome::SidebarMove(tab, 5)
    } else if key == EditorKey::PageUp {
        GlobalOutcome::SidebarMove(tab, -5)
    } else if key == EditorKey::Home {
        GlobalOutcome::SidebarFirst(tab)
    } else if key == EditorKey::End {
        GlobalOutcome::SidebarLast(tab)
    } else if key == EditorKey::Enter {
        ui.focused_panel = PanelFocus::RightPane;
        ui.active_right_panel_tab = RightPanelTab::Tasks;
        GlobalOutcome::SidebarOpen(tab)
    } else {
        match item_action_of(key) {
            Some(action) => if tab != SidebarTab::Navigation {
                GlobalOutcome::SidebarItem(tab, action)
            } else {
                GlobalOutcome::Nothing
            },
            None => GlobalOutcome::Nothing,
        }
    }
}

fn favorites_key(key: EditorKey) -> (r: GlobalOutcome)
    ensures
        r == favorites_step(key),
{
    if is_down_key(key) {
        GlobalOutcome::FavoriteMove(1)
    } else if is_up_key(key) {
        GlobalOutcome::FavoriteMove(-1)
    } else if key == EditorKey::PageDown {
        GlobalOutcome::FavoriteMove(5)
    } else if key == EditorKey::PageUp {
        GlobalOutcome::FavoriteMove(-5)
    } else if key == EditorKey::Home {
        GlobalOutcome::FavoriteFirst
    } else if key == EditorKey::End {
        GlobalOutcome::FavoriteLast
    } else if letter_key(key, 'f') {
        GlobalOutcome::FavoriteToggle
    } else {
        GlobalOutcome::Nothing
    }
}

fn task_action_of(key: EditorKey) -> (r: Option<TaskAction>)
    ensures
        r == task_action(key),
{
    if letter_key(key, 'e') {
        Some(TaskAction::Edit)
    } else if letter_key(key, 'C') {
        Some(TaskAction::CreateChild)
    } else if letter_key(key, 'd') {
        Some(TaskAction::ConfirmDelete)
    } else if letter_key(key, 'a') {
        Some(TaskAction::ToggleAssignment)
    } else if letter_key(key, 'o') {
        Some(TaskAction::OpenSort)
    } else if letter_key(key, '=') {
        Some(TaskAction::Expand)
    } else if letter_key(key, '-') {
        Some(TaskAction::Collapse)
    } else if letter_key(key, 'J') {
        Some(TaskAction::MoveDown)
    } else if letter_key(key, 'K') {
        Some(TaskAction::MoveUp)
    } else if letter_key(key, 'f') {
        Some(TaskAction::ToggleHideCompleted)
    } else if letter_key(key, ' ') {
        Some(TaskAction::ToggleStatus)
    } else {
        None
    }
}

fn right_pane_key(ui: &mut ShellState, key: EditorKey) -> (r: GlobalOutcome)
    ensures
        (*final(ui), r) == right_pane_step(*old(ui), key),
{
    if key == EditorKey::Right || letter_key(key, 'l') || key == EditorKey::Left || letter_key(key, 'h') {
        ui.active_right_panel_tab = match ui.active_right_panel_tab {
            RightPanelTab::Tasks => RightPanelTab::Statistics,
            RightPanelTab::Statistics => RightPanelTab::Tasks,
        };
        return GlobalOutcome::Nothing;
    }
    if ui.active_right_panel_tab != RightPanelTab::Tasks {
        return GlobalOutcome::Nothing;
    }
    if is_down_key(key) {
        GlobalOutcome::TaskMove(1)
    } else if is_up_key(key) {
        GlobalOutcome::TaskMove(-1)
    } else if key == EditorKey::PageDown {
        GlobalOutcome::TaskDetailsScroll(8)
    } else if key == EditorKey::PageUp {
        GlobalOutcome::TaskDetailsScroll(-8)
    } else {
        match task_action_of(key) {
            Some(action) => GlobalOutcome::Task(action),
            None => GlobalOutcome::Nothing,
        }
    }
}

/// Applies a key that no popup or editor took (and, with help closed, that
/// the search of the focused panel did not take) to the main screen and the
/// timer at `now`, and says what is left to be done; `help_lines` is how
/// many lines help has.
pub fn handle_global_key(
    ui: &mut ShellState,
    timer: &mut TimerState,
    data: &ScreenData,
    key: EditorKey,
    now: i64,
    settings: &TimerSettings,
    help_lines: usize,
) -> (r: GlobalOutcome)
    requires
        timer_in_range(old(timer)@, now as int),
    ensures
        (*final(ui), final(timer)@, r) == global_key_step(
            *data,
            *old(ui),
            old(timer)@,
            key,
            now as int,
            *settings,
            help_lines as nat,
        ),
{
    if ui.help_open {
        help_key(ui, key, help_lines);
        return GlobalOutcome::Nothing;
    }
    if letter_key(key, '?') {
        ui.help_open = true;
        ui.help_scroll = 0;
        return GlobalOutcome::Nothing;
    }
    let typed = char_of(key);
    if let Some(c) = typed {
        if let Some(tab) = sidebar_for_digit_of(c) {
            ui.focused_panel = PanelFocus::Navigation;
            ui.active_sidebar_tab = tab;
            return GlobalOutcome::Nothing;
        }
    }
    if letter_key(key, 'c') {
        return GlobalOutcome::OpenCreateTask;
    }
    if letter_key(key, 'q') {
        let record = timer.quit_record(now);
        ui.should_quit = true;
        return GlobalOutcome::Quit(record);
    }
    if let Some(c) = typed {
        if let Some(panel) = PanelFocus::from_shortcut(c) {
            ui.focused_panel = panel;
            return GlobalOutcome::Nothing;
        }
    }
    if key == EditorKey::Tab {
        ui.focused_panel = ui.focused_panel.next();
        return GlobalOutcome::Nothing;
    }
    if key == EditorKey::BackTab {
        ui.focused_panel = ui.focused_panel.previous();
        return GlobalOutcome::Nothing;
    }
    match ui.focused_panel {
        PanelFocus::Timer => timer_panel_key(timer, key, now, settings),
        PanelFocus::History => history_panel_key(ui, data, key),
        PanelFocus::Navigation => navigation_key(ui, key),
        PanelFocus::Favorites => favorites_key(key),
        PanelFocus::RightPane => right_pane_key(ui, key),
    }
}

/// What a key did on the main screen: the search of a panel took it, or the
/// screen did (see `GlobalOutcome`).
#[derive(Debug, Clone, Copy, PartialEq, Eq)]
pub enum ScreenOutcome {
    Search(PanelSearchTarget, SearchOutcome),
    Global(GlobalOutcome),
}

/// The panel whose search the keys reach: the list of the sidebar tab when
/// the navigation panel has the keyboard, the favorites, or the task list
/// when the right pane shows it; none on the other panels.
pub open spec fn search_target(ui: ShellState) -> Option<PanelSearchTarget> {
    match ui.focused_panel {
        PanelFocus::Navigation => Some(
            match ui.active_sidebar_tab {
                SidebarTab::Navigation => PanelSearchTarget::NavigationViews,
                SidebarTab::Projects => PanelSearchTarget::Projects,
                SidebarTab::Tags => PanelSearchTarget::Tags,
                SidebarTab::Filters => PanelSearchTarget::Filters,
            },
        ),
        PanelFocus::Favorites => Some(PanelSearchTarget::Favorites),
        PanelFocus::RightPane => if ui.active_right_panel_tab == RightPanelTab::Tasks {
            Some(PanelSearchTarget::TaskList)
        } else {
            None
        },
        _ => None,
    }
}

/// A key as a search box reads it: Ctrl does not matter there.
pub open spec fn search_key(key: EditorKey) -> SearchKey {
    match key {
        EditorKey::Char(c) => SearchKey::Char(c),
        EditorKey::Ctrl(c) => SearchKey::Char(c),
        EditorKey::Enter => SearchKey::Enter,
        EditorKey::Esc => SearchKey::Esc,
        EditorKey::Backspace => SearchKey::Backspace,
        EditorKey::Delete => SearchKey::Delete,
        EditorKey::Home => SearchKey::Home,
        EditorKey::End => SearchKey::End,
        EditorKey::Left => SearchKey::Left,
        EditorKey::Right => SearchKey::Right,
        _ => SearchKey::Other,
    }
}

/// Every search has its cursor within its query and room to type.
pub open spec fn searches_fit(states: PanelSearchStates) -> bool {
    forall|t: PanelSearchTarget| {
        &&& search_wf(search_model(#[trigger] search_of(states, t)))
        &&& (search_of(states, t) matches Some(st) ==> st.input@.value.len() < usize::MAX)
    }
}

/// Whether the search of the focused panel takes a key: help is closed,
/// the panel has a search, and the key does something to it.
pub open spec fn search_takes(ui: ShellState, states: PanelSearchStates, key: EditorKey) -> bool {
    &&& !ui.help_open
    &&& search_target(ui) is Some
    &&& search_step(search_model(search_of(states, search_target(ui)->0)), search_key(key)).1
        != SearchOutcome::Ignored
}

/// What a key that no popup took does (see `handle_screen_key`): where the
/// search of the focused panel takes it, that search steps and nothing else
/// changes; otherwise the main screen and the timer step as
/// `global_key_step` says and the searches stay as they were.
pub open spec fn screen_key_done(
    data: ScreenData,
    ui: ShellState,
    ui2: ShellState,
    states: PanelSearchStates,
    states2: PanelSearchStates,
    t: TimerModel,
    t2: TimerModel,
    key: EditorKey,
    now: int,
    settings: TimerSettings,
    help_lines: nat,
    r: ScreenOutcome,
) -> bool {
    if search_takes(ui, states, key) {
        let target = search_target(ui)->0;
        let step = search_step(search_model(search_of(states, target)), search_key(key));
        &&& r == ScreenOutcome::Search(target, step.1)
        &&& search_model(search_of(states2, target)) == step.0
        &&& forall|o: PanelSearchTarget| o != target ==> #[trigger] search_of(states2, o) == search_of(states, o)
        &&& ui2 == ui
        &&& t2 == t
    } else {
        let g = global_key_step(data, ui, t, key, now, settings, help_lines);
        &&& r == ScreenOutcome::Global(g.2)
        &&& ui2 == g.0
        &&& t2 == g.1
        &&& forall|o: PanelSearchTarget| #[trigger] search_model(search_of(states2, o)) == search_model(search_of(states, o))
    }
}

fn search_key_of(key: EditorKey) -> (r: SearchKey)
    ensures
        r == search_key(key),
{
    match key {
        EditorKey::Char(c) => SearchKey::Char(c),
        EditorKey::Ctrl(c) => SearchKey::Char(c),
        EditorKey::Enter => SearchKey::Enter,
        EditorKey::Esc => SearchKey::Esc,
        EditorKey::Backspace => SearchKey::Backspace,
        EditorKey::Delete => SearchKey::Delete,
        EditorKey::Home => SearchKey::Home,
        EditorKey::End => SearchKey::End,
        EditorKey::Left => SearchKey::Left,
        EditorKey::Right => SearchKey::Right,
        _ => SearchKey::Other,
    }
}

fn search_target_of(ui: &ShellState) -> (r: Option<PanelSearchTarget>)
    ensures
        r == search_target(*ui),
{
    match ui.focused_panel {
        PanelFocus::Navigation => Some(
            match ui.active_sidebar_tab {
                SidebarTab::Navigation => PanelSearchTarget::NavigationViews,
                SidebarTab::Projects => PanelSearchTarget::Projects,
                SidebarTab::Tags => PanelSearchTarget::Tags,
                SidebarTab::Filters => PanelSearchTarget::Filters,
            },
        ),
        PanelFocus::Favorites => Some(PanelSearchTarget::Favorites),
        PanelFocus::RightPane => if ui.active_right_panel_tab == RightPanelTab::Tasks {
            Some(PanelSearchTarget::TaskList)
        } else {
            None
        },
        _ => None,
    }
}

fn search_key_on(states: &mut PanelSearchStates, target: PanelSearchTarget, key: SearchKey) -> (r: SearchOutcome)
    requires
        searches_fit(*old(states)),
    ensures
        (search_model(search_of(*final(states), target)), r) == search_step(
            search_model(search_of(*old(states), target)),
            key,
        ),
        forall|o: PanelSearchTarget| o != target ==> #[trigger] search_of(*final(states), o) == search_of(*old(states), o),
{
    proof {
        assert(search_wf(search_model(search_of(*states, target))));
    }
    match target {
        PanelSearchTarget::NavigationViews => handle_panel_search_key(&mut states.navigation_views, key),
        PanelSearchTarget::Projects => handle_panel_search_key(&mut states.projects, key),
        PanelSearchTarget::Tags => handle_panel_search_key(&mut states.tags, key),
        PanelSearchTarget::Filters => handle_panel_search_key(&mut states.filters, key),
        PanelSearchTarget::Favorites => handle_panel_search_key(&mut states.favorites, key),
        PanelSearchTarget::TaskList => handle_panel_search_key(&mut states.task_list, key),
    }
}

/// A key that no popup or editor took: with help closed, the search of the
/// focused panel takes it where it does something to it (see `search_step`);
/// otherwise the main screen does (see `handle_global_key`), and the
/// searches are left as they were.
pub fn handle_screen_key(
    ui: &mut ShellState,
    searches: &mut PanelSearchStates,
    timer: &mut TimerState,
    data: &ScreenData,
    key: EditorKey,
    now: i64,
    settings: &TimerSettings,
    help_lines: usize,
) -> (r: ScreenOutcome)
    requires
        timer_in_range(old(timer)@, now as int),
        searches_fit(*old(searches)),
    ensures
        screen_key_done(
            *data,
            *old(ui),
            *final(ui),
            *old(searches),
            *final(searches),
            old(timer)@,
            final(timer)@,
            key,
            now as int,
            *settings,
            help_lines as nat,
            r,
        ),
{
    if !ui.help_open {
        if let Some(target) = search_target_of(ui) {
            let outcome = search_key_on(searches, target, search_key_of(key));
            if outcome != SearchOutcome::Ignored {
                return ScreenOutcome::Search(target, outcome);
            }
        }
    }
    ScreenOutcome::Global(handle_global_key(ui, timer, data, key, now, settings, help_lines))
}

/// What a key did: an open popup or editor took it, or the main screen did.
#[derive(Debug, Clone, PartialEq, Eq)]
pub enum KeyOutcome {
    Overlay(OverlayOutcome),
    Screen(ScreenOutcome),
}

/// A key, pressed at `now`: the first open popup or editor takes it (see
/// `handle_overlay_key`); where none is open, the main screen does (see
/// `handle_screen_key`).
pub fn handle_key(
    overlays: &mut OverlayState,
    ui: &mut ShellState,
    searches: &mut PanelSearchStates,
    timer: &mut TimerState,
    data: &ScreenData,
    key: EditorKey,
    now: i64,
    settings: &TimerSettings,
    help_lines: usize,
) -> (r: KeyOutcome)
    requires
        overlay_fits(*data, *old(overlays), key),
        timer_in_range(old(timer)@, now as int),
        searches_fit(*old(searches)),
    ensures
        final(overlays)@ == overlay_key_step(*data, old(overlays)@, key).0,
        overlay_key_step(*data, old(overlays)@, key).1 != OverlayResult::NotOpen ==> {
            &&& r matches KeyOutcome::Overlay(o) && overlay_outcome_is(o, overlay_key_step(*data, old(overlays)@, key).1)
            &&& *final(ui) == *old(ui)
            &&& *final(searches) == *old(searches)
            &&& final(timer)@ == old(timer)@
        },
        overlay_key_step(*data, old(overlays)@, key).1 == OverlayResult::NotOpen ==> (
        r matches KeyOutcome::Screen(s) && screen_key_done(
            *data,
            *old(ui),
            *final(ui),
            *old(searches),
            *final(searches),
            old(timer)@,
            final(timer)@,
            key,
            now as int,
            *settings,
            help_lines as nat,
            s,
        )),
{
    let outcome = handle_overlay_key(overlays, data, key);
    match outcome {
        OverlayOutcome::NotOpen => {},
        _ => {
            return KeyOutcome::Overlay(outcome);
        },
    }
    KeyOutcome::Screen(handle_screen_key(ui, searches, timer, data, key, now, settings, help_lines))
}

} // verus!
