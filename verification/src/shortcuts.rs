//! The shortcut tips: the tips of each panel and popup, the tips the
//! footer shows for what has the keyboard, and the sections of the help.
use vstd::prelude::*;

use crate::app::{PanelFocus, RightPanelTab, ShortcutSection, ShortcutTip, SidebarTab};

verus! {

/// The tables of shortcut tips.
#[derive(Debug, Clone, Copy, PartialEq, Eq, Structural)]
pub enum ShortcutTable {
    Global,
    Timer,
    History,
    Navigation,
    Tags,
    Filters,
    TagEditor,
    TagDeleteConfirmation,
    FilterEditor,
    FilterDeleteConfirmation,
    Projects,
    Favorites,
    Tasks,
    Statistics,
    InputPopup,
    EditorPopup,
    SearchPopup,
    SessionNoteEditor,
    SessionNoteViewer,
    PanelSearch,
    DeleteConfirmation,
    ProjectEditor,
    ProjectDeleteConfirmation,
    SortPopup,
}

/// The tips of each table.
pub open spec fn table_tips(t: ShortcutTable) -> Seq<ShortcutTip> {
    match t {
        ShortcutTable::Global => seq![
            ShortcutTip { keys: "1-8", description: "focus panel" },
            ShortcutTip { keys: "Tab/S-Tab", description: "next/prev panel" },
            ShortcutTip { keys: "?", description: "help" },
            ShortcutTip { keys: "q", description: "quit" },
        ],
        ShortcutTable::Timer => seq![
            ShortcutTip { keys: "s/Space/Enter", description: "start/resume" },
            ShortcutTip { keys: "p", description: "pause" },
            ShortcutTip { keys: "x/Esc", description: "void/reset" },
            ShortcutTip { keys: "a", description: "assign task" },
            ShortcutTip { keys: "u", description: "clear task" },
            ShortcutTip { keys: "n/v/N", description: "note edit/view/clear" },
        ],
        ShortcutTable::History => seq![
            ShortcutTip { keys: "h/l or ←/→", description: "switch range" },
            ShortcutTip { keys: "j/k or ↑/↓", description: "move session" },
            ShortcutTip { keys: "PgUp/PgDn", description: "page" },
            ShortcutTip { keys: "a", description: "assign task" },
            ShortcutTip { keys: "u", description: "clear task" },
            ShortcutTip { keys: "n/v/N", description: "note edit/view/clear" },
        ],
        ShortcutTable::Navigation => seq![
            ShortcutTip { keys: "j/k or ↑/↓", description: "change view" },
            ShortcutTip { keys: "3/4/5/6 or h/l or ←/→", description: "switch tab" },
            ShortcutTip { keys: "PgUp/PgDn", description: "page" },
            ShortcutTip { keys: "Home/End", description: "jump first/last" },
            ShortcutTip { keys: "Enter", description: "open task list" },
            ShortcutTip { keys: "/", description: "search" },
        ],
        ShortcutTable::Tags => seq![
            ShortcutTip { keys: "3/4/5/6 or h/l or ←/→", description: "switch tab" },
            ShortcutTip { keys: "j/k or ↑/↓", description: "move tag" },
            ShortcutTip { keys: "C/e/d", description: "new/edit/delete tag" },
            ShortcutTip { keys: "o", description: "sort" },
            ShortcutTip { keys: "J/K", description: "reorder (manual)" },
            ShortcutTip { keys: "f", description: "toggle favorite" },
            ShortcutTip { keys: "c", description: "new task with tag" },
            ShortcutTip { keys: "Enter", description: "open task list" },
            ShortcutTip { keys: "/", description: "search" },
        ],
        ShortcutTable::Filters => seq![
            ShortcutTip { keys: "3/4/5/6 or h/l or ←/→", description: "switch tab" },
            ShortcutTip { keys: "j/k or ↑/↓", description: "move filter" },
            ShortcutTip { keys: "C/e/d", description: "new/edit/delete filter" },
            ShortcutTip { keys: "o", description: "sort" },
            ShortcutTip { keys: "J/K", description: "reorder (manual)" },
            ShortcutTip { keys: "f", description: "toggle favorite" },
            ShortcutTip { keys: "Enter", description: "open task list" },
            ShortcutTip { keys: "/", description: "search" },
        ],
        ShortcutTable::TagEditor => seq![
            ShortcutTip { keys: "Enter", description: "save" },
            ShortcutTip { keys: "Esc", description: "cancel" },
            ShortcutTip { keys: "Tab/S-Tab", description: "next/prev field" },
            ShortcutTip { keys: "F1-F3", description: "jump to field" },
            ShortcutTip { keys: "h/l or j/k", description: "change value" },
        ],
        ShortcutTable::TagDeleteConfirmation => seq![
            ShortcutTip { keys: "Enter/y", description: "confirm" },
            ShortcutTip { keys: "Esc/n", description: "cancel" },
        ],
        ShortcutTable::FilterEditor => seq![
            ShortcutTip { keys: "Enter", description: "save" },
            ShortcutTip { keys: "Esc", description: "cancel" },
            ShortcutTip { keys: "Tab/S-Tab", description: "next/prev field" },
            ShortcutTip { keys: "F1-F4", description: "jump to field" },
            ShortcutTip { keys: "h/l or j/k", description: "change value" },
        ],
        ShortcutTable::FilterDeleteConfirmation => seq![
            ShortcutTip { keys: "Enter/y", description: "confirm" },
            ShortcutTip { keys: "Esc/n", description: "cancel" },
        ],
        ShortcutTable::Projects => seq![
            ShortcutTip { keys: "3/4/5/6 or h/l or ←/→", description: "switch tab" },
            ShortcutTip { keys: "j/k or ↑/↓", description: "move project" },
            ShortcutTip { keys: "PgUp/PgDn", description: "page" },
            ShortcutTip { keys: "Home", description: "all projects" },
            ShortcutTip { keys: "C/e/d", description: "new/edit/delete project" },
            ShortcutTip { keys: "o", description: "sort" },
            ShortcutTip { keys: "J/K", description: "reorder (manual)" },
            ShortcutTip { keys: "f", description: "toggle favorite" },
            ShortcutTip { keys: "c", description: "new task here" },
            ShortcutTip { keys: "Enter", description: "open task list" },
            ShortcutTip { keys: "/", description: "search" },
        ],
        ShortcutTable::Favorites => seq![
            ShortcutTip { keys: "j/k or ↑/↓", description: "move favorite" },
            ShortcutTip { keys: "PgUp/PgDn", description: "page" },
            ShortcutTip { keys: "Home/End", description: "jump first/last" },
            ShortcutTip { keys: "f", description: "remove favorite" },
            ShortcutTip { keys: "/", description: "search" },
            ShortcutTip { keys: "1-8 / Tab", description: "change focus" },
        ],
        ShortcutTable::Tasks => seq![
            ShortcutTip { keys: "h/l or ←/→", description: "switch tab" },
            ShortcutTip { keys: "j/k or ↑/↓", description: "move task" },
            ShortcutTip { keys: "c", description: "new task" },
            ShortcutTip { keys: "C", description: "new subtask" },
            ShortcutTip { keys: "e/d", description: "edit/delete" },
            ShortcutTip { keys: "a", description: "assign to timer" },
            ShortcutTip { keys: "Space", description: "toggle done" },
            ShortcutTip { keys: "o/f", description: "sort/filter" },
            ShortcutTip { keys: "=/-", description: "expand/collapse" },
            ShortcutTip { keys: "J/K", description: "reorder sibling" },
            ShortcutTip { keys: "PgUp/PgDn", description: "details scroll" },
            ShortcutTip { keys: "/", description: "search" },
        ],
        ShortcutTable::Statistics => seq![
            ShortcutTip { keys: "h/l or ←/→", description: "switch tab" },
        ],
        ShortcutTable::InputPopup => seq![
            ShortcutTip { keys: "Enter", description: "submit" },
            ShortcutTip { keys: "Ctrl+e", description: "full editor" },
            ShortcutTip { keys: "Esc", description: "cancel" },
            ShortcutTip { keys: "Home/End", description: "move cursor" },
            ShortcutTip { keys: "Backspace/Del", description: "delete char" },
        ],
        ShortcutTable::EditorPopup => seq![
            ShortcutTip { keys: "F12", description: "save" },
            ShortcutTip { keys: "Esc", description: "cancel/close calendar" },
            ShortcutTip { keys: "Tab/S-Tab", description: "next/prev field" },
            ShortcutTip { keys: "F1-F9", description: "jump to field" },
            ShortcutTip { keys: "Ctrl+e", description: "external editor" },
            ShortcutTip { keys: "F8/F10", description: "recurrence/calendar" },
            ShortcutTip { keys: "j/k or ↑/↓", description: "suggestions" },
            ShortcutTip { keys: "F11", description: "clear due" },
        ],
        ShortcutTable::SearchPopup => seq![
            ShortcutTip { keys: "Enter", description: "assign selected" },
            ShortcutTip { keys: "Esc", description: "cancel" },
            ShortcutTip { keys: "j/k or ↑/↓", description: "move result" },
            ShortcutTip { keys: "Home/End", description: "move cursor" },
            ShortcutTip { keys: "Backspace/Del", description: "delete char" },
        ],
        ShortcutTable::SessionNoteEditor => seq![
            ShortcutTip { keys: "F12", description: "save" },
            ShortcutTip { keys: "Esc", description: "cancel" },
            ShortcutTip { keys: "Ctrl+e", description: "external editor" },
            ShortcutTip { keys: "F10", description: "clear" },
            ShortcutTip { keys: "j/k or ↑/↓", description: "move line" },
        ],
        ShortcutTable::SessionNoteViewer => seq![
            ShortcutTip { keys: "j/k or PgUp/PgDn", description: "scroll" },
            ShortcutTip { keys: "Home/End", description: "jump" },
            ShortcutTip { keys: "Esc or v", description: "close" },
        ],
        ShortcutTable::PanelSearch => seq![
            ShortcutTip { keys: "Enter", description: "lock search" },
            ShortcutTip { keys: "Esc", description: "clear search" },
            ShortcutTip { keys: "Home/End", description: "move cursor" },
            ShortcutTip { keys: "Backspace/Del", description: "delete char" },
        ],
        ShortcutTable::DeleteConfirmation => seq![
            ShortcutTip { keys: "Enter/y", description: "confirm" },
            ShortcutTip { keys: "Esc/n", description: "cancel" },
        ],
        ShortcutTable::ProjectEditor => seq![
            ShortcutTip { keys: "Enter", description: "save" },
            ShortcutTip { keys: "Esc", description: "cancel" },
            ShortcutTip { keys: "Tab/S-Tab", description: "next/prev field" },
            ShortcutTip { keys: "F1-F4", description: "jump to field" },
            ShortcutTip { keys: "h/l or j/k", description: "change value" },
        ],
        ShortcutTable::ProjectDeleteConfirmation => seq![
            ShortcutTip { keys: "Enter/y", description: "confirm" },
            ShortcutTip { keys: "Esc/n", description: "cancel" },
        ],
        ShortcutTable::SortPopup => seq![
            ShortcutTip { keys: "Enter", description: "apply sort" },
            ShortcutTip { keys: "Esc", description: "cancel" },
            ShortcutTip { keys: "j/k or ↑/↓", description: "move option" },
        ],
    }
}

/// The tips of a table.
pub fn shortcut_table(t: ShortcutTable) -> (r: &'static [ShortcutTip])
    ensures
        r@ == table_tips(t),
{
    match t {
        ShortcutTable::Global => &[
            ShortcutTip { keys: "1-8", description: "focus panel" },
            ShortcutTip { keys: "Tab/S-Tab", description: "next/prev panel" },
            ShortcutTip { keys: "?", description: "help" },
            ShortcutTip { keys: "q", description: "quit" },
        ],
        ShortcutTable::Timer => &[
            ShortcutTip { keys: "s/Space/Enter", description: "start/resume" },
            ShortcutTip { keys: "p", description: "pause" },
            ShortcutTip { keys: "x/Esc", description: "void/reset" },
            ShortcutTip { keys: "a", description: "assign task" },
            ShortcutTip { keys: "u", description: "clear task" },
            ShortcutTip { keys: "n/v/N", description: "note edit/view/clear" },
        ],
        ShortcutTable::History => &[
            ShortcutTip { keys: "h/l or ←/→", description: "switch range" },
            ShortcutTip { keys: "j/k or ↑/↓", description: "move session" },
            ShortcutTip { keys: "PgUp/PgDn", description: "page" },
            ShortcutTip { keys: "a", description: "assign task" },
            ShortcutTip { keys: "u", description: "clear task" },
            ShortcutTip { keys: "n/v/N", description: "note edit/view/clear" },
        ],
        ShortcutTable::Navigation => &[
            ShortcutTip { keys: "j/k or ↑/↓", description: "change view" },
            ShortcutTip { keys: "3/4/5/6 or h/l or ←/→", description: "switch tab" },
            ShortcutTip { keys: "PgUp/PgDn", description: "page" },
            ShortcutTip { keys: "Home/End", description: "jump first/last" },
            ShortcutTip { keys: "Enter", description: "open task list" },
            ShortcutTip { keys: "/", description: "search" },
        ],
        ShortcutTable::Tags => &[
            ShortcutTip { keys: "3/4/5/6 or h/l or ←/→", description: "switch tab" },
            ShortcutTip { keys: "j/k or ↑/↓", description: "move tag" },
            ShortcutTip { keys: "C/e/d", description: "new/edit/delete tag" },
            ShortcutTip { keys: "o", description: "sort" },
            ShortcutTip { keys: "J/K", description: "reorder (manual)" },
            ShortcutTip { keys: "f", description: "toggle favorite" },
            ShortcutTip { keys: "c", description: "new task with tag" },
            ShortcutTip { keys: "Enter", description: "open task list" },
            ShortcutTip { keys: "/", description: "search" },
        ],
        ShortcutTable::Filters => &[
            ShortcutTip { keys: "3/4/5/6 or h/l or ←/→", description: "switch tab" },
            ShortcutTip { keys: "j/k or ↑/↓", description: "move filter" },
            ShortcutTip { keys: "C/e/d", description: "new/edit/delete filter" },
            ShortcutTip { keys: "o", description: "sort" },
            ShortcutTip { keys: "J/K", description: "reorder (manual)" },
            ShortcutTip { keys: "f", description: "toggle favorite" },
            ShortcutTip { keys: "Enter", description: "open task list" },
            ShortcutTip { keys: "/", description: "search" },
        ],
        ShortcutTable::TagEditor => &[
            ShortcutTip { keys: "Enter", description: "save" },
            ShortcutTip { keys: "Esc", description: "cancel" },
            ShortcutTip { keys: "Tab/S-Tab", description: "next/prev field" },
            ShortcutTip { keys: "F1-F3", description: "jump to field" },
            ShortcutTip { keys: "h/l or j/k", description: "change value" },
        ],
        ShortcutTable::TagDeleteConfirmation => &[
            ShortcutTip { keys: "Enter/y", description: "confirm" },
            ShortcutTip { keys: "Esc/n", description: "cancel" },
        ],
        ShortcutTable::FilterEditor => &[
            ShortcutTip { keys: "Enter", description: "save" },
            ShortcutTip { keys: "Esc", description: "cancel" },
            ShortcutTip { keys: "Tab/S-Tab", description: "next/prev field" },
            ShortcutTip { keys: "F1-F4", description: "jump to field" },
            ShortcutTip { keys: "h/l or j/k", description: "change value" },
        ],
        ShortcutTable::FilterDeleteConfirmation => &[
            ShortcutTip { keys: "Enter/y", description: "confirm" },
            ShortcutTip { keys: "Esc/n", description: "cancel" },
        ],
        ShortcutTable::Projects => &[
            ShortcutTip { keys: "3/4/5/6 or h/l or ←/→", description: "switch tab" },
            ShortcutTip { keys: "j/k or ↑/↓", description: "move project" },
            ShortcutTip { keys: "PgUp/PgDn", description: "page" },
            ShortcutTip { keys: "Home", description: "all projects" },
            ShortcutTip { keys: "C/e/d", description: "new/edit/delete project" },
            ShortcutTip { keys: "o", description: "sort" },
            ShortcutTip { keys: "J/K", description: "reorder (manual)" },
            ShortcutTip { keys: "f", description: "toggle favorite" },
            ShortcutTip { keys: "c", description: "new task here" },
            ShortcutTip { keys: "Enter", description: "open task list" },
            ShortcutTip { keys: "/", description: "search" },
        ],
        ShortcutTable::Favorites => &[
            ShortcutTip { keys: "j/k or ↑/↓", description: "move favorite" },
            ShortcutTip { keys: "PgUp/PgDn", description: "page" },
            ShortcutTip { keys: "Home/End", description: "jump first/last" },
            ShortcutTip { keys: "f", description: "remove favorite" },
            ShortcutTip { keys: "/", description: "search" },
            ShortcutTip { keys: "1-8 / Tab", description: "change focus" },
        ],
        ShortcutTable::Tasks => &[
            ShortcutTip { keys: "h/l or ←/→", description: "switch tab" },
            ShortcutTip { keys: "j/k or ↑/↓", description: "move task" },
            ShortcutTip { keys: "c", description: "new task" },
            ShortcutTip { keys: "C", description: "new subtask" },
            ShortcutTip { keys: "e/d", description: "edit/delete" },
            ShortcutTip { keys: "a", description: "assign to timer" },
            ShortcutTip { keys: "Space", description: "toggle done" },
            ShortcutTip { keys: "o/f", description: "sort/filter" },
            ShortcutTip { keys: "=/-", description: "expand/collapse" },
            ShortcutTip { keys: "J/K", description: "reorder sibling" },
            ShortcutTip { keys: "PgUp/PgDn", description: "details scroll" },
            ShortcutTip { keys: "/", description: "search" },
        ],
        ShortcutTable::Statistics => &[
            ShortcutTip { keys: "h/l or ←/→", description: "switch tab" },
        ],
        ShortcutTable::InputPopup => &[
            ShortcutTip { keys: "Enter", description: "submit" },
            ShortcutTip { keys: "Ctrl+e", description: "full editor" },
            ShortcutTip { keys: "Esc", description: "cancel" },
            ShortcutTip { keys: "Home/End", description: "move cursor" },
            ShortcutTip { keys: "Backspace/Del", description: "delete char" },
        ],
        ShortcutTable::EditorPopup => &[
            ShortcutTip { keys: "F12", description: "save" },
            ShortcutTip { keys: "Esc", description: "cancel/close calendar" },
            ShortcutTip { keys: "Tab/S-Tab", description: "next/prev field" },
            ShortcutTip { keys: "F1-F9", description: "jump to field" },
            ShortcutTip { keys: "Ctrl+e", description: "external editor" },
            ShortcutTip { keys: "F8/F10", description: "recurrence/calendar" },
            ShortcutTip { keys: "j/k or ↑/↓", description: "suggestions" },
            ShortcutTip { keys: "F11", description: "clear due" },
        ],
        ShortcutTable::SearchPopup => &[
            ShortcutTip { keys: "Enter", description: "assign selected" },
            ShortcutTip { keys: "Esc", description: "cancel" },
            ShortcutTip { keys: "j/k or ↑/↓", description: "move result" },
            ShortcutTip { keys: "Home/End", description: "move cursor" },
            ShortcutTip { keys: "Backspace/Del", description: "delete char" },
        ],
        ShortcutTable::SessionNoteEditor => &[
            ShortcutTip { keys: "F12", description: "save" },
            ShortcutTip { keys: "Esc", description: "cancel" },
            ShortcutTip { keys: "Ctrl+e", description: "external editor" },
            ShortcutTip { keys: "F10", description: "clear" },
            ShortcutTip { keys: "j/k or ↑/↓", description: "move line" },
        ],
        ShortcutTable::SessionNoteViewer => &[
            ShortcutTip { keys: "j/k or PgUp/PgDn", description: "scroll" },
            ShortcutTip { keys: "Home/End", description: "jump" },
            ShortcutTip { keys: "Esc or v", description: "close" },
        ],
        ShortcutTable::PanelSearch => &[
            ShortcutTip { keys: "Enter", description: "lock search" },
            ShortcutTip { keys: "Esc", description: "clear search" },
            ShortcutTip { keys: "Home/End", description: "move cursor" },
            ShortcutTip { keys: "Backspace/Del", description: "delete char" },
        ],
        ShortcutTable::DeleteConfirmation => &[
            ShortcutTip { keys: "Enter/y", description: "confirm" },
            ShortcutTip { keys: "Esc/n", description: "cancel" },
        ],
        ShortcutTable::ProjectEditor => &[
            ShortcutTip { keys: "Enter", description: "save" },
            ShortcutTip { keys: "Esc", description: "cancel" },
            ShortcutTip { keys: "Tab/S-Tab", description: "next/prev field" },
            ShortcutTip { keys: "F1-F4", description: "jump to field" },
            ShortcutTip { keys: "h/l or j/k", description: "change value" },
        ],
        ShortcutTable::ProjectDeleteConfirmation => &[
            ShortcutTip { keys: "Enter/y", description: "confirm" },
            ShortcutTip { keys: "Esc/n", description: "cancel" },
        ],
        ShortcutTable::SortPopup => &[
            ShortcutTip { keys: "Enter", description: "apply sort" },
            ShortcutTip { keys: "Esc", description: "cancel" },
            ShortcutTip { keys: "j/k or ↑/↓", description: "move option" },
        ],
    }
}

/// What is open on the screen, as the help and the footer see it.
#[derive(Debug, Clone, Copy, PartialEq, Eq)]
pub struct OpenOverlays {
    pub task_input: bool,
    pub task_editor: bool,
    pub session_note_editor: bool,
    pub session_note_viewer: bool,
    pub project_editor: bool,
    pub tag_editor: bool,
    pub filter_editor: bool,
    pub task_search: bool,
    pub any_panel_search_editing: bool,
    pub focused_panel_search_editing: bool,
    pub task_sort_popup: bool,
    pub project_sort_popup: bool,
    pub tag_sort_popup: bool,
    pub filter_sort_popup: bool,
    pub delete_confirmation: bool,
    pub project_delete_confirmation: bool,
    pub tag_delete_confirmation: bool,
    pub filter_delete_confirmation: bool,
}

/// The table of tips the footer shows: the open popup's, the search's while
/// it is typed, a pending delete confirmation's, or else the focused
/// panel's.
pub open spec fn focused_table(o: OpenOverlays, focused: PanelFocus, sidebar: SidebarTab, right: RightPanelTab) -> ShortcutTable {
    if o.task_sort_popup || o.project_sort_popup || o.tag_sort_popup || o.filter_sort_popup {
        ShortcutTable::SortPopup
    } else if o.task_editor {
        ShortcutTable::EditorPopup
    } else if o.session_note_editor {
        ShortcutTable::SessionNoteEditor
    } else if o.session_note_viewer {
        ShortcutTable::SessionNoteViewer
    } else if o.project_editor {
        ShortcutTable::ProjectEditor
    } else if o.tag_editor {
        ShortcutTable::TagEditor
    } else if o.filter_editor {
        ShortcutTable::FilterEditor
    } else if o.task_input {
        ShortcutTable::InputPopup
    } else if o.focused_panel_search_editing {
        ShortcutTable::PanelSearch
    } else if o.project_delete_confirmation {
        ShortcutTable::ProjectDeleteConfirmation
    } else if o.tag_delete_confirmation {
        ShortcutTable::TagDeleteConfirmation
    } else if o.filter_delete_confirmation {
        ShortcutTable::FilterDeleteConfirmation
    } else {
        match focused {
            PanelFocus::Timer => ShortcutTable::Timer,
            PanelFocus::History => ShortcutTable::History,
            PanelFocus::Navigation => match sidebar {
                SidebarTab::Navigation => ShortcutTable::Navigation,
                SidebarTab::Projects => ShortcutTable::Projects,
                SidebarTab::Tags => ShortcutTable::Tags,
                SidebarTab::Filters => ShortcutTable::Filters,
            },
            PanelFocus::Favorites => ShortcutTable::Favorites,
            PanelFocus::RightPane => match right {
                RightPanelTab::Tasks => ShortcutTable::Tasks,
                RightPanelTab::Statistics => ShortcutTable::Statistics,
            },
        }
    }
}

fn focused_table_of(o: &OpenOverlays, focused: PanelFocus, sidebar: SidebarTab, right: RightPanelTab) -> (r: ShortcutTable)
    ensures
        r == focused_table(*o, focused, sidebar, right),
{
    if o.task_sort_popup || o.project_sort_popup || o.tag_sort_popup || o.filter_sort_popup {
        ShortcutTable::SortPopup
    } else if o.task_editor {
        ShortcutTable::EditorPopup
    } else if o.session_note_editor {
        ShortcutTable::SessionNoteEditor
    } else if o.session_note_viewer {
        ShortcutTable::SessionNoteViewer
    } else if o.project_editor {
        ShortcutTable::ProjectEditor
    } else if o.tag_editor {
        ShortcutTable::TagEditor
    } else if o.filter_editor {
        ShortcutTable::FilterEditor
    } else if o.task_input {
        ShortcutTable::InputPopup
    } else if o.focused_panel_search_editing {
        ShortcutTable::PanelSearch
    } else if o.project_delete_confirmation {
        ShortcutTable::ProjectDeleteConfirmation
    } else if o.tag_delete_confirmation {
        ShortcutTable::TagDeleteConfirmation
    } else if o.filter_delete_confirmation {
        ShortcutTable::FilterDeleteConfirmation
    } else {
        match focused {
            PanelFocus::Timer => ShortcutTable::Timer,
            PanelFocus::History => ShortcutTable::History,
            PanelFocus::Navigation => match sidebar {
                SidebarTab::Navigation => ShortcutTable::Navigation,
                SidebarTab::Projects => ShortcutTable::Projects,
                SidebarTab::Tags => ShortcutTable::Tags,
                SidebarTab::Filters => ShortcutTable::Filters,
            },
            PanelFocus::Favorites => ShortcutTable::Favorites,
            PanelFocus::RightPane => match right {
                RightPanelTab::Tasks => ShortcutTable::Tasks,
                RightPanelTab::Statistics => ShortcutTable::Statistics,
            },
        }
    }
}

/// The tips the footer shows (see `focused_table`).
pub fn focused_panel_shortcuts(
    o: &OpenOverlays,
    focused: PanelFocus,
    sidebar: SidebarTab,
    right: RightPanelTab,
) -> (r: &'static [ShortcutTip])
    ensures
        r@ == table_tips(focused_table(*o, focused, sidebar, right)),
{
    shortcut_table(focused_table_of(o, focused, sidebar, right))
}

/// A help section shows the given title and table.
pub open spec fn section_shows(s: ShortcutSection, entry: (Seq<char>, ShortcutTable)) -> bool {
    s.title@ == entry.0 && s.tips@ == table_tips(entry.1)
}

/// The sections every help shows, in order.
pub open spec fn base_help_plan() -> Seq<(Seq<char>, ShortcutTable)> {
    seq![
        ("Global"@, ShortcutTable::Global),
        ("Timer"@, ShortcutTable::Timer),
        ("History"@, ShortcutTable::History),
        ("Navigation"@, ShortcutTable::Navigation),
        ("Projects"@, ShortcutTable::Projects),
        ("Tags"@, ShortcutTable::Tags),
        ("Filters"@, ShortcutTable::Filters),
        ("Favorites"@, ShortcutTable::Favorites),
        ("Tasks"@, ShortcutTable::Tasks),
        ("Statistics"@, ShortcutTable::Statistics),
    ]
}

/// A section shown only where `on`.
pub open spec fn section_if(on: bool, title: Seq<char>, t: ShortcutTable) -> Seq<(Seq<char>, ShortcutTable)> {
    if on {
        seq![(title, t)]
    } else {
        Seq::empty()
    }
}

/// The sections of the help: those of every panel, then one for each open
/// popup, editor, typed search and pending confirmation, in a fixed order.
pub open spec fn help_plan(o: OpenOverlays) -> Seq<(Seq<char>, ShortcutTable)> {
    base_help_plan() + section_if(o.task_input, "Task Input Popup"@, ShortcutTable::InputPopup)
        + section_if(o.task_editor, "Task Editor"@, ShortcutTable::EditorPopup)
        + section_if(o.session_note_editor, "Session Note Editor"@, ShortcutTable::SessionNoteEditor)
        + section_if(o.session_note_viewer, "Session Note Viewer"@, ShortcutTable::SessionNoteViewer)
        + section_if(o.project_editor, "Project Editor"@, ShortcutTable::ProjectEditor)
        + section_if(o.tag_editor, "Tag Editor"@, ShortcutTable::TagEditor)
        + section_if(o.filter_editor, "Filter Editor"@, ShortcutTable::FilterEditor)
        + section_if(o.task_search, "Task Search Popup"@, ShortcutTable::SearchPopup)
        + section_if(o.any_panel_search_editing, "Panel Search"@, ShortcutTable::PanelSearch)
        + section_if(o.task_sort_popup, "Task Sort Popup"@, ShortcutTable::SortPopup)
        + section_if(o.project_sort_popup, "Project Sort Popup"@, ShortcutTable::SortPopup)
        + section_if(o.tag_sort_popup, "Tag Sort Popup"@, ShortcutTable::SortPopup)
        + section_if(o.filter_sort_popup, "Filter Sort Popup"@, ShortcutTable::SortPopup)
        + section_if(o.delete_confirmation, "Delete Confirmation"@, ShortcutTable::DeleteConfirmation)
        + section_if(
        o.project_delete_confirmation,
        "Project Delete Confirmation"@,
        ShortcutTable::ProjectDeleteConfirmation,
    ) + section_if(o.tag_delete_confirmation, "Tag Delete Confirmation"@, ShortcutTable::TagDeleteConfirmation)
        + section_if(
        o.filter_delete_confirmation,
        "Filter Delete Confirmation"@,
        ShortcutTable::FilterDeleteConfirmation,
    )
}

fn add_section(
    sections: &mut Vec<ShortcutSection>,
    on: bool,
    title: &'static str,
    t: ShortcutTable,
    Ghost(plan): Ghost<Seq<(Seq<char>, ShortcutTable)>>,
)
    requires
        old(sections)@.len() == plan.len(),
        forall|i: int| 0 <= i < plan.len() ==> section_shows(#[trigger] old(sections)@[i], plan[i]),
    ensures
        final(sections)@.len() == (plan + section_if(on, title@, t)).len(),
        forall|i: int|
            0 <= i < final(sections)@.len() ==> section_shows(
                #[trigger] final(sections)@[i],
                (plan + section_if(on, title@, t))[i],
            ),
{
    if on {
        sections.push(ShortcutSection { title, tips: shortcut_table(t) });
    }
}

/// The sections of the help (see `help_plan`).
pub fn help_sections(o: &OpenOverlays) -> (r: Vec<ShortcutSection>)
    ensures
        r@.len() == help_plan(*o).len(),
        forall|i: int| 0 <= i < r@.len() ==> section_shows(#[trigger] r@[i], help_plan(*o)[i]),
{
    let mut sections: Vec<ShortcutSection> = Vec::new();
    let ghost mut plan: Seq<(Seq<char>, ShortcutTable)> = Seq::empty();
    add_section(&mut sections, true, "Global", ShortcutTable::Global, Ghost(plan));
    proof {
        plan = plan + section_if(true, "Global"@, ShortcutTable::Global);
    }
    add_section(&mut sections, true, "Timer", ShortcutTable::Timer, Ghost(plan));
    proof {
        plan = plan + section_if(true, "Timer"@, ShortcutTable::Timer);
    }
    add_section(&mut sections, true, "History", ShortcutTable::History, Ghost(plan));
    proof {
        plan = plan + section_if(true, "History"@, ShortcutTable::History);
    }
    add_section(&mut sections, true, "Navigation", ShortcutTable::Navigation, Ghost(plan));
    proof {
        plan = plan + section_if(true, "Navigation"@, ShortcutTable::Navigation);
    }
    add_section(&mut sections, true, "Projects", ShortcutTable::Projects, Ghost(plan));
    proof {
        plan = plan + section_if(true, "Projects"@, ShortcutTable::Projects);
    }
    add_section(&mut sections, true, "Tags", ShortcutTable::Tags, Ghost(plan));
    proof {
        plan = plan + section_if(true, "Tags"@, ShortcutTable::Tags);
    }
    add_section(&mut sections, true, "Filters", ShortcutTable::Filters, Ghost(plan));
    proof {
        plan = plan + section_if(true, "Filters"@, ShortcutTable::Filters);
    }
    add_section(&mut sections, true, "Favorites", ShortcutTable::Favorites, Ghost(plan));
    proof {
        plan = plan + section_if(true, "Favorites"@, ShortcutTable::Favorites);
    }
    add_section(&mut sections, true, "Tasks", ShortcutTable::Tasks, Ghost(plan));
    proof {
        plan = plan + section_if(true, "Tasks"@, ShortcutTable::Tasks);
    }
    add_section(&mut sections, true, "Statistics", ShortcutTable::Statistics, Ghost(plan));
    proof {
        plan = plan + section_if(true, "Statistics"@, ShortcutTable::Statistics);
    }
    assert(plan =~= base_help_plan());
    add_section(&mut sections, o.task_input, "Task Input Popup", ShortcutTable::InputPopup, Ghost(plan));
    proof {
        plan = plan + section_if(o.task_input, "Task Input Popup"@, ShortcutTable::InputPopup);
    }
    add_section(&mut sections, o.task_editor, "Task Editor", ShortcutTable::EditorPopup, Ghost(plan));
    proof {
        plan = plan + section_if(o.task_editor, "Task Editor"@, ShortcutTable::EditorPopup);
    }
    add_section(&mut sections, o.session_note_editor, "Session Note Editor", ShortcutTable::SessionNoteEditor, Ghost(plan));
    proof {
        plan = plan + section_if(o.session_note_editor, "Session Note Editor"@, ShortcutTable::SessionNoteEditor);
    }
    add_section(&mut sections, o.session_note_viewer, "Session Note Viewer", ShortcutTable::SessionNoteViewer, Ghost(plan));
    proof {
        plan = plan + section_if(o.session_note_viewer, "Session Note Viewer"@, ShortcutTable::SessionNoteViewer);
    }
    add_section(&mut sections, o.project_editor, "Project Editor", ShortcutTable::ProjectEditor, Ghost(plan));
    proof {
        plan = plan + section_if(o.project_editor, "Project Editor"@, ShortcutTable::ProjectEditor);
    }
    add_section(&mut sections, o.tag_editor, "Tag Editor", ShortcutTable::TagEditor, Ghost(plan));
    proof {
        plan = plan + section_if(o.tag_editor, "Tag Editor"@, ShortcutTable::TagEditor);
    }
    add_section(&mut sections, o.filter_editor, "Filter Editor", ShortcutTable::FilterEditor, Ghost(plan));
    proof {
        plan = plan + section_if(o.filter_editor, "Filter Editor"@, ShortcutTable::FilterEditor);
    }
    add_section(&mut sections, o.task_search, "Task Search Popup", ShortcutTable::SearchPopup, Ghost(plan));
    proof {
        plan = plan + section_if(o.task_search, "Task Search Popup"@, ShortcutTable::SearchPopup);
    }
    add_section(&mut sections, o.any_panel_search_editing, "Panel Search", ShortcutTable::PanelSearch, Ghost(plan));
    proof {
        plan = plan + section_if(o.any_panel_search_editing, "Panel Search"@, ShortcutTable::PanelSearch);
    }
    add_section(&mut sections, o.task_sort_popup, "Task Sort Popup", ShortcutTable::SortPopup, Ghost(plan));
    proof {
        plan = plan + section_if(o.task_sort_popup, "Task Sort Popup"@, ShortcutTable::SortPopup);
    }
    add_section(&mut sections, o.project_sort_popup, "Project Sort Popup", ShortcutTable::SortPopup, Ghost(plan));
    proof {
        plan = plan + section_if(o.project_sort_popup, "Project Sort Popup"@, ShortcutTable::SortPopup);
    }
    add_section(&mut sections, o.tag_sort_popup, "Tag Sort Popup", ShortcutTable::SortPopup, Ghost(plan));
    proof {
        plan = plan + section_if(o.tag_sort_popup, "Tag Sort Popup"@, ShortcutTable::SortPopup);
    }
    add_section(&mut sections, o.filter_sort_popup, "Filter Sort Popup", ShortcutTable::SortPopup, Ghost(plan));
    proof {
        plan = plan + section_if(o.filter_sort_popup, "Filter Sort Popup"@, ShortcutTable::SortPopup);
    }
    add_section(&mut sections, o.delete_confirmation, "Delete Confirmation", ShortcutTable::DeleteConfirmation, Ghost(plan));
    proof {
        plan = plan + section_if(o.delete_confirmation, "Delete Confirmation"@, ShortcutTable::DeleteConfirmation);
    }
    add_section(&mut sections, o.project_delete_confirmation, "Project Delete Confirmation", ShortcutTable::ProjectDeleteConfirmation, Ghost(plan));
    proof {
        plan = plan + section_if(o.project_delete_confirmation, "Project Delete Confirmation"@, ShortcutTable::ProjectDeleteConfirmation);
    }
    add_section(&mut sections, o.tag_delete_confirmation, "Tag Delete Confirmation", ShortcutTable::TagDeleteConfirmation, Ghost(plan));
    proof {
        plan = plan + section_if(o.tag_delete_confirmation, "Tag Delete Confirmation"@, ShortcutTable::TagDeleteConfirmation);
    }
    add_section(&mut sections, o.filter_delete_confirmation, "Filter Delete Confirmation", ShortcutTable::FilterDeleteConfirmation, Ghost(plan));
    proof {
        plan = plan + section_if(o.filter_delete_confirmation, "Filter Delete Confirmation"@, ShortcutTable::FilterDeleteConfirmation);
    }
    assert(plan == help_plan(*o));
    sections
}

} // verus!
