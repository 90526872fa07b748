use triginta::app::{
    HistoryPanelTab, PanelFocus, RightPanelTab, ScreenData, SidebarTab, TimerPhase, TimerRecord,
    TimerRunState, TimerState,
};
use triginta::config::TimerSettings;
use triginta::domain::{SessionEntry, SessionKind, SessionOutcome};
use triginta::overlays::{OverlayOutcome, OverlayState};
use triginta::panel_search::{PanelSearchPhase, PanelSearchStates, SearchOutcome};
use triginta::selection::PanelSearchTarget;
use triginta::shell::{
    handle_global_key, handle_key, handle_screen_key, GlobalOutcome, ItemAction, KeyOutcome,
    ScreenOutcome, ShellState, TaskAction,
};
use triginta::task_editor::EditorKey;

fn shell() -> ShellState {
    ShellState {
        focused_panel: PanelFocus::Timer,
        active_sidebar_tab: SidebarTab::Navigation,
        active_right_panel_tab: RightPanelTab::Tasks,
        active_history_panel_tab: HistoryPanelTab::Today,
        help_open: false,
        help_scroll: 0,
        help_viewport_lines: 10,
        history_scroll: 0,
        should_quit: false,
    }
}

fn press(ui: &mut ShellState, timer: &mut TimerState, data: &ScreenData, key: EditorKey, now: i64) -> GlobalOutcome {
    handle_global_key(ui, timer, data, key, now, &TimerSettings::default(), 88)
}

fn focus_entry(id: i64) -> SessionEntry {
    SessionEntry {
        id,
        task_id: None,
        notes: String::new(),
        kind: SessionKind::Focus,
        outcome: SessionOutcome::Completed,
        next_break_kind: None,
        started_at: id * 1000,
        ended_at: id * 1000 + 500,
        duration_seconds: 500,
    }
}

#[test]
fn tab_walks_the_panels_and_back_tab_returns() {
    let data = ScreenData::default();
    let mut ui = shell();
    let mut timer = TimerState::new(4);
    assert_eq!(press(&mut ui, &mut timer, &data, EditorKey::Tab, 0), GlobalOutcome::Nothing);
    assert_eq!(ui.focused_panel, PanelFocus::History);
    assert_eq!(press(&mut ui, &mut timer, &data, EditorKey::BackTab, 0), GlobalOutcome::Nothing);
    assert_eq!(ui, shell());
    assert_eq!(press(&mut ui, &mut timer, &data, EditorKey::BackTab, 0), GlobalOutcome::Nothing);
    assert_eq!(ui.focused_panel, PanelFocus::RightPane);
}

#[test]
fn digits_focus_panels_and_sidebar_tabs() {
    let data = ScreenData::default();
    let mut ui = shell();
    let mut timer = TimerState::new(4);
    press(&mut ui, &mut timer, &data, EditorKey::Char('5'), 0);
    assert_eq!(ui.focused_panel, PanelFocus::Navigation);
    assert_eq!(ui.active_sidebar_tab, SidebarTab::Tags);
    press(&mut ui, &mut timer, &data, EditorKey::Char('8'), 0);
    assert_eq!(ui.focused_panel, PanelFocus::RightPane);
    assert_eq!(ui.active_sidebar_tab, SidebarTab::Tags);
    press(&mut ui, &mut timer, &data, EditorKey::Char('2'), 0);
    assert_eq!(ui.focused_panel, PanelFocus::History);
}

#[test]
fn help_scrolls_within_its_last_screenful_and_closes_at_the_top() {
    let data = ScreenData::default();
    let mut ui = shell();
    let mut timer = TimerState::new(4);
    press(&mut ui, &mut timer, &data, EditorKey::Char('?'), 0);
    assert!(ui.help_open);
    press(&mut ui, &mut timer, &data, EditorKey::PageDown, 0);
    assert_eq!(ui.help_scroll, 10);
    press(&mut ui, &mut timer, &data, EditorKey::End, 0);
    assert_eq!(ui.help_scroll, 78);
    press(&mut ui, &mut timer, &data, EditorKey::Char('j'), 0);
    assert_eq!(ui.help_scroll, 78);
    press(&mut ui, &mut timer, &data, EditorKey::Char('k'), 0);
    assert_eq!(ui.help_scroll, 77);
    assert_eq!(press(&mut ui, &mut timer, &data, EditorKey::Char('q'), 0), GlobalOutcome::Nothing);
    assert!(!ui.should_quit);
    press(&mut ui, &mut timer, &data, EditorKey::Esc, 0);
    assert!(!ui.help_open);
    assert_eq!(ui.help_scroll, 0);
}

#[test]
fn quit_records_a_running_session_as_voided() {
    let data = ScreenData::default();
    let mut ui = shell();
    let mut timer = TimerState::new(4);
    assert_eq!(press(&mut ui, &mut timer, &data, EditorKey::Char('s'), 1_000), GlobalOutcome::TimerStarted(true));
    assert_eq!(timer.run_state, TimerRunState::Running);
    let outcome = press(&mut ui, &mut timer, &data, EditorKey::Char('q'), 61_500);
    assert_eq!(
        outcome,
        GlobalOutcome::Quit(Some(TimerRecord::Session {
            kind: SessionKind::Focus,
            outcome: SessionOutcome::Voided,
            started_at: 1_000,
            ended_at: 61_500,
            duration_seconds: 60,
        }))
    );
    assert!(ui.should_quit);
}

#[test]
fn quit_with_an_idle_timer_records_nothing() {
    let data = ScreenData::default();
    let mut ui = shell();
    let mut timer = TimerState::new(4);
    assert_eq!(press(&mut ui, &mut timer, &data, EditorKey::Char('q'), 5), GlobalOutcome::Quit(None));
    assert!(ui.should_quit);
}

#[test]
fn timer_keys_start_pause_and_stop() {
    let data = ScreenData::default();
    let mut ui = shell();
    let mut timer = TimerState::new(4);
    press(&mut ui, &mut timer, &data, EditorKey::Enter, 0);
    assert_eq!(timer.run_state, TimerRunState::Running);
    press(&mut ui, &mut timer, &data, EditorKey::Char('p'), 30_000);
    assert_eq!(timer.run_state, TimerRunState::Paused);
    assert_eq!(timer.elapsed, 30_000);
    assert_eq!(press(&mut ui, &mut timer, &data, EditorKey::Char(' '), 40_000), GlobalOutcome::TimerStarted(false));
    let outcome = press(&mut ui, &mut timer, &data, EditorKey::Char('x'), 50_000);
    assert_eq!(
        outcome,
        GlobalOutcome::TimerStopped(Some(TimerRecord::Session {
            kind: SessionKind::Focus,
            outcome: SessionOutcome::Voided,
            started_at: 0,
            ended_at: 50_000,
            duration_seconds: 40,
        }))
    );
    assert_eq!(timer.run_state, TimerRunState::Idle);
    assert_eq!(timer.phase, TimerPhase::Focus);
    assert_eq!(timer.current_cycle_index, 1);
    assert_eq!(press(&mut ui, &mut timer, &data, EditorKey::Esc, 60_000), GlobalOutcome::TimerStopped(None));
}

#[test]
fn history_scrolls_today_only() {
    let mut data = ScreenData::default();
    data.history_entries = vec![focus_entry(1), focus_entry(2), focus_entry(3)];
    let mut ui = shell();
    ui.focused_panel = PanelFocus::History;
    let mut timer = TimerState::new(4);
    press(&mut ui, &mut timer, &data, EditorKey::PageDown, 0);
    assert_eq!(ui.history_scroll, 2);
    press(&mut ui, &mut timer, &data, EditorKey::Up, 0);
    assert_eq!(ui.history_scroll, 1);
    press(&mut ui, &mut timer, &data, EditorKey::Char('l'), 0);
    assert_eq!(ui.active_history_panel_tab, HistoryPanelTab::Last7Days);
    press(&mut ui, &mut timer, &data, EditorKey::Home, 0);
    assert_eq!(ui.history_scroll, 1);
    assert_eq!(press(&mut ui, &mut timer, &data, EditorKey::Char('a'), 0), GlobalOutcome::HistoryTaskSearch);
}

#[test]
fn navigation_keys_act_on_the_sidebar_lists() {
    let data = ScreenData::default();
    let mut ui = shell();
    let mut timer = TimerState::new(4);
    press(&mut ui, &mut timer, &data, EditorKey::Char('4'), 0);
    assert_eq!(press(&mut ui, &mut timer, &data, EditorKey::PageUp, 0), GlobalOutcome::SidebarMove(SidebarTab::Projects, -5));
    assert_eq!(
        press(&mut ui, &mut timer, &data, EditorKey::Char('J'), 0),
        GlobalOutcome::SidebarItem(SidebarTab::Projects, ItemAction::MoveDown)
    );
    press(&mut ui, &mut timer, &data, EditorKey::Char('h'), 0);
    assert_eq!(ui.active_sidebar_tab, SidebarTab::Navigation);
    assert_eq!(press(&mut ui, &mut timer, &data, EditorKey::Char('e'), 0), GlobalOutcome::Nothing);
    assert_eq!(press(&mut ui, &mut timer, &data, EditorKey::Enter, 0), GlobalOutcome::SidebarOpen(SidebarTab::Navigation));
    assert_eq!(ui.focused_panel, PanelFocus::RightPane);
    assert_eq!(ui.active_right_panel_tab, RightPanelTab::Tasks);
}

#[test]
fn right_pane_keys_act_on_the_selected_task() {
    let data = ScreenData::default();
    let mut ui = shell();
    ui.focused_panel = PanelFocus::RightPane;
    let mut timer = TimerState::new(4);
    assert_eq!(press(&mut ui, &mut timer, &data, EditorKey::Char(' '), 0), GlobalOutcome::Task(TaskAction::ToggleStatus));
    assert_eq!(press(&mut ui, &mut timer, &data, EditorKey::PageDown, 0), GlobalOutcome::TaskDetailsScroll(8));
    assert_eq!(press(&mut ui, &mut timer, &data, EditorKey::Char('c'), 0), GlobalOutcome::OpenCreateTask);
    press(&mut ui, &mut timer, &data, EditorKey::Right, 0);
    assert_eq!(ui.active_right_panel_tab, RightPanelTab::Statistics);
    assert_eq!(press(&mut ui, &mut timer, &data, EditorKey::Char('e'), 0), GlobalOutcome::Nothing);
    assert_eq!(timer.run_state, TimerRunState::Idle);
}

fn no_searches() -> PanelSearchStates {
    PanelSearchStates {
        navigation_views: None,
        projects: None,
        tags: None,
        filters: None,
        favorites: None,
        task_list: None,
    }
}

fn nothing_open() -> OverlayState {
    OverlayState {
        note_viewer: None,
        note_editor: None,
        task_sort_popup: None,
        project_sort_popup: None,
        tag_sort_popup: None,
        filter_sort_popup: None,
        task_search: None,
        delete_confirmation: None,
        project_delete_confirmation: None,
        tag_delete_confirmation: None,
        filter_delete_confirmation: None,
        tag_editor: None,
        filter_editor: None,
        project_editor: None,
        task_editor: None,
        task_input: None,
    }
}

#[test]
fn the_focused_panel_search_takes_keys_before_the_screen() {
    let data = ScreenData::default();
    let settings = TimerSettings::default();
    let mut ui = shell();
    ui.focused_panel = PanelFocus::Navigation;
    ui.active_sidebar_tab = SidebarTab::Tags;
    let mut searches = no_searches();
    let mut timer = TimerState::new(4);
    let r = handle_screen_key(&mut ui, &mut searches, &mut timer, &data, EditorKey::Char('/'), 0, &settings, 88);
    assert_eq!(r, ScreenOutcome::Search(PanelSearchTarget::Tags, SearchOutcome::Refilter));
    let r = handle_screen_key(&mut ui, &mut searches, &mut timer, &data, EditorKey::Char('q'), 0, &settings, 88);
    assert_eq!(r, ScreenOutcome::Search(PanelSearchTarget::Tags, SearchOutcome::Refilter));
    assert!(!ui.should_quit);
    let r = handle_screen_key(&mut ui, &mut searches, &mut timer, &data, EditorKey::Enter, 0, &settings, 88);
    assert_eq!(r, ScreenOutcome::Search(PanelSearchTarget::Tags, SearchOutcome::Handled));
    assert_eq!(searches.tags.as_ref().unwrap().phase, PanelSearchPhase::Locked);
    assert!(searches.projects.is_none());
    let r = handle_screen_key(&mut ui, &mut searches, &mut timer, &data, EditorKey::Char('q'), 0, &settings, 88);
    assert_eq!(r, ScreenOutcome::Global(GlobalOutcome::Quit(None)));
    assert!(ui.should_quit);
}

#[test]
fn help_keeps_keys_from_the_panel_search() {
    let data = ScreenData::default();
    let settings = TimerSettings::default();
    let mut ui = shell();
    ui.focused_panel = PanelFocus::Favorites;
    ui.help_open = true;
    let mut searches = no_searches();
    let mut timer = TimerState::new(4);
    let r = handle_screen_key(&mut ui, &mut searches, &mut timer, &data, EditorKey::Char('/'), 0, &settings, 88);
    assert_eq!(r, ScreenOutcome::Global(GlobalOutcome::Nothing));
    assert!(searches.favorites.is_none());
}

#[test]
fn an_open_popup_takes_the_key_first() {
    let data = ScreenData::default();
    let settings = TimerSettings::default();
    let mut overlays = nothing_open();
    overlays.project_sort_popup = Some(0);
    let mut ui = shell();
    let mut searches = no_searches();
    let mut timer = TimerState::new(4);
    let r = handle_key(&mut overlays, &mut ui, &mut searches, &mut timer, &data, EditorKey::Char('q'), 0, &settings, 88);
    assert_eq!(r, KeyOutcome::Overlay(OverlayOutcome::Kept));
    assert!(!ui.should_quit);
    let r = handle_key(&mut overlays, &mut ui, &mut searches, &mut timer, &data, EditorKey::Esc, 0, &settings, 88);
    assert_eq!(r, KeyOutcome::Overlay(OverlayOutcome::Closed));
    let r = handle_key(&mut overlays, &mut ui, &mut searches, &mut timer, &data, EditorKey::Tab, 0, &settings, 88);
    assert_eq!(r, KeyOutcome::Screen(ScreenOutcome::Global(GlobalOutcome::Nothing)));
    assert_eq!(ui.focused_panel, PanelFocus::History);
}
