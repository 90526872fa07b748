use triginta::app::{HistoryPanelTab, PanelFocus, ScreenData};
use triginta::domain::{
    Project, ProjectColor, ProjectId, SessionEntry, SessionKind, SessionOutcome, Task, TaskId,
    TaskPriority, TaskStatus,
};
use triginta::history::{
    assigned_task, max_history_scroll, scroll_task_details, searchable_tasks,
    selected_history_focus_entry, selected_history_task, session_note_editor_view,
    task_search_view, SessionNoteTarget, TaskSearchMode, TaskSearchState,
    clear_note_for_focused_panel, clear_selected_history_task, open_note_editor_for_focused_panel,
    open_note_viewer_for_focused_panel, submit_session_note_editor, toggle_selected_task_assignment,
};
use triginta::text_area::{insert_session_note_char, insert_session_note_newline, SESSION_NOTE_VIEWPORT_LINES};
use triginta::text_area::TextArea;

fn entry(id: i64, kind: SessionKind, task: Option<i64>) -> SessionEntry {
    SessionEntry {
        id,
        task_id: task.map(TaskId),
        notes: String::new(),
        kind,
        outcome: SessionOutcome::Completed,
        next_break_kind: None,
        started_at: id * 1000,
        ended_at: id * 1000 + 500,
        duration_seconds: 500,
    }
}

fn task(id: i64, title: &str) -> Task {
    Task {
        id: TaskId(id),
        project_id: ProjectId(1),
        parent_task_id: None,
        child_order: id,
        title: title.to_string(),
        description: String::new(),
        status: TaskStatus::Todo,
        priority: TaskPriority::P4,
        created_at: id,
        completed_at: None,
        deleted_at: None,
        due: None,
    }
}

fn data() -> ScreenData {
    let mut data = ScreenData::default();
    data.projects = vec![Project {
        id: ProjectId(1),
        name: "Inbox".to_string(),
        parent_project_id: None,
        color: ProjectColor::Charcoal,
        is_favorite: false,
        is_inbox: true,
        child_order: 0,
        created_at: 0,
        deleted_at: None,
    }];
    let mut gone = task(3, "Gone task");
    gone.deleted_at = Some(9);
    data.tasks = vec![task(1, "Write report"), task(2, "Read mail"), gone];
    data.history_entries = vec![
        entry(1, SessionKind::Focus, Some(2)),
        entry(2, SessionKind::ShortBreak, None),
        entry(3, SessionKind::Focus, None),
        entry(4, SessionKind::Focus, Some(7)),
    ];
    data
}

#[test]
fn history_selection_counts_focus_sessions_only() {
    let data = data();
    assert_eq!(max_history_scroll(&data.history_entries), 2);
    assert_eq!(max_history_scroll(&[]), 0);
    assert_eq!(selected_history_focus_entry(&data.history_entries, HistoryPanelTab::Today, 0), Some(0));
    assert_eq!(selected_history_focus_entry(&data.history_entries, HistoryPanelTab::Today, 1), Some(2));
    assert_eq!(selected_history_focus_entry(&data.history_entries, HistoryPanelTab::Today, 3), None);
    assert_eq!(
        selected_history_focus_entry(&data.history_entries, HistoryPanelTab::Last7Days, 0),
        None
    );
    assert_eq!(selected_history_task(&data, HistoryPanelTab::Today, 0), Some(1));
    assert_eq!(selected_history_task(&data, HistoryPanelTab::Today, 1), None);
    assert_eq!(selected_history_task(&data, HistoryPanelTab::Today, 2), None);
}

#[test]
fn assigned_and_searchable_tasks() {
    let data = data();
    assert_eq!(assigned_task(&data, Some(TaskId(3))), Some(2));
    assert_eq!(assigned_task(&data, Some(TaskId(8))), None);
    assert_eq!(assigned_task(&data, None), None);
    assert_eq!(searchable_tasks(&data, "r"), vec![0, 1]);
    assert_eq!(searchable_tasks(&data, "rpt"), vec![0]);
    assert!(searchable_tasks(&data, "gone").is_empty());
}

#[test]
fn task_details_scroll_saturates_and_resets_without_task() {
    assert_eq!(scroll_task_details(3, -5, true), 0);
    assert_eq!(scroll_task_details(3, 2, true), 5);
    assert_eq!(scroll_task_details(3, -1, true), 2);
    assert_eq!(scroll_task_details(usize::MAX, 4, true), usize::MAX);
    assert_eq!(scroll_task_details(3, isize::MIN, true), 0);
    assert_eq!(scroll_task_details(7, 2, false), 0);
}

#[test]
fn task_search_view_lists_matching_tasks_with_titles() {
    let data = data();
    let search = TaskSearchState {
        mode: TaskSearchMode::HistoryAssignment(4),
        query: "re".to_string(),
        cursor: 3,
        selected_index: 1,
    };
    let view = task_search_view(&data, &search);
    assert_eq!(view.title, "Assign Session Task");
    assert_eq!((view.query.as_str(), view.cursor, view.selected_index), ("re", 3, 1));
    let found: Vec<(TaskId, String)> = view.results.into_iter().map(|r| (r.task_id, r.title)).collect();
    assert_eq!(
        found,
        vec![(TaskId(1), "Write report".to_string()), (TaskId(2), "Read mail".to_string())]
    );
    let timer = TaskSearchState { mode: TaskSearchMode::TimerAssignment, query: String::new(), cursor: 0, selected_index: 0 };
    assert_eq!(task_search_view(&data, &timer).title, "Assign Task");
}

#[test]
fn note_editor_view_titles_by_target() {
    let area = TextArea { value: "a\nb".chars().collect(), cursor: 2, scroll: 1 };
    let view = session_note_editor_view(SessionNoteTarget::PendingFocus, &area);
    assert_eq!((view.title, view.value.as_str(), view.cursor, view.scroll), ("Edit Focus Note", "a\nb", 2, 1));
    assert_eq!(session_note_editor_view(SessionNoteTarget::HistoryEntry(3), &area).title, "Edit Session Note");
}

#[test]
fn app_toggles_selected_task_as_pomodoro_assignment() {
    let data = data();
    let assigned = toggle_selected_task_assignment(Some(TaskId(1)), None);
    let place = assigned_task(&data, assigned).expect("task should be assigned");
    assert_eq!(data.tasks[place].title, "Write report");
    let assigned = toggle_selected_task_assignment(Some(TaskId(1)), assigned);
    assert!(assigned_task(&data, assigned).is_none());
    assert_eq!(toggle_selected_task_assignment(None, Some(TaskId(2))), Some(TaskId(2)));
    assert_eq!(toggle_selected_task_assignment(Some(TaskId(1)), Some(TaskId(2))), Some(TaskId(1)));
}

#[test]
fn history_panel_can_edit_and_clear_selected_session_note() {
    let entries = vec![entry(7, SessionKind::Focus, None)];
    let (target, mut area) = open_note_editor_for_focused_panel(&entries, PanelFocus::History, HistoryPanelTab::Today, 0, "")
        .expect("note editor should open");
    assert_eq!(target, SessionNoteTarget::HistoryEntry(7));
    for character in "Session note".chars() {
        insert_session_note_char(&mut area, character, SESSION_NOTE_VIEWPORT_LINES);
    }
    let (saved_target, note) = submit_session_note_editor(target, &area);
    assert_eq!(saved_target, SessionNoteTarget::HistoryEntry(7));
    assert_eq!(note, "Session note");
    assert_eq!(
        clear_note_for_focused_panel(&entries, PanelFocus::History, HistoryPanelTab::Today, 0),
        Some(SessionNoteTarget::HistoryEntry(7))
    );
}

#[test]
fn timer_notes_are_edited_viewed_and_cleared() {
    let mut entries = vec![entry(1, SessionKind::ShortBreak, None), entry(2, SessionKind::Focus, Some(1))];
    entries[1].notes = "went well".to_string();
    let (target, mut area) = open_note_editor_for_focused_panel(&entries, PanelFocus::Timer, HistoryPanelTab::Today, 0, "Carry")
        .expect("timer note opens");
    assert_eq!(target, SessionNoteTarget::PendingFocus);
    assert_eq!((area.cursor, area.scroll), (5, 0));
    insert_session_note_newline(&mut area, SESSION_NOTE_VIEWPORT_LINES);
    insert_session_note_newline(&mut area, SESSION_NOTE_VIEWPORT_LINES);
    assert_eq!(submit_session_note_editor(target, &area).1, "Carry");

    let viewer = open_note_viewer_for_focused_panel(&entries, PanelFocus::History, HistoryPanelTab::Today, 0, "Carry").unwrap();
    assert_eq!((viewer.title, viewer.value.as_str(), viewer.scroll), ("Session Note", "went well", 0));
    let viewer = open_note_viewer_for_focused_panel(&entries, PanelFocus::Timer, HistoryPanelTab::Today, 0, "Carry").unwrap();
    assert_eq!((viewer.title, viewer.value.as_str()), ("Focus Note", "Carry"));
    assert!(open_note_viewer_for_focused_panel(&entries, PanelFocus::Navigation, HistoryPanelTab::Today, 0, "").is_none());
    assert!(open_note_editor_for_focused_panel(&entries, PanelFocus::History, HistoryPanelTab::Last7Days, 0, "").is_none());
    assert_eq!(clear_note_for_focused_panel(&entries, PanelFocus::Timer, HistoryPanelTab::Today, 0), Some(SessionNoteTarget::PendingFocus));
    assert_eq!(clear_selected_history_task(&entries, HistoryPanelTab::Today, 0), Some(2));
    assert_eq!(clear_selected_history_task(&entries, HistoryPanelTab::Today, 1), None);
}
