use triginta::app::{ScreenData, SessionNoteViewerView, TagEditorField};
use triginta::config::{ProjectSortOrder, TaskSortOrder};
use triginta::domain::{Project, ProjectColor, ProjectId, Task, TaskId, TaskPriority, TaskStatus, TagId};
use triginta::editors::TagEditorState;
use triginta::history::{SessionNoteTarget, TaskSearchMode, TaskSearchState};
use triginta::overlays::{handle_overlay_key, OverlayOutcome, OverlayState};
use triginta::task_editor::EditorKey;
use triginta::text_area::TextArea;

fn nothing_open() -> OverlayState {
    OverlayState {
        note_viewer: None,
        note_editor: None,
        task_sort_popup: None,
        project_sort_popup: None,
        tag_sort_popup: None,
        filter_sort_popup: None,
        task_search: None,
        delete_confirmation: None,
        project_delete_confirmation: None,
        tag_delete_confirmation: None,
        filter_delete_confirmation: None,
        tag_editor: None,
        filter_editor: None,
        project_editor: None,
        task_editor: None,
        task_input: None,
    }
}

fn task(id: i64, title: &str) -> Task {
    Task {
        id: TaskId(id),
        project_id: ProjectId(1),
        parent_task_id: None,
        child_order: id,
        title: title.to_string(),
        description: String::new(),
        status: TaskStatus::Todo,
        priority: TaskPriority::P4,
        created_at: id,
        completed_at: None,
        deleted_at: None,
        due: None,
    }
}

fn data() -> ScreenData {
    let mut data = ScreenData::default();
    data.projects = vec![Project {
        id: ProjectId(1),
        name: "Inbox".to_string(),
        parent_project_id: None,
        color: ProjectColor::Blue,
        is_favorite: false,
        is_inbox: true,
        child_order: 1,
        created_at: 1,
        deleted_at: None,
    }];
    data.tasks = vec![task(1, "Write report"), task(2, "Read book")];
    data
}

#[test]
fn key_falls_through_when_nothing_is_open() {
    let mut state = nothing_open();
    let outcome = handle_overlay_key(&mut state, &data(), EditorKey::Char('q'));
    assert_eq!(outcome, OverlayOutcome::NotOpen);
    assert_eq!(state, nothing_open());
}

#[test]
fn task_sort_popup_moves_and_applies_the_highlighted_order() {
    let mut state = nothing_open();
    state.task_sort_popup = Some(0);
    assert_eq!(handle_overlay_key(&mut state, &data(), EditorKey::Char('j')), OverlayOutcome::Kept);
    assert_eq!(state.task_sort_popup, Some(1));
    assert_eq!(handle_overlay_key(&mut state, &data(), EditorKey::Down), OverlayOutcome::Kept);
    assert_eq!(state.task_sort_popup, Some(2));
    assert_eq!(
        handle_overlay_key(&mut state, &data(), EditorKey::Enter),
        OverlayOutcome::ApplyTaskSort(TaskSortOrder::TitleAsc)
    );
    assert_eq!(state.task_sort_popup, None);
}

#[test]
fn sort_popup_highlight_stops_at_the_last_order_and_o_closes() {
    let mut state = nothing_open();
    let last = ProjectSortOrder::all().len() - 1;
    state.project_sort_popup = Some(last);
    assert_eq!(handle_overlay_key(&mut state, &data(), EditorKey::Down), OverlayOutcome::Kept);
    assert_eq!(state.project_sort_popup, Some(last));
    assert_eq!(handle_overlay_key(&mut state, &data(), EditorKey::Char('o')), OverlayOutcome::Closed);
    assert_eq!(state.project_sort_popup, None);
}

#[test]
fn delete_confirmation_yes_deletes_and_no_closes() {
    let mut state = nothing_open();
    state.delete_confirmation = Some(TaskId(7));
    assert_eq!(handle_overlay_key(&mut state, &data(), EditorKey::Char('x')), OverlayOutcome::Kept);
    assert_eq!(state.delete_confirmation, Some(TaskId(7)));
    assert_eq!(handle_overlay_key(&mut state, &data(), EditorKey::Char('y')), OverlayOutcome::DeleteTask(TaskId(7)));
    assert_eq!(state.delete_confirmation, None);

    state.tag_delete_confirmation = Some(TagId(3));
    assert_eq!(handle_overlay_key(&mut state, &data(), EditorKey::Char('n')), OverlayOutcome::Closed);
    assert_eq!(state.tag_delete_confirmation, None);
}

#[test]
fn note_viewer_scrolls_and_closes() {
    let mut state = nothing_open();
    state.note_viewer = Some(SessionNoteViewerView { title: "Session Note", value: "a\nb".to_string(), scroll: 0 });
    assert_eq!(handle_overlay_key(&mut state, &data(), EditorKey::PageDown), OverlayOutcome::Kept);
    assert_eq!(state.note_viewer.as_ref().unwrap().scroll, 8);
    assert_eq!(handle_overlay_key(&mut state, &data(), EditorKey::Char('k')), OverlayOutcome::Kept);
    assert_eq!(state.note_viewer.as_ref().unwrap().scroll, 7);
    assert_eq!(handle_overlay_key(&mut state, &data(), EditorKey::Home), OverlayOutcome::Kept);
    assert_eq!(state.note_viewer.as_ref().unwrap().scroll, 0);
    assert_eq!(handle_overlay_key(&mut state, &data(), EditorKey::Char('v')), OverlayOutcome::Closed);
    assert_eq!(state.note_viewer, None);
}

#[test]
fn note_editor_f12_saves_without_trailing_line_breaks() {
    let mut state = nothing_open();
    let value: Vec<char> = "focus".chars().collect();
    let cursor = value.len();
    state.note_editor = Some((SessionNoteTarget::HistoryEntry(4), TextArea { value, cursor, scroll: 0 }));
    assert_eq!(handle_overlay_key(&mut state, &data(), EditorKey::Enter), OverlayOutcome::Kept);
    assert_eq!(handle_overlay_key(&mut state, &data(), EditorKey::Enter), OverlayOutcome::Kept);
    assert_eq!(
        handle_overlay_key(&mut state, &data(), EditorKey::F(12)),
        OverlayOutcome::SaveNote(SessionNoteTarget::HistoryEntry(4), "focus".to_string())
    );
    assert_eq!(state.note_editor, None);
}

#[test]
fn task_search_enter_assigns_the_highlighted_task() {
    let mut state = nothing_open();
    state.task_search = Some(TaskSearchState {
        mode: TaskSearchMode::TimerAssignment,
        query: String::new(),
        cursor: 0,
        selected_index: 0,
    });
    for c in "read".chars() {
        assert_eq!(handle_overlay_key(&mut state, &data(), EditorKey::Char(c)), OverlayOutcome::Kept);
    }
    assert_eq!(state.task_search.as_ref().unwrap().query, "read");
    assert_eq!(handle_overlay_key(&mut state, &data(), EditorKey::Enter), OverlayOutcome::AssignTimerTask(TaskId(2)));
    assert_eq!(state.task_search, None);
}

#[test]
fn tag_editor_types_the_name_and_toggles_favorite() {
    let mut state = nothing_open();
    state.tag_editor = Some(TagEditorState {
        tag_id: None,
        name_input: Vec::new(),
        name_cursor: 0,
        color_index: 0,
        is_favorite: false,
        focused_field: TagEditorField::Name,
    });
    assert_eq!(handle_overlay_key(&mut state, &data(), EditorKey::Char('w')), OverlayOutcome::Kept);
    assert_eq!(handle_overlay_key(&mut state, &data(), EditorKey::F(3)), OverlayOutcome::Kept);
    assert_eq!(handle_overlay_key(&mut state, &data(), EditorKey::Char('l')), OverlayOutcome::Kept);
    let editor = state.tag_editor.clone().unwrap();
    assert_eq!(editor.name_input, vec!['w']);
    assert!(editor.is_favorite);
    assert_eq!(editor.focused_field, TagEditorField::Favorite);
    assert_eq!(handle_overlay_key(&mut state, &data(), EditorKey::Enter), OverlayOutcome::SubmitTagEditor);
    assert!(state.tag_editor.is_some());
    assert_eq!(handle_overlay_key(&mut state, &data(), EditorKey::Esc), OverlayOutcome::Closed);
    assert!(state.tag_editor.is_none());
}
