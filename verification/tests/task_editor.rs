use triginta::app::{PreviewLineView, ScreenData, TaskEditorField, TaskView};
use triginta::config::TagSortOrder;
use triginta::domain::{
    CalendarDate, Project, ProjectColor, ProjectId, Tag, TagColor, TagId, Task, TaskDue, TaskId,
    TaskPriority, TaskStatus,
};
use triginta::previews::DuePreviewText;
use triginta::project_tree::ProjectCountScope;
use triginta::references::project_suggestions;
use triginta::task_editor::{
    accept_task_editor_parent_suggestion, accept_task_editor_priority_suggestion,
    accept_task_editor_project_field_suggestion, accept_task_editor_tag_suggestion,
    accept_task_editor_title_priority_suggestion, accept_task_editor_title_project_suggestion,
    apply_calendar_selection, clear_editor_due, complete_task_editor_tag_token,
    delete_editor_char_at_cursor, delete_editor_char_before_cursor, editor_title_draft,
    focus_editor_field, insert_editor_char, insert_editor_newline, move_calendar_selection,
    move_editor_cursor_end, move_editor_cursor_home, move_editor_cursor_left,
    move_editor_cursor_right, move_editor_description_cursor_vertical,
    open_create_child_task_popup, open_edit_task_popup, open_editor_calendar,
    open_full_add_task_popup_from_input, shift_calendar_month, shift_calendar_page,
    submit_task_editor, sync_editor_due_from_recurrence, sync_editor_due_from_title,
    task_editor_view, task_tags, DueRefresh, TaskEditorState, handle_task_editor_key, EditorKey,
    EditorKeyOutcome,
};
use triginta::task_input::{open_create_task_popup, task_input_draft, TagTokenStep};

fn project(id: i64, name: &str, is_inbox: bool) -> Project {
    Project {
        id: ProjectId(id),
        name: name.to_string(),
        parent_project_id: None,
        color: ProjectColor::Blue,
        is_favorite: false,
        is_inbox,
        child_order: id,
        created_at: id,
        deleted_at: None,
    }
}

fn tag(id: i64, name: &str, item_order: i64) -> Tag {
    Tag {
        id: TagId(id),
        name: name.to_string(),
        color: TagColor::Blue,
        is_favorite: false,
        item_order,
        created_at: id,
        deleted_at: None,
    }
}

fn task(id: i64, title: &str) -> Task {
    Task {
        id: TaskId(id),
        project_id: ProjectId(1),
        parent_task_id: None,
        child_order: id,
        title: title.to_string(),
        description: String::new(),
        status: TaskStatus::Todo,
        priority: TaskPriority::P4,
        created_at: id,
        completed_at: None,
        deleted_at: None,
        due: None,
    }
}

fn data_with(tasks: Vec<Task>) -> ScreenData {
    let mut data = ScreenData::default();
    data.projects = vec![project(1, "Inbox", true)];
    data.tasks = tasks;
    data
}

fn scope() -> ProjectCountScope {
    ProjectCountScope {
        view: TaskView::All,
        today: CalendarDate::from_ymd(2024, 3, 10).unwrap(),
        hide_completed: true,
    }
}

fn no_due_text() -> DuePreviewText {
    DuePreviewText { date: String::new(), time: None }
}

fn edit(data: &ScreenData, t: &Task) -> TaskEditorState {
    open_edit_task_popup(data, t, &no_due_text(), TagSortOrder::Manual, &scope())
}

fn type_text(editor: &mut TaskEditorState, text: &str) {
    for character in text.chars() {
        if insert_editor_char(editor, character) == DueRefresh::FromTitle {
            sync_editor_due_from_title(editor, None, &no_due_text());
        }
    }
}

fn backspace(editor: &mut TaskEditorState) {
    if delete_editor_char_before_cursor(editor) == DueRefresh::FromTitle {
        sync_editor_due_from_title(editor, None, &no_due_text());
    }
}

fn chars(value: &[char]) -> String {
    value.iter().collect()
}

fn preview_value(lines: &[PreviewLineView], wanted: &str) -> Option<String> {
    lines.iter().find_map(|line| match line {
        PreviewLineView::KeyValue { label, value, .. } if label == wanted => Some(value.clone()),
        _ => None,
    })
}

fn save(data: &ScreenData, editor: &TaskEditorState) -> triginta::task_editor::TaskEditorSubmission {
    let draft = editor_title_draft(data, editor);
    submit_task_editor(data, editor, draft.content.as_str(), Ok(None)).expect("edit should submit")
}

#[test]
fn task_editor_delete_key_edits_at_cursor_position() {
    let data = data_with(vec![task(1, "abxd")]);
    let mut editor = edit(&data, &data.tasks[0]);
    move_editor_cursor_home(&mut editor);
    move_editor_cursor_right(&mut editor);
    move_editor_cursor_right(&mut editor);
    delete_editor_char_at_cursor(&mut editor);
    assert_eq!(save(&data, &editor).update.title, "abd");
}

#[test]
fn task_editor_preview_priority_prefers_title_token_over_priority_field() {
    let data = data_with(vec![task(1, "Prepare deck")]);
    let mut editor = edit(&data, &data.tasks[0]);
    focus_editor_field(&mut editor, TaskEditorField::Priority);
    backspace(&mut editor);
    backspace(&mut editor);
    type_text(&mut editor, "p3");
    focus_editor_field(&mut editor, TaskEditorField::Title);
    type_text(&mut editor, " p2");
    let view = task_editor_view(&data, &editor, None, &no_due_text());
    assert_eq!(preview_value(&view.preview_panel.preview_lines, "Priority"), Some("P2".to_string()));
}

#[test]
fn task_editor_title_priority_token_updates_priority_field_value() {
    let data = data_with(vec![task(1, "Prepare deck")]);
    let mut editor = edit(&data, &data.tasks[0]);
    focus_editor_field(&mut editor, TaskEditorField::Title);
    type_text(&mut editor, " p2");
    let view = task_editor_view(&data, &editor, None, &no_due_text());
    assert_eq!(view.priority_value, "p2");
}

#[test]
fn task_editor_priority_field_edit_clears_priority_tokens_from_title() {
    let data = data_with(vec![task(1, "Prepare deck")]);
    let mut editor = edit(&data, &data.tasks[0]);
    focus_editor_field(&mut editor, TaskEditorField::Title);
    type_text(&mut editor, " p2");
    focus_editor_field(&mut editor, TaskEditorField::Priority);
    backspace(&mut editor);
    backspace(&mut editor);
    type_text(&mut editor, "p3");
    let view = task_editor_view(&data, &editor, None, &no_due_text());
    assert_eq!(view.priority_value, "p3");
    assert_eq!(view.title_value, "Prepare deck");
    assert_eq!(preview_value(&view.preview_panel.preview_lines, "Priority"), Some("P3".to_string()));
}

#[test]
fn task_editor_preview_hides_empty_tags_and_default_priority() {
    let data = data_with(vec![task(1, "Prepare deck")]);
    let mut editor = edit(&data, &data.tasks[0]);
    let view = task_editor_view(&data, &editor, None, &no_due_text());
    assert_eq!(preview_value(&view.preview_panel.preview_lines, "Tags"), None);
    assert_eq!(preview_value(&view.preview_panel.preview_lines, "Priority"), None);

    focus_editor_field(&mut editor, TaskEditorField::Tags);
    type_text(&mut editor, "@work");
    focus_editor_field(&mut editor, TaskEditorField::Title);
    type_text(&mut editor, " p1");
    let view = task_editor_view(&data, &editor, None, &no_due_text());
    assert_eq!(preview_value(&view.preview_panel.preview_lines, "Tags"), Some("@work".to_string()));
    assert_eq!(preview_value(&view.preview_panel.preview_lines, "Priority"), Some("P1".to_string()));
}

#[test]
fn task_editor_project_field_edit_clears_project_tokens_from_title() {
    let mut data = data_with(vec![task(1, "Prepare deck")]);
    data.projects.push(project(2, "Another Project", false));
    let mut editor = edit(&data, &data.tasks[0]);
    focus_editor_field(&mut editor, TaskEditorField::Title);
    type_text(&mut editor, " #Another Project");
    focus_editor_field(&mut editor, TaskEditorField::Project);
    backspace(&mut editor);
    let view = task_editor_view(&data, &editor, None, &no_due_text());
    assert_ne!(view.project_value, "Inbox");
    assert_eq!(view.title_value, "Prepare deck");
    assert!(!view.title_value.contains('#'));
}

#[test]
fn task_editor_title_hash_query_shows_project_suggestions() {
    let mut data = data_with(vec![task(1, "Task")]);
    data.projects.push(project(2, "Another Project", false));
    let mut editor = edit(&data, &data.tasks[0]);
    focus_editor_field(&mut editor, TaskEditorField::Title);
    type_text(&mut editor, " #Ano");
    let view = task_editor_view(&data, &editor, None, &no_due_text());
    assert!(!view.project_suggestions.is_empty());
    assert_eq!(view.project_suggestions, vec!["Another Project".to_string()]);
}

#[test]
fn task_editor_title_at_query_shows_tag_suggestions() {
    let mut data = data_with(vec![task(1, "Task")]);
    data.tags = vec![tag(1, "Work", 1)];
    let mut editor = edit(&data, &data.tasks[0]);
    focus_editor_field(&mut editor, TaskEditorField::Title);
    type_text(&mut editor, " @Wo");
    let view = task_editor_view(&data, &editor, None, &no_due_text());
    assert!(!view.tag_suggestions.is_empty());
}

#[test]
fn task_editor_title_p_query_shows_priority_suggestions() {
    let data = data_with(vec![task(1, "Task")]);
    let mut editor = edit(&data, &data.tasks[0]);
    focus_editor_field(&mut editor, TaskEditorField::Title);
    type_text(&mut editor, " p");
    let view = task_editor_view(&data, &editor, None, &no_due_text());
    assert!(!view.priority_suggestions.is_empty());
    assert_eq!(view.priority_suggestions, vec!["p1", "p2", "p3", "p4"]);
}

#[test]
fn task_editor_accepts_project_suggestion_without_hash() {
    let mut data = data_with(vec![task(1, "Refactor auth")]);
    data.projects.push(project(7, "Website Revamp", false));
    let mut editor = edit(&data, &data.tasks[0]);
    focus_editor_field(&mut editor, TaskEditorField::Project);
    let view = task_editor_view(&data, &editor, None, &no_due_text());
    assert!(view.focus.project);
    assert_eq!(view.project_value, "Inbox");
    for _ in 0.."Inbox".len() {
        backspace(&mut editor);
    }
    type_text(&mut editor, "web");
    let view = task_editor_view(&data, &editor, None, &no_due_text());
    assert_eq!(view.project_value, "web");
    assert!(!project_suggestions(&data, "web").is_empty());

    assert!(accept_task_editor_project_field_suggestion(&data, &mut editor));
    let view = task_editor_view(&data, &editor, None, &no_due_text());
    assert_eq!(view.project_value, "Website Revamp");
    assert_eq!(save(&data, &editor).update.project_id, ProjectId(7));
}

#[test]
fn task_editor_priority_field_updates_task_priority() {
    let data = data_with(vec![task(1, "Refine parser")]);
    let mut editor = edit(&data, &data.tasks[0]);
    focus_editor_field(&mut editor, TaskEditorField::Priority);
    backspace(&mut editor);
    backspace(&mut editor);
    type_text(&mut editor, "p2");
    assert_eq!(save(&data, &editor).update.priority, TaskPriority::P2);
}

#[test]
fn task_list_shortcut_opens_child_task_editor_with_parent_prefilled() {
    let data = data_with(vec![task(1, "Parent Task")]);
    let editor = open_create_child_task_popup(&data, &data.tasks[0]);
    let view = task_editor_view(&data, &editor, None, &no_due_text());
    assert_eq!(view.title, "New Task");
    assert_eq!(view.parent_value, "Parent Task");
}

#[test]
fn task_list_child_task_shortcut_creates_task_with_selected_parent() {
    let data = data_with(vec![task(1, "Parent Task")]);
    let mut editor = open_create_child_task_popup(&data, &data.tasks[0]);
    type_text(&mut editor, "Child Task");
    assert!(!accept_task_editor_title_project_suggestion(&data, &mut editor));
    assert_eq!(accept_task_editor_tag_suggestion(&data, &mut editor, true), TagTokenStep::NoToken);
    assert!(!accept_task_editor_title_priority_suggestion(&mut editor));
    let saved = save(&data, &editor);
    assert_eq!(saved.update.title, "Child Task");
    assert_eq!(saved.update.parent_task_id, Some(TaskId(1)));
    assert_eq!(saved.task_id, None);
}

#[test]
fn task_editor_can_clear_due() {
    let mut due_task = task(1, "Write tests");
    due_task.due = Some(TaskDue {
        date: CalendarDate::from_ymd(2024, 3, 11).unwrap(),
        datetime: None,
        timezone: None,
        string: "tomorrow".to_string(),
        is_recurring: false,
    });
    let data = data_with(vec![due_task]);
    let text = DuePreviewText { date: "2024-03-11".to_string(), time: None };
    let mut editor = open_edit_task_popup(&data, &data.tasks[0], &text, TagSortOrder::Manual, &scope());
    assert_eq!(chars(&editor.due_date.value), "2024-03-11");
    assert_eq!(chars(&editor.due_natural), "tomorrow");
    clear_editor_due(&mut editor);
    assert!(editor.due_date.value.is_empty() && editor.due_time.value.is_empty());
    assert!(editor.recurrence.value.is_empty() && editor.due_natural.is_empty());
    assert_eq!(save(&data, &editor).update.due, None);
}

#[test]
fn task_editor_calendar_sets_due_date() {
    let data = data_with(vec![task(1, "Write tests")]);
    let today = CalendarDate::from_ymd(2024, 3, 10).unwrap();
    let mut editor = edit(&data, &data.tasks[0]);
    focus_editor_field(&mut editor, TaskEditorField::DueDate);
    open_editor_calendar(&mut editor, None, today);
    let view = task_editor_view(&data, &editor, None, &no_due_text());
    assert!(view.calendar.is_some());
    let calendar = view.calendar.unwrap();
    assert_eq!(calendar.selected_date, today);
    assert_eq!(calendar.display_date, CalendarDate::from_ymd(2024, 3, 1).unwrap());

    move_calendar_selection(&mut editor, 1);
    apply_calendar_selection(&mut editor);
    assert_eq!(chars(&editor.due_date.value), "2024-03-11");
    assert_eq!(editor.due_date.cursor, 10);
    assert!(editor.calendar.is_none());
}

#[test]
fn editor_opens_on_a_task_with_its_fields() {
    let mut data = data_with(vec![task(1, "Parent"), task(2, "Write tests")]);
    data.tags = vec![tag(1, "work", 2), tag(2, "home", 1), tag(3, "gone", 0)];
    data.tags[2].deleted_at = Some(5);
    data.task_tag_links = vec![(TaskId(2), TagId(1)), (TaskId(2), TagId(3)), (TaskId(1), TagId(2)), (TaskId(2), TagId(2))];
    data.tasks[1].parent_task_id = Some(TaskId(1));
    data.tasks[1].priority = TaskPriority::P2;
    data.tasks[1].description = "notes".to_string();
    data.tasks[1].due = Some(TaskDue {
        date: CalendarDate::from_ymd(2024, 3, 11).unwrap(),
        datetime: Some(1_710_144_000_000),
        timezone: None,
        string: "every monday at 9".to_string(),
        is_recurring: true,
    });
    assert_eq!(task_tags(&data, TaskId(2), TagSortOrder::Manual, &scope()), vec![1, 0]);
    assert_eq!(task_tags(&data, TaskId(2), TagSortOrder::NameDesc, &scope()), vec![0, 1]);
    let text = DuePreviewText { date: "2024-03-11".to_string(), time: Some("09:00".to_string()) };
    let editor = open_edit_task_popup(&data, &data.tasks[1], &text, TagSortOrder::Manual, &scope());
    assert_eq!(editor.task_id, Some(TaskId(2)));
    assert_eq!(chars(&editor.title.value), "Write tests");
    assert_eq!(editor.title.cursor, 11);
    assert_eq!(chars(&editor.description.value), "notes");
    assert_eq!(chars(&editor.project.value), "Inbox");
    assert_eq!(chars(&editor.tags.value), "@home @work");
    assert_eq!(chars(&editor.priority.value), "p2");
    assert_eq!(chars(&editor.due_time.value), "09:00");
    assert_eq!(chars(&editor.recurrence.value), "every monday at 9");
    assert_eq!(chars(&editor.parent.value), "Parent");
    assert_eq!(editor.focused_field, TaskEditorField::Title);
}

#[test]
fn quick_add_text_opens_the_full_editor() {
    let mut data = data_with(vec![]);
    data.projects.push(project(2, "Work", false));
    data.tags = vec![tag(1, "urgent", 1)];
    let draft = task_input_draft(&data, "Call mom @urgent p2 tomorrow #Work", ProjectId(1));
    assert_eq!(draft.content, "Call mom tomorrow");
    let due = TaskDue {
        date: CalendarDate::from_ymd(2024, 3, 11).unwrap(),
        datetime: None,
        timezone: None,
        string: "tomorrow".to_string(),
        is_recurring: false,
    };
    let text = DuePreviewText { date: "2024-03-11".to_string(), time: None };
    let editor = open_full_add_task_popup_from_input(&data, &draft, "Call mom", Some(&due), &text);
    assert_eq!(editor.task_id, None);
    assert_eq!(chars(&editor.title.value), "Call mom");
    assert_eq!(chars(&editor.project.value), "Work");
    assert_eq!(editor.project_id, ProjectId(2));
    assert_eq!(chars(&editor.tags.value), "@urgent");
    assert_eq!(chars(&editor.priority.value), "p2");
    assert_eq!(chars(&editor.due_date.value), "2024-03-11");
    assert!(editor.due_time.value.is_empty() && editor.recurrence.value.is_empty());
    assert_eq!(chars(&editor.due_natural), "tomorrow");
}

#[test]
fn create_popup_starts_with_the_selected_tag_and_project() {
    let mut data = data_with(vec![]);
    data.projects.push(project(2, "Work", false));
    data.tags = vec![tag(4, "deep work", 1)];
    let input = open_create_task_popup(&data, Some(TagId(4)), Some(ProjectId(2)));
    assert_eq!(chars(&input.value), "@deep work ");
    assert_eq!(input.cursor, 11);
    assert_eq!(input.project_id, ProjectId(2));
    let input = open_create_task_popup(&data, Some(TagId(9)), None);
    assert!(input.value.is_empty());
    assert_eq!(input.project_id, ProjectId(1));
}

#[test]
fn title_suggestions_rewrite_the_word_under_the_cursor() {
    let mut data = data_with(vec![task(1, "Task")]);
    data.projects.push(project(2, "Another Project", false));
    data.tags = vec![tag(1, "Work", 1)];
    let mut editor = edit(&data, &data.tasks[0]);
    type_text(&mut editor, " #ano");
    assert!(accept_task_editor_title_project_suggestion(&data, &mut editor));
    assert_eq!(chars(&editor.title.value), "Task #Another Project ");
    assert_eq!(editor.title.cursor, 22);
    assert_eq!(chars(&editor.project.value), "Another Project");
    assert_eq!(editor.project_id, ProjectId(2));

    type_text(&mut editor, "@wo");
    assert_eq!(accept_task_editor_tag_suggestion(&data, &mut editor, true), TagTokenStep::Accepted);
    assert_eq!(chars(&editor.title.value), "Task #Another Project @Work ");

    type_text(&mut editor, "p");
    editor.suggestion_index = 1;
    assert!(accept_task_editor_title_priority_suggestion(&mut editor));
    assert_eq!(chars(&editor.title.value), "Task #Another Project @Work p2 ");
    assert_eq!(editor.suggestion_index, 0);

    let mut exact = edit(&data, &data.tasks[0]);
    type_text(&mut exact, " p1");
    assert!(!accept_task_editor_title_priority_suggestion(&mut exact));
    assert_eq!(chars(&exact.title.value), "Task p1");
}

#[test]
fn tags_field_completes_or_asks_for_a_new_tag() {
    let mut data = data_with(vec![task(1, "Task")]);
    data.tags = vec![tag(1, "Work", 1)];
    let mut editor = edit(&data, &data.tasks[0]);
    focus_editor_field(&mut editor, TaskEditorField::Tags);
    type_text(&mut editor, "@wo");
    assert_eq!(accept_task_editor_tag_suggestion(&data, &mut editor, false), TagTokenStep::Accepted);
    assert_eq!(chars(&editor.tags.value), "@Work ");
    type_text(&mut editor, "@garden");
    match accept_task_editor_tag_suggestion(&data, &mut editor, false) {
        TagTokenStep::NeedsTag { start, end, query } => {
            assert_eq!((start, end, query.as_str()), (6, 13, "garden"));
            complete_task_editor_tag_token(&mut editor, false, start, end, "garden");
        },
        other => panic!("unexpected {:?}", other),
    }
    assert_eq!(chars(&editor.tags.value), "@Work @garden ");
    assert_eq!(editor.tags.cursor, 14);
}

#[test]
fn priority_field_accepts_its_suggestion_once() {
    let data = data_with(vec![task(1, "Task")]);
    let mut editor = edit(&data, &data.tasks[0]);
    focus_editor_field(&mut editor, TaskEditorField::Priority);
    assert!(!accept_task_editor_priority_suggestion(&mut editor));
    backspace(&mut editor);
    assert!(accept_task_editor_priority_suggestion(&mut editor));
    assert_eq!(chars(&editor.priority.value), "p1");
    assert_eq!(editor.priority.cursor, 2);
    assert!(!accept_task_editor_priority_suggestion(&mut editor));
    focus_editor_field(&mut editor, TaskEditorField::Title);
    assert!(!accept_task_editor_priority_suggestion(&mut editor));
}

#[test]
fn parent_field_takes_the_named_task() {
    let data = data_with(vec![task(1, "Plan launch"), task(2, "Write copy")]);
    let mut editor = open_create_child_task_popup(&data, &data.tasks[1]);
    focus_editor_field(&mut editor, TaskEditorField::Parent);
    for _ in 0.."Write copy".len() {
        backspace(&mut editor);
    }
    assert_eq!(editor.parent_task_id, None);
    type_text(&mut editor, "plan");
    assert!(accept_task_editor_parent_suggestion(&data, &mut editor));
    assert_eq!(chars(&editor.parent.value), "Plan launch");
    assert_eq!(editor.parent_task_id, Some(TaskId(1)));
}

#[test]
fn description_lines_and_saving_trim_trailing_breaks() {
    let data = data_with(vec![task(1, "Task")]);
    let mut editor = edit(&data, &data.tasks[0]);
    focus_editor_field(&mut editor, TaskEditorField::Description);
    type_text(&mut editor, "ab");
    insert_editor_newline(&mut editor);
    type_text(&mut editor, "c");
    insert_editor_newline(&mut editor);
    insert_editor_newline(&mut editor);
    insert_editor_newline(&mut editor);
    assert_eq!(editor.description.scroll, 2);
    move_editor_description_cursor_vertical(&mut editor, -1);
    move_editor_description_cursor_vertical(&mut editor, -1);
    move_editor_description_cursor_vertical(&mut editor, -1);
    assert_eq!(editor.description.cursor, 3);
    move_editor_cursor_end(&mut editor);
    assert_eq!(editor.description.cursor, 4);
    move_editor_cursor_left(&mut editor);
    move_editor_cursor_home(&mut editor);
    assert_eq!(editor.description.cursor, 3);
    let saved = save(&data, &editor);
    assert_eq!(saved.update.description, "ab\nc");
}

#[test]
fn saving_merges_tags_and_refuses_empty_titles_and_bad_dates() {
    let mut data = data_with(vec![task(1, "Task")]);
    data.tags = vec![tag(1, "work", 1)];
    let mut editor = edit(&data, &data.tasks[0]);
    type_text(&mut editor, " @work");
    focus_editor_field(&mut editor, TaskEditorField::Tags);
    type_text(&mut editor, "@home @work @home");
    let saved = save(&data, &editor);
    assert_eq!(saved.task_id, Some(TaskId(1)));
    assert_eq!(saved.update.title, "Task");
    assert_eq!(saved.tag_queries, vec!["work".to_string(), "home".to_string()]);
    assert!(submit_task_editor(&data, &editor, "", Ok(None)).is_none());
    assert!(submit_task_editor(&data, &editor, "Task", Err("invalid due date".to_string())).is_none());
}

#[test]
fn due_words_fill_the_due_fields() {
    let data = data_with(vec![task(1, "Task")]);
    let mut editor = edit(&data, &data.tasks[0]);
    let due = TaskDue {
        date: CalendarDate::from_ymd(2024, 3, 11).unwrap(),
        datetime: Some(1_710_147_600_000),
        timezone: None,
        string: "tomorrow at 10".to_string(),
        is_recurring: false,
    };
    let text = DuePreviewText { date: "2024-03-11".to_string(), time: Some("10:00".to_string()) };
    sync_editor_due_from_title(&mut editor, Some(&due), &text);
    assert_eq!(chars(&editor.due_date.value), "2024-03-11");
    assert_eq!(chars(&editor.due_time.value), "10:00");
    assert!(editor.due_from_title);
    sync_editor_due_from_title(&mut editor, None, &text);
    assert!(editor.due_date.value.is_empty() && !editor.due_from_title);

    focus_editor_field(&mut editor, TaskEditorField::Recurrence);
    type_text(&mut editor, "every day");
    let weekly = TaskDue { is_recurring: true, datetime: None, string: "every day".to_string(), ..due };
    sync_editor_due_from_recurrence(&mut editor, Some(&weekly), &text);
    assert_eq!(chars(&editor.due_date.value), "2024-03-11");
    assert_eq!(chars(&editor.due_natural), "every day");
    for _ in 0.."every day".len() {
        backspace(&mut editor);
    }
    assert!(editor.due_natural.is_empty());
}

#[test]
fn calendar_pages_keep_month_ends() {
    let jan31 = CalendarDate::from_ymd(2024, 1, 31).unwrap();
    assert_eq!(shift_calendar_month(jan31, 1), CalendarDate::from_ymd(2024, 2, 29).unwrap());
    assert_eq!(shift_calendar_month(jan31, -2), CalendarDate::from_ymd(2023, 11, 30).unwrap());
    assert_eq!(shift_calendar_month(jan31, 0), jan31);

    let data = data_with(vec![task(1, "Task")]);
    let mut editor = edit(&data, &data.tasks[0]);
    shift_calendar_page(&mut editor, 1);
    assert!(editor.calendar.is_none());
    editor.due_date.value = " 2024-01-31 ".chars().collect();
    open_editor_calendar(&mut editor, None, CalendarDate::from_ymd(2030, 1, 1).unwrap());
    shift_calendar_page(&mut editor, 1);
    let calendar = editor.calendar.unwrap();
    assert_eq!(calendar.selected_date, CalendarDate::from_ymd(2024, 2, 29).unwrap());
    assert_eq!(calendar.display_date, CalendarDate::from_ymd(2024, 2, 1).unwrap());
    move_calendar_selection(&mut editor, -30);
    let calendar = editor.calendar.unwrap();
    assert_eq!(calendar.selected_date, CalendarDate::from_ymd(2024, 1, 30).unwrap());
    assert_eq!(calendar.display_date, CalendarDate::from_ymd(2024, 1, 1).unwrap());
}

fn press(data: &ScreenData, editor: &mut TaskEditorState, key: EditorKey) -> EditorKeyOutcome {
    let outcome = handle_task_editor_key(data, editor, key);
    if outcome == EditorKeyOutcome::ReadDue(DueRefresh::FromTitle) {
        sync_editor_due_from_title(editor, None, &no_due_text());
    }
    outcome
}

#[test]
fn keys_drive_the_editor_fields() {
    let mut data = data_with(vec![task(1, "Task")]);
    data.projects.push(project(2, "Another Project", false));
    let mut editor = edit(&data, &data.tasks[0]);
    for ch in " p2".chars() {
        press(&data, &mut editor, EditorKey::Char(ch));
    }
    assert_eq!(chars(&editor.priority.value), "p2");
    assert_eq!(press(&data, &mut editor, EditorKey::Tab), EditorKeyOutcome::Kept);
    assert_eq!(editor.focused_field, TaskEditorField::Description);
    assert_eq!(press(&data, &mut editor, EditorKey::Ctrl('e')), EditorKeyOutcome::EditDescription);
    press(&data, &mut editor, EditorKey::BackTab);
    assert_eq!(editor.focused_field, TaskEditorField::Title);
    for ch in " #ano".chars() {
        press(&data, &mut editor, EditorKey::Char(ch));
    }
    assert_eq!(press(&data, &mut editor, EditorKey::Enter), EditorKeyOutcome::ReadDue(DueRefresh::FromTitle));
    assert_eq!(chars(&editor.title.value), "Task p2 #Another Project ");
    assert_eq!(editor.project_id, ProjectId(2));
    assert_eq!(press(&data, &mut editor, EditorKey::Enter), EditorKeyOutcome::Submit);
    assert_eq!(press(&data, &mut editor, EditorKey::F(12)), EditorKeyOutcome::Submit);
    assert_eq!(press(&data, &mut editor, EditorKey::Esc), EditorKeyOutcome::Closed);
}

#[test]
fn keys_move_through_suggestions_and_the_date_picker() {
    let mut data = data_with(vec![task(1, "Task")]);
    data.projects.push(project(2, "Alpha", false));
    data.projects.push(project(3, "Alps", false));
    let mut editor = edit(&data, &data.tasks[0]);
    press(&data, &mut editor, EditorKey::F(3));
    for _ in 0.."Inbox".len() {
        press(&data, &mut editor, EditorKey::Backspace);
    }
    press(&data, &mut editor, EditorKey::Char('a'));
    press(&data, &mut editor, EditorKey::Char('j'));
    assert_eq!(chars(&editor.project.value), "a");
    assert_eq!(editor.suggestion_index, 1);
    press(&data, &mut editor, EditorKey::Down);
    press(&data, &mut editor, EditorKey::Down);
    assert_eq!(editor.suggestion_index, 1);
    press(&data, &mut editor, EditorKey::Char('k'));
    assert_eq!(editor.suggestion_index, 0);

    press(&data, &mut editor, EditorKey::F(5));
    assert_eq!(press(&data, &mut editor, EditorKey::F(10)), EditorKeyOutcome::OpenCalendar);
    open_editor_calendar(&mut editor, None, CalendarDate::from_ymd(2024, 3, 31).unwrap());
    press(&data, &mut editor, EditorKey::Char('l'));
    assert_eq!(editor.calendar.unwrap().display_date, CalendarDate::from_ymd(2024, 4, 1).unwrap());
    press(&data, &mut editor, EditorKey::PageUp);
    assert_eq!(editor.calendar.unwrap().selected_date, CalendarDate::from_ymd(2024, 3, 1).unwrap());
    press(&data, &mut editor, EditorKey::Up);
    press(&data, &mut editor, EditorKey::Enter);
    assert_eq!(chars(&editor.due_date.value), "2024-02-23");
    assert!(editor.calendar.is_none());
    press(&data, &mut editor, EditorKey::F(11));
    assert!(editor.due_date.value.is_empty());
}
