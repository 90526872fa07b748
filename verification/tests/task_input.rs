use triginta::app::ScreenData;
use triginta::domain::{Project, ProjectColor, ProjectId, Tag, TagColor, TagId};
use triginta::app::PreviewLineView;
use triginta::domain::TaskPriority;
use triginta::previews::DuePreviewText;
use triginta::task_input::{
    handle_task_input_key, task_input_submission, InputKey, InputKeyOutcome,
    task_input_draft, task_input_view, TaskDraft, accept_task_input_priority_suggestion, accept_task_input_project_suggestion,
    accept_task_input_tag_suggestion, complete_task_input_tag_token, TagTokenStep,
    TaskInputState,
};

fn project(id: i64, name: &str, is_inbox: bool) -> Project {
    Project {
        id: ProjectId(id),
        name: name.to_string(),
        parent_project_id: None,
        color: ProjectColor::Blue,
        is_favorite: false,
        is_inbox,
        child_order: id,
        created_at: id,
        deleted_at: None,
    }
}

fn tag(id: i64, name: &str) -> Tag {
    Tag {
        id: TagId(id),
        name: name.to_string(),
        color: TagColor::Blue,
        is_favorite: false,
        item_order: id,
        created_at: id,
        deleted_at: None,
    }
}

fn data() -> ScreenData {
    let mut data = ScreenData::default();
    data.projects = vec![
        project(1, "Inbox", true),
        project(2, "Another Project", false),
        project(3, "Alpha", false),
    ];
    data.tags = vec![tag(1, "Work"), tag(2, "Deep Work"), tag(3, "Errands")];
    data
}

fn input(text: &str, cursor: usize) -> TaskInputState {
    TaskInputState {
        value: text.chars().collect(),
        cursor,
        project_id: ProjectId(1),
        tag_suggestion_index: 0,
        suggestion_index: 0,
    }
}

fn text(input: &TaskInputState) -> String {
    input.value.iter().collect()
}

#[test]
fn project_suggestion_replaces_the_hash_word() {
    let data = data();
    let mut typed = input("Task #ano", 9);
    assert!(accept_task_input_project_suggestion(&data, &mut typed));
    assert_eq!(text(&typed), "Task #Another Project ");
    assert_eq!(typed.cursor, 22);
    assert_eq!(typed.project_id, ProjectId(2));

    let mut typed = input("Task #ano  rest", 9);
    assert!(accept_task_input_project_suggestion(&data, &mut typed));
    assert_eq!(text(&typed), "Task #Another Project rest");
    assert_eq!(typed.cursor, 22);

    let mut typed = input("T #a", 4);
    typed.suggestion_index = 5;
    assert!(accept_task_input_project_suggestion(&data, &mut typed));
    assert_eq!(text(&typed), "T #Another Project ");
    assert_eq!((typed.cursor, typed.suggestion_index), (19, 0));

    let mut typed = input("Task #zzz", 9);
    assert!(!accept_task_input_project_suggestion(&data, &mut typed));
    assert_eq!(typed, input("Task #zzz", 9));
    let mut typed = input("Task #Alpha", 11);
    assert!(!accept_task_input_project_suggestion(&data, &mut typed));
}

#[test]
fn priority_suggestion_replaces_the_word() {
    let mut typed = input("Buy milk p", 10);
    typed.suggestion_index = 1;
    assert!(accept_task_input_priority_suggestion(&mut typed));
    assert_eq!(text(&typed), "Buy milk p2 ");
    assert_eq!((typed.cursor, typed.suggestion_index), (12, 0));
    let mut typed = input("Buy milk x", 10);
    assert!(!accept_task_input_priority_suggestion(&mut typed));
    assert_eq!(text(&typed), "Buy milk x");
}

#[test]
fn tag_suggestion_replaces_the_word_or_asks_for_a_new_tag() {
    let data = data();
    let mut typed = input("Do @wo", 6);
    assert_eq!(accept_task_input_tag_suggestion(&data, &mut typed), TagTokenStep::Accepted);
    assert_eq!(text(&typed), "Do @Work ");
    assert_eq!(typed.cursor, 9);

    let mut typed = input("Do @zz", 6);
    assert_eq!(
        accept_task_input_tag_suggestion(&data, &mut typed),
        TagTokenStep::NeedsTag { start: 3, end: 6, query: "zz".to_string() }
    );
    assert_eq!(typed, input("Do @zz", 6));
    complete_task_input_tag_token(&mut typed, 3, 6, "zz");
    assert_eq!(text(&typed), "Do @zz ");
    assert_eq!(typed.cursor, 7);

    let mut typed = input("Do @Work more", 13);
    assert_eq!(accept_task_input_tag_suggestion(&data, &mut typed), TagTokenStep::NoToken);
    let mut typed = input("Do x", 4);
    assert_eq!(accept_task_input_tag_suggestion(&data, &mut typed), TagTokenStep::NoToken);
}

#[test]
fn draft_takes_out_tags_project_and_priority() {
    let data = data();
    assert_eq!(
        task_input_draft(&data, "This is a task @Deep Work #Another Project p2", ProjectId(1)),
        TaskDraft {
            content: "This is a task".to_string(),
            project_id: ProjectId(2),
            tag_queries: vec!["Deep Work".to_string()],
            priority: TaskPriority::P2,
        }
    );
    assert_eq!(
        task_input_draft(&data, "Plain words", ProjectId(3)),
        TaskDraft {
            content: "Plain words".to_string(),
            project_id: ProjectId(3),
            tag_queries: Vec::new(),
            priority: TaskPriority::P4,
        }
    );
}

#[test]
fn input_view_lists_suggestions_for_the_word_under_the_cursor() {
    let data = data();
    let no_due = DuePreviewText { date: String::new(), time: None };
    let view = task_input_view(&data, &input("Ship #ano", 9), None, &no_due);
    assert_eq!(view.title, "New Task");
    assert_eq!(view.project_suggestions, vec!["Another Project".to_string()]);
    assert_eq!(view.selected_project_suggestion, 0);
    assert!(view.tag_suggestions.is_empty());
    assert!(view.priority_suggestions.is_empty());
    assert_eq!(view.project_name, "Inbox");
    assert!(!view.show_project_assignment);
    assert!(view.preview_panel.preview_lines.is_empty());

    let mut typed = input("Ship p", 6);
    typed.project_id = ProjectId(3);
    typed.suggestion_index = 9;
    let view = task_input_view(&data, &typed, None, &no_due);
    assert_eq!(
        view.priority_suggestions,
        vec!["p1".to_string(), "p2".to_string(), "p3".to_string(), "p4".to_string()]
    );
    assert_eq!(view.selected_priority_suggestion, 3);
    assert!(view.show_project_assignment);
    assert_eq!(
        view.preview_panel.preview_lines,
        vec![PreviewLineView::KeyValue {
            label: "Project".to_string(),
            value: "Alpha".to_string(),
            emphasized: false,
            dimmed: false,
        }]
    );

    let view = task_input_view(&data, &input("Do @w", 5), None, &no_due);
    assert_eq!(view.tag_suggestions, vec!["Work".to_string(), "Deep Work".to_string()]);
}

fn empty_input() -> TaskInputState {
    input("", 0)
}

fn press_input(data: &ScreenData, typed: &mut TaskInputState, key: InputKey) -> InputKeyOutcome {
    handle_task_input_key(data, typed, key)
}

fn type_into(data: &ScreenData, typed: &mut TaskInputState, text: &str) {
    for character in text.chars() {
        assert_eq!(press_input(data, typed, InputKey::Char(character)), InputKeyOutcome::Kept);
    }
}

fn inbox_with(extra: &[&str], tags: &[&str]) -> ScreenData {
    let mut data = ScreenData::default();
    data.projects = vec![project(1, "Inbox", true)];
    for (k, name) in extra.iter().enumerate() {
        data.projects.push(project(2 + k as i64, name, false));
    }
    for (k, name) in tags.iter().enumerate() {
        data.tags.push(tag(1 + k as i64, name));
    }
    data
}

#[test]
fn create_popup_enter_accepts_project_suggestion_before_submitting_task() {
    let data = inbox_with(&["Child Project 02"], &[]);
    let mut typed = empty_input();
    type_into(&data, &mut typed, "Draft spec #Chi");
    let view = task_input_view(&data, &typed, None, &DuePreviewText { date: String::new(), time: None });
    assert!(!view.project_suggestions.is_empty());
    assert_eq!(press_input(&data, &mut typed, InputKey::Enter), InputKeyOutcome::Kept);
    let view = task_input_view(&data, &typed, None, &DuePreviewText { date: String::new(), time: None });
    assert_eq!(view.project_name, "Child Project 02");
    assert_eq!(press_input(&data, &mut typed, InputKey::Enter), InputKeyOutcome::Submit);
    let draft = task_input_draft(&data, &text(&typed), typed.project_id);
    let saved = task_input_submission(&data, &typed, draft.content.as_str(), None).expect("task should save");
    assert_eq!(saved.title, "Draft spec");
    assert_eq!(saved.project_id, ProjectId(2));
}

#[test]
fn create_popup_enter_submits_with_inline_tag_and_exact_project_reference() {
    let data = inbox_with(&["Another Project"], &[]);
    let mut typed = empty_input();
    type_into(&data, &mut typed, "This is a task @Work #Another Project");
    assert_eq!(press_input(&data, &mut typed, InputKey::Enter), InputKeyOutcome::Submit);
    let draft = task_input_draft(&data, &text(&typed), typed.project_id);
    let saved = task_input_submission(&data, &typed, draft.content.as_str(), None).expect("task should save");
    assert_eq!(saved.title, "This is a task");
    assert_eq!(saved.project_id, ProjectId(2));
    assert_eq!(saved.tag_queries, vec!["Work".to_string()]);
}

#[test]
fn create_popup_enter_submits_with_multi_word_tag_and_project_reference() {
    let data = inbox_with(&["Another Project"], &[]);
    let mut typed = empty_input();
    type_into(&data, &mut typed, "This is a task @Deep Work #Another Project");
    assert_eq!(press_input(&data, &mut typed, InputKey::Enter), InputKeyOutcome::Submit);
    let draft = task_input_draft(&data, &text(&typed), typed.project_id);
    let saved = task_input_submission(&data, &typed, draft.content.as_str(), None).expect("task should save");
    assert_eq!(saved.title, "This is a task");
    assert_eq!(saved.project_id, ProjectId(2));
    assert_eq!(saved.tag_queries, vec!["Deep Work".to_string()]);
}

#[test]
fn create_popup_single_enter_parses_tags_project_and_due_from_inline_text() {
    let data = inbox_with(&["Another Project"], &[]);
    let mut typed = empty_input();
    type_into(&data, &mut typed, "@Work @Next Action #Another Project And another task tomorrow");
    assert_eq!(press_input(&data, &mut typed, InputKey::Enter), InputKeyOutcome::Submit);
    let draft = task_input_draft(&data, &text(&typed), typed.project_id);
    assert_eq!(draft.content, "And another task tomorrow");
    assert_eq!(draft.project_id, ProjectId(2));
    assert_eq!(draft.tag_queries, vec!["Work".to_string(), "Next Action".to_string()]);
}

#[test]
fn create_popup_single_enter_parses_project_first_then_tags_and_due() {
    let data = inbox_with(&["Another Project"], &["Work", "Next Action"]);
    let mut typed = empty_input();
    type_into(&data, &mut typed, "#Another Project @Work @Next Action And another task tomorrow");
    assert_eq!(press_input(&data, &mut typed, InputKey::Enter), InputKeyOutcome::Submit);
    let draft = task_input_draft(&data, &text(&typed), typed.project_id);
    assert_eq!(draft.content, "And another task tomorrow");
    assert_eq!(draft.project_id, ProjectId(2));
    assert_eq!(draft.tag_queries, vec!["Work".to_string(), "Next Action".to_string()]);
}

#[test]
fn create_popup_single_enter_parses_tag_project_tag_title_recurring_tag() {
    let data = inbox_with(&["Another Project"], &["Work", "Next Action", "Urgent"]);
    let mut typed = empty_input();
    type_into(&data, &mut typed, "@Work #Another Project @Next Action Finish docs every day @Urgent");
    assert_eq!(press_input(&data, &mut typed, InputKey::Enter), InputKeyOutcome::Submit);
    let draft = task_input_draft(&data, &text(&typed), typed.project_id);
    assert_eq!(draft.content, "Finish docs every day");
    assert_eq!(draft.project_id, ProjectId(2));
    let mut tags = draft.tag_queries.clone();
    tags.sort();
    assert_eq!(tags, vec!["Next Action".to_string(), "Urgent".to_string(), "Work".to_string()]);
}

#[test]
fn create_popup_single_enter_parses_tag_title_project_tag_due_tag() {
    let data = inbox_with(&["Another Project"], &["Work", "Next Action", "Urgent"]);
    let mut typed = empty_input();
    type_into(&data, &mut typed, "@Work Finish docs #Another Project @Next Action tomorrow @Urgent");
    assert_eq!(press_input(&data, &mut typed, InputKey::Enter), InputKeyOutcome::Submit);
    let draft = task_input_draft(&data, &text(&typed), typed.project_id);
    assert_eq!(draft.content, "Finish docs tomorrow");
    assert_eq!(draft.project_id, ProjectId(2));
    let mut tags = draft.tag_queries.clone();
    tags.sort();
    assert_eq!(tags, vec!["Next Action".to_string(), "Urgent".to_string(), "Work".to_string()]);
}

#[test]
fn create_popup_enter_accepts_active_inline_tag_suggestion() {
    let data = inbox_with(&[], &["Work", "Next Action"]);
    let mut typed = empty_input();
    type_into(&data, &mut typed, "@Work @next");
    assert_eq!(press_input(&data, &mut typed, InputKey::Enter), InputKeyOutcome::Kept);
    assert_eq!(text(&typed), "@Work @Next Action ");
}

#[test]
fn create_popup_title_p_query_shows_priority_suggestions() {
    let data = inbox_with(&[], &[]);
    let mut typed = empty_input();
    type_into(&data, &mut typed, "Draft docs p");
    let view = task_input_view(&data, &typed, None, &DuePreviewText { date: String::new(), time: None });
    assert!(!view.priority_suggestions.is_empty());
}

#[test]
fn create_popup_enter_accepts_priority_suggestion_before_submitting_task() {
    let data = inbox_with(&[], &[]);
    let mut typed = empty_input();
    type_into(&data, &mut typed, "Draft docs p");
    assert_eq!(press_input(&data, &mut typed, InputKey::Enter), InputKeyOutcome::Kept);
    assert_eq!(text(&typed), "Draft docs p1 ");
    assert_eq!(press_input(&data, &mut typed, InputKey::Enter), InputKeyOutcome::Submit);
    let draft = task_input_draft(&data, &text(&typed), typed.project_id);
    let saved = task_input_submission(&data, &typed, draft.content.as_str(), None).expect("task should save");
    assert_eq!(saved.title, "Draft docs");
    assert_eq!(saved.priority, TaskPriority::P1);
}

#[test]
fn create_popup_priority_suggestion_moves_with_arrow_keys() {
    let data = inbox_with(&[], &[]);
    let mut typed = empty_input();
    type_into(&data, &mut typed, "Draft docs p");
    press_input(&data, &mut typed, InputKey::Down);
    let view = task_input_view(&data, &typed, None, &DuePreviewText { date: String::new(), time: None });
    assert_eq!(view.selected_priority_suggestion, 1);
}

#[test]
fn create_popup_enter_with_exact_priority_token_accepts_before_submit() {
    let data = inbox_with(&[], &[]);
    let mut typed = empty_input();
    type_into(&data, &mut typed, "Draft docs p2");
    assert_eq!(press_input(&data, &mut typed, InputKey::Enter), InputKeyOutcome::Kept);
    assert_eq!(text(&typed), "Draft docs p2 ");
}

#[test]
fn create_popup_uses_last_priority_token_when_multiple_are_present() {
    let data = inbox_with(&[], &[]);
    let mut typed = empty_input();
    type_into(&data, &mut typed, "Ship report p3 p1");
    assert_eq!(press_input(&data, &mut typed, InputKey::Enter), InputKeyOutcome::Kept);
    assert_eq!(press_input(&data, &mut typed, InputKey::Enter), InputKeyOutcome::Submit);
    let draft = task_input_draft(&data, &text(&typed), typed.project_id);
    let saved = task_input_submission(&data, &typed, draft.content.as_str(), None).expect("task should save");
    assert_eq!(saved.title, "Ship report");
    assert_eq!(saved.priority, TaskPriority::P1);
}

#[test]
fn input_keys_edit_close_and_open_the_full_editor() {
    let data = inbox_with(&[], &[]);
    let mut typed = empty_input();
    type_into(&data, &mut typed, "World");
    press_input(&data, &mut typed, InputKey::Home);
    type_into(&data, &mut typed, "Hello ");
    press_input(&data, &mut typed, InputKey::End);
    type_into(&data, &mut typed, "!");
    assert_eq!(text(&typed), "Hello World!");
    press_input(&data, &mut typed, InputKey::Left);
    press_input(&data, &mut typed, InputKey::Backspace);
    press_input(&data, &mut typed, InputKey::Delete);
    assert_eq!(text(&typed), "Hello Worl");
    assert_eq!(press_input(&data, &mut typed, InputKey::Ctrl('e')), InputKeyOutcome::OpenFullEditor);
    assert_eq!(press_input(&data, &mut typed, InputKey::Esc), InputKeyOutcome::Closed);
    assert!(task_input_submission(&data, &typed, "", None).is_none());
}

#[test]
fn tab_asks_for_a_missing_tag() {
    let data = inbox_with(&[], &["Work"]);
    let mut typed = empty_input();
    type_into(&data, &mut typed, "Plan @garden");
    assert_eq!(
        press_input(&data, &mut typed, InputKey::Tab),
        InputKeyOutcome::NeedsTag { start: 5, end: 12, query: "garden".to_string() }
    );
    assert_eq!(press_input(&data, &mut typed, InputKey::Enter), InputKeyOutcome::NeedsTag {
        start: 5,
        end: 12,
        query: "garden".to_string(),
    });
}
