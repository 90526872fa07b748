use triginta::app::{FilterEditorField, ScreenData, TagEditorField};
use triginta::domain::{
    Filter, FilterColor, FilterId, Project, ProjectColor, ProjectId, Tag, TagColor, TagId, Task,
    TaskId, TaskPriority, TaskStatus,
};
use triginta::editors::{
    delete_confirmation_view, filter_delete_confirmation_view, open_filter_delete_confirmation,
    open_project_delete_confirmation, open_tag_delete_confirmation,
    project_delete_confirmation_view, tag_delete_confirmation_view, filter_editor_view, open_create_filter_popup, open_create_tag_popup, open_edit_filter_popup,
    open_edit_tag_popup, submit_filter_editor, submit_tag_editor, tag_editor_view,
    FilterSubmission, TagSubmission,
};

fn chars(s: &str) -> Vec<char> {
    s.chars().collect()
}

fn data() -> ScreenData {
    let mut data = ScreenData::default();
    data.tags = vec![Tag {
        id: TagId(4),
        name: "Work".to_string(),
        color: TagColor::Teal,
        is_favorite: true,
        item_order: 0,
        created_at: 0,
        deleted_at: None,
    }];
    data.filters = vec![Filter {
        id: FilterId(6),
        name: "Today".to_string(),
        query: "today".to_string(),
        color: FilterColor::Green,
        is_favorite: false,
        item_order: 0,
        created_at: 0,
        deleted_at: None,
    }];
    data
}

#[test]
fn tag_editor_opens_shows_and_saves() {
    let data = data();
    let editor = open_create_tag_popup();
    assert_eq!(editor.color_index, 17);
    let view = tag_editor_view(&editor);
    assert_eq!(view.title, "New Tag");
    assert_eq!(view.color_value, TagColor::Charcoal);
    assert_eq!(
        view.preview_panel.tips,
        vec![
            "Type the tag name without @".to_string(),
            "Use @name style only when typing task titles".to_string()
        ]
    );
    assert_eq!(submit_tag_editor(&editor), None);

    let mut editor = open_edit_tag_popup(&data, Some(TagId(4))).expect("tag opens");
    assert_eq!(editor.name_cursor, 4);
    assert_eq!(editor.color_index, 8);
    editor.name_input = chars("  @@ Deep Work ");
    editor.focused_field = TagEditorField::Color;
    let view = tag_editor_view(&editor);
    assert_eq!(view.title, "Edit Tag");
    assert!(view.focus.color);
    assert_eq!(view.color_label, "Teal");
    assert_eq!(
        submit_tag_editor(&editor),
        Some(TagSubmission {
            tag_id: Some(TagId(4)),
            name: "Deep Work".to_string(),
            color: TagColor::Teal,
            is_favorite: true,
        })
    );
    editor.name_input = chars(" @ ");
    assert_eq!(submit_tag_editor(&editor), None);
    assert!(open_edit_tag_popup(&data, Some(TagId(9))).is_none());
    assert!(open_edit_tag_popup(&data, None).is_none());
}

#[test]
fn filter_editor_blocks_unsupported_queries() {
    let mut editor = open_create_filter_popup();
    editor.name_input = chars("My Filter");
    editor.query_input = chars("assignee:me");
    assert_eq!(submit_filter_editor(&mut editor), None);
    let view = filter_editor_view(&editor);
    assert!(view.validation_error.is_some());
    assert!(view.validation_error.unwrap().contains("unsupported"));
}

#[test]
fn filter_editor_checks_name_and_query_and_saves() {
    let data = data();
    let mut editor = open_create_filter_popup();
    assert_eq!(submit_filter_editor(&mut editor), None);
    assert_eq!(editor.validation_error, Some("Filter name cannot be empty".to_string()));
    editor.name_input = chars(" Mine ");
    assert_eq!(submit_filter_editor(&mut editor), None);
    assert_eq!(editor.validation_error, Some("Filter query cannot be empty".to_string()));

    let mut editor = open_edit_filter_popup(&data, Some(FilterId(6))).expect("filter opens");
    assert_eq!((editor.name_cursor, editor.query_cursor, editor.color_index), (5, 5, 6));
    editor.query_input = chars("  today & @Work ");
    editor.focused_field = FilterEditorField::Query;
    let view = filter_editor_view(&editor);
    assert_eq!(view.title, "Edit Filter");
    assert_eq!(
        view.preview_panel.tips,
        vec!["Use Todoist-style syntax, for example: today & @work".to_string()]
    );
    assert_eq!(
        submit_filter_editor(&mut editor),
        Some(FilterSubmission {
            filter_id: Some(FilterId(6)),
            name: "Today".to_string(),
            query: "today & @Work".to_string(),
            color: FilterColor::Green,
            is_favorite: false,
        })
    );
    assert_eq!(editor.validation_error, None);
    assert!(open_edit_filter_popup(&data, Some(FilterId(1))).is_none());
}

#[test]
fn delete_confirmations_name_the_item_and_spare_the_inbox() {
    let mut data = data();
    data.projects = vec![
        Project {
            id: ProjectId(1),
            name: "Inbox".to_string(),
            parent_project_id: None,
            color: ProjectColor::Charcoal,
            is_favorite: false,
            is_inbox: true,
            child_order: 0,
            created_at: 0,
            deleted_at: None,
        },
        Project {
            id: ProjectId(2),
            name: "Home".to_string(),
            parent_project_id: None,
            color: ProjectColor::Blue,
            is_favorite: false,
            is_inbox: false,
            child_order: 1,
            created_at: 0,
            deleted_at: None,
        },
    ];
    data.tasks = vec![Task {
        id: TaskId(3),
        project_id: ProjectId(2),
        parent_task_id: None,
        child_order: 0,
        title: "Sweep".to_string(),
        description: String::new(),
        status: TaskStatus::Todo,
        priority: TaskPriority::P4,
        created_at: 0,
        completed_at: None,
        deleted_at: None,
        due: None,
    }];
    assert_eq!(delete_confirmation_view(&data, Some(TaskId(3))).map(|v| v.task_title), Some("Sweep".to_string()));
    assert!(delete_confirmation_view(&data, Some(TaskId(4))).is_none());
    assert!(delete_confirmation_view(&data, None).is_none());
    assert_eq!(
        project_delete_confirmation_view(&data, Some(ProjectId(2))).map(|v| v.project_name),
        Some("Home".to_string())
    );
    assert_eq!(tag_delete_confirmation_view(&data, Some(TagId(4))).map(|v| v.tag_name), Some("Work".to_string()));
    assert_eq!(
        filter_delete_confirmation_view(&data, Some(FilterId(6))).map(|v| v.filter_name),
        Some("Today".to_string())
    );
    assert_eq!(open_project_delete_confirmation(&data, Some(ProjectId(1))), None);
    assert_eq!(open_project_delete_confirmation(&data, Some(ProjectId(2))), Some(ProjectId(2)));
    assert_eq!(open_project_delete_confirmation(&data, Some(ProjectId(5))), None);
    assert_eq!(open_tag_delete_confirmation(&data, Some(TagId(4))), Some(TagId(4)));
    assert_eq!(open_tag_delete_confirmation(&data, Some(TagId(5))), None);
    assert_eq!(open_filter_delete_confirmation(&data, Some(FilterId(6))), Some(FilterId(6)));
    assert_eq!(open_filter_delete_confirmation(&data, None), None);
}
