use triginta::app::{PreviewLineView, ScreenData};
use triginta::domain::{Project, ProjectColor, ProjectId};
use triginta::project_editor::{
    accept_project_editor_parent_field_suggestion, accept_project_editor_parent_suggestion,
    open_create_project_popup, open_edit_project_popup, project_editor_preview_panel,
    project_editor_view, submit_project_editor, ProjectEditorField,
    ProjectSubmission,
};

fn project(id: i64, name: &str, parent: Option<i64>, color: ProjectColor, is_inbox: bool) -> Project {
    Project {
        id: ProjectId(id),
        name: name.to_string(),
        parent_project_id: parent.map(ProjectId),
        color,
        is_favorite: id == 3,
        is_inbox,
        child_order: id,
        created_at: id,
        deleted_at: None,
    }
}

fn data() -> ScreenData {
    let mut data = ScreenData::default();
    data.projects = vec![
        project(1, "Inbox", None, ProjectColor::Charcoal, true),
        project(2, "Work", None, ProjectColor::Blue, false),
        project(3, "Child", Some(2), ProjectColor::Teal, false),
    ];
    data
}

fn chars(s: &str) -> Vec<char> {
    s.chars().collect()
}

fn text(v: &[char]) -> String {
    v.iter().collect()
}

#[test]
fn editor_opens_for_new_and_existing_projects() {
    let data = data();
    let editor = open_create_project_popup(&data, Some(ProjectId(2)));
    assert_eq!(text(&editor.parent_input), "Work");
    assert_eq!((editor.parent_cursor, editor.color_index), (4, 17));
    assert!(editor.name_input.is_empty());
    assert_eq!(editor.focused_field, ProjectEditorField::Name);

    let editor = open_edit_project_popup(&data, Some(ProjectId(3))).expect("child opens");
    assert_eq!(text(&editor.name_input), "Child");
    assert_eq!(text(&editor.parent_input), "Work");
    assert_eq!((editor.name_cursor, editor.color_index), (5, 8));
    assert!(editor.is_favorite);
    assert!(open_edit_project_popup(&data, Some(ProjectId(1))).is_none());
    assert!(open_edit_project_popup(&data, None).is_none());
    assert!(open_edit_project_popup(&data, Some(ProjectId(9))).is_none());
}

#[test]
fn fields_walk_in_order_and_stop_at_the_ends() {
    assert_eq!(ProjectEditorField::Name.next(), ProjectEditorField::Parent);
    assert_eq!(ProjectEditorField::Favorite.next(), ProjectEditorField::Favorite);
    assert_eq!(ProjectEditorField::Name.previous(), ProjectEditorField::Name);
    assert_eq!(ProjectEditorField::Color.previous(), ProjectEditorField::Parent);
    assert_eq!(ProjectEditorField::from_index(9), ProjectEditorField::Favorite);
}

#[test]
fn parent_suggestions_complete_the_name_and_the_parent_field() {
    let data = data();
    let mut editor = open_create_project_popup(&data, None);
    editor.name_input = chars("Plan #wo");
    editor.name_cursor = 8;
    assert!(accept_project_editor_parent_suggestion(&data, &mut editor));
    assert_eq!(text(&editor.name_input), "Plan #Work ");
    assert_eq!(editor.name_cursor, 11);
    assert!(!accept_project_editor_parent_suggestion(&data, &mut editor));

    editor.parent_input = chars(" wor ");
    assert!(accept_project_editor_parent_field_suggestion(&data, &mut editor));
    assert_eq!(text(&editor.parent_input), "Work");
    assert_eq!(editor.parent_cursor, 4);
    assert!(!accept_project_editor_parent_field_suggestion(&data, &mut editor));
}

#[test]
fn project_editor_preview_panel_switches_tip_by_active_field() {
    let panel = project_editor_preview_panel(None, ProjectEditorField::Name);
    assert_eq!(panel.tips, vec!["Press # for selecting a parent project".to_string()]);
    assert!(panel.preview_lines.is_empty());
    let panel = project_editor_preview_panel(Some("Work"), ProjectEditorField::Color);
    assert_eq!(panel.tips, vec!["Use ←/→ or h/l to change the color".to_string()]);
    assert_eq!(
        panel.preview_lines,
        vec![PreviewLineView::Text { text: "Parent: Work".to_string(), dimmed: false }]
    );
    let panel = project_editor_preview_panel(None, ProjectEditorField::Favorite);
    assert_eq!(panel.tips, vec!["Use ←/→ or h/l to toggle favorite".to_string()]);
}

#[test]
fn editor_view_shows_parsed_name_parent_and_suggestions() {
    let data = data();
    let mut editor = open_create_project_popup(&data, None);
    editor.name_input = chars("Plan #Work");
    editor.name_cursor = 10;
    let view = project_editor_view(&data, &editor);
    assert_eq!(view.title, "New Project");
    assert_eq!(view.parsed_name, "Plan");
    assert_eq!(view.parent_label, Some("Work".to_string()));
    assert!(view.parent_suggestions.is_empty());
    assert_eq!(view.color_value, ProjectColor::Charcoal);
    assert!(view.focus.name);
    assert_eq!(
        view.preview_panel.preview_lines,
        vec![PreviewLineView::Text { text: "Parent: Work".to_string(), dimmed: false }]
    );

    editor.name_input = chars("Plan");
    editor.name_cursor = 4;
    editor.parent_input = chars("wo");
    editor.focused_field = ProjectEditorField::Parent;
    let view = project_editor_view(&data, &editor);
    assert_eq!(view.parent_suggestions, vec!["Work".to_string()]);
    assert_eq!(view.parent_label, Some("Work".to_string()));
    assert!(view.focus.parent);

    let edit = open_edit_project_popup(&data, Some(ProjectId(3))).expect("child opens");
    let view = project_editor_view(&data, &edit);
    assert_eq!(view.title, "Edit Project");
    assert_eq!(view.color_value, ProjectColor::Teal);
}

#[test]
fn submitting_resolves_the_parent_and_refuses_a_blank_name() {
    let data = data();
    let mut editor = open_create_project_popup(&data, None);
    editor.name_input = chars("  Plan #Work ");
    assert_eq!(
        submit_project_editor(&data, &editor),
        Some(ProjectSubmission {
            project_id: None,
            name: "Plan".to_string(),
            parent_project_id: Some(ProjectId(2)),
            color: ProjectColor::Charcoal,
            is_favorite: false,
        })
    );
    editor.name_input = chars("   ");
    assert_eq!(submit_project_editor(&data, &editor), None);
    editor.name_input = chars("Solo");
    editor.parent_input = chars("wor");
    assert_eq!(
        submit_project_editor(&data, &editor).map(|s| s.parent_project_id),
        Some(Some(ProjectId(2)))
    );
    editor.parent_input = chars("  ");
    assert_eq!(
        submit_project_editor(&data, &editor).map(|s| s.parent_project_id),
        Some(None)
    );
}
