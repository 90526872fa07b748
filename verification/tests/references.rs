use triginta::app::ScreenData;
use triginta::domain::{
    Project, ProjectColor, ProjectId, Tag, TagColor, TagId, Task, TaskId, TaskPriority, TaskStatus,
};
use triginta::references::{
    active_priority_query, active_project_query, active_tag_field_query, active_tag_query,
    extract_project_reference, extract_project_reference_for_title_cleanup,
    extract_tag_references, has_exact_tag_name, inbox_project_id, matched_project_prefix,
    matched_tag_prefix, next_tag_reference, parent_task_suggestions, parse_tags_field_queries,
    project_parent_suggestions, project_suggestions, resolve_parent_task_input,
    resolve_project_input, resolve_project_parent_input, resolve_tag_input, tag_suggestions,
    task_is_descendant_of,
};

fn tag(id: i64, name: &str) -> Tag {
    Tag {
        id: TagId(id),
        name: name.to_string(),
        color: TagColor::Blue,
        is_favorite: false,
        item_order: id,
        created_at: id,
        deleted_at: None,
    }
}

fn project(id: i64, name: &str, is_inbox: bool) -> Project {
    Project {
        id: ProjectId(id),
        name: name.to_string(),
        parent_project_id: None,
        color: ProjectColor::Blue,
        is_favorite: false,
        is_inbox,
        child_order: id,
        created_at: id,
        deleted_at: None,
    }
}

fn task(id: i64, title: &str, project: i64, parent: Option<i64>) -> Task {
    Task {
        id: TaskId(id),
        project_id: ProjectId(project),
        parent_task_id: parent.map(TaskId),
        child_order: id,
        title: title.to_string(),
        description: String::new(),
        status: TaskStatus::Todo,
        priority: TaskPriority::P4,
        created_at: id,
        completed_at: None,
        deleted_at: None,
        due: None,
    }
}

fn with_tags(tags: Vec<Tag>) -> ScreenData {
    let mut data = ScreenData::default();
    data.tags = tags;
    data
}

fn with_projects(projects: Vec<Project>) -> ScreenData {
    let mut data = ScreenData::default();
    data.projects = projects;
    data
}

#[test]
fn parse_tags_field_queries_supports_multi_word_tag_names() {
    assert_eq!(
        parse_tags_field_queries("@Deep Work @Personal".trim()),
        vec!["Deep Work".to_string(), "Personal".to_string()]
    );
}

#[test]
fn tags_field_queries_are_listed_once_each() {
    assert_eq!(
        parse_tags_field_queries("@a @a @b"),
        vec!["a".to_string(), "b".to_string()]
    );
    assert_eq!(
        parse_tags_field_queries("@a @a,@b"),
        vec!["a".to_string(), "a,@b".to_string()]
    );
    assert!(parse_tags_field_queries("no tags here").is_empty());
}

#[test]
fn next_tag_reference_needs_space_or_comma_before_the_at_sign() {
    assert_eq!(
        next_tag_reference("Buy milk @home, @errands", 0),
        Some((9, 16, "home,".to_string()))
    );
    assert_eq!(next_tag_reference("a@b @c", 0), Some((4, 6, "c".to_string())));
    assert_eq!(next_tag_reference("@ @x", 0), Some((2, 4, "x".to_string())));
    assert_eq!(next_tag_reference("plain text", 0), None);
    assert_eq!(next_tag_reference("@first\n@second", 1), Some((7, 14, "second".to_string())));
}

#[test]
fn extract_tag_references_keeps_multi_word_tag_and_rest_of_title() {
    let data = with_tags(vec![tag(1, "Work"), tag(2, "Deep Work")]);
    assert_eq!(
        extract_tag_references(&data, "This is a task @Deep Work #Another Project"),
        (
            "This is a task #Another Project".to_string(),
            vec!["Deep Work".to_string()]
        )
    );
    assert_eq!(
        extract_tag_references(&data, "@Work on   docs"),
        ("on docs".to_string(), vec!["Work".to_string()])
    );
    assert_eq!(
        extract_tag_references(&data, "Fix @urgent bug"),
        ("Fix".to_string(), vec!["urgent bug".to_string()])
    );
    assert_eq!(
        extract_tag_references(&data, "@work then @WORK"),
        ("then".to_string(), vec!["work".to_string(), "WORK".to_string()])
    );
}

#[test]
fn matched_tag_prefix_takes_the_longest_name() {
    let data = with_tags(vec![tag(1, "Work"), tag(2, "Work Later")]);
    assert_eq!(matched_tag_prefix(&data, "  Work Later today"), Some(10));
    assert_eq!(matched_tag_prefix(&data, "work"), Some(4));
    assert_eq!(matched_tag_prefix(&data, "Workshop"), None);
}

#[test]
fn matched_project_prefix_prefers_the_last_of_equal_names() {
    let data = with_projects(vec![
        project(1, "Inbox", true),
        project(2, "Alpha", false),
        project(3, "Alpha", false),
    ]);
    assert_eq!(matched_project_prefix(&data, "alpha task", None), Some((2, 5)));
    assert_eq!(
        matched_project_prefix(&data, "alpha task", Some(ProjectId(3))),
        Some((1, 5))
    );
    assert_eq!(matched_project_prefix(&data, "beta", None), None);
}

#[test]
fn extract_project_reference_splits_name_and_keeps_words_after_it() {
    let data = with_projects(vec![project(1, "Inbox", true), project(2, "Another Project", false)]);
    assert_eq!(
        extract_project_reference(&data, "This is a task #Another Project", ProjectId(1)),
        ("This is a task".to_string(), ProjectId(2))
    );
    assert_eq!(
        extract_project_reference(&data, "Draft #another project spec", ProjectId(1)),
        ("Draft spec".to_string(), ProjectId(2))
    );
    assert_eq!(
        extract_project_reference(&data, "Call mom #zzz", ProjectId(1)),
        ("Call mom".to_string(), ProjectId(1))
    );
    assert_eq!(
        extract_project_reference(&data, "Call #anoth", ProjectId(1)),
        ("Call".to_string(), ProjectId(2))
    );
    assert_eq!(
        extract_project_reference(&data, " a#b ", ProjectId(1)),
        ("a#b".to_string(), ProjectId(1))
    );
    assert_eq!(
        extract_project_reference(&data, "#Another Project", ProjectId(1)),
        (String::new(), ProjectId(2))
    );
}

#[test]
fn title_cleanup_splits_trailing_project_reference() {
    assert_eq!(
        extract_project_reference_for_title_cleanup("Plan trip  #Travel Plans "),
        ("Plan trip".to_string(), Some("Travel Plans".to_string()))
    );
    assert_eq!(
        extract_project_reference_for_title_cleanup("  issue#12 "),
        ("issue#12".to_string(), None)
    );
    assert_eq!(
        extract_project_reference_for_title_cleanup("ends with # "),
        ("ends with #".to_string(), None)
    );
}

#[test]
fn resolve_project_input_prefers_exact_then_fuzzy_then_fallback() {
    let data = with_projects(vec![
        project(1, "Inbox", true),
        project(2, "Work Stuff", false),
        project(3, "Work", false),
    ]);
    assert_eq!(resolve_project_input(&data, " WORK ", None), ProjectId(3));
    assert_eq!(resolve_project_input(&data, "wst", None), ProjectId(2));
    assert_eq!(resolve_project_input(&data, "zzz", Some(ProjectId(2))), ProjectId(2));
    assert_eq!(resolve_project_input(&data, "zzz", None), ProjectId(1));
    assert_eq!(resolve_project_input(&data, "  ", None), ProjectId(1));
    assert_eq!(inbox_project_id(&data), ProjectId(1));
}

#[test]
fn active_queries_read_the_word_before_the_cursor() {
    assert_eq!(active_tag_query("Buy @ho", 7), Some((4, 7, "ho".to_string())));
    assert_eq!(active_tag_query("Buy @ho", 100), Some((4, 7, "ho".to_string())));
    assert_eq!(active_tag_query("Buy @ho #x", 10), None);
    assert_eq!(active_tag_query("a,@b", 4), None);
    assert_eq!(active_tag_field_query("a,@b", 4), Some((2, 4, "b".to_string())));
    assert_eq!(active_tag_query("mail@x", 6), None);
    assert_eq!(active_priority_query("task p2", 7), Some((5, 7, "p2".to_string())));
    assert_eq!(active_priority_query("task x", 6), None);
    assert_eq!(active_priority_query("P1", 2), Some((0, 2, "P1".to_string())));
    assert_eq!(active_priority_query("task ", 5), None);
}

#[test]
fn active_project_query_stops_after_a_complete_name() {
    let data = with_projects(vec![project(1, "Inbox", true), project(2, "Another Project", false)]);
    assert_eq!(
        active_project_query(&data, "Task #Anot", 10),
        Some((5, 10, "Anot".to_string()))
    );
    assert_eq!(active_project_query(&data, "Task #Another Project", 21), None);
    assert_eq!(active_project_query(&data, "Task #Another Project  ", 23), None);
    assert_eq!(
        active_project_query(&data, "Task #Another Project x", 23),
        Some((5, 23, "Another Project x".to_string()))
    );
    assert_eq!(active_project_query(&data, "Task#An", 7), None);
}

#[test]
fn exact_tag_name_ignores_at_signs_and_case() {
    let mut deleted = tag(2, "Old");
    deleted.deleted_at = Some(5);
    let data = with_tags(vec![tag(1, "Deep Work"), deleted]);
    assert!(has_exact_tag_name(&data, "  @@deep work "));
    assert!(!has_exact_tag_name(&data, "@deep"));
    assert!(!has_exact_tag_name(&data, "@"));
    assert!(!has_exact_tag_name(&data, "old"));
}

#[test]
fn tag_suggestions_put_prefix_matches_first() {
    let mut hobby = tag(4, "Hobby");
    hobby.deleted_at = Some(1);
    let data = with_tags(vec![tag(1, "Homework"), tag(2, "Home"), tag(3, "Chores"), hobby]);
    assert_eq!(tag_suggestions(&data, " @ho "), vec![1, 0, 2]);
    assert!(tag_suggestions(&data, "@").is_empty());
    assert!(tag_suggestions(&data, "zz").is_empty());
}

#[test]
fn project_suggestions_rank_and_parent_suggestions_skip_inbox_and_self() {
    let data = with_projects(vec![
        project(1, "Inbox", true),
        project(2, "Work", false),
        project(3, "Homework", false),
        project(4, "Workshop", false),
    ]);
    assert_eq!(project_suggestions(&data, "work"), vec![1, 3, 2]);
    assert_eq!(project_suggestions(&data, "in"), vec![0]);
    assert!(project_suggestions(&data, " ").is_empty());
    assert_eq!(project_parent_suggestions(&data, "#work", Some(ProjectId(2))), vec![3, 2]);
    assert!(project_parent_suggestions(&data, "in", None).is_empty());
    assert_eq!(resolve_project_parent_input(&data, "#wor", None), Some(ProjectId(2)));
    assert_eq!(resolve_project_parent_input(&data, "#", None), None);
    assert_eq!(resolve_project_parent_input(&data, "zzz", None), None);
}

#[test]
fn resolve_tag_input_prefers_exact_name() {
    let data = with_tags(vec![tag(1, "Deep Work"), tag(2, "Work")]);
    assert_eq!(resolve_tag_input(&data, "@work"), Some(TagId(2)));
    assert_eq!(resolve_tag_input(&data, "@dw"), Some(TagId(1)));
    assert_eq!(resolve_tag_input(&data, "@zz"), None);
    assert_eq!(resolve_tag_input(&data, "  "), None);
}

fn task_data() -> ScreenData {
    let mut data = ScreenData::default();
    data.projects = vec![project(1, "Inbox", true), project(2, "Home", false)];
    data.tasks = vec![
        task(1, "Alpha", 2, None),
        task(2, "Apple", 2, Some(1)),
        task(3, "Banana", 2, Some(2)),
        task(4, "avocado", 1, None),
    ];
    data
}

#[test]
fn task_descendants_follow_the_parent_chain() {
    let data = task_data();
    assert!(task_is_descendant_of(&data.tasks, TaskId(3), TaskId(1)));
    assert!(task_is_descendant_of(&data.tasks, TaskId(2), TaskId(1)));
    assert!(!task_is_descendant_of(&data.tasks, TaskId(1), TaskId(3)));
    assert!(!task_is_descendant_of(&data.tasks, TaskId(3), TaskId(3)));
}

#[test]
fn parent_task_suggestions_skip_the_task_and_its_descendants() {
    let data = task_data();
    assert_eq!(parent_task_suggestions(&data, "a", None, ProjectId(2)), vec![0, 1, 2]);
    assert!(parent_task_suggestions(&data, "a", Some(TaskId(1)), ProjectId(2)).is_empty());
    assert_eq!(parent_task_suggestions(&data, "a", Some(TaskId(2)), ProjectId(2)), vec![0]);
    assert_eq!(parent_task_suggestions(&data, "a", None, ProjectId(1)), vec![3]);
    assert!(parent_task_suggestions(&data, "  ", None, ProjectId(2)).is_empty());
    assert_eq!(resolve_parent_task_input(&data, " apple ", None, ProjectId(2)), Some(TaskId(2)));
    assert_eq!(resolve_parent_task_input(&data, "al", None, ProjectId(2)), Some(TaskId(1)));
    assert_eq!(resolve_parent_task_input(&data, "zzz", None, ProjectId(2)), None);
}
