use triginta::app::{ScreenData, TaskView};
use triginta::config::{FilterSortOrder, ProjectSortOrder, TagSortOrder, TaskSortOrder};
use triginta::domain::{
    CalendarDate, Filter, FilterColor, FilterId, Project, ProjectColor, ProjectId, Tag, TagColor,
    TagId, Task, TaskDue, TaskId, TaskPriority, TaskStatus,
};
use triginta::listing::TaskListScope;
use triginta::project_tree::{has_user_projects, project_tree_rows, ProjectCountScope};
use triginta::selection::{
    move_favorite_selection, move_filter_selection, move_project_selection, move_tag_selection,
    move_task_selection, move_task_view_selection, sync_selection_for_panel_search, ListSettings,
    PanelQueries, PanelSearchTarget, PanelSelection,
};
use triginta::task_order::{selected_task, visible_tasks};

const TODAY: i32 = 739_000;

fn inbox() -> Project {
    Project {
        id: ProjectId(1),
        name: "Inbox".to_string(),
        parent_project_id: None,
        color: ProjectColor::Charcoal,
        is_favorite: false,
        is_inbox: true,
        child_order: 0,
        created_at: 0,
        deleted_at: None,
    }
}

fn project(id: i64, name: &str, parent: Option<i64>, color: ProjectColor) -> Project {
    Project {
        id: ProjectId(id),
        name: name.to_string(),
        parent_project_id: parent.map(ProjectId),
        color,
        is_favorite: false,
        is_inbox: false,
        child_order: id,
        created_at: id,
        deleted_at: None,
    }
}

fn task(id: i64, title: &str, project: i64, due: Option<i32>) -> Task {
    Task {
        id: TaskId(id),
        project_id: ProjectId(project),
        parent_task_id: None,
        child_order: id,
        title: title.to_string(),
        description: String::new(),
        status: TaskStatus::Todo,
        priority: TaskPriority::P4,
        created_at: id,
        completed_at: None,
        deleted_at: None,
        due: due.map(|d| TaskDue {
            date: CalendarDate { day_number: d },
            datetime: None,
            timezone: None,
            string: String::new(),
            is_recurring: false,
        }),
    }
}

fn scope(view: TaskView) -> TaskListScope {
    TaskListScope {
        view,
        selected_project: None,
        selected_tag: None,
        selected_filter: None,
        hide_completed: true,
        today: CalendarDate { day_number: TODAY },
    }
}

fn titles(data: &ScreenData, scope: &TaskListScope) -> Vec<String> {
    visible_tasks(data, scope, TaskSortOrder::DueAsc, "", &[])
        .into_iter()
        .map(|pos| data.tasks[pos].title.clone())
        .collect()
}

fn counts() -> ProjectCountScope {
    ProjectCountScope {
        view: TaskView::All,
        today: CalendarDate { day_number: TODAY },
        hide_completed: true,
    }
}

#[test]
fn task_views_filter_by_due_date() {
    let mut data = ScreenData::default();
    data.projects = vec![inbox()];
    data.tasks = vec![
        task(1, "Inbox task", 1, None),
        task(2, "Today task", 1, Some(TODAY)),
        task(3, "Soon task", 1, Some(TODAY + 2)),
    ];

    assert_eq!(titles(&data, &scope(TaskView::All)).len(), 3);
    assert_eq!(
        titles(&data, &scope(TaskView::Inbox)),
        vec!["Today task", "Soon task", "Inbox task"]
    );
    assert_eq!(titles(&data, &scope(TaskView::Today)), vec!["Today task"]);
    assert_eq!(titles(&data, &scope(TaskView::Soon)), vec!["Soon task"]);
}

#[test]
fn selected_project_filters_visible_tasks_by_subtree() {
    let mut data = ScreenData::default();
    data.projects = vec![
        inbox(),
        project(2, "Work", None, ProjectColor::Blue),
        project(3, "Client", Some(2), ProjectColor::Teal),
    ];
    data.tasks = vec![
        task(1, "Inbox task", 1, None),
        task(2, "Parent task", 2, None),
        task(3, "Child task", 3, None),
    ];
    let mut narrowed = scope(TaskView::All);
    narrowed.selected_project = Some(ProjectId(2));
    assert_eq!(titles(&data, &narrowed), vec!["Child task", "Parent task"]);
}

#[test]
fn selected_filter_filters_visible_tasks() {
    let mut data = ScreenData::default();
    data.projects = vec![inbox()];
    data.tasks = vec![task(1, "Alpha", 1, None), task(2, "Bravo", 1, None)];
    data.tags = vec![Tag {
        id: TagId(1),
        name: "Work".to_string(),
        color: TagColor::Blue,
        is_favorite: false,
        item_order: 0,
        created_at: 0,
        deleted_at: None,
    }];
    data.task_tag_links = vec![(TaskId(1), TagId(1))];
    data.filters = vec![Filter {
        id: FilterId(1),
        name: "Work Only".to_string(),
        query: "@Work".to_string(),
        color: FilterColor::Green,
        is_favorite: false,
        item_order: 0,
        created_at: 0,
        deleted_at: None,
    }];
    let mut narrowed = scope(TaskView::All);
    narrowed.selected_filter = Some(FilterId(1));
    assert_eq!(titles(&data, &narrowed), vec!["Alpha"]);
}

#[test]
fn completed_tasks_show_only_when_not_hidden() {
    let mut data = ScreenData::default();
    data.projects = vec![inbox()];
    let mut done = task(1, "Completed task", 1, None);
    done.status = TaskStatus::Done;
    data.tasks = vec![done];
    let mut shown = scope(TaskView::All);
    assert!(titles(&data, &shown).is_empty());
    shown.hide_completed = false;
    assert_eq!(titles(&data, &shown), vec!["Completed task"]);
}

#[test]
fn selected_task_is_found_among_visible_rows() {
    let mut data = ScreenData::default();
    data.projects = vec![inbox()];
    data.tasks = vec![task(1, "Alpha", 1, None), task(2, "Bravo", 1, None)];
    let all = scope(TaskView::All);
    assert_eq!(
        selected_task(&data, &all, TaskSortOrder::DueAsc, "", &[], Some(TaskId(2))),
        Some(1)
    );
    assert_eq!(selected_task(&data, &all, TaskSortOrder::DueAsc, "alp", &[], Some(TaskId(2))), None);
    assert_eq!(selected_task(&data, &all, TaskSortOrder::DueAsc, "", &[], None), None);
}

fn prefix_of(rows: &[triginta::app::ProjectTreeRowView], name: &str) -> String {
    rows.iter()
        .find(|row| row.name == name)
        .unwrap_or_else(|| panic!("row {name} should exist"))
        .tree_prefix
        .clone()
}

#[test]
fn project_tree_rows_render_clear_branch_prefixes_for_nested_projects() {
    let mut data = ScreenData::default();
    data.projects = vec![
        inbox(),
        project(2, "Test Project 01", None, ProjectColor::Blue),
        project(3, "Child Project 01", Some(2), ProjectColor::Teal),
        project(4, "Child Project 02", Some(2), ProjectColor::SkyBlue),
        project(5, "Another Project 01", Some(3), ProjectColor::Charcoal),
        project(6, "Another Project 02", Some(4), ProjectColor::Charcoal),
    ];
    let rows = project_tree_rows(&data, ProjectSortOrder::Manual, &counts(), None, "");

    assert_eq!(prefix_of(&rows, "Child Project 01"), "├ ");
    assert_eq!(prefix_of(&rows, "Child Project 02"), "└ ");
    assert_eq!(prefix_of(&rows, "Another Project 01"), "│ └ ");
    assert_eq!(prefix_of(&rows, "Another Project 02"), "  └ ");
}

#[test]
fn project_tree_rows_render_clear_branch_prefixes_for_deeper_levels() {
    let mut data = ScreenData::default();
    data.projects = vec![
        inbox(),
        project(2, "Root", None, ProjectColor::Blue),
        project(3, "Child A", Some(2), ProjectColor::Teal),
        project(4, "Child B", Some(2), ProjectColor::SkyBlue),
        project(5, "Grand A", Some(3), ProjectColor::Charcoal),
        project(6, "Great A", Some(5), ProjectColor::Grey),
    ];
    let rows = project_tree_rows(&data, ProjectSortOrder::Manual, &counts(), None, "");

    assert_eq!(prefix_of(&rows, "Child A"), "├ ");
    assert_eq!(prefix_of(&rows, "Child B"), "└ ");
    assert_eq!(prefix_of(&rows, "Grand A"), "│ └ ");
    assert_eq!(prefix_of(&rows, "Great A"), "│   └ ");
}

#[test]
fn project_panel_lists_all_inbox_then_tree_and_searches_names() {
    let mut data = ScreenData::default();
    data.projects = vec![
        project(3, "Bravo", None, ProjectColor::Teal),
        inbox(),
        project(2, "Alpha", None, ProjectColor::Blue),
    ];
    data.tasks = vec![task(1, "One", 3, None), task(2, "Two", 3, None), task(3, "Three", 2, None)];
    let rows = project_tree_rows(&data, ProjectSortOrder::NameDesc, &counts(), Some(ProjectId(2)), "");
    let names: Vec<&str> = rows.iter().map(|row| row.name.as_str()).collect();
    assert_eq!(names, vec!["All Projects", "Inbox", "Bravo", "Alpha"]);
    assert_eq!(rows[0].task_count, 3);
    assert!(!rows[0].is_selected);
    assert_eq!(rows[2].task_count, 2);
    assert!(rows[3].is_selected);

    let by_count = project_tree_rows(&data, ProjectSortOrder::TaskCountAsc, &counts(), None, "");
    let names: Vec<&str> = by_count.iter().map(|row| row.name.as_str()).collect();
    assert_eq!(names, vec!["All Projects", "Inbox", "Alpha", "Bravo"]);
    assert!(by_count[0].is_selected);

    let searched = project_tree_rows(&data, ProjectSortOrder::NameAsc, &counts(), None, "brv");
    let names: Vec<&str> = searched.iter().map(|row| row.name.as_str()).collect();
    assert_eq!(names, vec!["Bravo"]);
    assert!(has_user_projects(&data));
    data.projects = vec![inbox()];
    assert!(!has_user_projects(&data));
}

fn settings() -> ListSettings {
    ListSettings {
        task_sort: TaskSortOrder::DueAsc,
        project_sort: ProjectSortOrder::NameAsc,
        tag_sort: TagSortOrder::NameAsc,
        filter_sort: FilterSortOrder::NameAsc,
        hide_completed: true,
        today: CalendarDate { day_number: TODAY },
    }
}

fn no_queries() -> PanelQueries {
    PanelQueries {
        navigation_views: String::new(),
        projects: String::new(),
        tags: String::new(),
        filters: String::new(),
        favorites: String::new(),
        task_list: String::new(),
    }
}

#[test]
fn project_search_moves_selection_to_first_listed_row_and_resyncs_task() {
    let mut data = ScreenData::default();
    data.projects = vec![
        inbox(),
        project(2, "Alpha", None, ProjectColor::Blue),
        project(3, "Bravo", None, ProjectColor::Teal),
    ];
    data.tasks = vec![task(1, "One", 2, None), task(2, "Two", 3, None)];
    let mut sel = PanelSelection {
        active_task_view: TaskView::All,
        selected_project: Some(ProjectId(2)),
        selected_tag: None,
        selected_filter: None,
        selected_favorite: None,
        selected_task: Some(TaskId(1)),
    };
    let mut queries = no_queries();
    queries.projects = "brv".to_string();
    sync_selection_for_panel_search(&data, PanelSearchTarget::Projects, &mut sel, &settings(), &queries, &[]);
    assert_eq!(sel.selected_project, Some(ProjectId(3)));
    assert_eq!(sel.selected_task, Some(TaskId(2)));

    queries.projects = "zzz".to_string();
    sync_selection_for_panel_search(&data, PanelSearchTarget::Projects, &mut sel, &settings(), &queries, &[]);
    assert_eq!(sel.selected_project, Some(ProjectId(3)));

    queries.projects = String::new();
    sync_selection_for_panel_search(&data, PanelSearchTarget::Projects, &mut sel, &settings(), &queries, &[]);
    assert_eq!(sel.selected_project, Some(ProjectId(3)));

    let mut sel_none = sel;
    sel_none.selected_task = None;
    sync_selection_for_panel_search(&data, PanelSearchTarget::TaskList, &mut sel_none, &settings(), &queries, &[]);
    assert_eq!(sel_none.selected_task, Some(TaskId(2)));
}

#[test]
fn navigation_search_keeps_listed_view_or_takes_first() {
    let mut data = ScreenData::default();
    data.projects = vec![inbox()];
    data.tasks = vec![task(1, "Today task", 1, Some(TODAY))];
    let mut sel = PanelSelection {
        active_task_view: TaskView::All,
        selected_project: None,
        selected_tag: None,
        selected_filter: None,
        selected_favorite: None,
        selected_task: None,
    };
    let mut queries = no_queries();
    queries.navigation_views = "tod".to_string();
    sync_selection_for_panel_search(&data, PanelSearchTarget::NavigationViews, &mut sel, &settings(), &queries, &[]);
    assert_eq!(sel.active_task_view, TaskView::Today);
    assert_eq!(sel.selected_task, Some(TaskId(1)));
}

#[test]
fn selection_moves_stop_at_the_ends_of_the_list() {
    let ids = [TaskId(5), TaskId(6), TaskId(7)];
    assert_eq!(move_task_selection(&ids, Some(TaskId(6)), 1), Some(TaskId(7)));
    assert_eq!(move_task_selection(&ids, Some(TaskId(7)), 1), Some(TaskId(7)));
    assert_eq!(move_task_selection(&ids, Some(TaskId(6)), -5), Some(TaskId(5)));
    assert_eq!(move_task_selection(&ids, Some(TaskId(9)), 1), Some(TaskId(6)));
    assert_eq!(move_task_selection(&ids, None, 0), Some(TaskId(5)));
    assert_eq!(move_task_selection(&[], Some(TaskId(6)), 1), None);

    let projects = [None, Some(ProjectId(1)), Some(ProjectId(2))];
    assert_eq!(move_project_selection(&projects, None, 1), Some(ProjectId(1)));
    assert_eq!(move_project_selection(&projects, Some(ProjectId(1)), -1), None);
    assert_eq!(move_project_selection(&[], Some(ProjectId(1)), 1), None);

    let tags = [None, Some(TagId(3))];
    assert_eq!(move_tag_selection(&tags, Some(TagId(3)), 4), Some(TagId(3)));
    let filters = [None, Some(FilterId(8))];
    assert_eq!(move_filter_selection(&filters, None, 1), Some(FilterId(8)));

    let favorites = [
        triginta::app::FavoriteItemKind::Project(ProjectId(2)),
        triginta::app::FavoriteItemKind::Tag(TagId(3)),
    ];
    assert_eq!(
        move_favorite_selection(&favorites, None, 1),
        Some(triginta::app::FavoriteItemKind::Tag(TagId(3)))
    );
    assert_eq!(
        move_favorite_selection(&favorites, Some(favorites[1]), -1),
        Some(favorites[0])
    );
    assert_eq!(move_favorite_selection(&[], Some(favorites[1]), -1), None);

    let views = [TaskView::All, TaskView::Inbox, TaskView::Today, TaskView::Soon];
    assert_eq!(move_task_view_selection(&views, TaskView::Inbox, 2), TaskView::Soon);
    assert_eq!(move_task_view_selection(&[], TaskView::Inbox, 2), TaskView::Inbox);
}
