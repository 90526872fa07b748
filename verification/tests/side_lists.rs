use triginta::app::{FavoriteItemKind, ScreenData, TaskView};
use triginta::config::{FilterSortOrder, ProjectSortOrder, TagSortOrder};
use triginta::domain::{
    CalendarDate, Filter, FilterColor, FilterId, Project, ProjectColor, ProjectId, Tag, TagColor,
    TagId, Task, TaskId, TaskPriority, TaskStatus,
};
use triginta::project_tree::ProjectCountScope;
use triginta::side_lists::{
    favorite_rows, filters_rows, has_user_filters, has_user_tags, navigation_task_views,
    tags_rows,
};

fn counts() -> ProjectCountScope {
    ProjectCountScope {
        view: TaskView::All,
        today: CalendarDate { day_number: 739_000 },
        hide_completed: true,
    }
}

fn project(id: i64, name: &str, parent: Option<i64>, favorite: bool, inbox: bool) -> Project {
    Project {
        id: ProjectId(id),
        name: name.to_string(),
        parent_project_id: parent.map(ProjectId),
        color: ProjectColor::Blue,
        is_favorite: favorite,
        is_inbox: inbox,
        child_order: 0,
        created_at: 0,
        deleted_at: None,
    }
}

fn tag(id: i64, name: &str, order: i64, favorite: bool) -> Tag {
    Tag {
        id: TagId(id),
        name: name.to_string(),
        color: TagColor::Red,
        is_favorite: favorite,
        item_order: order,
        created_at: 0,
        deleted_at: None,
    }
}

fn filter(id: i64, name: &str, query: &str, favorite: bool) -> Filter {
    Filter {
        id: FilterId(id),
        name: name.to_string(),
        query: query.to_string(),
        color: FilterColor::Orange,
        is_favorite: favorite,
        item_order: id,
        created_at: 0,
        deleted_at: None,
    }
}

fn task(id: i64, project: i64) -> Task {
    Task {
        id: TaskId(id),
        project_id: ProjectId(project),
        parent_task_id: None,
        child_order: 0,
        title: format!("Task {id}"),
        description: String::new(),
        status: TaskStatus::Todo,
        priority: TaskPriority::P4,
        created_at: id,
        completed_at: None,
        deleted_at: None,
        due: None,
    }
}

#[test]
fn favorites_rows_are_grouped_by_type_and_projects_are_flat() {
    let mut data = ScreenData::default();
    data.projects = vec![
        project(1, "Inbox", None, false, true),
        project(2, "Alpha Parent", None, true, false),
        project(3, "Beta Child", Some(2), true, false),
    ];
    data.tags = vec![tag(1, "Urgent", 0, true)];
    data.filters = vec![filter(1, "Today", "today", true)];

    let rows = favorite_rows(
        &data,
        ProjectSortOrder::NameAsc,
        TagSortOrder::Manual,
        FilterSortOrder::Manual,
        &counts(),
        None,
        "",
    );
    assert_eq!(rows.len(), 4);
    assert_eq!(rows[0].item, FavoriteItemKind::Project(ProjectId(2)));
    assert_eq!(rows[0].name, "Alpha Parent");
    assert_eq!(rows[1].item, FavoriteItemKind::Project(ProjectId(3)));
    assert_eq!(rows[1].name, "Beta Child");
    assert_eq!(rows[2].item, FavoriteItemKind::Tag(TagId(1)));
    assert_eq!(rows[3].item, FavoriteItemKind::Filter(FilterId(1)));
}

#[test]
fn favorites_search_keeps_matching_names() {
    let mut data = ScreenData::default();
    data.projects = vec![project(2, "Alpha", None, true, false)];
    data.tags = vec![tag(1, "BravoTag", 0, true)];
    data.filters = vec![filter(1, "Today Filter", "today", true)];
    let rows = favorite_rows(
        &data,
        ProjectSortOrder::Manual,
        TagSortOrder::Manual,
        FilterSortOrder::Manual,
        &counts(),
        Some(FavoriteItemKind::Tag(TagId(1))),
        "brv",
    );
    assert_eq!(rows.len(), 1);
    assert_eq!(rows[0].name, "BravoTag");
    assert!(rows[0].is_selected);
}

#[test]
fn tag_panel_sorts_counts_and_searches() {
    let mut data = ScreenData::default();
    data.projects = vec![project(1, "Inbox", None, false, true)];
    data.tasks = vec![task(1, 1), task(2, 1), task(3, 1)];
    data.tags = vec![tag(1, "work", 2, false), tag(2, "Home", 1, false), tag(3, "errand", 0, false)];
    data.tags[2].deleted_at = Some(1);
    data.task_tag_links = vec![(TaskId(1), TagId(1)), (TaskId(2), TagId(1)), (TaskId(3), TagId(2))];

    let manual = tags_rows(&data, TagSortOrder::Manual, &counts(), Some(TagId(1)), "");
    let names: Vec<&str> = manual.iter().map(|r| r.name.as_str()).collect();
    assert_eq!(names, vec!["All Tags", "Home", "work"]);
    assert_eq!(manual[0].task_count, 3);
    assert_eq!(manual[1].task_count, 1);
    assert_eq!(manual[2].task_count, 2);
    assert!(manual[2].is_selected && !manual[0].is_selected);

    let by_count = tags_rows(&data, TagSortOrder::TaskCountDesc, &counts(), None, "");
    let names: Vec<&str> = by_count.iter().map(|r| r.name.as_str()).collect();
    assert_eq!(names, vec!["All Tags", "work", "Home"]);

    let desc = tags_rows(&data, TagSortOrder::NameDesc, &counts(), None, "");
    let names: Vec<&str> = desc.iter().map(|r| r.name.as_str()).collect();
    assert_eq!(names, vec!["All Tags", "work", "Home"]);

    let searched = tags_rows(&data, TagSortOrder::NameAsc, &counts(), None, "hm");
    let names: Vec<&str> = searched.iter().map(|r| r.name.as_str()).collect();
    assert_eq!(names, vec!["Home"]);
    assert!(has_user_tags(&data));
}

#[test]
fn filter_panel_lists_queries_and_counts() {
    let mut data = ScreenData::default();
    data.projects = vec![project(1, "Inbox", None, false, true)];
    let mut urgent = task(1, 1);
    urgent.priority = TaskPriority::P1;
    data.tasks = vec![urgent, task(2, 1)];
    data.filters = vec![filter(2, "Urgent", "p1", false), filter(1, "Broken", "assignee:me", false)];
    let rows = filters_rows(&data, FilterSortOrder::Manual, &counts(), None, "");
    let names: Vec<&str> = rows.iter().map(|r| r.name.as_str()).collect();
    assert_eq!(names, vec!["All Filters", "Broken", "Urgent"]);
    assert_eq!(rows[0].query, None);
    assert_eq!(rows[0].task_count, 2);
    assert_eq!(rows[1].task_count, 0);
    assert_eq!(rows[2].query.as_deref(), Some("p1"));
    assert_eq!(rows[2].task_count, 1);
    assert!(rows[0].is_selected);
    assert!(has_user_filters(&data));
    assert!(!has_user_filters(&ScreenData::default()));
}

#[test]
fn navigation_views_follow_the_search() {
    assert_eq!(
        navigation_task_views(""),
        vec![TaskView::All, TaskView::Inbox, TaskView::Today, TaskView::Soon]
    );
    assert_eq!(navigation_task_views("to"), vec![TaskView::Today]);
    assert_eq!(navigation_task_views("n"), vec![TaskView::Inbox, TaskView::Soon]);
}
