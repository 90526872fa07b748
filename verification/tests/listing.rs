use triginta::app::{ScreenData, TaskView};
use triginta::config::TaskSortOrder;
use triginta::domain::{
    CalendarDate, Filter, FilterColor, FilterId, Project, ProjectColor, ProjectId, Tag, TagColor,
    TagId, Task, TaskDue, TaskId, TaskPriority, TaskStatus,
};
use triginta::listing::{
    project_is_in_subtree, task_count_for_view, task_is_visible, tasks_for_filter,
    tasks_for_project_filter, tasks_for_tag_filter, TaskListScope,
};
use triginta::task_order::{task_list_rows, visible_task_roots, visible_task_rows};

fn day(n: i32) -> CalendarDate {
    CalendarDate { day_number: n }
}

fn project(id: i64, name: &str, parent: Option<i64>, inbox: bool, deleted: bool) -> Project {
    Project {
        id: ProjectId(id),
        name: name.to_string(),
        parent_project_id: parent.map(ProjectId),
        color: ProjectColor::Blue,
        is_favorite: false,
        is_inbox: inbox,
        child_order: id,
        created_at: 0,
        deleted_at: if deleted { Some(5) } else { None },
    }
}

fn task(id: i64, project: i64, title: &str, due: Option<i32>) -> Task {
    Task {
        id: TaskId(id),
        project_id: ProjectId(project),
        parent_task_id: None,
        child_order: 0,
        title: title.to_string(),
        description: String::new(),
        status: TaskStatus::Todo,
        priority: TaskPriority::P4,
        created_at: id * 10,
        completed_at: None,
        deleted_at: None,
        due: due.map(|d| TaskDue {
            date: day(d),
            datetime: None,
            timezone: None,
            string: String::new(),
            is_recurring: false,
        }),
    }
}

fn sample() -> ScreenData {
    let mut data = ScreenData::default();
    data.projects = vec![
        project(1, "Inbox", None, true, false),
        project(2, "Work", None, false, false),
        project(3, "Client", Some(2), false, false),
        project(4, "Old", None, false, true),
    ];
    let mut done = task(5, 2, "Finished report", Some(100));
    done.status = TaskStatus::Done;
    let mut urgent = task(6, 3, "call client", Some(101));
    urgent.priority = TaskPriority::P1;
    data.tasks = vec![
        task(1, 1, "Inbox task", None),
        task(2, 2, "Today task", Some(100)),
        task(3, 3, "Soon task", Some(105)),
        task(4, 4, "Orphaned by deletion", Some(100)),
        done,
        urgent,
    ];
    data.tags = vec![Tag {
        id: TagId(1),
        name: "Work".to_string(),
        color: TagColor::Red,
        is_favorite: false,
        item_order: 0,
        created_at: 0,
        deleted_at: None,
    }];
    data.task_tag_links = vec![(TaskId(2), TagId(1)), (TaskId(6), TagId(1))];
    data.filters = vec![
        Filter {
            id: FilterId(1),
            name: "Work only".to_string(),
            query: "@work & !p1".to_string(),
            color: FilterColor::Green,
            is_favorite: false,
            item_order: 0,
            created_at: 0,
            deleted_at: None,
        },
        Filter {
            id: FilterId(2),
            name: "Broken".to_string(),
            query: "assignee:me".to_string(),
            color: FilterColor::Green,
            is_favorite: false,
            item_order: 1,
            created_at: 0,
            deleted_at: None,
        },
    ];
    data
}

fn scope(view: TaskView) -> TaskListScope {
    TaskListScope {
        view,
        selected_project: None,
        selected_tag: None,
        selected_filter: None,
        hide_completed: true,
        today: day(100),
    }
}

#[test]
fn views_count_tasks_by_due_day_and_inbox() {
    let data = sample();
    let count = |view| task_count_for_view(&data.tasks, &data.projects, view, day(100), true);
    assert_eq!(count(TaskView::All), 4);
    assert_eq!(count(TaskView::Inbox), 1);
    assert_eq!(count(TaskView::Today), 1);
    assert_eq!(count(TaskView::Soon), 2);
    assert_eq!(
        task_count_for_view(&data.tasks, &data.projects, TaskView::Today, day(100), false),
        2
    );
}

#[test]
fn project_subtrees_follow_parents() {
    let data = sample();
    assert!(project_is_in_subtree(&data.projects, ProjectId(3), ProjectId(2)));
    assert!(project_is_in_subtree(&data.projects, ProjectId(2), ProjectId(2)));
    assert!(!project_is_in_subtree(&data.projects, ProjectId(2), ProjectId(3)));
    assert!(!project_is_in_subtree(&data.projects, ProjectId(9), ProjectId(2)));
    assert_eq!(
        tasks_for_project_filter(&data, Some(ProjectId(2)), TaskView::All, day(100), true),
        3
    );
    assert_eq!(
        tasks_for_project_filter(&data, Some(ProjectId(3)), TaskView::All, day(100), true),
        2
    );
    assert_eq!(tasks_for_project_filter(&data, None, TaskView::All, day(100), true), 4);
}

#[test]
fn tag_and_saved_filter_counts() {
    let data = sample();
    assert_eq!(tasks_for_tag_filter(&data, Some(TagId(1)), TaskView::All, day(100), true), 2);
    assert_eq!(tasks_for_filter(&data, Some(FilterId(1)), TaskView::All, day(100), true), 1);
    assert_eq!(tasks_for_filter(&data, Some(FilterId(2)), TaskView::All, day(100), true), 0);
    assert_eq!(tasks_for_filter(&data, Some(FilterId(9)), TaskView::All, day(100), true), 0);
    assert_eq!(tasks_for_filter(&data, None, TaskView::All, day(100), true), 4);
}

#[test]
fn selected_filter_narrows_the_visible_tasks() {
    let data = sample();
    let mut narrowed = scope(TaskView::All);
    narrowed.selected_filter = Some(FilterId(1));
    let visible: Vec<i64> = data
        .tasks
        .iter()
        .filter(|t| task_is_visible(&data, t, &narrowed))
        .map(|t| t.id.0)
        .collect();
    assert_eq!(visible, vec![2]);
    narrowed.selected_filter = Some(FilterId(2));
    assert!(!data.tasks.iter().any(|t| task_is_visible(&data, t, &narrowed)));
}

#[test]
fn roots_are_sorted_by_the_chosen_order() {
    let data = sample();
    let all = scope(TaskView::All);
    let ids = |order| -> Vec<i64> {
        visible_task_roots(&data, &all, order, "")
            .into_iter()
            .map(|pos| data.tasks[pos].id.0)
            .collect()
    };
    assert_eq!(ids(TaskSortOrder::DueAsc), vec![2, 6, 3, 1]);
    assert_eq!(ids(TaskSortOrder::DueDesc), vec![3, 6, 2, 1]);
    assert_eq!(ids(TaskSortOrder::TitleAsc), vec![6, 1, 3, 2]);
    assert_eq!(ids(TaskSortOrder::TitleDesc), vec![2, 3, 1, 6]);
    assert_eq!(ids(TaskSortOrder::CreatedNewest), vec![6, 3, 2, 1]);
    assert_eq!(ids(TaskSortOrder::CreatedOldest), vec![1, 2, 3, 6]);
    assert_eq!(ids(TaskSortOrder::PriorityHigh), vec![6, 2, 3, 1]);
    assert_eq!(ids(TaskSortOrder::PriorityLow), vec![2, 3, 1, 6]);
    let searched: Vec<i64> = visible_task_roots(&data, &all, TaskSortOrder::DueAsc, "tsk")
        .into_iter()
        .map(|pos| data.tasks[pos].id.0)
        .collect();
    assert_eq!(searched, vec![2, 3, 1]);
}

#[test]
fn expanded_tasks_show_their_children_in_order() {
    let mut data = sample();
    let mut first = task(7, 2, "Second step", None);
    first.parent_task_id = Some(TaskId(2));
    first.child_order = 2;
    let mut second = task(8, 2, "First step", None);
    second.parent_task_id = Some(TaskId(2));
    second.child_order = 1;
    let mut grandchild = task(9, 2, "Detail", None);
    grandchild.parent_task_id = Some(TaskId(8));
    data.tasks.push(first);
    data.tasks.push(second);
    data.tasks.push(grandchild);
    let all = scope(TaskView::All);

    let collapsed = visible_task_rows(&data, &all, TaskSortOrder::DueAsc, "", &[]);
    assert_eq!(collapsed.len(), 4);

    let rows: Vec<(usize, i64)> =
        visible_task_rows(&data, &all, TaskSortOrder::DueAsc, "", &[TaskId(2), TaskId(8)])
            .into_iter()
            .map(|(depth, pos)| (depth, data.tasks[pos].id.0))
            .collect();
    assert_eq!(rows, vec![(0, 2), (1, 8), (2, 9), (1, 7), (0, 6), (0, 3), (0, 1)]);

    let drawn = task_list_rows(&data, &all, TaskSortOrder::DueAsc, "", &[TaskId(2)]);
    assert_eq!(drawn[0].task_id, TaskId(2));
    assert!(drawn[0].has_children && drawn[0].is_expanded);
    assert_eq!(drawn[1].task_id, TaskId(8));
    assert!(drawn[1].has_children && !drawn[1].is_expanded);
    assert_eq!(drawn[2].task_id, TaskId(7));
    assert!(!drawn[2].has_children);
}
