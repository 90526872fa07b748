use triginta::app::{ScreenData, TaskView};
use triginta::completion::{
    collapse_selected_task, expand_selected_task, has_existing_recurring_successor, recurring_successor_due, selection_after_completion,
    toggled_status, toggle_selected_task_status, focus_after_completion,
};
use triginta::domain::{
    CalendarDate, Project, ProjectColor, ProjectId, Task, TaskDue, TaskId, TaskPriority, TaskStatus,
};

fn due(day: i32) -> TaskDue {
    TaskDue {
        date: CalendarDate { day_number: day },
        datetime: None,
        timezone: None,
        string: "every day".to_string(),
        is_recurring: true,
    }
}

fn task(id: i64, title: &str, due_day: Option<i32>) -> Task {
    Task {
        id: TaskId(id),
        project_id: ProjectId(1),
        parent_task_id: None,
        child_order: id,
        title: title.to_string(),
        description: String::new(),
        status: TaskStatus::Todo,
        priority: TaskPriority::P4,
        created_at: id,
        completed_at: None,
        deleted_at: None,
        due: due_day.map(due),
    }
}

fn data() -> ScreenData {
    let mut data = ScreenData::default();
    data.projects = vec![Project {
        id: ProjectId(1),
        name: "Inbox".to_string(),
        parent_project_id: None,
        color: ProjectColor::Charcoal,
        is_favorite: false,
        is_inbox: true,
        child_order: 0,
        created_at: 0,
        deleted_at: None,
    }];
    data.tasks = vec![task(1, "Water plants", Some(100)), task(2, "Water plants", Some(101))];
    data
}

#[test]
fn toggling_stamps_completion() {
    assert_eq!(toggled_status(TaskStatus::Todo, 55), (TaskStatus::Done, Some(55)));
    assert_eq!(toggled_status(TaskStatus::Done, 55), (TaskStatus::Todo, None));
}

#[test]
fn recurring_successor_is_not_duplicated() {
    let data = data();
    let original = &data.tasks[0];
    assert!(has_existing_recurring_successor(&data.tasks, TaskId(1), "Water plants", &due(101)));
    assert!(!has_existing_recurring_successor(&data.tasks, TaskId(2), "Water plants", &due(101)));
    assert!(!has_existing_recurring_successor(&data.tasks, TaskId(1), "Water plant", &due(101)));
    assert_eq!(recurring_successor_due(&data, original, TaskStatus::Done, Some(due(101))), None);
    assert_eq!(
        recurring_successor_due(&data, original, TaskStatus::Done, Some(due(102))),
        Some(due(102))
    );
    assert_eq!(recurring_successor_due(&data, original, TaskStatus::Todo, Some(due(102))), None);
    assert_eq!(recurring_successor_due(&data, original, TaskStatus::Done, None), None);
    let plain = task(3, "Once", None);
    assert_eq!(recurring_successor_due(&data, &plain, TaskStatus::Done, Some(due(102))), None);
}

#[test]
fn selection_follows_the_next_occurrence_when_shown() {
    let data = data();
    let today = CalendarDate { day_number: 101 };
    assert_eq!(selection_after_completion(&data, TaskId(1), TaskId(2), TaskView::Today, today), TaskId(2));
    assert_eq!(
        selection_after_completion(&data, TaskId(1), TaskId(2), TaskView::Today, CalendarDate { day_number: 90 }),
        TaskId(1)
    );
    assert_eq!(selection_after_completion(&data, TaskId(1), TaskId(9), TaskView::All, today), TaskId(1));
}

#[test]
fn expanding_and_collapsing_subtasks() {
    let mut data = data();
    let mut child = task(5, "Buy soil", None);
    child.parent_task_id = Some(TaskId(1));
    data.tasks.push(child.clone());
    let mut expanded: Vec<TaskId> = Vec::new();
    expand_selected_task(&data, Some(&data.tasks[1]), &mut expanded);
    assert!(expanded.is_empty());
    expand_selected_task(&data, Some(&data.tasks[0]), &mut expanded);
    assert_eq!(expanded, vec![TaskId(1)]);
    expand_selected_task(&data, Some(&data.tasks[0]), &mut expanded);
    assert_eq!(expanded, vec![TaskId(1)]);
    expand_selected_task(&data, None, &mut expanded);
    assert_eq!(expanded, vec![TaskId(1)]);

    assert_eq!(collapse_selected_task(Some(&child), &mut expanded), Some(TaskId(1)));
    assert_eq!(expanded, vec![TaskId(1)]);
    assert_eq!(collapse_selected_task(Some(&data.tasks[0]), &mut expanded), None);
    assert!(expanded.is_empty());
    assert_eq!(collapse_selected_task(Some(&data.tasks[0]), &mut expanded), None);
    assert_eq!(collapse_selected_task(None, &mut expanded), None);
}

#[test]
fn app_toggles_selected_task_status() {
    let mut data = data();
    data.tasks = vec![task(1, "Review task flow", None)];
    let toggle = toggle_selected_task_status(&data, Some(&data.tasks[0]), 42, None).unwrap();
    assert_eq!((toggle.status, toggle.completed_at), (TaskStatus::Done, Some(42)));
    assert_eq!(toggle.successor_due, None);
    data.tasks[0].status = toggle.status;
    let toggle = toggle_selected_task_status(&data, Some(&data.tasks[0]), 43, None).unwrap();
    assert_eq!((toggle.status, toggle.completed_at), (TaskStatus::Todo, None));
    assert_eq!(toggle_selected_task_status(&data, None, 43, None), None);
}

#[test]
fn app_completes_recurring_task_and_creates_next_occurrence() {
    let mut data = data();
    data.tasks = vec![task(1, "Review metrics", Some(739_000))];
    let toggle = toggle_selected_task_status(&data, Some(&data.tasks[0]), 42, Some(due(739_001))).unwrap();
    assert_eq!(toggle.status, TaskStatus::Done);
    let next_due = toggle.successor_due.expect("next occurrence should be created");
    assert!(next_due.date.day_number > 739_000);
    data.tasks[0].status = TaskStatus::Done;
    data.tasks.push(task(2, "Review metrics", Some(739_001)));
    let today = CalendarDate { day_number: 739_000 };
    assert_eq!(selection_after_completion(&data, TaskId(1), TaskId(2), TaskView::All, today), TaskId(2));
    assert_eq!(focus_after_completion(Some(TaskId(1)), TaskId(1), TaskId(2)), Some(TaskId(2)));
    assert_eq!(focus_after_completion(Some(TaskId(7)), TaskId(1), TaskId(2)), Some(TaskId(7)));
}

#[test]
fn app_does_not_create_duplicate_recurring_successor() {
    let mut data = data();
    data.tasks = vec![task(1, "Review metrics", Some(739_000)), task(2, "Review metrics", Some(739_001))];
    data.tasks[0].status = TaskStatus::Done;
    let reopened = toggle_selected_task_status(&data, Some(&data.tasks[0]), 42, Some(due(739_001))).unwrap();
    assert_eq!(reopened.status, TaskStatus::Todo);
    assert_eq!(reopened.successor_due, None);
    data.tasks[0].status = TaskStatus::Todo;
    let again = toggle_selected_task_status(&data, Some(&data.tasks[0]), 43, Some(due(739_001))).unwrap();
    assert_eq!(again.status, TaskStatus::Done);
    assert_eq!(again.successor_due, None);
}
