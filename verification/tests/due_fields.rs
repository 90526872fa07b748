use triginta::app::TaskEditorField;
use triginta::domain::{CalendarDate, ProjectId, TaskDue};
use triginta::due_fields::{due_day_from_editor, due_from_editor};
use triginta::task_editor::{LineInput, TaskEditorState};
use triginta::text_area::TextArea;

fn line(text: &str) -> LineInput {
    let value: Vec<char> = text.chars().collect();
    let cursor = value.len();
    LineInput { value, cursor }
}

fn editor(date: &str, time: &str, recurrence: &str, natural: &str) -> TaskEditorState {
    TaskEditorState {
        task_id: None,
        title: line("Pay rent"),
        description: TextArea { value: Vec::new(), cursor: 0, scroll: 0 },
        project: line(""),
        project_id: ProjectId(1),
        tags: line(""),
        suggestion_index: 0,
        due_date: line(date),
        priority: line(""),
        due_time: line(time),
        recurrence: line(recurrence),
        parent: line(""),
        parent_task_id: None,
        due_natural: natural.chars().collect(),
        due_from_title: false,
        focused_field: TaskEditorField::Title,
        calendar: None,
    }
}

fn monthly(date: CalendarDate) -> TaskDue {
    TaskDue {
        date,
        datetime: None,
        timezone: Some("Europe/Paris".to_string()),
        string: "every month".to_string(),
        is_recurring: true,
    }
}

#[test]
fn blank_due_fields_give_no_due_date() {
    let e = editor("  ", "", " ", "");
    assert_eq!(due_day_from_editor(&e, None, None), Ok(None));
}

#[test]
fn a_time_without_a_date_is_refused() {
    let e = editor("", "09:30", "", "");
    assert_eq!(
        due_day_from_editor(&e, None, None),
        Err("due date is required when a due time is set".to_string())
    );
}

#[test]
fn the_date_field_is_read_as_iso_first() {
    let e = editor(" 2024-03-10 ", "", "", "");
    let day = CalendarDate::from_ymd(2024, 3, 10).unwrap();
    let other = CalendarDate::from_ymd(2030, 1, 1).unwrap();
    assert_eq!(due_day_from_editor(&e, None, Some(other)), Ok(Some((day, None))));
    let due = due_from_editor(&e, day, None, None, None).unwrap();
    assert_eq!(due.string, "2024-03-10");
    assert_eq!(due.datetime, None);
    assert!(!due.is_recurring);
}

#[test]
fn an_unreadable_date_names_the_text() {
    let e = editor("someday", "", "", "");
    assert_eq!(due_day_from_editor(&e, None, None), Err("invalid due date: someday".to_string()));
    let day = CalendarDate::from_ymd(2024, 5, 1).unwrap();
    assert_eq!(due_day_from_editor(&e, None, Some(day)), Ok(Some((day, None))));
}

#[test]
fn a_recurrence_must_recur_and_gives_the_day() {
    let e = editor("", "", "every month", "");
    let day = CalendarDate::from_ymd(2024, 4, 1).unwrap();
    let mut once = monthly(day);
    once.is_recurring = false;
    assert_eq!(
        due_day_from_editor(&e, Some(once), None),
        Err("recurring pattern must use a Todoist-style recurring phrase".to_string())
    );
    assert_eq!(due_day_from_editor(&e, Some(monthly(day)), None), Ok(Some((day, Some(monthly(day))))));
    let due = due_from_editor(&e, day, Some(monthly(day)), None, None).unwrap();
    assert_eq!(due.string, "every month");
    assert_eq!(due.timezone, Some("Europe/Paris".to_string()));
    assert!(due.is_recurring);
}

#[test]
fn a_typed_time_gives_the_moment_and_the_local_zone() {
    let e = editor("2024-03-10", "9:30", "", "");
    let day = CalendarDate::from_ymd(2024, 3, 10).unwrap();
    assert_eq!(
        due_from_editor(&e, day, None, None, None),
        Err("invalid due time: 9:30".to_string())
    );
    let due = due_from_editor(
        &e,
        day,
        None,
        Some((1_710_063_000_000, "09:30".to_string())),
        Some("UTC".to_string()),
    )
    .unwrap();
    assert_eq!(due.datetime, Some(1_710_063_000_000));
    assert_eq!(due.timezone, Some("UTC".to_string()));
    assert_eq!(due.string, "2024-03-10 at 09:30");
}

#[test]
fn the_phrase_typed_wins_as_the_text() {
    let e = editor("2024-03-10", "", "", "  next sunday ");
    let day = CalendarDate::from_ymd(2024, 3, 10).unwrap();
    assert_eq!(due_from_editor(&e, day, None, None, None).unwrap().string, "next sunday");
}
