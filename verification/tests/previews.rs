use triginta::app::{PreviewLineView, TaskDuePreviewView, TaskEditorField};
use triginta::domain::{CalendarDate, TaskPriority};
use triginta::previews::{task_editor_preview_panel, task_input_preview_panel, DuePreviewText};

fn kv(label: &str, value: &str) -> PreviewLineView {
    PreviewLineView::KeyValue {
        label: label.to_string(),
        value: value.to_string(),
        emphasized: false,
        dimmed: false,
    }
}

fn due_of(string: &str, with_time: bool, recurring: bool) -> TaskDuePreviewView {
    TaskDuePreviewView {
        date: CalendarDate { day_number: 739_000 },
        datetime: if with_time { Some(1_776_265_200_000) } else { None },
        string: string.to_string(),
        is_recurring: recurring,
    }
}

fn text(time: Option<&str>) -> DuePreviewText {
    DuePreviewText { date: "2026-04-15".to_string(), time: time.map(|t| t.to_string()) }
}

#[test]
fn input_preview_lists_due_date_time_and_source_words() {
    let due = due_of("tomorrow at 3pm", true, false);
    let panel = task_input_preview_panel(false, "Inbox", &[], TaskPriority::P4, Some(&due), &text(Some("15:00")));
    assert_eq!(panel.tips, vec!["Press # for selecting a project".to_string()]);
    assert_eq!(
        panel.preview_lines,
        vec![
            kv("Due Date", "2026-04-15"),
            kv("Due Time", "15:00"),
            kv("Recurring", "no"),
            PreviewLineView::KeyValue {
                label: "From".to_string(),
                value: "tomorrow at 3pm".to_string(),
                emphasized: false,
                dimmed: true,
            },
        ]
    );
    let plain = due_of("2026-04-15", false, true);
    let panel = task_input_preview_panel(false, "Inbox", &[], TaskPriority::P4, Some(&plain), &text(None));
    assert_eq!(
        panel.preview_lines,
        vec![kv("Due Date", "2026-04-15"), kv("Recurring", "yes")]
    );
}

#[test]
fn input_preview_shows_tags_and_priority_only_when_set() {
    let tags = vec!["work".to_string(), " deep work ".to_string()];
    let panel = task_input_preview_panel(true, "Home", &tags, TaskPriority::P2, None, &text(None));
    assert_eq!(
        panel.preview_lines,
        vec![kv("Project", "Home"), kv("Tags", "@work @deep work"), kv("Priority", "P2")]
    );
    let panel = task_input_preview_panel(false, "Home", &[], TaskPriority::P4, None, &text(None));
    assert!(panel.preview_lines.is_empty());
}

#[test]
fn editor_preview_sums_up_fields_and_switches_tip() {
    let panel = task_editor_preview_panel("Inbox", "  @a @b ", TaskPriority::P4, None, &text(None), " ", TaskEditorField::Title);
    assert_eq!(
        panel.preview_lines,
        vec![kv("Project", "Inbox"), kv("Tags", "@a @b"), kv("Summary", "no due date")]
    );
    assert_eq!(panel.tips, vec!["Press # for selecting a project".to_string()]);

    let due = due_of("every monday", false, true);
    let panel = task_editor_preview_panel("Home", "", TaskPriority::P1, Some(&due), &text(None), " Parent task ", TaskEditorField::DueDate);
    assert_eq!(
        panel.preview_lines,
        vec![
            kv("Project", "Home"),
            kv("Priority", "P1"),
            PreviewLineView::KeyValue {
                label: "Summary".to_string(),
                value: "every monday".to_string(),
                emphasized: true,
                dimmed: false,
            },
            kv("Date", "2026-04-15"),
            kv("Time", "-"),
            kv("Recurring", "yes"),
            kv("Parent", "Parent task"),
        ]
    );
    assert_eq!(panel.tips, vec!["Type YYYY-MM-DD or use F10 to pick from calendar".to_string()]);
    let panel = task_editor_preview_panel("Home", "", TaskPriority::P4, None, &text(None), "", TaskEditorField::Recurrence);
    assert_eq!(panel.tips, vec!["Type recurrence phrases like: every monday at 9am".to_string()]);
}
