use triginta::domain::{CalendarDate, ProjectId, Task, TaskDue, TaskId, TaskPriority, TaskStatus};
use triginta::filters::{evaluate, parse_and_validate, FilterExpr, FilterTerm};

fn sample_task(
    title: &str,
    status: TaskStatus,
    priority: TaskPriority,
    due: Option<TaskDue>,
) -> Task {
    Task {
        id: TaskId(1),
        project_id: ProjectId(1),
        parent_task_id: None,
        child_order: 1,
        title: title.to_string(),
        description: String::new(),
        status,
        priority,
        created_at: chrono::Local::now().timestamp_millis(),
        completed_at: None,
        deleted_at: None,
        due,
    }
}

fn day(year: i32, month: u32, day: u32) -> CalendarDate {
    CalendarDate::from_ymd(year, month, day).expect("valid date")
}

#[test]
fn parser_rejects_unsupported_terms() {
    let error = parse_and_validate("assignee:me").expect_err("term should be rejected");
    assert!(error.message.contains("unsupported"));
}

#[test]
fn evaluator_supports_boolean_expressions() {
    let expr = parse_and_validate("@Work & (today | p1)").expect("query should parse");
    let today = day(2026, 4, 14);
    let task = sample_task(
        "Write release notes",
        TaskStatus::Todo,
        TaskPriority::P4,
        Some(TaskDue {
            date: today,
            datetime: None,
            timezone: None,
            string: "today".to_string(),
            is_recurring: false,
        }),
    );
    assert!(evaluate(&expr, &task, today, Some("Inbox"), &["Work", "Focus"],));
}

#[test]
fn evaluator_applies_negation() {
    let expr = parse_and_validate("!completed & @Work").expect("query should parse");
    let today = day(2026, 4, 14);
    let task = sample_task("Task", TaskStatus::Todo, TaskPriority::P4, None);
    assert!(evaluate(&expr, &task, today, Some("Inbox"), &["Work"]));
}

#[test]
fn parser_reports_each_error_message() {
    let cases = [
        ("", "query cannot be empty"),
        ("   ", "query cannot be empty"),
        ("\"abc", "unterminated string in query"),
        ("\"  \"", "empty quoted term in query"),
        ("@", "tag term cannot be empty"),
        ("#  ", "project term cannot be empty"),
        ("p7", "unsupported priority term: p7"),
        ("search:", "search term cannot be empty"),
        ("tag:", "missing value for term: tag:"),
        ("status:maybe", "unsupported status value: maybe"),
        ("due:later", "unsupported due value: later"),
        ("priority:9", "unsupported priority value: 9"),
        ("assignee:me", "unsupported term: assignee:me"),
        ("frobnicate", "unsupported term: frobnicate"),
        ("(today", "missing closing ')' in query"),
        (")", "unexpected ')' in query"),
        ("& today", "operator without left term"),
        ("today |", "query ended unexpectedly"),
        ("today )", "unexpected trailing tokens in query"),
        ("\u{0B}", "empty term in query"),
    ];
    for (query, message) in cases {
        let error = parse_and_validate(query).expect_err(query);
        assert_eq!(error.message, message, "query {query:?}");
    }
}

#[test]
fn parser_builds_expected_trees() {
    let expr = parse_and_validate("today and p1 or !overdue").expect("query should parse");
    match expr {
        FilterExpr::Or(left, right) => {
            assert!(matches!(*left, FilterExpr::And(_, _)));
            assert!(matches!(*right, FilterExpr::Not(_)));
        }
        _ => panic!("expected an alternation at the top"),
    }
    let implicit = parse_and_validate("today p2").expect("implicit conjunction should parse");
    assert!(matches!(implicit, FilterExpr::And(_, _)));
    assert_eq!(
        parse_and_validate("Search:x").expect_err("prefix is case sensitive").message,
        "unsupported term: Search:x"
    );
    assert_eq!(
        parse_and_validate("  Search:  x").expect_err("a key alone has no value").message,
        "missing value for term: Search:"
    );
    match parse_and_validate("search:  Foo Bar ").err() {
        Some(e) => assert_eq!(e.message, "search term cannot be empty"),
        None => panic!("an unquoted search stops at the first space"),
    }
    match parse_and_validate("\"search:  Foo Bar \"").expect("quoted search should parse") {
        FilterExpr::Term(FilterTerm::Search(s)) => assert_eq!(s, "Foo Bar"),
        _ => panic!("expected a search term"),
    }
    match parse_and_validate("P+3").expect("plus sign is accepted by u8 parsing") {
        FilterExpr::Term(FilterTerm::Priority(p)) => assert_eq!(p, TaskPriority::P3),
        _ => panic!("expected a priority term"),
    }
    match parse_and_validate("NoDate").expect("no date") {
        FilterExpr::Term(FilterTerm::NoDue) => {}
        _ => panic!("expected no-due"),
    }
}

#[test]
fn evaluator_covers_due_and_search_terms() {
    let today = day(2026, 4, 14);
    let yesterday = day(2026, 4, 13);
    let due = |date| {
        Some(TaskDue {
            date,
            datetime: None,
            timezone: None,
            string: String::new(),
            is_recurring: false,
        })
    };
    let overdue = sample_task("Pay Rent", TaskStatus::Todo, TaskPriority::P2, due(yesterday));
    let overdue_query = parse_and_validate("overdue & search:rent").expect("parse");
    assert!(evaluate(&overdue_query, &overdue, today, None, &[]));
    let today_query = parse_and_validate("due:today").expect("parse");
    assert!(!evaluate(&today_query, &overdue, today, None, &[]));
    let project_query = parse_and_validate("#inbox").expect("parse");
    assert!(evaluate(&project_query, &overdue, today, Some("Inbox"), &[]));
    assert!(!evaluate(&project_query, &overdue, today, None, &[]));
    let none_query = parse_and_validate("no_date | priority:2").expect("parse");
    assert!(evaluate(&none_query, &overdue, today, None, &[]));
}

#[test]
fn accepted_terms_name_trimmed_texts() {
    match parse_and_validate("\"@  deep work \" & \"tag:  home \"").expect("query should parse") {
        FilterExpr::And(left, right) => {
            assert_eq!(*left, FilterExpr::Term(FilterTerm::Tag("deep work".to_string())));
            assert_eq!(*right, FilterExpr::Term(FilterTerm::Tag("home".to_string())));
        }
        other => panic!("unexpected expression: {other:?}"),
    }
}

#[test]
fn operator_only_queries_are_refused() {
    for query in ["&", "| ,", "and", "!"] {
        assert!(parse_and_validate(query).is_err(), "{query} should be refused");
    }
}
