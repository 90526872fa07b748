use triginta::domain::{
    CalendarDate, FilterColor, ProjectColor, SessionKind, SessionOutcome, TagColor, TaskPriority,
    TaskStatus,
};

#[test]
fn calendar_dates_follow_the_calendar() {
    let first = CalendarDate::from_ymd(1, 1, 1).expect("first day exists");
    assert_eq!(first.day_number, 1);
    let leap = CalendarDate::from_ymd(2024, 2, 29).expect("leap day exists");
    let next = CalendarDate::from_ymd(2024, 3, 1).expect("next day exists");
    assert_eq!(next.day_number, leap.day_number + 1);
    assert!(leap.is_before(next));
    assert!(!next.is_before(leap));
    assert_eq!(CalendarDate::from_ymd(2023, 2, 29), None);
    assert_eq!(CalendarDate::from_ymd(2023, 13, 1), None);
}

#[test]
fn statuses_round_trip_through_storage() {
    for status in [TaskStatus::Todo, TaskStatus::Done] {
        assert_eq!(TaskStatus::from_db(status.as_str()), status);
    }
    assert_eq!(TaskStatus::from_db("archived"), TaskStatus::Todo);
}

#[test]
fn priorities_round_trip_and_default_to_p4() {
    for priority in [TaskPriority::P1, TaskPriority::P2, TaskPriority::P3, TaskPriority::P4] {
        assert_eq!(TaskPriority::from_db(priority.to_db()), priority);
        assert_eq!(TaskPriority::from_level(priority.level()), priority);
    }
    assert_eq!(TaskPriority::from_db(9), TaskPriority::P4);
    assert_eq!(TaskPriority::from_level(0), TaskPriority::P4);
    assert_eq!(TaskPriority::default(), TaskPriority::P4);
    assert_eq!(TaskPriority::P2.label(), "P2");
}

#[test]
fn session_names_round_trip_and_fall_back() {
    for kind in [SessionKind::Focus, SessionKind::ShortBreak, SessionKind::LongBreak] {
        assert_eq!(SessionKind::from_db(kind.as_str()), kind);
    }
    for outcome in [SessionOutcome::Completed, SessionOutcome::Voided] {
        assert_eq!(SessionOutcome::from_db(outcome.as_str()), outcome);
    }
    assert_eq!(SessionKind::from_db("nap"), SessionKind::Focus);
    assert_eq!(SessionOutcome::from_db("lost"), SessionOutcome::Completed);
}

#[test]
fn colours_round_trip_and_unknown_is_charcoal() {
    for colour in ProjectColor::all() {
        assert_eq!(ProjectColor::from_db(colour.as_str()), *colour);
    }
    for colour in TagColor::all() {
        assert_eq!(TagColor::from_db(colour.as_str()), *colour);
    }
    for colour in FilterColor::all() {
        assert_eq!(FilterColor::from_db(colour.as_str()), *colour);
    }
    assert_eq!(ProjectColor::from_db("ultraviolet"), ProjectColor::Charcoal);
    assert_eq!(ProjectColor::BerryRed.as_str(), "berry_red");
    assert_eq!(ProjectColor::BerryRed.label(), "Berry Red");
    assert_eq!(ProjectColor::all().len(), 20);
}
