use triginta::domain::TaskPriority;
use triginta::title_tokens::{
    extract_priority_reference, last_priority_token, parse_priority_input, priority_suggestions,
    split_whitespace,
};

#[test]
fn priority_words_name_priorities() {
    assert_eq!(parse_priority_input("p1"), Some(TaskPriority::P1));
    assert_eq!(parse_priority_input(" P3 "), Some(TaskPriority::P3));
    assert_eq!(parse_priority_input("(p2)"), Some(TaskPriority::P2));
    assert_eq!(parse_priority_input("4"), Some(TaskPriority::P4));
    assert_eq!(parse_priority_input("p+2"), Some(TaskPriority::P2));
    assert_eq!(parse_priority_input("p5"), None);
    assert_eq!(parse_priority_input("pp1"), None);
    assert_eq!(parse_priority_input("!!"), None);
    assert_eq!(parse_priority_input("report"), None);
}

#[test]
fn create_popup_parses_priority_token_and_strips_it_from_title() {
    let (title, priority) = extract_priority_reference("Ship report p2");
    assert_eq!(title, "Ship report");
    assert_eq!(priority, TaskPriority::P2);
}

#[test]
fn last_priority_word_wins_and_spaces_collapse() {
    let (title, priority) = extract_priority_reference("  p1 Write   docs p3 today ");
    assert_eq!(title, "Write docs today");
    assert_eq!(priority, TaskPriority::P3);
    assert_eq!(last_priority_token("p1 then p4"), Some(TaskPriority::P4));
    assert_eq!(last_priority_token("no priority here"), None);
    assert_eq!(extract_priority_reference("plain title"), ("plain title".to_string(), TaskPriority::P4));
}

#[test]
fn words_split_on_any_white_space() {
    let words: Vec<String> = split_whitespace(&" a\tbc \n d ".chars().collect::<Vec<_>>())
        .into_iter()
        .map(|w| w.into_iter().collect())
        .collect();
    assert_eq!(words, vec!["a", "bc", "d"]);
}

#[test]
fn priority_suggestions_prefer_prefixes() {
    assert_eq!(priority_suggestions(""), vec!["p1", "p2", "p3", "p4"]);
    assert_eq!(priority_suggestions("P"), vec!["p1", "p2", "p3", "p4"]);
    assert_eq!(priority_suggestions(" p3"), vec!["p3"]);
    assert_eq!(priority_suggestions("2"), vec!["p2"]);
    assert!(priority_suggestions("x").is_empty());
}
