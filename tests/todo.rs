use koto::todo::{parse_priority_token, Priority};

#[test]
fn priority_from_level() {
    assert_eq!(Priority::from_level(1), Priority::High);
    assert_eq!(Priority::from_level(2), Priority::Medium);
    assert_eq!(Priority::from_level(3), Priority::Low);
    assert_eq!(Priority::from_level(0), Priority::Medium);
    assert_eq!(Priority::from_level(255), Priority::Medium);
}

#[test]
fn priority_tokens() {
    assert_eq!(parse_priority_token("p1"), Some(Priority::High));
    assert_eq!(parse_priority_token("!"), Some(Priority::High));
    assert_eq!(parse_priority_token("hi"), Some(Priority::High));
    assert_eq!(parse_priority_token("p:3"), Some(Priority::Low));
    assert_eq!(parse_priority_token("!!!"), Some(Priority::Low));
    assert_eq!(parse_priority_token("medium"), Some(Priority::Medium));
    assert_eq!(parse_priority_token("!!"), Some(Priority::Medium));
    assert_eq!(parse_priority_token("HIGH"), None);
    assert_eq!(parse_priority_token("urgent"), None);
    assert_eq!(parse_priority_token(""), None);
}
