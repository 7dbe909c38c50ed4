use koto::timestamp::parse_github_datetime_to_unix;

#[test]
fn parses_utc_timestamp() {
    assert_eq!(parse_github_datetime_to_unix("2024-03-15T10:30:00Z"), Some(1_710_498_600));
    assert_eq!(parse_github_datetime_to_unix("1970-01-01T00:00:00Z"), Some(0));
}

#[test]
fn fraction_is_truncated() {
    assert_eq!(parse_github_datetime_to_unix("2024-03-15T10:30:00.123Z"), Some(1_710_498_600));
    assert_eq!(parse_github_datetime_to_unix("2024-03-15T10:30:00.999999Z"), Some(1_710_498_600));
}

#[test]
fn non_utc_offset_rejected() {
    assert_eq!(parse_github_datetime_to_unix("2024-03-15T10:30:00+02:00"), None);
    assert_eq!(parse_github_datetime_to_unix("2024-03-15T10:30:00"), None);
    assert_eq!(parse_github_datetime_to_unix("2024-03-15T10:30:00Zx"), None);
}

#[test]
fn surrounding_white_space_ignored() {
    assert_eq!(parse_github_datetime_to_unix("  2024-03-15T10:30:00Z\n"), Some(1_710_498_600));
}

#[test]
fn malformed_timestamps_rejected() {
    assert_eq!(parse_github_datetime_to_unix(""), None);
    assert_eq!(parse_github_datetime_to_unix("Z"), None);
    assert_eq!(parse_github_datetime_to_unix("2024/03/15T10:30:00Z"), None);
    assert_eq!(parse_github_datetime_to_unix("2024-03-15 10:30:00Z"), None);
    assert_eq!(parse_github_datetime_to_unix("2024-3-15T10:30:00Z"), None);
    assert_eq!(parse_github_datetime_to_unix("2024-13-15T10:30:00Z"), None);
    assert_eq!(parse_github_datetime_to_unix("2024-03-32T10:30:00Z"), None);
    assert_eq!(parse_github_datetime_to_unix("2024-03-15T1a:30:00Z"), None);
    assert_eq!(parse_github_datetime_to_unix("2024-03-15T10:30:00ZZ"), None);
}

#[test]
fn fields_follow_integer_syntax() {
    // A leading plus sign is accepted by integer parsing, a minus only for the year.
    assert_eq!(parse_github_datetime_to_unix("2024-+3-15T10:30:00Z"), Some(1_710_498_600));
    assert_eq!(parse_github_datetime_to_unix("2024--3-15T10:30:00Z"), None);
    // Hours are not range-checked.
    assert_eq!(parse_github_datetime_to_unix("1970-01-01T25:00:00Z"), Some(90_000));
}
