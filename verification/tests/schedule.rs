use dispenser::schedule::{ScheduleError, ScheduleWindow, LAST_QUERY_SECOND};

// 2024-01-01T00:00:00Z
const NEW_YEAR: i64 = 1_704_067_200;
const HOUR: i64 = 3_600;
const DAY: i64 = 86_400;

#[test]
fn invalid_start_expression_is_named() {
    let parsed = ScheduleWindow::parse("not a schedule", "0 0 2 * * *");
    assert!(matches!(parsed, Err(ScheduleError::InvalidStart(ref s)) if s == "not a schedule"));
}

#[test]
fn invalid_stop_expression_is_named() {
    let parsed = ScheduleWindow::parse("0 0 18 * * *", "every day");
    assert!(matches!(parsed, Err(ScheduleError::InvalidStop(ref s)) if s == "every day"));
}

#[test]
fn start_expression_is_looked_at_first() {
    let parsed = ScheduleWindow::parse("nonsense", "more nonsense");
    assert!(matches!(parsed, Err(ScheduleError::InvalidStart(ref s)) if s == "nonsense"));
}

#[test]
fn valid_expressions_parse_and_are_kept() {
    let window = ScheduleWindow::parse("0 0 18 * * *", "0 0 2 * * Mon-Fri").unwrap();
    assert_eq!(window.start_expression(), "0 0 18 * * *");
    assert_eq!(window.stop_expression(), "0 0 2 * * Mon-Fri");
}

#[test]
fn next_boundaries_in_the_evening() {
    let window = ScheduleWindow::parse("0 0 18 * * *", "0 0 2 * * *").unwrap();
    let now = NEW_YEAR + 19 * HOUR;
    assert_eq!(window.next_start(now), Some(NEW_YEAR + DAY + 18 * HOUR));
    assert_eq!(window.next_stop(now), Some(NEW_YEAR + DAY + 2 * HOUR));
}

#[test]
fn next_boundaries_in_the_night() {
    let window = ScheduleWindow::parse("0 0 18 * * *", "0 0 2 * * *").unwrap();
    let now = NEW_YEAR + 3 * HOUR;
    assert_eq!(window.next_start(now), Some(NEW_YEAR + 18 * HOUR));
    assert_eq!(window.next_stop(now), Some(NEW_YEAR + DAY + 2 * HOUR));
}

#[test]
fn a_boundary_is_strictly_after_now() {
    let window = ScheduleWindow::parse("0 0 18 * * *", "0 0 2 * * *").unwrap();
    let now = NEW_YEAR + 18 * HOUR;
    assert_eq!(window.next_start(now), Some(NEW_YEAR + DAY + 18 * HOUR));
    assert_eq!(window.next_start(now - 1), Some(now));
}

#[test]
fn no_boundary_after_the_last_year_of_a_schedule() {
    let window = ScheduleWindow::parse("0 0 18 * * * 2024", "0 0 2 * * * 2024").unwrap();
    // 2025-01-01T00:00:00Z
    let now = 1_735_689_600;
    assert_eq!(window.next_start(now), None);
    assert_eq!(window.next_stop(now), None);
}

#[test]
fn no_boundary_past_the_last_query_second() {
    let window = ScheduleWindow::parse("0 0 18 * * *", "0 0 2 * * *").unwrap();
    assert_eq!(window.next_start(LAST_QUERY_SECOND), None);
    assert_eq!(window.next_start(LAST_QUERY_SECOND + 1), None);
    assert_eq!(window.next_stop(i64::MAX), None);
}

#[test]
fn schedule_error_messages() {
    assert_eq!(
        ScheduleError::InvalidStart("x".to_string()).message(),
        "Invalid start schedule: x"
    );
    assert_eq!(
        ScheduleError::InvalidStop("y".to_string()).message(),
        "Invalid stop schedule: y"
    );
}
