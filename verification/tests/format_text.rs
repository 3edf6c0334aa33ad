//! Exact expected values for the presenter text derivations.

use logger_bro::ClientState;
use logger_bro::TaskId;
use logger_bro::TaskStatus;
use logger_bro::format_duration;
use logger_bro::format_project_header;
use logger_bro::label_text;
use logger_bro::percent_of;
use logger_bro::render_bar;
use logger_bro::status_text;
use logger_bro::task_detail_text;
use logger_bro::u64_to_dec;

#[test]
fn percent_zero_total_is_zero() {
    assert_eq!(percent_of(5, Some(0)), Some(0));
}

#[test]
fn percent_quarter() {
    assert_eq!(percent_of(5, Some(20)), Some(25));
}

#[test]
fn percent_unknown_total() {
    assert_eq!(percent_of(5, None), None);
}

#[test]
fn percent_complete_and_beyond() {
    assert_eq!(percent_of(20, Some(20)), Some(100));
    assert_eq!(percent_of(30, Some(20)), Some(150));
    assert_eq!(percent_of(0, Some(20)), Some(0));
}

#[test]
fn percent_saturates_huge_current() {
    // current * 100 overflows and saturates before the division.
    assert_eq!(percent_of(u64::MAX, Some(u64::MAX)), Some(1));
    assert_eq!(percent_of(u64::MAX, Some(1)), Some(0xffff));
}

#[test]
fn decimal_rendering() {
    assert_eq!(u64_to_dec(0), "0");
    assert_eq!(u64_to_dec(7), "7");
    assert_eq!(u64_to_dec(10), "10");
    assert_eq!(u64_to_dec(90210), "90210");
    assert_eq!(u64_to_dec(u64::MAX), "18446744073709551615");
}

#[test]
fn bar_rendering() {
    assert_eq!(render_bar(Some(0), 20), "[--------------------]");
    assert_eq!(render_bar(Some(25), 20), "[#####---------------]");
    assert_eq!(render_bar(Some(100), 20), "[####################]");
    assert_eq!(render_bar(Some(150), 20), "[####################]");
    assert_eq!(render_bar(None, 20), "[--------------------]");
    assert_eq!(render_bar(Some(50), 4), "[##--]");
}

#[test]
fn duration_below_one_second() {
    assert_eq!(format_duration(0), "0ms");
    assert_eq!(format_duration(999), "999ms");
}

#[test]
fn duration_seconds_with_one_decimal() {
    assert_eq!(format_duration(1000), "1.0s");
    assert_eq!(format_duration(1540), "1.5s");
    assert_eq!(format_duration(59999), "59.9s");
}

#[test]
fn duration_minutes_and_seconds() {
    assert_eq!(format_duration(60_000), "1m00s");
    assert_eq!(format_duration(61_000), "1m01s");
    assert_eq!(format_duration(3_599_000), "59m59s");
}

#[test]
fn duration_hours_and_minutes() {
    assert_eq!(format_duration(3_600_000), "1h00m");
    assert_eq!(format_duration(7_260_000), "2h01m");
    assert_eq!(format_duration(36_660_000), "10h11m");
}

#[test]
fn header_with_and_without_label() {
    assert_eq!(format_project_header(Some("demo"), 1500), "demo | elapsed 1.5s");
    assert_eq!(format_project_header(None, 500), "Project | elapsed 500ms");
}

#[test]
fn status_names() {
    assert_eq!(status_text(Some(TaskStatus::Running)), "Running");
    assert_eq!(status_text(Some(TaskStatus::Completed)), "Completed");
    assert_eq!(status_text(Some(TaskStatus::Failed)), "Failed");
    assert_eq!(status_text(Some(TaskStatus::Canceled)), "Canceled");
    assert_eq!(status_text(None), "Unknown");
}

#[test]
fn label_defaults_to_unnamed() {
    let mut state = ClientState::partial(TaskId(1), 0, 0);
    assert_eq!(label_text(&state), "unnamed");
    state.label = Some("named".to_string());
    assert_eq!(label_text(&state), "named");
}

#[test]
fn task_detail_with_known_total() {
    let mut state = ClientState::new("x".to_string(), Some(20), 1000);
    state.current = Some(5);
    let text = task_detail_text(&state, 1500);
    assert_eq!(text, " | 5/20 | [#####---------------]  25% | last 500ms");
}

#[test]
fn task_detail_with_unknown_total() {
    let state = ClientState::new("x".to_string(), None, 0);
    let text = task_detail_text(&state, 2500);
    assert_eq!(text, " | 0/? | [--------------------]  ??% | last 2.5s");
}

#[test]
fn task_detail_with_full_percent() {
    let mut state = ClientState::new("x".to_string(), Some(4), 0);
    state.current = Some(4);
    let text = task_detail_text(&state, 0);
    assert_eq!(text, " | 4/4 | [####################] 100% | last 0ms");
}
