use voice_journal::clock::{Duration, LocalTime};
use voice_journal::metrics::{
    format_duration, last_line, today_line, truncate, Metrics, MAX_LAST_CHARS,
};

fn at(year: i32, month: u32, day: u32, hour: u32, minute: u32) -> LocalTime {
    LocalTime {
        year,
        month,
        day,
        hour,
        minute,
    }
}

#[test]
fn record_tracks_last_text_and_duration() {
    let mut metrics = Metrics::default();
    metrics.record(
        Some("hello"),
        Duration::from_secs(30),
        at(2026, 9, 12, 9, 0),
    );

    assert_eq!(metrics.last_text(), Some("hello"));
    assert_eq!(metrics.last_duration(), Some(Duration::from_secs(30)));
    assert_eq!(metrics.recordings(), 1);
    assert_eq!(metrics.total_duration(), Duration::from_secs(30));
}

#[test]
fn silent_recording_counts_but_keeps_previous_last_text() {
    let mut metrics = Metrics::default();
    metrics.record(
        Some("hello"),
        Duration::from_secs(10),
        at(2026, 9, 12, 9, 0),
    );
    metrics.record(None, Duration::from_secs(5), at(2026, 9, 12, 9, 1));

    assert_eq!(metrics.last_text(), Some("hello"));
    assert_eq!(metrics.last_duration(), Some(Duration::from_secs(5)));
    assert_eq!(metrics.recordings(), 2);
    assert_eq!(metrics.total_duration(), Duration::from_secs(15));
}

#[test]
fn counters_reset_on_a_new_day() {
    let mut metrics = Metrics::default();
    metrics.record(
        Some("late"),
        Duration::from_secs(60),
        at(2026, 9, 11, 23, 59),
    );
    metrics.record(
        Some("early"),
        Duration::from_secs(30),
        at(2026, 9, 12, 0, 1),
    );

    assert_eq!(metrics.recordings(), 1);
    assert_eq!(metrics.total_duration(), Duration::from_secs(30));
    assert_eq!(metrics.last_text(), Some("early"));
}

#[test]
fn lines_render_last_and_today() {
    let mut metrics = Metrics::default();
    assert_eq!(last_line(&metrics), "Last: —");
    assert_eq!(today_line(&metrics), "Today: no recordings");

    metrics.record(
        Some("refactored the prompt handling"),
        Duration::from_secs(23 * 60 + 41),
        at(2026, 9, 12, 14, 0),
    );
    assert_eq!(
        last_line(&metrics),
        "Last: \"refactored the prompt handling\" (23m 41s)"
    );
    assert_eq!(today_line(&metrics), "Today: 1 recording · 23m 41s");
}

#[test]
fn last_line_shows_duration_without_text() {
    let mut metrics = Metrics::default();
    metrics.record(None, Duration::from_secs(5), at(2026, 9, 12, 14, 0));

    assert_eq!(last_line(&metrics), "Last: — (5s)");
}

#[test]
fn today_line_pluralizes_recordings() {
    let mut metrics = Metrics::default();
    for _ in 0..2 {
        metrics.record(Some("x"), Duration::from_secs(1), at(2026, 9, 12, 14, 0));
    }
    assert!(today_line(&metrics).starts_with("Today: 2 recordings · "));
}

#[test]
fn long_last_text_is_truncated() {
    let mut metrics = Metrics::default();
    let long = "x".repeat(100);
    metrics.record(Some(&long), Duration::from_secs(1), at(2026, 9, 12, 14, 0));

    let line = last_line(&metrics);
    assert!(line.ends_with("…\" (1s)"));
    assert_eq!(
        line.chars().count(),
        "Last: \"".chars().count() + MAX_LAST_CHARS + "…\" (1s)".chars().count()
    );
}

#[test]
fn format_duration_ranges() {
    assert_eq!(format_duration(Duration::from_secs(0)), "0s");
    assert_eq!(format_duration(Duration::from_secs(41)), "41s");
    assert_eq!(format_duration(Duration::from_secs(120)), "2m");
    assert_eq!(
        format_duration(Duration::from_secs(23 * 60 + 41)),
        "23m 41s"
    );
    assert_eq!(format_duration(Duration::from_secs(3600)), "1h");
    assert_eq!(format_duration(Duration::from_secs(3660)), "1h 1m");
    assert_eq!(
        format_duration(Duration::from_secs(3600 + 23 * 60)),
        "1h 23m"
    );
}

#[test]
fn format_duration_drops_sub_seconds_and_seconds_past_an_hour() {
    assert_eq!(format_duration(Duration::from_millis(999)), "0s");
    assert_eq!(format_duration(Duration::from_secs(3600 + 60 + 59)), "1h 1m");
    assert_eq!(format_duration(Duration::from_secs(100 * 3600)), "100h");
}

#[test]
fn last_text_is_trimmed_and_blank_text_ignored() {
    let mut metrics = Metrics::default();
    metrics.record(Some("  spaced out \n"), Duration::from_secs(2), at(2026, 9, 12, 8, 0));
    assert_eq!(metrics.last_text(), Some("spaced out"));
    metrics.record(Some(" \t "), Duration::from_secs(3), at(2026, 9, 12, 8, 1));
    assert_eq!(metrics.last_text(), Some("spaced out"));
    assert_eq!(metrics.total_duration(), Duration::from_secs(5));
}

#[test]
fn truncate_marks_only_cut_text() {
    assert_eq!(truncate("abc", 3), "abc");
    assert_eq!(truncate("abcd", 3), "abc…");
    assert_eq!(truncate("", 0), "");
    assert_eq!(truncate("é", 0), "…");
}
