use kaspa_ng::metrics::{format_duration, format_duration_unit, metrics_store_needed, Metrics, MetricsLayout};

#[test]
fn format_duration_units() {
    assert_eq!(format_duration(0), "0 sec");
    assert_eq!(format_duration(1), "1 sec");
    assert_eq!(format_duration(59), "59 secs");
    assert_eq!(format_duration(60), "1 min");
    assert_eq!(format_duration(150), "2 mins");
    assert_eq!(format_duration(3599), "59 mins");
    assert_eq!(format_duration(3600), "1 hr");
    assert_eq!(format_duration(7200), "2 hrs");
    assert_eq!(format_duration(86399), "23 hrs");
    assert_eq!(format_duration(86400), "1 day");
    assert_eq!(format_duration(86400 * 3 + 5), "3 days");
    assert_eq!(format_duration(u64::MAX), format!("{} days", u64::MAX / 86400));
}

#[test]
fn format_duration_unit_plural() {
    assert_eq!(format_duration_unit(0, "sec"), "0 sec");
    assert_eq!(format_duration_unit(1, "day"), "1 day");
    assert_eq!(format_duration_unit(2, "day"), "2 days");
    assert_eq!(format_duration_unit(1234567890, "x"), "1234567890 xs");
}

#[test]
fn clamp_range_within_samples() {
    let m = Metrics::new(86400);
    assert_eq!(m.clamp_range(-100000, 5), (-86400, 0));
    assert_eq!(m.clamp_range(-100, -200000), (-100, -86400));
    assert_eq!(m.clamp_range(-600, -60), (-600, -60));
}

#[test]
fn adjust_range_keeps_min_distance() {
    let m = Metrics::new(86400);
    // the start moved next to the end: the end is pushed away
    assert_eq!(m.adjust_range(-20, -10, -100, -10), (-20, -5));
    // the end moved next to the start: the start is pushed away
    assert_eq!(m.adjust_range(-100, -95, -100, -10), (-110, -95));
    // crossed ends
    assert_eq!(m.adjust_range(-5, -50, -5, -50), (-65, -50));
    // a wide range is unchanged
    assert_eq!(m.adjust_range(-600, -60, 0, 0), (-600, -60));
    for from in -40..0isize {
        for to in -40..0isize {
            let (f, t) = m.adjust_range(from, to, from, -1);
            assert!(t - f >= 15);
        }
    }
}

#[test]
fn sample_window_positions() {
    let m = Metrics::new(1000);
    // the last 60 samples of 500
    assert_eq!(m.sample_window(-60, 0, 500), (440, 500));
    // from 300 back to 100 back
    assert_eq!(m.sample_window(-300, -100, 500), (200, 400));
    // a range longer than the data starts at the first sample
    assert_eq!(m.sample_window(-900, -10, 500), (0, 490));
    // ends past the stored samples are held at the limit
    assert_eq!(m.sample_window(-5000, 20, 2000), (1000, 2000));
    assert_eq!(m.sample_window(-10, 0, 0), (0, 0));
}

#[test]
fn metrics_store_only_on_change() {
    let before = MetricsLayout { graph_columns: 3, graph_height: 90, graph_range_from: -900, graph_range_to: 0 };
    assert!(!metrics_store_needed(false, before, before));
    assert!(metrics_store_needed(true, before, before));
    assert!(metrics_store_needed(false, before, MetricsLayout { graph_columns: 4, ..before }));
    assert!(metrics_store_needed(false, before, MetricsLayout { graph_height: 91, ..before }));
    assert!(metrics_store_needed(false, before, MetricsLayout { graph_range_from: -899, ..before }));
    assert!(metrics_store_needed(false, before, MetricsLayout { graph_range_to: -1, ..before }));
}
