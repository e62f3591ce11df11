use clip_worker::window::{
    can_compute_window, window, window_end, window_start, Conf, DEFAULT_LOOKBACK_SECS,
    DEFAULT_STALENESS_FLOOR_SECS,
};

const NOW: i64 = 1_700_000_000;

fn no_bounds() -> Conf {
    Conf { recorded_at_most_ago: None, recorded_at_least_ago: None }
}

#[test]
fn new_entity_window_starts_two_days_back() {
    assert_eq!(DEFAULT_LOOKBACK_SECS, 2 * 24 * 3600);
    assert_eq!(window_start(NOW, &no_bounds(), None), NOW - 172_800);
}

#[test]
fn known_entity_window_starts_at_latest_clip() {
    let latest = NOW - 5 * 3600;
    assert_eq!(window_start(NOW, &no_bounds(), Some(latest)), latest);
}

#[test]
fn at_most_override_wins_over_latest_clip() {
    let conf = Conf { recorded_at_most_ago: Some(3600), recorded_at_least_ago: None };
    assert_eq!(window_start(NOW, &conf, Some(NOW - 10)), NOW - 3600);
    assert_eq!(window_start(NOW, &conf, None), NOW - 3600);
}

#[test]
fn window_end_uses_default_floor() {
    // the same floor that selects stale entities
    assert_eq!(window_end(NOW, &no_bounds()), NOW - 28_800);
    assert_eq!(window_end(NOW, &no_bounds()), NOW - no_bounds().staleness_floor() as i64);
}

#[test]
fn window_end_uses_given_floor() {
    let conf = Conf { recorded_at_most_ago: None, recorded_at_least_ago: Some(7200) };
    assert_eq!(window_end(NOW, &conf), NOW - 7200);
    let w = window(NOW, &conf, Some(NOW - 100_000));
    assert_eq!(w.start, NOW - 100_000);
    assert_eq!(w.end, NOW - 7200);
}

#[test]
fn staleness_floor_defaults_to_eight_hours() {
    assert_eq!(no_bounds().staleness_floor(), DEFAULT_STALENESS_FLOOR_SECS);
    assert_eq!(DEFAULT_STALENESS_FLOOR_SECS, 28_800);
    let conf = Conf { recorded_at_most_ago: None, recorded_at_least_ago: Some(60) };
    assert_eq!(conf.staleness_floor(), 60);
}

#[test]
fn window_reaching_before_timestamp_range_is_not_computable() {
    let conf = Conf { recorded_at_most_ago: Some(u64::MAX), recorded_at_least_ago: None };
    assert!(!can_compute_window(NOW, &conf, None));
    assert!(can_compute_window(NOW, &no_bounds(), None));
    assert!(!can_compute_window(i64::MIN + 10, &no_bounds(), Some(0)));
    let far = Conf { recorded_at_most_ago: Some(1u64 << 63), recorded_at_least_ago: None };
    assert!(can_compute_window(0, &far, None));
    assert_eq!(window_start(0, &far, None), i64::MIN);
}
