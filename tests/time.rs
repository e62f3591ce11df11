use clip_worker::fetch::FetchOutcome;
use clip_worker::job::{once_for_all_at, Settled};
use clip_worker::models::GameId;
use clip_worker::time::{latest_clip_at, RETRY_DELAY_MAX_MS, RETRY_DELAY_MIN_MS};
use clip_worker::window::{stale_before, Conf};

const NOW: i64 = 1_700_000_000;

#[test]
fn request_window_renders_as_utc_rfc3339() {
    let conf = Conf { recorded_at_most_ago: Some(3600), recorded_at_least_ago: Some(60) };
    let mut job = once_for_all_at(vec![(GameId::new("1".to_string()), None)], &conf, NOW).unwrap();
    let el = job.take().unwrap();
    assert_eq!(el.started_at().as_deref(), Some("2023-11-14T21:13:20Z"));
    assert_eq!(el.ended_at().as_deref(), Some("2023-11-14T22:12:20Z"));
}

#[test]
fn request_window_outside_calendar_is_not_rendered() {
    let conf = Conf { recorded_at_most_ago: Some(u64::MAX / 2), recorded_at_least_ago: None };
    let mut job = once_for_all_at(vec![(GameId::new("1".to_string()), None)], &conf, NOW).unwrap();
    let el = job.take().unwrap();
    assert!(el.started_at().is_none());
    assert!(el.ended_at().is_some());
}

#[test]
fn stored_clip_time_is_parsed() {
    assert_eq!(latest_clip_at(None), Ok(None));
    assert_eq!(latest_clip_at(Some("2023-01-01T00:00:00Z".to_string())), Ok(Some(1_672_531_200)));
    assert_eq!(latest_clip_at(Some("2023-01-01T01:00:00+01:00".to_string())), Ok(Some(1_672_531_200)));
    assert_eq!(latest_clip_at(Some("yesterday".to_string())), Err(()));
}

#[test]
fn staleness_threshold_is_floor_before_now() {
    let conf = Conf { recorded_at_most_ago: None, recorded_at_least_ago: None };
    assert_eq!(stale_before(NOW, &conf).as_deref(), Some("2023-11-14T14:13:20Z"));
    let hour = Conf { recorded_at_most_ago: None, recorded_at_least_ago: Some(3600) };
    assert_eq!(stale_before(NOW, &hour).as_deref(), Some("2023-11-14T21:13:20Z"));
    let huge = Conf { recorded_at_most_ago: None, recorded_at_least_ago: Some(u64::MAX) };
    assert!(stale_before(NOW, &huge).is_none());
}

#[test]
fn jittered_retry_waits_between_one_and_eight_seconds() {
    let conf = Conf { recorded_at_most_ago: None, recorded_at_least_ago: None };
    for _ in 0..20 {
        let mut job = once_for_all_at(vec![(GameId::new("1".to_string()), None)], &conf, NOW).unwrap();
        let el = job.take().unwrap();
        match job.settle_jittered(&el.game_id, FetchOutcome::RateLimited).unwrap() {
            Settled::Retry { game_id, delay_ms } => {
                assert!((RETRY_DELAY_MIN_MS..RETRY_DELAY_MAX_MS).contains(&delay_ms));
                assert_eq!(job.waiting(), 1);
                assert_eq!(job.in_flight(), 0);
                assert!(job.resubmit(&game_id));
                assert_eq!(job.pending(), 1);
                assert_eq!(job.waiting(), 0);
            }
            _ => panic!("expected a retry"),
        }
    }
}
