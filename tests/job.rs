use clip_worker::fetch::{
    decide, outcome_of_status, FetchOutcome, FetchRequest, QueueElement, Step, MAX_RETRIES, PAGE_SIZE,
};
use clip_worker::job::{once, once_at, once_for_all_at, Settled};
use clip_worker::models::GameId;
use clip_worker::window::{Conf, Window};

const NOW: i64 = 1_700_000_000;

fn conf() -> Conf {
    Conf { recorded_at_most_ago: None, recorded_at_least_ago: None }
}

fn element(game: &str, retry_count: u8) -> QueueElement {
    QueueElement {
        request: FetchRequest {
            game_id: GameId::new(game.to_string()),
            cursor: None,
            page_size: PAGE_SIZE,
            window: Window { start: 10, end: 20 },
        },
        retry_count,
    }
}

#[test]
fn seeded_run_has_one_first_page_per_entity_in_order() {
    let seeds = vec![
        (GameId::new("1".to_string()), None),
        (GameId::new("2".to_string()), Some(NOW - 3600)),
    ];
    let mut job = once_for_all_at(seeds, &conf(), NOW).unwrap();
    assert_eq!(job.capacity(), 2);
    assert_eq!(job.pending(), 2);
    let first = job.take().unwrap();
    assert_eq!(first.game_id.as_str(), "1");
    assert!(first.cursor.is_none());
    assert_eq!(first.page_size, 100);
    assert_eq!(first.window, Window { start: NOW - 172_800, end: NOW - 28_800 });
    let second = job.take().unwrap();
    assert_eq!(second.game_id.as_str(), "2");
    assert_eq!(second.window, Window { start: NOW - 3600, end: NOW - 28_800 });
    assert!(job.take().is_none());
    assert_eq!(job.in_flight(), 2);
}

#[test]
fn run_is_refused_when_a_window_cannot_be_computed() {
    let far = Conf { recorded_at_most_ago: Some(u64::MAX), recorded_at_least_ago: None };
    assert!(once_at(GameId::new("1".to_string()), None, &far, NOW).is_none());
    assert!(once_at(GameId::new("1".to_string()), None, &conf(), NOW).is_some());
    let empty = once_for_all_at(Vec::new(), &conf(), NOW).unwrap();
    assert!(empty.is_finished());
}

#[test]
fn run_at_current_time_has_one_seed() {
    let job = once(GameId::new("7".to_string()), None, &conf()).unwrap();
    assert_eq!(job.pending(), 1);
    assert_eq!(job.capacity(), 1);
}

#[test]
fn page_with_cursor_yields_follow_up_with_reset_counter() {
    let step = decide(
        element("3", 2),
        FetchOutcome::Page { clips: Vec::new(), next_cursor: Some("abc".to_string()) },
        0,
    );
    match step {
        Step::Forward { clips, follow_up: Some(next) } => {
            assert!(clips.is_empty());
            assert_eq!(next.request.cursor.as_deref(), Some("abc"));
            assert_eq!(next.request.game_id.as_str(), "3");
            assert_eq!(next.request.window, Window { start: 10, end: 20 });
            assert_eq!(next.retry_count, 0);
        }
        _ => panic!("expected a follow-up"),
    }
    let last = decide(element("3", 0), FetchOutcome::Page { clips: Vec::new(), next_cursor: None }, 0);
    assert!(matches!(last, Step::Forward { follow_up: None, .. }));
}

#[test]
fn rate_limited_request_is_retried_three_times_then_given_up() {
    assert_eq!(MAX_RETRIES, 3);
    let mut el = element("4", 0);
    let mut retries = 0;
    loop {
        match decide(el, FetchOutcome::RateLimited, 1500) {
            Step::Retry { element, delay_ms } => {
                assert_eq!(delay_ms, 1500);
                retries += 1;
                assert_eq!(element.retry_count, retries);
                el = element;
            }
            Step::GiveUp { game_id } => {
                assert_eq!(game_id.as_str(), "4");
                break;
            }
            _ => panic!("unexpected step"),
        }
    }
    assert_eq!(retries, 3);
}

#[test]
fn other_failure_is_dropped_without_retry() {
    match decide(element("5", 0), FetchOutcome::Failed { message: "401 Unauthorized".to_string() }, 0) {
        Step::Drop { game_id, message } => {
            assert_eq!(game_id.as_str(), "5");
            assert_eq!(message, "401 Unauthorized");
        }
        _ => panic!("expected a drop"),
    }
}

#[test]
fn too_many_requests_status_is_rate_limited() {
    assert!(matches!(outcome_of_status(Some(429), "429 Too Many Requests".to_string()), FetchOutcome::RateLimited));
    match outcome_of_status(Some(409), "409 Conflict".to_string()) {
        FetchOutcome::Failed { message } => assert_eq!(message, "409 Conflict"),
        _ => panic!("expected a failure"),
    }
    assert!(matches!(outcome_of_status(None, "request failed: 429".to_string()), FetchOutcome::Failed { .. }));
    assert!(matches!(outcome_of_status(Some(500), "boom".to_string()), FetchOutcome::Failed { .. }));
}

#[test]
fn duplicate_selection_is_refused() {
    let seeds = vec![(GameId::new("1".to_string()), None), (GameId::new("1".to_string()), Some(NOW - 60))];
    assert!(once_for_all_at(seeds, &conf(), NOW).is_none());
}

#[test]
fn settling_a_request_not_in_flight_changes_nothing() {
    let seeds = vec![(GameId::new("1".to_string()), None), (GameId::new("2".to_string()), None)];
    let mut job = once_for_all_at(seeds, &conf(), NOW).unwrap();
    let first = job.take().unwrap();
    assert_eq!(first.game_id.as_str(), "1");
    // entity "2" is still pending, not in flight
    assert!(job.settle(&GameId::new("2".to_string()), FetchOutcome::RateLimited, 5).is_none());
    assert!(!job.resubmit(&GameId::new("2".to_string())));
    assert!(!job.resubmit(&GameId::new("1".to_string())));
    assert_eq!(job.in_flight(), 1);
    assert_eq!(job.pending(), 1);
    let next_page = FetchOutcome::Page { clips: Vec::new(), next_cursor: Some("n".to_string()) };
    assert!(matches!(job.settle(&first.game_id, next_page, 0), Some(Settled::Forward { .. })));
    assert_eq!(job.in_flight(), 0);
    assert_eq!(job.pending(), 2);
    let second = job.take().unwrap();
    assert_eq!(second.game_id.as_str(), "2");
    let follow = job.take().unwrap();
    assert_eq!(follow.cursor.as_deref(), Some("n"));
    assert_eq!(follow.game_id.as_str(), "1");
    assert_eq!(follow.window, first.window);
}

#[test]
fn rate_limited_page_waits_and_is_resubmitted_unchanged() {
    let mut job = once_for_all_at(vec![(GameId::new("1".to_string()), None)], &conf(), NOW).unwrap();
    let req = job.take().unwrap();
    match job.settle(&req.game_id, FetchOutcome::RateLimited, 2500) {
        Some(Settled::Retry { game_id, delay_ms }) => {
            assert_eq!(game_id.as_str(), "1");
            assert_eq!(delay_ms, 2500);
        }
        _ => panic!("expected a retry"),
    }
    assert_eq!((job.pending(), job.in_flight(), job.waiting()), (0, 0, 1));
    assert!(!job.is_finished());
    // the entity is no longer in flight: a second answer is refused
    assert!(job.settle(&req.game_id, FetchOutcome::RateLimited, 2500).is_none());
    assert!(job.resubmit(&req.game_id));
    assert!(!job.resubmit(&req.game_id));
    let again = job.take().unwrap();
    assert_eq!(again.window, req.window);
    assert!(again.cursor.is_none());
    match job.settle(&again.game_id, FetchOutcome::Failed { message: "x".to_string() }, 0) {
        Some(Settled::Drop { game_id, message }) => {
            assert_eq!(game_id.as_str(), "1");
            assert_eq!(message, "x");
        }
        _ => panic!("expected a drop"),
    }
    assert!(job.is_finished());
}
