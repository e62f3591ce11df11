use vstd::prelude::*;

use crate::models::{Clip, GameId};
use crate::time::{format_rfc3339, rfc3339_of, Timestamp, LAST_RENDERABLE_SECS};
use crate::window::{spec_window_end, spec_window_start, Conf, Window};

verus! {

/// Clips requested per page.
pub const PAGE_SIZE: u8 = 100;

/// Retries granted to a page request that the remote side rate-limited.
pub const MAX_RETRIES: u8 = 3;

/// One page request of an entity's pagination chain.
pub struct FetchRequest {
    pub game_id: GameId,
    /// Continuation token; absent on the first page.
    pub cursor: Option<String>,
    pub page_size: u8,
    pub window: Window,
}

/// Two requests ask for the same page.
pub open spec fn same_request(a: FetchRequest, b: FetchRequest) -> bool {
    &&& a.game_id@ == b.game_id@
    &&& a.cursor == b.cursor
    &&& a.page_size == b.page_size
    &&& a.window == b.window
}

impl FetchRequest {
    /// A second request for the same page.
    pub fn copy(&self) -> (r: FetchRequest)
        ensures
            same_request(r, *self),
    {
        let cursor = match &self.cursor {
            Some(c) => Some(c.clone()),
            None => None,
        };
        FetchRequest { game_id: self.game_id.copy(), cursor, page_size: self.page_size, window: self.window }
    }

    /// The window start as the remote side takes it; `None` for an instant
    /// that cannot be rendered.
    pub fn started_at(&self) -> (r: Option<String>)
        ensures
            r matches Some(s) ==> s@ == rfc3339_of(self.window.start as int),
            0 <= self.window.start <= LAST_RENDERABLE_SECS ==> r is Some,
    {
        format_rfc3339(self.window.start)
    }

    /// The window end as the remote side takes it; `None` for an instant
    /// that cannot be rendered.
    pub fn ended_at(&self) -> (r: Option<String>)
        ensures
            r matches Some(s) ==> s@ == rfc3339_of(self.window.end as int),
            0 <= self.window.end <= LAST_RENDERABLE_SECS ==> r is Some,
    {
        format_rfc3339(self.window.end)
    }
}

/// An item of the fetch queue.
pub struct QueueElement {
    pub request: FetchRequest,
    /// How many times this page has been retried after a rate-limit response.
    pub retry_count: u8,
}

/// What the remote side answered to one page request.
pub enum FetchOutcome {
    Page { clips: Vec<Clip>, next_cursor: Option<String> },
    RateLimited,
    Failed { message: String },
}

/// What to do with the answer to one page request.
pub enum Step {
    /// Store the clips; enqueue the follow-up page, if any.
    Forward { clips: Vec<Clip>, follow_up: Option<QueueElement> },
    /// Wait `delay_ms`, then enqueue the same page again.
    Retry { element: QueueElement, delay_ms: u64 },
    /// The page was rate-limited once too often: it and the rest of its chain are dropped.
    GiveUp { game_id: GameId },
    /// The page failed for another reason: it and the rest of its chain are dropped.
    Drop { game_id: GameId, message: String },
}

/// The HTTP status the remote side answers with when it rate-limits a
/// request ("too many requests").
pub const TOO_MANY_REQUESTS: u16 = 429;

/// Classifies a failed page request by the HTTP status of its answer, if it
/// got one: "too many requests" is a transient failure, anything else is not.
pub fn outcome_of_status(status: Option<u16>, message: String) -> (r: FetchOutcome)
    ensures
        status == Some(TOO_MANY_REQUESTS) ==> r is RateLimited,
        status != Some(TOO_MANY_REQUESTS) ==> r == (FetchOutcome::Failed { message }),
{
    match status {
        Some(code) => if code == TOO_MANY_REQUESTS {
            FetchOutcome::RateLimited
        } else {
            FetchOutcome::Failed { message }
        },
        None => FetchOutcome::Failed { message },
    }
}

/// The first-page request of an entity.
pub open spec fn is_seed_element(e: QueueElement, seed: (GameId, Option<Timestamp>), conf: Conf, now: int) -> bool {
    &&& e.request.game_id == seed.0
    &&& e.request.cursor is None
    &&& e.request.page_size == PAGE_SIZE
    &&& e.request.window.start == spec_window_start(now, conf, seed.1)
    &&& e.request.window.end == spec_window_end(now, conf)
    &&& e.retry_count == 0
}

pub open spec fn spec_decide(el: QueueElement, outcome: FetchOutcome, delay_ms: u64) -> Step {
    match outcome {
        FetchOutcome::Page { clips, next_cursor } => match next_cursor {
            Some(cursor) => Step::Forward {
                clips,
                follow_up: Some(
                    QueueElement {
                        request: FetchRequest {
                            game_id: el.request.game_id,
                            cursor: Some(cursor),
                            page_size: el.request.page_size,
                            window: el.request.window,
                        },
                        retry_count: 0,
                    },
                ),
            },
            None => Step::Forward { clips, follow_up: None },
        },
        FetchOutcome::RateLimited => if el.retry_count < MAX_RETRIES {
            Step::Retry {
                element: QueueElement { request: el.request, retry_count: (el.retry_count + 1) as u8 },
                delay_ms,
            }
        } else {
            Step::GiveUp { game_id: el.request.game_id }
        },
        FetchOutcome::Failed { message } => Step::Drop { game_id: el.request.game_id, message },
    }
}

/// Decides what follows the answer `outcome` to the request `el`; `delay_ms`
/// is the pause before a retry.
pub fn decide(el: QueueElement, outcome: FetchOutcome, delay_ms: u64) -> (r: Step)
    ensures
        r == spec_decide(el, outcome, delay_ms),
{
    let QueueElement { request, retry_count } = el;
    match outcome {
        FetchOutcome::Page { clips, next_cursor } => match next_cursor {
            Some(cursor) => {
                let FetchRequest { game_id, cursor: _, page_size, window } = request;
                let follow_up = QueueElement {
                    request: FetchRequest { game_id, cursor: Some(cursor), page_size, window },
                    retry_count: 0,
                };
                Step::Forward { clips, follow_up: Some(follow_up) }
            },
            None => Step::Forward { clips, follow_up: None },
        },
        FetchOutcome::RateLimited => {
            if retry_count < MAX_RETRIES {
                Step::Retry { element: QueueElement { request, retry_count: retry_count + 1 }, delay_ms }
            } else {
                Step::GiveUp { game_id: request.game_id }
            }
        },
        FetchOutcome::Failed { message } => Step::Drop { game_id: request.game_id, message },
    }
}

/// Rate-limited answers that a request still gets retried before it is given up.
pub open spec fn retries_left(el: QueueElement, delay_ms: u64) -> nat
    decreases MAX_RETRIES - el.retry_count,
{
    match spec_decide(el, FetchOutcome::RateLimited, delay_ms) {
        Step::Retry { element, .. } => 1 + retries_left(element, delay_ms),
        _ => 0,
    }
}

/// A rate-limited request is retried, unchanged but for its counter, while
/// it has been retried fewer than `MAX_RETRIES` times, and given up after
/// that: then nothing is enqueued for the page.
pub proof fn lemma_rate_limited_step(el: QueueElement, delay_ms: u64)
    ensures
        spec_decide(el, FetchOutcome::RateLimited, delay_ms) is Retry <==> el.retry_count < MAX_RETRIES,
        spec_decide(el, FetchOutcome::RateLimited, delay_ms) matches Step::Retry { element, delay_ms: d } ==> {
            &&& element.request == el.request
            &&& element.retry_count == el.retry_count + 1
            &&& d == delay_ms
        },
        el.retry_count >= MAX_RETRIES ==> spec_decide(el, FetchOutcome::RateLimited, delay_ms) == (Step::GiveUp { game_id: el.request.game_id }),
{
}

/// A page request that keeps being rate-limited is retried exactly
/// `MAX_RETRIES - retry_count` more times, so a fresh one at most
/// `MAX_RETRIES` times, before it is dropped.
pub proof fn lemma_retries_bounded(el: QueueElement, delay_ms: u64)
    requires
        el.retry_count <= MAX_RETRIES,
    ensures
        retries_left(el, delay_ms) == MAX_RETRIES - el.retry_count,
    decreases MAX_RETRIES - el.retry_count,
{
    if el.retry_count < MAX_RETRIES {
        let next = QueueElement { request: el.request, retry_count: (el.retry_count + 1) as u8 };
        lemma_retries_bounded(next, delay_ms);
    }
}

/// Whatever `decide` puts back in the queue asks for the same window as the
/// request it follows, so every request of a run ends its window where the
/// seeded ones do: no clip more recent than that is ever requested.
pub proof fn lemma_follow_ups_keep_window(el: QueueElement, outcome: FetchOutcome, delay_ms: u64)
    ensures
        spec_decide(el, outcome, delay_ms) matches Step::Forward { follow_up: Some(next), .. } ==> {
            &&& next.request.window == el.request.window
            &&& next.request.game_id == el.request.game_id
            &&& next.retry_count == 0
        },
        spec_decide(el, outcome, delay_ms) matches Step::Retry { element, .. } ==> element.request.window == el.request.window,
{
}

} // verus!
