use vstd::multiset::Multiset;
use vstd::prelude::*;

use std::collections::VecDeque;

use crate::fetch::{
    decide, is_seed_element, same_request, spec_decide, FetchOutcome, FetchRequest, QueueElement, Step,
    MAX_RETRIES, PAGE_SIZE,
};
use crate::models::{Clip, GameId};
use crate::time::{now_secs, random_in_range, Timestamp, RETRY_DELAY_MAX_MS, RETRY_DELAY_MIN_MS};
use crate::window::{
    can_compute_window, spec_window_end, window, window_computable, Conf, DEFAULT_LOOKBACK_SECS,
};

verus! {

/// Whether every seed's window can be computed at `now`.
pub open spec fn seeds_computable(seeds: Seq<(GameId, Option<Timestamp>)>, conf: Conf, now: int) -> bool {
    forall|i: int| 0 <= i < seeds.len() ==> window_computable(now, conf, #[trigger] seeds[i].1)
}

/// The run seeded with `seeds` at `now`: one first-page request per entity,
/// in order, nothing in flight.
pub open spec fn is_seeded_job(job: Job, seeds: Seq<(GameId, Option<Timestamp>)>, conf: Conf, now: int) -> bool {
    &&& job.wf()
    &&& job.capacity_spec() == seeds.len()
    &&& job.in_flight_spec() == 0
    &&& job.pending_seq().len() == seeds.len()
    &&& forall|i: int| 0 <= i < seeds.len() ==> is_seed_element(#[trigger] job.pending_seq()[i], seeds[i], conf, now)
}

/// A run over all the selected entities at `now`; `None` where the window of
/// some entity cannot be computed or an entity is selected twice.
pub fn once_for_all_at(seeds: Vec<(GameId, Option<Timestamp>)>, conf: &Conf, now: Timestamp) -> (r: Option<Job>)
    ensures
        r is Some <==> seeds_computable(seeds@, *conf, now as int) && distinct_entities(seeds@),
        r matches Some(job) ==> is_seeded_job(job, seeds@, *conf, now as int),
{
    let mut i: usize = 0;
    while i < seeds.len()
        invariant
            i <= seeds@.len(),
            forall|a: int, b: int| 0 <= a < i && 0 <= b < seeds@.len() && a != b ==> #[trigger] seeds@[a].0@ != #[trigger] seeds@[b].0@,
        decreases seeds@.len() - i,
    {
        let mut j: usize = i + 1;
        while j < seeds.len()
            invariant
                i < seeds@.len(),
                i < j <= seeds@.len(),
                forall|a: int, b: int| 0 <= a < i && 0 <= b < seeds@.len() && a != b ==> #[trigger] seeds@[a].0@ != #[trigger] seeds@[b].0@,
                forall|b: int| i < b < j ==> #[trigger] seeds@[b].0@ != seeds@[i as int].0@,
            decreases seeds@.len() - j,
        {
            if seeds[i].0.same_as(&seeds[j].0) {
                return None;
            }
            j = j + 1;
        }
        i = i + 1;
    }
    let mut i: usize = 0;
    while i < seeds.len()
        invariant
            i <= seeds@.len(),
            forall|j: int| 0 <= j < i ==> window_computable(now as int, *conf, #[trigger] seeds@[j].1),
        decreases seeds@.len() - i,
    {
        if !can_compute_window(now, conf, seeds[i].1) {
            return None;
        }
        i = i + 1;
    }
    Some(Job::seeded(seeds, conf, now))
}

/// A run for one entity at `now`, given its latest known clip.
pub fn once_at(game_id: GameId, latest: Option<Timestamp>, conf: &Conf, now: Timestamp) -> (r: Option<Job>)
    ensures
        r is Some <==> window_computable(now as int, *conf, latest),
        r matches Some(job) ==> is_seeded_job(job, seq![(game_id, latest)], *conf, now as int),
{
    let seeds = vec![(game_id, latest)];
    let r = once_for_all_at(seeds, conf, now);
    proof {
        assert(seeds@ == seq![(game_id, latest)]);
        if !window_computable(now as int, *conf, latest) {
            assert(!window_computable(now as int, *conf, seeds@[0].1));
        }
    }
    r
}

/// Both bounds of `conf` are at most `i64::MAX` seconds: from any instant
/// since the Unix epoch, every window can then be computed.
pub open spec fn bounds_in_range(conf: Conf) -> bool {
    &&& conf.recorded_at_most_ago.unwrap_or(0) <= i64::MAX
    &&& conf.recorded_at_least_ago.unwrap_or(0) <= i64::MAX
}

/// A run over all the selected entities, at the current time: as
/// `once_for_all_at` at the instant the clock gives.
pub fn once_for_all(seeds: Vec<(GameId, Option<Timestamp>)>, conf: &Conf) -> (r: Option<Job>)
    ensures
        exists|now: Timestamp| {
            &&& (r is Some <==> seeds_computable(seeds@, *conf, now as int) && distinct_entities(seeds@))
            &&& (r matches Some(job) ==> is_seeded_job(job, seeds@, *conf, now as int))
        },
        bounds_in_range(*conf) && distinct_entities(seeds@) ==> r is Some,
{
    let now = now_secs();
    let r = once_for_all_at(seeds, conf, now);
    proof {
        assert((r is Some <==> seeds_computable(seeds@, *conf, now as int) && distinct_entities(seeds@))
            && (r matches Some(job) ==> is_seeded_job(job, seeds@, *conf, now as int)));
    }
    r
}



/// A run for one entity, given its latest known clip, at the current time:
/// as `once_at` at the instant the clock gives.
pub fn once(game_id: GameId, latest: Option<Timestamp>, conf: &Conf) -> (r: Option<Job>)
    ensures
        exists|now: Timestamp| {
            &&& (r is Some <==> window_computable(now as int, *conf, latest))
            &&& (r matches Some(job) ==> is_seeded_job(job, seq![(game_id, latest)], *conf, now as int))
        },
        bounds_in_range(*conf) ==> r is Some,
{
    let now = now_secs();
    once_at(game_id, latest, conf, now)
}

/// The entity ids of a sequence of queue elements.
pub open spec fn ids_of(q: Seq<QueueElement>) -> Seq<Seq<char>> {
    q.map_values(|e: QueueElement| e.request.game_id@)
}

/// No entity is selected twice.
pub open spec fn distinct_entities(seeds: Seq<(GameId, Option<Timestamp>)>) -> bool {
    forall|i: int, j: int| 0 <= i < seeds.len() && 0 <= j < seeds.len() && i != j ==> #[trigger] seeds[i].0@ != #[trigger] seeds[j].0@
}

proof fn lemma_ids_push(s: Seq<QueueElement>, e: QueueElement)
    ensures
        ids_of(s.push(e)) == ids_of(s).push(e.request.game_id@),
        ids_of(s.push(e)).to_multiset() == ids_of(s).to_multiset().insert(e.request.game_id@),
{
    broadcast use vstd::seq_lib::group_to_multiset_ensures;
    assert(ids_of(s.push(e)) =~= ids_of(s).push(e.request.game_id@));
}

proof fn lemma_ids_remove(s: Seq<QueueElement>, k: int)
    requires
        0 <= k < s.len(),
    ensures
        ids_of(s.remove(k)) == ids_of(s).remove(k),
        ids_of(s.remove(k)).to_multiset() == ids_of(s).to_multiset().remove(s[k].request.game_id@),
{
    assert(ids_of(s.remove(k)) =~= ids_of(s).remove(k));
    vstd::seq_lib::to_multiset_remove(ids_of(s), k);
}

/// What the run does with the answer to a request: store clips, retry the
/// page after a pause, or log that the page was given up or dropped.
pub enum Settled {
    Forward { clips: Vec<Clip> },
    /// Call `Job::resubmit` for this entity after `delay_ms`.
    Retry { game_id: GameId, delay_ms: u64 },
    GiveUp { game_id: GameId },
    Drop { game_id: GameId, message: String },
}

/// How `Job::settle` leaves the run once the request `el`, in flight at `k`,
/// got `outcome`: as `spec_decide` says, with a follow-up page moved into the
/// queue and a page to retry parked until it is resubmitted.
pub open spec fn spec_settled(
    before: Job,
    after: Job,
    r: Settled,
    k: int,
    outcome: FetchOutcome,
    delay_ms: u64,
) -> bool {
    let el = before.in_flight_seq()[k];
    &&& after.capacity_spec() == before.capacity_spec()
    &&& after.in_flight_seq() == before.in_flight_seq().remove(k)
    &&& match spec_decide(el, outcome, delay_ms) {
        Step::Forward { clips, follow_up } => {
            &&& r == (Settled::Forward { clips })
            &&& after.pending_seq() == match follow_up {
                Some(next) => before.pending_seq().push(next),
                None => before.pending_seq(),
            }
            &&& after.waiting_seq() == before.waiting_seq()
        },
        Step::Retry { element, delay_ms } => {
            &&& (r matches Settled::Retry { game_id, delay_ms: d } && game_id@ == element.request.game_id@ && d == delay_ms)
            &&& after.pending_seq() == before.pending_seq()
            &&& after.waiting_seq() == before.waiting_seq().push(element)
        },
        Step::GiveUp { game_id } => {
            &&& r == (Settled::GiveUp { game_id })
            &&& after.pending_seq() == before.pending_seq()
            &&& after.waiting_seq() == before.waiting_seq()
        },
        Step::Drop { game_id, message } => {
            &&& r == (Settled::Drop { game_id, message })
            &&& after.pending_seq() == before.pending_seq()
            &&& after.waiting_seq() == before.waiting_seq()
        },
    }
}

/// Where the request of entity `id` stands in `v`, if it does.
fn find_entity(v: &Vec<QueueElement>, id: &GameId) -> (r: Option<usize>)
    ensures
        r is None ==> !ids_of(v@).contains(id@),
        r matches Some(k) ==> k < v@.len() && v@[k as int].request.game_id@ == id@,
{
    let mut k: usize = 0;
    while k < v.len()
        invariant
            k <= v@.len(),
            forall|i: int| 0 <= i < k ==> #[trigger] v@[i].request.game_id@ != id@,
        decreases v@.len() - k,
    {
        if v[k].request.game_id.same_as(id) {
            return Some(k);
        }
        k = k + 1;
    }
    proof {
        if ids_of(v@).contains(id@) {
            let i = choose|i: int| 0 <= i < ids_of(v@).len() && ids_of(v@)[i] == id@;
            assert(v@[i].request.game_id@ == id@);
        }
    }
    None
}

/// The requests of one run: pending page requests, first in first out; the
/// requests taken and not yet answered; and rate-limited pages waiting out
/// their pause before they are resubmitted. The run keeps each request
/// itself and hands out copies, so what comes back is what it decided.
///
/// A follow-up page is enqueued only once its predecessor is settled, so an
/// entity never has more than one request in the run, and the run never holds
/// more requests than it was seeded with.
pub struct Job {
    queue: VecDeque<QueueElement>,
    in_flight: Vec<QueueElement>,
    waiting: Vec<QueueElement>,
    capacity: usize,
}

impl Job {
    pub closed spec fn pending_seq(&self) -> Seq<QueueElement> {
        self.queue@
    }

    /// Requests taken and not yet settled.
    pub closed spec fn in_flight_seq(&self) -> Seq<QueueElement> {
        self.in_flight@
    }

    /// Rate-limited requests waiting to be resubmitted.
    pub closed spec fn waiting_seq(&self) -> Seq<QueueElement> {
        self.waiting@
    }

    pub open spec fn in_flight_ids(&self) -> Seq<Seq<char>> {
        ids_of(self.in_flight_seq())
    }

    pub open spec fn waiting_ids(&self) -> Seq<Seq<char>> {
        ids_of(self.waiting_seq())
    }

    pub open spec fn in_flight_spec(&self) -> nat {
        self.in_flight_seq().len()
    }

    pub closed spec fn capacity_spec(&self) -> nat {
        self.capacity as nat
    }

    /// Requests per entity, wherever they are in the run.
    pub open spec fn active(&self) -> Multiset<Seq<char>> {
        ids_of(self.pending_seq()).to_multiset().add(self.in_flight_ids().to_multiset()).add(
            self.waiting_ids().to_multiset(),
        )
    }

    pub closed spec fn wf(&self) -> bool {
        &&& self.queue@.len() + self.in_flight@.len() + self.waiting@.len() <= self.capacity
        &&& forall|i: int| 0 <= i < self.queue@.len() ==> #[trigger] self.queue@[i].retry_count <= MAX_RETRIES
        &&& forall|i: int| 0 <= i < self.in_flight@.len() ==> #[trigger] self.in_flight@[i].retry_count <= MAX_RETRIES
        &&& forall|i: int| 0 <= i < self.waiting@.len() ==> #[trigger] self.waiting@[i].retry_count <= MAX_RETRIES
        &&& forall|id: Seq<char>| #[trigger] self.active().count(id) <= 1
    }

    /// A run seeded with one first-page request per entity, in the given order.
    pub fn seeded(seeds: Vec<(GameId, Option<Timestamp>)>, conf: &Conf, now: Timestamp) -> (r: Job)
        requires
            seeds_computable(seeds@, *conf, now as int),
            distinct_entities(seeds@),
        ensures
            is_seeded_job(r, seeds@, *conf, now as int),
    {
        let ghost all = seeds@;
        let capacity = seeds.len();
        let mut seeds = seeds;
        let mut queue: VecDeque<QueueElement> = VecDeque::new();
        while seeds.len() > 0
            invariant
                all.len() == capacity,
                seeds@ == all.take(seeds@.len() as int),
                seeds@.len() + queue@.len() == all.len(),
                forall|i: int| 0 <= i < all.len() ==> window_computable(now as int, *conf, #[trigger] all[i].1),
                forall|j: int| 0 <= j < queue@.len() ==> is_seed_element(#[trigger] queue@[j], all[seeds@.len() + j], *conf, now as int),
            decreases seeds@.len(),
        {
            let ghost before = seeds@;
            let (game_id, latest) = seeds.pop().unwrap();
            proof {
                assert(before[before.len() - 1] == all[seeds@.len() as int]);
                assert(window_computable(now as int, *conf, all[seeds@.len() as int].1));
            }
            let element = QueueElement {
                request: FetchRequest { game_id, cursor: None, page_size: PAGE_SIZE, window: window(now, conf, latest) },
                retry_count: 0,
            };
            let ghost old_queue = queue@;
            queue.push_front(element);
            proof {
                assert forall|j: int| 0 <= j < queue@.len() implies is_seed_element(#[trigger] queue@[j], all[seeds@.len() + j], *conf, now as int) by {
                    if j > 0 {
                        assert(queue@[j] == old_queue[j - 1]);
                    }
                }
                assert(seeds@ == all.take(seeds@.len() as int));
            }
        }
        let r = Job { queue, in_flight: Vec::new(), waiting: Vec::new(), capacity };
        proof {
            broadcast use vstd::seq_lib::group_to_multiset_ensures, vstd::multiset::group_multiset_axioms;
            let ids = ids_of(queue@);
            assert forall|i: int, j: int| 0 <= i < ids.len() && 0 <= j < ids.len() && i != j implies ids[i] != ids[j] by {
                assert(ids[i] == all[i].0@ && ids[j] == all[j].0@);
            }
            assert(ids.no_duplicates());
            ids.lemma_multiset_has_no_duplicates();
            assert(ids_of(r.in_flight@) =~= Seq::<Seq<char>>::empty());
            assert(ids_of(r.waiting@) =~= Seq::<Seq<char>>::empty());
            assert(ids_of(r.in_flight@).to_multiset() =~= Multiset::<Seq<char>>::empty());
            assert(ids_of(r.waiting@).to_multiset() =~= Multiset::<Seq<char>>::empty());
            assert forall|id: Seq<char>| #[trigger] r.active().count(id) <= 1 by {
                if ids.to_multiset().count(id) > 0 {
                    assert(ids.to_multiset().contains(id));
                }
            }
        }
        r
    }

    /// Requests waiting to be taken.
    pub fn pending(&self) -> (r: usize)
        ensures
            r == self.pending_seq().len(),
    {
        self.queue.len()
    }

    /// Requests taken and not yet settled.
    pub fn in_flight(&self) -> (r: usize)
        ensures
            r == self.in_flight_spec(),
    {
        self.in_flight.len()
    }

    /// Rate-limited requests not yet resubmitted.
    pub fn waiting(&self) -> (r: usize)
        ensures
            r == self.waiting_seq().len(),
    {
        self.waiting.len()
    }

    /// The bound on the requests of the run: the number of seeded entities.
    pub fn capacity(&self) -> (r: usize)
        ensures
            r == self.capacity_spec(),
    {
        self.capacity
    }

    /// The run is over when no request is pending, in flight or waiting.
    pub fn is_finished(&self) -> (r: bool)
        ensures
            r == (self.pending_seq().len() == 0 && self.in_flight_spec() == 0 && self.waiting_seq().len() == 0),
    {
        self.queue.len() == 0 && self.in_flight.len() == 0 && self.waiting.len() == 0
    }

    /// Takes the oldest pending request, which is then in flight, and hands
    /// out a copy of it to fetch.
    pub fn take(&mut self) -> (r: Option<FetchRequest>)
        requires
            old(self).wf(),
        ensures
            final(self).wf(),
            final(self).capacity_spec() == old(self).capacity_spec(),
            old(self).pending_seq().len() == 0 ==> r is None && *final(self) == *old(self),
            old(self).pending_seq().len() > 0 ==> {
                &&& (r matches Some(req) && same_request(req, old(self).pending_seq()[0].request))
                &&& final(self).pending_seq() == old(self).pending_seq().drop_first()
                &&& final(self).in_flight_seq() == old(self).in_flight_seq().push(old(self).pending_seq()[0])
                &&& final(self).waiting_seq() == old(self).waiting_seq()
            },
    {
        if self.queue.len() == 0 {
            return None;
        }
        let ghost q = self.queue@;
        let ghost f = self.in_flight@;
        let el = self.queue.pop_front().unwrap();
        let request = el.request.copy();
        self.in_flight.push(el);
        proof {
            broadcast use vstd::seq_lib::group_to_multiset_ensures, vstd::multiset::group_multiset_axioms;
            let e = q[0];
            let id = e.request.game_id@;
            assert forall|i: int| 0 <= i < self.queue@.len() implies #[trigger] self.queue@[i].retry_count <= MAX_RETRIES by {
                assert(self.queue@[i] == q[i + 1]);
            }
            assert forall|i: int| 0 <= i < self.in_flight@.len() implies #[trigger] self.in_flight@[i].retry_count <= MAX_RETRIES by {
                if i < f.len() {
                    assert(self.in_flight@[i] == f[i]);
                }
            }
            assert(ids_of(q) =~= ids_of(self.queue@).insert(0, id));
            vstd::seq_lib::to_multiset_insert(ids_of(self.queue@), 0, id);
            lemma_ids_push(f, e);
            assert(self.active() =~= old(self).active());
        }
        Some(request)
    }

    /// Settles the answer to the in-flight request of entity `game_id`, as
    /// `decide` does with a retry pause of `delay_ms`: a follow-up page is
    /// enqueued, a page to retry waits to be resubmitted, anything else ends
    /// the request. `None`, with nothing changed, where no request of that
    /// entity is in flight.
    pub fn settle(&mut self, game_id: &GameId, outcome: FetchOutcome, delay_ms: u64) -> (r: Option<Settled>)
        requires
            old(self).wf(),
        ensures
            final(self).wf(),
            r is None <==> !old(self).in_flight_ids().contains(game_id@),
            r is None ==> *final(self) == *old(self),
            r matches Some(s) ==> exists|k: int|
                0 <= k < old(self).in_flight_seq().len() && old(self).in_flight_seq()[k].request.game_id@ == game_id@
                    && #[trigger] spec_settled(*old(self), *final(self), s, k, outcome, delay_ms),
    {
        let k = match find_entity(&self.in_flight, game_id) {
            Some(k) => k,
            None => return None,
        };
        let ghost before = *self;
        let el = self.in_flight.remove(k);
        let ghost id = el.request.game_id@;
        proof {
            assert(before.in_flight_ids()[k as int] == game_id@);
            lemma_ids_remove(before.in_flight@, k as int);
            assert forall|i: int| 0 <= i < self.in_flight@.len() implies #[trigger] self.in_flight@[i].retry_count <= MAX_RETRIES by {
                if i < k {
                    assert(self.in_flight@[i] == before.in_flight@[i]);
                } else {
                    assert(self.in_flight@[i] == before.in_flight@[i + 1]);
                }
            }
        }
        let step = decide(el, outcome, delay_ms);
        let r = match step {
            Step::Forward { clips, follow_up } => {
                match follow_up {
                    Some(next) => {
                        let ghost q = self.queue@;
                        self.queue.push_back(next);
                        proof {
                            broadcast use vstd::seq_lib::group_to_multiset_ensures, vstd::multiset::group_multiset_axioms;
                            lemma_ids_push(q, next);
                            assert forall|i: int| 0 <= i < self.queue@.len() implies #[trigger] self.queue@[i].retry_count <= MAX_RETRIES by {
                                if i < q.len() {
                                    assert(self.queue@[i] == q[i]);
                                }
                            }
                            assert(before.in_flight_ids().to_multiset().count(id) > 0);
                            assert(self.active() =~= before.active());
                        }
                    },
                    None => {
                        proof {
                            broadcast use vstd::multiset::group_multiset_axioms;
                            assert forall|x: Seq<char>| #[trigger] self.active().count(x) <= 1 by {
                                assert(self.active().count(x) <= before.active().count(x));
                            }
                        }
                    },
                }
                Settled::Forward { clips }
            },
            Step::Retry { element, delay_ms } => {
                let game_id = element.request.game_id.copy();
                let ghost w = self.waiting@;
                self.waiting.push(element);
                proof {
                    broadcast use vstd::seq_lib::group_to_multiset_ensures, vstd::multiset::group_multiset_axioms;
                    lemma_ids_push(w, element);
                    assert forall|i: int| 0 <= i < self.waiting@.len() implies #[trigger] self.waiting@[i].retry_count <= MAX_RETRIES by {
                        if i < w.len() {
                            assert(self.waiting@[i] == w[i]);
                        }
                    }
                    assert(before.in_flight_ids().to_multiset().count(id) > 0);
                    assert(self.active() =~= before.active());
                }
                Settled::Retry { game_id, delay_ms }
            },
            Step::GiveUp { game_id } => {
                proof {
                    broadcast use vstd::multiset::group_multiset_axioms;
                    assert forall|x: Seq<char>| #[trigger] self.active().count(x) <= 1 by {
                        assert(self.active().count(x) <= before.active().count(x));
                    }
                }
                Settled::GiveUp { game_id }
            },
            Step::Drop { game_id, message } => {
                proof {
                    broadcast use vstd::multiset::group_multiset_axioms;
                    assert forall|x: Seq<char>| #[trigger] self.active().count(x) <= 1 by {
                        assert(self.active().count(x) <= before.active().count(x));
                    }
                }
                Settled::Drop { game_id, message }
            },
        };
        proof {
            assert(spec_settled(before, *self, r, k as int, outcome, delay_ms));
        }
        Some(r)
    }

    /// Settles the answer to an in-flight request as `settle` does, with a
    /// retry pause drawn at random from `[RETRY_DELAY_MIN_MS, RETRY_DELAY_MAX_MS)`.
    pub fn settle_jittered(&mut self, game_id: &GameId, outcome: FetchOutcome) -> (r: Option<Settled>)
        requires
            old(self).wf(),
        ensures
            final(self).wf(),
            r is None <==> !old(self).in_flight_ids().contains(game_id@),
            r is None ==> *final(self) == *old(self),
            r matches Some(s) ==> exists|k: int, delay_ms: u64|
                RETRY_DELAY_MIN_MS <= delay_ms < RETRY_DELAY_MAX_MS && 0 <= k < old(self).in_flight_seq().len()
                    && old(self).in_flight_seq()[k].request.game_id@ == game_id@
                    && #[trigger] spec_settled(*old(self), *final(self), s, k, outcome, delay_ms),
    {
        let delay_ms = random_in_range(RETRY_DELAY_MIN_MS, RETRY_DELAY_MAX_MS);
        self.settle(game_id, outcome, delay_ms)
    }

    /// Puts the rate-limited page of entity `game_id` back at the end of the
    /// queue, exactly as `settle` parked it; `false`, with nothing changed,
    /// where no page of that entity is waiting.
    pub fn resubmit(&mut self, game_id: &GameId) -> (r: bool)
        requires
            old(self).wf(),
        ensures
            final(self).wf(),
            final(self).capacity_spec() == old(self).capacity_spec(),
            r <==> old(self).waiting_ids().contains(game_id@),
            !r ==> *final(self) == *old(self),
            r ==> exists|k: int| {
                &&& 0 <= k < old(self).waiting_seq().len()
                &&& old(self).waiting_seq()[k].request.game_id@ == game_id@
                &&& #[trigger] final(self).pending_seq() == old(self).pending_seq().push(old(self).waiting_seq()[k])
                &&& final(self).waiting_seq() == old(self).waiting_seq().remove(k)
                &&& final(self).in_flight_seq() == old(self).in_flight_seq()
            },
    {
        let k = match find_entity(&self.waiting, game_id) {
            Some(k) => k,
            None => return false,
        };
        let ghost before = *self;
        let el = self.waiting.remove(k);
        let ghost q = self.queue@;
        self.queue.push_back(el);
        proof {
            broadcast use vstd::seq_lib::group_to_multiset_ensures, vstd::multiset::group_multiset_axioms;
            let id = el.request.game_id@;
            lemma_ids_remove(before.waiting@, k as int);
            lemma_ids_push(q, el);
            assert forall|i: int| 0 <= i < self.waiting@.len() implies #[trigger] self.waiting@[i].retry_count <= MAX_RETRIES by {
                if i < k {
                    assert(self.waiting@[i] == before.waiting@[i]);
                } else {
                    assert(self.waiting@[i] == before.waiting@[i + 1]);
                }
            }
            assert forall|i: int| 0 <= i < self.queue@.len() implies #[trigger] self.queue@[i].retry_count <= MAX_RETRIES by {
                if i < q.len() {
                    assert(self.queue@[i] == q[i]);
                }
            }
            assert(before.waiting_ids().to_multiset().count(id) > 0);
            assert(self.active() =~= before.active());
        }
        true
    }
}

/// A run seeded at `now` starts the window of an entity without stored clips,
/// and without an "at most" override, the fixed lookback before `now`.
pub proof fn lemma_seeded_new_entity_start(job: Job, seeds: Seq<(GameId, Option<Timestamp>)>, conf: Conf, now: int, i: int)
    requires
        is_seeded_job(job, seeds, conf, now),
        0 <= i < seeds.len(),
        seeds[i].1 is None,
        conf.recorded_at_most_ago is None,
    ensures
        job.pending_seq()[i].request.game_id@ == seeds[i].0@,
        job.pending_seq()[i].request.window.start == now - DEFAULT_LOOKBACK_SECS,
{
}

/// A run seeded at `now` starts the window of an entity whose latest stored
/// clip was recorded at `t`, without an "at most" override, at `t`.
pub proof fn lemma_seeded_known_entity_start(job: Job, seeds: Seq<(GameId, Option<Timestamp>)>, conf: Conf, now: int, i: int, t: Timestamp)
    requires
        is_seeded_job(job, seeds, conf, now),
        0 <= i < seeds.len(),
        seeds[i].1 == Some(t),
        conf.recorded_at_most_ago is None,
    ensures
        job.pending_seq()[i].request.game_id@ == seeds[i].0@,
        job.pending_seq()[i].request.window.start == t,
{
}

/// Each request of a seeded run, and so each request of that run, ends its
/// window at the staleness floor before the run's start.
pub proof fn lemma_seeded_window_end(job: Job, seeds: Seq<(GameId, Option<Timestamp>)>, conf: Conf, now: int, i: int)
    requires
        is_seeded_job(job, seeds, conf, now),
        0 <= i < seeds.len(),
    ensures
        job.pending_seq()[i].request.window.end == spec_window_end(now, conf),
{
}

/// No entity ever has more than one request in the run, pending, in flight
/// or waiting to be retried: pages of one entity are fetched strictly one
/// after another.
pub proof fn lemma_one_request_per_entity(job: Job, id: Seq<char>)
    requires
        job.wf(),
    ensures
        ids_of(job.pending_seq()).to_multiset().count(id) + job.in_flight_ids().to_multiset().count(id)
            + job.waiting_ids().to_multiset().count(id) <= 1,
{
    assert(job.active().count(id) <= 1);
}

/// Pending, in-flight and waiting requests together never exceed the number
/// of seeded entities: the queue holds at most one request per pagination chain.
pub proof fn lemma_queue_within_capacity(job: Job)
    requires
        job.wf(),
    ensures
        job.pending_seq().len() + job.in_flight_spec() + job.waiting_seq().len() <= job.capacity_spec(),
{
}

} // verus!
