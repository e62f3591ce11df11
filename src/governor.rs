use vstd::prelude::*;

use std::collections::VecDeque;

verus! {

/// Length of the rolling admission window, in milliseconds.
pub const WINDOW_MS: u64 = 1000;

/// Default ceiling on fetches started within any rolling window (the remote
/// limit of 800 a minute, rounded down).
pub const MAX_REQUESTS_PER_SECOND: usize = 10;

/// Admission times, in order of admission, never decreasing.
pub open spec fn sorted(h: Seq<u64>) -> bool {
    forall|i: int, j: int| 0 <= i <= j < h.len() ==> h[i] <= h[j]
}

/// Any `ceiling + 1` consecutive admissions span at least one window.
pub open spec fn spaced(h: Seq<u64>, ceiling: nat) -> bool {
    forall|i: int| 0 <= i && i + ceiling < h.len() ==> #[trigger] h[i + ceiling] >= h[i] + WINDOW_MS
}

/// Whether one more start at `now` keeps within the ceiling; an instant
/// before the last admission is refused.
pub open spec fn spec_may_admit(h: Seq<u64>, ceiling: nat, now: u64) -> bool {
    &&& (h.len() > 0 ==> now >= h.last())
    &&& (h.len() < ceiling || now >= h[h.len() - ceiling] + WINDOW_MS)
}

/// Rate governor: admits the start of a fetch at a given instant only if fewer
/// than `ceiling` starts were admitted within the rolling window that ends at it.
/// It keeps the instants of the last `ceiling` admissions.
pub struct Governor {
    ceiling: usize,
    recent: VecDeque<u64>,
    history: Ghost<Seq<u64>>,
}

impl Governor {
    /// Every admission so far, oldest first.
    pub closed spec fn admitted(&self) -> Seq<u64> {
        self.history@
    }

    pub closed spec fn ceiling_spec(&self) -> nat {
        self.ceiling as nat
    }

    pub closed spec fn wf(&self) -> bool {
        let h = self.history@;
        &&& self.ceiling >= 1
        &&& self.recent@.len() == if h.len() < self.ceiling { h.len() } else { self.ceiling as nat }
        &&& self.recent@ == h.subrange(h.len() - self.recent@.len(), h.len() as int)
        &&& sorted(h)
        &&& spaced(h, self.ceiling as nat)
    }

    pub fn new(ceiling: usize) -> (r: Governor)
        requires
            ceiling >= 1,
        ensures
            r.wf(),
            r.ceiling_spec() == ceiling,
            r.admitted() == Seq::<u64>::empty(),
    {
        let r = Governor { ceiling, recent: VecDeque::new(), history: Ghost(Seq::empty()) };
        assert(r.recent@ =~= Seq::<u64>::empty().subrange(0, 0));
        r
    }

    pub fn ceiling(&self) -> (r: usize)
        ensures
            r == self.ceiling_spec(),
    {
        self.ceiling
    }

    /// Admits a start at `now` if the ceiling allows it and `now` is no
    /// earlier than the last admission.
    pub fn try_admit(&mut self, now: u64) -> (r: bool)
        requires
            old(self).wf(),
        ensures
            final(self).wf(),
            final(self).ceiling_spec() == old(self).ceiling_spec(),
            r == spec_may_admit(old(self).admitted(), old(self).ceiling_spec(), now),
            r ==> final(self).admitted() == old(self).admitted().push(now),
            !r ==> final(self).admitted() == old(self).admitted(),
    {
        let ghost h = self.history@;
        let ghost c = self.ceiling as nat;
        let n = self.recent.len();
        if n > 0 && now < self.recent[n - 1] {
            assert(self.recent@[n - 1] == h.last());
            return false;
        }
        assert(h.len() > 0 ==> self.recent@[n - 1] == h.last());
        if self.recent.len() < self.ceiling {
            self.recent.push_back(now);
            self.history = Ghost(h.push(now));
            proof {
                let h2 = h.push(now);
                assert(self.recent@ =~= h2.subrange(h2.len() - self.recent@.len(), h2.len() as int));
                assert forall|i: int, j: int| 0 <= i <= j < h2.len() implies h2[i] <= h2[j] by {
                    if j < h.len() {
                        assert(h2[i] == h[i] && h2[j] == h[j]);
                    }
                }
                assert forall|i: int| 0 <= i && i + c < h2.len() implies #[trigger] h2[i + c] >= h2[i] + WINDOW_MS by {
                    assert(h2[i + c] == h[i + c] && h2[i] == h[i]);
                }
            }
            true
        } else {
            let oldest = self.recent[0];
            assert(oldest == h[h.len() - c]);
            if now >= oldest && now - oldest >= WINDOW_MS {
                self.recent.pop_front();
                self.recent.push_back(now);
                self.history = Ghost(h.push(now));
                proof {
                    let h2 = h.push(now);
                    assert(self.recent@ =~= h2.subrange(h2.len() - self.recent@.len(), h2.len() as int));
                    assert forall|i: int, j: int| 0 <= i <= j < h2.len() implies h2[i] <= h2[j] by {
                        if j < h.len() {
                            assert(h2[i] == h[i] && h2[j] == h[j]);
                        }
                    }
                    assert forall|i: int| 0 <= i && i + c < h2.len() implies #[trigger] h2[i + c] >= h2[i] + WINDOW_MS by {
                        if i + c < h.len() {
                            assert(h2[i + c] == h[i + c] && h2[i] == h[i]);
                        }
                    }
                }
                true
            } else {
                false
            }
        }
    }

    /// The earliest instant at which a start can be admitted (saturating).
    pub fn next_free_at(&self) -> (r: u64)
        requires
            self.wf(),
        ensures
            self.admitted().len() < self.ceiling_spec() ==> r == 0,
            self.admitted().len() >= self.ceiling_spec() ==> {
                let h = self.admitted();
                let due = h[h.len() - self.ceiling_spec()] + WINDOW_MS;
                r == if due <= u64::MAX { due } else { u64::MAX as int }
            },
    {
        if self.recent.len() < self.ceiling {
            0
        } else {
            let oldest = self.recent[0];
            if oldest > u64::MAX - WINDOW_MS {
                u64::MAX
            } else {
                oldest + WINDOW_MS
            }
        }
    }
}

/// No rolling window holds more than the ceiling of admitted starts: whenever
/// the admissions from the `i`-th to the `j`-th all fall within
/// `[from, from + WINDOW_MS)`, there are at most `ceiling` of them.
pub proof fn lemma_ceiling_per_window(g: Governor, from: int, i: int, j: int)
    requires
        g.wf(),
        0 <= i <= j < g.admitted().len(),
        from <= g.admitted()[i],
        g.admitted()[j] < from + WINDOW_MS,
    ensures
        j - i + 1 <= g.ceiling_spec(),
{
    let h = g.admitted();
    let c = g.ceiling_spec();
    if j - i + 1 > c {
        assert(h[i + c] >= h[i] + WINDOW_MS);
        assert(h[i + c] <= h[j]);
    }
}

} // verus!
