use vstd::prelude::*;

use crate::models::Clip;

verus! {

/// The table after upserting `clip`: its id now maps to it, whatever was there.
pub open spec fn spec_upsert(table: Map<Seq<char>, Clip>, clip: Clip) -> Map<Seq<char>, Clip> {
    table.insert(clip.id@, clip)
}

/// The table after upserting the clips of `batch` in order.
pub open spec fn spec_upsert_all(table: Map<Seq<char>, Clip>, batch: Seq<Clip>) -> Map<Seq<char>, Clip>
    decreases batch.len(),
{
    if batch.len() == 0 {
        table
    } else {
        spec_upsert(spec_upsert_all(table, batch.drop_last()), batch.last())
    }
}

pub open spec fn has_id(rows: Seq<Clip>, id: Seq<char>) -> bool {
    exists|i: int| 0 <= i < rows.len() && #[trigger] rows[i].id@ == id
}

/// Clip storage kept in memory: one row per clip id, and an upsert that
/// replaces the row of a known id (insert-or-replace keyed by clip id).
pub struct ClipStore {
    rows: Vec<Clip>,
}

impl ClipStore {
    /// The stored rows, by clip id.
    pub closed spec fn table(&self) -> Map<Seq<char>, Clip> {
        Map::new(
            |id: Seq<char>| has_id(self.rows@, id),
            |id: Seq<char>| self.rows@[choose|i: int| 0 <= i < self.rows@.len() && #[trigger] self.rows@[i].id@ == id],
        )
    }

    pub closed spec fn wf(&self) -> bool {
        forall|i: int, j: int|
            0 <= i < self.rows@.len() && 0 <= j < self.rows@.len() && i != j ==> #[trigger] self.rows@[i].id@ != #[trigger] self.rows@[j].id@
    }

    proof fn lemma_row_in_table(&self, i: int)
        requires
            self.wf(),
            0 <= i < self.rows@.len(),
        ensures
            self.table().contains_key(self.rows@[i].id@),
            self.table()[self.rows@[i].id@] == self.rows@[i],
    {
        let id = self.rows@[i].id@;
        assert(has_id(self.rows@, id));
        let k = choose|k: int| 0 <= k < self.rows@.len() && #[trigger] self.rows@[k].id@ == id;
        assert(k == i);
    }

    pub fn new() -> (r: ClipStore)
        ensures
            r.wf(),
            r.table() == Map::<Seq<char>, Clip>::empty(),
    {
        let r = ClipStore { rows: Vec::new() };
        assert(r.table() =~= Map::<Seq<char>, Clip>::empty());
        r
    }

    /// Number of stored rows.
    pub fn len(&self) -> (r: usize)
        requires
            self.wf(),
        ensures
            r == self.table().len(),
    {
        proof { self.lemma_len(); }
        self.rows.len()
    }

    proof fn lemma_len(&self)
        requires
            self.wf(),
        ensures
            self.table().len() == self.rows@.len(),
            self.table().dom().finite(),
        decreases self.rows@.len(),
    {
        let ids = self.rows@.map_values(|c: Clip| c.id@);
        assert forall|i: int, j: int| 0 <= i < ids.len() && 0 <= j < ids.len() && i != j implies ids[i] != ids[j] by {
            assert(self.rows@[i].id@ != self.rows@[j].id@);
        }
        ids.unique_seq_to_set();
        assert forall|id: Seq<char>| self.table().dom().contains(id) <==> ids.to_set().contains(id) by {
            if self.table().dom().contains(id) {
                let i = choose|i: int| 0 <= i < self.rows@.len() && #[trigger] self.rows@[i].id@ == id;
                assert(ids[i] == id);
            }
            if ids.to_set().contains(id) {
                let i = choose|i: int| 0 <= i < ids.len() && ids[i] == id;
                assert(self.rows@[i].id@ == id);
            }
        }
        assert(self.table().dom() =~= ids.to_set());
    }

    /// The stored row of clip `id`, if any.
    pub fn get(&self, id: &String) -> (r: Option<&Clip>)
        requires
            self.wf(),
        ensures
            self.table().contains_key(id@) ==> r == Some(&self.table()[id@]),
            !self.table().contains_key(id@) ==> r is None,
    {
        let mut i: usize = 0;
        while i < self.rows.len()
            invariant
                self.wf(),
                i <= self.rows@.len(),
                forall|k: int| 0 <= k < i ==> #[trigger] self.rows@[k].id@ != id@,
            decreases self.rows@.len() - i,
        {
            if self.rows[i].id == *id {
                proof { self.lemma_row_in_table(i as int); }
                return Some(&self.rows[i]);
            }
            i = i + 1;
        }
        None
    }

    /// Inserts `clip`, replacing the row with the same id if there is one.
    pub fn upsert(&mut self, clip: Clip)
        requires
            old(self).wf(),
        ensures
            final(self).wf(),
            final(self).table() == spec_upsert(old(self).table(), clip),
    {
        let ghost old_rows = self.rows@;
        let mut i: usize = 0;
        while i < self.rows.len()
            invariant
                self.rows@ == old_rows,
                self.wf(),
                old(self).wf(),
                old(self).rows@ == old_rows,
                i <= self.rows@.len(),
                forall|k: int| 0 <= k < i ==> #[trigger] self.rows@[k].id@ != clip.id@,
            decreases self.rows@.len() - i,
        {
            if self.rows[i].id == clip.id {
                self.rows.set(i, clip);
                proof {
                    let t = spec_upsert(old(self).table(), clip);
                    assert forall|a: int, b: int| 0 <= a < self.rows@.len() && 0 <= b < self.rows@.len() && a != b implies #[trigger] self.rows@[a].id@ != #[trigger] self.rows@[b].id@ by {
                        assert(old_rows[a].id@ != old_rows[b].id@);
                    }
                    assert forall|id: Seq<char>| self.table().contains_key(id) <==> t.contains_key(id) by {
                        if has_id(old_rows, id) {
                            let k = choose|k: int| 0 <= k < old_rows.len() && #[trigger] old_rows[k].id@ == id;
                            assert(self.rows@[k].id@ == id);
                        }
                        if has_id(self.rows@, id) {
                            let k = choose|k: int| 0 <= k < self.rows@.len() && #[trigger] self.rows@[k].id@ == id;
                            assert(old_rows[k].id@ == id);
                        }
                    }
                    assert forall|id: Seq<char>| #[trigger] self.table().contains_key(id) implies self.table()[id] == t[id] by {
                        let k = choose|k: int| 0 <= k < self.rows@.len() && #[trigger] self.rows@[k].id@ == id;
                        self.lemma_row_in_table(k);
                        if k != i {
                            old(self).lemma_row_in_table(k);
                        }
                    }
                    assert(self.table() =~= t);
                }
                return;
            }
            i = i + 1;
        }
        self.rows.push(clip);
        proof {
            let t = spec_upsert(old(self).table(), clip);
            let n = old_rows.len() as int;
            assert forall|a: int, b: int| 0 <= a < self.rows@.len() && 0 <= b < self.rows@.len() && a != b implies #[trigger] self.rows@[a].id@ != #[trigger] self.rows@[b].id@ by {
                if a < n && b < n {
                    assert(old_rows[a].id@ != old_rows[b].id@);
                }
            }
            assert forall|id: Seq<char>| self.table().contains_key(id) <==> t.contains_key(id) by {
                if has_id(old_rows, id) {
                    let k = choose|k: int| 0 <= k < old_rows.len() && #[trigger] old_rows[k].id@ == id;
                    assert(self.rows@[k].id@ == id);
                }
                if id == clip.id@ {
                    assert(self.rows@[n].id@ == id);
                }
                if has_id(self.rows@, id) {
                    let k = choose|k: int| 0 <= k < self.rows@.len() && #[trigger] self.rows@[k].id@ == id;
                    if k < n {
                        assert(old_rows[k].id@ == id);
                    }
                }
            }
            assert forall|id: Seq<char>| #[trigger] self.table().contains_key(id) implies self.table()[id] == t[id] by {
                let k = choose|k: int| 0 <= k < self.rows@.len() && #[trigger] self.rows@[k].id@ == id;
                self.lemma_row_in_table(k);
                if k < n {
                    old(self).lemma_row_in_table(k);
                }
            }
            assert(self.table() =~= t);
        }
    }

    /// Upserts the clips of `batch` in order, as one write.
    pub fn upsert_batch(&mut self, batch: Vec<Clip>)
        requires
            old(self).wf(),
        ensures
            final(self).wf(),
            final(self).table() == spec_upsert_all(old(self).table(), batch@),
    {
        let ghost all = batch@;
        let n = batch.len();
        let mut batch = batch;
        let mut done: usize = 0;
        while batch.len() > 0
            invariant
                self.wf(),
                all.len() == n,
                done + batch@.len() == all.len(),
                batch@ == all.skip(done as int),
                self.table() == spec_upsert_all(old(self).table(), all.take(done as int)),
            decreases batch@.len(),
        {
            let clip = batch.remove(0);
            proof {
                assert(clip == all[done as int]);
                assert(all.take(done + 1).drop_last() =~= all.take(done as int));
            }
            self.upsert(clip);
            done = done + 1;
            proof {
                assert(batch@ =~= all.skip(done as int));
            }
        }
        proof {
            assert(all.take(done as int) =~= all);
        }
    }
}

/// Upserting two clips with the same id leaves one row for that id, holding
/// the later one (and so its view count): the last write wins.
pub proof fn lemma_last_write_wins(table: Map<Seq<char>, Clip>, first: Clip, second: Clip)
    requires
        first.id@ == second.id@,
    ensures
        spec_upsert_all(table, seq![first, second]).contains_key(first.id@),
        spec_upsert_all(table, seq![first, second])[first.id@] == second,
        spec_upsert_all(table, seq![first, second])[first.id@].view_count == second.view_count,
        spec_upsert_all(table, seq![first, second]).dom() == spec_upsert(table, first).dom(),
{
    let batch = seq![first, second];
    assert(batch.drop_last() =~= seq![first]);
    assert(seq![first].drop_last() =~= Seq::<Clip>::empty());
    assert(spec_upsert_all(table, Seq::<Clip>::empty()) == table);
    assert(spec_upsert_all(table, seq![first]) == spec_upsert(table, first));
    assert(spec_upsert_all(table, batch) == spec_upsert(spec_upsert(table, first), second));
    assert(spec_upsert_all(table, seq![first, second]).dom() =~= spec_upsert(table, first).dom());
}

} // verus!
