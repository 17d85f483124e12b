//! The authoritative relational label store.
//!
//! One mutable row per label id, updated in place. The store's invariant is
//! that label ids are unique across rows, so "the row for an id" is well
//! defined and an upsert leaves exactly one row for the id it wrote. A
//! deterministic fault can be injected ahead of a write to exercise the
//! relational-failure path of the label write protocol; an in-memory store
//! has no other way to fail.

use vstd::prelude::*;

use crate::ids::{ClassId, LabelId, LabelValue, SpanId};
use crate::labels::{LabelRow, LabelSource};
use crate::StoreFault;

verus! {

/// No two rows carry the same label id.
pub open spec fn ids_unique(rows: Seq<LabelRow>) -> bool {
    forall|i: int, j: int|
        0 <= i < j < rows.len() ==> rows[i].id != rows[j].id
}

/// Some row carries this label id.
pub open spec fn seq_contains_id(rows: Seq<LabelRow>, id: LabelId) -> bool {
    exists|i: int| 0 <= i < rows.len() && rows[i].id == id
}

/// An index of a row carrying this label id; under [`ids_unique`] it is the
/// only one.
pub open spec fn seq_index_of_id(rows: Seq<LabelRow>, id: LabelId) -> int {
    choose|i: int| 0 <= i < rows.len() && rows[i].id == id
}

/// How many rows carry this label id.
pub open spec fn count_id(rows: Seq<LabelRow>, id: LabelId) -> nat
    decreases rows.len(),
{
    if rows.len() == 0 {
        0
    } else {
        (if rows[0].id == id {
            1nat
        } else {
            0nat
        }) + count_id(rows.drop_first(), id)
    }
}

/// The upsert relation: `post` is `pre` with `row` written under `row.id` —
/// replacing the existing row for that id in place if there is one, appended
/// as a new row otherwise.
pub open spec fn upserted(pre: Seq<LabelRow>, post: Seq<LabelRow>, row: LabelRow) -> bool {
    if seq_contains_id(pre, row.id) {
        post == pre.update(seq_index_of_id(pre, row.id), row)
    } else {
        post == pre.push(row)
    }
}

/// Authoritative store of current label values: at most one row per label
/// id, each row mutable in place.
pub struct RelationalLabelStore {
    rows: Vec<LabelRow>,
    fail_next_write: bool,
}

impl RelationalLabelStore {
    /// The rows currently held, in insertion order.
    pub closed spec fn rows_seq(self) -> Seq<LabelRow> {
        self.rows@
    }

    /// The store invariant: label ids are unique across rows.
    pub open spec fn wf(self) -> bool {
        ids_unique(self.rows_seq())
    }

    /// Whether an injected fault will refuse the next write.
    pub closed spec fn fault_pending(self) -> bool {
        self.fail_next_write
    }

    /// Some row carries this label id.
    pub open spec fn contains_id(self, id: LabelId) -> bool {
        seq_contains_id(self.rows_seq(), id)
    }

    /// The current row for this label id.
    pub open spec fn row_for(self, id: LabelId) -> LabelRow
        recommends
            self.contains_id(id),
    {
        self.rows_seq()[seq_index_of_id(self.rows_seq(), id)]
    }

    /// An empty store with no fault pending.
    pub fn new() -> (store: RelationalLabelStore)
        ensures
            store.wf(),
            store.rows_seq() == Seq::<LabelRow>::empty(),
            !store.fault_pending(),
    {
        RelationalLabelStore { rows: Vec::new(), fail_next_write: false }
    }

    /// Makes the next write fail deterministically, leaving the rows alone.
    pub fn inject_fault(&mut self)
        ensures
            final(self).rows_seq() == old(self).rows_seq(),
            final(self).fault_pending(),
    {
        self.fail_next_write = true;
    }

    /// How many rows the store holds.
    pub fn len(&self) -> (n: usize)
        ensures
            n == self.rows_seq().len(),
    {
        self.rows.len()
    }

    /// The current row for a label id, if the store holds one.
    pub fn get(&self, id: LabelId) -> (found: Option<&LabelRow>)
        requires
            self.wf(),
        ensures
            found is Some <==> self.contains_id(id),
            found matches Some(row) ==> *row == self.row_for(id),
    {
        let n = self.rows.len();
        let mut i: usize = 0;
        while i < n
            invariant
                n == self.rows_seq().len(),
                0 <= i <= n,
                forall|j: int| 0 <= j < i ==> self.rows_seq()[j].id != id,
                self.wf(),
            decreases n - i,
        {
            if self.rows[i].id == id {
                assert(self.contains_id(id));
                proof {
                    let w = seq_index_of_id(self.rows_seq(), id);
                    assert(0 <= w < self.rows_seq().len() && self.rows_seq()[w].id == id);
                    assert(w == i) by {
                        if w != i {
                            assert(self.rows_seq()[w].id != self.rows_seq()[i as int].id);
                        }
                    }
                }
                return Some(&self.rows[i]);
            }
            i = i + 1;
        }
        assert(!self.contains_id(id));
        None
    }

    /// Writes a label under `id`: updates the existing row in place (keeping
    /// its original `span_id`, which is immutable once set) or appends a new
    /// row. Returns an exact copy of the resulting row. Fails only when a
    /// fault was injected, in which case the rows are untouched and the
    /// fault is consumed.
    pub fn upsert(
        &mut self,
        id: LabelId,
        span_id: SpanId,
        class_id: ClassId,
        value: LabelValue,
        user_email: Option<String>,
        label_source: LabelSource,
        reasoning: Option<String>,
        updated_at: u64,
    ) -> (result: Result<LabelRow, StoreFault>)
        requires
            old(self).wf(),
        ensures
            final(self).wf(),
            !final(self).fault_pending(),
            result is Err <==> old(self).fault_pending(),
            result is Err ==> final(self).rows_seq() == old(self).rows_seq(),
            result matches Ok(row) ==> {
                &&& row.id == id
                &&& row.class_id == class_id
                &&& row.value == value
                &&& row.user_email == user_email
                &&& row.label_source == label_source
                &&& row.reasoning == reasoning
                &&& row.updated_at == updated_at
                &&& row.span_id == if old(self).contains_id(id) {
                    old(self).row_for(id).span_id
                } else {
                    span_id
                }
                &&& upserted(old(self).rows_seq(), final(self).rows_seq(), row)
                &&& final(self).contains_id(id)
                &&& final(self).row_for(id) == row
            },
    {
        if self.fail_next_write {
            self.fail_next_write = false;
            return Err(StoreFault);
        }
        let n = self.rows.len();
        let mut i: usize = 0;
        while i < n
            invariant
                n == self.rows_seq().len(),
                0 <= i <= n,
                forall|j: int| 0 <= j < i ==> self.rows_seq()[j].id != id,
                self.wf(),
                self.rows_seq() == old(self).rows_seq(),
                !self.fault_pending(),
                !old(self).fault_pending(),
            decreases n - i,
        {
            if self.rows[i].id == id {
                let row = LabelRow {
                    id,
                    span_id: self.rows[i].span_id,
                    class_id,
                    value,
                    user_email,
                    label_source,
                    reasoning,
                    updated_at,
                };
                let copy = row.clone();
                let ghost pre = self.rows@;
                proof {
                    assert(seq_contains_id(pre, id));
                    let w = seq_index_of_id(pre, id);
                    assert(0 <= w < pre.len() && pre[w].id == id);
                    assert(w == i) by {
                        if w != i {
                            assert(pre[w].id != pre[i as int].id);
                        }
                    }
                }
                self.rows[i] = row;
                proof {
                    lemma_update_keeps_unique(pre, self.rows@, i as int, id);
                    let w2 = seq_index_of_id(self.rows@, id);
                    assert(self.rows@[i as int].id == id);
                    assert(0 <= w2 < self.rows@.len() && self.rows@[w2].id == id);
                    assert(w2 == i) by {
                        if w2 != i {
                            assert(self.rows@[w2].id != self.rows@[i as int].id);
                        }
                    }
                }
                return Ok(copy);
            }
            i = i + 1;
        }
        let row = LabelRow {
            id,
            span_id,
            class_id,
            value,
            user_email,
            label_source,
            reasoning,
            updated_at,
        };
        let copy = row.clone();
        let ghost pre = self.rows@;
        self.rows.push(row);
        proof {
            assert(!seq_contains_id(pre, id));
            assert forall|a: int, b: int|
                0 <= a < b < self.rows@.len() implies self.rows@[a].id != self.rows@[b].id by {
                if b < pre.len() as int {
                    assert(pre[a].id != pre[b].id);
                } else {
                    assert(self.rows@[b].id == id);
                    assert(self.rows@[a] == pre[a]);
                }
            }
            let w2 = seq_index_of_id(self.rows@, id);
            let last = pre.len() as int;
            assert(self.rows@[last].id == id);
            assert(0 <= w2 < self.rows@.len() && self.rows@[w2].id == id);
            assert(w2 == last) by {
                if w2 != last {
                    assert(self.rows@[w2].id != self.rows@[last].id);
                }
            }
        }
        Ok(copy)
    }
}

/// Replacing a row with one carrying the same label id keeps ids unique.
proof fn lemma_update_keeps_unique(pre: Seq<LabelRow>, post: Seq<LabelRow>, k: int, id: LabelId)
    requires
        ids_unique(pre),
        0 <= k < pre.len(),
        pre[k].id == id,
        post.len() == pre.len(),
        post[k].id == id,
        forall|j: int| 0 <= j < pre.len() && j != k ==> post[j] == pre[j],
    ensures
        ids_unique(post),
{
    assert forall|a: int, b: int| 0 <= a < b < post.len() implies post[a].id != post[b].id by {
        assert(pre[a].id != pre[b].id);
    }
}

/// Under unique ids, holding an id means holding it exactly once, and not
/// holding it means a count of zero.
pub proof fn lemma_unique_count(rows: Seq<LabelRow>, id: LabelId)
    requires
        ids_unique(rows),
    ensures
        seq_contains_id(rows, id) ==> count_id(rows, id) == 1,
        !seq_contains_id(rows, id) ==> count_id(rows, id) == 0,
    decreases rows.len(),
{
    if rows.len() > 0 {
        let rest = rows.drop_first();
        assert(ids_unique(rest)) by {
            assert forall|a: int, b: int|
                0 <= a < b < rest.len() implies rest[a].id != rest[b].id by {
                assert(rows[a + 1].id != rows[b + 1].id);
            }
        }
        lemma_unique_count(rest, id);
        if rows[0].id == id {
            assert(!seq_contains_id(rest, id)) by {
                if seq_contains_id(rest, id) {
                    let w = choose|i: int| 0 <= i < rest.len() && rest[i].id == id;
                    assert(rows[0].id != rows[w + 1].id);
                }
            }
        } else {
            if seq_contains_id(rows, id) {
                let w = choose|i: int| 0 <= i < rows.len() && rows[i].id == id;
                assert(rest[w - 1].id == id);
                assert(seq_contains_id(rest, id));
            }
            if seq_contains_id(rest, id) {
                let w = choose|i: int| 0 <= i < rest.len() && rest[i].id == id;
                assert(rows[w + 1].id == id);
                assert(seq_contains_id(rows, id));
            }
        }
    }
}

} // verus!
