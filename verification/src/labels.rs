//! The label model and the dual-store label write path.
//!
//! A label is one annotation attached to exactly one span. The relational
//! store owns the authoritative, mutable current value of each label, one
//! row per label id; the analytics store owns an append-only history with
//! one immutable event per write call. [`insert_or_update_label`] is the
//! only write path into either store: it upserts the relational row first,
//! then appends the analytics event, and reports a failure of the second
//! step after the first has committed as a distinct partial outcome.

use vstd::prelude::*;

use crate::analytics_store::AnalyticsEventStore;
use crate::clock::LogicalClock;
use crate::ids::{ClassId, LabelId, LabelValue, ProjectId, SpanId};
use crate::relational_store::{
    count_id, ids_unique, lemma_unique_count, seq_contains_id, seq_index_of_id, upserted,
    RelationalLabelStore,
};

verus! {

/// Provenance of a label value: who or what produced it.
#[derive(Clone, Copy, PartialEq, Eq, Structural, Debug)]
pub enum LabelSource {
    /// A human annotator; `user_email` on the row attributes the author.
    ManualHuman,
    /// An automated evaluator proposed the value.
    AutomatedEvaluator,
    /// Some other programmatic source.
    ProgrammaticOther,
}

/// The authoritative relational record of one label: a single mutable row
/// keyed by `id`, updated in place by repeated writes.
#[derive(PartialEq, Debug)]
pub struct LabelRow {
    pub id: LabelId,
    /// The owning span; immutable once the row exists.
    pub span_id: SpanId,
    pub class_id: ClassId,
    pub value: LabelValue,
    /// Attributes a human author; meaningful for manually sourced labels.
    pub user_email: Option<String>,
    pub label_source: LabelSource,
    /// Optional free-text explanation of the value.
    pub reasoning: Option<String>,
    /// Instant of the write that produced this version of the row.
    pub updated_at: u64,
}

/// One immutable analytical record of a label write, carrying the project
/// identity and the label's name alongside the written fields.
#[derive(PartialEq, Debug)]
pub struct LabelEvent {
    pub project_id: ProjectId,
    pub class_id: ClassId,
    pub label_id: LabelId,
    pub label_name: String,
    pub label_source: LabelSource,
    /// Discriminator for multi-valued label classes.
    pub value_key: String,
    pub value: LabelValue,
    pub span_id: SpanId,
    /// Instant of the append that recorded this event.
    pub recorded_at: u64,
}

/// Copies an optional owned string, preserving its value exactly.
fn clone_opt_string(s: &Option<String>) -> (res: Option<String>)
    ensures
        res == *s,
{
    match s {
        Some(x) => Some(x.clone()),
        None => None,
    }
}

impl Clone for LabelRow {
    /// An exact copy: every field of the copy equals the original's.
    fn clone(&self) -> (res: Self)
        ensures
            res == *self,
    {
        LabelRow {
            id: self.id,
            span_id: self.span_id,
            class_id: self.class_id,
            value: self.value,
            user_email: clone_opt_string(&self.user_email),
            label_source: self.label_source,
            reasoning: clone_opt_string(&self.reasoning),
            updated_at: self.updated_at,
        }
    }
}

/// How one call of [`insert_or_update_label`] ended. The two write steps
/// are not atomic, so a failure of the second after the first has committed
/// is its own outcome, distinct from total failure.
#[derive(PartialEq, Debug)]
pub enum LabelWriteOutcome {
    /// Both writes succeeded; `row` is the authoritative resulting row.
    Committed { row: LabelRow },
    /// The relational upsert committed but the analytics append failed: the
    /// authoritative store holds `row`, while the event history is missing
    /// an event for this write. A partial success, not a total failure.
    AnalyticsWriteFailed { row: LabelRow },
    /// The relational upsert failed; nothing was written anywhere and no
    /// analytics append was attempted.
    RelationalWriteFailed,
}

impl LabelWriteOutcome {
    /// The relational write committed under this outcome.
    pub open spec fn relational_committed(self) -> bool {
        self is Committed || self is AnalyticsWriteFailed
    }

    /// The authoritative row of an outcome whose relational write committed.
    pub open spec fn spec_row(self) -> LabelRow
        recommends
            self.relational_committed(),
    {
        match self {
            LabelWriteOutcome::Committed { row } => row,
            LabelWriteOutcome::AnalyticsWriteFailed { row } => row,
            LabelWriteOutcome::RelationalWriteFailed => arbitrary(),
        }
    }
}

/// Writes a label value against a span, to both stores, in two ordered
/// steps: first the authoritative relational upsert under `id`, then the
/// append of one analytics event carrying the same write. The steps are
/// deliberately not atomic — there is no cross-store transaction and no
/// compensating action:
///
/// - if the relational upsert fails, the call fails as a whole and no
///   analytics append is attempted;
/// - if the relational upsert succeeds and the analytics append fails, the
///   relational store keeps the new row and the gap in the history is
///   surfaced as [`LabelWriteOutcome::AnalyticsWriteFailed`];
/// - on full success, the row's write stamp never exceeds the appended
///   event's, both being drawn in order from one shared clock.
///
/// The upsert keys on `id` alone: repeating a call with the same `id`
/// updates the one existing row in place (its `span_id` staying as first
/// written) and appends one further event, so the relational store always
/// holds a single current value per label while the history accumulates
/// every write.
///
/// No per-label ordering is promised across concurrent callers: writes to
/// the same `id` race at the relational layer and the last write
/// *committed* wins — which need not be the last one *called* — with the
/// history recording events in completion order. Upsert-by-id also makes a
/// relational retry after a timeout naturally idempotent; retrying the
/// analytics append is not, and would duplicate history events unless the
/// caller deduplicates them itself.
pub fn insert_or_update_label(
    relational: &mut RelationalLabelStore,
    analytics: &mut AnalyticsEventStore,
    clock: &mut LogicalClock,
    project_id: ProjectId,
    id: LabelId,
    span_id: SpanId,
    class_id: ClassId,
    user_email: Option<String>,
    label_name: String,
    value_key: String,
    value: LabelValue,
    label_source: LabelSource,
    reasoning: Option<String>,
) -> (outcome: LabelWriteOutcome)
    requires
        old(relational).wf(),
    ensures
        final(relational).wf(),
        // A write attempt consumes a pending fault: the relational store is
        // always attempted, the analytics store only after relational
        // success.
        !final(relational).fault_pending(),
        !(outcome is RelationalWriteFailed) ==> !final(analytics).fault_pending(),
        // Which outcome comes, exactly: the injected store faults decide.
        outcome is RelationalWriteFailed <==> old(relational).fault_pending(),
        outcome is AnalyticsWriteFailed <==> !old(relational).fault_pending()
            && old(analytics).fault_pending(),
        outcome is Committed <==> !old(relational).fault_pending()
            && !old(analytics).fault_pending(),
        // A relational failure aborts the whole call: no store changes.
        outcome is RelationalWriteFailed ==> {
            &&& final(relational).rows_seq() == old(relational).rows_seq()
            &&& final(analytics).events_seq() == old(analytics).events_seq()
            &&& final(analytics).fault_pending() == old(analytics).fault_pending()
        },
        // Once the relational write commits, the authoritative row is in
        // place whatever happens to the analytics append.
        outcome.relational_committed() ==> {
            let row = outcome.spec_row();
            &&& row.id == id
            &&& row.class_id == class_id
            &&& row.value == value
            &&& row.user_email == user_email
            &&& row.label_source == label_source
            &&& row.reasoning == reasoning
            &&& row.updated_at == old(clock).current()
            &&& row.span_id == if old(relational).contains_id(id) {
                old(relational).row_for(id).span_id
            } else {
                span_id
            }
            &&& upserted(old(relational).rows_seq(), final(relational).rows_seq(), row)
            &&& final(relational).contains_id(id)
            &&& final(relational).row_for(id) == row
        },
        // A failed append leaves the history missing this write's event.
        outcome is AnalyticsWriteFailed ==> final(analytics).events_seq()
            == old(analytics).events_seq(),
        // On full success exactly one event is appended, recording the same
        // write, stamped no earlier than the relational row.
        outcome matches LabelWriteOutcome::Committed { row } ==> {
            let event = final(analytics).events_seq().last();
            &&& final(analytics).events_seq() == old(analytics).events_seq().push(event)
            &&& event.project_id == project_id
            &&& event.class_id == class_id
            &&& event.label_id == id
            &&& event.label_name == label_name
            &&& event.label_source == label_source
            &&& event.value_key == value_key
            &&& event.value == value
            &&& event.span_id == span_id
            &&& row.updated_at <= event.recorded_at
        },
        // The history is append-only whatever the outcome.
        old(analytics).events_seq().is_prefix_of(final(analytics).events_seq()),
{
    let relational_stamp = clock.tick();
    match relational.upsert(
        id,
        span_id,
        class_id,
        value,
        user_email,
        label_source,
        reasoning,
        relational_stamp,
    ) {
        Err(_) => LabelWriteOutcome::RelationalWriteFailed,
        Ok(row) => {
            let analytics_stamp = clock.tick();
            match analytics.append(
                project_id,
                class_id,
                id,
                label_name,
                label_source,
                value_key,
                value,
                span_id,
                analytics_stamp,
            ) {
                Ok(()) => LabelWriteOutcome::Committed { row },
                Err(_) => LabelWriteOutcome::AnalyticsWriteFailed { row },
            }
        },
    }
}

/// Idempotent relational upsert, as a law: two successive writes under the
/// same label id — whatever their values — leave exactly one relational row
/// for that id, and it is the row of the second write.
pub proof fn lemma_upsert_idempotent(
    rows0: Seq<LabelRow>,
    rows1: Seq<LabelRow>,
    rows2: Seq<LabelRow>,
    row1: LabelRow,
    row2: LabelRow,
)
    requires
        ids_unique(rows0),
        upserted(rows0, rows1, row1),
        upserted(rows1, rows2, row2),
        row1.id == row2.id,
    ensures
        count_id(rows2, row2.id) == 1,
        seq_contains_id(rows2, row2.id),
        rows2[seq_index_of_id(rows2, row2.id)] == row2,
{
    let id = row1.id;
    // The first write leaves a unique-id row set holding `id`.
    assert(ids_unique(rows1) && seq_contains_id(rows1, id)) by {
        if seq_contains_id(rows0, id) {
            let k = seq_index_of_id(rows0, id);
            assert(0 <= k < rows0.len() && rows0[k].id == id);
            assert(rows1[k].id == id);
            assert forall|a: int, b: int|
                0 <= a < b < rows1.len() implies rows1[a].id != rows1[b].id by {
                assert(rows0[a].id != rows0[b].id);
            }
        } else {
            assert(rows1[rows0.len() as int].id == id);
            assert forall|a: int, b: int|
                0 <= a < b < rows1.len() implies rows1[a].id != rows1[b].id by {
                if b < rows0.len() as int {
                    assert(rows0[a].id != rows0[b].id);
                } else {
                    assert(rows1[b].id == id);
                    assert(rows1[a] == rows0[a]);
                }
            }
        }
    }
    // So the second write updates that one row in place.
    let k = seq_index_of_id(rows1, id);
    assert(0 <= k < rows1.len() && rows1[k].id == id);
    assert(rows2 == rows1.update(k, row2));
    assert(ids_unique(rows2)) by {
        assert forall|a: int, b: int|
            0 <= a < b < rows2.len() implies rows2[a].id != rows2[b].id by {
            assert(rows1[a].id != rows1[b].id);
        }
    }
    assert(rows2[k] == row2);
    assert(seq_contains_id(rows2, id));
    let w = seq_index_of_id(rows2, id);
    assert(0 <= w < rows2.len() && rows2[w].id == id);
    assert(w == k) by {
        if w != k {
            assert(rows2[w].id != rows2[k].id);
        }
    }
    lemma_unique_count(rows2, id);
}

} // verus!
