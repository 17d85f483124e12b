//! The append-only analytics event store.
//!
//! A non-authoritative, immutable history of label writes, one event per
//! successful write call, partitioned by project. Events are only ever
//! appended: no operation deletes or mutates a recorded event. As with the
//! relational store, a deterministic fault can be injected ahead of an
//! append to exercise the partial-failure path of the label write protocol.

use vstd::prelude::*;

use crate::ids::{ClassId, LabelId, LabelValue, ProjectId, SpanId};
use crate::labels::{LabelEvent, LabelSource};
use crate::StoreFault;

verus! {

/// Append-only history of label write events.
pub struct AnalyticsEventStore {
    events: Vec<LabelEvent>,
    fail_next_append: bool,
}

impl AnalyticsEventStore {
    /// The recorded events, oldest first.
    pub closed spec fn events_seq(self) -> Seq<LabelEvent> {
        self.events@
    }

    /// Whether an injected fault will refuse the next append.
    pub closed spec fn fault_pending(self) -> bool {
        self.fail_next_append
    }

    /// An empty history with no fault pending.
    pub fn new() -> (store: AnalyticsEventStore)
        ensures
            store.events_seq() == Seq::<LabelEvent>::empty(),
            !store.fault_pending(),
    {
        AnalyticsEventStore { events: Vec::new(), fail_next_append: false }
    }

    /// Makes the next append fail deterministically, leaving the history
    /// alone.
    pub fn inject_fault(&mut self)
        ensures
            final(self).events_seq() == old(self).events_seq(),
            final(self).fault_pending(),
    {
        self.fail_next_append = true;
    }

    /// How many events the history holds.
    pub fn len(&self) -> (n: usize)
        ensures
            n == self.events_seq().len(),
    {
        self.events.len()
    }

    /// The event at a position in the history, oldest first.
    pub fn event_at(&self, i: usize) -> (event: &LabelEvent)
        requires
            i < self.events_seq().len(),
        ensures
            *event == self.events_seq()[i as int],
    {
        &self.events[i]
    }

    /// Appends one immutable event recording a label write. The history
    /// only ever grows: on success exactly the given event is appended, and
    /// on an injected fault nothing is, with the fault consumed.
    pub fn append(
        &mut self,
        project_id: ProjectId,
        class_id: ClassId,
        label_id: LabelId,
        label_name: String,
        label_source: LabelSource,
        value_key: String,
        value: LabelValue,
        span_id: SpanId,
        recorded_at: u64,
    ) -> (result: Result<(), StoreFault>)
        ensures
            !final(self).fault_pending(),
            result is Err <==> old(self).fault_pending(),
            result is Err ==> final(self).events_seq() == old(self).events_seq(),
            result is Ok ==> final(self).events_seq() == old(self).events_seq().push(
                LabelEvent {
                    project_id,
                    class_id,
                    label_id,
                    label_name,
                    label_source,
                    value_key,
                    value,
                    span_id,
                    recorded_at,
                },
            ),
            old(self).events_seq().is_prefix_of(final(self).events_seq()),
    {
        if self.fail_next_append {
            self.fail_next_append = false;
            return Err(StoreFault);
        }
        self.events.push(
            LabelEvent {
                project_id,
                class_id,
                label_id,
                label_name,
                label_source,
                value_key,
                value,
                span_id,
                recorded_at,
            },
        );
        Ok(())
    }
}

} // verus!
