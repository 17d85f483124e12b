// The dual-store label write path: idempotent relational upsert, ordered
// two-phase writes, partial-failure surfacing, and the append-only history.

use label_pipeline::analytics_store::AnalyticsEventStore;
use label_pipeline::clock::LogicalClock;
use label_pipeline::ids::{ClassId, LabelId, LabelValue, ProjectId, SpanId};
use label_pipeline::labels::{insert_or_update_label, LabelSource, LabelWriteOutcome};
use label_pipeline::relational_store::RelationalLabelStore;

fn score(value: f64) -> LabelValue {
    LabelValue(value.to_bits())
}

struct Stores {
    relational: RelationalLabelStore,
    analytics: AnalyticsEventStore,
    clock: LogicalClock,
}

fn fresh_stores() -> Stores {
    Stores {
        relational: RelationalLabelStore::new(),
        analytics: AnalyticsEventStore::new(),
        clock: LogicalClock::new(),
    }
}

fn write_label(
    stores: &mut Stores,
    id: LabelId,
    span_id: SpanId,
    value: LabelValue,
    source: LabelSource,
    reasoning: Option<String>,
) -> LabelWriteOutcome {
    insert_or_update_label(
        &mut stores.relational,
        &mut stores.analytics,
        &mut stores.clock,
        ProjectId(7),
        id,
        span_id,
        ClassId(40),
        None,
        String::from("quality"),
        String::from("default"),
        value,
        source,
        reasoning,
    )
}

#[test]
fn single_write_commits_to_both_stores() {
    let mut stores = fresh_stores();
    let outcome = write_label(
        &mut stores,
        LabelId(1),
        SpanId(2),
        score(0.5),
        LabelSource::AutomatedEvaluator,
        None,
    );
    match outcome {
        LabelWriteOutcome::Committed { row } => {
            assert_eq!(row.id, LabelId(1));
            assert_eq!(row.span_id, SpanId(2));
            assert_eq!(row.class_id, ClassId(40));
            assert_eq!(row.value, score(0.5));
            assert_eq!(row.label_source, LabelSource::AutomatedEvaluator);
            assert_eq!(row.user_email, None);
            assert_eq!(row.reasoning, None);
        }
        other => panic!("expected a committed write, got {:?}", other),
    }
    assert_eq!(stores.relational.len(), 1);
    assert_eq!(stores.analytics.len(), 1);
    let event = stores.analytics.event_at(0);
    assert_eq!(event.project_id, ProjectId(7));
    assert_eq!(event.label_id, LabelId(1));
    assert_eq!(event.span_id, SpanId(2));
    assert_eq!(event.value, score(0.5));
    assert_eq!(event.label_name, String::from("quality"));
    assert_eq!(event.value_key, String::from("default"));
}

#[test]
fn repeated_upsert_keeps_one_row_with_second_value() {
    let mut stores = fresh_stores();
    write_label(
        &mut stores,
        LabelId(1),
        SpanId(2),
        score(0.3),
        LabelSource::AutomatedEvaluator,
        None,
    );
    write_label(
        &mut stores,
        LabelId(1),
        SpanId(2),
        score(0.7),
        LabelSource::AutomatedEvaluator,
        None,
    );
    assert_eq!(stores.relational.len(), 1);
    let row = stores.relational.get(LabelId(1)).expect("row must exist");
    assert_eq!(row.value, score(0.7));
}

#[test]
fn relational_timestamp_never_exceeds_analytics_timestamp() {
    let mut stores = fresh_stores();
    for i in 0..5u128 {
        let outcome = write_label(
            &mut stores,
            LabelId(i),
            SpanId(i),
            score(0.1),
            LabelSource::ProgrammaticOther,
            None,
        );
        let row = match outcome {
            LabelWriteOutcome::Committed { row } => row,
            other => panic!("expected a committed write, got {:?}", other),
        };
        let event = stores.analytics.event_at(stores.analytics.len() - 1);
        assert!(row.updated_at <= event.recorded_at);
    }
}

#[test]
fn analytics_fault_surfaces_partial_success() {
    let mut stores = fresh_stores();
    write_label(
        &mut stores,
        LabelId(1),
        SpanId(2),
        score(0.4),
        LabelSource::AutomatedEvaluator,
        None,
    );
    stores.analytics.inject_fault();
    let outcome = write_label(
        &mut stores,
        LabelId(1),
        SpanId(2),
        score(0.9),
        LabelSource::AutomatedEvaluator,
        None,
    );
    // Distinct from total failure: the relational store holds the new
    // value, only the history event is missing.
    match outcome {
        LabelWriteOutcome::AnalyticsWriteFailed { row } => {
            assert_eq!(row.value, score(0.9));
        }
        other => panic!("expected a partial success, got {:?}", other),
    }
    let row = stores.relational.get(LabelId(1)).expect("row must exist");
    assert_eq!(row.value, score(0.9));
    assert_eq!(stores.analytics.len(), 1);
    assert_eq!(stores.analytics.event_at(0).value, score(0.4));
}

#[test]
fn relational_fault_fails_whole_call_and_skips_analytics() {
    let mut stores = fresh_stores();
    stores.relational.inject_fault();
    let outcome = write_label(
        &mut stores,
        LabelId(1),
        SpanId(2),
        score(0.4),
        LabelSource::AutomatedEvaluator,
        None,
    );
    assert_eq!(outcome, LabelWriteOutcome::RelationalWriteFailed);
    assert_eq!(stores.relational.len(), 0);
    assert_eq!(stores.analytics.len(), 0);
    // The fault was consumed: a retry of the idempotent upsert succeeds.
    let retry = write_label(
        &mut stores,
        LabelId(1),
        SpanId(2),
        score(0.4),
        LabelSource::AutomatedEvaluator,
        None,
    );
    assert!(matches!(retry, LabelWriteOutcome::Committed { .. }));
    assert_eq!(stores.relational.len(), 1);
    assert_eq!(stores.analytics.len(), 1);
}

#[test]
fn span_id_is_immutable_once_set() {
    let mut stores = fresh_stores();
    write_label(
        &mut stores,
        LabelId(1),
        SpanId(2),
        score(0.3),
        LabelSource::AutomatedEvaluator,
        None,
    );
    // A later write naming another span cannot move the label.
    write_label(
        &mut stores,
        LabelId(1),
        SpanId(99),
        score(0.6),
        LabelSource::AutomatedEvaluator,
        None,
    );
    let row = stores.relational.get(LabelId(1)).expect("row must exist");
    assert_eq!(row.span_id, SpanId(2));
    // The event still records the span the caller named.
    assert_eq!(stores.analytics.event_at(1).span_id, SpanId(99));
}

#[test]
fn manual_label_carries_user_email() {
    let mut stores = fresh_stores();
    let outcome = insert_or_update_label(
        &mut stores.relational,
        &mut stores.analytics,
        &mut stores.clock,
        ProjectId(7),
        LabelId(1),
        SpanId(2),
        ClassId(40),
        Some(String::from("annotator@example.com")),
        String::from("quality"),
        String::from("default"),
        score(1.0),
        LabelSource::ManualHuman,
        Some(String::from("looks right")),
    );
    match outcome {
        LabelWriteOutcome::Committed { row } => {
            assert_eq!(row.user_email, Some(String::from("annotator@example.com")));
            assert_eq!(row.label_source, LabelSource::ManualHuman);
            assert_eq!(row.reasoning, Some(String::from("looks right")));
        }
        other => panic!("expected a committed write, got {:?}", other),
    }
}

#[test]
fn label_write_scenario_two_calls_full_history() {
    let mut stores = fresh_stores();
    let first = write_label(
        &mut stores,
        LabelId(1),
        SpanId(10),
        score(0.8),
        LabelSource::AutomatedEvaluator,
        None,
    );
    match first {
        LabelWriteOutcome::Committed { row } => {
            assert_eq!(row.id, LabelId(1));
            assert_eq!(row.span_id, SpanId(10));
            assert_eq!(row.value, score(0.8));
        }
        other => panic!("expected a committed write, got {:?}", other),
    }
    assert_eq!(stores.analytics.len(), 1);
    assert_eq!(stores.analytics.event_at(0).value, score(0.8));

    let second = write_label(
        &mut stores,
        LabelId(1),
        SpanId(10),
        score(0.95),
        LabelSource::AutomatedEvaluator,
        Some(String::from("revised")),
    );
    match second {
        LabelWriteOutcome::Committed { row } => {
            assert_eq!(row.value, score(0.95));
            assert_eq!(row.reasoning, Some(String::from("revised")));
        }
        other => panic!("expected a committed write, got {:?}", other),
    }
    // The relational store holds one updated row; the history holds both
    // events, in write order, the first untouched.
    assert_eq!(stores.relational.len(), 1);
    let row = stores.relational.get(LabelId(1)).expect("row must exist");
    assert_eq!(row.value, score(0.95));
    assert_eq!(row.reasoning, Some(String::from("revised")));
    assert_eq!(stores.analytics.len(), 2);
    assert_eq!(stores.analytics.event_at(0).value, score(0.8));
    assert_eq!(stores.analytics.event_at(1).value, score(0.95));
}
