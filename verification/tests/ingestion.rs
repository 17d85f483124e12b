// The ingestion topology: publish/deliver/ack over the channel,
// at-least-once delivery, per-key FIFO without cross-key order, the
// processor's limit enforcement, and evaluator dispatch.

use label_pipeline::channel::{ChannelError, ChannelTopology, IngestionChannel};
use label_pipeline::consumer::Consumer;
use label_pipeline::evaluators::{
    collect_evaluations, run_evaluators, Evaluator, EvaluatorFailure, LabelSuggestion,
};
use label_pipeline::ids::{ClassId, LabelValue, SpanId, TraceId};
use label_pipeline::processor::{process, LimitPolicy, ProcessingError, SpanLimits};
use label_pipeline::producer::Producer;
use label_pipeline::spans::{Attribute, RawSpan, Span};

fn attribute(key: &str, value: &str) -> Attribute {
    Attribute {
        key: String::from(key),
        value: String::from(value),
    }
}

fn raw_span(id: u128, attributes: Vec<Attribute>) -> RawSpan {
    RawSpan {
        span_id: SpanId(id),
        trace_id: TraceId(1),
        parent_span_id: None,
        started_at: 100,
        ended_at: 200,
        attributes,
    }
}

fn topology(exchange: &str, queue: &str, key: &str) -> ChannelTopology {
    ChannelTopology {
        exchange: String::from(exchange),
        queue: String::from(queue),
        routing_key: String::from(key),
    }
}

fn lenient_limits() -> SpanLimits {
    SpanLimits {
        max_attributes: 16,
        max_payload: 1024,
        policy: LimitPolicy::RejectOversize,
    }
}

#[test]
fn observations_topology_names_the_fixed_triple() {
    let observations = ChannelTopology::observations();
    assert_eq!(observations.exchange, String::from("observations_exchange"));
    assert_eq!(observations.queue, String::from("observations_queue"));
    assert_eq!(
        observations.routing_key,
        String::from("observations_routing_key")
    );
}

#[test]
fn published_spans_arrive_in_publish_order_per_key() {
    let mut chan = IngestionChannel::new(ChannelTopology::observations());
    let producer = Producer::new(ChannelTopology::observations());
    let consumer = Consumer::new(ChannelTopology::observations());
    producer
        .publish(&mut chan, raw_span(1, vec![]))
        .expect("publish must succeed");
    producer
        .publish(&mut chan, raw_span(2, vec![]))
        .expect("publish must succeed");
    let first = consumer.poll(&chan).expect("a span is queued");
    assert_eq!(first.span_id, SpanId(1));
    consumer.ack(&mut chan);
    let second = consumer.poll(&chan).expect("a span is queued");
    assert_eq!(second.span_id, SpanId(2));
    consumer.ack(&mut chan);
    assert!(consumer.poll(&chan).is_none());
}

#[test]
fn unacknowledged_spans_are_delivered_again() {
    let mut chan = IngestionChannel::new(ChannelTopology::observations());
    let producer = Producer::new(ChannelTopology::observations());
    let consumer = Consumer::new(ChannelTopology::observations());
    producer
        .publish(&mut chan, raw_span(1, vec![]))
        .expect("publish must succeed");
    let first = consumer.poll(&chan).expect("a span is queued").clone();
    // The consumer stops before acknowledging: the same span comes again.
    let again = consumer.poll(&chan).expect("still queued").clone();
    assert_eq!(first, again);
    consumer.ack(&mut chan);
    assert!(consumer.poll(&chan).is_none());
}

#[test]
fn unavailable_channel_reports_refused_publish() {
    let mut chan = IngestionChannel::new(ChannelTopology::observations());
    let producer = Producer::new(ChannelTopology::observations());
    chan.set_available(false);
    let refused = producer.publish(&mut chan, raw_span(1, vec![]));
    assert_eq!(refused, Err(ChannelError::ChannelUnavailable));
    // Nothing was silently dropped or enqueued; recovery delivers later
    // publishes.
    chan.set_available(true);
    producer
        .publish(&mut chan, raw_span(2, vec![]))
        .expect("publish must succeed after recovery");
    let consumer = Consumer::new(ChannelTopology::observations());
    assert_eq!(consumer.poll(&chan).unwrap().span_id, SpanId(2));
}

#[test]
fn mismatched_topology_partitions_producer_from_consumer() {
    let mut chan = IngestionChannel::new(ChannelTopology::observations());
    let stray = Producer::new(topology("other_exchange", "other_queue", "other_key"));
    stray
        .publish(&mut chan, raw_span(1, vec![]))
        .expect("the broker accepts the publish");
    // The span was routed away from this queue, and a consumer bound to
    // another topology sees nothing either.
    let consumer = Consumer::new(ChannelTopology::observations());
    assert!(consumer.poll(&chan).is_none());
    let producer = Producer::new(ChannelTopology::observations());
    producer
        .publish(&mut chan, raw_span(2, vec![]))
        .expect("publish must succeed");
    let stray_consumer = Consumer::new(topology("other_exchange", "other_queue", "other_key"));
    assert!(stray_consumer.poll(&chan).is_none());
    assert_eq!(consumer.poll(&chan).unwrap().span_id, SpanId(2));
}

#[test]
fn no_ordering_across_routing_keys() {
    // Two spans published under different routing keys may be observed in
    // either order; only the content of each key's delivery is asserted,
    // never an order across the keys.
    let key_a = topology("obs", "queue_a", "key_a");
    let key_b = topology("obs", "queue_b", "key_b");
    let run = |drain_a_first: bool| -> Vec<u128> {
        let mut chan_a = IngestionChannel::new(key_a.clone());
        let mut chan_b = IngestionChannel::new(key_b.clone());
        Producer::new(key_a.clone())
            .publish(&mut chan_a, raw_span(1, vec![]))
            .expect("publish must succeed");
        Producer::new(key_b.clone())
            .publish(&mut chan_b, raw_span(2, vec![]))
            .expect("publish must succeed");
        let consumer_a = Consumer::new(key_a.clone());
        let consumer_b = Consumer::new(key_b.clone());
        let mut seen = Vec::new();
        let mut drain = |consumer: &Consumer, chan: &mut IngestionChannel, seen: &mut Vec<u128>| {
            while let Some(span) = consumer.poll(chan) {
                let SpanId(id) = span.span_id;
                seen.push(id);
                consumer.ack(chan);
            }
        };
        if drain_a_first {
            drain(&consumer_a, &mut chan_a, &mut seen);
            drain(&consumer_b, &mut chan_b, &mut seen);
        } else {
            drain(&consumer_b, &mut chan_b, &mut seen);
            drain(&consumer_a, &mut chan_a, &mut seen);
        }
        seen
    };
    // Both interleavings happen; each key's spans arrive, in some order.
    assert_eq!(run(true), vec![1, 2]);
    assert_eq!(run(false), vec![2, 1]);
}

#[test]
fn processing_within_limits_passes_span_through() {
    let raw = raw_span(5, vec![attribute("db.query", "select"), attribute("rows", "42")]);
    let span = process(&raw, &lenient_limits()).expect("fits the limits");
    assert_eq!(span.span_id, SpanId(5));
    assert_eq!(span.trace_id, TraceId(1));
    assert_eq!(span.parent_span_id, None);
    assert_eq!(span.started_at, 100);
    assert_eq!(span.ended_at, 200);
    assert_eq!(span.attributes, raw.attributes);
}

#[test]
fn processing_same_raw_span_twice_is_identical() {
    let raw = raw_span(5, vec![attribute("db.query", "select"), attribute("rows", "42")]);
    let first = process(&raw, &lenient_limits()).expect("fits the limits");
    let second = process(&raw, &lenient_limits()).expect("fits the limits");
    assert_eq!(first, second);
}

#[test]
fn oversize_span_is_rejected_under_reject_policy() {
    let limits = SpanLimits {
        max_attributes: 1,
        max_payload: 1024,
        policy: LimitPolicy::RejectOversize,
    };
    let raw = raw_span(5, vec![attribute("a", "1"), attribute("b", "2")]);
    assert_eq!(process(&raw, &limits), Err(ProcessingError::LimitExceeded));
}

#[test]
fn oversize_span_is_truncated_under_truncate_policy() {
    // "ab" + "cdef" weighs 6, "x" + "yz" weighs 3: a payload ceiling of 8
    // keeps only the first attribute.
    let limits = SpanLimits {
        max_attributes: 10,
        max_payload: 8,
        policy: LimitPolicy::TruncateToFit,
    };
    let raw = raw_span(5, vec![attribute("ab", "cdef"), attribute("x", "yz")]);
    let span = process(&raw, &limits).expect("truncation always yields a span");
    assert_eq!(span.attributes, vec![attribute("ab", "cdef")]);
}

#[test]
fn payload_exactly_at_ceiling_fits() {
    // "ab" + "cdef" weighs exactly 6: at the ceiling is within the limit.
    let limits = SpanLimits {
        max_attributes: 10,
        max_payload: 6,
        policy: LimitPolicy::RejectOversize,
    };
    let raw = raw_span(5, vec![attribute("ab", "cdef")]);
    let span = process(&raw, &limits).expect("an exact fit is not oversize");
    assert_eq!(span.attributes, raw.attributes);
}

#[test]
fn span_without_attributes_always_fits() {
    let limits = SpanLimits {
        max_attributes: 0,
        max_payload: 0,
        policy: LimitPolicy::RejectOversize,
    };
    let raw = raw_span(5, vec![]);
    let span = process(&raw, &limits).expect("nothing to limit");
    assert!(span.attributes.is_empty());
}

#[test]
fn attribute_count_ceiling_keeps_longest_prefix() {
    let limits = SpanLimits {
        max_attributes: 2,
        max_payload: 1024,
        policy: LimitPolicy::TruncateToFit,
    };
    let raw = raw_span(5, vec![attribute("a", "1"), attribute("b", "2"), attribute("c", "3")]);
    let span = process(&raw, &limits).expect("truncation always yields a span");
    assert_eq!(span.attributes, vec![attribute("a", "1"), attribute("b", "2")]);
}

struct FixedEvaluator {
    class: u128,
    bits: u64,
}

impl Evaluator for FixedEvaluator {
    fn evaluate(&self, _span: &Span) -> Result<Vec<LabelSuggestion>, EvaluatorFailure> {
        Ok(vec![LabelSuggestion {
            class_id: ClassId(self.class),
            value_key: String::from("default"),
            value: LabelValue(self.bits),
            reasoning: None,
        }])
    }
}

struct FailingEvaluator;

impl Evaluator for FailingEvaluator {
    fn evaluate(&self, _span: &Span) -> Result<Vec<LabelSuggestion>, EvaluatorFailure> {
        Err(EvaluatorFailure {
            message: String::from("model unavailable"),
        })
    }
}

#[test]
fn evaluator_failure_does_not_block_others() {
    let raw = raw_span(5, vec![]);
    let span = process(&raw, &lenient_limits()).expect("fits the limits");
    let good = FixedEvaluator { class: 1, bits: 10 };
    let also_good = FixedEvaluator { class: 2, bits: 20 };
    let outcomes = vec![
        good.evaluate(&span),
        FailingEvaluator.evaluate(&span),
        also_good.evaluate(&span),
    ];
    let (suggestions, failures) = collect_evaluations(outcomes);
    // Both successful evaluators' suggestions survive, in run order, with
    // the one failure reported beside them.
    assert_eq!(suggestions.len(), 2);
    assert_eq!(suggestions[0].class_id, ClassId(1));
    assert_eq!(suggestions[1].class_id, ClassId(2));
    assert_eq!(failures.len(), 1);
    assert_eq!(failures[0].message, String::from("model unavailable"));
}

#[test]
fn run_evaluators_records_one_outcome_per_evaluator() {
    let raw = raw_span(5, vec![]);
    let span = process(&raw, &lenient_limits()).expect("fits the limits");
    let evaluators = vec![
        FixedEvaluator { class: 1, bits: 10 },
        FixedEvaluator { class: 2, bits: 20 },
    ];
    let outcomes = run_evaluators(&evaluators, &span);
    assert_eq!(outcomes.len(), 2);
    let (suggestions, failures) = collect_evaluations(outcomes);
    assert_eq!(suggestions.len(), 2);
    assert!(failures.is_empty());
}
