//! The consumer side of the ingestion channel.
//!
//! A consumer is constructed with the topology of the channel it reads and
//! receives spans at-least-once: a span is delivered from the front of the
//! queue, and delivered again on every later poll, until the consumer
//! acknowledges it. A consumer whose topology does not name the channel
//! sees nothing — it is partitioned, not failing.

use vstd::prelude::*;

use crate::channel::{ChannelTopology, IngestionChannel};
use crate::processor::{process, processed_span_of, ProcessingError, SpanLimits};
use crate::spans::{RawSpan, Span};

verus! {

/// Pulls spans off the ingestion channel, at least once each.
pub struct Consumer {
    topology: ChannelTopology,
}

impl Consumer {
    /// The topology this consumer reads under.
    pub closed spec fn topology_spec(self) -> ChannelTopology {
        self.topology
    }

    /// A consumer bound to the given topology.
    pub fn new(topology: ChannelTopology) -> (consumer: Consumer)
        ensures
            consumer.topology_spec() == topology,
    {
        Consumer { topology }
    }

    /// Delivers the oldest unacknowledged span of the channel, leaving it
    /// queued: until [`Consumer::ack`] is called the same span is delivered
    /// again, so a consumer that stops mid-processing loses nothing. A
    /// consumer bound to a different topology is handed nothing.
    pub fn poll<'a>(&self, chan: &'a IngestionChannel) -> (delivery: Option<&'a RawSpan>)
        ensures
            delivery is Some <==> self.topology_spec().same_as(chan.topology_spec())
                && chan.pending_seq().len() > 0,
            delivery matches Some(span) ==> *span == chan.pending_seq()[0],
    {
        if self.topology.matches(chan.topology()) {
            chan.deliver()
        } else {
            None
        }
    }

    /// Acknowledges the span last delivered — the oldest queued one —
    /// removing it from the channel for good.
    pub fn ack(&self, chan: &mut IngestionChannel)
        requires
            self.topology_spec().same_as(old(chan).topology_spec()),
            old(chan).pending_seq().len() > 0,
        ensures
            final(chan).pending_seq() == old(chan).pending_seq().drop_first(),
            final(chan).topology_spec() == old(chan).topology_spec(),
            final(chan).is_available() == old(chan).is_available(),
    {
        chan.ack()
    }

    /// Pulls the oldest span off the channel and hands it to the
    /// processor, acknowledging it either way: a span the processor
    /// refuses is dropped from this pipeline run and reported upstream,
    /// not retried here. Hands back nothing when the channel is empty or
    /// this consumer is partitioned from it, leaving the queue untouched.
    pub fn consume_one(&self, chan: &mut IngestionChannel, limits: &SpanLimits) -> (handed: Option<
        Result<Span, ProcessingError>,
    >)
        ensures
            final(chan).topology_spec() == old(chan).topology_spec(),
            final(chan).is_available() == old(chan).is_available(),
            handed is Some <==> self.topology_spec().same_as(old(chan).topology_spec()) && old(
                chan,
            ).pending_seq().len() > 0,
            handed is None ==> final(chan).pending_seq() == old(chan).pending_seq(),
            handed matches Some(processed) ==> {
                let raw = old(chan).pending_seq()[0];
                &&& final(chan).pending_seq() == old(chan).pending_seq().drop_first()
                &&& (processed is Ok <==> limits.allows(raw.attributes@) || limits.policy
                    is TruncateToFit)
                &&& (processed matches Ok(span) ==> processed_span_of(raw, *limits, span)
                    && limits.allows(span.attributes@))
                &&& (processed is Err ==> processed == Err::<Span, ProcessingError>(
                    ProcessingError::LimitExceeded,
                ))
            },
    {
        if !self.topology.matches(chan.topology()) {
            return None;
        }
        let processed = match chan.deliver() {
            None => {
                return None;
            },
            Some(raw) => process(raw, limits),
        };
        chan.ack();
        Some(processed)
    }
}

} // verus!
