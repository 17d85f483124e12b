//! The producer side of the ingestion channel.
//!
//! A producer is constructed with the topology of the channel it publishes
//! to and pushes captured spans onto it under its routing key. A refused
//! publish — the broker being unreachable — is reported to the caller,
//! never swallowed; a producer configured with the wrong topology is
//! silently partitioned from the consumers, which is what makes the triple
//! a compatibility contract.

use vstd::prelude::*;

use crate::channel::{ChannelError, ChannelTopology, IngestionChannel};
use crate::spans::RawSpan;

verus! {

/// Publishes captured spans onto the ingestion channel.
pub struct Producer {
    topology: ChannelTopology,
}

impl Producer {
    /// The topology this producer publishes under.
    pub closed spec fn topology_spec(self) -> ChannelTopology {
        self.topology
    }

    /// A producer bound to the given topology.
    pub fn new(topology: ChannelTopology) -> (producer: Producer)
        ensures
            producer.topology_spec() == topology,
    {
        Producer { topology }
    }

    /// Publishes one span. The call is refused exactly when the broker is
    /// unreachable, and nothing is enqueued then; when it is accepted, the
    /// span reaches the channel's queue exactly when this producer's
    /// topology names that channel — under any other topology the span is
    /// routed away from it.
    pub fn publish(&self, chan: &mut IngestionChannel, span: RawSpan) -> (result: Result<
        (),
        ChannelError,
    >)
        ensures
            final(chan).topology_spec() == old(chan).topology_spec(),
            final(chan).is_available() == old(chan).is_available(),
            result is Err <==> !old(chan).is_available(),
            result == Err::<(), ChannelError>(ChannelError::ChannelUnavailable) <==> !old(
                chan,
            ).is_available(),
            result is Err ==> final(chan).pending_seq() == old(chan).pending_seq(),
            result is Ok ==> final(chan).pending_seq() == if self.topology_spec().routing_key@
                == old(chan).topology_spec().routing_key@ {
                old(chan).pending_seq().push(span)
            } else {
                old(chan).pending_seq()
            },
    {
        chan.offer(&self.topology.routing_key, span)
    }
}

} // verus!
