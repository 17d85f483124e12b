//! The ingestion channel decoupling span producers from span consumers.
//!
//! A channel is identified by three fixed names — an exchange, a queue and
//! a routing key — chosen once at process start and shared by every
//! producer and consumer of a deployment. The triple is carried as one
//! immutable configuration value, [`ChannelTopology`]; a producer or
//! consumer configured with a different triple is partitioned away from the
//! channel rather than failing loudly, which is why changing any of the
//! three names is a compatibility-breaking change.
//!
//! Delivery is at-least-once: a delivered span stays queued until it is
//! acknowledged, so a consumer that stops before acknowledging sees the
//! same span again. Order is FIFO within this one channel (a single routing
//! key served to one consumer at a time); nothing relates the order of
//! spans travelling different routing keys.

use vstd::prelude::*;
use vstd::string::StringExecFns;

use crate::spans::RawSpan;

verus! {

/// Why a publish was refused.
#[derive(Clone, Copy, PartialEq, Eq, Structural, Debug)]
pub enum ChannelError {
    /// The broker behind the channel cannot be reached; the caller may
    /// retry with backoff, nothing was enqueued.
    ChannelUnavailable,
}

/// The immutable identity of one channel: exchange name, queue name and
/// routing key. Constructed once at process start and passed explicitly to
/// producers and consumers.
#[derive(PartialEq, Debug)]
pub struct ChannelTopology {
    pub exchange: String,
    pub queue: String,
    pub routing_key: String,
}

impl ChannelTopology {
    /// Two topologies name the same channel: all three identifiers agree.
    pub open spec fn same_as(self, other: ChannelTopology) -> bool {
        &&& self.exchange@ == other.exchange@
        &&& self.queue@ == other.queue@
        &&& self.routing_key@ == other.routing_key@
    }

    /// Whether this topology names the same channel as `other`.
    pub fn matches(&self, other: &ChannelTopology) -> (same: bool)
        ensures
            same == self.same_as(*other),
    {
        self.exchange == other.exchange && self.queue == other.queue
            && self.routing_key == other.routing_key
    }

    /// The deployment's observation channel: the triple under which every
    /// captured span travels from producers to consumers.
    pub fn observations() -> (topology: ChannelTopology)
        ensures
            topology.exchange@ == "observations_exchange"@,
            topology.queue@ == "observations_queue"@,
            topology.routing_key@ == "observations_routing_key"@,
    {
        ChannelTopology {
            exchange: String::from_str("observations_exchange"),
            queue: String::from_str("observations_queue"),
            routing_key: String::from_str("observations_routing_key"),
        }
    }
}

impl Clone for ChannelTopology {
    /// An exact copy naming the same channel.
    fn clone(&self) -> (res: Self)
        ensures
            res == *self,
    {
        ChannelTopology {
            exchange: self.exchange.clone(),
            queue: self.queue.clone(),
            routing_key: self.routing_key.clone(),
        }
    }
}

/// One exchange/queue/routing-key channel with its queued spans, in
/// publish order. Stands between producers and consumers; either side
/// reaches it only when its own topology names this channel.
pub struct IngestionChannel {
    topology: ChannelTopology,
    pending: Vec<RawSpan>,
    available: bool,
}

impl IngestionChannel {
    /// The channel's identity.
    pub closed spec fn topology_spec(self) -> ChannelTopology {
        self.topology
    }

    /// The spans queued and not yet acknowledged, oldest first.
    pub closed spec fn pending_seq(self) -> Seq<RawSpan> {
        self.pending@
    }

    /// Whether the broker behind the channel can be reached.
    pub closed spec fn is_available(self) -> bool {
        self.available
    }

    /// A fresh, empty, reachable channel under the given identity.
    pub fn new(topology: ChannelTopology) -> (chan: IngestionChannel)
        ensures
            chan.topology_spec() == topology,
            chan.pending_seq() == Seq::<RawSpan>::empty(),
            chan.is_available(),
    {
        IngestionChannel { topology, pending: Vec::new(), available: true }
    }

    /// The channel's identity, readable by producers and consumers.
    pub fn topology(&self) -> (topology: &ChannelTopology)
        ensures
            *topology == self.topology_spec(),
    {
        &self.topology
    }

    /// Models the broker becoming unreachable or reachable again; the
    /// queued spans survive an outage.
    pub fn set_available(&mut self, up: bool)
        ensures
            final(self).is_available() == up,
            final(self).pending_seq() == old(self).pending_seq(),
            final(self).topology_spec() == old(self).topology_spec(),
    {
        self.available = up;
    }

    /// Accepts a span published under a routing key. An unreachable broker
    /// refuses the publish and the caller hears of it; a reachable broker
    /// accepts it, but enqueues the span only when the key is this
    /// channel's — a span under any other key is routed elsewhere and never
    /// reaches this queue.
    pub fn offer(&mut self, routing_key: &String, span: RawSpan) -> (result: Result<
        (),
        ChannelError,
    >)
        ensures
            final(self).topology_spec() == old(self).topology_spec(),
            final(self).is_available() == old(self).is_available(),
            result is Err <==> !old(self).is_available(),
            result == Err::<(), ChannelError>(ChannelError::ChannelUnavailable) <==> !old(
                self,
            ).is_available(),
            result is Err ==> final(self).pending_seq() == old(self).pending_seq(),
            result is Ok ==> final(self).pending_seq() == if routing_key@ == old(
                self,
            ).topology_spec().routing_key@ {
                old(self).pending_seq().push(span)
            } else {
                old(self).pending_seq()
            },
    {
        if !self.available {
            return Err(ChannelError::ChannelUnavailable);
        }
        if *routing_key == self.topology.routing_key {
            self.pending.push(span);
        }
        Ok(())
    }

    /// Delivers the oldest queued span without removing it: the span stays
    /// queued, and is delivered again, until it is acknowledged. This is
    /// what makes delivery at-least-once.
    pub fn deliver(&self) -> (delivery: Option<&RawSpan>)
        ensures
            delivery is Some <==> self.pending_seq().len() > 0,
            delivery matches Some(span) ==> *span == self.pending_seq()[0],
    {
        if self.pending.len() > 0 {
            Some(&self.pending[0])
        } else {
            None
        }
    }

    /// Acknowledges the oldest queued span, removing it for good.
    pub fn ack(&mut self)
        requires
            old(self).pending_seq().len() > 0,
        ensures
            final(self).pending_seq() == old(self).pending_seq().drop_first(),
            final(self).topology_spec() == old(self).topology_spec(),
            final(self).is_available() == old(self).is_available(),
    {
        self.pending.remove(0);
        proof {
            assert(self.pending@ =~= old(self).pending_seq().drop_first());
        }
    }
}

} // verus!
