//! A span-ingestion and labeling pipeline with a dual-store label write path.
//!
//! Spans emitted by instrumented applications travel through an ingestion
//! channel (producer -> channel -> consumer), are normalized by a processor
//! that enforces size and shape limits, and are then eligible for labeling.
//! Labels are written through a two-phase protocol: first an upsert into the
//! authoritative relational store, then an append into an append-only
//! analytics event store. The two writes are not atomic; a failure of the
//! second after the first has committed is surfaced as a distinct
//! partial-success outcome rather than swallowed or rolled back.

use vstd::prelude::*;

pub mod analytics_store;
pub mod channel;
pub mod clock;
pub mod consumer;
pub mod evaluators;
pub mod ids;
pub mod labels;
pub mod processor;
pub mod producer;
pub mod relational_store;
pub mod spans;

verus! {

/// A store refused a write. In-memory stores fail only when a fault has been
/// injected ahead of the write, which keeps failures deterministic for
/// exercising the partial-failure paths of the label write protocol.
#[derive(Clone, Copy, PartialEq, Eq, Structural, Debug)]
pub struct StoreFault;

} // verus!
