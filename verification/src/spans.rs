//! The span model.
//!
//! A span is one recorded unit of traced work. It is created by a producer's
//! source application as a [`RawSpan`], travels the ingestion channel as-is,
//! and is turned by the processor into a normalized [`Span`] — the only
//! mutation a span ever sees; it is immutable thereafter. A span has at most
//! one parent within its trace, so parent linkage is an optional reference.

use vstd::prelude::*;

use crate::ids::{SpanId, TraceId};

verus! {

/// One structured key/value attribute of a span.
#[derive(PartialEq, Debug)]
pub struct Attribute {
    pub key: String,
    pub value: String,
}

impl Attribute {
    /// The weight an attribute contributes towards a span's payload size:
    /// the lengths of its key and value together.
    pub open spec fn size(self) -> nat {
        self.key@.len() + self.value@.len()
    }
}

impl Clone for Attribute {
    /// An exact copy: the copy's key and value equal the original's.
    fn clone(&self) -> (res: Self)
        ensures
            res == *self,
    {
        Attribute { key: self.key.clone(), value: self.value.clone() }
    }
}

/// A span as captured at the source, before normalization. Its attributes
/// are unbounded; the processor is what holds them to the configured limits.
#[derive(Clone, PartialEq, Debug)]
pub struct RawSpan {
    /// Unique within `trace_id`.
    pub span_id: SpanId,
    pub trace_id: TraceId,
    /// At most one parent within the trace; tree-shaped linkage.
    pub parent_span_id: Option<SpanId>,
    /// Start of the span's timing bounds.
    pub started_at: u64,
    /// End of the span's timing bounds.
    pub ended_at: u64,
    pub attributes: Vec<Attribute>,
}

/// A span after processor normalization: the same identity, linkage and
/// timing as the raw span it came from, with attributes held to the
/// configured limits. Immutable once produced.
#[derive(PartialEq, Debug)]
pub struct Span {
    pub span_id: SpanId,
    pub trace_id: TraceId,
    pub parent_span_id: Option<SpanId>,
    pub started_at: u64,
    pub ended_at: u64,
    pub attributes: Vec<Attribute>,
}

} // verus!
