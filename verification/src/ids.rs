//! Identifier and value types carried through the pipeline.
//!
//! Every identity in the system is a 128-bit value (projects, spans, traces,
//! label instances and label classes each get their own newtype so they
//! cannot be confused for one another). A label's numeric score is carried
//! as the 64-bit representation chosen by the caller at the float boundary;
//! the pipeline itself never computes on scores, it only stores and compares
//! them.

use vstd::prelude::*;

verus! {

/// Identity of a project; partitions the analytics event history.
#[derive(Clone, Copy, PartialEq, Eq, Structural, Debug)]
pub struct ProjectId(pub u128);

/// Identity of one label instance, stable across in-place updates.
#[derive(Clone, Copy, PartialEq, Eq, Structural, Debug)]
pub struct LabelId(pub u128);

/// Identity of one span, unique within its trace.
#[derive(Clone, Copy, PartialEq, Eq, Structural, Debug)]
pub struct SpanId(pub u128);

/// Identity of a trace, grouping spans.
#[derive(Clone, Copy, PartialEq, Eq, Structural, Debug)]
pub struct TraceId(pub u128);

/// Foreign key of a label class; owned by external configuration and treated
/// as opaque here.
#[derive(Clone, Copy, PartialEq, Eq, Structural, Debug)]
pub struct ClassId(pub u128);

/// A label's numeric score, held as the caller's 64-bit encoding of the
/// number. The pipeline stores and compares scores; it never does arithmetic
/// on them, so no range or ordering is assumed of the encoding.
#[derive(Clone, Copy, PartialEq, Eq, Structural, Debug)]
pub struct LabelValue(pub u64);

} // verus!
