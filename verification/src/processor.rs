//! The processor: validation, normalization and limit enforcement.
//!
//! Between the ingestion channel and everything downstream stands the
//! processor. It turns a raw span into a normalized [`Span`] whose
//! attributes are held to the configured limits — an attribute-count
//! ceiling and a payload-size ceiling — either by deterministically
//! truncating the attribute list or by rejecting the span outright,
//! according to the configured policy. Processing is a pure function of
//! the raw span and the limits: the channel delivers at-least-once, so the
//! same raw span may arrive twice, and both arrivals must come out the
//! same.

use vstd::prelude::*;
use vstd::string::StrSliceExecFns;

use crate::spans::{Attribute, RawSpan, Span};

verus! {

/// What to do with a raw span that exceeds the limits.
#[derive(Clone, Copy, PartialEq, Eq, Structural, Debug)]
pub enum LimitPolicy {
    /// Keep the longest prefix of the attribute list that fits the limits
    /// and drop the rest.
    TruncateToFit,
    /// Refuse the span as a whole.
    RejectOversize,
}

/// Why the processor refused a span.
#[derive(Clone, Copy, PartialEq, Eq, Structural, Debug)]
pub enum ProcessingError {
    /// The span exceeds the configured limits and the policy rejects
    /// oversize spans. The span is dropped from this pipeline run; the
    /// processor itself never retries.
    LimitExceeded,
}

/// The size and shape ceilings enforced on every processed span, with the
/// policy applied to spans that exceed them.
#[derive(Clone, Copy, PartialEq, Eq, Structural, Debug)]
pub struct SpanLimits {
    /// Largest number of attributes a processed span may carry.
    pub max_attributes: usize,
    /// Largest total payload — the summed key and value lengths of all
    /// attributes — a processed span may carry.
    pub max_payload: usize,
    pub policy: LimitPolicy,
}

/// The total payload of an attribute list: the sum of each attribute's
/// key and value lengths.
pub open spec fn attrs_size(attrs: Seq<Attribute>) -> nat
    decreases attrs.len(),
{
    if attrs.len() == 0 {
        0
    } else {
        attrs[0].size() + attrs_size(attrs.drop_first())
    }
}

/// An attribute list fits under an attribute-count ceiling and a payload
/// ceiling.
pub open spec fn attrs_within(attrs: Seq<Attribute>, max_attributes: int, max_payload: int) -> bool {
    attrs.len() <= max_attributes && attrs_size(attrs) <= max_payload
}

/// The deterministic truncation of an attribute list: the longest prefix
/// that fits under both ceilings, found by keeping attributes from the
/// front while they fit.
pub open spec fn spec_truncate(attrs: Seq<Attribute>, max_attributes: int, max_payload: int) -> Seq<
    Attribute,
>
    decreases attrs.len(),
{
    if attrs.len() == 0 || max_attributes <= 0 || attrs[0].size() > max_payload {
        Seq::<Attribute>::empty()
    } else {
        seq![attrs[0]] + spec_truncate(
            attrs.drop_first(),
            max_attributes - 1,
            max_payload - attrs[0].size(),
        )
    }
}

impl SpanLimits {
    /// An attribute list fits under these limits.
    pub open spec fn allows(self, attrs: Seq<Attribute>) -> bool {
        attrs_within(attrs, self.max_attributes as int, self.max_payload as int)
    }
}

/// The attributes a processed span keeps: the raw span's own when they fit
/// the limits, their deterministic truncation otherwise.
pub open spec fn spec_kept_attributes(attrs: Seq<Attribute>, limits: SpanLimits) -> Seq<Attribute> {
    if limits.allows(attrs) {
        attrs
    } else {
        spec_truncate(attrs, limits.max_attributes as int, limits.max_payload as int)
    }
}

/// A span is the normalized form of a raw span under some limits: same
/// identity, linkage and timing, attributes kept per the limits.
pub open spec fn processed_span_of(raw: RawSpan, limits: SpanLimits, span: Span) -> bool {
    &&& span.span_id == raw.span_id
    &&& span.trace_id == raw.trace_id
    &&& span.parent_span_id == raw.parent_span_id
    &&& span.started_at == raw.started_at
    &&& span.ended_at == raw.ended_at
    &&& span.attributes@ == spec_kept_attributes(raw.attributes@, limits)
}

/// Appending one attribute adds exactly its size to the total payload.
proof fn lemma_size_push(attrs: Seq<Attribute>, a: Attribute)
    ensures
        attrs_size(attrs.push(a)) == attrs_size(attrs) + a.size(),
    decreases attrs.len(),
{
    if attrs.len() == 0 {
        assert(attrs.push(a)[0] == a);
        assert(attrs.push(a).drop_first() =~= Seq::<Attribute>::empty());
        assert(attrs_size(attrs.push(a)) == a.size() + attrs_size(Seq::<Attribute>::empty()));
    } else {
        assert(attrs.push(a)[0] == attrs[0]);
        assert(attrs.push(a).drop_first() =~= attrs.drop_first().push(a));
        lemma_size_push(attrs.drop_first(), a);
    }
}

/// A prefix never outweighs the whole list.
proof fn lemma_size_take_le(attrs: Seq<Attribute>, k: int)
    requires
        0 <= k <= attrs.len(),
    ensures
        attrs_size(attrs.take(k)) <= attrs_size(attrs),
    decreases k,
{
    if k == 0 {
        assert(attrs.take(0) =~= Seq::<Attribute>::empty());
    } else {
        assert(attrs.take(k).drop_first() =~= attrs.drop_first().take(k - 1));
        lemma_size_take_le(attrs.drop_first(), k - 1);
    }
}

/// The truncation of a list fits under the ceilings it was cut to.
proof fn lemma_truncate_within(attrs: Seq<Attribute>, max_attributes: int, max_payload: int)
    requires
        0 <= max_attributes,
        0 <= max_payload,
    ensures
        attrs_within(spec_truncate(attrs, max_attributes, max_payload), max_attributes, max_payload),
    decreases attrs.len(),
{
    if !(attrs.len() == 0 || max_attributes <= 0 || attrs[0].size() > max_payload) {
        let rest = spec_truncate(
            attrs.drop_first(),
            max_attributes - 1,
            max_payload - attrs[0].size(),
        );
        lemma_truncate_within(
            attrs.drop_first(),
            max_attributes - 1,
            max_payload - attrs[0].size(),
        );
        let whole = seq![attrs[0]] + rest;
        assert(whole.drop_first() =~= rest);
        assert(attrs_size(whole) == attrs[0].size() + attrs_size(rest));
    }
}

/// Copies the first `upto` attributes of a list, preserving each exactly.
fn clone_attribute_prefix(attrs: &Vec<Attribute>, upto: usize) -> (kept: Vec<Attribute>)
    requires
        upto <= attrs@.len(),
    ensures
        kept@ == attrs@.take(upto as int),
{
    let mut kept: Vec<Attribute> = Vec::new();
    let mut i: usize = 0;
    while i < upto
        invariant
            0 <= i <= upto <= attrs@.len(),
            kept@ == attrs@.take(i as int),
        decreases upto - i,
    {
        kept.push(attrs[i].clone());
        proof {
            assert(kept@ =~= attrs@.take(i + 1));
        }
        i = i + 1;
    }
    kept
}

/// Validates and normalizes one raw span against the limits.
///
/// The outcome is a pure function of the raw span and the limits — a
/// duplicate delivery of the same raw span processes to the same result,
/// field for field. A raw span already within the limits passes through
/// with its attributes as they are. One exceeding them is either refused
/// with [`ProcessingError::LimitExceeded`] (policy
/// [`LimitPolicy::RejectOversize`]) or deterministically truncated to the
/// longest fitting prefix of its attribute list (policy
/// [`LimitPolicy::TruncateToFit`]). A span that comes out at all fits the
/// limits.
pub fn process(raw: &RawSpan, limits: &SpanLimits) -> (result: Result<Span, ProcessingError>)
    ensures
        result is Ok <==> (limits.allows(raw.attributes@) || limits.policy
            is TruncateToFit),
        result matches Ok(span) ==> processed_span_of(*raw, *limits, span),
        result matches Ok(span) ==> limits.allows(span.attributes@),
        result is Err ==> result == Err::<Span, ProcessingError>(ProcessingError::LimitExceeded)
            && limits.policy is RejectOversize && !limits.allows(raw.attributes@),
{
    let n = raw.attributes.len();
    let ghost all = raw.attributes@;
    let ghost n0 = limits.max_attributes as int;
    let ghost s0 = limits.max_payload as int;
    let mut count_left: usize = limits.max_attributes;
    let mut size_left: usize = limits.max_payload;
    let mut i: usize = 0;
    let mut fits = true;
    proof {
        assert(all.take(0) =~= Seq::<Attribute>::empty());
        assert(all.skip(0) =~= all);
        assert(Seq::<Attribute>::empty() + spec_truncate(all, n0, s0) =~= spec_truncate(
            all,
            n0,
            s0,
        ));
    }
    while fits && i < n
        invariant
            all == raw.attributes@,
            n0 == limits.max_attributes as int,
            s0 == limits.max_payload as int,
            n == all.len(),
            0 <= i <= n,
            count_left == n0 - i,
            fits ==> i <= n0,
            fits ==> attrs_size(all.take(i as int)) == s0 - size_left,
            fits ==> spec_truncate(all, n0, s0) == all.take(i as int) + spec_truncate(
                all.skip(i as int),
                count_left as int,
                size_left as int,
            ),
            !fits ==> !attrs_within(all, n0, s0),
            !fits ==> spec_truncate(all, n0, s0) == all.take(i as int),
        decreases n - i + (if fits { 1int } else { 0int }),
    {
        let attribute = &raw.attributes[i];
        let key_len = attribute.key.as_str().unicode_len();
        let value_len = attribute.value.as_str().unicode_len();
        let ghost prefix = all.take(i as int);
        proof {
            assert(all.skip(i as int)[0] == all[i as int]);
            assert(*attribute == all[i as int]);
            assert(key_len as nat == all[i as int].key@.len());
            assert(value_len as nat == all[i as int].value@.len());
            assert(all[i as int].size() == key_len + value_len);
        }
        if count_left > 0 && key_len <= size_left && value_len <= size_left - key_len {
            proof {
                let tail = all.skip(i as int);
                assert(tail.drop_first() =~= all.skip(i + 1));
                assert(spec_truncate(tail, count_left as int, size_left as int) == seq![
                    all[i as int],
                ] + spec_truncate(
                    all.skip(i + 1),
                    count_left - 1,
                    size_left - all[i as int].size(),
                ));
                assert(prefix + (seq![all[i as int]] + spec_truncate(
                    all.skip(i + 1),
                    count_left - 1,
                    size_left - all[i as int].size(),
                )) =~= all.take(i + 1) + spec_truncate(
                    all.skip(i + 1),
                    count_left - 1,
                    size_left - all[i as int].size(),
                ));
                assert(all.take(i + 1) =~= prefix.push(all[i as int]));
                lemma_size_push(prefix, all[i as int]);
            }
            count_left = count_left - 1;
            size_left = size_left - key_len - value_len;
            i = i + 1;
        } else {
            proof {
                let tail = all.skip(i as int);
                if count_left == 0 {
                    // The count ceiling is already spent: the list is too
                    // long, and the truncation stops here.
                    assert(all.len() > n0);
                } else {
                    // The payload ceiling is hit: this attribute no longer
                    // fits, so the whole list cannot fit either.
                    assert(all[i as int].size() > size_left as int);
                    assert(all.take(i + 1) =~= prefix.push(all[i as int]));
                    lemma_size_push(prefix, all[i as int]);
                    lemma_size_take_le(all, i + 1);
                    assert(attrs_size(all) > s0);
                }
                assert(spec_truncate(tail, count_left as int, size_left as int)
                    =~= Seq::<Attribute>::empty());
                assert(prefix + Seq::<Attribute>::empty() =~= prefix);
            }
            fits = false;
        }
    }
    if fits {
        proof {
            assert(all.take(n as int) =~= all);
            assert(all.skip(n as int) =~= Seq::<Attribute>::empty());
            assert(attrs_within(all, n0, s0));
        }
        let kept = clone_attribute_prefix(&raw.attributes, n);
        Ok(
            Span {
                span_id: raw.span_id,
                trace_id: raw.trace_id,
                parent_span_id: raw.parent_span_id,
                started_at: raw.started_at,
                ended_at: raw.ended_at,
                attributes: kept,
            },
        )
    } else {
        match limits.policy {
            LimitPolicy::RejectOversize => Err(ProcessingError::LimitExceeded),
            LimitPolicy::TruncateToFit => {
                proof {
                    lemma_truncate_within(all, n0, s0);
                }
                let kept = clone_attribute_prefix(&raw.attributes, i);
                Ok(
                    Span {
                        span_id: raw.span_id,
                        trace_id: raw.trace_id,
                        parent_span_id: raw.parent_span_id,
                        started_at: raw.started_at,
                        ended_at: raw.ended_at,
                        attributes: kept,
                    },
                )
            },
        }
    }
}

/// At-least-once tolerance, as a law: processing is a pure function of the
/// raw span and the limits, so two processings of the same raw span — for
/// instance the two deliveries of a duplicated channel message — come out
/// field-for-field identical.
pub proof fn lemma_processing_deterministic(
    raw: RawSpan,
    limits: SpanLimits,
    first: Span,
    second: Span,
)
    requires
        processed_span_of(raw, limits, first),
        processed_span_of(raw, limits, second),
    ensures
        first.span_id == second.span_id,
        first.trace_id == second.trace_id,
        first.parent_span_id == second.parent_span_id,
        first.started_at == second.started_at,
        first.ended_at == second.ended_at,
        first.attributes@ == second.attributes@,
{
}

} // verus!
