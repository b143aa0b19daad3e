//! The trace context resolver: a best-effort `(trace_id, span_id)` pair
//! for any event, computed from the event's anchor span and the span
//! arena, without mutating either.

use vstd::prelude::*;

verus! {

use crate::event::Event;
use crate::span_registry::{spec_native_id, SpanRecord, SpanRegistry};
use crate::text::{hex16_u64, hex32_u128, spec_hex_fixed};

/// The resolved identity of one event: derived, never stored.
#[derive(Clone, Copy, Debug, PartialEq, Eq)]
pub struct TraceCorrelation {
    pub trace_id: Option<u128>,
    pub span_id: Option<u64>,
}

/// A span's trace identity rendered as fixed-width hexadecimal text,
/// absent halves rendered as zero.
#[derive(Debug, PartialEq, Eq)]
pub struct TraceInfo {
    pub trace_id: String,
    pub span_id: String,
}

/// A handle option as a mathematical-integer option.
pub open spec fn opt_int(o: Option<usize>) -> Option<int> {
    match o {
        Some(h) => Some(h as int),
        None => None,
    }
}

/// A `u64` option as a mathematical-integer option.
pub open spec fn opt_int64(o: Option<u64>) -> Option<int> {
    match o {
        Some(v) => Some(v as int),
        None => None,
    }
}

/// The anchor span of an event: the event's own parent span when it has
/// one, otherwise the innermost currently active span.
pub open spec fn spec_anchor(parent: Option<int>, current: Option<int>) -> Option<int> {
    if parent is Some {
        parent
    } else {
        current
    }
}

/// The resolved span id at `anchor`: the identity in the anchor span's
/// extension bag when it carries a span id, otherwise the span tree's own
/// identifier; no anchor, no span id.
pub open spec fn spec_span_id(spans: Seq<SpanRecord>, anchor: Option<int>) -> Option<int> {
    match anchor {
        None => None,
        Some(h) => if 0 <= h < spans.len() {
            match spans[h].identity {
                Some(t) => match t.span_id {
                    Some(s) => Some(s as int),
                    None => Some(spec_native_id(h)),
                },
                None => Some(spec_native_id(h)),
            }
        } else {
            None
        },
    }
}

/// The resolved trace id from span `h` up: the first span on the parent
/// chain whose extension bag holds an identity with a trace id; absent if
/// no span on the chain has one.
pub open spec fn spec_trace_id_from(spans: Seq<SpanRecord>, h: int) -> Option<u128>
    decreases h,
{
    if h < 0 || h >= spans.len() {
        None
    } else {
        match spans[h].identity {
            Some(t) if t.trace_id is Some => t.trace_id,
            _ => match spans[h].parent {
                Some(p) => if p < h {
                    spec_trace_id_from(spans, p as int)
                } else {
                    None
                },
                None => None,
            },
        }
    }
}

/// The resolved trace id at an optional anchor.
pub open spec fn spec_trace_id(spans: Seq<SpanRecord>, anchor: Option<int>) -> Option<u128> {
    match anchor {
        None => None,
        Some(h) => spec_trace_id_from(spans, h),
    }
}

/// Picks the anchor span for `event`, given the innermost currently
/// active span.
pub fn anchor_of(event: &Event, current: Option<usize>) -> (r: Option<usize>)
    ensures
        opt_int(r) == spec_anchor(opt_int(event.parent), opt_int(current)),
{
    match &event.parent {
        Some(h) => Some(*h),
        None => current,
    }
}

/// Resolves the span id at `anchor`.
///
/// A span whose extension bag carries a span id yields that id; one whose
/// bag was already torn down falls back to the span tree's own recycled
/// identifier, which is accepted, not corrected.
pub fn opentelemetry_span_id(reg: &SpanRegistry, anchor: Option<usize>) -> (r: Option<u64>)
    ensures
        opt_int64(r) == spec_span_id(reg.spans@, opt_int(anchor)),
{
    match anchor {
        None => None,
        Some(h) => {
            if h < reg.span_count() {
                match reg.span_identity(h) {
                    Some(t) => match t.span_id {
                        Some(s) => Some(s),
                        None => Some(reg.native_span_id(h)),
                    },
                    None => Some(reg.native_span_id(h)),
                }
            } else {
                None
            }
        },
    }
}

fn trace_id_from(reg: &SpanRegistry, h: usize) -> (r: Option<u128>)
    ensures
        r == spec_trace_id_from(reg.spans@, h as int),
    decreases h,
{
    if h >= reg.span_count() {
        return None;
    }
    match reg.span_identity(h) {
        Some(t) if t.trace_id.is_some() => t.trace_id,
        _ => {
            match reg.span_parent(h) {
                Some(p) => {
                    if p < h {
                        trace_id_from(reg, p)
                    } else {
                        None
                    }
                },
                None => None,
            }
        },
    }
}

/// Resolves the trace id at `anchor` by walking the parent chain to the
/// root until a span's extension bag yields a trace id.
pub fn opentelemetry_trace_id(reg: &SpanRegistry, anchor: Option<usize>) -> (r: Option<u128>)
    ensures
        r == spec_trace_id(reg.spans@, opt_int(anchor)),
{
    match anchor {
        None => None,
        Some(h) => trace_id_from(reg, h),
    }
}

/// Resolves the full identity pair at `anchor`.
pub fn resolve(reg: &SpanRegistry, anchor: Option<usize>) -> (r: TraceCorrelation)
    ensures
        r.trace_id == spec_trace_id(reg.spans@, opt_int(anchor)),
        opt_int64(r.span_id) == spec_span_id(reg.spans@, opt_int(anchor)),
{
    TraceCorrelation {
        trace_id: opentelemetry_trace_id(reg, anchor),
        span_id: opentelemetry_span_id(reg, anchor),
    }
}

/// Renders the identity in span `h`'s extension bag as fixed-width
/// hexadecimal text, absent halves as zero; `None` when the bag holds no
/// identity at all.
pub fn lookup_trace_info(reg: &SpanRegistry, h: usize) -> (r: Option<TraceInfo>)
    requires
        h < reg.len(),
    ensures
        r is Some <==> reg.spans@[h as int].identity is Some,
        r matches Some(info) ==> {
            let t = reg.spans@[h as int].identity.unwrap();
            &&& info.trace_id@ == spec_hex_fixed(
                match t.trace_id {
                    Some(v) => v as nat,
                    None => 0,
                },
                32,
            )
            &&& info.span_id@ == spec_hex_fixed(
                match t.span_id {
                    Some(v) => v as nat,
                    None => 0,
                },
                16,
            )
        },
{
    match reg.span_identity(h) {
        Some(t) => Some(
            TraceInfo {
                trace_id: hex32_u128(
                    match t.trace_id {
                        Some(v) => v,
                        None => 0,
                    },
                ),
                span_id: hex16_u64(
                    match t.span_id {
                        Some(v) => v,
                        None => 0,
                    },
                ),
            },
        ),
        None => None,
    }
}

/// No anchor, no span id — and an anchor always yields one.
///
/// For an event with no lifecycle flag the resolver returns no span id
/// exactly when the event has no enclosing active span: the fallback to
/// the tree's own identifier means an anchored event never loses its span
/// id.
pub proof fn lemma_span_id_none_iff_no_anchor(spans: Seq<SpanRecord>, anchor: Option<int>)
    requires
        anchor matches Some(h) ==> 0 <= h < spans.len(),
    ensures
        spec_span_id(spans, anchor) is None <==> anchor is None,
{
}

/// For an event with no lifecycle flag the resolver yields no span id
/// exactly when the event has neither a parent span nor an enclosing
/// active span.
pub proof fn lemma_plain_event_span_id(
    spans: Seq<SpanRecord>,
    parent: Option<int>,
    current: Option<int>,
)
    requires
        parent matches Some(h) ==> 0 <= h < spans.len(),
        current matches Some(h) ==> 0 <= h < spans.len(),
    ensures
        spec_span_id(spans, spec_anchor(parent, current)) is None <==> (parent is None
            && current is None),
{
    lemma_span_id_none_iff_no_anchor(spans, spec_anchor(parent, current));
}

/// The documented end-of-span inconsistency: once a span's own identity
/// has been torn down, the resolver falls back to the span tree's native
/// identifier for the span id, while the trace id is still found by
/// walking to the parent.
pub proof fn lemma_end_event_fallback(spans: Seq<SpanRecord>, h: int, p: usize, t: u128)
    requires
        0 <= h < spans.len(),
        spans[h].identity is None,
        spans[h].parent == Some(p),
        p < h,
        spans[p as int].identity matches Some(ti) && ti.trace_id == Some(t),
    ensures
        spec_span_id(spans, Some(h)) == Some(spec_native_id(h)),
        spec_trace_id_from(spans, h) == Some(t),
{
    assert(spec_trace_id_from(spans, h) == spec_trace_id_from(spans, p as int));
}

} // verus!
