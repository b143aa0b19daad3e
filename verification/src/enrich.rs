//! Identity enrichment: injecting the resolved trace identity into a
//! plain event's field set as two synthetic fields, under either the
//! short DataDog naming or the long OpenTelemetry naming.

use vstd::prelude::*;

verus! {

use crate::correlate::{
    anchor_of,
    opentelemetry_span_id,
    opentelemetry_trace_id,
    spec_anchor,
    spec_span_id,
    spec_trace_id,
};
use crate::event::Event;
use crate::fields::{dup_fields, models, Field, FieldModel, FieldValue, ValueModel};
use crate::span_registry::{SpanRecord, SpanRegistry};
use vstd::string::StringExecFns;

/// Which identity convention the enrichment decorator injects, if any.
#[derive(Clone, Copy, Debug, PartialEq, Eq, Structural)]
pub enum EnrichmentMode {
    /// Inject nothing.
    Disabled,
    /// The short convention: `dd.trace_id` and `dd.span_id`.
    DataDog,
    /// The long convention: `TraceId` and `SpanId`.
    OpenTelemetry,
}

impl EnrichmentMode {
    /// Whether enrichment is switched off.
    pub fn is_none(&self) -> (r: bool)
        ensures
            r <==> *self is Disabled,
    {
        matches!(self, EnrichmentMode::Disabled)
    }
}

/// The field name that carries the trace id under `mode`.
pub open spec fn spec_trace_field_name(mode: EnrichmentMode) -> Seq<char> {
    if mode is DataDog {
        "dd.trace_id"@
    } else {
        "TraceId"@
    }
}

/// The field name that carries the span id under `mode`.
pub open spec fn spec_span_field_name(mode: EnrichmentMode) -> Seq<char> {
    if mode is DataDog {
        "dd.span_id"@
    } else {
        "SpanId"@
    }
}

/// A plain event's field set with the resolved identity appended: the
/// trace id first, then the span id, each only when the resolver found
/// one.  Disabled enrichment, or a lifecycle notification, changes
/// nothing.
pub open spec fn spec_enriched_fields(
    spans: Seq<SpanRecord>,
    fields: Seq<FieldModel>,
    is_lifecycle: bool,
    parent: Option<int>,
    current: Option<int>,
    mode: EnrichmentMode,
) -> Seq<FieldModel> {
    if mode is Disabled || is_lifecycle {
        fields
    } else {
        let anchor = spec_anchor(parent, current);
        let tid = spec_trace_id(spans, anchor);
        let sid = spec_span_id(spans, anchor);
        let with_trace = match tid {
            Some(t) => fields.push(
                FieldModel {
                    name: spec_trace_field_name(mode),
                    value: ValueModel::VU128(t as nat),
                },
            ),
            None => fields,
        };
        match sid {
            Some(s) => with_trace.push(
                FieldModel {
                    name: spec_span_field_name(mode),
                    value: ValueModel::VU64(
                        if s >= 0 {
                            s as nat
                        } else {
                            0
                        },
                    ),
                },
            ),
            None => with_trace,
        }
    }
}

/// Computes the enriched field set of `event` under `mode`.
pub fn enriched_fields(
    reg: &SpanRegistry,
    event: &Event,
    current: Option<usize>,
    mode: EnrichmentMode,
) -> (r: Vec<Field>)
    ensures
        models(r@) == spec_enriched_fields(
            reg.spans@,
            models(event.fields@),
            event.is_lifecycle,
            crate::correlate::opt_int(event.parent),
            crate::correlate::opt_int(current),
            mode,
        ),
{
    let mut out = dup_fields(&event.fields);
    if mode.is_none() || event.is_lifecycle {
        return out;
    }
    let anchor = anchor_of(event, current);
    let tid = opentelemetry_trace_id(reg, anchor);
    let sid = opentelemetry_span_id(reg, anchor);
    match tid {
        Some(t) => {
            let ghost pre = out@;
            let name = if matches!(mode, EnrichmentMode::DataDog) {
                String::from_str("dd.trace_id")
            } else {
                String::from_str("TraceId")
            };
            out.push(Field { name, value: FieldValue::U128(t) });
            proof {
                assert(models(out@) =~= models(pre).push(
                    FieldModel {
                        name: spec_trace_field_name(mode),
                        value: ValueModel::VU128(t as nat),
                    },
                ));
            }
        },
        None => {},
    }
    match sid {
        Some(s) => {
            let ghost pre = out@;
            let name = if matches!(mode, EnrichmentMode::DataDog) {
                String::from_str("dd.span_id")
            } else {
                String::from_str("SpanId")
            };
            out.push(Field { name, value: FieldValue::U64(s) });
            proof {
                assert(models(out@) =~= models(pre).push(
                    FieldModel {
                        name: spec_span_field_name(mode),
                        value: ValueModel::VU64(s as nat),
                    },
                ));
            }
        },
        None => {},
    }
    out
}

} // verus!
