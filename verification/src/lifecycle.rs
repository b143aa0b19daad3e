//! The event classifier and lifecycle synthesizer.
//!
//! A lifecycle notification carries no explicit begin/end signal: a
//! span-end notification is recognised by the presence of both timing
//! fields, and the notification is rewritten into a canonical field set
//! before any rendering or trace-correlation happens.

use vstd::prelude::*;

verus! {

use crate::error::FormatError;
use crate::event::Event;
use crate::fields::{
    lookup_field,
    models,
    spec_lookup,
    value_debug,
    value_debug_text,
    Field,
    FieldModel,
    FieldValue,
    ValueModel,
};
use crate::span_registry::SpanRegistry;
use vstd::string::StringExecFns;

/// A lifecycle notification describes a span's end exactly when both
/// timing fields are present.
pub open spec fn spec_is_span_end(fields: Seq<FieldModel>) -> bool {
    spec_lookup(fields, "time.busy"@) is Some && spec_lookup(fields, "time.idle"@) is Some
}

/// The canonical field set a lifecycle notification is rewritten to.
///
/// A span-end notification carries exactly `message` (the span's name),
/// the `end` marker, and the debug texts of its two timing fields; a
/// span-begin notification exactly `message` and the `begin` marker, no
/// timing fields.
pub open spec fn spec_lifecycle_fields(span_name: Seq<char>, fields: Seq<FieldModel>) -> Seq<
    FieldModel,
> {
    if spec_is_span_end(fields) {
        seq![
            FieldModel { name: "message"@, value: ValueModel::VStr(span_name) },
            FieldModel { name: "span"@, value: ValueModel::VPretext("end"@) },
            FieldModel {
                name: "time.busy"@,
                value: ValueModel::VPretext(
                    value_debug(spec_lookup(fields, "time.busy"@).unwrap()),
                ),
            },
            FieldModel {
                name: "time.idle"@,
                value: ValueModel::VPretext(
                    value_debug(spec_lookup(fields, "time.idle"@).unwrap()),
                ),
            },
        ]
    } else {
        seq![
            FieldModel { name: "message"@, value: ValueModel::VStr(span_name) },
            FieldModel { name: "span"@, value: ValueModel::VPretext("begin"@) },
        ]
    }
}

/// Rewrites a lifecycle notification into its canonical field set,
/// anchored on the span the notification describes.
///
/// Classification happens here, strictly before trace-correlation: the
/// notification is a span-end exactly when it carries both `time.busy`
/// and `time.idle`, otherwise a span-begin.  A notification that names no
/// span the registry knows cannot be rewritten.
pub fn synthesize_lifecycle(reg: &SpanRegistry, event: &Event) -> (r: Result<
    Vec<Field>,
    FormatError,
>)
    requires
        event.is_lifecycle,
    ensures
        r is Ok <==> (event.parent matches Some(h) && h < reg.len()),
        r matches Err(e) ==> e == FormatError::MissingSpan,
        r matches Ok(f) ==> models(f@) == spec_lifecycle_fields(
            reg.spans@[event.parent.unwrap() as int].name@,
            models(event.fields@),
        ),
{
    let h = match &event.parent {
        Some(h) => *h,
        None => {
            return Err(FormatError::MissingSpan);
        },
    };
    if h >= reg.span_count() {
        return Err(FormatError::MissingSpan);
    }
    let span_name = reg.span_name(h).clone();
    let busy = lookup_field(&event.fields, "time.busy");
    let idle = lookup_field(&event.fields, "time.idle");
    let mut out: Vec<Field> = Vec::new();
    out.push(Field { name: String::from_str("message"), value: FieldValue::Str(span_name) });
    match (busy, idle) {
        (Some(b), Some(d)) => {
            out.push(
                Field {
                    name: String::from_str("span"),
                    value: FieldValue::Pretext(String::from_str("end")),
                },
            );
            out.push(
                Field {
                    name: String::from_str("time.busy"),
                    value: FieldValue::Pretext(value_debug_text(&b)),
                },
            );
            out.push(
                Field {
                    name: String::from_str("time.idle"),
                    value: FieldValue::Pretext(value_debug_text(&d)),
                },
            );
            proof {
                assert(models(out@) =~= spec_lifecycle_fields(
                    reg.spans@[h as int].name@,
                    models(event.fields@),
                ));
            }
        },
        _ => {
            out.push(
                Field {
                    name: String::from_str("span"),
                    value: FieldValue::Pretext(String::from_str("begin")),
                },
            );
            proof {
                assert(models(out@) =~= spec_lifecycle_fields(
                    reg.spans@[h as int].name@,
                    models(event.fields@),
                ));
            }
        },
    }
    Ok(out)
}

} // verus!
