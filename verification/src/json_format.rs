//! The JSON line renderer: one JSON object per event with `timestamp`,
//! `level`, `target`, the merged field map, and the resolved trace
//! identity when one is present.

use vstd::prelude::*;

verus! {

use crate::correlate::{
    anchor_of,
    opentelemetry_span_id,
    opentelemetry_trace_id,
    opt_int,
    opt_int64,
    spec_anchor,
    spec_span_id,
    spec_trace_id,
};
use crate::error::FormatError;
use crate::event::Event;
use crate::fields::{dup_fields, models, spec_find, spec_find_from, spec_lookup, Field, FieldModel};
use crate::json_text::{json_object, json_object_text, json_quote, json_quoted, rfc3339_text, rfc3339_utc};
use crate::level::Level;
use crate::span_registry::{SpanRecord, SpanRegistry};
use crate::text::{hex16_u64, hex32_u128, spec_hex_fixed};
use vstd::string::StringExecFns;

/// Latest valid second: the first instant of the year 10000.
pub const MAX_TIMESTAMP_SECS: i64 = 253402300800;

/// `acc` extended with those of `attrs` (from position `i` on) whose
/// names it does not hold yet: the field map wins every name collision.
pub open spec fn spec_merge_from(acc: Seq<FieldModel>, attrs: Seq<FieldModel>, i: int) -> Seq<
    FieldModel,
>
    decreases attrs.len() - i,
{
    if i < 0 || i >= attrs.len() {
        acc
    } else {
        let next = if spec_find(acc, attrs[i].name) is Some {
            acc
        } else {
            acc.push(attrs[i])
        };
        spec_merge_from(next, attrs, i + 1)
    }
}

/// The field map of the record: for a lifecycle notification the
/// anchoring span's attributes are folded in, the event's own fields
/// taking precedence on a name collision; other events keep their fields
/// alone.  A notification whose span is unknown keeps its fields alone
/// rather than failing.
pub open spec fn spec_json_fields(
    spans: Seq<SpanRecord>,
    fields: Seq<FieldModel>,
    is_lifecycle: bool,
    parent: Option<int>,
) -> Seq<FieldModel> {
    match parent {
        Some(h) => if is_lifecycle && 0 <= h < spans.len() {
            spec_merge_from(fields, models(spans[h].attrs@), 0)
        } else {
            fields
        },
        None => fields,
    }
}

/// One whole JSON log line.
pub open spec fn spec_json_line(
    spans: Seq<SpanRecord>,
    secs: int,
    nanos: int,
    level: Level,
    target: Seq<char>,
    fields: Seq<FieldModel>,
    is_lifecycle: bool,
    parent: Option<int>,
    current: Option<int>,
) -> Seq<char> {
    let anchor = spec_anchor(parent, current);
    let sid = spec_span_id(spans, anchor);
    let tid = spec_trace_id(spans, anchor);
    "{\"timestamp\":"@ + json_quoted(rfc3339_utc(secs, nanos)) + ",\"level\":\""@
        + level.spec_name() + "\",\"target\":"@ + json_quoted(target) + ",\"fields\":"@
        + json_object(spec_json_fields(spans, fields, is_lifecycle, parent)) + (match sid {
        Some(s) => ",\"span_id\":\""@ + spec_hex_fixed(s as nat, 16) + "\",\"dd.span_id\":\""@
            + spec_hex_fixed(s as nat, 16) + "\""@,
        None => Seq::empty(),
    }) + (match tid {
        Some(t) => ",\"trace_id\":\""@ + spec_hex_fixed(t as nat, 32) + "\",\"dd.trace_id\":\""@
            + spec_hex_fixed(t as nat, 16) + "\""@,
        None => Seq::empty(),
    }) + "}\n"@
}

proof fn lemma_find_from_push_keeps_found(
    s: Seq<FieldModel>,
    f: FieldModel,
    name: Seq<char>,
    i: int,
)
    requires
        0 <= i,
        spec_find_from(s, i, name) is Some,
    ensures
        spec_find_from(s.push(f), i, name) == spec_find_from(s, i, name),
    decreases s.len() - i,
{
    if i < s.len() {
        assert(s.push(f)[i] == s[i]);
        if s[i].name != name {
            lemma_find_from_push_keeps_found(s, f, name, i + 1);
        }
    }
}

proof fn lemma_find_from_some_in_range(s: Seq<FieldModel>, name: Seq<char>, i: int)
    requires
        0 <= i,
        spec_find_from(s, i, name) is Some,
    ensures
        i <= spec_find_from(s, i, name).unwrap() < s.len(),
    decreases s.len() - i,
{
    if i < s.len() && s[i].name != name {
        lemma_find_from_some_in_range(s, name, i + 1);
    }
}

/// Folding span attributes into a field map never changes the value of
/// a name the map already holds: on a key collision the event's own
/// field takes precedence over the span attribute.
pub proof fn lemma_merge_keeps_event_fields(
    acc: Seq<FieldModel>,
    attrs: Seq<FieldModel>,
    i: int,
    name: Seq<char>,
)
    requires
        spec_find(acc, name) is Some,
    ensures
        spec_lookup(spec_merge_from(acc, attrs, i), name) == spec_lookup(acc, name),
    decreases attrs.len() - i,
{
    if 0 <= i < attrs.len() {
        if spec_find(acc, attrs[i].name) is Some {
            lemma_merge_keeps_event_fields(acc, attrs, i + 1, name);
        } else {
            let next = acc.push(attrs[i]);
            lemma_find_from_push_keeps_found(acc, attrs[i], name, 0);
            lemma_find_from_some_in_range(acc, name, 0);
            assert(next[spec_find(acc, name).unwrap()] == acc[spec_find(acc, name).unwrap()]);
            lemma_merge_keeps_event_fields(next, attrs, i + 1, name);
        }
    }
}

fn merged_fields(reg: &SpanRegistry, event: &Event) -> (r: Vec<Field>)
    ensures
        models(r@) == spec_json_fields(
            reg.spans@,
            models(event.fields@),
            event.is_lifecycle,
            opt_int(event.parent),
        ),
{
    let h = match &event.parent {
        Some(h) => *h,
        None => {
            return dup_fields(&event.fields);
        },
    };
    if !event.is_lifecycle || h >= reg.span_count() {
        return dup_fields(&event.fields);
    }
    let mut acc = dup_fields(&event.fields);
    let attrs = reg.span_attrs(h);
    let n = attrs.len();
    let mut i: usize = 0;
    while i < n
        invariant
            n == attrs@.len(),
            i <= n,
            spec_merge_from(models(acc@), models(attrs@), i as int) == spec_merge_from(
                models(event.fields@),
                models(attrs@),
                0,
            ),
        decreases n - i,
    {
        proof {
            assert(models(attrs@)[i as int] == attrs@[i as int]@);
        }
        match crate::fields::find_field(&acc, attrs[i].name.as_str()) {
            Some(_) => {},
            None => {
                let ghost pre = acc@;
                acc.push(attrs[i].dup());
                proof {
                    assert(models(acc@) =~= models(pre).push(models(attrs@)[i as int]));
                }
            },
        }
        i += 1;
    }
    acc
}

/// The JSON event formatter.
#[derive(Clone, Copy, Debug, PartialEq, Eq, Structural)]
pub struct JsonFormatter {}

impl JsonFormatter {
    pub fn new() -> JsonFormatter {
        JsonFormatter {  }
    }

    /// Renders one JSON log line for `event` at the given UTC timestamp,
    /// `current` being the innermost active span.
    pub fn format_event(
        &self,
        reg: &SpanRegistry,
        event: &Event,
        current: Option<usize>,
        secs: i64,
        nanos: u32,
    ) -> (r: Result<String, FormatError>)
        ensures
            r is Ok <==> (0 <= secs < MAX_TIMESTAMP_SECS && nanos < 1_000_000_000),
            r matches Err(e) ==> e == FormatError::TimestampOutOfRange,
            r matches Ok(line) ==> line@ == spec_json_line(
                reg.spans@,
                secs as int,
                nanos as int,
                event.level,
                event.callsite.target@,
                models(event.fields@),
                event.is_lifecycle,
                opt_int(event.parent),
                opt_int(current),
            ),
    {
        if !(secs >= 0 && secs < MAX_TIMESTAMP_SECS && nanos < 1_000_000_000) {
            return Err(FormatError::TimestampOutOfRange);
        }
        let stamp = match rfc3339_text(secs, nanos) {
            Some(t) => t,
            None => {
                proof {
                    assert(false);
                }
                return Err(FormatError::TimestampOutOfRange);
            },
        };
        let anchor = anchor_of(event, current);
        let sid = opentelemetry_span_id(reg, anchor);
        let tid = opentelemetry_trace_id(reg, anchor);
        let merged = merged_fields(reg, event);
        let mut out = "{\"timestamp\":".to_owned();
        out.append(json_quote(stamp.as_str()).as_str());
        out.append(",\"level\":\"");
        out.append(event.level.name());
        out.append("\",\"target\":");
        out.append(json_quote(event.callsite.target.as_str()).as_str());
        out.append(",\"fields\":");
        out.append(json_object_text(&merged).as_str());
        match sid {
            Some(s) => {
                out.append(",\"span_id\":\"");
                out.append(hex16_u64(s).as_str());
                out.append("\",\"dd.span_id\":\"");
                out.append(hex16_u64(s).as_str());
                out.append("\"");
            },
            None => {},
        }
        match tid {
            Some(t) => {
                out.append(",\"trace_id\":\"");
                out.append(hex32_u128(t).as_str());
                out.append("\",\"dd.trace_id\":\"");
                out.append(hex_low16_u128(t).as_str());
                out.append("\"");
            },
            None => {},
        }
        out.append("}\n");
        Ok(out)
    }
}

/// The low sixteen hexadecimal digits of a wide identifier: the legacy
/// short form of a trace id.
fn hex_low16_u128(n: u128) -> (r: String)
    ensures
        r@ == spec_hex_fixed(n as nat, 16),
{
    crate::text::hex_fixed_u128(n, 16)
}

} // verus!
