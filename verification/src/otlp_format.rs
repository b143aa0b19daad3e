//! The OTLP-style log-record renderer: one JSON object per event with an
//! integer timestamp, the resolved trace identity in fixed-width
//! hexadecimal, severity text and number, the `message` field extracted
//! as the record's body, and all remaining fields as attributes together
//! with the callsite's source-code attributes.

use vstd::prelude::*;

verus! {

use crate::correlate::{
    anchor_of,
    opentelemetry_span_id,
    opentelemetry_trace_id,
    opt_int,
    spec_anchor,
    spec_span_id,
    spec_trace_id,
};
use crate::event::Event;
use crate::fields::{
    lookup_field,
    models,
    spec_find,
    spec_find_from,
    spec_lookup,
    spec_upsert,
    upsert_field,
    Field,
    FieldModel,
    FieldValue,
    ValueModel,
};
use crate::json_text::{json_object, json_object_text, json_quote, json_quoted};
use crate::level::Level;
use crate::span_registry::{SpanRecord, SpanRegistry};
use crate::text::{hex16_u64, hex32_u128, i64_dec, spec_hex_fixed, spec_idec, spec_udec, str_eq, u64_dec};
use vstd::string::StringExecFns;

/// The body a field value contributes when it is the `message` field:
/// its text if it is string-like, nothing if it is a number.
pub open spec fn spec_body_of(v: ValueModel) -> Seq<char> {
    match v {
        ValueModel::VStr(s) => s,
        ValueModel::VPretext(s) => s,
        ValueModel::VError(s) => s,
        _ => Seq::empty(),
    }
}

/// The record's body: the text of the `message` field, empty when the
/// event has none.
pub open spec fn spec_otlp_body(fields: Seq<FieldModel>) -> Seq<char> {
    match spec_lookup(fields, "message"@) {
        Some(v) => spec_body_of(v),
        None => Seq::empty(),
    }
}

/// The source-code and thread attributes derived from the callsite: the
/// module as `code.namespace`, the file as `code.filepath`, the line as
/// `code.lineno`, then the thread's name.
pub open spec fn spec_base_attrs(
    module: Option<Seq<char>>,
    file: Option<Seq<char>>,
    line: Option<int>,
    thread_name: Seq<char>,
) -> Seq<FieldModel> {
    let a0 = Seq::<FieldModel>::empty();
    let a1 = match module {
        Some(m) => a0.push(FieldModel { name: "code.namespace"@, value: ValueModel::VStr(m) }),
        None => a0,
    };
    let a2 = match file {
        Some(f) => a1.push(FieldModel { name: "code.filepath"@, value: ValueModel::VStr(f) }),
        None => a1,
    };
    let a3 = match line {
        Some(l) => a2.push(
            FieldModel {
                name: "code.lineno"@,
                value: ValueModel::VU64(
                    if l >= 0 {
                        l as nat
                    } else {
                        0
                    },
                ),
            },
        ),
        None => a2,
    };
    a3.push(FieldModel { name: "thread.name"@, value: ValueModel::VStr(thread_name) })
}

/// `acc` after folding in the event's fields from position `i` on:
/// `message` is extracted as the body and dropped here, the bridged
/// provenance fields are remapped to their source-code attributes,
/// `log.target` is dropped, and everything else passes through.
pub open spec fn spec_otlp_fold(acc: Seq<FieldModel>, fields: Seq<FieldModel>, i: int) -> Seq<
    FieldModel,
>
    decreases fields.len() - i,
{
    if i < 0 || i >= fields.len() {
        acc
    } else {
        let f = fields[i];
        let next = if f.name == "message"@ {
            acc
        } else if f.name == "log.file"@ {
            spec_upsert(acc, FieldModel { name: "code.filepath"@, value: f.value })
        } else if f.name == "log.line"@ {
            spec_upsert(acc, FieldModel { name: "code.lineno"@, value: f.value })
        } else if f.name == "log.module_path"@ {
            spec_upsert(acc, FieldModel { name: "code.namespace"@, value: f.value })
        } else if f.name == "log.target"@ {
            acc
        } else {
            spec_upsert(acc, f)
        };
        spec_otlp_fold(next, fields, i + 1)
    }
}

/// `acc` after folding in a span's own attributes from position `i` on;
/// a span attribute replaces an event attribute of the same name.
pub open spec fn spec_attrs_extend(acc: Seq<FieldModel>, attrs: Seq<FieldModel>, i: int) -> Seq<
    FieldModel,
>
    decreases attrs.len() - i,
{
    if i < 0 || i >= attrs.len() {
        acc
    } else {
        spec_attrs_extend(spec_upsert(acc, attrs[i]), attrs, i + 1)
    }
}

/// The record's whole attribute map: the callsite attributes, then the
/// event's folded fields, then — for a lifecycle notification whose span
/// is known — the span's own attributes.
pub open spec fn spec_otlp_attrs(
    spans: Seq<SpanRecord>,
    module: Option<Seq<char>>,
    file: Option<Seq<char>>,
    line: Option<int>,
    thread_name: Seq<char>,
    fields: Seq<FieldModel>,
    is_lifecycle: bool,
    parent: Option<int>,
) -> Seq<FieldModel> {
    let ev = spec_otlp_fold(spec_base_attrs(module, file, line, thread_name), fields, 0);
    match parent {
        Some(h) => if is_lifecycle && 0 <= h < spans.len() {
            spec_attrs_extend(ev, models(spans[h].attrs@), 0)
        } else {
            ev
        },
        None => ev,
    }
}

/// One whole OTLP log line.  `ts` is the record's integer timestamp in
/// whichever unit the caller works in, milliseconds or nanoseconds.
pub open spec fn spec_otlp_line(
    spans: Seq<SpanRecord>,
    ts: int,
    level: Level,
    module: Option<Seq<char>>,
    file: Option<Seq<char>>,
    line: Option<int>,
    thread_name: Seq<char>,
    fields: Seq<FieldModel>,
    is_lifecycle: bool,
    parent: Option<int>,
    current: Option<int>,
) -> Seq<char> {
    let anchor = spec_anchor(parent, current);
    let sid = spec_span_id(spans, anchor);
    let tid = spec_trace_id(spans, anchor);
    "{\"Timestamp\":\""@ + spec_idec(ts) + "\""@ + (match tid {
        Some(t) => ",\"TraceId\":\""@ + spec_hex_fixed(t as nat, 32) + "\""@,
        None => Seq::empty(),
    }) + (match sid {
        Some(s) => ",\"SpanId\":\""@ + spec_hex_fixed(s as nat, 16) + "\""@,
        None => Seq::empty(),
    }) + ",\"SeverityText\":\""@ + level.spec_name() + "\",\"SeverityNumber\":"@ + spec_udec(
        level.spec_severity_number() as nat,
    ) + ",\"Body\":"@ + json_quoted(spec_otlp_body(fields)) + ",\"Attributes\":"@ + json_object(
        spec_otlp_attrs(
            spans,
            module,
            file,
            line,
            thread_name,
            fields,
            is_lifecycle,
            parent,
        ),
    ) + "}\n"@
}

proof fn lemma_find_from_push_other(s: Seq<FieldModel>, f: FieldModel, n: Seq<char>, i: int)
    requires
        f.name != n,
        0 <= i,
        spec_find_from(s, i, n) is None,
    ensures
        spec_find_from(s.push(f), i, n) is None,
    decreases s.len() + 1 - i,
{
    if i < s.len() {
        assert(s[i].name != n);
        assert(s.push(f)[i] == s[i]);
        lemma_find_from_push_other(s, f, n, i + 1);
        assert(spec_find_from(s.push(f), i, n) == spec_find_from(s.push(f), i + 1, n));
    } else if i == s.len() {
        assert(s.push(f)[i] == f);
        assert(spec_find_from(s.push(f), i + 1, n) is None);
    } else {
        assert(spec_find_from(s.push(f), i, n) is None);
    }
}

proof fn lemma_find_from_update_same_name(
    s: Seq<FieldModel>,
    j: int,
    g: FieldModel,
    n: Seq<char>,
    i: int,
)
    requires
        0 <= j < s.len(),
        g.name == s[j].name,
        0 <= i,
    ensures
        spec_find_from(s.update(j, g), i, n) == spec_find_from(s, i, n),
    decreases s.len() - i,
{
    if i < s.len() {
        lemma_find_from_update_same_name(s, j, g, n, i + 1);
    }
}

/// Inserting a field named other than `n` cannot make `n` present.
proof fn lemma_absent_after_upsert(acc: Seq<FieldModel>, f: FieldModel, n: Seq<char>)
    requires
        f.name != n,
        spec_find(acc, n) is None,
    ensures
        spec_find(spec_upsert(acc, f), n) is None,
{
    match spec_find(acc, f.name) {
        Some(j) => {
            assert(0 <= j < acc.len()) by {
                lemma_find_from_in_range(acc, f.name, 0);
            }
            lemma_find_from_update_same_name(
                acc,
                j,
                FieldModel { name: acc[j].name, value: f.value },
                n,
                0,
            );
        },
        None => {
            lemma_find_from_push_other(acc, f, n, 0);
        },
    }
}

proof fn lemma_find_from_in_range(s: Seq<FieldModel>, n: Seq<char>, i: int)
    requires
        0 <= i,
        spec_find_from(s, i, n) is Some,
    ensures
        i <= spec_find_from(s, i, n).unwrap() < s.len(),
        s[spec_find_from(s, i, n).unwrap()].name == n,
    decreases s.len() - i,
{
    if i < s.len() && s[i].name != n {
        lemma_find_from_in_range(s, n, i + 1);
    }
}

/// Folding event fields never introduces a `log.target` attribute: the
/// bridged target field is dropped, and every other field lands under
/// its own or its remapped name.
proof fn lemma_fold_no_log_target(acc: Seq<FieldModel>, fields: Seq<FieldModel>, i: int)
    requires
        spec_find(acc, "log.target"@) is None,
    ensures
        spec_find(spec_otlp_fold(acc, fields, i), "log.target"@) is None,
    decreases fields.len() - i,
{
    reveal_strlit("message");
    reveal_strlit("log.file");
    reveal_strlit("log.line");
    reveal_strlit("log.module_path");
    reveal_strlit("log.target");
    reveal_strlit("code.filepath");
    reveal_strlit("code.lineno");
    reveal_strlit("code.namespace");
    assert("log.target"@.len() == 10);
    assert("code.filepath"@ != "log.target"@);
    assert("code.lineno"@ != "log.target"@);
    assert("code.namespace"@ != "log.target"@);
    if 0 <= i < fields.len() {
        let f = fields[i];
        if f.name == "message"@ || f.name == "log.target"@ {
        } else if f.name == "log.file"@ {
            lemma_absent_after_upsert(
                acc,
                FieldModel { name: "code.filepath"@, value: f.value },
                "log.target"@,
            );
        } else if f.name == "log.line"@ {
            lemma_absent_after_upsert(
                acc,
                FieldModel { name: "code.lineno"@, value: f.value },
                "log.target"@,
            );
        } else if f.name == "log.module_path"@ {
            lemma_absent_after_upsert(
                acc,
                FieldModel { name: "code.namespace"@, value: f.value },
                "log.target"@,
            );
        } else {
            lemma_absent_after_upsert(acc, f, "log.target"@);
        }
        let next = if f.name == "message"@ {
            acc
        } else if f.name == "log.file"@ {
            spec_upsert(acc, FieldModel { name: "code.filepath"@, value: f.value })
        } else if f.name == "log.line"@ {
            spec_upsert(acc, FieldModel { name: "code.lineno"@, value: f.value })
        } else if f.name == "log.module_path"@ {
            spec_upsert(acc, FieldModel { name: "code.namespace"@, value: f.value })
        } else if f.name == "log.target"@ {
            acc
        } else {
            spec_upsert(acc, f)
        };
        lemma_fold_no_log_target(next, fields, i + 1);
    }
}

/// The callsite attributes never hold a `log.target` entry.
proof fn lemma_base_attrs_no_log_target(
    module: Option<Seq<char>>,
    file: Option<Seq<char>>,
    line: Option<int>,
    thread_name: Seq<char>,
)
    ensures
        spec_find(spec_base_attrs(module, file, line, thread_name), "log.target"@) is None,
{
    reveal_strlit("log.target");
    reveal_strlit("code.namespace");
    reveal_strlit("code.filepath");
    reveal_strlit("code.lineno");
    reveal_strlit("thread.name");
    assert("log.target"@.len() == 10);
    assert("code.namespace"@ != "log.target"@);
    assert("code.filepath"@ != "log.target"@);
    assert("code.lineno"@ != "log.target"@);
    assert("thread.name"@ != "log.target"@);
    let a0 = Seq::<FieldModel>::empty();
    let a1 = match module {
        Some(m) => a0.push(FieldModel { name: "code.namespace"@, value: ValueModel::VStr(m) }),
        None => a0,
    };
    let a2 = match file {
        Some(f) => a1.push(FieldModel { name: "code.filepath"@, value: ValueModel::VStr(f) }),
        None => a1,
    };
    let a3 = match line {
        Some(l) => a2.push(
            FieldModel {
                name: "code.lineno"@,
                value: ValueModel::VU64(
                    if l >= 0 {
                        l as nat
                    } else {
                        0
                    },
                ),
            },
        ),
        None => a2,
    };
    assert(spec_find(a0, "log.target"@) is None);
    if module is Some {
        lemma_find_from_push_other(
            a0,
            FieldModel { name: "code.namespace"@, value: ValueModel::VStr(module.unwrap()) },
            "log.target"@,
            0,
        );
    }
    assert(spec_find(a1, "log.target"@) is None);
    if file is Some {
        lemma_find_from_push_other(
            a1,
            FieldModel { name: "code.filepath"@, value: ValueModel::VStr(file.unwrap()) },
            "log.target"@,
            0,
        );
    }
    assert(spec_find(a2, "log.target"@) is None);
    if line is Some {
        lemma_find_from_push_other(
            a2,
            FieldModel {
                name: "code.lineno"@,
                value: ValueModel::VU64(
                    if line.unwrap() >= 0 {
                        line.unwrap() as nat
                    } else {
                        0
                    },
                ),
            },
            "log.target"@,
            0,
        );
    }
    assert(spec_find(a3, "log.target"@) is None);
    lemma_find_from_push_other(
        a3,
        FieldModel { name: "thread.name"@, value: ValueModel::VStr(thread_name) },
        "log.target"@,
        0,
    );
}

/// One bridged provenance field becomes exactly its source-code
/// attribute: folding in a single `log.file`, `log.line` or
/// `log.module_path` field is the insertion of `code.filepath`,
/// `code.lineno` or `code.namespace` with the same value, and a
/// `log.target` field changes nothing.
pub proof fn lemma_bridged_field_remap(acc: Seq<FieldModel>, v: ValueModel)
    ensures
        spec_otlp_fold(acc, seq![FieldModel { name: "log.file"@, value: v }], 0) == spec_upsert(
            acc,
            FieldModel { name: "code.filepath"@, value: v },
        ),
        spec_otlp_fold(acc, seq![FieldModel { name: "log.line"@, value: v }], 0) == spec_upsert(
            acc,
            FieldModel { name: "code.lineno"@, value: v },
        ),
        spec_otlp_fold(acc, seq![FieldModel { name: "log.module_path"@, value: v }], 0)
            == spec_upsert(acc, FieldModel { name: "code.namespace"@, value: v }),
        spec_otlp_fold(acc, seq![FieldModel { name: "log.target"@, value: v }], 0) == acc,
{
    reveal_strlit("message");
    reveal_strlit("log.file");
    reveal_strlit("log.line");
    reveal_strlit("log.module_path");
    reveal_strlit("log.target");
    assert("message"@.len() == 7);
    assert("log.file"@.len() == 8);
    assert("log.line"@.len() == 8);
    assert("log.module_path"@.len() == 15);
    assert("log.target"@.len() == 10);
    assert("log.line"@[4] == 'l' && "log.file"@[4] == 'f');
    assert("log.file"@ != "message"@);
    assert("log.line"@ != "message"@);
    assert("log.line"@ != "log.file"@);
    assert("log.module_path"@ != "message"@);
    assert("log.module_path"@ != "log.file"@);
    assert("log.module_path"@ != "log.line"@);
    assert("log.target"@ != "message"@);
    assert("log.target"@ != "log.file"@);
    assert("log.target"@ != "log.line"@);
    assert("log.target"@ != "log.module_path"@);
    let s1 = seq![FieldModel { name: "log.file"@, value: v }];
    assert(spec_otlp_fold(acc, s1, 0) == spec_otlp_fold(
        spec_upsert(acc, FieldModel { name: "code.filepath"@, value: v }),
        s1,
        1,
    ));
    let s2 = seq![FieldModel { name: "log.line"@, value: v }];
    assert(spec_otlp_fold(acc, s2, 0) == spec_otlp_fold(
        spec_upsert(acc, FieldModel { name: "code.lineno"@, value: v }),
        s2,
        1,
    ));
    let s3 = seq![FieldModel { name: "log.module_path"@, value: v }];
    assert(spec_otlp_fold(acc, s3, 0) == spec_otlp_fold(
        spec_upsert(acc, FieldModel { name: "code.namespace"@, value: v }),
        s3,
        1,
    ));
    let s4 = seq![FieldModel { name: "log.target"@, value: v }];
    assert(spec_otlp_fold(acc, s4, 0) == spec_otlp_fold(acc, s4, 1));
}

/// A plain (non-lifecycle) event's record carries no `log.target`
/// attribute, whatever its fields were.
pub proof fn lemma_no_log_target_attribute(
    spans: Seq<SpanRecord>,
    module: Option<Seq<char>>,
    file: Option<Seq<char>>,
    line: Option<int>,
    thread_name: Seq<char>,
    fields: Seq<FieldModel>,
    parent: Option<int>,
)
    ensures
        spec_find(
            spec_otlp_attrs(spans, module, file, line, thread_name, fields, false, parent),
            "log.target"@,
        ) is None,
{
    lemma_base_attrs_no_log_target(module, file, line, thread_name);
    lemma_fold_no_log_target(spec_base_attrs(module, file, line, thread_name), fields, 0);
}

fn body_text(fields: &Vec<Field>) -> (r: String)
    ensures
        r@ == spec_otlp_body(models(fields@)),
{
    match lookup_field(fields, "message") {
        Some(v) => match v {
            FieldValue::Str(s) => s,
            FieldValue::Pretext(s) => s,
            FieldValue::Error(s) => s,
            _ => String::new(),
        },
        None => String::new(),
    }
}

fn base_attrs(event: &Event, thread_name: &str) -> (r: Vec<Field>)
    ensures
        models(r@) == spec_base_attrs(
            event.callsite.module.deep_view(),
            event.callsite.file.deep_view(),
            match event.callsite.line {
                Some(l) => Some(l as int),
                None => None,
            },
            thread_name@,
        ),
{
    let mut acc: Vec<Field> = Vec::new();
    match &event.callsite.module {
        Some(m) => acc.push(
            Field { name: String::from_str("code.namespace"), value: FieldValue::Str(m.clone()) },
        ),
        None => {},
    }
    match &event.callsite.file {
        Some(f) => acc.push(
            Field { name: String::from_str("code.filepath"), value: FieldValue::Str(f.clone()) },
        ),
        None => {},
    }
    match &event.callsite.line {
        Some(l) => acc.push(
            Field { name: String::from_str("code.lineno"), value: FieldValue::U64(*l as u64) },
        ),
        None => {},
    }
    acc.push(
        Field { name: String::from_str("thread.name"), value: FieldValue::Str(thread_name.to_owned()) },
    );
    proof {
        assert(models(acc@) =~= spec_base_attrs(
            event.callsite.module.deep_view(),
            event.callsite.file.deep_view(),
            match event.callsite.line {
                Some(l) => Some(l as int),
                None => None,
            },
            thread_name@,
        ));
    }
    acc
}

fn fold_event_fields(acc: Vec<Field>, fields: &Vec<Field>) -> (r: Vec<Field>)
    ensures
        models(r@) == spec_otlp_fold(models(acc@), models(fields@), 0),
{
    let mut acc = acc;
    let ghost acc0 = acc@;
    let n = fields.len();
    let mut i: usize = 0;
    while i < n
        invariant
            n == fields@.len(),
            i <= n,
            spec_otlp_fold(models(acc@), models(fields@), i as int) == spec_otlp_fold(
                models(acc0),
                models(fields@),
                0,
            ),
        decreases n - i,
    {
        proof {
            assert(models(fields@)[i as int] == fields@[i as int]@);
        }
        let f = &fields[i];
        let name = f.name.as_str();
        if str_eq(name, "message") {
        } else if str_eq(name, "log.file") {
            upsert_field(
                &mut acc,
                Field { name: String::from_str("code.filepath"), value: f.value.dup() },
            );
        } else if str_eq(name, "log.line") {
            upsert_field(
                &mut acc,
                Field { name: String::from_str("code.lineno"), value: f.value.dup() },
            );
        } else if str_eq(name, "log.module_path") {
            upsert_field(
                &mut acc,
                Field { name: String::from_str("code.namespace"), value: f.value.dup() },
            );
        } else if str_eq(name, "log.target") {
        } else {
            upsert_field(&mut acc, f.dup());
        }
        i += 1;
    }
    acc
}

fn extend_span_attrs(acc: Vec<Field>, attrs: &Vec<Field>) -> (r: Vec<Field>)
    ensures
        models(r@) == spec_attrs_extend(models(acc@), models(attrs@), 0),
{
    let mut acc = acc;
    let ghost acc0 = acc@;
    let n = attrs.len();
    let mut i: usize = 0;
    while i < n
        invariant
            n == attrs@.len(),
            i <= n,
            spec_attrs_extend(models(acc@), models(attrs@), i as int) == spec_attrs_extend(
                models(acc0),
                models(attrs@),
                0,
            ),
        decreases n - i,
    {
        proof {
            assert(models(attrs@)[i as int] == attrs@[i as int]@);
        }
        upsert_field(&mut acc, attrs[i].dup());
        i += 1;
    }
    acc
}

/// The OTLP event formatter.
#[derive(Clone, Copy, Debug, PartialEq, Eq, Structural)]
pub struct OtlpFormatter {}

impl OtlpFormatter {
    pub fn new() -> OtlpFormatter {
        OtlpFormatter {  }
    }

    /// Renders one OTLP log line for `event`, `current` being the
    /// innermost active span, `timestamp` the record's integer timestamp
    /// and `thread_name` the emitting thread's name.
    #[verifier::rlimit(60)]
    pub fn format_event(
        &self,
        reg: &SpanRegistry,
        event: &Event,
        current: Option<usize>,
        timestamp: i64,
        thread_name: &str,
    ) -> (r: String)
        ensures
            r@ == spec_otlp_line(
                reg.spans@,
                timestamp as int,
                event.level,
                event.callsite.module.deep_view(),
                event.callsite.file.deep_view(),
                match event.callsite.line {
                    Some(l) => Some(l as int),
                    None => None,
                },
                thread_name@,
                models(event.fields@),
                event.is_lifecycle,
                opt_int(event.parent),
                opt_int(current),
            ),
    {
        let anchor = anchor_of(event, current);
        let sid = opentelemetry_span_id(reg, anchor);
        let tid = opentelemetry_trace_id(reg, anchor);
        let base = base_attrs(event, thread_name);
        let mut attrs = fold_event_fields(base, &event.fields);
        if event.is_lifecycle {
            match &event.parent {
                Some(h) => {
                    if *h < reg.span_count() {
                        attrs = extend_span_attrs(attrs, reg.span_attrs(*h));
                    }
                },
                None => {},
            }
        }
        let mut out = "{\"Timestamp\":\"".to_owned();
        out.append(i64_dec(timestamp).as_str());
        out.append("\"");
        match tid {
            Some(t) => {
                out.append(",\"TraceId\":\"");
                out.append(hex32_u128(t).as_str());
                out.append("\"");
            },
            None => {},
        }
        match sid {
            Some(s) => {
                out.append(",\"SpanId\":\"");
                out.append(hex16_u64(s).as_str());
                out.append("\"");
            },
            None => {},
        }
        out.append(",\"SeverityText\":\"");
        out.append(event.level.name());
        out.append("\",\"SeverityNumber\":");
        out.append(u64_dec(event.level.severity_number() as u64).as_str());
        out.append(",\"Body\":");
        out.append(json_quote(body_text(&event.fields).as_str()).as_str());
        out.append(",\"Attributes\":");
        out.append(json_object_text(&attrs).as_str());
        out.append("}\n");
        out
    }
}

} // verus!
