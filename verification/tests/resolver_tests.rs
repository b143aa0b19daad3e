//! Trace-context resolution and lifecycle classification.

use cli_batteries::correlate::{lookup_trace_info, opentelemetry_span_id, opentelemetry_trace_id, resolve};
use cli_batteries::lifecycle::synthesize_lifecycle;
use cli_batteries::{Callsite, Event, Field, FieldValue, Level, SpanRegistry, TraceIdentity};

fn callsite() -> Callsite {
    Callsite {
        target: "app".to_string(),
        module: Some("app::db".to_string()),
        file: Some("db.rs".to_string()),
        line: Some(10),
    }
}

#[test]
fn no_enclosing_span_resolves_to_nothing() {
    let reg = SpanRegistry::new();
    let correlation = resolve(&reg, None);
    assert_eq!(correlation.trace_id, None);
    assert_eq!(correlation.span_id, None);
}

#[test]
fn anchored_event_always_has_a_span_id() {
    let mut reg = SpanRegistry::new();
    let h = reg.open_span("work".to_string(), None, None, Vec::new());
    assert_eq!(opentelemetry_span_id(&reg, Some(h)), Some(h as u64 + 1));
    assert_eq!(opentelemetry_trace_id(&reg, Some(h)), None);
}

#[test]
fn identity_in_the_bag_wins() {
    let mut reg = SpanRegistry::new();
    let identity = TraceIdentity { trace_id: Some(1), span_id: Some(2) };
    let h = reg.open_span("db_query".to_string(), None, Some(identity), Vec::new());
    let correlation = resolve(&reg, Some(h));
    assert_eq!(correlation.trace_id, Some(1));
    assert_eq!(correlation.span_id, Some(2));
}

#[test]
fn end_event_falls_back_to_the_native_id() {
    let mut reg = SpanRegistry::new();
    let root = reg.open_span(
        "server".to_string(),
        None,
        Some(TraceIdentity { trace_id: Some(7), span_id: Some(40) }),
        Vec::new(),
    );
    let child = reg.open_span(
        "db_query".to_string(),
        Some(root),
        Some(TraceIdentity { trace_id: Some(7), span_id: Some(41) }),
        Vec::new(),
    );
    // The cooperating layer tears the identity down before end-of-span
    // bookkeeping runs.
    reg.set_identity(child, None);
    let correlation = resolve(&reg, Some(child));
    assert_eq!(correlation.span_id, Some(child as u64 + 1));
    assert_eq!(correlation.trace_id, Some(7));
}

#[test]
fn trace_id_is_found_by_walking_to_the_root() {
    let mut reg = SpanRegistry::new();
    let root = reg.open_span(
        "server".to_string(),
        None,
        Some(TraceIdentity { trace_id: Some(99), span_id: None }),
        Vec::new(),
    );
    let mid = reg.open_span("handler".to_string(), Some(root), None, Vec::new());
    let leaf = reg.open_span("db_query".to_string(), Some(mid), None, Vec::new());
    assert_eq!(opentelemetry_trace_id(&reg, Some(leaf)), Some(99));
    assert_eq!(opentelemetry_span_id(&reg, Some(leaf)), Some(leaf as u64 + 1));
}

#[test]
fn span_begin_synthesizes_the_canonical_fields() {
    let mut reg = SpanRegistry::new();
    let h = reg.open_span("db_query".to_string(), None, None, Vec::new());
    let event = Event {
        level: Level::Info,
        callsite: callsite(),
        fields: Vec::new(),
        parent: Some(h),
        is_lifecycle: true,
    };
    let fields = synthesize_lifecycle(&reg, &event).unwrap();
    assert_eq!(fields.len(), 2);
    assert_eq!(fields[0], Field {
        name: "message".to_string(),
        value: FieldValue::Str("db_query".to_string()),
    });
    assert_eq!(fields[1], Field {
        name: "span".to_string(),
        value: FieldValue::Pretext("begin".to_string()),
    });
}

#[test]
fn span_end_synthesizes_the_canonical_fields() {
    let mut reg = SpanRegistry::new();
    let h = reg.open_span("db_query".to_string(), None, None, Vec::new());
    let event = Event {
        level: Level::Info,
        callsite: callsite(),
        fields: vec![
            Field { name: "time.busy".to_string(), value: FieldValue::Pretext("1.2ms".to_string()) },
            Field { name: "time.idle".to_string(), value: FieldValue::Pretext("0.3ms".to_string()) },
        ],
        parent: Some(h),
        is_lifecycle: true,
    };
    let fields = synthesize_lifecycle(&reg, &event).unwrap();
    assert_eq!(fields.len(), 4);
    assert_eq!(fields[0], Field {
        name: "message".to_string(),
        value: FieldValue::Str("db_query".to_string()),
    });
    assert_eq!(fields[1], Field {
        name: "span".to_string(),
        value: FieldValue::Pretext("end".to_string()),
    });
    assert_eq!(fields[2], Field {
        name: "time.busy".to_string(),
        value: FieldValue::Pretext("1.2ms".to_string()),
    });
    assert_eq!(fields[3], Field {
        name: "time.idle".to_string(),
        value: FieldValue::Pretext("0.3ms".to_string()),
    });
}

#[test]
fn lifecycle_without_a_known_span_is_refused() {
    let reg = SpanRegistry::new();
    let event = Event {
        level: Level::Info,
        callsite: callsite(),
        fields: Vec::new(),
        parent: None,
        is_lifecycle: true,
    };
    assert!(synthesize_lifecycle(&reg, &event).is_err());
    let dangling = Event { parent: Some(5), ..event };
    assert!(synthesize_lifecycle(&reg, &dangling).is_err());
}

#[test]
fn later_recorded_fields_extend_the_span_attributes() {
    let mut reg = SpanRegistry::new();
    let h = reg.open_span(
        "db_query".to_string(),
        None,
        None,
        vec![Field { name: "table".to_string(), value: FieldValue::Str("users".to_string()) }],
    );
    reg.record_span_fields(
        h,
        vec![Field { name: "rows".to_string(), value: FieldValue::U64(3) }],
    );
    let attrs = reg.span_attrs(h);
    assert_eq!(attrs.len(), 2);
    assert_eq!(attrs[1], Field { name: "rows".to_string(), value: FieldValue::U64(3) });
}

#[test]
fn trace_info_renders_the_bag_identity() {
    let mut reg = SpanRegistry::new();
    let h = reg.open_span(
        "work".to_string(),
        None,
        Some(TraceIdentity { trace_id: Some(1), span_id: Some(2) }),
        Vec::new(),
    );
    let info = lookup_trace_info(&reg, h).unwrap();
    assert_eq!(info.trace_id, "00000000000000000000000000000001");
    assert_eq!(info.span_id, "0000000000000002");
    let bare = reg.open_span("bare".to_string(), None, None, Vec::new());
    assert!(lookup_trace_info(&reg, bare).is_none());
}
