//! The renderers: tiny console lines, JSON lines, OTLP log records, the
//! enrichment decorator, and the composed pipeline.

use cli_batteries::pipeline::{init_pipeline, shutdown as pipeline_shutdown, RenderEnv, RenderStrategy};
use cli_batteries::{
    Callsite, EnrichmentMode, Event, EventEnrichmentCenter, Field, FieldValue, JsonFormatter,
    Level, LogFmt, OtlpFormatter, SpanFormatter, SpanRegistry, TinyLogFmt, TraceIdentity,
};

fn callsite() -> Callsite {
    Callsite {
        target: "app".to_string(),
        module: Some("app::db".to_string()),
        file: Some("a.rs".to_string()),
        line: Some(7),
    }
}

fn env() -> RenderEnv {
    RenderEnv {
        uptime_secs: 12,
        uptime_micros: 345678,
        epoch_secs: 0,
        epoch_nanos: 0,
        timestamp: 1700000000123,
        thread_name: "main".to_string(),
    }
}

fn info_event(fields: Vec<Field>, parent: Option<usize>) -> Event {
    Event { level: Level::Info, callsite: callsite(), fields, parent, is_lifecycle: false }
}

#[test]
fn tiny_line_without_colours() {
    let reg = SpanRegistry::new();
    let event = info_event(
        vec![
            Field { name: "message".to_string(), value: FieldValue::Str("Hello".to_string()) },
            Field { name: "foo".to_string(), value: FieldValue::U64(42) },
        ],
        None,
    );
    let line = TinyLogFmt::plain().format_event(&reg, &event, &event.fields, 12, 345678).unwrap();
    assert_eq!(line, "  12.345678 I Hello foo:42\n");
}

#[test]
fn tiny_line_with_colours_strips_back_to_the_plain_line() {
    let reg = SpanRegistry::new();
    let event = info_event(
        vec![
            Field { name: "message".to_string(), value: FieldValue::Str("Hello".to_string()) },
            Field { name: "foo".to_string(), value: FieldValue::U64(42) },
        ],
        None,
    );
    let coloured = TinyLogFmt::new().format_event(&reg, &event, &event.fields, 12, 345678).unwrap();
    assert!(coloured.contains("\u{1b}[2m"));
    assert!(coloured.contains("\u{1b}[32m"));
    let mut stripped = String::new();
    let mut rest = coloured.as_str();
    while let Some(start) = rest.find('\u{1b}') {
        stripped.push_str(&rest[..start]);
        let after = &rest[start..];
        let end = after.find('m').expect("unterminated escape code");
        rest = &after[end + 1..];
    }
    stripped.push_str(rest);
    assert_eq!(stripped, "  12.345678 I Hello foo:42\n");
}

#[test]
fn tiny_field_rules() {
    let reg = SpanRegistry::new();
    let event = info_event(
        vec![
            Field { name: "message".to_string(), value: FieldValue::Str("go".to_string()) },
            Field { name: "log.target".to_string(), value: FieldValue::Str("x".to_string()) },
            Field { name: "r#type".to_string(), value: FieldValue::Str("db".to_string()) },
            Field { name: "count".to_string(), value: FieldValue::I64(-3) },
            Field { name: "err".to_string(), value: FieldValue::Error("boom".to_string()) },
        ],
        None,
    );
    let line = TinyLogFmt::plain().format_event(&reg, &event, &event.fields, 0, 0).unwrap();
    assert_eq!(line, "   0.000000 I go type:\"db\" count:-3 err:boom\n");
}

#[test]
fn test_with_log_output() {
    let reg = SpanRegistry::new();
    let event = Event {
        level: Level::Error,
        callsite: callsite(),
        fields: vec![Field {
            name: "message".to_string(),
            value: FieldValue::Str("logged on the error level".to_string()),
        }],
        parent: None,
        is_lifecycle: false,
    };
    let line = TinyLogFmt::plain().format_event(&reg, &event, &event.fields, 0, 0).unwrap();
    assert!(line.contains("logged on the error level"));
}

#[test]
fn async_test_with_log() {
    let reg = SpanRegistry::new();
    let tiny = TinyLogFmt::plain();
    let mut captured = String::new();
    for (level, text) in [
        (Level::Info, "This is being logged on the info level"),
        (Level::Warn, "This is being logged on the warn level from a spawned task"),
    ] {
        let event = Event {
            level,
            callsite: callsite(),
            fields: vec![Field {
                name: "message".to_string(),
                value: FieldValue::Str(text.to_string()),
            }],
            parent: None,
            is_lifecycle: false,
        };
        captured.push_str(&tiny.format_event(&reg, &event, &event.fields, 0, 0).unwrap());
    }
    assert!(captured.contains("logged on the info level"));
    assert!(captured.contains("logged on the warn level"));
    assert!(!captured.contains("logged on the error level"));
}

#[test]
fn tiny_appends_span_attributes_for_lifecycle_events() {
    let mut reg = SpanRegistry::new();
    let h = reg.open_span(
        "db_query".to_string(),
        None,
        None,
        vec![Field { name: "table".to_string(), value: FieldValue::Str("users".to_string()) }],
    );
    let event = Event {
        level: Level::Info,
        callsite: callsite(),
        fields: Vec::new(),
        parent: Some(h),
        is_lifecycle: true,
    };
    let strategy = RenderStrategy::Tiny(TinyLogFmt::plain());
    let line = SpanFormatter::new(strategy).format_event(&reg, &event, None, &env()).unwrap();
    assert_eq!(line, "  12.345678 I db_query (begin) table:\"users\"\n");
}

#[test]
fn span_end_line_carries_the_timings() {
    let mut reg = SpanRegistry::new();
    let h = reg.open_span("db_query".to_string(), None, None, Vec::new());
    let event = Event {
        level: Level::Info,
        callsite: callsite(),
        fields: vec![
            Field { name: "time.busy".to_string(), value: FieldValue::Pretext("1.2ms".to_string()) },
            Field { name: "time.idle".to_string(), value: FieldValue::Pretext("0.3ms".to_string()) },
        ],
        parent: Some(h),
        is_lifecycle: true,
    };
    let strategy = RenderStrategy::Tiny(TinyLogFmt::plain());
    let line = SpanFormatter::new(strategy).format_event(&reg, &event, None, &env()).unwrap();
    assert_eq!(
        line,
        "  12.345678 I db_query (end) time.busy:1.2ms time.idle:0.3ms\n"
    );
}

#[test]
fn otlp_record_for_an_identified_child_event() {
    let mut reg = SpanRegistry::new();
    let h = reg.open_span(
        "db_query".to_string(),
        None,
        Some(TraceIdentity { trace_id: Some(1), span_id: Some(2) }),
        Vec::new(),
    );
    let event = info_event(
        vec![Field { name: "message".to_string(), value: FieldValue::Str("Hello".to_string()) }],
        Some(h),
    );
    let line = OtlpFormatter::new().format_event(&reg, &event, None, 1700000000123, "main");
    assert!(line.contains("\"TraceId\":\"00000000000000000000000000000001\""));
    assert!(line.contains("\"SpanId\":\"0000000000000002\""));
    let mut expected = String::new();
    expected.push_str("{\"Timestamp\":\"1700000000123\"");
    expected.push_str(",\"TraceId\":\"00000000000000000000000000000001\"");
    expected.push_str(",\"SpanId\":\"0000000000000002\"");
    expected.push_str(",\"SeverityText\":\"INFO\",\"SeverityNumber\":9");
    expected.push_str(",\"Body\":\"Hello\"");
    expected.push_str(",\"Attributes\":{\"code.namespace\":\"app::db\",\"code.filepath\":\"a.rs\",");
    expected.push_str("\"code.lineno\":7,\"thread.name\":\"main\"}");
    expected.push_str("}\n");
    assert_eq!(line, expected);
}

#[test]
fn otlp_bridged_fields_are_remapped() {
    let reg = SpanRegistry::new();
    let event = info_event(
        vec![
            Field { name: "log.file".to_string(), value: FieldValue::Str("a.rs".to_string()) },
            Field { name: "log.line".to_string(), value: FieldValue::U64(7) },
            Field { name: "log.module_path".to_string(), value: FieldValue::Str("app::db".to_string()) },
            Field { name: "log.target".to_string(), value: FieldValue::Str("x".to_string()) },
        ],
        None,
    );
    let line = OtlpFormatter::new().format_event(&reg, &event, None, 0, "main");
    assert!(line.contains("\"code.filepath\":\"a.rs\""));
    assert!(line.contains("\"code.lineno\":7"));
    assert!(line.contains("\"code.namespace\":\"app::db\""));
    assert!(!line.contains("log.target"));
    assert!(!line.contains("\"x\""));
}

#[test]
fn otlp_without_identity_omits_the_id_keys() {
    let reg = SpanRegistry::new();
    let event = info_event(Vec::new(), None);
    let line = OtlpFormatter::new().format_event(&reg, &event, None, 5, "main");
    assert!(!line.contains("TraceId"));
    assert!(!line.contains("SpanId"));
    assert!(line.starts_with("{\"Timestamp\":\"5\""));
    assert!(line.contains("\"Body\":\"\""));
}

#[test]
fn json_line_shape_and_identity() {
    let mut reg = SpanRegistry::new();
    let h = reg.open_span(
        "work".to_string(),
        None,
        Some(TraceIdentity { trace_id: Some(0xabc), span_id: Some(0x11) }),
        Vec::new(),
    );
    let event = info_event(
        vec![Field { name: "message".to_string(), value: FieldValue::Str("Hello".to_string()) }],
        Some(h),
    );
    let line = JsonFormatter::new().format_event(&reg, &event, None, 0, 0).unwrap();
    let stamp = chrono::DateTime::from_timestamp(0, 0).unwrap().to_rfc3339();
    let mut expected = String::from("{\"timestamp\":");
    expected.push_str(&serde_json::to_string(&stamp).unwrap());
    expected.push_str(",\"level\":\"INFO\",\"target\":\"app\"");
    expected.push_str(",\"fields\":{\"message\":\"Hello\"}");
    expected.push_str(",\"span_id\":\"0000000000000011\",\"dd.span_id\":\"0000000000000011\"");
    expected.push_str(",\"trace_id\":\"00000000000000000000000000000abc\",\"dd.trace_id\":\"0000000000000abc\"");
    expected.push_str("}\n");
    assert_eq!(line, expected);
    let parsed: serde_json::Value = serde_json::from_str(&line).unwrap();
    assert_eq!(parsed["fields"]["message"], "Hello");
    assert_eq!(parsed["level"], "INFO");
}

#[test]
fn json_merges_span_attributes_with_event_precedence() {
    let mut reg = SpanRegistry::new();
    let h = reg.open_span(
        "db_query".to_string(),
        None,
        None,
        vec![
            Field { name: "table".to_string(), value: FieldValue::Str("users".to_string()) },
            Field { name: "message".to_string(), value: FieldValue::Str("SPAN".to_string()) },
        ],
    );
    let event = Event {
        level: Level::Info,
        callsite: callsite(),
        fields: vec![Field {
            name: "message".to_string(),
            value: FieldValue::Str("EVENT".to_string()),
        }],
        parent: Some(h),
        is_lifecycle: true,
    };
    let line = JsonFormatter::new().format_event(&reg, &event, None, 0, 0).unwrap();
    let parsed: serde_json::Value = serde_json::from_str(&line).unwrap();
    assert_eq!(parsed["fields"]["message"], "EVENT");
    assert_eq!(parsed["fields"]["table"], "users");
}

#[test]
fn json_rejects_an_unrepresentable_timestamp() {
    let reg = SpanRegistry::new();
    let event = info_event(Vec::new(), None);
    assert!(JsonFormatter::new().format_event(&reg, &event, None, -1, 0).is_err());
    assert!(JsonFormatter::new().format_event(&reg, &event, None, 0, 2_000_000_000).is_err());
}

#[test]
fn json_line_escapes_field_text() {
    let reg = SpanRegistry::new();
    let event = info_event(
        vec![Field {
            name: "message".to_string(),
            value: FieldValue::Str("say \"hi\"\n".to_string()),
        }],
        None,
    );
    let line = JsonFormatter::new().format_event(&reg, &event, None, 0, 0).unwrap();
    assert!(line.contains("\"message\":\"say \\\"hi\\\"\\n\""));
    let parsed: serde_json::Value = serde_json::from_str(&line).unwrap();
    assert_eq!(parsed["fields"]["message"], "say \"hi\"\n");
}

#[test]
fn json_timestamp_is_rfc3339_at_the_epoch() {
    let reg = SpanRegistry::new();
    let event = info_event(Vec::new(), None);
    let line = JsonFormatter::new().format_event(&reg, &event, None, 0, 0).unwrap();
    assert!(line.starts_with("{\"timestamp\":\"1970-01-01T00:00:00"));
}

#[test]
fn datadog_enrichment_appends_identity_fields() {
    let mut reg = SpanRegistry::new();
    let h = reg.open_span(
        "work".to_string(),
        None,
        Some(TraceIdentity { trace_id: Some(10), span_id: Some(20) }),
        Vec::new(),
    );
    let event = info_event(
        vec![Field { name: "message".to_string(), value: FieldValue::Str("hi".to_string()) }],
        Some(h),
    );
    let center = EventEnrichmentCenter::new(RenderStrategy::Tiny(TinyLogFmt::plain()));
    let line = center.format_event(&reg, &event, None, &env()).unwrap();
    assert_eq!(line, "  12.345678 I hi dd.trace_id:10 dd.span_id:20\n");
}

#[test]
fn opentelemetry_enrichment_uses_the_long_names() {
    let mut reg = SpanRegistry::new();
    let h = reg.open_span(
        "work".to_string(),
        None,
        Some(TraceIdentity { trace_id: Some(10), span_id: Some(20) }),
        Vec::new(),
    );
    let event = info_event(Vec::new(), Some(h));
    let center = EventEnrichmentCenter::new(RenderStrategy::Tiny(TinyLogFmt::plain()))
        .with_mode(EnrichmentMode::OpenTelemetry);
    let line = center.format_event(&reg, &event, None, &env()).unwrap();
    assert_eq!(line, "  12.345678 I TraceId:10 SpanId:20\n");
}

#[test]
fn disabled_enrichment_changes_nothing() {
    let reg = SpanRegistry::new();
    let event = info_event(
        vec![Field { name: "message".to_string(), value: FieldValue::Str("hi".to_string()) }],
        None,
    );
    let center = EventEnrichmentCenter::new(RenderStrategy::Tiny(TinyLogFmt::plain()))
        .with_mode(EnrichmentMode::Disabled);
    assert!(center.enrichment_mode.is_none());
    let line = center.format_event(&reg, &event, None, &env()).unwrap();
    assert_eq!(line, "  12.345678 I hi\n");
}

#[test]
fn rendering_twice_is_byte_identical() {
    let mut reg = SpanRegistry::new();
    let h = reg.open_span(
        "db_query".to_string(),
        None,
        Some(TraceIdentity { trace_id: Some(1), span_id: Some(2) }),
        vec![Field { name: "table".to_string(), value: FieldValue::Str("users".to_string()) }],
    );
    let event = Event {
        level: Level::Warn,
        callsite: callsite(),
        fields: vec![Field {
            name: "message".to_string(),
            value: FieldValue::Str("again".to_string()),
        }],
        parent: Some(h),
        is_lifecycle: false,
    };
    let ambient = env();
    for strategy in [
        RenderStrategy::Tiny(TinyLogFmt::new()),
        RenderStrategy::Json(JsonFormatter::new()),
        RenderStrategy::Otlp(OtlpFormatter::new()),
    ] {
        let center = EventEnrichmentCenter::new(strategy);
        let first = center.format_event(&reg, &event, None, &ambient).unwrap();
        let second = center.format_event(&reg, &event, None, &ambient).unwrap();
        assert_eq!(first.as_bytes(), second.as_bytes());
    }
}

#[test]
fn log_fmt_renders_lifecycle_inline() {
    let mut reg = SpanRegistry::new();
    let h = reg.open_span("db_query".to_string(), None, None, Vec::new());
    let event = Event {
        level: Level::Info,
        callsite: callsite(),
        fields: Vec::new(),
        parent: Some(h),
        is_lifecycle: true,
    };
    let line = LogFmt::plain().format_event(&reg, &event, 12, 345678).unwrap();
    assert_eq!(line, "  12.345678 I db_query (begin)\n");
}

#[test]
fn pipeline_handle_shuts_down_once_and_stays_down() {
    let mut handle = init_pipeline();
    assert!(!handle.shut_down);
    pipeline_shutdown(&mut handle);
    assert!(handle.shut_down);
    pipeline_shutdown(&mut handle);
    assert!(handle.shut_down);
}
