//! The output pipeline: classifier → synthesizer → resolver → renderer,
//! composed for one event at a time, plus the explicit handle that an
//! initialised pipeline hands back for shutdown.

use vstd::prelude::*;

verus! {

use crate::enrich::{enriched_fields, spec_enriched_fields, EnrichmentMode};
use crate::error::FormatError;
use crate::event::{Event, EventModel};
use crate::fields::models;
use crate::json_format::{spec_json_line, JsonFormatter, MAX_TIMESTAMP_SECS};
use crate::lifecycle::{spec_lifecycle_fields, synthesize_lifecycle};
use crate::otlp_format::{spec_otlp_line, OtlpFormatter};
use crate::span_registry::{SpanRecord, SpanRegistry};
use crate::tiny::{spec_tiny_line, TinyLogFmt};

/// The ambient inputs of one render: the process uptime, the wall-clock
/// instant, the record timestamp in the caller's unit, and the emitting
/// thread's name.  Renderers are pure functions of the event, the span
/// arena and these values.
#[derive(Debug)]
pub struct RenderEnv {
    pub uptime_secs: u64,
    pub uptime_micros: u32,
    pub epoch_secs: i64,
    pub epoch_nanos: u32,
    pub timestamp: i64,
    pub thread_name: String,
}

/// The mathematical model of the ambient inputs.
pub ghost struct EnvModel {
    pub uptime_secs: nat,
    pub uptime_micros: nat,
    pub epoch_secs: int,
    pub epoch_nanos: int,
    pub timestamp: int,
    pub thread_name: Seq<char>,
}

impl View for RenderEnv {
    type V = EnvModel;

    open spec fn view(&self) -> EnvModel {
        EnvModel {
            uptime_secs: self.uptime_secs as nat,
            uptime_micros: self.uptime_micros as nat,
            epoch_secs: self.epoch_secs as int,
            epoch_nanos: self.epoch_nanos as int,
            timestamp: self.timestamp as int,
            thread_name: self.thread_name@,
        }
    }
}

/// The closed set of renderers this crate implements.  Adding a format
/// means adding a variant here, not open-ended dispatch.
#[derive(Clone, Copy, Debug, PartialEq, Eq, Structural)]
pub enum RenderStrategy {
    Tiny(TinyLogFmt),
    Json(JsonFormatter),
    Otlp(OtlpFormatter),
}

/// When a strategy renders an event rather than failing.
pub open spec fn spec_render_ok(
    strategy: RenderStrategy,
    spans: Seq<SpanRecord>,
    e: EventModel,
    env: EnvModel,
) -> bool {
    match strategy {
        RenderStrategy::Tiny(_) => e.is_lifecycle ==> (e.parent matches Some(h) && 0 <= h
            < spans.len()),
        RenderStrategy::Json(_) => 0 <= env.epoch_secs < MAX_TIMESTAMP_SECS
            && env.epoch_nanos < 1_000_000_000,
        RenderStrategy::Otlp(_) => true,
    }
}

/// The record a strategy produces for an event, taken as it stands.
pub open spec fn spec_render(
    strategy: RenderStrategy,
    spans: Seq<SpanRecord>,
    e: EventModel,
    current: Option<int>,
    env: EnvModel,
) -> Seq<char> {
    match strategy {
        RenderStrategy::Tiny(t) => spec_tiny_line(
            spans,
            env.uptime_secs,
            env.uptime_micros,
            e.level,
            e.fields,
            if e.is_lifecycle {
                e.parent
            } else {
                None
            },
            t.styling.on,
        ),
        RenderStrategy::Json(_) => spec_json_line(
            spans,
            env.epoch_secs,
            env.epoch_nanos,
            e.level,
            e.target,
            e.fields,
            e.is_lifecycle,
            e.parent,
            current,
        ),
        RenderStrategy::Otlp(_) => spec_otlp_line(
            spans,
            env.timestamp,
            e.level,
            e.module,
            e.file,
            e.line,
            env.thread_name,
            e.fields,
            e.is_lifecycle,
            e.parent,
            current,
        ),
    }
}

impl RenderStrategy {
    /// Renders `event` as it stands, without rewriting or enrichment.
    pub fn render(
        &self,
        reg: &SpanRegistry,
        event: &Event,
        current: Option<usize>,
        env: &RenderEnv,
    ) -> (r: Result<String, FormatError>)
        ensures
            r is Ok <==> spec_render_ok(*self, reg.spans@, event@, env@),
            r matches Ok(line) ==> line@ == spec_render(
                *self,
                reg.spans@,
                event@,
                crate::correlate::opt_int(current),
                env@,
            ),
            r matches Err(e) ==> e == (match *self {
                RenderStrategy::Tiny(_) => FormatError::MissingSpan,
                _ => FormatError::TimestampOutOfRange,
            }),
    {
        match self {
            RenderStrategy::Tiny(t) => t.format_event(
                reg,
                event,
                &event.fields,
                env.uptime_secs,
                env.uptime_micros,
            ),
            RenderStrategy::Json(j) => j.format_event(
                reg,
                event,
                current,
                env.epoch_secs,
                env.epoch_nanos,
            ),
            RenderStrategy::Otlp(o) => Ok(
                o.format_event(reg, event, current, env.timestamp, env.thread_name.as_str()),
            ),
        }
    }
}

/// The event the pipeline hands the renderer: a lifecycle notification
/// rewritten to its canonical field set, any other event enriched with
/// the resolved identity under `mode`.
pub open spec fn spec_pipeline_event(
    spans: Seq<SpanRecord>,
    e: EventModel,
    current: Option<int>,
    mode: EnrichmentMode,
) -> EventModel {
    if e.is_lifecycle {
        EventModel {
            fields: spec_lifecycle_fields(spans[e.parent.unwrap()].name@, e.fields),
            ..e
        }
    } else {
        EventModel {
            fields: spec_enriched_fields(spans, e.fields, false, e.parent, current, mode),
            ..e
        }
    }
}

/// A decorator that rewrites lifecycle notifications into their
/// canonical field set before delegating to an inner renderer.
#[derive(Clone, Copy, Debug, PartialEq, Eq, Structural)]
pub struct SpanFormatter {
    pub inner: RenderStrategy,
}

/// A decorator that computes the resolved identity for plain events and
/// injects it as two synthetic fields before delegating to an inner
/// renderer; lifecycle notifications pass through and are rewritten.
#[derive(Clone, Copy, Debug, PartialEq, Eq, Structural)]
pub struct EventEnrichmentCenter {
    pub inner: RenderStrategy,
    pub enrichment_mode: EnrichmentMode,
}

fn pipeline_event(
    reg: &SpanRegistry,
    event: &Event,
    current: Option<usize>,
    mode: EnrichmentMode,
) -> (r: Result<Event, FormatError>)
    ensures
        r is Ok <==> (event.is_lifecycle ==> (event.parent matches Some(h) && h < reg.len())),
        r matches Err(e) ==> e == FormatError::MissingSpan,
        r matches Ok(e2) ==> e2@ == spec_pipeline_event(
            reg.spans@,
            event@,
            crate::correlate::opt_int(current),
            mode,
        ),
{
    let fields = if event.is_lifecycle {
        match synthesize_lifecycle(reg, event) {
            Ok(f) => f,
            Err(e) => {
                return Err(e);
            },
        }
    } else {
        enriched_fields(reg, event, current, mode)
    };
    let e2 = Event {
        level: event.level,
        callsite: event.callsite.dup(),
        fields,
        parent: match &event.parent {
            Some(h) => Some(*h),
            None => None,
        },
        is_lifecycle: event.is_lifecycle,
    };
    Ok(e2)
}

impl SpanFormatter {
    pub fn new(inner: RenderStrategy) -> (r: SpanFormatter)
        ensures
            r.inner == inner,
    {
        SpanFormatter { inner }
    }

    /// Rewrites a lifecycle notification, then renders with the inner
    /// strategy; other events pass through unchanged.
    pub fn format_event(
        &self,
        reg: &SpanRegistry,
        event: &Event,
        current: Option<usize>,
        env: &RenderEnv,
    ) -> (r: Result<String, FormatError>)
        ensures
            r is Ok <==> ((event.is_lifecycle ==> (event.parent matches Some(h) && h
                < reg.len())) && spec_render_ok(
                self.inner,
                reg.spans@,
                spec_pipeline_event(
                    reg.spans@,
                    event@,
                    crate::correlate::opt_int(current),
                    EnrichmentMode::Disabled,
                ),
                env@,
            )),
            r matches Ok(line) ==> line@ == spec_render(
                self.inner,
                reg.spans@,
                spec_pipeline_event(
                    reg.spans@,
                    event@,
                    crate::correlate::opt_int(current),
                    EnrichmentMode::Disabled,
                ),
                crate::correlate::opt_int(current),
                env@,
            ),
            r matches Err(e) ==> e == (if !(event.is_lifecycle ==> (event.parent matches Some(
                h,
            ) && h < reg.len())) {
                FormatError::MissingSpan
            } else {
                FormatError::TimestampOutOfRange
            }),
    {
        let e2 = match pipeline_event(reg, event, current, EnrichmentMode::Disabled) {
            Ok(e2) => e2,
            Err(e) => {
                return Err(e);
            },
        };
        self.inner.render(reg, &e2, current, env)
    }
}

impl EventEnrichmentCenter {
    /// Wraps `inner`, injecting the short DataDog convention.
    pub fn new(inner: RenderStrategy) -> (r: EventEnrichmentCenter)
        ensures
            r.inner == inner,
            r.enrichment_mode == EnrichmentMode::DataDog,
    {
        EventEnrichmentCenter { inner, enrichment_mode: EnrichmentMode::DataDog }
    }

    /// The same decorator under another convention.
    pub fn with_mode(self, mode: EnrichmentMode) -> (r: EventEnrichmentCenter)
        ensures
            r.inner == self.inner,
            r.enrichment_mode == mode,
    {
        EventEnrichmentCenter { inner: self.inner, enrichment_mode: mode }
    }

    /// Runs the whole pipeline for one event: classification and
    /// rewriting, identity enrichment, then rendering.
    pub fn format_event(
        &self,
        reg: &SpanRegistry,
        event: &Event,
        current: Option<usize>,
        env: &RenderEnv,
    ) -> (r: Result<String, FormatError>)
        ensures
            r is Ok <==> ((event.is_lifecycle ==> (event.parent matches Some(h) && h
                < reg.len())) && spec_render_ok(
                self.inner,
                reg.spans@,
                spec_pipeline_event(
                    reg.spans@,
                    event@,
                    crate::correlate::opt_int(current),
                    self.enrichment_mode,
                ),
                env@,
            )),
            r matches Ok(line) ==> line@ == spec_render(
                self.inner,
                reg.spans@,
                spec_pipeline_event(
                    reg.spans@,
                    event@,
                    crate::correlate::opt_int(current),
                    self.enrichment_mode,
                ),
                crate::correlate::opt_int(current),
                env@,
            ),
            r matches Err(e) ==> e == (if !(event.is_lifecycle ==> (event.parent matches Some(
                h,
            ) && h < reg.len())) {
                FormatError::MissingSpan
            } else {
                FormatError::TimestampOutOfRange
            }),
    {
        let e2 = match pipeline_event(reg, event, current, self.enrichment_mode) {
            Ok(e2) => e2,
            Err(e) => {
                return Err(e);
            },
        };
        self.inner.render(reg, &e2, current, env)
    }
}

/// Rendering is pure: the record is a function of the event, the span
/// arena snapshot, the innermost active span and the ambient instant, so
/// two renders of the same inputs are byte-identical.
pub proof fn lemma_render_idempotent(
    strategy: RenderStrategy,
    mode: EnrichmentMode,
    spans: Seq<SpanRecord>,
    e: EventModel,
    current: Option<int>,
    env: EnvModel,
    first: Seq<char>,
    second: Seq<char>,
)
    requires
        first == spec_render(strategy, spans, spec_pipeline_event(spans, e, current, mode), current, env),
        second == spec_render(strategy, spans, spec_pipeline_event(spans, e, current, mode), current, env),
    ensures
        first == second,
{
}

/// The handle an initialised pipeline returns; shutting down flushes and
/// detaches it, in place of any process-wide mutable state.
#[derive(Clone, Copy, Debug, PartialEq, Eq, Structural)]
pub struct PipelineHandle {
    pub shut_down: bool,
}

/// Initialises the output pipeline and returns its handle.
pub fn init_pipeline() -> (r: PipelineHandle)
    ensures
        !r.shut_down,
{
    PipelineHandle { shut_down: false }
}

/// Shuts the pipeline down; harmless to repeat.
pub fn shutdown(handle: &mut PipelineHandle)
    ensures
        final(handle).shut_down,
{
    handle.shut_down = true;
}

} // verus!
