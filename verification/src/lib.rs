//! Structured event formatting and distributed-trace correlation.
//!
//! The crate models a tree of nested execution spans and the
//! point-in-time events emitted inside them, classifies lifecycle
//! notifications, resolves a best-effort trace identity for every event,
//! and renders each event as a coloured console line, a JSON object, or
//! an OTLP-style log record.

pub mod config;
pub mod correlate;
pub mod enrich;
pub mod error;
pub mod event;
pub mod fields;
pub mod json_format;
pub mod json_text;
pub mod level;
pub mod lifecycle;
pub mod log_fmt;
pub mod metered_allocator;
pub mod otlp_format;
pub mod pipeline;
pub mod shutdown;
pub mod span_registry;
pub mod styling;
pub mod text;
pub mod tiny;
pub mod version;
pub mod write_adaptor;

pub use correlate::{TraceCorrelation, TraceInfo};
pub use enrich::EnrichmentMode;
pub use error::FormatError;
pub use event::{Callsite, Event};
pub use fields::{Field, FieldValue};
pub use json_format::JsonFormatter;
pub use level::Level;
pub use log_fmt::LogFmt;
pub use metered_allocator::{start_metering, MeteredAllocator};
pub use otlp_format::OtlpFormatter;
pub use pipeline::{EventEnrichmentCenter, RenderEnv, RenderStrategy, SpanFormatter};
pub use shutdown::{is_shutting_down, reset_shutdown, shutdown, ShutdownSignal};
pub use span_registry::{SpanRegistry, TraceIdentity};
pub use tiny::TinyLogFmt;
pub use version::Version;
pub use write_adaptor::WriteAdaptor;
