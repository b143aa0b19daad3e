//! The standalone console formatter: the tiny preamble and field
//! rendering, with lifecycle classification done inline rather than by a
//! separate decorator.

use vstd::prelude::*;

verus! {

use crate::error::FormatError;
use crate::event::Event;
use crate::fields::FieldModel;
use crate::level::Level;
use crate::lifecycle::{spec_lifecycle_fields, synthesize_lifecycle};
use crate::span_registry::{SpanRecord, SpanRegistry};
use crate::styling::Styling;
use crate::tiny::{spec_preamble, spec_tiny_fields, TinyLogFmt};
use crate::fields::models;
use vstd::string::StringExecFns;

/// The field set a console line renders: a lifecycle notification's
/// canonical rewrite, any other event's own fields.
pub open spec fn spec_effective_fields(
    spans: Seq<SpanRecord>,
    fields: Seq<FieldModel>,
    is_lifecycle: bool,
    parent: Option<int>,
) -> Seq<FieldModel> {
    if is_lifecycle {
        spec_lifecycle_fields(spans[parent.unwrap()].name@, fields)
    } else {
        fields
    }
}

/// One whole console line of this formatter: the preamble, then the
/// effective field set.
pub open spec fn spec_log_fmt_line(
    spans: Seq<SpanRecord>,
    secs: nat,
    micros: nat,
    level: Level,
    fields: Seq<FieldModel>,
    is_lifecycle: bool,
    parent: Option<int>,
    on: bool,
) -> Seq<char> {
    spec_preamble(secs, micros, level, on) + spec_tiny_fields(
        spec_effective_fields(spans, fields, is_lifecycle, parent),
        on,
    ) + "\n"@
}

/// A console event formatter that rewrites lifecycle notifications
/// itself before rendering their fields.
#[derive(Clone, Copy, Debug, PartialEq, Eq, Structural)]
pub struct LogFmt {
    pub styling: Styling,
}

impl Default for LogFmt {
    /// The console default: a colouring formatter.
    fn default() -> (r: LogFmt)
        ensures
            r.styling.on,
    {
        LogFmt::new()
    }
}

impl LogFmt {
    /// A formatter that colours its output.
    pub fn new() -> (r: LogFmt)
        ensures
            r.styling.on,
    {
        LogFmt { styling: Styling { on: true } }
    }

    /// A formatter that emits no ANSI codes.
    pub fn plain() -> (r: LogFmt)
        ensures
            !r.styling.on,
    {
        LogFmt { styling: Styling { on: false } }
    }

    /// Renders one console line for `event` at the given uptime.
    ///
    /// A lifecycle notification is first rewritten to its canonical
    /// field set; one that names no known span cannot be rendered.
    pub fn format_event(
        &self,
        reg: &SpanRegistry,
        event: &Event,
        uptime_secs: u64,
        uptime_micros: u32,
    ) -> (r: Result<String, FormatError>)
        ensures
            r is Ok <==> (event.is_lifecycle ==> (event.parent matches Some(h) && h
                < reg.len())),
            r matches Err(e) ==> e == FormatError::MissingSpan,
            r matches Ok(line) ==> line@ == spec_log_fmt_line(
                reg.spans@,
                uptime_secs as nat,
                uptime_micros as nat,
                event.level,
                models(event.fields@),
                event.is_lifecycle,
                crate::correlate::opt_int(event.parent),
                self.styling.on,
            ),
    {
        let tiny = TinyLogFmt { styling: self.styling };
        let mut out = tiny.preamble(uptime_secs, uptime_micros, event.level);
        if event.is_lifecycle {
            let fields = match synthesize_lifecycle(reg, event) {
                Ok(f) => f,
                Err(e) => {
                    return Err(e);
                },
            };
            out.append(tiny.format_fields(&fields).as_str());
        } else {
            out.append(tiny.format_fields(&event.fields).as_str());
        }
        out.append("\n");
        Ok(out)
    }
}

} // verus!
