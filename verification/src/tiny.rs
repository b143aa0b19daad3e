//! The tiny console renderer: a dimmed uptime, a coloured one-letter
//! severity marker, then the event's fields, whitespace-separated.

use vstd::prelude::*;

verus! {

use crate::error::FormatError;
use crate::event::Event;
use crate::fields::{
    models,
    value_debug,
    value_debug_text,
    value_display,
    value_display_text,
    Field,
    FieldModel,
};
use crate::level::Level;
use crate::span_registry::{SpanRecord, SpanRegistry};
use crate::styling::{
    bold_code,
    dim_code,
    italic_code,
    key_code,
    level_colour_code,
    reset_code,
    styled,
    Styling,
};
use crate::text::{
    pad_left,
    spec_pad_left,
    spec_starts_with,
    spec_udec,
    starts_with,
    str_eq,
    u64_dec,
};
use vstd::string::StrSliceExecFns;
use vstd::string::StringExecFns;

/// Whether the field is suppressed: names under the reserved bridge
/// prefix duplicate callsite metadata and never render.
pub open spec fn spec_suppressed(name: Seq<char>) -> bool {
    spec_starts_with(name, "log."@)
}

/// The rendering of one field, preceded by one space unless it is the
/// first field emitted.
pub open spec fn spec_field_text(f: FieldModel, first: bool, on: bool) -> Seq<char> {
    let pad: Seq<char> = if first {
        Seq::empty()
    } else {
        " "@
    };
    if f.name == "message"@ {
        pad + value_display(f.value)
    } else if f.name == "span"@ {
        pad + "("@ + styled(on, italic_code()) + value_debug(f.value) + styled(on, reset_code())
            + ")"@
    } else if spec_suppressed(f.name) {
        Seq::empty()
    } else if spec_starts_with(f.name, "r#"@) {
        pad + styled(on, key_code()) + f.name.subrange(2, f.name.len() as int) + ":"@ + styled(
            on,
            reset_code(),
        ) + value_debug(f.value)
    } else {
        pad + styled(on, key_code()) + f.name + ":"@ + styled(on, reset_code()) + value_debug(
            f.value,
        )
    }
}

/// The rendering of the fields from position `i` on, `first` saying
/// whether nothing has been emitted yet.
pub open spec fn spec_fields_text(fields: Seq<FieldModel>, i: int, first: bool, on: bool) -> Seq<
    char,
>
    decreases fields.len() - i,
{
    if i < 0 || i >= fields.len() {
        Seq::empty()
    } else {
        spec_field_text(fields[i], first, on) + spec_fields_text(
            fields,
            i + 1,
            first && spec_suppressed(fields[i].name),
            on,
        )
    }
}

/// The rendering of a whole field set, starting empty.
pub open spec fn spec_tiny_fields(fields: Seq<FieldModel>, on: bool) -> Seq<char> {
    spec_fields_text(fields, 0, true, on)
}

/// The common console preamble: the uptime, seconds right-justified to
/// width four and microseconds zero-padded to six digits, dimmed; then
/// the bold, coloured one-letter severity marker.
pub open spec fn spec_preamble(secs: nat, micros: nat, level: Level, on: bool) -> Seq<char> {
    styled(on, dim_code()) + spec_pad_left(spec_udec(secs), ' ', 4) + "."@ + spec_pad_left(
        spec_udec(micros),
        '0',
        6,
    ) + " "@ + styled(on, reset_code()) + styled(on, bold_code()) + styled(
        on,
        level_colour_code(level),
    ) + level.spec_letter() + styled(on, reset_code()) + " "@ + styled(on, reset_code())
}

/// The span-attribute tail of a lifecycle event's line: the anchoring
/// span's own rendered attributes after one space, or nothing when the
/// span has none.
pub open spec fn spec_span_tail(spans: Seq<SpanRecord>, h: int, on: bool) -> Seq<char> {
    let t = spec_tiny_fields(models(spans[h].attrs@), on);
    if t.len() == 0 {
        Seq::empty()
    } else {
        " "@ + t
    }
}

/// One whole tiny console line for an event whose (possibly rewritten)
/// field set is `fields`.
pub open spec fn spec_tiny_line(
    spans: Seq<SpanRecord>,
    secs: nat,
    micros: nat,
    level: Level,
    fields: Seq<FieldModel>,
    lifecycle_anchor: Option<int>,
    on: bool,
) -> Seq<char> {
    spec_preamble(secs, micros, level, on) + spec_tiny_fields(fields, on) + (match (
    lifecycle_anchor) {
        Some(h) => spec_span_tail(spans, h, on),
        None => Seq::empty(),
    }) + "\n"@
}

/// The tiny event and field formatter.  `styling` chooses whether ANSI
/// codes are emitted.
#[derive(Clone, Copy, Debug, PartialEq, Eq, Structural)]
pub struct TinyLogFmt {
    pub styling: Styling,
}

impl Default for TinyLogFmt {
    /// The console default: a colouring formatter.
    fn default() -> (r: TinyLogFmt)
        ensures
            r.styling.on,
    {
        TinyLogFmt::new()
    }
}

impl TinyLogFmt {
    /// A formatter that colours its output, as the console default does.
    pub fn new() -> (r: TinyLogFmt)
        ensures
            r.styling.on,
    {
        TinyLogFmt { styling: Styling { on: true } }
    }

    /// A formatter that emits no ANSI codes.
    pub fn plain() -> (r: TinyLogFmt)
        ensures
            !r.styling.on,
    {
        TinyLogFmt { styling: Styling { on: false } }
    }

    fn field_text(&self, f: &Field, first: bool) -> (r: String)
        ensures
            r@ == spec_field_text(f@, first, self.styling.on),
    {
        proof {
            reveal_strlit("");
            reveal_strlit("r#");
            assert(""@ =~= Seq::<char>::empty());
        }
        let pad: &'static str = if first {
            ""
        } else {
            " "
        };
        let name = f.name.as_str();
        if str_eq(name, "message") {
            let mut out = pad.to_owned();
            out.append(value_display_text(&f.value).as_str());
            out
        } else if str_eq(name, "span") {
            let mut out = pad.to_owned();
            out.append("(");
            out.append(self.styling.italic_prefix().as_str());
            out.append(value_debug_text(&f.value).as_str());
            out.append(self.styling.reset().as_str());
            out.append(")");
            out
        } else if starts_with(name, "log.") {
            String::new()
        } else if starts_with(name, "r#") {
            let mut out = pad.to_owned();
            out.append(self.styling.key_prefix().as_str());
            out.append(name.substring_char(2, name.unicode_len()));
            out.append(":");
            out.append(self.styling.key_infix().as_str());
            out.append(value_debug_text(&f.value).as_str());
            out
        } else {
            let mut out = pad.to_owned();
            out.append(self.styling.key_prefix().as_str());
            out.append(name);
            out.append(":");
            out.append(self.styling.key_infix().as_str());
            out.append(value_debug_text(&f.value).as_str());
            out
        }
    }

    fn fields_text_from(&self, fields: &Vec<Field>, i: usize, first: bool) -> (r: String)
        requires
            i <= fields@.len(),
        ensures
            r@ == spec_fields_text(models(fields@), i as int, first, self.styling.on),
        decreases fields@.len() - i,
    {
        if i == fields.len() {
            String::new()
        } else {
            let f = &fields[i];
            let head = self.field_text(f, first);
            let next_first = first && starts_with(f.name.as_str(), "log.");
            head.concat(self.fields_text_from(fields, i + 1, next_first).as_str())
        }
    }

    /// Renders a field set from an empty line position.
    pub fn format_fields(&self, fields: &Vec<Field>) -> (r: String)
        ensures
            r@ == spec_tiny_fields(models(fields@), self.styling.on),
    {
        self.fields_text_from(fields, 0, true)
    }

    /// Appends a further field set to an already rendered one, keeping
    /// the single-space separation discipline.
    pub fn add_fields(&self, current: &mut String, fields: &Vec<Field>)
        ensures
            final(current)@ == old(current)@ + spec_fields_text(
                models(fields@),
                0,
                old(current)@.len() == 0,
                self.styling.on,
            ),
    {
        let first = current.as_str().is_empty();
        let text = self.fields_text_from(fields, 0, first);
        current.append(text.as_str());
    }

    /// Renders the common console preamble.
    pub fn preamble(&self, secs: u64, micros: u32, level: Level) -> (r: String)
        ensures
            r@ == spec_preamble(secs as nat, micros as nat, level, self.styling.on),
    {
        let mut out = self.styling.dim_prefix();
        out.append(pad_left(u64_dec(secs).as_str(), ' ', 4).as_str());
        out.append(".");
        out.append(pad_left(u64_dec(micros as u64).as_str(), '0', 6).as_str());
        out.append(" ");
        out.append(self.styling.reset().as_str());
        out.append(self.styling.bold_prefix().as_str());
        out.append(self.styling.colour_prefix(level).as_str());
        out.append(level.letter());
        out.append(self.styling.reset().as_str());
        out.append(" ");
        out.append(self.styling.reset().as_str());
        out
    }

    /// Renders one whole console line for an event whose (possibly
    /// rewritten) field set is `fields`.
    ///
    /// For a lifecycle notification the anchoring span's own attributes
    /// follow the event's fields; a lifecycle notification that names no
    /// known span cannot be rendered.
    pub fn format_event(
        &self,
        reg: &SpanRegistry,
        event: &Event,
        fields: &Vec<Field>,
        uptime_secs: u64,
        uptime_micros: u32,
    ) -> (r: Result<String, FormatError>)
        ensures
            r is Ok <==> (event.is_lifecycle ==> (event.parent matches Some(h) && h
                < reg.len())),
            r matches Err(e) ==> e == FormatError::MissingSpan,
            r matches Ok(line) ==> line@ == spec_tiny_line(
                reg.spans@,
                uptime_secs as nat,
                uptime_micros as nat,
                event.level,
                models(fields@),
                if event.is_lifecycle {
                    Some(event.parent.unwrap() as int)
                } else {
                    None
                },
                self.styling.on,
            ),
    {
        let mut out = self.preamble(uptime_secs, uptime_micros, event.level);
        out.append(self.format_fields(fields).as_str());
        if event.is_lifecycle {
            let h = match &event.parent {
                Some(h) => *h,
                None => {
                    return Err(FormatError::MissingSpan);
                },
            };
            if h >= reg.span_count() {
                return Err(FormatError::MissingSpan);
            }
            let tail = self.format_fields(reg.span_attrs(h));
            if !tail.as_str().is_empty() {
                out.append(" ");
                out.append(tail.as_str());
            }
        }
        out.append("\n");
        Ok(out)
    }
}

} // verus!
