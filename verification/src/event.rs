//! Events: immutable point-in-time records carrying a severity, a
//! callsite, a field set, and an optional parent span.

use vstd::prelude::*;

verus! {

use crate::fields::{models, Field, FieldModel};
use crate::level::Level;

/// Source metadata of the call that produced an event.
#[derive(Debug)]
pub struct Callsite {
    pub target: String,
    pub module: Option<String>,
    pub file: Option<String>,
    pub line: Option<u32>,
}

impl Callsite {
    /// An explicit clone; the compiler-derived one would be opaque to
    /// verification.
    pub fn dup(&self) -> (r: Callsite)
        ensures
            r.target@ == self.target@,
            r.module.deep_view() == self.module.deep_view(),
            r.file.deep_view() == self.file.deep_view(),
            r.line == self.line,
    {
        Callsite {
            target: self.target.clone(),
            module: match &self.module {
                Some(s) => Some(s.clone()),
                None => None,
            },
            file: match &self.file {
                Some(s) => Some(s.clone()),
                None => None,
            },
            line: self.line,
        }
    }
}

/// One event.  `is_lifecycle` is the flag the span-instrumentation layer
/// sets on the notifications it emits for a span's begin and end; it is
/// never inferred from field names.
#[derive(Debug)]
pub struct Event {
    pub level: Level,
    pub callsite: Callsite,
    pub fields: Vec<Field>,
    pub parent: Option<usize>,
    pub is_lifecycle: bool,
}

/// The mathematical model of an event.
pub ghost struct EventModel {
    pub level: Level,
    pub target: Seq<char>,
    pub module: Option<Seq<char>>,
    pub file: Option<Seq<char>>,
    pub line: Option<int>,
    pub fields: Seq<FieldModel>,
    pub parent: Option<int>,
    pub is_lifecycle: bool,
}

impl View for Event {
    type V = EventModel;

    open spec fn view(&self) -> EventModel {
        EventModel {
            level: self.level,
            target: self.callsite.target@,
            module: self.callsite.module.deep_view(),
            file: self.callsite.file.deep_view(),
            line: match self.callsite.line {
                Some(l) => Some(l as int),
                None => None,
            },
            fields: models(self.fields@),
            parent: crate::correlate::opt_int(self.parent),
            is_lifecycle: self.is_lifecycle,
        }
    }
}

} // verus!
