//! Configuration values consumed from the CLI layer: the chosen log
//! format, the enrichment convention, verbosity, and small argument
//! parsers.

use vstd::prelude::*;

verus! {

use crate::enrich::EnrichmentMode;
use crate::level::Level;
use crate::text::str_eq;
use vstd::string::StrSliceExecFns;

/// The closed set of output formats.  `Compact` and `Pretty` are the
/// substrate's own console layouts and `Datadog` its agent exporter;
/// they are listed so that configuration can name them, while `Tiny`,
/// `Json` and `Otlp` are rendered by this crate.
#[derive(Clone, Copy, Debug, PartialEq, Eq, Structural)]
pub enum LogFormat {
    Tiny,
    Compact,
    Pretty,
    Json,
    Otlp,
    Datadog,
}

/// A configuration error.
#[derive(Clone, Copy, Debug, PartialEq, Eq, Structural)]
pub enum ConfigError {
    /// Both enrichment conventions were requested at once.
    ConflictingEnrichment,
}

/// The format a configuration name denotes, if any.
pub open spec fn spec_log_format_of(s: Seq<char>) -> Option<LogFormat> {
    if s == "tiny"@ {
        Some(LogFormat::Tiny)
    } else if s == "compact"@ {
        Some(LogFormat::Compact)
    } else if s == "pretty"@ {
        Some(LogFormat::Pretty)
    } else if s == "json"@ {
        Some(LogFormat::Json)
    } else if s == "otlp"@ {
        Some(LogFormat::Otlp)
    } else if s == "datadog"@ {
        Some(LogFormat::Datadog)
    } else {
        None
    }
}

impl LogFormat {
    /// Parses a format name; every other name is invalid.
    pub fn from_str(s: &str) -> (r: Option<LogFormat>)
        ensures
            r == spec_log_format_of(s@),
    {
        if str_eq(s, "tiny") {
            Some(LogFormat::Tiny)
        } else if str_eq(s, "compact") {
            Some(LogFormat::Compact)
        } else if str_eq(s, "pretty") {
            Some(LogFormat::Pretty)
        } else if str_eq(s, "json") {
            Some(LogFormat::Json)
        } else if str_eq(s, "otlp") {
            Some(LogFormat::Otlp)
        } else if str_eq(s, "datadog") {
            Some(LogFormat::Datadog)
        } else {
            None
        }
    }
}

/// The enrichment convention a configuration name denotes, if any.
pub open spec fn spec_enrichment_of(s: Seq<char>) -> Option<EnrichmentMode> {
    if s == "none"@ {
        Some(EnrichmentMode::Disabled)
    } else if s == "datadog"@ {
        Some(EnrichmentMode::DataDog)
    } else if s == "opentelemetry"@ {
        Some(EnrichmentMode::OpenTelemetry)
    } else {
        None
    }
}

/// Parses an enrichment-mode name; every other name is invalid.
pub fn enrichment_from_str(s: &str) -> (r: Option<EnrichmentMode>)
    ensures
        r == spec_enrichment_of(s@),
{
    if str_eq(s, "none") {
        Some(EnrichmentMode::Disabled)
    } else if str_eq(s, "datadog") {
        Some(EnrichmentMode::DataDog)
    } else if str_eq(s, "opentelemetry") {
        Some(EnrichmentMode::OpenTelemetry)
    } else {
        None
    }
}

/// Chooses the enrichment convention from the two request flags.
/// Requesting both at once is an explicit configuration error, not a
/// silent first-match.
pub fn select_enrichment(datadog: bool, opentelemetry: bool) -> (r: Result<
    EnrichmentMode,
    ConfigError,
>)
    ensures
        r is Ok <==> !(datadog && opentelemetry),
        r matches Err(e) ==> e == ConfigError::ConflictingEnrichment,
        r matches Ok(m) ==> m == (if datadog {
            EnrichmentMode::DataDog
        } else if opentelemetry {
            EnrichmentMode::OpenTelemetry
        } else {
            EnrichmentMode::Disabled
        }),
{
    if datadog && opentelemetry {
        Err(ConfigError::ConflictingEnrichment)
    } else if datadog {
        Ok(EnrichmentMode::DataDog)
    } else if opentelemetry {
        Ok(EnrichmentMode::OpenTelemetry)
    } else {
        Ok(EnrichmentMode::Disabled)
    }
}

/// The default severity pair for a verbosity count: the level for all
/// targets, and the more talkative level for the application's own
/// crates.
pub open spec fn spec_verbosity_levels(verbose: nat) -> (Level, Level) {
    if verbose == 0 {
        (Level::Error, Level::Info)
    } else if verbose == 1 {
        (Level::Info, Level::Info)
    } else if verbose == 2 {
        (Level::Info, Level::Debug)
    } else if verbose == 3 {
        (Level::Info, Level::Trace)
    } else if verbose == 4 {
        (Level::Debug, Level::Trace)
    } else {
        (Level::Trace, Level::Trace)
    }
}

/// Maps the `-v` occurrence count to the (all targets, own crates)
/// severity pair.
pub fn verbosity_levels(verbose: u8) -> (r: (Level, Level))
    ensures
        r == spec_verbosity_levels(verbose as nat),
{
    match verbose {
        0 => (Level::Error, Level::Info),
        1 => (Level::Info, Level::Info),
        2 => (Level::Info, Level::Debug),
        3 => (Level::Info, Level::Trace),
        4 => (Level::Debug, Level::Trace),
        _ => (Level::Trace, Level::Trace),
    }
}

/// Splits `KEY=value` at the first `=`; a string without one is invalid.
pub fn parse_key_val(s: &str) -> (r: Option<(String, String)>)
    ensures
        r is Some <==> (exists|i: int| 0 <= i < s@.len() && s@[i] == '='),
        r matches Some(kv) ==> exists|i: int|
            {
                &&& 0 <= i < s@.len()
                &&& s@[i] == '='
                &&& (forall|j: int| 0 <= j < i ==> s@[j] != '=')
                &&& kv.0@ == s@.subrange(0, i)
                &&& kv.1@ == s@.subrange(i + 1, s@.len() as int)
            },
{
    let n = s.unicode_len();
    let mut i: usize = 0;
    while i < n
        invariant
            n == s@.len(),
            i <= n,
            forall|j: int| 0 <= j < i ==> s@[j] != '=',
        decreases n - i,
    {
        if s.get_char(i) == '=' {
            let key = s.substring_char(0, i).to_owned();
            let val = s.substring_char(i + 1, n).to_owned();
            return Some((key, val));
        }
        i += 1;
    }
    None
}

} // verus!
