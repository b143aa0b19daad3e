//! JSON text pieces shared by the JSON-line renderers: string quoting
//! through `serde_json`, RFC 3339 timestamps through `chrono`, and the
//! rendering of field values and field maps as JSON text.

use vstd::prelude::*;

verus! {

use crate::fields::{Field, FieldModel, FieldValue, ValueModel};
use crate::text::{i64_dec, spec_idec, spec_udec, u128_dec, u64_dec};
use vstd::string::StringExecFns;

/// The JSON string literal (quotes included) that `serde_json` produces
/// for a string with the characters `s`.
pub uninterp spec fn json_quoted(s: Seq<char>) -> Seq<char>;

/// The RFC 3339 rendering of the UTC instant `secs` seconds and `nanos`
/// nanoseconds after the epoch.
pub uninterp spec fn rfc3339_utc(secs: int, nanos: int) -> Seq<char>;

/// Relies on `serde_json::to_string` on a `&str`: it returns the JSON
/// string literal for the characters of `s` — quoted, with the mandatory
/// escapes — and cannot fail, since it writes into a byte vector.
#[verifier::external_body]
pub(crate) fn json_quote(s: &str) -> (r: String)
    ensures
        r@ == json_quoted(s@),
        r@.len() >= 2,
        r@.first() == '"',
        r@.last() == '"',
{
    serde_json::to_string(s).unwrap_or_default()
}

/// Relies on `chrono::DateTime::from_timestamp` and
/// `chrono::DateTime::to_rfc3339`: a timestamp between the epoch and the
/// year 9999 with a valid nanosecond part is representable, and its
/// RFC 3339 text depends on the two numbers alone.
#[verifier::external_body]
pub(crate) fn rfc3339_text(secs: i64, nanos: u32) -> (r: Option<String>)
    ensures
        (0 <= secs < 253402300800i64 && nanos < 1_000_000_000) ==> r is Some,
        r matches Some(s) ==> s@ == rfc3339_utc(secs as int, nanos as int),
{
    chrono::DateTime::from_timestamp(secs, nanos).map(|dt| dt.to_rfc3339())
}

/// The JSON value text of a field value: string-like values as JSON
/// strings, integers as bare decimal numbers.
pub open spec fn json_value(v: ValueModel) -> Seq<char> {
    match v {
        ValueModel::VStr(s) => json_quoted(s),
        ValueModel::VPretext(s) => json_quoted(s),
        ValueModel::VError(s) => json_quoted(s),
        ValueModel::VI64(n) => spec_idec(n),
        ValueModel::VU64(n) => spec_udec(n),
        ValueModel::VU128(n) => spec_udec(n),
    }
}

/// Renders the JSON value text of `v`.
pub fn json_value_text(v: &FieldValue) -> (r: String)
    ensures
        r@ == json_value(v@),
{
    match v {
        FieldValue::Str(s) => json_quote(s.as_str()),
        FieldValue::Pretext(s) => json_quote(s.as_str()),
        FieldValue::Error(s) => json_quote(s.as_str()),
        FieldValue::I64(n) => i64_dec(*n),
        FieldValue::U64(n) => u64_dec(*n),
        FieldValue::U128(n) => u128_dec(*n),
    }
}

/// The comma-separated JSON member list of the fields from position `i`
/// on: quoted name, colon, value.
pub open spec fn json_entries(fields: Seq<FieldModel>, i: int) -> Seq<char>
    decreases fields.len() - i,
{
    if i < 0 || i >= fields.len() {
        Seq::empty()
    } else {
        (if i > 0 {
            ","@
        } else {
            Seq::<char>::empty()
        }) + json_quoted(fields[i].name) + ":"@ + json_value(fields[i].value) + json_entries(
            fields,
            i + 1,
        )
    }
}

/// A whole field map as one JSON object.
pub open spec fn json_object(fields: Seq<FieldModel>) -> Seq<char> {
    "{"@ + json_entries(fields, 0) + "}"@
}

fn json_entries_text(fields: &Vec<Field>, i: usize) -> (r: String)
    requires
        i <= fields@.len(),
    ensures
        r@ == json_entries(crate::fields::models(fields@), i as int),
    decreases fields@.len() - i,
{
    proof {
        reveal_strlit("");
        assert(""@ =~= Seq::<char>::empty());
    }
    if i == fields.len() {
        String::new()
    } else {
        let f = &fields[i];
        let mut out: String = if i > 0 {
            ",".to_owned()
        } else {
            "".to_owned()
        };
        out.append(json_quote(f.name.as_str()).as_str());
        out.append(":");
        out.append(json_value_text(&f.value).as_str());
        out.append(json_entries_text(fields, i + 1).as_str());
        out
    }
}

/// Renders a whole field map as one JSON object.
pub fn json_object_text(fields: &Vec<Field>) -> (r: String)
    ensures
        r@ == json_object(crate::fields::models(fields@)),
{
    let mut out = "{".to_owned();
    out.append(json_entries_text(fields, 0).as_str());
    out.append("}");
    out
}

} // verus!
