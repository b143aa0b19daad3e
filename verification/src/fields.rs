//! The canonical representation of a named field's value, independent of
//! the rendering target, its mathematical model, and the text forms the
//! renderers share.

use vstd::prelude::*;

verus! {

use crate::text::{spec_udec, spec_idec, u64_dec, u128_dec, i64_dec, push_char};
use vstd::string::StrSliceExecFns;
use vstd::string::StringExecFns;

/// The value of one named field.
///
/// Strings keep their own variant because rendering distinguishes plain
/// string text from debug-quoted text; text that arrives already
/// debug-formatted (durations, floats, arbitrary debug output) is held
/// verbatim in `Pretext`, and a formatted error keeps its display text.
#[derive(Debug, PartialEq, Eq)]
pub enum FieldValue {
    /// A UTF-8 string value.
    Str(String),
    /// Text that was already debug-formatted by the producer.
    Pretext(String),
    /// A signed integer.
    I64(i64),
    /// An unsigned integer.
    U64(u64),
    /// A wide unsigned integer, as used for trace identifiers.
    U128(u128),
    /// A formatted error's display text.
    Error(String),
}

/// One named field of an event or a span.
#[derive(Debug, PartialEq, Eq)]
pub struct Field {
    pub name: String,
    pub value: FieldValue,
}

/// The mathematical model of a field value.
pub ghost enum ValueModel {
    VStr(Seq<char>),
    VPretext(Seq<char>),
    VI64(int),
    VU64(nat),
    VU128(nat),
    VError(Seq<char>),
}

/// The mathematical model of a field: its name and its value.
pub ghost struct FieldModel {
    pub name: Seq<char>,
    pub value: ValueModel,
}

impl View for FieldValue {
    type V = ValueModel;

    open spec fn view(&self) -> ValueModel {
        match self {
            FieldValue::Str(s) => ValueModel::VStr(s@),
            FieldValue::Pretext(s) => ValueModel::VPretext(s@),
            FieldValue::I64(n) => ValueModel::VI64(*n as int),
            FieldValue::U64(n) => ValueModel::VU64(*n as nat),
            FieldValue::U128(n) => ValueModel::VU128(*n as nat),
            FieldValue::Error(s) => ValueModel::VError(s@),
        }
    }
}

impl View for Field {
    type V = FieldModel;

    open spec fn view(&self) -> FieldModel {
        FieldModel { name: self.name@, value: self.value@ }
    }
}

/// The models of a whole field list.
pub open spec fn models(fields: Seq<Field>) -> Seq<FieldModel> {
    fields.map_values(|f: Field| f@)
}

impl FieldValue {
    /// An explicit clone; the compiler-derived one would be opaque to
    /// verification.
    pub fn dup(&self) -> (r: FieldValue)
        ensures
            r == *self,
    {
        match self {
            FieldValue::Str(s) => FieldValue::Str(s.clone()),
            FieldValue::Pretext(s) => FieldValue::Pretext(s.clone()),
            FieldValue::I64(n) => FieldValue::I64(*n),
            FieldValue::U64(n) => FieldValue::U64(*n),
            FieldValue::U128(n) => FieldValue::U128(*n),
            FieldValue::Error(s) => FieldValue::Error(s.clone()),
        }
    }
}

impl Field {
    pub fn dup(&self) -> (r: Field)
        ensures
            r == *self,
    {
        Field { name: self.name.clone(), value: self.value.dup() }
    }
}

/// Copies a whole field list.
pub fn dup_fields(fields: &Vec<Field>) -> (r: Vec<Field>)
    ensures
        r@ == fields@,
{
    let mut out: Vec<Field> = Vec::new();
    let n = fields.len();
    let mut i: usize = 0;
    while i < n
        invariant
            n == fields@.len(),
            i <= n,
            out@ == fields@.take(i as int),
        decreases n - i,
    {
        out.push(fields[i].dup());
        proof {
            assert(out@ =~= fields@.take(i + 1));
        }
        i += 1;
    }
    proof {
        assert(fields@.take(n as int) =~= fields@);
    }
    out
}

/// The escaped form of one character inside a debug-quoted string:
/// quote, backslash, newline, carriage return and tab gain a backslash
/// escape; every other character stands for itself.
pub open spec fn esc_char(c: char) -> Seq<char> {
    if c == '"' {
        seq!['\\', '"']
    } else if c == '\\' {
        seq!['\\', '\\']
    } else if c == '\n' {
        seq!['\\', 'n']
    } else if c == '\r' {
        seq!['\\', 'r']
    } else if c == '\t' {
        seq!['\\', 't']
    } else {
        seq![c]
    }
}

/// The escaped form of a whole string.
pub open spec fn esc_str(s: Seq<char>) -> Seq<char>
    decreases s.len(),
{
    if s.len() == 0 {
        Seq::empty()
    } else {
        esc_str(s.drop_last()) + esc_char(s.last())
    }
}

/// A string in debug-quoted form: escaped, between double quotes.
pub open spec fn debug_quoted(s: Seq<char>) -> Seq<char> {
    seq!['"'] + esc_str(s) + seq!['"']
}

/// The display form of a value: string-like values stand bare, integers
/// render in decimal.
pub open spec fn value_display(v: ValueModel) -> Seq<char> {
    match v {
        ValueModel::VStr(s) => s,
        ValueModel::VPretext(s) => s,
        ValueModel::VI64(n) => spec_idec(n),
        ValueModel::VU64(n) => spec_udec(n),
        ValueModel::VU128(n) => spec_udec(n),
        ValueModel::VError(s) => s,
    }
}

/// The debug form of a value: like the display form, except that a plain
/// string is debug-quoted.  Pre-formatted text and error text already
/// carry their final form, and integers render in decimal either way.
pub open spec fn value_debug(v: ValueModel) -> Seq<char> {
    match v {
        ValueModel::VStr(s) => debug_quoted(s),
        _ => value_display(v),
    }
}

/// Escapes `s` for a debug-quoted rendering.
pub fn escape_str(s: &str) -> (r: String)
    ensures
        r@ == esc_str(s@),
{
    let n = s.unicode_len();
    let mut out = String::new();
    let mut i: usize = 0;
    while i < n
        invariant
            n == s@.len(),
            i <= n,
            out@ == esc_str(s@.take(i as int)),
        decreases n - i,
    {
        let c = s.get_char(i);
        if c == '"' {
            out.append("\\\"");
        } else if c == '\\' {
            out.append("\\\\");
        } else if c == '\n' {
            out.append("\\n");
        } else if c == '\r' {
            out.append("\\r");
        } else if c == '\t' {
            out.append("\\t");
        } else {
            push_char(&mut out, c);
        }
        proof {
            reveal_strlit("\\\"");
            reveal_strlit("\\\\");
            reveal_strlit("\\n");
            reveal_strlit("\\r");
            reveal_strlit("\\t");
            assert(s@.take(i + 1).drop_last() =~= s@.take(i as int));
            assert(s@.take(i + 1).last() == c);
            assert(out@ =~= esc_str(s@.take(i + 1)));
        }
        i += 1;
    }
    proof {
        assert(s@.take(n as int) =~= s@);
    }
    out
}

/// Renders `s` debug-quoted: escaped, between double quotes.
pub fn debug_quote(s: &str) -> (r: String)
    ensures
        r@ == debug_quoted(s@),
{
    proof {
        reveal_strlit("\"");
        assert("\""@ =~= seq!['"']);
    }
    let mut out = String::from_str("\"");
    out.append(escape_str(s).as_str());
    out.append("\"");
    out
}

/// Renders the display form of `v`.
pub fn value_display_text(v: &FieldValue) -> (r: String)
    ensures
        r@ == value_display(v@),
{
    match v {
        FieldValue::Str(s) => s.clone(),
        FieldValue::Pretext(s) => s.clone(),
        FieldValue::I64(n) => i64_dec(*n),
        FieldValue::U64(n) => u64_dec(*n),
        FieldValue::U128(n) => u128_dec(*n),
        FieldValue::Error(s) => s.clone(),
    }
}

/// Renders the debug form of `v`.
pub fn value_debug_text(v: &FieldValue) -> (r: String)
    ensures
        r@ == value_debug(v@),
{
    match v {
        FieldValue::Str(s) => debug_quote(s.as_str()),
        _ => value_display_text(v),
    }
}

/// Index of the first field named `name` at or after position `i`.
pub open spec fn spec_find_from(fields: Seq<FieldModel>, i: int, name: Seq<char>) -> Option<
    int,
>
    decreases fields.len() - i,
{
    if i < 0 || i >= fields.len() {
        None
    } else if fields[i].name == name {
        Some(i)
    } else {
        spec_find_from(fields, i + 1, name)
    }
}

/// Index of the first field named `name`.
pub open spec fn spec_find(fields: Seq<FieldModel>, name: Seq<char>) -> Option<int> {
    spec_find_from(fields, 0, name)
}

/// The value of the first field named `name`, if any.
pub open spec fn spec_lookup(fields: Seq<FieldModel>, name: Seq<char>) -> Option<ValueModel> {
    match spec_find(fields, name) {
        Some(i) => Some(fields[i].value),
        None => None,
    }
}

/// `fields` with the first field named like `f` replaced by `f`'s value,
/// or with `f` appended when none carries that name.
pub open spec fn spec_upsert(fields: Seq<FieldModel>, f: FieldModel) -> Seq<FieldModel> {
    match spec_find(fields, f.name) {
        Some(i) => fields.update(i, FieldModel { name: fields[i].name, value: f.value }),
        None => fields.push(f),
    }
}

fn find_from(fields: &Vec<Field>, i: usize, name: &str) -> (r: Option<usize>)
    requires
        i <= fields@.len(),
    ensures
        match r {
            Some(j) => Some(j as int) == spec_find_from(models(fields@), i as int, name@) && j
                < fields@.len(),
            None => spec_find_from(models(fields@), i as int, name@) is None,
        },
    decreases fields@.len() - i,
{
    if i == fields.len() {
        None
    } else if crate::text::str_eq(fields[i].name.as_str(), name) {
        Some(i)
    } else {
        find_from(fields, i + 1, name)
    }
}

/// Finds the position of the first field named `name`.
pub fn find_field(fields: &Vec<Field>, name: &str) -> (r: Option<usize>)
    ensures
        match r {
            Some(j) => Some(j as int) == spec_find(models(fields@), name@) && j
                < fields@.len(),
            None => spec_find(models(fields@), name@) is None,
        },
{
    find_from(fields, 0, name)
}

/// Looks up the value of the first field named `name`.
pub fn lookup_field(fields: &Vec<Field>, name: &str) -> (r: Option<FieldValue>)
    ensures
        match r {
            Some(v) => Some(v@) == spec_lookup(models(fields@), name@),
            None => spec_lookup(models(fields@), name@) is None,
        },
{
    match find_field(fields, name) {
        Some(i) => Some(fields[i].value.dup()),
        None => None,
    }
}

/// Replaces the value of the first field named `name`, or appends the
/// field when the name is new.
pub fn upsert_field(fields: &mut Vec<Field>, f: Field)
    ensures
        models(final(fields)@) == spec_upsert(models(old(fields)@), f@),
{
    match find_field(fields, f.name.as_str()) {
        Some(i) => {
            let kept = fields[i].name.clone();
            fields.set(i, Field { name: kept, value: f.value });
            proof {
                assert(models(fields@) =~= spec_upsert(models(old(fields)@), f@));
            }
        },
        None => {
            fields.push(f);
            proof {
                assert(models(fields@) =~= spec_upsert(models(old(fields)@), f@));
            }
        },
    }
}

} // verus!
