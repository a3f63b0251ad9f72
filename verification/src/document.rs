//! The TOML document of a configuration, as a tree of values with the place
//! where each was written, and the errors that reading it can give. Keys of a
//! table come in the order of their names. The decoders of the laboratory
//! types are built from the helpers here: a required field aborts on its
//! first problem, an optional one collects its problems, and a table that
//! keeps keys nobody asked for is refused at the end.

use crate::span::{Span, Spanned};
use crate::text::{owned, views};
use toml_span::ErrorKind;
use toml_span::value::ValueInner;
use vstd::prelude::*;

verus! {

/// The kind of a TOML value and what it holds. The number of a float is not
/// held: no field of a configuration takes one.
pub enum TomlKind {
    String(String),
    Integer(i64),
    Float,
    Boolean(bool),
    Array(Vec<TomlValue>),
    Table(Vec<TomlEntry>),
}

/// A key of a table and its value.
pub struct TomlEntry {
    pub key: Spanned<String>,
    pub value: TomlValue,
}

/// A TOML value and where it was written.
pub struct TomlValue {
    pub kind: TomlKind,
    pub span: Span,
}

/// What went wrong while reading a document.
pub enum TomlErrorKind {
    /// A value of another kind was found.
    Wanted { expected: String, found: String },
    /// An integer does not fit the number type of the field.
    OutOfRange { kind: String },
    /// A required key is absent.
    MissingField { field: String },
    /// A table holds keys nobody asked for.
    UnexpectedKeys { keys: Vec<Spanned<String>>, expected: Vec<String> },
    /// A word is not one of those allowed.
    UnexpectedValue { expected: Vec<String>, value: Option<String> },
    /// Any other parser error, with its text.
    Other { message: String },
}

/// A reading error and where it was found.
pub struct TomlError {
    pub kind: TomlErrorKind,
    pub span: Span,
}

/// `TomlErrorKind` with its texts taken as character sequences.
pub enum TomlErrorKindView {
    Wanted { expected: Seq<char>, found: Seq<char> },
    OutOfRange { kind: Seq<char> },
    MissingField { field: Seq<char> },
    UnexpectedKeys { keys: Seq<(Seq<char>, Span)>, expected: Seq<Seq<char>> },
    UnexpectedValue { expected: Seq<Seq<char>>, value: Option<Seq<char>> },
    Other { message: Seq<char> },
}

/// `TomlError` with its texts taken as character sequences.
pub struct TomlErrorView {
    pub kind: TomlErrorKindView,
    pub span: Span,
}

/// The names and places of keys.
pub open spec fn key_views(keys: Seq<Spanned<String>>) -> Seq<(Seq<char>, Span)> {
    keys.map_values(|k: Spanned<String>| (k.value@, k.span))
}

/// The texts held by a sequence of strings.
pub open spec fn string_views(items: Seq<String>) -> Seq<Seq<char>> {
    items.map_values(|s: String| s@)
}

impl View for TomlError {
    type V = TomlErrorView;

    open spec fn view(&self) -> TomlErrorView {
        TomlErrorView {
            kind: match self.kind {
                TomlErrorKind::Wanted { expected, found } => TomlErrorKindView::Wanted {
                    expected: expected@,
                    found: found@,
                },
                TomlErrorKind::OutOfRange { kind } => TomlErrorKindView::OutOfRange { kind: kind@ },
                TomlErrorKind::MissingField { field } => TomlErrorKindView::MissingField {
                    field: field@,
                },
                TomlErrorKind::UnexpectedKeys { keys, expected } => TomlErrorKindView::UnexpectedKeys {
                    keys: key_views(keys@),
                    expected: string_views(expected@),
                },
                TomlErrorKind::UnexpectedValue { expected, value } => TomlErrorKindView::UnexpectedValue {
                    expected: string_views(expected@),
                    value: match value {
                        Some(v) => Some(v@),
                        None => None,
                    },
                },
                TomlErrorKind::Other { message } => TomlErrorKindView::Other { message: message@ },
            },
            span: self.span,
        }
    }
}

/// The views of a list of errors.
pub open spec fn error_views(errors: Seq<TomlError>) -> Seq<TomlErrorView> {
    errors.map_values(|e: TomlError| e@)
}

/// The document that `toml_span::parse` reads from `source`, or its error.
pub uninterp spec fn toml_document(source: Seq<char>) -> Result<TomlValue, TomlError>;

/// The values of `toml_span`, held opaquely.
#[verifier::external_type_specification]
#[verifier::external_body]
pub struct ExTomlValue<'de>(toml_span::Value<'de>);

/// The keys of `toml_span` tables, held opaquely.
#[verifier::external_type_specification]
#[verifier::external_body]
pub struct ExTomlKey<'de>(toml_span::value::Key<'de>);

/// The errors of `toml_span`, held opaquely.
#[verifier::external_type_specification]
#[verifier::external_body]
pub struct ExTomlError(toml_span::Error);

/// The error kinds of `toml_span`, held opaquely.
#[verifier::external_type_specification]
#[verifier::external_body]
pub struct ExTomlErrorKind(toml_span::ErrorKind);

/// A key of `toml_span` and its value as an entry of this library.
#[verifier::external_body]
fn entry_of(key: &toml_span::value::Key<'_>, value: &toml_span::Value<'_>) -> TomlEntry {
    TomlEntry {
        key: Spanned { value: key.name.to_string(), span: Span { start: key.span.start, end: key.span.end } },
        value: tree_of(value),
    }
}

/// A value of `toml_span` as a tree of this library, kind for kind, keys and
/// items in the order `toml_span` holds them.
#[verifier::external_body]
fn tree_of(value: &toml_span::Value<'_>) -> TomlValue {
    let kind = match value.as_ref() {
        ValueInner::String(s) => TomlKind::String(s.to_string()),
        ValueInner::Integer(i) => TomlKind::Integer(*i),
        ValueInner::Float(_) => TomlKind::Float,
        ValueInner::Boolean(b) => TomlKind::Boolean(*b),
        ValueInner::Array(items) => TomlKind::Array(items.iter().map(tree_of).collect()),
        ValueInner::Table(table) => TomlKind::Table(table.iter().map(|(k, v)| entry_of(k, v)).collect()),
    };
    TomlValue { kind, span: Span { start: value.span.start, end: value.span.end } }
}

/// An error kind of `toml_span` as one of this library: the kinds that the
/// decoders also give keep their fields, any other is kept as `message`.
#[verifier::external_body]
fn kind_of(kind: toml_span::ErrorKind, message: String) -> TomlErrorKind {
    match kind {
        ErrorKind::Wanted { expected, found } => TomlErrorKind::Wanted { expected: expected.to_owned(), found: found.to_owned() },
        ErrorKind::OutOfRange(kind) => TomlErrorKind::OutOfRange { kind: kind.to_owned() },
        ErrorKind::MissingField(field) => TomlErrorKind::MissingField { field: field.to_owned() },
        ErrorKind::UnexpectedKeys { keys, expected } => TomlErrorKind::UnexpectedKeys {
            keys: keys.into_iter().map(|(n, s)| Spanned { value: n, span: Span { start: s.start, end: s.end } }).collect(),
            expected,
        },
        ErrorKind::UnexpectedValue { expected, value } => TomlErrorKind::UnexpectedValue { expected: expected.iter().map(|e| e.to_string()).collect(), value },
        _ => TomlErrorKind::Other { message },
    }
}

/// An error of `toml_span` as one of this library, with its text (its
/// `Display`) kept for the kinds that only have that.
#[verifier::external_body]
fn error_of(error: toml_span::Error) -> TomlError {
    let message = error.to_string();
    let span = Span { start: error.span.start, end: error.span.end };
    TomlError { kind: kind_of(error.kind, message), span }
}

/// `toml_span::parse`; the document or error is named by `toml_document`.
#[verifier::external_body]
pub fn parse_toml(source: &str) -> (document: Result<TomlValue, TomlError>)
    ensures
        document == toml_document(source@),
{
    match toml_span::parse(source) {
        Ok(value) => Ok(tree_of(&value)),
        Err(error) => Err(error_of(error)),
    }
}

/// The name of a value's kind, as errors give it.
pub open spec fn kind_name(kind: TomlKind) -> Seq<char> {
    match kind {
        TomlKind::String(_) => "string"@,
        TomlKind::Integer(_) => "integer"@,
        TomlKind::Float => "float"@,
        TomlKind::Boolean(_) => "boolean"@,
        TomlKind::Array(_) => "array"@,
        TomlKind::Table(_) => "table"@,
    }
}

/// The error for a value of another kind than `expected`.
pub open spec fn wanted(expected: Seq<char>, value: TomlValue) -> TomlErrorView {
    TomlErrorView {
        kind: TomlErrorKindView::Wanted { expected, found: kind_name(value.kind) },
        span: value.span,
    }
}

/// The value of the first entry named `name`.
pub open spec fn lookup(entries: Seq<TomlEntry>, name: Seq<char>) -> Option<TomlValue>
    decreases entries.len(),
{
    if entries.len() == 0 {
        None
    } else if entries[0].key.value@ == name {
        Some(entries[0].value)
    } else {
        lookup(entries.skip(1), name)
    }
}

/// The keys of the entries whose names are not among `expected`, in order.
pub open spec fn remaining_keys(entries: Seq<TomlEntry>, expected: Seq<Seq<char>>) -> Seq<
    (Seq<char>, Span),
>
    decreases entries.len(),
{
    if entries.len() == 0 {
        Seq::empty()
    } else {
        let rest = remaining_keys(entries.drop_last(), expected);
        let key = entries.last().key;
        if expected.contains(key.value@) {
            rest
        } else {
            rest.push((key.value@, key.span))
        }
    }
}

/// The value of the entry named `name`, where there is one.
pub open spec fn field_value(entries: Seq<TomlEntry>, name: Seq<char>) -> TomlValue {
    match lookup(entries, name) {
        Some(value) => value,
        None => arbitrary(),
    }
}

/// The error a required field gives, `decoded` being the problems of its
/// value: the missing field, or the last problem of its value; none when its
/// value decodes.
pub open spec fn required(
    entries: Seq<TomlEntry>,
    name: Seq<char>,
    table_span: Span,
    decoded: Option<Seq<TomlErrorView>>,
) -> Option<Seq<TomlErrorView>> {
    if lookup(entries, name) is None {
        Some(
            seq![TomlErrorView { kind: TomlErrorKindView::MissingField { field: name }, span: table_span }],
        )
    } else {
        match decoded {
            None => None,
            Some(errors) => Some(seq![errors.last()]),
        }
    }
}

/// The problems an optional field adds, `decoded` being those of its value:
/// none when it is absent.
pub open spec fn optional(
    entries: Seq<TomlEntry>,
    name: Seq<char>,
    decoded: Option<Seq<TomlErrorView>>,
) -> Seq<TomlErrorView> {
    if lookup(entries, name) is None {
        Seq::empty()
    } else {
        match decoded {
            None => Seq::empty(),
            Some(errors) => errors,
        }
    }
}

/// The first of two outcomes that reports problems.
pub open spec fn or_else(
    first: Option<Seq<TomlErrorView>>,
    second: Option<Seq<TomlErrorView>>,
) -> Option<Seq<TomlErrorView>> {
    if first is Some {
        first
    } else {
        second
    }
}

/// Problems, none when the list is empty.
pub open spec fn reported(errors: Seq<TomlErrorView>) -> Option<Seq<TomlErrorView>> {
    if errors.len() == 0 {
        None
    } else {
        Some(errors)
    }
}

/// The end of a table: the problems collected so far, then the keys that
/// nobody asked for; none when both are empty.
pub open spec fn finalized(
    entries: Seq<TomlEntry>,
    expected: Seq<Seq<char>>,
    table_span: Span,
    collected: Seq<TomlErrorView>,
) -> Option<Seq<TomlErrorView>> {
    let keys = remaining_keys(entries, expected);
    let all = if keys.len() == 0 {
        collected
    } else {
        collected.push(
            TomlErrorView {
                kind: TomlErrorKindView::UnexpectedKeys { keys, expected },
                span: table_span,
            },
        )
    };
    if all.len() == 0 {
        None
    } else {
        Some(all)
    }
}

/// The entries of a table value.
pub open spec fn table_entries(value: TomlValue) -> Option<Seq<TomlEntry>> {
    match value.kind {
        TomlKind::Table(entries) => Some(entries@),
        _ => None,
    }
}

/// The items of an array value.
pub open spec fn array_items(value: TomlValue) -> Option<Seq<TomlValue>> {
    match value.kind {
        TomlKind::Array(items) => Some(items@),
        _ => None,
    }
}

/// The text of a string value.
pub open spec fn string_text(value: TomlValue) -> Option<Seq<char>> {
    match value.kind {
        TomlKind::String(s) => Some(s@),
        _ => None,
    }
}

/// The problems of a value read as a string.
pub open spec fn string_errors(value: TomlValue) -> Option<Seq<TomlErrorView>> {
    match value.kind {
        TomlKind::String(_) => None,
        _ => Some(seq![wanted("a string"@, value)]),
    }
}

/// The problems of a value read as a `u32`.
pub open spec fn u32_errors(value: TomlValue) -> Option<Seq<TomlErrorView>> {
    match value.kind {
        TomlKind::Integer(i) => if 0 <= i <= u32::MAX {
            None
        } else {
            Some(
                seq![TomlErrorView { kind: TomlErrorKindView::OutOfRange { kind: "u32"@ }, span: value.span }],
            )
        },
        _ => Some(seq![wanted("u32"@, value)]),
    }
}

/// The number of a value read as an unsigned integer.
pub open spec fn integer_value(value: TomlValue) -> int {
    match value.kind {
        TomlKind::Integer(i) => i as int,
        _ => 0,
    }
}

/// The problems of a value read as a `u64`.
pub open spec fn u64_errors(value: TomlValue) -> Option<Seq<TomlErrorView>> {
    match value.kind {
        TomlKind::Integer(i) => if 0 <= i {
            None
        } else {
            Some(
                seq![TomlErrorView { kind: TomlErrorKindView::OutOfRange { kind: "u64"@ }, span: value.span }],
            )
        },
        _ => Some(seq![wanted("u64"@, value)]),
    }
}

/// The error for a word that is not one of `expected`.
pub open spec fn unexpected_value(
    expected: Seq<Seq<char>>,
    word: Seq<char>,
    span: Span,
) -> TomlErrorView {
    TomlErrorView {
        kind: TomlErrorKindView::UnexpectedValue { expected, value: Some(word) },
        span,
    }
}

/// The entries of a table, when `value` is one; the error otherwise.
pub fn open_table(value: &TomlValue) -> (entries: Result<&Vec<TomlEntry>, TomlError>)
    ensures
        match (entries, table_entries(*value)) {
            (Ok(e), Some(t)) => e@ == t,
            (Err(e), None) => e@ == wanted("a table"@, *value),
            _ => false,
        },
{
    match &value.kind {
        TomlKind::Table(entries) => Ok(entries),
        _ => Err(wanted_error("a table", value)),
    }
}

/// The error for a value of another kind than `expected`.
pub fn wanted_error(expected: &str, value: &TomlValue) -> (error: TomlError)
    ensures
        error@ == wanted(expected@, *value),
{
    let found = match &value.kind {
        TomlKind::String(_) => "string",
        TomlKind::Integer(_) => "integer",
        TomlKind::Float => "float",
        TomlKind::Boolean(_) => "boolean",
        TomlKind::Array(_) => "array",
        TomlKind::Table(_) => "table",
    };
    TomlError {
        kind: TomlErrorKind::Wanted { expected: owned(expected), found: owned(found) },
        span: value.span,
    }
}

/// The value of the first entry named `name`.
pub fn find_field<'a>(entries: &'a Vec<TomlEntry>, name: &str) -> (found: Option<&'a TomlValue>)
    ensures
        match found {
            Some(v) => lookup(entries@, name@) == Some(*v),
            None => lookup(entries@, name@) is None,
        },
{
    let mut i: usize = 0;
    assert(entries@.skip(0) =~= entries@);
    while i < entries.len()
        invariant
            i <= entries@.len(),
            lookup(entries@, name@) == lookup(entries@.skip(i as int), name@),
        decreases entries.len() - i,
    {
        proof {
            assert(entries@.skip(i as int).skip(1) =~= entries@.skip(i + 1));
            assert(entries@.skip(i as int)[0] == entries@[i as int]);
        }
        if crate::text::same_text(entries[i].key.value.as_str(), name) {
            return Some(&entries[i].value);
        }
        i = i + 1;
    }
    None
}

/// The error for a missing required field.
pub fn missing_field(name: &str, table_span: Span) -> (error: TomlError)
    ensures
        error@ == (TomlErrorView {
            kind: TomlErrorKindView::MissingField { field: name@ },
            span: table_span,
        }),
{
    TomlError { kind: TomlErrorKind::MissingField { field: owned(name) }, span: table_span }
}

/// The texts of a list of names.
fn owned_names(names: &[&str]) -> (owned_list: Vec<String>)
    ensures
        string_views(owned_list@) == views(names@),
{
    let mut out: Vec<String> = Vec::new();
    let mut i: usize = 0;
    while i < names.len()
        invariant
            i <= names@.len(),
            out@.len() == i,
            string_views(out@) == views(names@).take(i as int),
        decreases names.len() - i,
    {
        let name = owned(names[i]);
        out.push(name);
        proof {
            assert(string_views(out@) =~= views(names@).take(i + 1));
        }
        i = i + 1;
    }
    proof {
        assert(views(names@).take(names@.len() as int) =~= views(names@));
    }
    out
}

/// Whether `name` is among `names`.
fn listed(names: &[&str], name: &str) -> (found: bool)
    ensures
        found == views(names@).contains(name@),
{
    let mut i: usize = 0;
    while i < names.len()
        invariant
            i <= names@.len(),
            forall|j: int| 0 <= j < i ==> views(names@)[j] != name@,
        decreases names.len() - i,
    {
        if crate::text::same_text(names[i], name) {
            assert(views(names@)[i as int] == name@);
            return true;
        }
        i = i + 1;
    }
    proof {
        if views(names@).contains(name@) {
            let j = choose|j: int| 0 <= j < views(names@).len() && views(names@)[j] == name@;
            assert(views(names@)[j] != name@);
        }
    }
    false
}

/// Ends a table: the problems collected so far, then the keys not among
/// `expected`.
pub fn finalize(
    entries: &Vec<TomlEntry>,
    expected: &[&str],
    table_span: Span,
    collected: Vec<TomlError>,
) -> (outcome: Result<(), Vec<TomlError>>)
    ensures
        match (outcome, finalized(entries@, views(expected@), table_span, error_views(collected@))) {
            (Ok(()), None) => true,
            (Err(errors), Some(all)) => error_views(errors@) == all,
            _ => false,
        },
        outcome matches Err(errors) ==> errors@.len() > 0,
{
    let mut keys: Vec<Spanned<String>> = Vec::new();
    let mut i: usize = 0;
    while i < entries.len()
        invariant
            i <= entries@.len(),
            key_views(keys@) == remaining_keys(entries@.take(i as int), views(expected@)),
        decreases entries.len() - i,
    {
        let key = &entries[i].key;
        proof {
            assert(entries@.take(i + 1).drop_last() =~= entries@.take(i as int));
        }
        if !listed(expected, key.value.as_str()) {
            let ghost before = key_views(keys@);
            keys.push(Spanned { value: owned(key.value.as_str()), span: key.span });
            proof {
                assert(key_views(keys@) =~= before.push((key.value@, key.span)));
            }
        }
        i = i + 1;
    }
    proof {
        assert(entries@.take(entries@.len() as int) =~= entries@);
    }
    let mut all = collected;
    if keys.len() > 0 {
        let ghost before = error_views(all@);
        let error = TomlError {
            kind: TomlErrorKind::UnexpectedKeys { keys, expected: owned_names(expected) },
            span: table_span,
        };
        all.push(error);
        proof {
            assert(error_views(all@) =~= before.push(error@));
        }
    }
    if all.len() == 0 {
        proof {
            assert(error_views(all@).len() == 0);
        }
        Ok(())
    } else {
        Err(all)
    }
}

/// Appends the problems of a value to those collected so far.
pub fn collect(collected: &mut Vec<TomlError>, errors: Vec<TomlError>)
    ensures
        error_views(final(collected)@) == error_views(old(collected)@) + error_views(errors@),
{
    let mut rest = errors;
    let ghost (before, added) = (collected@, rest@);
    collected.append(&mut rest);
    proof {
        assert(error_views(collected@) =~= error_views(before) + error_views(added));
    }
}

/// The string of a string value; the error otherwise.
pub fn take_string(value: &TomlValue) -> (text: Result<Spanned<String>, TomlError>)
    ensures
        match text {
            Ok(t) => string_text(*value) == Some(t.value@) && t.span == value.span,
            Err(e) => string_errors(*value) == Some(seq![e@]),
        },
{
    match &value.kind {
        TomlKind::String(s) => Ok(Spanned { value: owned(s.as_str()), span: value.span }),
        _ => Err(wanted_error("a string", value)),
    }
}

/// The number of a value read as a `u32`; the error otherwise.
pub fn take_u32(value: &TomlValue) -> (number: Result<Spanned<u32>, TomlError>)
    ensures
        match number {
            Ok(n) => u32_errors(*value) is None && n.value == integer_value(*value) && n.span
                == value.span,
            Err(e) => u32_errors(*value) == Some(seq![e@]),
        },
{
    match &value.kind {
        TomlKind::Integer(i) => if 0 <= *i && *i <= 4294967295 {
            Ok(Spanned { value: *i as u32, span: value.span })
        } else {
            Err(TomlError { kind: TomlErrorKind::OutOfRange { kind: owned("u32") }, span: value.span })
        },
        _ => Err(wanted_error("u32", value)),
    }
}

/// The number of a value read as a `u64`; the error otherwise.
pub fn take_u64(value: &TomlValue) -> (number: Result<Spanned<u64>, TomlError>)
    ensures
        match number {
            Ok(n) => u64_errors(*value) is None && n.value == integer_value(*value) && n.span
                == value.span,
            Err(e) => u64_errors(*value) == Some(seq![e@]),
        },
{
    match &value.kind {
        TomlKind::Integer(i) => if 0 <= *i {
            Ok(Spanned { value: *i as u64, span: value.span })
        } else {
            Err(TomlError { kind: TomlErrorKind::OutOfRange { kind: owned("u64") }, span: value.span })
        },
        _ => Err(wanted_error("u64", value)),
    }
}

/// The error for a word that is not one of `expected`.
pub fn unexpected_value_error(expected: &[&str], word: &str, span: Span) -> (error: TomlError)
    ensures
        error@ == unexpected_value(views(expected@), word@, span),
{
    TomlError {
        kind: TomlErrorKind::UnexpectedValue {
            expected: owned_names(expected),
            value: Some(owned(word)),
        },
        span,
    }
}

/// The single error that a required field reports for the problems of its
/// value: the last of them.
pub fn last_error(errors: Vec<TomlError>) -> (reported: Vec<TomlError>)
    requires
        errors@.len() > 0,
    ensures
        reported@.len() == 1,
        error_views(reported@) == seq![error_views(errors@).last()],
{
    let mut errors = errors;
    let last = errors.pop().unwrap();
    let mut reported: Vec<TomlError> = Vec::new();
    reported.push(last);
    proof {
        assert(error_views(reported@) =~= seq![error_views(errors@.push(last)).last()]);
    }
    reported
}

/// A single error as a list.
pub fn single(error: TomlError) -> (errors: Vec<TomlError>)
    ensures
        errors@.len() == 1,
        error_views(errors@) == seq![error@],
{
    let mut errors: Vec<TomlError> = Vec::new();
    errors.push(error);
    proof {
        assert(error_views(errors@) =~= seq![error@]);
    }
    errors
}

} // verus!
