//! Rendering the seed documents and libvirt definitions from their
//! templates, and the value encoders that the templates apply to the text
//! they embed: a PowerShell script as the Base64 of its UTF-16LE bytes (the
//! form that `powershell -EncodedCommand` takes), and a string as a YAML
//! scalar.

use crate::errors::template::Template;
use crate::sequences::texts;
use vstd::prelude::*;

verus! {

/// The UTF-16 code units of one character: the character itself below
/// U+10000, a surrogate pair above.
pub open spec fn utf16_units(c: char) -> Seq<u16> {
    let v = c as u32 as int;
    if v < 0x10000 {
        seq![v as u16]
    } else {
        let w = v - 0x10000;
        seq![(0xD800 + w / 1024) as u16, (0xDC00 + w % 1024) as u16]
    }
}

/// The two bytes of a code unit, low byte first.
pub open spec fn le_bytes(unit: u16) -> Seq<u8> {
    seq![(unit % 256) as u8, (unit / 256) as u8]
}

/// The UTF-16LE encoding of a text, without byte-order mark.
pub open spec fn utf16le(text: Seq<char>) -> Seq<u8>
    decreases text.len(),
{
    if text.len() == 0 {
        Seq::empty()
    } else {
        let units = utf16_units(text.last());
        let tail = if units.len() == 1 {
            le_bytes(units[0])
        } else {
            le_bytes(units[0]) + le_bytes(units[1])
        };
        utf16le(text.drop_last()) + tail
    }
}

/// The character of a six-bit value in the standard Base64 alphabet
/// (RFC 4648): `A`-`Z`, `a`-`z`, `0`-`9`, `+`, `/`.
pub open spec fn base64_digit(value: int) -> char {
    if value < 26 {
        (65 + value) as char
    } else if value < 52 {
        (97 + value - 26) as char
    } else if value < 62 {
        (48 + value - 52) as char
    } else if value == 62 {
        '+'
    } else {
        '/'
    }
}

/// Standard Base64 (RFC 4648, with padding): each group of three bytes
/// becomes four characters; a last group of one or two bytes is padded
/// with `=`.
pub open spec fn base64_standard(bytes: Seq<u8>) -> Seq<char>
    decreases bytes.len(),
{
    if bytes.len() == 0 {
        Seq::empty()
    } else if bytes.len() == 1 {
        let b0 = bytes[0] as int;
        seq![base64_digit(b0 / 4), base64_digit((b0 % 4) * 16), '=', '=']
    } else if bytes.len() == 2 {
        let (b0, b1) = (bytes[0] as int, bytes[1] as int);
        seq![base64_digit(b0 / 4), base64_digit((b0 % 4) * 16 + b1 / 16), base64_digit((b1 % 16) * 4), '=']
    } else {
        let (b0, b1, b2) = (bytes[0] as int, bytes[1] as int, bytes[2] as int);
        seq![
            base64_digit(b0 / 4),
            base64_digit((b0 % 4) * 16 + b1 / 16),
            base64_digit((b1 % 16) * 4 + b2 / 64),
            base64_digit(b2 % 64),
        ] + base64_standard(bytes.skip(3))
    }
}

/// The YAML document that `serde_yaml::to_string` writes for the string
/// `text`, or none where it reports an error.
pub uninterp spec fn yaml_scalar_document(text: Seq<char>) -> Option<Seq<char>>;

/// `base64::Engine::encode` with the standard engine: RFC 4648 Base64 with
/// padding, as `base64_standard` writes it out.
#[verifier::external_body]
fn encode_base64(bytes: &[u8]) -> (encoded: String)
    ensures
        encoded@ == base64_standard(bytes@),
{
    base64::Engine::encode(&base64::engine::general_purpose::STANDARD, bytes)
}

/// `serde_yaml::to_string` on a string; the document is named by
/// `yaml_scalar_document`. The error's text is left unsaid.
#[verifier::external_body]
fn yaml_document(text: &str) -> (document: Result<String, String>)
    ensures
        match document {
            Ok(d) => yaml_scalar_document(text@) == Some(d@),
            Err(_) => yaml_scalar_document(text@) is None,
        },
{
    serde_yaml::to_string(text).map_err(|error| error.to_string())
}

fn push_le_bytes(out: &mut Vec<u8>, unit: u16)
    ensures
        final(out)@ == old(out)@ + le_bytes(unit),
{
    out.push((unit % 256) as u8);
    out.push((unit / 256) as u8);
}

/// The UTF-16LE bytes of `text`.
pub fn utf16le_bytes(text: &str) -> (bytes: Vec<u8>)
    ensures
        bytes@ == utf16le(text@),
{
    let n = text.unicode_len();
    let mut out: Vec<u8> = Vec::new();
    let mut i: usize = 0;
    while i < n
        invariant
            n == text@.len(),
            i <= n,
            out@ == utf16le(text@.take(i as int)),
        decreases n - i,
    {
        let c = text.get_char(i);
        let v = c as u32;
        proof {
            assert(text@.take(i + 1).drop_last() =~= text@.take(i as int));
            assert(text@.take(i + 1).last() == c);
        }
        if v < 0x10000 {
            push_le_bytes(&mut out, v as u16);
        } else {
            let w = v - 0x10000;
            assert(w / 1024 < 1024) by {
                assert(v <= 0x10FFFF);
            }
            push_le_bytes(&mut out, (0xD800 + w / 1024) as u16);
            push_le_bytes(&mut out, (0xDC00 + w % 1024) as u16);
        }
        proof {
            assert(out@ =~= utf16le(text@.take(i + 1)));
        }
        i = i + 1;
    }
    proof {
        assert(text@.take(n as int) =~= text@);
    }
    out
}

/// A script in the form that `powershell -EncodedCommand` takes: the Base64
/// of its UTF-16LE bytes.
pub fn powershell_base64_encode(script: &str) -> (encoded: String)
    ensures
        encoded@ == base64_standard(utf16le(script@)),
{
    let bytes = utf16le_bytes(script);
    encode_base64(bytes.as_slice())
}

/// A string written as a YAML scalar document; the error's text where the
/// YAML writer refuses it.
pub fn yaml_escape(scalar: &str) -> (encoded: Result<String, String>)
    ensures
        encoded is Ok <==> yaml_scalar_document(scalar@) is Some,
        encoded matches Ok(e) ==> Some(e@) == yaml_scalar_document(scalar@),
{
    yaml_document(scalar)
}


// ---- rendering ----

/// A field of a record handed to a template.
pub enum TemplateField {
    Text(String),
    Texts(Vec<String>),
    Number(u64),
}

/// What a template sees of a record field.
pub enum TemplateFieldView {
    Text(Seq<char>),
    Texts(Seq<Seq<char>>),
    Number(u64),
}

impl View for TemplateField {
    type V = TemplateFieldView;

    open spec fn view(&self) -> TemplateFieldView {
        match self {
            TemplateField::Text(t) => TemplateFieldView::Text(t@),
            TemplateField::Texts(ts) => TemplateFieldView::Texts(texts(ts@)),
            TemplateField::Number(n) => TemplateFieldView::Number(*n),
        }
    }
}

/// What a template sees of a record: its fields by name, in order.
pub open spec fn record_view(record: Seq<(String, TemplateField)>) -> Seq<(Seq<char>, TemplateFieldView)> {
    record.map_values(|field: (String, TemplateField)| (field.0@, field.1@))
}

/// A value handed to a template.
pub enum TemplateValue {
    /// No value (`null`).
    Nothing,
    Flag(bool),
    Number(u64),
    Text(String),
    /// A record of named fields.
    Record(Vec<(String, TemplateField)>),
    /// A list of records.
    Records(Vec<Vec<(String, TemplateField)>>),
}

/// What a template sees of a value.
pub enum TemplateValueView {
    Nothing,
    Flag(bool),
    Number(u64),
    Text(Seq<char>),
    Record(Seq<(Seq<char>, TemplateFieldView)>),
    Records(Seq<Seq<(Seq<char>, TemplateFieldView)>>),
}

impl View for TemplateValue {
    type V = TemplateValueView;

    open spec fn view(&self) -> TemplateValueView {
        match self {
            TemplateValue::Nothing => TemplateValueView::Nothing,
            TemplateValue::Flag(b) => TemplateValueView::Flag(*b),
            TemplateValue::Number(n) => TemplateValueView::Number(*n),
            TemplateValue::Text(t) => TemplateValueView::Text(t@),
            TemplateValue::Record(r) => TemplateValueView::Record(record_view(r@)),
            TemplateValue::Records(rs) => TemplateValueView::Records(
                rs@.map_values(|r: Vec<(String, TemplateField)>| record_view(r@)),
            ),
        }
    }
}

/// The values a template is rendered with, by name.
pub struct TemplateContext {
    pub entries: Vec<(String, TemplateValue)>,
}

/// What a template sees of its context: the values by name, in order.
pub struct TemplateContextView {
    pub entries: Seq<(Seq<char>, TemplateValueView)>,
}

impl View for TemplateContext {
    type V = TemplateContextView;

    open spec fn view(&self) -> TemplateContextView {
        TemplateContextView {
            entries: self.entries@.map_values(|entry: (String, TemplateValue)| (entry.0@, entry.1@)),
        }
    }
}

/// What rendering a template comes to: the text; or the position of the
/// first template that the engine refused to register, with its reason; or
/// the engine's reason for failing to render it.
pub enum TemplateOutcome {
    Rendered(Seq<char>),
    Unregistered(nat, Seq<char>),
    Failed(Seq<char>),
}

/// What `tera` makes of the templates (name and text) registered in order in
/// one engine, then the template `name` rendered with `context`; each name's
/// suffix decides its escaping, and the filters `powershell_base64_encode`
/// and `yaml_escape` are the library's encoders.
pub uninterp spec fn tera_rendered(
    templates: Seq<(Seq<char>, Seq<char>)>,
    name: Seq<char>,
    context: TemplateContextView,
) -> TemplateOutcome;

/// Whether `word` occurs in `text`.
pub open spec fn occurs_in(word: Seq<char>, text: Seq<char>) -> bool {
    exists|i: int| 0 <= i <= text.len() - word.len() && #[trigger] text.subrange(i, i + word.len()) == word
}

/// Whether a template names none of the engine's functions whose answers
/// depend on the time (`now`), on chance (`get_random`) or on the
/// environment (`get_env`). Only such a template renders the same way every
/// time.
pub open spec fn free_of_ambient_calls(template: Seq<char>) -> bool {
    &&& !occurs_in("now"@, template)
    &&& !occurs_in("get_random"@, template)
    &&& !occurs_in("get_env"@, template)
}

/// Whether none of the templates names the engine's time, random or
/// environment functions.
pub open spec fn all_free_of_ambient_calls(templates: Seq<(Seq<char>, Seq<char>)>) -> bool {
    forall|i: int| 0 <= i < templates.len() ==> free_of_ambient_calls(#[trigger] templates[i].1)
}

/// A template that the engine refused (by its position), or a rendering that
/// failed, with the engine's reason.
pub enum TemplateFailure {
    Registration(usize, String),
    Render(String),
}

/// What a rendering came to, as a template outcome.
pub open spec fn outcome_of(rendered: Result<String, TemplateFailure>) -> TemplateOutcome {
    match rendered {
        Ok(text) => TemplateOutcome::Rendered(text@),
        Err(TemplateFailure::Registration(index, reason)) => TemplateOutcome::Unregistered(
            index as nat,
            reason@,
        ),
        Err(TemplateFailure::Render(reason)) => TemplateOutcome::Failed(reason@),
    }
}

/// Declares `serde_json::Value`, the engine's value type, opaquely.
#[verifier::external_type_specification]
#[verifier::external_body]
pub struct ExJsonValue(serde_json::Value);

/// Declares `tera::Error` opaquely.
#[verifier::external_type_specification]
#[verifier::external_body]
pub struct ExTeraError(tera::Error);

/// Declares `tera::Context` opaquely.
#[verifier::external_type_specification]
#[verifier::external_body]
pub struct ExTeraContext(tera::Context);

/// The filter `powershell_base64_encode`: the engine's string value handed
/// to `powershell_base64_encode`; a value that is no string is refused.
#[verifier::external_body]
fn base64_filter(
    value: &serde_json::Value,
    _arguments: &std::collections::HashMap<String, serde_json::Value>,
) -> Result<serde_json::Value, tera::Error> {
    let text = value.as_str().ok_or_else(|| tera::Error::msg("expected string"))?;
    Ok(serde_json::Value::String(powershell_base64_encode(text)))
}

/// The filter `yaml_escape`: the engine's string value handed to
/// `yaml_escape`; a value that is no string, or that the YAML writer refuses,
/// is refused.
#[verifier::external_body]
fn yaml_filter(
    value: &serde_json::Value,
    _arguments: &std::collections::HashMap<String, serde_json::Value>,
) -> Result<serde_json::Value, tera::Error> {
    let text = value.as_str().ok_or_else(|| tera::Error::msg("expected string"))?;
    yaml_escape(text).map(serde_json::Value::String).map_err(tera::Error::msg)
}

/// A record field as the engine's value: a string or a list of strings.
#[verifier::external_body]
fn field_json(field: &TemplateField) -> serde_json::Value {
    match field {
        TemplateField::Text(text) => serde_json::Value::from(text.as_str()),
        TemplateField::Texts(items) => serde_json::Value::from(items.clone()),
        TemplateField::Number(number) => serde_json::Value::from(*number),
    }
}

/// A record as the engine's object value.
#[verifier::external_body]
fn record_json(record: &Vec<(String, TemplateField)>) -> serde_json::Value {
    serde_json::Value::Object(record.iter().map(|(name, field)| (name.clone(), field_json(field))).collect())
}

/// A context value as the engine's value, one for one.
#[verifier::external_body]
fn value_json(value: &TemplateValue) -> serde_json::Value {
    match value {
        TemplateValue::Nothing => serde_json::Value::Null,
        TemplateValue::Flag(flag) => serde_json::Value::Bool(*flag),
        TemplateValue::Number(number) => serde_json::Value::from(*number),
        TemplateValue::Text(text) => serde_json::Value::from(text.as_str()),
        TemplateValue::Record(record) => record_json(record),
        TemplateValue::Records(records) => serde_json::Value::Array(records.iter().map(record_json).collect()),
    }
}

/// The context as the engine's context: each value inserted under its name.
#[verifier::external_body]
fn tera_context(context: &TemplateContext) -> tera::Context {
    let mut converted = tera::Context::new();
    for (name, value) in context.entries.iter() {
        converted.insert(name.as_str(), &value_json(value));
    }
    converted
}

/// What `serde_json::to_string_pretty` writes for the JSON object whose
/// members are the context's values by name, or none where it reports an
/// error.
pub uninterp spec fn pretty_json(document: TemplateContextView) -> Option<Seq<char>>;

/// `serde_json::to_string_pretty` on the object whose members are the
/// context's values by name; the text is named by `pretty_json`.
#[verifier::external_body]
pub(crate) fn json_document(document: &TemplateContext) -> (json: Option<String>)
    ensures
        match json {
            Some(j) => pretty_json(document@) == Some(j@),
            None => pretty_json(document@) is None,
        },
{
    let members = document.entries.iter().map(|(name, value)| (name.clone(), value_json(value)));
    serde_json::to_string_pretty(&serde_json::Value::Object(members.collect())).ok()
}

/// The template texts by name, as character sequences.
pub open spec fn template_views(templates: Seq<(String, String)>) -> Seq<(Seq<char>, Seq<char>)> {
    templates.map_values(|t: (String, String)| (t.0@, t.1@))
}

/// What `tera` makes of registering the templates one after another in a
/// fresh engine: nothing when all are accepted, else the position of the
/// first refused one and the engine's reason.
pub uninterp spec fn tera_registration(templates: Seq<(Seq<char>, Seq<char>)>) -> Option<(nat, Seq<char>)>;

/// `Tera::add_raw_template` for each template in turn on one fresh engine,
/// stopping at the first that is refused: its position and the engine's
/// reason. Registering parses the texts, which depends on them alone.
#[verifier::external_body]
fn register_templates(templates: &Vec<(String, String)>) -> (failure: Option<(usize, String)>)
    ensures
        match failure {
            None => tera_registration(template_views(templates@)) is None,
            Some((index, reason)) => index < templates@.len() && tera_registration(
                template_views(templates@),
            ) == Some((index as nat, reason@)),
        },
{
    let mut engine = tera::Tera::default();
    for (index, (name, template)) in templates.iter().enumerate() {
        if let Err(error) = engine.add_raw_template(name, template) {
            return Some((index, error.to_string()));
        }
    }
    None
}

/// Whether `result` is what registering the templates came to: success, or
/// the registration error of the first refused template with the engine's
/// reason.
pub open spec fn registration_result(templates: Seq<(Seq<char>, Seq<char>)>, result: Result<(), Template>) -> bool {
    match (result, tera_registration(templates)) {
        (Ok(()), None) => true,
        (Err(Template::Registration { name, reason }), Some((index, r))) => index < templates.len()
            && name@ == templates[index as int].0 && reason@ == r,
        _ => false,
    }
}

/// Registers the templates by name, in order, as the engine would at start;
/// the first that the engine refuses is reported with its name.
pub fn register(templates: &Vec<(String, String)>) -> (result: Result<(), Template>)
    ensures
        registration_result(template_views(templates@), result),
{
    match register_templates(templates) {
        None => Ok(()),
        Some((index, reason)) => {
            let name = crate::text::owned(templates[index].0.as_str());
            Err(Template::Registration { name, reason })
        },
    }
}

/// `Tera::add_raw_template` for each template in turn, then `Tera::render`,
/// on one fresh engine with the two filters registered, as the engine that
/// holds all the templates would render `name` with the context. Where no
/// template names the engine's time, random or environment functions, the
/// outcome is named by `tera_rendered`; otherwise nothing is stated of it.
#[verifier::external_body]
fn render_template(templates: &Vec<(String, String)>, name: &str, context: &TemplateContext) -> (rendered:
    Result<String, TemplateFailure>)
    ensures
        rendered matches Err(TemplateFailure::Registration(index, _)) ==> index < templates@.len(),
        all_free_of_ambient_calls(template_views(templates@)) ==> outcome_of(rendered) == tera_rendered(
            template_views(templates@),
            name@,
            context@,
        ),
{
    let mut engine = tera::Tera::default();
    engine.register_filter("powershell_base64_encode", base64_filter);
    engine.register_filter("yaml_escape", yaml_filter);
    for (index, (template_name, text)) in templates.iter().enumerate() {
        if let Err(error) = engine.add_raw_template(template_name, text) {
            return Err(TemplateFailure::Registration(index, error.to_string()));
        }
    }
    engine.render(name, &tera_context(context)).map_err(|error| TemplateFailure::Render(error.to_string()))
}

/// Whether `result` is what rendering the template `name` came to: the text,
/// the registration error of the refused template, or the render error of
/// `name`, each with the engine's reason.
pub open spec fn rendering_result(
    templates: Seq<(Seq<char>, Seq<char>)>,
    name: Seq<char>,
    outcome: TemplateOutcome,
    result: Result<String, Template>,
) -> bool {
    match (result, outcome) {
        (Ok(text), TemplateOutcome::Rendered(r)) => text@ == r,
        (Err(Template::Registration { name: n, reason }), TemplateOutcome::Unregistered(index, r)) => index
            < templates.len() && n@ == templates[index as int].0 && reason@ == r,
        (Err(Template::Render { name: n, reason }), TemplateOutcome::Failed(r)) => n@ == name && reason@
            == r,
        _ => false,
    }
}

/// What the engine's outcome for the template `name` comes to: the text, a
/// registration error naming the refused template, or a render error naming
/// `name`, with the engine's reason.
pub fn template_result(
    templates: &Vec<(String, String)>,
    name: &str,
    rendered: Result<String, TemplateFailure>,
) -> (result: Result<String, Template>)
    requires
        rendered matches Err(TemplateFailure::Registration(index, _)) ==> index < templates@.len(),
    ensures
        rendering_result(template_views(templates@), name@, outcome_of(rendered), result),
{
    match rendered {
        Ok(text) => Ok(text),
        Err(TemplateFailure::Registration(index, reason)) => {
            let refused = crate::text::owned(templates[index].0.as_str());
            Err(Template::Registration { name: refused, reason })
        },
        Err(TemplateFailure::Render(reason)) => Err(Template::Render { name: crate::text::owned(name), reason }),
    }
}

/// Renders the template `name` with `context`, all the templates (name and
/// text) being registered in order first. Where no template names the
/// engine's time, random or environment functions, the result is what `tera`
/// makes of them; a render error names `name`, a registration error one of
/// the templates.
pub fn render(templates: &Vec<(String, String)>, name: &str, context: &TemplateContext) -> (result: Result<
    String,
    Template,
>)
    ensures
        all_free_of_ambient_calls(template_views(templates@)) ==> rendering_result(
            template_views(templates@),
            name@,
            tera_rendered(template_views(templates@), name@, context@),
            result,
        ),
        result matches Err(Template::Render { name: n, .. }) ==> n@ == name@,
        result matches Err(Template::Registration { name: n, .. }) ==> exists|i: int|
            0 <= i < templates@.len() && (#[trigger] templates@[i]).0@ == n@,
{
    let rendered = render_template(templates, name, context);
    let ghost outcome = outcome_of(rendered);
    let result = template_result(templates, name, rendered);
    proof {
        if let TemplateOutcome::Unregistered(index, _) = outcome {
            assert(template_views(templates@)[index as int].0 == templates@[index as int].0@);
        }
    }
    result
}

/// A context with nothing in it.
pub fn empty_context() -> (context: TemplateContext)
    ensures
        context@.entries == Seq::<(Seq<char>, TemplateValueView)>::empty(),
{
    let context = TemplateContext { entries: Vec::new() };
    assert(context@.entries =~= Seq::<(Seq<char>, TemplateValueView)>::empty());
    context
}

/// A text value.
pub fn text_value(text: &str) -> (value: TemplateValue)
    ensures
        value@ == TemplateValueView::Text(text@),
{
    TemplateValue::Text(crate::text::owned(text))
}

/// Adds `value` under `name` at the end of the context.
pub fn insert(context: &mut TemplateContext, name: &str, value: TemplateValue)
    ensures
        final(context)@.entries == old(context)@.entries.push((name@, value@)),
{
    context.entries.push((crate::text::owned(name), value));
    proof {
        assert(context@.entries =~= old(context)@.entries.push((name@, value@)));
    }
}

} // verus!
