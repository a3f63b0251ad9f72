use malina::errors::template::Template;
use malina::template::{
    empty_context, insert, powershell_base64_encode, render, text_value, utf16le_bytes, yaml_escape, TemplateContext,
    TemplateField, TemplateValue,
};

#[test]
fn utf16le_encoding() {
    assert_eq!(utf16le_bytes("Az"), vec![0x41, 0x00, 0x7a, 0x00]);
    assert_eq!(utf16le_bytes("é"), vec![0xe9, 0x00]);
    assert_eq!(utf16le_bytes("😀"), vec![0x3d, 0xd8, 0x00, 0xde]);
    let text = "Get-Process | Out-File C:\\p.txt — ok 😀";
    let expected: Vec<u8> = text.encode_utf16().flat_map(|u| u.to_le_bytes()).collect();
    assert_eq!(utf16le_bytes(text), expected);
}

#[test]
fn powershell_encoded_command() {
    assert_eq!(powershell_base64_encode("dir"), "ZABpAHIA");
    assert_eq!(powershell_base64_encode(""), "");
}

#[test]
fn yaml_scalars() {
    assert_eq!(yaml_escape("plain").ok(), Some("plain\n".to_owned()));
    let quoted = yaml_escape("a: b").ok().expect("written");
    assert_eq!(quoted, "'a: b'\n");
}

fn named(pairs: Vec<(&str, TemplateValue)>) -> TemplateContext {
    let mut context = empty_context();
    for (name, value) in pairs {
        insert(&mut context, name, value);
    }
    context
}

#[test]
fn template_renders_its_values() {
    let context = named(vec![("name", text_value("lab")), ("count", TemplateValue::Number(3)), ("on", TemplateValue::Flag(true))]);
    let rendered = render_one("greeting", "{{ name }}:{{ count }}{% if on %}!{% endif %}", &context);
    assert_eq!(rendered.ok(), Some("lab:3!".to_owned()));
}

#[test]
fn template_records_are_listed() {
    let users = TemplateValue::Records(vec![
        vec![("username".to_owned(), TemplateField::Text("a".to_owned()))],
        vec![("username".to_owned(), TemplateField::Text("b".to_owned()))],
    ]);
    let packages = TemplateValue::Record(vec![(
        "install".to_owned(),
        TemplateField::Texts(vec!["x".to_owned(), "y".to_owned()]),
    )]);
    let context = named(vec![("users", users), ("packages", packages), ("none", TemplateValue::Nothing)]);
    let template = "{% for u in users %}{{ u.username }};{% endfor %}{% for p in packages.install %}{{ p }}{% endfor %}{% if none %}N{% endif %}";
    assert_eq!(render_one("list", template, &context).ok(), Some("a;b;xy".to_owned()));
}

#[test]
fn template_filters_are_the_encoders() {
    let context = named(vec![("script", text_value("Write-Host hi")), ("scalar", text_value("a: b"))]);
    let rendered = render_one("filters", "{{ script | powershell_base64_encode }}|{{ scalar | yaml_escape }}", &context)
        .ok()
        .expect("renders");
    let expected = format!("{}|{}", powershell_base64_encode("Write-Host hi"), yaml_escape("a: b").ok().expect("yaml"));
    assert_eq!(rendered, expected);
}

#[test]
fn xml_templates_escape_their_values() {
    let context = named(vec![("name", text_value("a<b"))]);
    assert_eq!(render_one("machine.xml", "<n>{{ name }}</n>", &context).ok(), Some("<n>a&lt;b</n>".to_owned()));
    assert_eq!(render_one("plain", "{{ name }}", &context).ok(), Some("a<b".to_owned()));
}

#[test]
fn broken_template_is_not_registered() {
    match render_one("broken", "{{ name", &empty_context()) {
        Err(Template::Registration { name, reason }) => {
            assert_eq!(name, "broken");
            assert!(!reason.is_empty());
        }
        _ => panic!("expected a registration error"),
    }
}

#[test]
fn missing_value_fails_the_rendering() {
    match render_one("missing", "{{ absent }}", &empty_context()) {
        Err(Template::Render { name, .. }) => assert_eq!(name, "missing"),
        _ => panic!("expected a render error"),
    }
}

fn render_one(name: &str, template: &str, context: &TemplateContext) -> Result<String, Template> {
    render(&vec![(name.to_owned(), template.to_owned())], name, context)
}

#[test]
fn templates_extend_one_another() {
    let templates = vec![
        ("base.xml".to_owned(), "<d>{% block body %}{% endblock body %}</d>".to_owned()),
        ("child.xml".to_owned(), "{% extends \"base.xml\" %}{% block body %}{{ name }}{% endblock body %}".to_owned()),
        ("part".to_owned(), "[{{ name }}]".to_owned()),
        ("other".to_owned(), "{% include \"part\" %}!".to_owned()),
    ];
    let context = named(vec![("name", text_value("x"))]);
    assert_eq!(render(&templates, "child.xml", &context).ok(), Some("<d>x</d>".to_owned()));
    assert_eq!(render(&templates, "other", &context).ok(), Some("[x]!".to_owned()));
    match render(&templates, "absent", &context) {
        Err(Template::Render { name, .. }) => assert_eq!(name, "absent"),
        _ => panic!("expected a render error"),
    }
}

#[test]
fn the_refused_template_is_named() {
    let templates = vec![("good".to_owned(), "ok".to_owned()), ("bad".to_owned(), "{{".to_owned())];
    match render(&templates, "good", &empty_context()) {
        Err(Template::Registration { name, .. }) => assert_eq!(name, "bad"),
        _ => panic!("expected a registration error"),
    }
}
