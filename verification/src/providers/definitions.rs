//! The libvirt definitions of a machine and of its configuration drive,
//! rendered from their templates.

use crate::errors::provider::Provider;
use crate::laboratories::laboratory::Laboratory;
use crate::laboratories::machines::machine::Machine;
use crate::laboratories::machines::operating_system::is_windows;
use crate::providers::libvirt::{laboratory_network_name, network_for};
use crate::template::{
    TemplateContext, TemplateContextView, TemplateValue, TemplateValueView, empty_context,
    all_free_of_ambient_calls, insert, render, rendering_result, template_views, tera_rendered, text_value,
};
use vstd::prelude::*;

verus! {

/// The template name of a machine's domain definition.
pub const MACHINE_TEMPLATE: &'static str = "libvirt/kvm/machine.xml";

/// The template name of a configuration drive's device definition.
pub const DRIVE_TEMPLATE: &'static str = "libvirt/kvm/configuration-drive.xml";

/// The domain context of a machine: its identifier, its name, its memory in
/// megabytes and CPUs, its disk image, the network it joins, and whether it
/// runs Windows.
pub open spec fn domain_view(laboratory: Laboratory, machine: Machine, image: Seq<char>) -> TemplateContextView {
    TemplateContextView {
        entries: seq![
            ("identifier"@, TemplateValueView::Text(machine.identifier.value@)),
            ("name"@, TemplateValueView::Text(machine.name@)),
            ("memory"@, TemplateValueView::Number(machine.hardware.memory_megabyte.value as u64)),
            ("cpus"@, TemplateValueView::Number(machine.hardware.cpus.value as u64)),
            ("image"@, TemplateValueView::Text(image)),
            ("network_name"@, TemplateValueView::Text(network_for(laboratory))),
            ("is_windows"@, TemplateValueView::Flag(is_windows(machine.operating_system))),
        ],
    }
}

/// The drive context: the path of the drive's image.
pub open spec fn drive_view(path: Seq<char>) -> TemplateContextView {
    TemplateContextView { entries: seq![("path"@, TemplateValueView::Text(path))] }
}

/// The domain context of a machine of `laboratory` whose disk image is
/// `image`.
pub fn domain_context(laboratory: &Laboratory, machine: &Machine, image: &str) -> (context: TemplateContext)
    ensures
        context@ == domain_view(*laboratory, *machine, image@),
{
    let windows = match &machine.operating_system {
        crate::laboratories::machines::operating_system::OperatingSystem::Windows { .. } => true,
        _ => false,
    };
    let mut context = empty_context();
    insert(&mut context, "identifier", text_value(machine.identifier.value.as_str()));
    insert(&mut context, "name", text_value(machine.name.as_str()));
    insert(&mut context, "memory", TemplateValue::Number(machine.hardware.memory_megabyte.value as u64));
    insert(&mut context, "cpus", TemplateValue::Number(machine.hardware.cpus.value as u64));
    insert(&mut context, "image", text_value(image));
    let network = laboratory_network_name(laboratory);
    insert(&mut context, "network_name", text_value(network.as_str()));
    insert(&mut context, "is_windows", TemplateValue::Flag(windows));
    proof {
        assert(context@.entries =~= domain_view(*laboratory, *machine, image@).entries);
    }
    context
}

/// The drive context of the drive image at `path`.
pub fn drive_context(path: &str) -> (context: TemplateContext)
    ensures
        context@ == drive_view(path@),
{
    let mut context = empty_context();
    insert(&mut context, "path", text_value(path));
    proof {
        assert(context@.entries =~= drive_view(path@).entries);
    }
    context
}

/// Whether `result` is what the definition rendered from the template
/// `name` with `context` comes to, the templates being registered in order,
/// where it can be said: the text, or the engine's error as a template error.
pub open spec fn definition_result(
    templates: Seq<(Seq<char>, Seq<char>)>,
    name: Seq<char>,
    context: TemplateContextView,
    result: Result<String, Provider>,
) -> bool {
    &&& result matches Err(e) ==> e is Template
    &&& all_free_of_ambient_calls(templates) ==> match result {
        Ok(text) => rendering_result(templates, name, tera_rendered(templates, name, context), Ok(text)),
        Err(Provider::Template { source }) => rendering_result(
            templates,
            name,
            tera_rendered(templates, name, context),
            Err(source),
        ),
        Err(_) => false,
    }
}

/// A rendering's result as a provider result.
fn provider_definition(result: Result<String, crate::errors::template::Template>) -> (definition: Result<
    String,
    Provider,
>)
    ensures
        match (result, definition) {
            (Ok(a), Ok(b)) => a == b,
            (Err(a), Err(Provider::Template { source })) => a == source,
            _ => false,
        },
{
    match result {
        Ok(text) => Ok(text),
        Err(source) => Err(Provider::Template { source }),
    }
}

/// Renders the domain definition of a machine of `laboratory` whose disk
/// image is `image`, from the provider's templates.
pub fn render_domain_xml(
    templates: &Vec<(String, String)>,
    laboratory: &Laboratory,
    machine: &Machine,
    image: &str,
) -> (xml: Result<String, Provider>)
    ensures
        definition_result(
            template_views(templates@),
            MACHINE_TEMPLATE@,
            domain_view(*laboratory, *machine, image@),
            xml,
        ),
{
    let context = domain_context(laboratory, machine, image);
    provider_definition(render(templates, MACHINE_TEMPLATE, &context))
}

/// Renders the device definition of the drive image at `path`, from the
/// provider's templates.
pub fn render_drive_xml(templates: &Vec<(String, String)>, path: &str) -> (xml: Result<String, Provider>)
    ensures
        definition_result(template_views(templates@), DRIVE_TEMPLATE@, drive_view(path@), xml),
{
    let context = drive_context(path);
    provider_definition(render(templates, DRIVE_TEMPLATE, &context))
}

} // verus!
