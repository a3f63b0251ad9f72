//! The three documents of a Windows guest's configuration drive, rendered
//! from their templates: the meta data (identifier and host name), the
//! cloudbase-init configuration, and the user data (accounts, packages and
//! whether scripts follow).

use crate::errors::seeders::Seeders;
use crate::laboratories::machines::machine::Machine;
use crate::laboratories::machines::user::User;
use crate::seeders::cloudbase_init::{CloudbaseInit, PackagesContext, SeedScript, packages_outcome};
use crate::sequences::texts;
use crate::template::{
    TemplateContext, TemplateContextView, TemplateField, TemplateFieldView, TemplateValue,
    TemplateValueView, all_free_of_ambient_calls, empty_context, insert, render, rendering_result,
    template_views, tera_rendered, text_value,
};
use crate::text::owned;
use vstd::prelude::*;

verus! {

/// The template name of the meta data.
pub const META_DATA_TEMPLATE: &'static str = "cloudbase-init/meta-data";

/// The template name of the cloudbase-init configuration.
pub const CONFIGURATION_TEMPLATE: &'static str = "cloudbase-init/cloudbase-init.conf";

/// The template name of the user data.
pub const USER_DATA_TEMPLATE: &'static str = "cloudbase-init/user-data";

/// The meta-data context: the machine's identifier and its name as host name.
pub open spec fn meta_data_view(machine: Machine) -> TemplateContextView {
    TemplateContextView {
        entries: seq![
            ("identifier"@, TemplateValueView::Text(machine.identifier.value@)),
            ("hostname"@, TemplateValueView::Text(machine.name@)),
        ],
    }
}

/// The record of an account: its user name and password.
pub open spec fn user_record(user: User) -> Seq<(Seq<char>, TemplateFieldView)> {
    seq![
        ("username"@, TemplateFieldView::Text(user.username.value@)),
        ("password"@, TemplateFieldView::Text(user.password.value@)),
    ]
}

/// The packages value: nothing without a package section, otherwise the
/// setup command where there is one and the install lines.
pub open spec fn packages_view(packages: Option<PackagesContext>) -> TemplateValueView {
    match packages {
        None => TemplateValueView::Nothing,
        Some(c) => {
            let install = ("install"@, TemplateFieldView::Texts(texts(c.install@)));
            TemplateValueView::Record(
                match c.setup {
                    Some(s) => seq![("setup"@, TemplateFieldView::Text(s@)), install],
                    None => seq![install],
                },
            )
        },
    }
}

/// The user-data context: the accounts in order, the packages, and whether
/// scripts follow.
pub open spec fn user_data_view(
    machine: Machine,
    has_scripts: bool,
    packages: Option<PackagesContext>,
) -> TemplateContextView {
    TemplateContextView {
        entries: seq![
            (
                "users"@,
                TemplateValueView::Records(machine.users.value@.map_values(|u: User| user_record(u))),
            ),
            ("packages"@, packages_view(packages)),
            ("has_scripts"@, TemplateValueView::Flag(has_scripts)),
        ],
    }
}

/// The meta-data context of a machine.
pub fn meta_data_context(machine: &Machine) -> (context: TemplateContext)
    ensures
        context@ == meta_data_view(*machine),
{
    let mut context = empty_context();
    insert(&mut context, "identifier", text_value(machine.identifier.value.as_str()));
    insert(&mut context, "hostname", text_value(machine.name.as_str()));
    proof {
        assert(context@.entries =~= meta_data_view(*machine).entries);
    }
    context
}

/// Copies a list of strings.
fn copy_texts(items: &Vec<String>) -> (copy: Vec<String>)
    ensures
        texts(copy@) == texts(items@),
{
    let mut copy: Vec<String> = Vec::new();
    let mut i: usize = 0;
    while i < items.len()
        invariant
            i <= items.len(),
            copy@.len() == i,
            forall|j: int| 0 <= j < i ==> (#[trigger] copy@[j])@ == items@[j]@,
        decreases items.len() - i,
    {
        copy.push(owned(items[i].as_str()));
        i = i + 1;
    }
    assert(texts(copy@) =~= texts(items@));
    copy
}

/// The record of one account.
fn account_record(user: &User) -> (record: Vec<(String, TemplateField)>)
    ensures
        crate::template::record_view(record@) == user_record(*user),
{
    let record = vec![
        (owned("username"), TemplateField::Text(owned(user.username.value.as_str()))),
        (owned("password"), TemplateField::Text(owned(user.password.value.as_str()))),
    ];
    proof {
        assert(crate::template::record_view(record@) =~= user_record(*user));
    }
    record
}

/// The packages value of a package context.
pub fn packages_value(packages: &Option<PackagesContext>) -> (value: TemplateValue)
    ensures
        value@ == packages_view(*packages),
{
    match packages {
        None => TemplateValue::Nothing,
        Some(c) => {
            let mut record: Vec<(String, TemplateField)> = Vec::new();
            if let Some(setup) = &c.setup {
                record.push((owned("setup"), TemplateField::Text(owned(setup.as_str()))));
            }
            record.push((owned("install"), TemplateField::Texts(copy_texts(&c.install))));
            proof {
                assert(crate::template::record_view(record@) =~= match packages_view(*packages) {
                    TemplateValueView::Record(expected) => expected,
                    _ => Seq::empty(),
                });
            }
            let value = TemplateValue::Record(record);
            value
        },
    }
}

/// The user-data context of a machine: its accounts, its packages and
/// whether any script follows.
pub fn user_data_context(
    machine: &Machine,
    scripts: &Vec<SeedScript>,
    packages: &Option<PackagesContext>,
) -> (context: TemplateContext)
    ensures
        context@ == user_data_view(*machine, scripts@.len() > 0, *packages),
{
    let users = &machine.users.value;
    let mut records: Vec<Vec<(String, TemplateField)>> = Vec::new();
    let mut i: usize = 0;
    while i < users.len()
        invariant
            i <= users.len(),
            records@.len() == i,
            forall|j: int|
                0 <= j < i ==> crate::template::record_view(#[trigger] records@[j]@) == user_record(
                    users@[j],
                ),
        decreases users.len() - i,
    {
        records.push(account_record(&users[i]));
        i = i + 1;
    }
    let mut context = empty_context();
    proof {
        assert(records@.map_values(|r: Vec<(String, TemplateField)>| crate::template::record_view(r@))
            =~= users@.map_values(|u: User| user_record(u)));
    }
    let users_value = TemplateValue::Records(records);
    insert(&mut context, "users", users_value);
    insert(&mut context, "packages", packages_value(packages));
    insert(&mut context, "has_scripts", TemplateValue::Flag(scripts.len() > 0));
    proof {
        assert(context@.entries =~= user_data_view(*machine, scripts@.len() > 0, *packages).entries);
    }
    context
}

/// Whether `result` is what the seed document rendered from the template
/// `name` with `context` comes to, the templates being registered in order,
/// where it can be said: the text, or the engine's error as a template error.
pub open spec fn document_result(
    templates: Seq<(Seq<char>, Seq<char>)>,
    name: Seq<char>,
    context: TemplateContextView,
    result: Result<String, Seeders>,
) -> bool {
    &&& result matches Err(e) ==> e is Template
    &&& all_free_of_ambient_calls(templates) ==> match result {
        Ok(text) => rendering_result(templates, name, tera_rendered(templates, name, context), Ok(text)),
        Err(Seeders::Template { source }) => rendering_result(
            templates,
            name,
            tera_rendered(templates, name, context),
            Err(source),
        ),
        Err(_) => false,
    }
}

/// A rendering's result as a seed-document result.
fn seed_document(result: Result<String, crate::errors::template::Template>) -> (document: Result<
    String,
    Seeders,
>)
    ensures
        match (result, document) {
            (Ok(a), Ok(b)) => a == b,
            (Err(a), Err(Seeders::Template { source })) => a == source,
            _ => false,
        },
{
    match result {
        Ok(text) => Ok(text),
        Err(source) => Err(Seeders::Template { source }),
    }
}

impl CloudbaseInit {
    /// Renders the meta data of a machine.
    pub fn render_meta_data(&self, templates: &Vec<(String, String)>, machine: &Machine) -> (document: Result<
        String,
        Seeders,
    >)
        ensures
            document_result(template_views(templates@), META_DATA_TEMPLATE@, meta_data_view(*machine), document),
    {
        let context = meta_data_context(machine);
        seed_document(render(templates, META_DATA_TEMPLATE, &context))
    }

    /// Renders the cloudbase-init configuration, which takes no values.
    pub fn render_configuration(&self, templates: &Vec<(String, String)>) -> (document: Result<String, Seeders>)
        ensures
            document_result(
                template_views(templates@),
                CONFIGURATION_TEMPLATE@,
                TemplateContextView { entries: Seq::empty() },
                document,
            ),
    {
        let context = empty_context();
        proof {
            assert(context@ == TemplateContextView { entries: Seq::empty() });
        }
        seed_document(render(templates, CONFIGURATION_TEMPLATE, &context))
    }

    /// Renders the user data of a machine whose scripts are `scripts`: the
    /// package context is built first, and its error stops the rendering.
    pub fn render_user_data(
        &self,
        templates: &Vec<(String, String)>,
        machine: &Machine,
        scripts: &Vec<SeedScript>,
    ) -> (document: Result<String, Seeders>)
        ensures
            exists|packages: Result<Option<PackagesContext>, Seeders>|
                #[trigger] packages_outcome(*machine, packages) && match packages {
                    Err(e) => document == Err::<String, Seeders>(e),
                    Ok(p) => document_result(
                        template_views(templates@),
                        USER_DATA_TEMPLATE@,
                        user_data_view(*machine, scripts@.len() > 0, p),
                        document,
                    ),
                },
    {
        let outcome = self.packages_context(machine);
        let ghost read = outcome;
        let packages = match outcome {
            Ok(packages) => packages,
            Err(e) => {
                assert(packages_outcome(*machine, read));
                return Err(e);
            },
        };
        let context = user_data_context(machine, scripts, &packages);
        let document = seed_document(render(templates, USER_DATA_TEMPLATE, &context));
        assert(packages_outcome(*machine, read));
        document
    }
}

} // verus!
