//! Guest operating systems and the checks on their disk images.

use crate::errors::validation::{Validation, ValidationView, verdict};
use crate::laboratories::machines::packages::{Manager, all_managers, manager_name};
use crate::paths::{PathFacts, describes, inspect};
use crate::span::{Spanned, source_span, to_source_span};
use crate::text::{blank, format_quoted, is_blank, owned, quoted_list, views};
use vstd::prelude::*;

verus! {

/// Supported Debian releases.
#[derive(Debug, Clone, Copy, PartialEq, Eq, Structural)]
pub enum DebianVersion {
    Debian13,
}

/// Supported Fedora releases.
#[derive(Debug, Clone, Copy, PartialEq, Eq, Structural)]
pub enum FedoraVersion {
    Fedora43,
}

/// Supported Ubuntu releases.
#[derive(Debug, Clone, Copy, PartialEq, Eq, Structural)]
pub enum UbuntuVersion {
    Ubuntu2404,
}

/// Supported Windows releases.
#[derive(Debug, Clone, Copy, PartialEq, Eq, Structural)]
pub enum WindowsVersion {
    Windows10,
    Windows11,
}

/// Supported Linux distributions with their release.
#[derive(Debug, Clone, Copy, PartialEq, Eq, Structural)]
pub enum LinuxDistribution {
    Debian(DebianVersion),
    Fedora(FedoraVersion),
    Ubuntu(UbuntuVersion),
}

/// How a guest receives its first-boot configuration.
#[derive(Debug, Clone, Copy, PartialEq, Eq, Structural)]
pub enum Seeder {
    /// cloud-init, used by Linux guests.
    CloudInit,
    /// cloudbase-init, used by Windows guests.
    CloudbaseInit,
}

/// The guest operating system of a machine with its disk image.
#[derive(Debug, Clone)]
pub enum OperatingSystem {
    Linux { distribution: LinuxDistribution, image: Spanned<String> },
    Windows { version: WindowsVersion, image: Spanned<String> },
}

/// The family-or-distribution name of an operating system.
pub open spec fn os_name(os: OperatingSystem) -> Seq<char> {
    match os {
        OperatingSystem::Linux { distribution: LinuxDistribution::Debian(_), .. } => "debian"@,
        OperatingSystem::Linux { distribution: LinuxDistribution::Fedora(_), .. } => "fedora"@,
        OperatingSystem::Linux { distribution: LinuxDistribution::Ubuntu(_), .. } => "ubuntu"@,
        OperatingSystem::Windows { .. } => "windows"@,
    }
}

/// The disk image written for an operating system.
pub open spec fn os_image(os: OperatingSystem) -> Spanned<String> {
    match os {
        OperatingSystem::Linux { image, .. } => image,
        OperatingSystem::Windows { image, .. } => image,
    }
}

/// Whether an operating system is Windows.
pub open spec fn is_windows(os: OperatingSystem) -> bool {
    os is Windows
}

/// The package manager an operating system comes with.
pub open spec fn default_manager(os: OperatingSystem) -> Manager {
    match os {
        OperatingSystem::Linux { distribution: LinuxDistribution::Debian(_), .. } => Manager::Apt,
        OperatingSystem::Linux { distribution: LinuxDistribution::Fedora(_), .. } => Manager::Dnf,
        OperatingSystem::Linux { distribution: LinuxDistribution::Ubuntu(_), .. } => Manager::Apt,
        OperatingSystem::Windows { .. } => Manager::Winget,
    }
}

/// The package managers an operating system can use.
pub open spec fn supported_managers(os: OperatingSystem) -> Seq<Manager> {
    match os {
        OperatingSystem::Linux { distribution: LinuxDistribution::Debian(_), .. } => seq![
            Manager::Apt,
            Manager::Nix,
        ],
        OperatingSystem::Linux { distribution: LinuxDistribution::Fedora(_), .. } => seq![
            Manager::Dnf,
            Manager::Nix,
        ],
        OperatingSystem::Linux { distribution: LinuxDistribution::Ubuntu(_), .. } => seq![
            Manager::Apt,
            Manager::Nix,
        ],
        OperatingSystem::Windows { .. } => seq![Manager::Winget, Manager::Chocolatey],
    }
}

/// Each system's own package manager: apt for Debian and Ubuntu, dnf for
/// Fedora, winget for Windows.
pub proof fn lemma_own_package_managers(os: OperatingSystem)
    ensures
        os matches OperatingSystem::Linux { distribution: LinuxDistribution::Debian(_), .. }
            ==> default_manager(os) == Manager::Apt,
        os matches OperatingSystem::Linux { distribution: LinuxDistribution::Ubuntu(_), .. }
            ==> default_manager(os) == Manager::Apt,
        os matches OperatingSystem::Linux { distribution: LinuxDistribution::Fedora(_), .. }
            ==> default_manager(os) == Manager::Dnf,
        os is Windows ==> default_manager(os) == Manager::Winget,
{
}

/// A system can always use the package manager it comes with.
pub proof fn lemma_own_manager_supported(os: OperatingSystem)
    ensures
        supported_managers(os).contains(default_manager(os)),
{
    assert(supported_managers(os)[0] == default_manager(os));
}

/// The list shown to users of the package managers an operating system can use.
pub open spec fn compatible_display(os: OperatingSystem) -> Seq<char> {
    quoted_list(
        all_managers().filter(|m: Manager| supported_managers(os).contains(m)).map_values(
            |m: Manager| manager_name(m),
        ),
    )
}

/// The first problem with an operating system's image, given what is known of
/// its path: blank, no extension, an unsupported extension, missing, not a
/// regular file.
pub open spec fn image_verdict(
    os: OperatingSystem,
    machine_identifier: Seq<char>,
    facts: PathFacts,
    extensions: Seq<Seq<char>>,
) -> Option<ValidationView> {
    let image = os_image(os);
    if blank(image.value@) {
        Some(ValidationView::EmptyImagePath { span: source_span(image.span), machine_identifier })
    } else if facts.extension is None {
        Some(ValidationView::InvalidImageExtension {
            span: source_span(image.span),
            machine_identifier,
            actual: "(no extension)"@,
            supported: quoted_list(extensions),
        })
    } else if !extensions.contains(facts.extension->0@) {
        Some(ValidationView::InvalidImageExtension {
            span: source_span(image.span),
            machine_identifier,
            actual: facts.extension->0@,
            supported: quoted_list(extensions),
        })
    } else if !facts.exists {
        Some(ValidationView::ImageNotFound {
            span: source_span(image.span),
            machine_identifier,
            path: facts.resolved@,
        })
    } else if !facts.is_file {
        Some(ValidationView::ImageIsNotAFile {
            span: source_span(image.span),
            machine_identifier,
            path: facts.resolved@,
        })
    } else {
        None
    }
}

/// Whether one of `items` holds the text `item`.
fn text_listed(items: &Vec<&'static str>, item: &str) -> (found: bool)
    ensures
        found == views(items@).contains(item@),
{
    let mut i: usize = 0;
    while i < items.len()
        invariant
            i <= items.len(),
            forall|j: int| 0 <= j < i ==> views(items@)[j] != item@,
        decreases items.len() - i,
    {
        if crate::text::same_text(items[i], item) {
            assert(views(items@)[i as int] == item@);
            return true;
        }
        i = i + 1;
    }
    false
}

impl OperatingSystem {
    /// The family-or-distribution name.
    pub fn name(&self) -> (name: &'static str)
        ensures
            name@ == os_name(*self),
    {
        match self {
            OperatingSystem::Linux { distribution: LinuxDistribution::Debian(_), .. } => "debian",
            OperatingSystem::Linux { distribution: LinuxDistribution::Fedora(_), .. } => "fedora",
            OperatingSystem::Linux { distribution: LinuxDistribution::Ubuntu(_), .. } => "ubuntu",
            OperatingSystem::Windows { .. } => "windows",
        }
    }

    /// How the guest receives its first-boot configuration.
    pub fn seeder(&self) -> (seeder: Seeder)
        ensures
            seeder == (if is_windows(*self) {
                Seeder::CloudbaseInit
            } else {
                Seeder::CloudInit
            }),
    {
        match self {
            OperatingSystem::Linux { .. } => Seeder::CloudInit,
            OperatingSystem::Windows { .. } => Seeder::CloudbaseInit,
        }
    }

    /// The disk image path as written.
    pub fn image_path(&self) -> (path: &str)
        ensures
            path@ == os_image(*self).value@,
    {
        match self {
            OperatingSystem::Linux { image, .. } => image.value.as_str(),
            OperatingSystem::Windows { image, .. } => image.value.as_str(),
        }
    }

    /// The name of the package manager the system comes with.
    pub fn default_package_manager(&self) -> (manager: Option<&'static str>)
        ensures
            manager matches Some(name) && name@ == manager_name(default_manager(*self)),
    {
        match self {
            OperatingSystem::Linux { distribution: LinuxDistribution::Debian(_), .. } => Some("apt"),
            OperatingSystem::Linux { distribution: LinuxDistribution::Fedora(_), .. } => Some("dnf"),
            OperatingSystem::Linux { distribution: LinuxDistribution::Ubuntu(_), .. } => Some("apt"),
            OperatingSystem::Windows { .. } => Some("winget"),
        }
    }

    /// The names of the package managers the system can use.
    pub fn supported_package_managers(&self) -> (managers: Vec<&'static str>)
        ensures
            views(managers@) == supported_managers(*self).map_values(|m: Manager| manager_name(m)),
            views(managers@).contains(manager_name(default_manager(*self))),
    {
        let mut managers = Vec::new();
        match self {
            OperatingSystem::Linux { distribution: LinuxDistribution::Debian(_), .. } => {
                managers.push("apt");
                managers.push("nix");
            },
            OperatingSystem::Linux { distribution: LinuxDistribution::Fedora(_), .. } => {
                managers.push("dnf");
                managers.push("nix");
            },
            OperatingSystem::Linux { distribution: LinuxDistribution::Ubuntu(_), .. } => {
                managers.push("apt");
                managers.push("nix");
            },
            OperatingSystem::Windows { .. } => {
                managers.push("winget");
                managers.push("chocolatey");
            },
        }
        assert(views(managers@) =~= supported_managers(*self).map_values(|m: Manager| manager_name(m)));
        proof {
            lemma_own_manager_supported(*self);
            assert(views(managers@)[0] == manager_name(default_manager(*self)));
        }
        managers
    }

    /// Whether the system can use `package_manager`.
    pub fn supports_package_manager(&self, package_manager: Manager) -> (supported: bool)
        ensures
            supported == supported_managers(*self).contains(package_manager),
    {
        let names = self.supported_package_managers();
        let found = text_listed(&names, package_manager.as_str());
        proof {
            let name_of = |m: Manager| manager_name(m);
            reveal_strlit("apt");
            reveal_strlit("dnf");
            reveal_strlit("nix");
            reveal_strlit("winget");
            reveal_strlit("chocolatey");
            let listed = supported_managers(*self).map_values(name_of);
            if supported_managers(*self).contains(package_manager) {
                let k = choose|k: int| 0 <= k < supported_managers(*self).len() && supported_managers(*self)[k] == package_manager;
                assert(listed[k] == manager_name(package_manager));
            }
            if listed.contains(manager_name(package_manager)) {
                let k = choose|k: int| 0 <= k < listed.len() && listed[k] == manager_name(package_manager);
                crate::laboratories::machines::packages::lemma_manager_name_injective(
                    supported_managers(*self)[k],
                    package_manager,
                );
            }
        }
        found
    }

    /// The list shown to users of the package managers the system can use.
    pub fn compatible_package_managers_display(&self) -> (display: String)
        ensures
            display@ == compatible_display(*self),
    {
        let all = Manager::all();
        let mut names: Vec<&'static str> = Vec::new();
        let ghost keep = |m: Manager| supported_managers(*self).contains(m);
        let ghost name_of = |m: Manager| manager_name(m);
        let mut i: usize = 0;
        while i < all.len()
            invariant
                all@ == all_managers(),
                i <= all.len(),
                keep == (|m: Manager| supported_managers(*self).contains(m)),
                name_of == (|m: Manager| manager_name(m)),
                views(names@) == all@.take(i as int).filter(keep).map_values(name_of),
            decreases all.len() - i,
        {
            let manager = all[i];
            proof {
                assert(all@.take(i + 1).drop_last() =~= all@.take(i as int));
            }
            if self.supports_package_manager(manager) {
                let ghost before = names@;
                let name = manager.as_str();
                names.push(name);
                proof {
                    let kept = all@.take(i as int).filter(keep);
                    assert(all@.take(i + 1).filter(keep) =~= kept.push(manager)) by {
                        reveal(Seq::filter);
                    }
                    assert(names@ =~= before.push(name));
                    assert(views(names@) =~= views(before).push(name@));
                    assert(kept.push(manager).map_values(name_of) =~= kept.map_values(name_of).push(
                        manager_name(manager),
                    ));
                }
            } else {
                proof {
                    assert(all@.take(i + 1).filter(keep) =~= all@.take(i as int).filter(keep)) by {
                        reveal(Seq::filter);
                    }
                }
            }
            i = i + 1;
        }
        assert(all@.take(all.len() as int) =~= all@);
        format_quoted(names.as_slice())
    }

    /// Checks the disk image given what is known of its path.
    pub fn check_image(
        &self,
        machine_identifier: &str,
        facts: &PathFacts,
        supported_image_extensions: &Vec<&'static str>,
    ) -> (outcome: Result<(), Validation>)
        ensures
            verdict(outcome) == image_verdict(
                *self,
                machine_identifier@,
                *facts,
                views(supported_image_extensions@),
            ),
    {
        let image = match self {
            OperatingSystem::Linux { image, .. } => image,
            OperatingSystem::Windows { image, .. } => image,
        };
        if is_blank(image.value.as_str()) {
            return Err(
                Validation::EmptyImagePath {
                    span: to_source_span(image.span),
                    machine_identifier: owned(machine_identifier),
                },
            );
        }
        let extension = match &facts.extension {
            Some(extension) => extension,
            None => {
                return Err(
                    Validation::InvalidImageExtension {
                        span: to_source_span(image.span),
                        machine_identifier: owned(machine_identifier),
                        actual: owned("(no extension)"),
                        supported: format_quoted(supported_image_extensions.as_slice()),
                    },
                );
            },
        };
        if !text_listed(supported_image_extensions, extension.as_str()) {
            return Err(
                Validation::InvalidImageExtension {
                    span: to_source_span(image.span),
                    machine_identifier: owned(machine_identifier),
                    actual: owned(extension.as_str()),
                    supported: format_quoted(supported_image_extensions.as_slice()),
                },
            );
        }
        if !facts.exists {
            return Err(
                Validation::ImageNotFound {
                    span: to_source_span(image.span),
                    machine_identifier: owned(machine_identifier),
                    path: owned(facts.resolved.as_str()),
                },
            );
        }
        if !facts.is_file {
            return Err(
                Validation::ImageIsNotAFile {
                    span: to_source_span(image.span),
                    machine_identifier: owned(machine_identifier),
                    path: owned(facts.resolved.as_str()),
                },
            );
        }
        Ok(())
    }

    /// Checks the disk image: it must be named, carry a supported extension,
    /// and be a regular file, a relative path being taken from `parent`.
    pub fn validate(
        &self,
        machine_identifier: &str,
        parent: &str,
        supported_image_extensions: &Vec<&'static str>,
    ) -> (outcome: Result<(), Validation>)
        ensures
            exists|facts: PathFacts|
                describes(parent@, os_image(*self).value@, facts) && verdict(outcome)
                    == #[trigger] image_verdict(
                    *self,
                    machine_identifier@,
                    facts,
                    views(supported_image_extensions@),
                ),
    {
        let facts = inspect(parent, self.image_path());
        self.check_image(machine_identifier, &facts, supported_image_extensions)
    }
}

} // verus!
