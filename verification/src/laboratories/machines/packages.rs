//! Packages to install on a machine, and the package managers that install them.

use crate::errors::validation::{Validation, ValidationView, verdict};
use crate::laboratories::machines::operating_system::{
    OperatingSystem, compatible_display, default_manager, lemma_own_manager_supported, os_name, supported_managers,
};
use crate::sequences::{first_some, lemma_first_some_at, lemma_first_some_none};
use crate::span::{Spanned, source_span, to_source_span};
use crate::text::{blank, is_blank, owned, starts_with_char};
use vstd::prelude::*;

verus! {

/// A package manager a machine can use.
#[derive(Debug, Clone, Copy, PartialEq, Eq, Structural)]
pub enum Manager {
    Apt,
    Dnf,
    Nix,
    Winget,
    Chocolatey,
    Pacman,
}

/// The configuration word of a package manager.
pub open spec fn manager_name(manager: Manager) -> Seq<char> {
    match manager {
        Manager::Apt => "apt"@,
        Manager::Dnf => "dnf"@,
        Manager::Nix => "nix"@,
        Manager::Winget => "winget"@,
        Manager::Chocolatey => "chocolatey"@,
        Manager::Pacman => "pacman"@,
    }
}

/// Different package managers have different names.
pub proof fn lemma_manager_name_injective(a: Manager, b: Manager)
    requires
        manager_name(a) == manager_name(b),
    ensures
        a == b,
{
    reveal_strlit("apt");
    reveal_strlit("dnf");
    reveal_strlit("nix");
    reveal_strlit("winget");
    reveal_strlit("chocolatey");
    reveal_strlit("pacman");
    assert("apt"@.len() == 3 && "apt"@[0] == 'a');
    assert("dnf"@.len() == 3 && "dnf"@[0] == 'd');
    assert("nix"@.len() == 3 && "nix"@[0] == 'n');
    assert("winget"@.len() == 6 && "winget"@[0] == 'w');
    assert("pacman"@.len() == 6 && "pacman"@[0] == 'p');
    assert("chocolatey"@.len() == 10);
    if a != b {
        assert(manager_name(a).len() != manager_name(b).len() || manager_name(a)[0] != manager_name(b)[0]);
    }
}

/// Every package manager, in the order they are listed to users.
pub open spec fn all_managers() -> Seq<Manager> {
    seq![Manager::Apt, Manager::Dnf, Manager::Nix, Manager::Winget, Manager::Chocolatey, Manager::Pacman]
}

impl Manager {
    /// The configuration word of the package manager.
    pub fn as_str(&self) -> (name: &'static str)
        ensures
            name@ == manager_name(*self),
    {
        match self {
            Manager::Apt => "apt",
            Manager::Dnf => "dnf",
            Manager::Nix => "nix",
            Manager::Winget => "winget",
            Manager::Chocolatey => "chocolatey",
            Manager::Pacman => "pacman",
        }
    }

    /// Every package manager, in the order they are listed to users.
    pub fn all() -> (managers: Vec<Manager>)
        ensures
            managers@ == all_managers(),
    {
        let managers = vec![
            Manager::Apt,
            Manager::Dnf,
            Manager::Nix,
            Manager::Winget,
            Manager::Chocolatey,
            Manager::Pacman,
        ];
        assert(managers@ =~= all_managers());
        managers
    }
}

/// The package section of a machine.
#[derive(Debug, Clone)]
pub struct Packages {
    pub manager: Spanned<Manager>,
    pub install: Spanned<Vec<Spanned<String>>>,
}

/// The problem with the `i`-th package name, if any: blank, or starting with
/// a hyphen (which a package manager would read as an option).
pub open spec fn package_step(packages: Packages, machine_identifier: Seq<char>, i: int) -> Option<
    ValidationView,
> {
    let package = packages.install.value@[i];
    if blank(package.value@) {
        Some(ValidationView::EmptyPackageName { span: source_span(package.span), machine_identifier })
    } else if package.value@.len() > 0 && package.value@[0] == '-' {
        Some(ValidationView::InvalidPackageName {
            span: source_span(package.span),
            machine_identifier,
            package: package.value@,
        })
    } else {
        None
    }
}

/// The first problem with a package section: an empty list, then the first
/// bad package name, then a manager that does not serve the operating system.
pub open spec fn packages_verdict(
    packages: Packages,
    operating_system: OperatingSystem,
    machine_identifier: Seq<char>,
) -> Option<ValidationView> {
    let n = packages.install.value@.len();
    if n == 0 {
        Some(ValidationView::EmptyPackageName {
            span: source_span(packages.install.span),
            machine_identifier,
        })
    } else if first_some(Seq::new(n, |i: int| package_step(packages, machine_identifier, i)))
        is Some {
        first_some(Seq::new(n, |i: int| package_step(packages, machine_identifier, i)))
    } else if !supported_managers(operating_system).contains(packages.manager.value) {
        Some(ValidationView::IncompatibleManager {
            span: source_span(packages.manager.span),
            machine_identifier,
            manager: manager_name(packages.manager.value),
            distribution: os_name(operating_system),
            compatible_managers: compatible_display(operating_system),
        })
    } else {
        None
    }
}

impl Packages {
    /// Checks the package list and the manager against the operating system.
    pub fn validate(&self, operating_system: &OperatingSystem, machine_identifier: &str) -> (outcome:
        Result<(), Validation>)
        ensures
            verdict(outcome) == packages_verdict(*self, *operating_system, machine_identifier@),
            self.install.value@.len() > 0 && (forall|i: int|
                0 <= i < self.install.value@.len() ==> !blank((#[trigger] self.install.value@[i]).value@)
                    && !(self.install.value@[i].value@.len() > 0 && self.install.value@[i].value@[0]
                    == '-')) && self.manager.value == default_manager(*operating_system) ==> outcome is Ok,
    {
        proof {
            lemma_own_manager_supported(*operating_system);
            let n = self.install.value@.len();
            let steps = Seq::new(n as nat, |i: int| package_step(*self, machine_identifier@, i));
            if forall|i: int|
                0 <= i < n ==> !blank((#[trigger] self.install.value@[i]).value@) && !(
                self.install.value@[i].value@.len() > 0 && self.install.value@[i].value@[0] == '-') {
                assert forall|j: int| 0 <= j < steps.len() implies steps[j] is None by {
                    assert(!blank(self.install.value@[j].value@));
                }
                lemma_first_some_none(steps);
            }
        }
        let n = self.install.value.len();
        if n == 0 {
            return Err(
                Validation::EmptyPackageName {
                    span: to_source_span(self.install.span),
                    machine_identifier: owned(machine_identifier),
                },
            );
        }
        let ghost steps = Seq::new(
            n as nat,
            |i: int| package_step(*self, machine_identifier@, i),
        );
        let mut i: usize = 0;
        while i < n
            invariant
                n == self.install.value@.len(),
                steps == Seq::new(n as nat, |i: int| package_step(*self, machine_identifier@, i)),
                i <= n,
                forall|j: int| 0 <= j < i ==> steps[j] is None,
            decreases n - i,
        {
            let package = &self.install.value[i];
            if is_blank(package.value.as_str()) {
                proof {
                    lemma_first_some_at(steps, i as int);
                }
                return Err(
                    Validation::EmptyPackageName {
                        span: to_source_span(package.span),
                        machine_identifier: owned(machine_identifier),
                    },
                );
            }
            if starts_with_char(package.value.as_str(), '-') {
                proof {
                    lemma_first_some_at(steps, i as int);
                }
                return Err(
                    Validation::InvalidPackageName {
                        span: to_source_span(package.span),
                        machine_identifier: owned(machine_identifier),
                        package: owned(package.value.as_str()),
                    },
                );
            }
            i = i + 1;
        }
        proof {
            lemma_first_some_none(steps);
        }
        if !operating_system.supports_package_manager(self.manager.value) {
            return Err(
                Validation::IncompatibleManager {
                    span: to_source_span(self.manager.span),
                    machine_identifier: owned(machine_identifier),
                    manager: owned(self.manager.value.as_str()),
                    distribution: owned(operating_system.name()),
                    compatible_managers: operating_system.compatible_package_managers_display(),
                },
            );
        }
        Ok(())
    }
}

} // verus!
