//! Chocolatey, a package manager for Windows.

use crate::laboratories::machines::operating_system::{OperatingSystem, default_manager};
use crate::laboratories::machines::packages::Manager;
use crate::text::{joined, owned, views};
use vstd::prelude::*;

verus! {

/// The PowerShell command that installs Chocolatey.
pub const SETUP: &'static str = "Set-ExecutionPolicy Bypass -Scope Process -Force; [System.Net.ServicePointManager]::SecurityProtocol = [System.Net.ServicePointManager]::SecurityProtocol -bor 3072; iex ((New-Object System.Net.WebClient).DownloadString('https://community.chocolatey.org/install.ps1'))";

/// What precedes the package names in the install command.
pub const INSTALL_PREFIX: &'static str = "choco install -y ";

/// The command that installs `packages`: their names separated by spaces.
pub open spec fn install_text(packages: Seq<Seq<char>>) -> Seq<char> {
    INSTALL_PREFIX@ + joined(packages, " "@)
}

/// The Chocolatey package manager.
#[derive(Debug, Clone, Copy)]
pub struct Chocolatey;

impl Chocolatey {
    /// The configuration word of the manager.
    pub fn as_str(&self) -> (name: &'static str)
        ensures
            name@ == "chocolatey"@,
    {
        "chocolatey"
    }

    /// The command that installs Chocolatey, unless it comes with the system.
    pub fn install_package_manager_command(&self, operating_system: &OperatingSystem) -> (command:
        Option<&'static str>)
        ensures
            command is Some <==> default_manager(*operating_system) != Manager::Chocolatey,
            command matches Some(c) ==> c@ == SETUP@,
    {
        match operating_system.default_package_manager() {
            Some(name) => if crate::text::same_text(name, self.as_str()) {
                proof {
                    crate::laboratories::machines::packages::lemma_manager_name_injective(
                        default_manager(*operating_system),
                        Manager::Chocolatey,
                    );
                }
                None
            } else {
                Some(SETUP)
            },
            None => Some(SETUP),
        }
    }

    /// The command that installs `packages`, none for an empty list.
    pub fn install_packages_command(&self, packages: &[&str]) -> (command: Option<String>)
        ensures
            packages@.len() == 0 ==> command is None,
            packages@.len() > 0 ==> (command matches Some(c) && c@ == install_text(views(packages@))),
    {
        if packages.len() == 0 {
            return None;
        }
        let mut command = owned(INSTALL_PREFIX);
        let ghost start = command@;
        let ghost names = views(packages@);
        let mut i: usize = 0;
        while i < packages.len()
            invariant
                i <= packages@.len(),
                names == views(packages@),
                command@ == start + joined(names.take(i as int), " "@),
            decreases packages.len() - i,
        {
            if i > 0 {
                command.append(" ");
            }
            command.append(packages[i]);
            proof {
                assert(names.take(i + 1).drop_last() =~= names.take(i as int));
                if i == 0 {
                    assert(joined(names.take(1), " "@) == names.take(1)[0]);
                }
                assert(command@ =~= start + joined(names.take(i + 1), " "@));
            }
            i = i + 1;
        }
        assert(names.take(packages@.len() as int) =~= names);
        Some(command)
    }
}

} // verus!
