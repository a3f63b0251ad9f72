//! winget, the package manager that comes with Windows.

use crate::laboratories::machines::operating_system::OperatingSystem;
use crate::text::{joined, owned, views};
use vstd::prelude::*;

verus! {

/// The command that installs one package.
pub open spec fn install_line(package: Seq<char>) -> Seq<char> {
    "winget install --exact --id "@ + package
        + " --accept-package-agreements --accept-source-agreements --disable-interactivity"@
}

/// The commands that install `packages`, one line each.
pub open spec fn install_text(packages: Seq<Seq<char>>) -> Seq<char> {
    joined(packages.map_values(|p: Seq<char>| install_line(p)), "\n"@)
}

/// The winget package manager.
#[derive(Debug, Clone, Copy)]
pub struct Winget;

impl Winget {
    /// The configuration word of the manager.
    pub fn as_str(&self) -> (name: &'static str)
        ensures
            name@ == "winget"@,
    {
        "winget"
    }

    /// No setup: winget comes with the system.
    pub fn install_package_manager_command(&self, _operating_system: &OperatingSystem) -> (command:
        Option<&'static str>)
        ensures
            command is None,
    {
        None
    }

    /// The commands that install `packages`, one per line; none for an empty
    /// list.
    pub fn install_packages_command(&self, packages: &[&str]) -> (command: Option<String>)
        ensures
            packages@.len() == 0 ==> command is None,
            packages@.len() > 0 ==> (command matches Some(c) && c@ == install_text(views(packages@))),
    {
        if packages.len() == 0 {
            return None;
        }
        let ghost lines = views(packages@).map_values(|p: Seq<char>| install_line(p));
        let mut command = String::new();
        let mut i: usize = 0;
        while i < packages.len()
            invariant
                i <= packages@.len(),
                lines == views(packages@).map_values(|p: Seq<char>| install_line(p)),
                command@ == joined(lines.take(i as int), "\n"@),
            decreases packages.len() - i,
        {
            if i > 0 {
                command.append("\n");
            }
            command.append("winget install --exact --id ");
            command.append(packages[i]);
            command.append(" --accept-package-agreements --accept-source-agreements --disable-interactivity");
            proof {
                assert(lines.take(i + 1).drop_last() =~= lines.take(i as int));
                if i == 0 {
                    assert(joined(lines.take(1), "\n"@) == lines.take(1)[0]);
                }
                assert(command@ =~= joined(lines.take(i + 1), "\n"@));
            }
            i = i + 1;
        }
        assert(lines.take(packages@.len() as int) =~= lines);
        Some(command)
    }
}

} // verus!
