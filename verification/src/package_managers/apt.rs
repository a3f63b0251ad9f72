//! apt, the package manager of Debian.

use crate::laboratories::machines::operating_system::{OperatingSystem, default_manager};
use crate::laboratories::machines::packages::Manager;
use crate::package_managers::{lemma_shell_words_read_back, push_shell_words, reads_as_words, shell_words};
use crate::text::{owned, views};
use vstd::prelude::*;

verus! {

/// The commands that install apt.
pub const SETUP: &'static str = "export DEBIAN_FRONTEND=noninteractive\napt-get -yq update\napt-get -yq install apt";

/// What precedes the package words in the install command.
pub const INSTALL_PREFIX: &'static str = "export DEBIAN_FRONTEND=noninteractive\napt-get -o Dpkg::Options::=--force-confdef -o Dpkg::Options::=--force-confold -yq update\napt-get -o Dpkg::Options::=--force-confdef -o Dpkg::Options::=--force-confold -yq install ";

/// The command that installs `packages`.
pub open spec fn install_text(packages: Seq<Seq<char>>) -> Seq<char> {
    INSTALL_PREFIX@ + shell_words(packages)
}

/// The install command is the prefix followed by words that a POSIX shell
/// reads back as exactly the packages, each whole and in order.
pub proof fn lemma_install_text_reads_back(packages: Seq<Seq<char>>)
    ensures
        install_text(packages).take(INSTALL_PREFIX@.len() as int) == INSTALL_PREFIX@,
        reads_as_words(install_text(packages).skip(INSTALL_PREFIX@.len() as int), packages),
{
    let p = INSTALL_PREFIX@.len() as int;
    assert(install_text(packages).take(p) =~= INSTALL_PREFIX@);
    assert(install_text(packages).skip(p) =~= shell_words(packages));
    lemma_shell_words_read_back(packages);
}

/// The apt package manager.
#[derive(Debug, Clone, Copy)]
pub struct Apt;

impl Apt {
    /// The configuration word of the manager.
    pub fn as_str(&self) -> (name: &'static str)
        ensures
            name@ == "apt"@,
    {
        "apt"
    }

    /// The commands that install apt, unless it comes with the system.
    pub fn install_package_manager_command(&self, operating_system: &OperatingSystem) -> (command:
        Option<&'static str>)
        ensures
            command is Some <==> default_manager(*operating_system) != Manager::Apt,
            command matches Some(c) ==> c@ == SETUP@,
    {
        match operating_system.default_package_manager() {
            Some(name) => if crate::text::same_text(name, self.as_str()) {
                proof {
                    crate::laboratories::machines::packages::lemma_manager_name_injective(
                        default_manager(*operating_system),
                        Manager::Apt,
                    );
                }
                None
            } else {
                Some(SETUP)
            },
            None => Some(SETUP),
        }
    }

    /// The command that installs `packages`, none for an empty list.
    pub fn install_packages_command(&self, packages: &[&str]) -> (command: Option<String>)
        ensures
            packages@.len() == 0 ==> command is None,
            packages@.len() > 0 ==> (command matches Some(c) && c@ == install_text(views(packages@))),
            command matches Some(c) ==> c@.take(INSTALL_PREFIX@.len() as int) == INSTALL_PREFIX@
                && reads_as_words(c@.skip(INSTALL_PREFIX@.len() as int), views(packages@)),
    {
        if packages.len() == 0 {
            return None;
        }
        let mut command = owned(INSTALL_PREFIX);
        push_shell_words(&mut command, packages);
        proof {
            let p = INSTALL_PREFIX@.len() as int;
            assert(command@.take(p) =~= INSTALL_PREFIX@);
            assert(command@.skip(p) =~= shell_words(views(packages@)));
            lemma_shell_words_read_back(views(packages@));
        }
        Some(command)
    }
}

} // verus!
