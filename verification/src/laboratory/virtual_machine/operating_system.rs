//! The operating system of a virtual machine in the compact format: its
//! family is that of its details.

use vstd::prelude::*;

verus! {

/// Operating-system families.
#[derive(Debug, Clone, Copy, PartialEq, Eq, Structural)]
pub enum Family {
    Linux,
    Windows,
}

/// Linux distributions of the compact format.
#[derive(Debug, Clone, Copy, PartialEq, Eq, Structural)]
pub enum LinuxDistribution {
    Debian,
    Ubuntu,
}

/// Windows releases of the compact format.
#[derive(Debug, Clone, Copy, PartialEq, Eq, Structural)]
pub enum WindowsVersion {
    Windows11,
    Windows10,
    Windows8_1,
    Windows8,
}

/// What is specific to each family.
#[derive(Debug, Clone, Copy, PartialEq, Eq, Structural)]
pub enum Details {
    Linux { distribution: LinuxDistribution },
    Windows { version: WindowsVersion },
}

/// The family that details belong to.
pub open spec fn family_of(details: Details) -> Family {
    match details {
        Details::Linux { .. } => Family::Linux,
        Details::Windows { .. } => Family::Windows,
    }
}

impl Family {
    /// The family that `details` belong to.
    pub fn from(details: &Details) -> (family: Family)
        ensures
            family == family_of(*details),
    {
        match details {
            Details::Linux { .. } => Family::Linux,
            Details::Windows { .. } => Family::Windows,
        }
    }
}

/// An operating system: its family, its image and its details.
pub struct OperatingSystem {
    pub family: Family,
    pub image: String,
    pub details: Details,
}

impl OperatingSystem {
    /// An operating system whose family is read off its details.
    pub fn new(image: String, details: Details) -> (os: OperatingSystem)
        ensures
            os.family == family_of(details),
            os.image@ == image@,
            os.details == details,
    {
        OperatingSystem { family: Family::from(&details), image, details }
    }
}

} // verus!
