//! The KVM provider: libvirt on the local system hypervisor.

use crate::errors::template::Template;
use crate::providers::libvirt::Configuration;
use crate::template::{register, registration_result, template_views};
use vstd::prelude::*;

verus! {

/// The libvirt settings of the KVM provider.
pub const KVM_PROVIDER_IDENTIFIER: &'static str = "kvm";

/// The libvirt URI of the local system hypervisor.
pub const KVM_URI: &'static str = "qemu:///system";

/// The KVM provider.
#[derive(Debug, Clone, Copy)]
pub struct Kvm {
    pub configuration: Configuration,
}

impl Kvm {
    /// The provider, reaching libvirt at `qemu:///system` under the name
    /// `kvm`, once its templates (name and text) are registered; the first
    /// template the engine refuses is reported instead.
    pub fn new(templates: &Vec<(String, String)>) -> (kvm: Result<Kvm, Template>)
        ensures
            registration_result(
                template_views(templates@),
                match kvm {
                    Ok(_) => Ok(()),
                    Err(e) => Err(e),
                },
            ),
            kvm matches Ok(k) ==> k.configuration.provider_identifier@ == KVM_PROVIDER_IDENTIFIER@
                && k.configuration.uri@ == KVM_URI@,
    {
        match register(templates) {
            Ok(()) => Ok(Kvm { configuration: Configuration { provider_identifier: KVM_PROVIDER_IDENTIFIER, uri: KVM_URI } }),
            Err(e) => Err(e),
        }
    }

    /// The provider's configuration word.
    pub fn identifier(&self) -> (name: &'static str)
        ensures
            name@ == "kvm"@,
    {
        "kvm"
    }
}

} // verus!
