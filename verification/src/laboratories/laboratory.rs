//! The laboratory section: its name, network mode and virtualization provider.

use vstd::prelude::*;

verus! {

/// How the laboratory's machines reach the network.
#[derive(Debug, Clone, Copy, PartialEq, Eq, Structural)]
pub enum Network {
    /// The machines have no external network access: their network forwards
    /// nothing out of the host.
    Isolated,
    /// The laboratory gets a network of its own, named after it, with
    /// outbound connectivity through NAT.
    Preserved,
    /// The machines talk to each other on a network of the laboratory's own
    /// that forwards nothing out of the host.
    Private,
    /// The machines get a network of the laboratory's own with outbound
    /// connectivity through NAT.
    Public,
}

/// The configuration word of a network mode.
pub open spec fn network_name(network: Network) -> Seq<char> {
    match network {
        Network::Isolated => "isolated"@,
        Network::Preserved => "preserved"@,
        Network::Private => "private"@,
        Network::Public => "public"@,
    }
}

impl Network {
    /// The configuration word of the mode.
    pub fn as_str(&self) -> (name: &'static str)
        ensures
            name@ == network_name(*self),
    {
        match self {
            Network::Isolated => "isolated",
            Network::Preserved => "preserved",
            Network::Private => "private",
            Network::Public => "public",
        }
    }
}

/// The virtualization back end.
#[derive(Debug, Clone, Copy, PartialEq, Eq, Structural)]
pub enum Provider {
    Kvm,
}

/// The configuration word of a provider.
pub open spec fn provider_name(provider: Provider) -> Seq<char> {
    match provider {
        Provider::Kvm => "kvm"@,
    }
}

/// The disk-image extensions a provider accepts.
pub open spec fn image_extensions(provider: Provider) -> Seq<Seq<char>> {
    match provider {
        Provider::Kvm => seq!["qcow2"@],
    }
}

impl Provider {
    /// The configuration word of the provider.
    pub fn as_str(&self) -> (name: &'static str)
        ensures
            name@ == provider_name(*self),
    {
        match self {
            Provider::Kvm => "kvm",
        }
    }

    /// The disk-image extensions the provider accepts.
    pub fn supported_image_extensions(&self) -> (extensions: Vec<&'static str>)
        ensures
            crate::text::views(extensions@) == image_extensions(*self),
    {
        let mut extensions = Vec::new();
        match self {
            Provider::Kvm => extensions.push("qcow2"),
        }
        assert(crate::text::views(extensions@) =~= image_extensions(*self));
        extensions
    }
}

/// The laboratory section of a configuration.
pub struct Laboratory {
    pub name: String,
    pub network: Network,
    pub provider: Provider,
}

impl Laboratory {
    /// Whether the machines stay on the host's default network.
    pub fn is_isolated_network(&self) -> (isolated: bool)
        ensures
            isolated == (self.network == Network::Isolated),
    {
        match self.network {
            Network::Isolated => true,
            Network::Preserved | Network::Private | Network::Public => false,
        }
    }
}

} // verus!
