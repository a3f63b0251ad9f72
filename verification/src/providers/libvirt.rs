//! What the libvirt back end decides: network names, addresses and
//! definitions, how domain states read as lifecycle states, and how failures
//! are reported. The libvirt calls themselves are made by the caller.

use crate::errors::provider::Provider;
use crate::laboratories::laboratory::{Laboratory, Network};
use crate::state::Machine;
use crate::text::{ascii_lower_char, char_vec, decimal, owned, push_char, push_decimal};
use vstd::prelude::*;
use vstd::string::StringSliceAdditionalSpecFns;

verus! {

/// libvirt's `VIR_DOMAIN_NOSTATE`.
pub const DOMAIN_NOSTATE: u32 = 0;
/// libvirt's `VIR_DOMAIN_RUNNING`.
pub const DOMAIN_RUNNING: u32 = 1;
/// libvirt's `VIR_DOMAIN_BLOCKED`.
pub const DOMAIN_BLOCKED: u32 = 2;
/// libvirt's `VIR_DOMAIN_PAUSED`.
pub const DOMAIN_PAUSED: u32 = 3;
/// libvirt's `VIR_DOMAIN_SHUTDOWN`.
pub const DOMAIN_SHUTDOWN: u32 = 4;
/// libvirt's `VIR_DOMAIN_SHUTOFF`.
pub const DOMAIN_SHUTOFF: u32 = 5;
/// libvirt's `VIR_DOMAIN_CRASHED`.
pub const DOMAIN_CRASHED: u32 = 6;
/// libvirt's `VIR_DOMAIN_PMSUSPENDED`.
pub const DOMAIN_PMSUSPENDED: u32 = 7;
/// libvirt's `VIR_DOMAIN_AFFECT_LIVE`.
pub const DOMAIN_AFFECT_LIVE: u32 = 1;
/// libvirt's `VIR_DOMAIN_AFFECT_CONFIG`.
pub const DOMAIN_AFFECT_CONFIG: u32 = 2;

/// Where and how the back end is reached.
#[derive(Debug, Clone, Copy)]
pub struct Configuration {
    pub provider_identifier: &'static str,
    pub uri: &'static str,
}

/// The lifecycle state a libvirt domain state stands for: shut down or off is
/// planned, crashed is failed, anything else (running, blocked, paused,
/// suspended, unknown) is provisioning.
pub open spec fn domain_state_meaning(domain_state: u32) -> Machine {
    if domain_state == DOMAIN_SHUTDOWN || domain_state == DOMAIN_SHUTOFF {
        Machine::Planned
    } else if domain_state == DOMAIN_CRASHED {
        Machine::Failed
    } else {
        Machine::Provisioning
    }
}

/// The lifecycle state a libvirt domain state stands for.
pub fn map_domain_state(domain_state: u32) -> (state: Machine)
    ensures
        state == domain_state_meaning(domain_state),
{
    if domain_state == DOMAIN_SHUTDOWN || domain_state == DOMAIN_SHUTOFF {
        Machine::Planned
    } else if domain_state == DOMAIN_CRASHED {
        Machine::Failed
    } else {
        Machine::Provisioning
    }
}

/// The flags for attaching a device: the stored definition always, the live
/// domain too when it runs.
pub fn domain_attachment_flags(is_active: bool) -> (flags: u32)
    ensures
        flags == if is_active {
            (DOMAIN_AFFECT_CONFIG + DOMAIN_AFFECT_LIVE) as u32
        } else {
            DOMAIN_AFFECT_CONFIG
        },
{
    if is_active {
        assert(2u32 | 1u32 == 3u32) by (bit_vector);
        DOMAIN_AFFECT_CONFIG | DOMAIN_AFFECT_LIVE
    } else {
        DOMAIN_AFFECT_CONFIG
    }
}

/// The suffix that marks the network of a private laboratory.
pub open spec fn private_suffix() -> Seq<char> {
    "-private"@
}

/// The suffix that marks the network of an isolated laboratory.
pub open spec fn isolated_suffix() -> Seq<char> {
    "-isolated"@
}

/// The suffix that marks the network of a preserved laboratory.
pub open spec fn preserved_suffix() -> Seq<char> {
    "-preserved"@
}

/// The suffix that marks the network of a public laboratory.
pub open spec fn public_suffix() -> Seq<char> {
    "-public"@
}

/// Whether `text` ends with `suffix`.
pub open spec fn ends_with(text: Seq<char>, suffix: Seq<char>) -> bool {
    text.len() >= suffix.len() && text.subrange(text.len() - suffix.len(), text.len() as int) == suffix
}

/// The suffix that marks a laboratory network's mode: no two ends the same
/// way, so a network's name tells its mode whatever the laboratory is called.
pub open spec fn mode_suffix(network: Network) -> Seq<char> {
    match network {
        Network::Isolated => isolated_suffix(),
        Network::Preserved => preserved_suffix(),
        Network::Private => private_suffix(),
        Network::Public => public_suffix(),
    }
}

/// The libvirt network a laboratory's machines join, one of the laboratory's
/// own: the laboratory's name followed by the suffix of its network mode.
pub open spec fn network_for(laboratory: Laboratory) -> Seq<char> {
    laboratory.name@ + mode_suffix(laboratory.network)
}

/// Whether a laboratory network forwards traffic out of the host: every one
/// but an isolated or a private laboratory's, which are known by their
/// names' suffixes, so that a network is defined the same way wherever it
/// is (re)created.
pub open spec fn forwards(network_name: Seq<char>) -> bool {
    !ends_with(network_name, private_suffix()) && !ends_with(network_name, isolated_suffix())
}

/// A laboratory's network forwards traffic out of the host exactly when the
/// laboratory is preserved or public: isolated and private laboratories are
/// closed, whatever their names.
pub proof fn lemma_network_forwarding(laboratory: Laboratory)
    ensures
        forwards(network_for(laboratory)) <==> (laboratory.network == Network::Preserved
            || laboratory.network == Network::Public),
{
    let name = network_for(laboratory);
    let n = name.len();
    reveal_strlit("-isolated");
    reveal_strlit("-preserved");
    reveal_strlit("-private");
    reveal_strlit("-public");
    let suffix = mode_suffix(laboratory.network);
    assert(name.subrange(n - suffix.len(), n as int) =~= suffix);
    match laboratory.network {
        Network::Isolated => {},
        Network::Private => {},
        Network::Preserved => {
            assert(name[n - 1] == 'd');
            if ends_with(name, private_suffix()) {
                assert(name.subrange(n - 8, n as int)[7] == name[n - 1]);
            }
            assert(name[n - 9] == 'p');
            if ends_with(name, isolated_suffix()) {
                assert(name.subrange(n - 9, n as int)[0] == name[n - 9]);
            }
        },
        Network::Public => {
            assert(name[n - 1] == 'c');
            if ends_with(name, private_suffix()) {
                assert(name.subrange(n - 8, n as int)[7] == name[n - 1]);
            }
            if ends_with(name, isolated_suffix()) {
                assert(name.subrange(n - 9, n as int)[8] == name[n - 1]);
            }
        },
    }
}

/// The libvirt network a laboratory's machines join.
pub fn laboratory_network_name(laboratory: &Laboratory) -> (name: String)
    ensures
        name@ == network_for(*laboratory),
{
    let mut name = owned(laboratory.name.as_str());
    match laboratory.network {
        Network::Isolated => name.append("-isolated"),
        Network::Preserved => name.append("-preserved"),
        Network::Private => name.append("-private"),
        Network::Public => name.append("-public"),
    }
    name
}

/// Whether `text` ends with `suffix`.
fn text_ends_with(text: &str, suffix: &str) -> (answer: bool)
    ensures
        answer == ends_with(text@, suffix@),
{
    let chars = char_vec(text);
    let tail = char_vec(suffix);
    let n = chars.len();
    if n < tail.len() {
        return false;
    }
    let start = n - tail.len();
    let mut i: usize = 0;
    while i < tail.len()
        invariant
            chars@ == text@,
            tail@ == suffix@,
            n == chars@.len(),
            start + tail@.len() == n,
            i <= tail@.len(),
            forall|j: int| 0 <= j < i ==> chars@[start + j] == tail@[j],
        decreases tail.len() - i,
    {
        if chars[start + i] != tail[i] {
            proof {
                let end = text@.subrange(start as int, n as int);
                assert(end[i as int] != suffix@[i as int]);
            }
            return false;
        }
        i = i + 1;
    }
    proof {
        assert(text@.subrange(start as int, n as int) =~= suffix@);
    }
    true
}

/// Whether the network named `network_name` forwards traffic out of the host.
pub fn network_forwards(network_name: &str) -> (forwarding: bool)
    ensures
        forwarding == forwards(network_name@),
{
    !text_ends_with(network_name, "-private") && !text_ends_with(network_name, "-isolated")
}

/// What to do about a laboratory network on the host.
#[derive(Debug, Clone, Copy, PartialEq, Eq, Structural)]
pub struct NetworkPlan {
    /// Define the network: it is not listed.
    pub define: bool,
    /// Start the network: it is new, or listed but not running.
    pub start: bool,
    /// Mark the network to start with the host: it is new, or listed and
    /// persistent.
    pub autostart: bool,
}

/// What to do about a laboratory network, given whether the host lists it
/// and, when it does, whether it runs and whether it is persistent.
pub fn network_plan(listed: bool, active: bool, persistent: bool) -> (plan: NetworkPlan)
    ensures
        plan.define == !listed,
        plan.start == (!listed || !active),
        plan.autostart == (!listed || persistent),
{
    if listed {
        NetworkPlan { define: false, start: !active, autostart: persistent }
    } else {
        NetworkPlan { define: true, start: true, autostart: true }
    }
}


/// An ASCII letter or digit.
pub open spec fn ascii_alphanumeric(c: char) -> bool {
    ('a' <= c <= 'z') || ('A' <= c <= 'Z') || ('0' <= c <= '9')
}

/// The ASCII letters and digits of a network name, in lower case.
pub open spec fn bridge_label(network_name: Seq<char>) -> Seq<char> {
    network_name.filter(|c: char| ascii_alphanumeric(c)).map_values(|c: char| ascii_lower_char(c))
}

/// The name of a network's bridge: "br-" and the first twelve lower-cased
/// ASCII letters and digits of the network name, or "br-malina" when it has
/// none.
pub open spec fn bridge_name(network_name: Seq<char>) -> Seq<char> {
    let label = bridge_label(network_name);
    "br-"@ + if label.len() == 0 {
        "malina"@
    } else if label.len() <= 12 {
        label
    } else {
        label.take(12)
    }
}

/// The name of a network's bridge.
pub fn bridge_name_internal(network_name: &str) -> (name: String)
    ensures
        name@ == bridge_name(network_name@),
{
    let chars = char_vec(network_name);
    let ghost keep = |c: char| ascii_alphanumeric(c);
    let ghost lower = |c: char| ascii_lower_char(c);
    let mut label = String::new();
    let mut count: usize = 0;
    let mut i: usize = 0;
    while i < chars.len() && count < 12
        invariant
            chars@ == network_name@,
            i <= chars@.len(),
            count <= 12,
            count == label@.len(),
            keep == (|c: char| ascii_alphanumeric(c)),
            lower == (|c: char| ascii_lower_char(c)),
            label@ == chars@.take(i as int).filter(keep).map_values(lower),
        decreases chars.len() - i,
    {
        let c = chars[i];
        let is_kept = ('a' <= c && c <= 'z') || ('A' <= c && c <= 'Z') || ('0' <= c && c <= '9');
        proof {
            assert(chars@.take(i + 1) =~= chars@.take(i as int).push(c));
            assert(chars@.take(i as int).push(c).drop_last() =~= chars@.take(i as int));
            assert(keep(c) == is_kept);
        }
        if is_kept {
            let lowered = if 'A' <= c && c <= 'Z' {
                ((c as u8) + 32) as char
            } else {
                c
            };
            assert(lowered == ascii_lower_char(c)) by {
                if 'A' <= c && c <= 'Z' {
                    assert(((c as u8) + 32) as char == ((c as u32) + 32) as char);
                }
            }
            let ghost before = label@;
            push_char(&mut label, lowered);
            count = count + 1;
            proof {
                assert(chars@.take(i as int).push(c).filter(keep) =~= chars@.take(i as int).filter(keep).push(c)) by {
                    reveal(Seq::filter);
                }
                assert(label@ =~= chars@.take(i + 1).filter(keep).map_values(lower));
            }
        } else {
            proof {
                assert(chars@.take(i as int).push(c).filter(keep) =~= chars@.take(i as int).filter(keep)) by {
                    reveal(Seq::filter);
                }
            }
        }
        i = i + 1;
    }
    proof {
        let full = bridge_label(network_name@);
        let part = chars@.take(i as int).filter(keep).map_values(lower);
        assert(chars@ =~= chars@.take(i as int) + chars@.skip(i as int));
        Seq::filter_distributes_over_add(chars@.take(i as int), chars@.skip(i as int), keep);
        let rest = chars@.skip(i as int).filter(keep).map_values(lower);
        assert(full =~= part + rest);
        if count == 12 {
            assert(full.take(12) =~= part);
            if full.len() <= 12 {
                assert(full =~= part);
            }
        }
        if i == chars.len() {
            assert(chars@.skip(i as int).filter(keep).len() == 0) by {
                assert(chars@.skip(i as int) =~= Seq::<char>::empty());
                reveal(Seq::filter);
            }
        }
    }
    let mut name = owned("br-");
    if label.unicode_len() == 0 {
        name.append("malina");
    } else {
        name.append(label.as_str());
    }
    name
}

/// The 32-bit FNV-1a hash of a byte sequence.
pub open spec fn fnv1a(bytes: Seq<u8>) -> u32
    decreases bytes.len(),
{
    if bytes.len() == 0 {
        0x811c9dc5u32
    } else {
        (fnv1a(bytes.drop_last()) ^ (bytes.last() as u32)).wrapping_mul(0x0100_0193u32)
    }
}

/// The second and third octets of the IPv4 subnet of a network whose name
/// has the FNV-1a hash `h`: 16 plus the second byte of `h` (raised to at
/// least 16) modulo 240, and the low byte of `h`.
pub open spec fn subnet_octets(h: u32) -> (nat, nat) {
    let second = (h / 256) % 256;
    let third = if second < 16 {
        16
    } else {
        second
    };
    ((16 + third % 240) as nat, (h % 256) as nat)
}

/// The first three octets of a network's IPv4 subnet, derived from the
/// FNV-1a hash `h` of its name: "10.", then its two octets.
pub open spec fn subnet_of_hash(h: u32) -> Seq<char> {
    "10."@ + decimal(subnet_octets(h).0) + "."@ + decimal(subnet_octets(h).1)
}

/// The first three octets of the subnet of the network named by `bytes`.
pub open spec fn subnet_of(bytes: Seq<u8>) -> Seq<char> {
    subnet_of_hash(fnv1a(bytes))
}

/// The first three octets of the IPv4 subnet of a network, derived from the
/// FNV-1a hash of the UTF-8 bytes of its name.
pub fn network_subnet_internal(network_name: &str) -> (subnet: String)
    ensures
        subnet@ == subnet_of(network_name.spec_bytes()),
{
    let bytes = network_name.as_bytes();
    let mut hash: u32 = 0x811c9dc5;
    let mut i: usize = 0;
    while i < bytes.len()
        invariant
            bytes@ == network_name.spec_bytes(),
            i <= bytes@.len(),
            hash == fnv1a(bytes@.take(i as int)),
        decreases bytes.len() - i,
    {
        proof {
            assert(bytes@.take(i + 1).drop_last() =~= bytes@.take(i as int));
        }
        hash = hash ^ (bytes[i] as u32);
        hash = hash.wrapping_mul(0x0100_0193);
        i = i + 1;
    }
    assert(bytes@.take(bytes@.len() as int) =~= bytes@);
    assert((hash >> 8u32) & 0xffu32 == (hash / 256) % 256) by (bit_vector);
    assert(hash & 0xffu32 == hash % 256) by (bit_vector);
    let second = ((hash >> 8) & 0xff) as u8;
    let low = (hash & 0xff) as u8;
    let third_octet = if second < 16 {
        16u8
    } else {
        second
    };
    let octet: u8 = 16 + (third_octet % 240);
    let mut out = owned("10.");
    push_decimal(&mut out, octet as u64);
    out.append(".");
    push_decimal(&mut out, low as u64);
    out
}

/// The forwarding element of a network's definition: NAT where it forwards,
/// nothing (a network closed to the outside) where it does not.
pub open spec fn forward_element(forwarding: bool) -> Seq<char> {
    if forwarding {
        "<forward mode='nat'/>"@
    } else {
        Seq::empty()
    }
}

/// The libvirt definition of a laboratory network: NAT forwarding unless it
/// is a private laboratory's, its bridge, and DHCP over addresses .2 to .254
/// of its subnet, the host taking .1.
pub open spec fn network_xml(network_name: Seq<char>, subnet: Seq<char>) -> Seq<char> {
    "<network><name>"@ + network_name + "</name>"@ + forward_element(forwards(network_name))
        + "<bridge name='"@ + bridge_name(network_name)
        + "' stp='on' delay='0'/><ip address='"@ + subnet + ".1' netmask='255.255.255.0'><dhcp><range start='"@
        + subnet + ".2' end='"@ + subnet + ".254'/></dhcp></ip></network>"@
}

/// The libvirt definition of a laboratory network.
pub fn render_network_xml_internal(network_name: &str) -> (xml: String)
    ensures
        xml@ == network_xml(network_name@, subnet_of(network_name.spec_bytes())),
{
    let bridge = bridge_name_internal(network_name);
    let subnet = network_subnet_internal(network_name);
    let mut xml = owned("<network><name>");
    xml.append(network_name);
    xml.append("</name>");
    if network_forwards(network_name) {
        xml.append("<forward mode='nat'/>");
    }
    xml.append("<bridge name='");
    xml.append(bridge.as_str());
    xml.append("' stp='on' delay='0'/><ip address='");
    xml.append(subnet.as_str());
    xml.append(".1' netmask='255.255.255.0'><dhcp><range start='");
    xml.append(subnet.as_str());
    xml.append(".2' end='");
    xml.append(subnet.as_str());
    xml.append(".254'/></dhcp></ip></network>");
    proof {
        assert(xml@ =~= network_xml(network_name@, subnet_of(network_name.spec_bytes())));
    }
    xml
}

/// Whether `needle` occurs in `text` starting at position `i`.
pub open spec fn occurs_at(text: Seq<char>, needle: Seq<char>, i: int) -> bool {
    0 <= i && i + needle.len() <= text.len() && text.subrange(i, i + needle.len()) == needle
}

/// The first position at or after `from` where `needle` occurs in `text`.
pub open spec fn find_from(text: Seq<char>, needle: Seq<char>, from: int) -> Option<int>
    decreases text.len() + 1 - from,
{
    if from < 0 || from + needle.len() > text.len() {
        None
    } else if occurs_at(text, needle, from) {
        Some(from)
    } else {
        find_from(text, needle, from + 1)
    }
}

/// The network a domain definition attaches to: the text between the first
/// `network='` and the next `'`, if both occur.
pub open spec fn attached_network(xml: Seq<char>) -> Option<Seq<char>> {
    match find_from(xml, "network='"@, 0) {
        None => None,
        Some(start) => {
            let rest = xml.skip(start + "network='"@.len());
            match find_from(rest, seq!['\''], 0) {
                None => None,
                Some(end) => Some(rest.take(end)),
            }
        },
    }
}

fn find_in(text: &Vec<char>, needle: &Vec<char>, from: usize) -> (found: Option<usize>)
    requires
        from <= text@.len(),
    ensures
        match (found, find_from(text@, needle@, from as int)) {
            (Some(f), Some(g)) => f == g,
            (None, None) => true,
            _ => false,
        },
        found matches Some(f) ==> f + needle@.len() <= text@.len(),
{
    let n = text.len();
    let m = needle.len();
    if m > n {
        return None;
    }
    let mut i = from;
    while i <= n - m
        invariant
            n == text@.len(),
            m == needle@.len(),
            m <= n,
            from <= i <= n,
            find_from(text@, needle@, from as int) == find_from(text@, needle@, i as int),
        decreases n - i,
    {
        let mut j: usize = 0;
        let mut same = true;
        while j < m
            invariant
                n == text@.len(),
                m == needle@.len(),
                i + m <= n,
                j <= m,
                same == (forall|k: int| 0 <= k < j ==> text@[i + k] == needle@[k]),
            decreases m - j,
        {
            if text[i + j] != needle[j] {
                same = false;
            }
            j = j + 1;
        }
        proof {
            if same {
                assert(text@.subrange(i as int, i + m) =~= needle@);
            } else {
                assert(!(text@.subrange(i as int, i + m) =~= needle@));
            }
        }
        if same {
            return Some(i);
        }
        i = i + 1;
    }
    None
}

/// The network a domain definition attaches to, if it names one.
pub fn network_name_from_domain_xml(xml: &str) -> (network: Option<String>)
    ensures
        match (network, attached_network(xml@)) {
            (Some(n), Some(m)) => n@ == m,
            (None, None) => true,
            _ => false,
        },
{
    let text = char_vec(xml);
    let needle = char_vec("network='");
    let start = match find_in(&text, &needle, 0) {
        Some(start) => start,
        None => {
            return None;
        },
    };
    let total = text.len();
    assert(start + needle@.len() <= total);
    let begin = start + needle.len();
    let quote = vec!['\''];
    proof {
        assert(quote@ =~= seq!['\'']);
    }
    let rest: Vec<char> = slice_from(&text, begin);
    let end = match find_in(&rest, &quote, 0) {
        Some(end) => end,
        None => {
            return None;
        },
    };
    let mut name = String::new();
    let mut k: usize = 0;
    while k < end
        invariant
            end <= rest@.len(),
            k <= end,
            name@ == rest@.take(k as int),
        decreases end - k,
    {
        push_char(&mut name, rest[k]);
        proof {
            assert(rest@.take(k + 1) =~= rest@.take(k as int).push(rest@[k as int]));
        }
        k = k + 1;
    }
    Some(name)
}

fn slice_from(text: &Vec<char>, from: usize) -> (rest: Vec<char>)
    requires
        from <= text@.len(),
    ensures
        rest@ == text@.skip(from as int),
{
    let mut rest = Vec::new();
    let mut k = from;
    while k < text.len()
        invariant
            from <= k <= text@.len(),
            rest@ == text@.subrange(from as int, k as int),
        decreases text.len() - k,
    {
        rest.push(text[k]);
        proof {
            assert(text@.subrange(from as int, k + 1) =~= text@.subrange(from as int, k as int).push(text@[k as int]));
        }
        k = k + 1;
    }
    assert(text@.subrange(from as int, text@.len() as int) =~= text@.skip(from as int));
    rest
}

/// What stopping a machine does: nothing when it is not running, else a hard
/// stop when forced and an ACPI shutdown otherwise.
#[derive(Debug, Clone, Copy, PartialEq, Eq, Structural)]
pub enum StopMethod {
    AlreadyStopped,
    Destroy,
    Shutdown,
}

/// How to stop a machine.
pub fn stop_method(is_active: bool, force: bool) -> (method: StopMethod)
    ensures
        method == if !is_active {
            StopMethod::AlreadyStopped
        } else if force {
            StopMethod::Destroy
        } else {
            StopMethod::Shutdown
        },
{
    if !is_active {
        StopMethod::AlreadyStopped
    } else if force {
        StopMethod::Destroy
    } else {
        StopMethod::Shutdown
    }
}

/// The error of a failed back-end operation on a machine or network.
pub fn operation_error(operation: &str, identifier: &str, reason: &str, remediation: &str) -> (error: Provider)
    ensures
        error matches Provider::OperationFailed { operation: o, identifier: i, reason: r, remediation: m }
            && o@ == operation@ && i@ == identifier@ && r@ == reason@ && m@ == remediation@,
{
    Provider::OperationFailed {
        operation: owned(operation),
        identifier: owned(identifier),
        reason: owned(reason),
        remediation: owned(remediation),
    }
}

/// The error of a failed machine definition: an exhausted memory resource
/// when the back end ran out of memory, a failed operation otherwise.
pub fn create_machine_error(
    machine_identifier: &str,
    memory_megabyte: u32,
    out_of_memory: bool,
    reason: &str,
) -> (error: Provider)
    ensures
        out_of_memory ==> (error matches Provider::ResourceExhausted { resource_type, available, required }
            && resource_type@ == "memory"@ && available == 0 && required == memory_megabyte),
        !out_of_memory ==> (error matches Provider::OperationFailed { operation, identifier, reason: r, remediation }
            && operation@ == "create_machine"@ && identifier@ == machine_identifier@ && r@ == reason@
            && remediation@ == "Check the generated libvirt domain settings, host virtualization support, and referenced disk image before retrying."@),
{
    if out_of_memory {
        Provider::ResourceExhausted {
            resource_type: owned("memory"),
            available: 0,
            required: memory_megabyte as u64,
        }
    } else {
        operation_error(
            "create_machine",
            machine_identifier,
            reason,
            "Check the generated libvirt domain settings, host virtualization support, and referenced disk image before retrying.",
        )
    }
}


/// A bridge name fits a Linux interface name (at most 15 characters) and
/// holds only "br-" followed by lower-case ASCII letters and digits.
pub proof fn lemma_bridge_name_fits_interface(network_name: Seq<char>)
    ensures
        bridge_name(network_name).len() <= 15,
        bridge_name(network_name).take(3) == "br-"@,
        forall|i: int|
            3 <= i < bridge_name(network_name).len() ==> ('a' <= #[trigger] bridge_name(network_name)[i] <= 'z'
                || '0' <= bridge_name(network_name)[i] <= '9'),
{
    let label = bridge_label(network_name);
    let filtered = network_name.filter(|c: char| ascii_alphanumeric(c));
    let name = bridge_name(network_name);
    reveal_strlit("br-");
    reveal_strlit("malina");
    assert(name.take(3) =~= "br-"@);
    assert forall|i: int| 3 <= i < name.len() implies ('a' <= #[trigger] name[i] <= 'z' || '0' <= name[i]
        <= '9') by {
        if label.len() > 0 {
            let k = i - 3;
            assert(label[k] == ascii_lower_char(filtered[k]));
            assert(ascii_alphanumeric(filtered[k])) by {
                network_name.lemma_filter_pred(|c: char| ascii_alphanumeric(c), k);
            }
        }
    }
}

/// The subnet of a network is 10.x.y with x between 16 and 255 and y a
/// byte: a private range that stays above the low blocks hosts commonly use.
pub proof fn lemma_subnet_in_private_range(h: u32)
    ensures
        16 <= subnet_octets(h).0 <= 255,
        subnet_octets(h).1 <= 255,
{
}

} // verus!
