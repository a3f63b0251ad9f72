use malina::errors::provider::Provider as ProviderError;
use malina::laboratories::laboratory::{Laboratory, Network, Provider};
use malina::providers::definitions::{render_domain_xml, render_drive_xml};
use malina::providers::kvm::Kvm;
use malina::providers::libvirt::{
    bridge_name_internal, create_machine_error, domain_attachment_flags, laboratory_network_name,
    map_domain_state, network_name_from_domain_xml, network_subnet_internal,
    render_network_xml_internal, stop_method, StopMethod, DOMAIN_CRASHED, DOMAIN_PAUSED, DOMAIN_RUNNING,
    DOMAIN_SHUTDOWN, DOMAIN_SHUTOFF,
};
use malina::state::Machine;

fn laboratory(name: &str, network: Network) -> Laboratory {
    Laboratory { name: name.to_owned(), network, provider: Provider::Kvm }
}

#[test]
fn every_laboratory_has_its_own_network() {
    assert_eq!(laboratory_network_name(&laboratory("lab", Network::Isolated)), "lab-isolated");
    assert_eq!(laboratory_network_name(&laboratory("lab", Network::Preserved)), "lab-preserved");
    assert_eq!(laboratory_network_name(&laboratory("lab", Network::Public)), "lab-public");
    assert_eq!(laboratory_network_name(&laboratory("lab-private", Network::Public)), "lab-private-public");
    assert!(malina::providers::libvirt::network_forwards("lab-private-public"));
    assert!(malina::providers::libvirt::network_forwards("lab-isolated-preserved"));
    assert_eq!(laboratory_network_name(&laboratory("lab", Network::Private)), "lab-private");
}

#[test]
fn private_networks_forward_nothing() {
    let private = render_network_xml_internal("lab-private");
    assert!(!private.contains("<forward"));
    assert!(private.contains("<name>lab-private</name><bridge name='br-labprivate'"));
    assert!(render_network_xml_internal("lab").contains("<forward mode='nat'/>"));
    assert!(malina::providers::libvirt::network_forwards("private"));
    assert!(!malina::providers::libvirt::network_forwards("-private"));
    assert!(!render_network_xml_internal("lab-isolated").contains("<forward"));
}

fn windows_machine() -> malina::laboratories::machines::machine::Machine {
    let source = "version = 1\n\n[laboratory]\nname = \"lab\"\nnetwork = \"isolated\"\nprovider = \"kvm\"\n\n[[machines]]\nidentifier = \"win\"\nname = \"Win <1>\"\n\n[machines.hardware]\ncpus = 2\nmemory_megabyte = 4096\n\n[machines.operating_system]\nfamily = \"windows\"\nversion = \"10\"\nimage = \"w.qcow2\"\n\n[[machines.users]]\nusername = \"a\"\npassword = \"b\"\n";
    malina::laboratories::Configuration::parse(source).ok().expect("parses").machines.value.remove(0)
}

#[test]
fn domain_definition_is_rendered() {
    let template = "{{ identifier }}|{{ name }}|{{ memory }}|{{ cpus }}|{{ image }}|{{ network_name }}|{{ is_windows }}";
    let templates = vec![
        ("libvirt/kvm/machine.xml".to_owned(), template.to_owned()),
        ("libvirt/kvm/configuration-drive.xml".to_owned(), "<source file='{{ path }}'/>".to_owned()),
    ];
    let xml = render_domain_xml(&templates, &laboratory("lab", Network::Public), &windows_machine(), "/d/win.qcow2");
    assert_eq!(xml.ok(), Some("win|Win &lt;1&gt;|4096|2|&#x2F;d&#x2F;win.qcow2|lab-public|true".to_owned()));
    let drive = render_drive_xml(&templates, "/d/seed.iso");
    assert_eq!(drive.ok(), Some("<source file='&#x2F;d&#x2F;seed.iso'/>".to_owned()));
    let broken = vec![("libvirt/kvm/configuration-drive.xml".to_owned(), "{% if %}".to_owned())];
    match render_drive_xml(&broken, "/d/seed.iso") {
        Err(ProviderError::Template { .. }) => {}
        _ => panic!("expected a template error"),
    }
}

#[test]
fn bridge_names() {
    assert_eq!(bridge_name_internal("lab"), "br-lab");
    assert_eq!(bridge_name_internal("Malware-Analysis-Lab"), "br-malwareanaly");
    assert_eq!(bridge_name_internal("---"), "br-malina");
}

#[test]
fn subnets_follow_the_name_hash() {
    assert_eq!(network_subnet_internal("lab"), "10.162.244");
    assert_eq!(network_subnet_internal("malware-analysis-lab"), "10.32.227");
    assert_eq!(network_subnet_internal(""), "10.173.197");
}

#[test]
fn network_definition() {
    assert_eq!(
        render_network_xml_internal("lab"),
        "<network><name>lab</name><forward mode='nat'/><bridge name='br-lab' stp='on' delay='0'/><ip address='10.162.244.1' netmask='255.255.255.0'><dhcp><range start='10.162.244.2' end='10.162.244.254'/></dhcp></ip></network>"
    );
}

#[test]
fn attached_network_is_read_from_the_domain() {
    let xml = "<domain><devices><interface type='network'><source network='lab'/></interface></devices></domain>";
    assert_eq!(network_name_from_domain_xml(xml), Some("lab".to_owned()));
    assert_eq!(network_name_from_domain_xml("<domain/>"), None);
    assert_eq!(network_name_from_domain_xml("<source network='unterminated"), None);
}

#[test]
fn domain_states() {
    assert_eq!(map_domain_state(DOMAIN_SHUTOFF), Machine::Planned);
    assert_eq!(map_domain_state(DOMAIN_SHUTDOWN), Machine::Planned);
    assert_eq!(map_domain_state(DOMAIN_CRASHED), Machine::Failed);
    assert_eq!(map_domain_state(DOMAIN_RUNNING), Machine::Provisioning);
    assert_eq!(map_domain_state(DOMAIN_PAUSED), Machine::Provisioning);
}

#[test]
fn attachment_flags() {
    assert_eq!(domain_attachment_flags(true), 3);
    assert_eq!(domain_attachment_flags(false), 2);
}

#[test]
fn stopping() {
    assert_eq!(stop_method(false, true), StopMethod::AlreadyStopped);
    assert_eq!(stop_method(true, true), StopMethod::Destroy);
    assert_eq!(stop_method(true, false), StopMethod::Shutdown);
}

#[test]
fn creation_errors() {
    match create_machine_error("vm-0", 4096, true, "out of memory") {
        ProviderError::ResourceExhausted { resource_type, available, required } => {
            assert_eq!(resource_type, "memory");
            assert_eq!(available, 0);
            assert_eq!(required, 4096);
        }
        _ => panic!("expected an exhausted resource"),
    }
    match create_machine_error("vm-0", 4096, false, "bad xml") {
        ProviderError::OperationFailed { operation, identifier, reason, .. } => {
            assert_eq!(operation, "create_machine");
            assert_eq!(identifier, "vm-0");
            assert_eq!(reason, "bad xml");
        }
        _ => panic!("expected a failed operation"),
    }
}

#[test]
fn kvm_provider() {
    let templates = vec![
        ("base.xml".to_owned(), "<d>{% block body %}{% endblock body %}</d>".to_owned()),
        ("child.xml".to_owned(), "{% extends \"base.xml\" %}{% block body %}{{ name }}{% endblock body %}".to_owned()),
    ];
    let kvm = Kvm::new(&templates).ok().expect("registers");
    assert_eq!(kvm.identifier(), "kvm");
    assert_eq!(kvm.configuration.provider_identifier, "kvm");
    assert_eq!(kvm.configuration.uri, "qemu:///system");
}

#[test]
fn network_plans() {
    use_plan(false, false, false, (true, true, true));
    use_plan(true, true, true, (false, false, true));
    use_plan(true, false, false, (false, true, false));
}

fn use_plan(listed: bool, active: bool, persistent: bool, expected: (bool, bool, bool)) {
    let plan = malina::providers::libvirt::network_plan(listed, active, persistent);
    assert_eq!((plan.define, plan.start, plan.autostart), expected);
}

#[test]
fn kvm_provider_refuses_a_broken_template() {
    let templates = vec![
        ("good".to_owned(), "{{ name }}".to_owned()),
        ("bad".to_owned(), "{% if %}".to_owned()),
        ("worse".to_owned(), "{{".to_owned()),
    ];
    match Kvm::new(&templates) {
        Err(malina::errors::template::Template::Registration { name, reason }) => {
            assert_eq!(name, "bad");
            assert!(!reason.is_empty());
        }
        _ => panic!("expected a registration error"),
    }
}
