use malina::errors::validation::{SourceSpan, Validation};
use malina::laboratories::laboratory::{Network, Provider};
use malina::laboratories::machines::hardware::HostResources;
use malina::laboratories::machines::machine::MachineFacts;
use malina::laboratories::machines::operating_system::{
    DebianVersion, LinuxDistribution, OperatingSystem, UbuntuVersion, WindowsVersion,
};
use malina::laboratories::machines::packages::Manager;
use malina::laboratories::machines::script::OnFailure;
use malina::laboratories::Configuration;
use malina::paths::PathFacts;

const LABORATORY: &str = "version = 1

[laboratory]
name = \"malware-analysis-lab\"
network = \"isolated\"
provider = \"kvm\"
";

const LINUX_MACHINE: &str = "
[[machines]]
identifier = \"linux-host\"
name = \"Linux Analysis Host\"

[machines.hardware]
cpus = 4
memory_megabyte = 8192

[machines.operating_system]
family = \"linux\"
distribution = \"debian\"
version = \"13\"
image = \"./images/debian-13.qcow2\"

[[machines.users]]
username = \"analyst\"
password = \"secure_password_123\"
";

const WINDOWS_MACHINE: &str = "
[[machines]]
identifier = \"windows-host\"
name = \"Windows Analysis Host\"

[machines.hardware]
cpus = 4
memory_megabyte = 8192

[machines.operating_system]
family = \"windows\"
version = \"11\"
image = \"./images/windows-11.qcow2\"

[[machines.users]]
username = \"analyst\"
password = \"secure_password_123\"

[machines.packages]
manager = \"winget\"
install = [\"Microsoft.WinDbg\"]

[[machines.scripts]]
path = \"./scripts/disable-defender.ps1\"
timeout_seconds = 800
on_failure = \"warn\"
";

fn complete() -> String {
    format!("{}{}{}", LABORATORY, LINUX_MACHINE, WINDOWS_MACHINE)
}

fn invalid(source: &str) -> (String, Option<SourceSpan>) {
    match Configuration::parse(source) {
        Err(Validation::InvalidConfiguration { message, span }) => (message, span),
        Err(_) => panic!("another kind of error"),
        Ok(_) => panic!("the configuration was accepted"),
    }
}

fn file(path: &str, extension: &str, name: &str) -> PathFacts {
    PathFacts {
        absolute: false,
        resolved: format!("/labs/{}", path),
        exists: true,
        is_file: true,
        extension: Some(extension.to_owned()),
        file_name: Some(name.to_owned()),
    }
}

fn facts_of_complete() -> Vec<MachineFacts> {
    vec![
        MachineFacts { image: file("images/debian-13.qcow2", "qcow2", "debian-13.qcow2"), scripts: vec![] },
        MachineFacts {
            image: file("images/windows-11.qcow2", "qcow2", "windows-11.qcow2"),
            scripts: vec![file("scripts/disable-defender.ps1", "ps1", "disable-defender.ps1")],
        },
    ]
}

fn host() -> HostResources {
    HostResources { cpus: 16, memory_megabyte: 65536 }
}

#[test]
fn complete_example_is_read() {
    let configuration = Configuration::parse(&complete()).ok().expect("parses");
    assert_eq!(configuration.version.value, 1);
    assert_eq!(configuration.laboratory.name, "malware-analysis-lab");
    assert_eq!(configuration.laboratory.network, Network::Isolated);
    assert_eq!(configuration.laboratory.provider, Provider::Kvm);
    let machines = &configuration.machines.value;
    assert_eq!(machines.len(), 2);
    assert_eq!(machines[0].identifier.value.as_str(), "linux-host");
    assert_eq!(machines[0].name, "Linux Analysis Host");
    assert_eq!(machines[0].hardware.cpus.value, 4);
    assert_eq!(machines[0].hardware.memory_megabyte.value, 8192);
    match &machines[0].operating_system {
        OperatingSystem::Linux { distribution, image } => {
            assert_eq!(*distribution, LinuxDistribution::Debian(DebianVersion::Debian13));
            assert_eq!(image.value, "./images/debian-13.qcow2");
        }
        _ => panic!("expected Linux"),
    }
    assert_eq!(machines[0].users.value.len(), 1);
    assert_eq!(machines[0].users.value[0].username.value, "analyst");
    assert!(machines[0].packages.is_none());
    assert!(machines[0].scripts.is_none());
    match &machines[1].operating_system {
        OperatingSystem::Windows { version, image } => {
            assert_eq!(*version, WindowsVersion::Windows11);
            assert_eq!(image.value, "./images/windows-11.qcow2");
        }
        _ => panic!("expected Windows"),
    }
    let packages = machines[1].packages.as_ref().expect("packages");
    assert_eq!(packages.manager.value, Manager::Winget);
    assert_eq!(packages.install.value.len(), 1);
    assert_eq!(packages.install.value[0].value, "Microsoft.WinDbg");
    let scripts = machines[1].scripts.as_ref().expect("scripts");
    assert_eq!(scripts.len(), 1);
    assert_eq!(scripts[0].path.value, "./scripts/disable-defender.ps1");
    assert_eq!(scripts[0].timeout_seconds.as_ref().map(|t| t.value), Some(800));
    assert_eq!(scripts[0].on_failure.as_ref().map(|p| p.value), Some(OnFailure::Warn));
}

#[test]
fn spans_locate_values() {
    let source = complete();
    let configuration = Configuration::parse(&source).ok().expect("parses");
    let identifier = &configuration.machines.value[0].identifier;
    let written = &source[identifier.span.start..identifier.span.end];
    assert!(written.contains("linux-host"));
    let cpus = &configuration.machines.value[0].hardware.cpus;
    assert_eq!(&source[cpus.span.start..cpus.span.end], "4");
}

#[test]
fn missing_version_is_refused() {
    let source = "[laboratory]\nname = \"lab\"\nnetwork = \"isolated\"\nprovider = \"kvm\"\n";
    let (message, span) = invalid(source);
    assert_eq!(message, "missing field `version`");
    assert_eq!(span, Some(SourceSpan { offset: 0, length: source.len() }));
}

#[test]
fn missing_machines_is_refused() {
    let (message, _) = invalid(LABORATORY);
    assert_eq!(message, "missing field `machines`");
}

#[test]
fn unknown_top_level_field_is_refused() {
    let source = format!("colour = \"blue\"\n{}", complete());
    let (message, span) = invalid(&source);
    assert_eq!(message, "unknown field `colour`, expected one of `version`, `laboratory` or `machines`");
    assert_eq!(span, Some(SourceSpan { offset: 0, length: 6 }));
}

#[test]
fn unknown_machine_fields_are_listed() {
    let machine = LINUX_MACHINE.replace("name = \"Linux Analysis Host\"", "name = \"Linux Analysis Host\"\ncolor = 1\nsize = 2");
    let source = format!("{}{}", LABORATORY, machine);
    let (message, _) = invalid(&source);
    assert_eq!(
        message,
        "unknown fields `color` or `size`, expected one of `identifier`, `name`, `hardware`, `operating_system`, `users`, `packages` or `scripts`"
    );
}

#[test]
fn version_of_wrong_kind_is_refused() {
    let source = complete().replacen("version = 1", "version = \"1\"", 1);
    let (message, span) = invalid(&source);
    assert_eq!(message, "found string, expected u64");
    assert!(span.is_some());
}

#[test]
fn negative_version_is_out_of_range() {
    let source = complete().replacen("version = 1", "version = -1", 1);
    let (message, _) = invalid(&source);
    assert_eq!(message, "out of range of 'u64'");
}

#[test]
fn unknown_network_is_refused() {
    let source = complete().replace("network = \"isolated\"", "network = \"bridged\"");
    let (message, _) = invalid(&source);
    assert_eq!(message, "unknown variant `bridged`, expected `isolated`, `preserved`, `private` or `public`");
}

#[test]
fn documented_network_modes_are_read() {
    for (word, network) in [("private", Network::Private), ("public", Network::Public), ("preserved", Network::Preserved)] {
        let source = complete().replace("network = \"isolated\"", &format!("network = \"{}\"", word));
        let configuration = Configuration::parse(&source).ok().expect("parses");
        assert_eq!(configuration.laboratory.network, network);
    }
}

#[test]
fn hardware_defaults_fill_left_out_numbers() {
    let source = format!("{}{}", LABORATORY, LINUX_MACHINE.replace("cpus = 4\n", ""));
    let configuration = Configuration::parse(&source).ok().expect("parses");
    let hardware = &configuration.machines.value[0].hardware;
    assert_eq!((hardware.cpus.value, hardware.memory_megabyte.value), (1, 8192));
    let source = format!("{}{}", LABORATORY, LINUX_MACHINE.replace("memory_megabyte = 8192\n", ""));
    let configuration = Configuration::parse(&source).ok().expect("parses");
    let hardware = &configuration.machines.value[0].hardware;
    assert_eq!((hardware.cpus.value, hardware.memory_megabyte.value), (4, 512));
}

#[test]
fn unknown_provider_is_refused() {
    let source = complete().replace("provider = \"kvm\"", "provider = \"xen\"");
    let (message, _) = invalid(&source);
    assert_eq!(message, "unknown variant `xen`, expected `kvm`");
}

#[test]
fn negative_cpu_count_is_out_of_range() {
    let source = format!("{}{}", LABORATORY, LINUX_MACHINE.replace("cpus = 4", "cpus = -1"));
    let (message, _) = invalid(&source);
    assert_eq!(message, "out of range of 'u32'");
}

#[test]
fn identifier_must_be_kebab_case() {
    let source = format!("{}{}", LABORATORY, LINUX_MACHINE.replace("\"linux-host\"", "\"Linux_Host\""));
    let (message, _) = invalid(&source);
    assert_eq!(
        message,
        "unknown variant `Linux_Host`, expected `kebab-case identifier (lowercase letters, numbers, hyphens, starting with letter)`"
    );
}

#[test]
fn unknown_family_is_refused() {
    let source = format!("{}{}", LABORATORY, LINUX_MACHINE.replace("family = \"linux\"", "family = \"bsd\""));
    let (message, _) = invalid(&source);
    assert_eq!(message, "unknown variant `bsd`, expected `linux` or `windows`");
}

#[test]
fn unsupported_debian_release_is_refused() {
    let source = format!("{}{}", LABORATORY, LINUX_MACHINE.replace("version = \"13\"", "version = \"12\""));
    let (message, _) = invalid(&source);
    assert_eq!(message, "unknown variant `12`, expected `13`");
}

#[test]
fn unsupported_distribution_is_refused() {
    let source = format!("{}{}", LABORATORY, LINUX_MACHINE.replace("\"debian\"", "\"arch\""));
    let (message, _) = invalid(&source);
    assert_eq!(message, "unknown variant `arch`, expected `debian`, `fedora` or `ubuntu`");
}

#[test]
fn documented_ubuntu_machine_is_read() {
    let linux = LINUX_MACHINE
        .replace("\"debian\"", "\"ubuntu\"")
        .replace("version = \"13\"", "version = \"24.04\"")
        .replace("debian-13.qcow2", "ubuntu-24.04.qcow2");
    let configuration = Configuration::parse(&format!("{}{}", LABORATORY, linux)).ok().expect("parses");
    match &configuration.machines.value[0].operating_system {
        OperatingSystem::Linux { distribution, image } => {
            assert_eq!(*distribution, LinuxDistribution::Ubuntu(UbuntuVersion::Ubuntu2404));
            assert_eq!(image.value, "./images/ubuntu-24.04.qcow2");
        }
        _ => panic!("expected Linux"),
    }
}

#[test]
fn documented_windows_ten_machine_is_read() {
    let windows = WINDOWS_MACHINE.replace("version = \"11\"", "version = \"10\"").replace("windows-11", "windows-10");
    let configuration = Configuration::parse(&format!("{}{}", LABORATORY, windows)).ok().expect("parses");
    match &configuration.machines.value[0].operating_system {
        OperatingSystem::Windows { version, image } => {
            assert_eq!(*version, WindowsVersion::Windows10);
            assert_eq!(image.value, "./images/windows-10.qcow2");
        }
        _ => panic!("expected Windows"),
    }
}

#[test]
fn unsupported_windows_release_is_refused() {
    let source = format!("{}{}", LABORATORY, WINDOWS_MACHINE.replace("version = \"11\"", "version = \"8\""));
    let (message, _) = invalid(&source);
    assert_eq!(message, "unknown variant `8`, expected `10` or `11`");
}

#[test]
fn unknown_failure_policy_is_refused() {
    let source = format!("{}{}", LABORATORY, WINDOWS_MACHINE.replace("on_failure = \"warn\"", "on_failure = \"panic\""));
    let (message, _) = invalid(&source);
    assert_eq!(message, "unknown variant `panic`, expected `warn`, `fail`, `error` or `ignore`");
}

#[test]
fn documented_failure_policies_are_read() {
    for (word, policy) in [("error", OnFailure::Error), ("ignore", OnFailure::Ignore), ("fail", OnFailure::Fail)] {
        let windows = WINDOWS_MACHINE.replace("on_failure = \"warn\"", &format!("on_failure = \"{}\"", word));
        let configuration = Configuration::parse(&format!("{}{}", LABORATORY, windows)).ok().expect("parses");
        let scripts = configuration.machines.value[0].scripts.as_ref().expect("scripts");
        assert_eq!(scripts[0].on_failure.as_ref().map(|p| p.value), Some(policy));
    }
}

#[test]
fn unknown_package_manager_is_refused() {
    let source = format!("{}{}", LABORATORY, WINDOWS_MACHINE.replace("manager = \"winget\"", "manager = \"brew\""));
    let (message, _) = invalid(&source);
    assert_eq!(message, "unknown variant `brew`, expected `apt`, `dnf`, `nix`, `winget`, `chocolatey` or `pacman`");
}

#[test]
fn documented_pacman_manager_is_read() {
    let windows = WINDOWS_MACHINE.replace("manager = \"winget\"", "manager = \"pacman\"");
    let configuration = Configuration::parse(&format!("{}{}", LABORATORY, windows)).ok().expect("parses");
    let packages = configuration.machines.value[0].packages.as_ref().expect("packages");
    assert_eq!(packages.manager.value, Manager::Pacman);
}

#[test]
fn package_name_of_wrong_kind_is_refused() {
    let source = format!("{}{}", LABORATORY, WINDOWS_MACHINE.replace("[\"Microsoft.WinDbg\"]", "[1]"));
    let (message, _) = invalid(&source);
    assert_eq!(message, "found integer, expected a string");
}

#[test]
fn missing_user_password_is_refused() {
    let source = format!("{}{}", LABORATORY, LINUX_MACHINE.replace("password = \"secure_password_123\"\n", ""));
    let (message, _) = invalid(&source);
    assert_eq!(message, "missing field `password`");
}

#[test]
fn syntax_error_is_reported() {
    let (message, _) = invalid("version = ");
    assert!(!message.is_empty());
}

#[test]
fn complete_example_passes_the_checks() {
    let configuration = Configuration::parse(&complete()).ok().expect("parses");
    assert!(configuration.check(&host(), &facts_of_complete()).is_ok());
}

#[test]
fn duplicate_identifiers_are_refused() {
    let source = format!("{}{}{}", LABORATORY, LINUX_MACHINE, LINUX_MACHINE);
    let configuration = Configuration::parse(&source).ok().expect("parses");
    let image = file("images/debian-13.qcow2", "qcow2", "debian-13.qcow2");
    let facts = vec![
        MachineFacts { image: file("images/debian-13.qcow2", "qcow2", "debian-13.qcow2"), scripts: vec![] },
        MachineFacts { image, scripts: vec![] },
    ];
    match configuration.check(&host(), &facts) {
        Err(Validation::DuplicateMachineIdentifier { identifier, indices, .. }) => {
            assert_eq!(identifier, "linux-host");
            assert_eq!(indices, "0, 1");
        }
        _ => panic!("expected a duplicate identifier"),
    }
}

#[test]
fn other_format_version_is_refused() {
    let source = complete().replacen("version = 1", "version = 2", 1);
    let configuration = Configuration::parse(&source).ok().expect("parses");
    match configuration.check(&host(), &facts_of_complete()) {
        Err(Validation::FormatVersionMismatch { actual, expected, .. }) => {
            assert_eq!(actual, 2);
            assert_eq!(expected, 1);
        }
        _ => panic!("expected a version mismatch"),
    }
}

#[test]
fn empty_machine_list_is_refused() {
    let source = LABORATORY.replace("\n[laboratory]", "machines = []\n\n[laboratory]");
    let configuration = Configuration::parse(&source).ok().expect("parses");
    assert!(matches!(configuration.check(&host(), &vec![]), Err(Validation::EmptyMachines { .. })));
}

#[test]
fn machine_exceeding_host_cpus_is_refused() {
    let configuration = Configuration::parse(&complete()).ok().expect("parses");
    let small = HostResources { cpus: 2, memory_megabyte: 65536 };
    match configuration.check(&small, &facts_of_complete()) {
        Err(Validation::ExcessiveCpu { requested, host_cpus, machine_identifier, .. }) => {
            assert_eq!(requested, 4);
            assert_eq!(host_cpus, 2);
            assert_eq!(machine_identifier, "linux-host");
        }
        _ => panic!("expected too many CPUs"),
    }
}

#[test]
fn missing_image_is_refused() {
    let configuration = Configuration::parse(&complete()).ok().expect("parses");
    let mut facts = facts_of_complete();
    facts[0].image.exists = false;
    facts[0].image.is_file = false;
    assert!(matches!(configuration.check(&host(), &facts), Err(Validation::ImageNotFound { .. })));
}

#[test]
fn unsupported_image_extension_is_refused() {
    let configuration = Configuration::parse(&complete()).ok().expect("parses");
    let mut facts = facts_of_complete();
    facts[0].image.extension = Some("vdi".to_owned());
    match configuration.check(&host(), &facts) {
        Err(Validation::InvalidImageExtension { actual, supported, .. }) => {
            assert_eq!(actual, "vdi");
            assert_eq!(supported, "`qcow2`");
        }
        _ => panic!("expected an unsupported extension"),
    }
}

#[test]
fn host_report_rounds_memory_down() {
    let host = HostResources::from_report(Some((8, 17179869184 + 1048575)));
    assert_eq!(host, HostResources { cpus: 8, memory_megabyte: 16384 });
    let nothing = HostResources::from_report(None);
    assert_eq!(nothing, HostResources { cpus: 0, memory_megabyte: 0 });
    let detected = HostResources::detect();
    assert!(detected.memory_megabyte <= u64::MAX / 1048576);
}

#[test]
fn overview_lists_the_machines() {
    let configuration = Configuration::parse(&complete()).ok().expect("parses");
    assert_eq!(
        configuration.overview(),
        "✓ Configuration is valid\n  - Laboratory name: malware-analysis-lab\n  - Provider: kvm\n  - Machines: 2\n    ✓ linux-host (4 CPUs, 8GB RAM)\n    ✓ windows-host (4 CPUs, 8GB RAM)"
    );
}

#[test]
fn version_is_checked_before_the_machines() {
    let source = complete().replacen("version = 1", "version = 2", 1);
    let configuration = Configuration::parse(&source).ok().expect("parses");
    match configuration.validate("/nonexistent") {
        Err(Validation::FormatVersionMismatch { actual, expected, .. }) => assert_eq!((actual, expected), (2, 1)),
        _ => panic!("expected a version mismatch"),
    }
}
