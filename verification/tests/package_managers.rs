use malina::laboratories::machines::operating_system::{
    DebianVersion, FedoraVersion, LinuxDistribution, OperatingSystem, WindowsVersion,
};
use malina::laboratories::machines::packages::Manager;
use malina::package_managers::{shell_quote, shell_quote_join};
use malina::span::{Span, Spanned};

fn image() -> Spanned<String> {
    Spanned { value: "image.qcow2".to_owned(), span: Span { start: 0, end: 0 } }
}

fn debian() -> OperatingSystem {
    OperatingSystem::Linux { distribution: LinuxDistribution::Debian(DebianVersion::Debian13), image: image() }
}

fn fedora() -> OperatingSystem {
    OperatingSystem::Linux { distribution: LinuxDistribution::Fedora(FedoraVersion::Fedora43), image: image() }
}

fn windows() -> OperatingSystem {
    OperatingSystem::Windows { version: WindowsVersion::Windows11, image: image() }
}

#[test]
fn quoting() {
    assert_eq!(shell_quote("ghidra"), "'ghidra'");
    assert_eq!(shell_quote("it's"), "'it'\\''s'");
    assert_eq!(shell_quote(""), "''");
    assert_eq!(shell_quote_join(&["a b", "c"]), "'a b' 'c'");
    assert_eq!(shell_quote_join(&[]), "");
}

#[test]
fn apt_commands() {
    assert_eq!(Manager::Apt.install_package_manager_command(&debian()), None);
    assert_eq!(
        Manager::Apt.install_package_manager_command(&fedora()),
        Some("export DEBIAN_FRONTEND=noninteractive\napt-get -yq update\napt-get -yq install apt")
    );
    assert_eq!(
        Manager::Apt.install_packages_command(&["radare2", "file"]),
        Some("export DEBIAN_FRONTEND=noninteractive\napt-get -o Dpkg::Options::=--force-confdef -o Dpkg::Options::=--force-confold -yq update\napt-get -o Dpkg::Options::=--force-confdef -o Dpkg::Options::=--force-confold -yq install 'radare2' 'file'".to_owned())
    );
    assert_eq!(Manager::Apt.install_packages_command(&[]), None);
}

#[test]
fn dnf_commands() {
    assert_eq!(Manager::Dnf.install_package_manager_command(&fedora()), None);
    assert_eq!(Manager::Dnf.install_package_manager_command(&debian()), Some("dnf makecache -y\ndnf install -y dnf"));
    assert_eq!(
        Manager::Dnf.install_packages_command(&["strace"]),
        Some("dnf makecache -y\ndnf install -y 'strace'".to_owned())
    );
}

#[test]
fn windows_commands() {
    assert_eq!(Manager::Winget.install_package_manager_command(&windows()), None);
    assert_eq!(
        Manager::Winget.install_packages_command(&["A.B", "C"]),
        Some("winget install --exact --id A.B --accept-package-agreements --accept-source-agreements --disable-interactivity\nwinget install --exact --id C --accept-package-agreements --accept-source-agreements --disable-interactivity".to_owned())
    );
    assert!(Manager::Chocolatey.install_package_manager_command(&windows()).is_some());
    assert_eq!(Manager::Chocolatey.install_packages_command(&["7zip"]), Some("choco install -y 7zip".to_owned()));
}

#[test]
fn nix_has_no_commands() {
    assert_eq!(Manager::Nix.install_package_manager_command(&debian()), None);
    assert_eq!(Manager::Nix.install_packages_command(&["hello"]), None);
}

#[test]
fn default_manager_needs_no_setup() {
    for os in [debian(), fedora(), windows()] {
        let default = match os.default_package_manager() {
            Some("apt") => Manager::Apt,
            Some("dnf") => Manager::Dnf,
            Some("winget") => Manager::Winget,
            _ => panic!("unexpected default"),
        };
        assert_eq!(default.install_package_manager_command(&os), None);
    }
}

#[test]
fn manager_names() {
    let names: Vec<&str> = Manager::all().iter().map(|m| m.as_str()).collect();
    assert_eq!(names, vec!["apt", "dnf", "nix", "winget", "chocolatey", "pacman"]);
    assert_eq!(windows().supported_package_managers(), vec!["winget", "chocolatey"]);
    assert_eq!(debian().compatible_package_managers_display(), "`apt` or `nix`");
}
