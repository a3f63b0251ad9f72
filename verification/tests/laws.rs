use malina::deployment::naming::correlation_identifier;
use malina::laboratories::laboratory::Network;
use malina::laboratories::machines::packages::Manager;
use malina::laboratories::machines::script::OnFailure;
use malina::laboratories::Configuration;
use malina::package_managers::shell_quote;
use malina::seeders::cloudbase_init::CloudbaseInit;
use malina::template::utf16le_bytes;

/// How a POSIX shell reads one word (single quotes, backslash escapes).
fn read_word(text: &str) -> Option<String> {
    let mut out = String::new();
    let mut quoted = false;
    let mut chars = text.chars();
    while let Some(c) = chars.next() {
        if quoted {
            if c == '\'' {
                quoted = false;
            } else {
                out.push(c);
            }
        } else if c == '\'' {
            quoted = true;
        } else if c == '\\' {
            out.push(chars.next()?);
        } else if c == ' ' || c == '\t' || c == '\n' {
            return None;
        } else {
            out.push(c);
        }
    }
    if quoted { None } else { Some(out) }
}

#[test]
fn quoted_words_read_back() {
    for text in ["", "plain", "it's", "a b", "$(rm -rf /)", "'", "''\\'", "tab\there", "new\nline"] {
        assert_eq!(read_word(&shell_quote(text)), Some(text.to_owned()), "quoting {:?}", text);
    }
}

#[test]
fn utf16_scripts_read_back() {
    for text in ["", "Write-Host 'hi'", "é ü ß", "😀 emoji", "line\r\nbreak"] {
        let mut bytes = vec![0xff, 0xfe];
        bytes.extend(utf16le_bytes(text));
        assert_eq!(CloudbaseInit.read_script("s.ps1", &bytes).ok(), Some(text.to_owned()));
    }
}

fn configuration(network: &str, manager: &str, policy: &str) -> Configuration {
    let source = format!(
        "version = 1\n\n[laboratory]\nname = \"lab\"\nnetwork = \"{network}\"\nprovider = \"kvm\"\n\n[[machines]]\nidentifier = \"vm\"\nname = \"VM\"\n\n[machines.hardware]\ncpus = 2\nmemory_megabyte = 2048\n\n[machines.operating_system]\nfamily = \"windows\"\nversion = \"11\"\nimage = \"w.qcow2\"\n\n[[machines.users]]\nusername = \"a\"\npassword = \"b\"\n\n[machines.packages]\nmanager = \"{manager}\"\ninstall = [\"x\"]\n\n[[machines.scripts]]\npath = \"s.ps1\"\non_failure = \"{policy}\"\n"
    );
    Configuration::parse(&source).ok().expect("parses")
}

#[test]
fn words_read_back() {
    for network in [Network::Isolated, Network::Preserved, Network::Private, Network::Public] {
        for manager in [Manager::Apt, Manager::Dnf, Manager::Nix, Manager::Winget, Manager::Chocolatey, Manager::Pacman] {
            for policy in [OnFailure::Warn, OnFailure::Fail, OnFailure::Error, OnFailure::Ignore] {
                let read = configuration(network.as_str(), manager.as_str(), policy.as_str());
                assert_eq!(read.laboratory.network, network);
                let machine = &read.machines.value[0];
                assert_eq!(machine.packages.as_ref().map(|p| p.manager.value), Some(manager));
                let scripts = machine.scripts.as_ref().expect("scripts");
                assert_eq!(scripts[0].on_failure.as_ref().map(|p| p.value), Some(policy));
            }
        }
    }
}

#[test]
fn bridge_names_fit_interface_names() {
    for name in ["", "a", "A-Very-Long-Laboratory-Name-With-Digits-0123456789", "ümlaut-lab", "lab_1"] {
        let bridge = malina::providers::libvirt::bridge_name_internal(name);
        assert!(bridge.len() <= 15, "{:?}", bridge);
        assert!(bridge.starts_with("br-"));
        assert!(bridge[3..].chars().all(|c| c.is_ascii_lowercase() || c.is_ascii_digit()));
    }
}

#[test]
fn subnets_stay_in_the_private_range() {
    for name in ["", "lab", "default", "x", "malware-analysis-lab", "zzzzzzzz"] {
        let subnet = malina::providers::libvirt::network_subnet_internal(name);
        let octets: Vec<u32> = subnet.split('.').map(|o| o.parse().expect("number")).collect();
        assert_eq!(octets[0], 10);
        assert!((16..=255).contains(&octets[1]));
        assert!(octets[2] <= 255);
    }
}

#[test]
fn correlation_identifiers_differ() {
    let runs = [(1, 2, 3), (1, 2, 4), (1, 3, 2), (2, 1, 3), (0x12, 0x3, 0x4), (0x1, 0x23, 0x4)];
    let identifiers: Vec<String> = runs.iter().map(|&(s, n, p)| correlation_identifier("lab-1", s, n, p)).collect();
    for i in 0..identifiers.len() {
        for j in 0..i {
            assert_ne!(identifiers[i], identifiers[j]);
        }
    }
}

#[test]
fn written_path_facts() {
    let facts = malina::paths::inspect("/labs", "./images/windows-11.qcow2");
    assert!(!facts.absolute);
    assert_eq!(facts.file_name.as_deref(), Some("windows-11.qcow2"));
    assert_eq!(facts.extension.as_deref(), Some("qcow2"));
    let hidden = malina::paths::inspect("/labs", "scripts/.profile");
    assert_eq!(hidden.file_name.as_deref(), Some(".profile"));
    assert_eq!(hidden.extension, None);
    let dotted = malina::paths::inspect("/labs", "a/..x");
    assert_eq!(dotted.extension.as_deref(), Some("x"));
    let trailing = malina::paths::inspect("/labs", "a/b.");
    assert_eq!(trailing.extension.as_deref(), Some(""));
}

#[test]
fn relative_paths_join_the_configuration_directory() {
    assert_eq!(malina::paths::resolve("/labs", "images/x.qcow2"), (false, "/labs/images/x.qcow2".to_owned()));
    assert_eq!(malina::paths::resolve("/labs/", "x.ps1"), (false, "/labs/x.ps1".to_owned()));
    assert_eq!(malina::paths::resolve("", "x.ps1"), (false, "x.ps1".to_owned()));
    assert_eq!(malina::paths::resolve("/labs", "/abs/x.ps1"), (true, "/abs/x.ps1".to_owned()));
    assert_eq!(malina::paths::inspect("/labs", "./a.qcow2").resolved, "/labs/./a.qcow2");
}

#[test]
fn blank_paths_are_not_looked_up() {
    let facts = malina::paths::inspect("/", "  ");
    assert!(!facts.exists);
    assert!(!facts.is_file);
    assert!(!malina::paths::inspect("/", "").exists);
}
