use malina::errors::seeders::Seeders;
use malina::laboratories::Configuration;
use malina::seeders::cloudbase_init::{CloudbaseInit, ScriptLocation, SeedScript, WindowsSeedArtifact};

const WINDOWS: &str = "version = 1

[laboratory]
name = \"lab\"
network = \"isolated\"
provider = \"kvm\"

[[machines]]
identifier = \"windows-host\"
name = \"Windows Host\"

[machines.hardware]
cpus = 4
memory_megabyte = 8192

[machines.operating_system]
family = \"windows\"
version = \"11\"
image = \"windows-11.qcow2\"

[[machines.users]]
username = \"analyst\"
password = \"pw\"

[machines.packages]
manager = \"chocolatey\"
install = [\"7zip\", \"x64dbg.portable\"]

[[machines.scripts]]
path = \"scripts/first.ps1\"
timeout_seconds = 120
on_failure = \"fail\"

[[machines.scripts]]
path = \"/opt/second.ps1\"
";

fn reason_of(outcome: Result<String, Seeders>) -> String {
    match outcome {
        Err(Seeders::ScriptReadFailed { reason, .. }) => reason,
        _ => panic!("expected a read failure"),
    }
}

#[test]
fn seeder_name() {
    assert_eq!(CloudbaseInit.name(), "cloudbase-init");
}

#[test]
fn scripts_decode_by_byte_order_mark() {
    let seeder = CloudbaseInit;
    assert_eq!(seeder.read_script("a.ps1", b"Write-Host hi").ok(), Some("Write-Host hi".to_owned()));
    assert_eq!(seeder.read_script("a.ps1", &[0xef, 0xbb, 0xbf, b'o', b'k']).ok(), Some("ok".to_owned()));
    let mut utf16 = vec![0xff, 0xfe];
    utf16.extend("dir é".encode_utf16().flat_map(|u| u.to_le_bytes()));
    assert_eq!(seeder.read_script("a.ps1", &utf16).ok(), Some("dir é".to_owned()));
    assert_eq!(seeder.read_script("a.ps1", &[]).ok(), Some(String::new()));
}

#[test]
fn odd_utf16_script_is_refused() {
    let outcome = CloudbaseInit.read_script("odd.ps1", &[0xff, 0xfe, 0x41]);
    match outcome {
        Err(Seeders::ScriptReadFailed { path, reason }) => {
            assert_eq!(path, "odd.ps1");
            assert_eq!(reason, "UTF-16LE script has an odd byte length");
        }
        _ => panic!("expected a read failure"),
    }
}

#[test]
fn undecodable_scripts_are_refused() {
    assert!(!reason_of(CloudbaseInit.read_script("a", &[0xc3, 0x28])).is_empty());
    assert!(!reason_of(CloudbaseInit.read_script("a", &[0xff, 0xfe, 0x00, 0xd8])).is_empty());
}

fn machine() -> malina::laboratories::machines::machine::Machine {
    let mut configuration = Configuration::parse(WINDOWS).ok().expect("parses");
    configuration.machines.value.remove(0)
}

#[test]
fn script_entries_take_defaults() {
    let machine = machine();
    let seeder = CloudbaseInit;
    let locations = seeder.script_locations(&machine, "/labs");
    assert_eq!(locations.len(), 2);
    assert_eq!(locations[1].path, "/opt/second.ps1");
    assert!(locations[1].absolute);
    assert!(!locations[0].absolute);
    assert_eq!(locations[1].file_name.as_deref(), Some("second.ps1"));
    let reads = vec![Ok(b"one".to_vec()), Ok(b"two".to_vec())];
    let entries = seeder.render_script_context(&machine, &locations, &reads).ok().expect("read");
    assert_eq!(entries[0].path, "scripts/first.ps1");
    assert_eq!(entries[0].timeout_seconds, 120);
    assert_eq!(entries[0].on_failure, "fail");
    assert_eq!(entries[0].content, "one");
    assert_eq!(entries[1].path, "scripts/second.ps1");
    assert_eq!(entries[1].timeout_seconds, 300);
    assert_eq!(entries[1].on_failure, "warn");
}

#[test]
fn first_unreadable_script_is_reported() {
    let machine = machine();
    let seeder = CloudbaseInit;
    let locations = vec![
        ScriptLocation { path: "/labs/a.ps1".to_owned(), absolute: true, file_name: None },
        ScriptLocation { path: "/labs/b.ps1".to_owned(), absolute: true, file_name: Some("b.ps1".to_owned()) },
    ];
    let reads = vec![Err("permission denied".to_owned()), Ok(vec![0xff, 0xfe, 0x41])];
    match seeder.render_script_context(&machine, &locations, &reads) {
        Err(Seeders::ScriptReadFailed { path, reason }) => {
            assert_eq!(path, "/labs/a.ps1");
            assert_eq!(reason, "permission denied");
        }
        _ => panic!("expected a read failure"),
    }
    let reads = vec![Ok(b"x".to_vec()), Ok(vec![0xff, 0xfe, 0x41])];
    match seeder.render_script_context(&machine, &locations, &reads) {
        Err(Seeders::ScriptReadFailed { path, reason }) => {
            assert_eq!(path, "/labs/b.ps1");
            assert_eq!(reason, "UTF-16LE script has an odd byte length");
        }
        _ => panic!("expected a read failure"),
    }
    let reads = vec![Ok(b"x".to_vec()), Ok(b"y".to_vec())];
    let entries = seeder.render_script_context(&machine, &locations, &reads).ok().expect("read");
    assert_eq!(entries[0].path, "scripts/script");
}

#[test]
fn packages_step_lists_install_lines() {
    let machine = machine();
    let context = CloudbaseInit.packages_context(&machine).ok().expect("command").expect("packages");
    assert!(context.setup.as_deref().expect("chocolatey needs setting up").contains("chocolatey.org/install.ps1"));
    assert_eq!(context.install.len(), 1);
    assert_eq!(context.install[0], "choco install -y 7zip x64dbg.portable");
}

#[test]
fn manifest_lists_scripts() {
    let seeder = CloudbaseInit;
    assert_eq!(seeder.render_script_manifest(&vec![]), "");
    let scripts = vec![SeedScript {
        path: "scripts/a.ps1".to_owned(),
        timeout_seconds: 300,
        on_failure: "warn".to_owned(),
        content: "x".to_owned(),
    }];
    let manifest = seeder.render_script_manifest(&scripts);
    let value: serde_json::Value = serde_json::from_str(&manifest).expect("JSON");
    assert_eq!(value["scripts"][0]["path"], "scripts/a.ps1");
    assert_eq!(value["scripts"][0]["timeout_seconds"], 300);
    assert_eq!(value["scripts"][0]["on_failure"], "warn");
}

#[test]
fn seed_files_in_order() {
    let scripts = vec![SeedScript {
        path: "scripts/a.ps1".to_owned(),
        timeout_seconds: 300,
        on_failure: "warn".to_owned(),
        content: "x".to_owned(),
    }];
    let files = CloudbaseInit.seed_files("m".to_owned(), "c".to_owned(), "u".to_owned(), "j".to_owned(), &scripts);
    let names: Vec<&str> = files.iter().map(|f| f.0.as_str()).collect();
    assert_eq!(names, vec!["meta-data", "cloudbase-init.conf", "user-data", "scripts.json", "scripts/a.ps1"]);
    let files = CloudbaseInit.seed_files("m".to_owned(), "c".to_owned(), "u".to_owned(), String::new(), &vec![]);
    assert_eq!(files.len(), 3);
}

#[test]
fn artifact_checks() {
    assert!(matches!(WindowsSeedArtifact::new(vec![0; 100]).validate(), Err(Seeders::IsoCreationFailed { .. })));
    let mut image = vec![0u8; 40000];
    image[32769..32774].copy_from_slice(b"CD001");
    let artifact = WindowsSeedArtifact::new(image.clone());
    assert!(artifact.validate().is_ok());
    assert_eq!(artifact.byte_length(), 40000);
    assert_eq!(artifact.into_payload(), image);
    match WindowsSeedArtifact::new(vec![0; 64 * 1024 * 1024 + 1]).validate() {
        Err(Seeders::IsoCreationFailed { reason }) => assert_eq!(
            reason,
            "generated cloudbase-init ISO is 67108865 bytes, which exceeds the 64 MiB limit"
        ),
        _ => panic!("expected the size limit"),
    }
    match WindowsSeedArtifact::new(vec![0; 40000]).validate() {
        Err(Seeders::IsoCreationFailed { reason }) => {
            assert_eq!(reason, "generated cloudbase-init ISO is not a valid ISO 9660 image")
        }
        _ => panic!("expected a missing signature"),
    }
}

#[test]
fn generated_image_is_iso9660() {
    let scripts = vec![SeedScript {
        path: "scripts/a.ps1".to_owned(),
        timeout_seconds: 300,
        on_failure: "warn".to_owned(),
        content: "Write-Host hi".to_owned(),
    }];
    let image = CloudbaseInit
        .generate_iso("instance-id: x\n".to_owned(), "[DEFAULT]\n".to_owned(), "#ps1\n".to_owned(), scripts)
        .ok()
        .expect("image");
    assert_eq!(&image[32769..32774], b"CD001");
    assert!(image.len() <= 64 * 1024 * 1024);
}

#[test]
fn payload_carries_volume_descriptor() {
    let files = vec![
        ("meta_data.json".to_owned(), "{}".to_owned()),
        ("a.ps1".to_owned(), "Write-Host hi".to_owned()),
    ];
    let payload = CloudbaseInit.build_iso_payload(&files).ok().expect("payload");
    assert!(payload.len() >= 32768 + 2048);
    assert_eq!(payload[32768], 1);
    assert_eq!(&payload[32769..32774], b"CD001");
}

#[test]
fn seed_documents_are_rendered() {
    let machine = machine();
    let templates = vec![
        ("cloudbase-init/meta-data".to_owned(), "{{ identifier }} {{ hostname }}".to_owned()),
        ("cloudbase-init/cloudbase-init.conf".to_owned(), "[DEFAULT]".to_owned()),
        ("cloudbase-init/user-data".to_owned(), "{% for u in users %}{{ u.username }}/{{ u.password }} {% endfor %}{% if packages %}{% for line in packages.install %}[{{ line }}]{% endfor %}{% endif %}{{ has_scripts }}".to_owned()),
    ];
    let seeder = CloudbaseInit;
    assert_eq!(seeder.render_meta_data(&templates, &machine).ok(), Some("windows-host Windows Host".to_owned()));
    assert_eq!(seeder.render_configuration(&templates).ok(), Some("[DEFAULT]".to_owned()));
    let user_data = seeder.render_user_data(&templates, &machine, &Vec::new()).ok().expect("renders");
    assert!(user_data.starts_with("analyst/pw "));
    assert!(user_data.ends_with("false"));
    assert!(user_data.contains("7zip"));
}
