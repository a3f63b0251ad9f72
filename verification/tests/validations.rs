use malina::laboratories::machines::hardware::HardwareWarning;
use malina::errors::validation::Validation;
use malina::laboratories::Configuration;
use malina::laboratory::virtual_machine::operating_system::{
    Details, Family, LinuxDistribution, OperatingSystem, WindowsVersion,
};
use malina::validations::hardware::{validate_hardware, validate_machines};

fn configuration(cpus: i64, memory: i64) -> Configuration {
    let source = format!(
        "version = 1\n\n[laboratory]\nname = \"lab\"\nnetwork = \"isolated\"\nprovider = \"kvm\"\n\n[[machines]]\nidentifier = \"vm\"\nname = \"VM\"\n\n[machines.hardware]\ncpus = {cpus}\nmemory_megabyte = {memory}\n\n[machines.operating_system]\nfamily = \"linux\"\ndistribution = \"debian\"\nversion = \"13\"\nimage = \"d.qcow2\"\n\n[[machines.users]]\nusername = \"a\"\npassword = \"b\"\n"
    );
    Configuration::parse(&source).ok().expect("parses")
}

#[test]
fn hardware_floor() {
    let ok = configuration(2, 1024);
    assert!(validate_hardware(&ok.machines.value[0], 4).is_ok());
    let no_cpu = configuration(0, 1024);
    assert!(matches!(validate_hardware(&no_cpu.machines.value[0], 4), Err(Validation::InsufficientCpu { actual: 0, .. })));
    let little = configuration(2, 256);
    match validate_hardware(&little.machines.value[0], 4) {
        Err(Validation::InsufficientMemory { actual, minimum, .. }) => {
            assert_eq!(actual, 256);
            assert_eq!(minimum, 512);
        }
        _ => panic!("expected too little memory"),
    }
    assert!(matches!(
        validate_hardware(&ok.machines.value[0], 1),
        Err(Validation::ExcessiveCpu { requested: 2, host_cpus: 1, .. })
    ));
}

#[test]
fn cpu_floor_comes_before_memory_floor() {
    let both = configuration(0, 0);
    assert!(matches!(validate_hardware(&both.machines.value[0], 4), Err(Validation::InsufficientCpu { .. })));
}

#[test]
fn every_machine_is_checked() {
    let ok = configuration(2, 1024);
    assert!(validate_machines(&ok.machines.value, 8).is_ok());
    assert!(validate_machines(&ok.machines.value, 1).is_err());
    assert!(validate_machines(&[], 1).is_ok());
}

#[test]
fn family_follows_details() {
    let linux = Details::Linux { distribution: LinuxDistribution::Ubuntu };
    assert_eq!(Family::from(&linux), Family::Linux);
    let windows = Details::Windows { version: WindowsVersion::Windows10 };
    let os = OperatingSystem::new("w.qcow2".to_owned(), windows);
    assert_eq!(os.family, Family::Windows);
    assert_eq!(os.image, "w.qcow2");
}

#[test]
fn hardware_warning_messages() {
    assert_eq!(
        HardwareWarning::LowMemory { actual: 2048 }.message("vm"),
        "Machine 'vm' memory 2048MB (8192MB recommended) may trigger VM detection"
    );
    assert_eq!(
        HardwareWarning::FewCpus { actual: 2 }.message("vm"),
        "Machine 'vm' has 2 CPUs (4 recommended) may trigger VM detection"
    );
}
