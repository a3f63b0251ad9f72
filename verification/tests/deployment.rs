use malina::deployment::driver::{
    ActionFailure, Clock, Deployment, DeploymentAction, DeploymentError, DeploymentOutcome, MachineAction,
};
use malina::deployment::naming::{copied_image_file_name, correlation_identifier, deployment_summary_file_name};
use malina::deployment::summary::{DeploymentStatus, PhaseStatus};
use malina::laboratories::machines::machine::Machine;
use malina::laboratories::Configuration;

fn machines(count: usize) -> Vec<Machine> {
    let mut source = String::from(
        "version = 1\n\n[laboratory]\nname = \"lab\"\nnetwork = \"isolated\"\nprovider = \"kvm\"\n",
    );
    for i in 0..count {
        source.push_str(&format!(
            "\n[[machines]]\nidentifier = \"vm-{i}\"\nname = \"Machine {i}\"\n\n[machines.hardware]\ncpus = 2\nmemory_megabyte = 2048\n\n[machines.operating_system]\nfamily = \"linux\"\ndistribution = \"fedora\"\nversion = \"43\"\nimage = \"fedora.qcow2\"\n\n[[machines.users]]\nusername = \"analyst\"\npassword = \"pw\"\n"
        ));
    }
    Configuration::parse(&source).ok().expect("parses").machines.value
}

fn calm(at: u64) -> Clock {
    Clock { interrupted: false, elapsed_nanoseconds: 1_000, now_unix_seconds: at }
}

fn start(machines: &Vec<Machine>) -> (Deployment, DeploymentAction) {
    Deployment::start(
        "deploy-lab-1".to_owned(),
        "lab".to_owned(),
        "kvm".to_owned(),
        "/labs/lab.toml".to_owned(),
        100,
        machines,
    )
}

fn failure(reason: &str) -> Option<ActionFailure> {
    Some(ActionFailure { reason: reason.to_owned(), report: format!("report: {}", reason) })
}

#[test]
fn every_phase_runs_in_order_and_the_machine_is_ready() {
    let planned = machines(1);
    let (mut deployment, first) = start(&planned);
    assert!(matches!(first, DeploymentAction::VerifyProvider));
    let mut actions = Vec::new();
    let mut action = deployment.on_event(None, calm(101));
    loop {
        match action {
            DeploymentAction::Machine { index, action: step } => {
                assert_eq!(index, 0);
                actions.push(step);
                action = deployment.on_event(None, calm(102));
            }
            DeploymentAction::Finish { outcome } => {
                assert!(matches!(outcome, DeploymentOutcome::Completed));
                break;
            }
            DeploymentAction::VerifyProvider => panic!("provider checked twice"),
        }
    }
    assert_eq!(
        actions,
        vec![
            MachineAction::PrepareArtifacts,
            MachineAction::CreateMachine,
            MachineAction::GenerateGuestInit,
            MachineAction::WriteGuestInit,
            MachineAction::AttachGuestInit,
            MachineAction::StartMachine,
        ]
    );
    assert!(deployment.is_finished());
    let summary = deployment.summary();
    assert_eq!(summary.status, DeploymentStatus::Success);
    assert_eq!(summary.finished_at_unix_seconds, Some(102));
    assert_eq!(summary.machines.len(), 1);
    let machine = &summary.machines[0];
    assert_eq!(machine.identifier, "vm-0");
    assert_eq!(machine.outcome, "completed");
    assert_eq!(machine.final_state, "ready");
    let names: Vec<&str> = machine.phases.iter().map(|p| p.name.as_str()).collect();
    assert_eq!(names, vec!["create_machine", "generate_guest_init", "attach_guest_init", "start_machine"]);
    assert!(machine.phases.iter().all(|p| p.status == PhaseStatus::Completed.as_str()));
}

#[test]
fn unavailable_provider_leaves_every_machine_unattempted() {
    let planned = machines(2);
    let (mut deployment, _) = start(&planned);
    match deployment.on_event(failure("libvirt is down"), calm(101)) {
        DeploymentAction::Finish { outcome } => assert!(matches!(outcome, DeploymentOutcome::ProviderUnavailable)),
        _ => panic!("expected the end"),
    }
    let summary = deployment.summary();
    assert_eq!(summary.status, DeploymentStatus::Failed);
    assert_eq!(summary.error.as_deref(), Some("report: libvirt is down"));
    assert_eq!(summary.machines.len(), 2);
    assert!(summary.machines.iter().all(|m| m.outcome == "not_attempted"));
    assert_eq!(summary.machines[1].identifier, "vm-1");
}

#[test]
fn failed_creation_stops_the_deployment() {
    let planned = machines(2);
    let (mut deployment, _) = start(&planned);
    assert!(matches!(
        deployment.on_event(None, calm(101)),
        DeploymentAction::Machine { index: 0, action: MachineAction::PrepareArtifacts }
    ));
    assert!(matches!(
        deployment.on_event(None, calm(101)),
        DeploymentAction::Machine { index: 0, action: MachineAction::CreateMachine }
    ));
    match deployment.on_event(failure("domain exists"), calm(103)) {
        DeploymentAction::Finish { outcome } => {
            assert!(matches!(outcome, DeploymentOutcome::MachineFailed { index: 0 }))
        }
        _ => panic!("expected the end"),
    }
    let summary = deployment.summary();
    assert_eq!(summary.status, DeploymentStatus::Failed);
    assert_eq!(summary.machines.len(), 2);
    let failed = &summary.machines[0];
    assert_eq!(failed.outcome, "failed");
    assert_eq!(failed.error.as_deref(), Some("domain exists"));
    assert_eq!(failed.phases.len(), 1);
    assert_eq!(failed.phases[0].name, "create_machine");
    assert_eq!(failed.phases[0].status, "failed");
    assert_eq!(summary.machines[1].outcome, "not_attempted");
}

#[test]
fn failed_guest_init_write_is_worded() {
    let planned = machines(1);
    let (mut deployment, _) = start(&planned);
    for _ in 0..4 {
        deployment.on_event(None, calm(101));
    }
    match deployment.on_event(failure("disk full"), calm(101)) {
        DeploymentAction::Finish { .. } => {}
        _ => panic!("expected the end"),
    }
    let failed = &deployment.summary().machines[0];
    assert_eq!(failed.error.as_deref(), Some("failed to write guest-init artifact: disk full"));
    assert_eq!(failed.final_state, "failed");
}

#[test]
fn interrupt_between_machines_stops_the_deployment() {
    let planned = machines(2);
    let (mut deployment, _) = start(&planned);
    let interrupted = Clock { interrupted: true, elapsed_nanoseconds: 5_000, now_unix_seconds: 110 };
    match deployment.on_event(None, interrupted) {
        DeploymentAction::Finish { outcome: DeploymentOutcome::Stopped { error } } => {
            assert!(matches!(error, DeploymentError::Interrupted { elapsed_nanoseconds: 5_000, .. }))
        }
        _ => panic!("expected the end"),
    }
    let summary = deployment.summary();
    assert_eq!(summary.status, DeploymentStatus::Interrupted);
    let interruption = summary.interruption.as_ref().expect("interruption recorded");
    assert_eq!(interruption.kind, "signal");
    assert_eq!(interruption.phase, "between-machines");
    assert_eq!(summary.machines.len(), 2);
    assert_eq!(summary.error.as_deref(), Some("Deployment interrupted after 0.000 seconds"));
}

#[test]
fn timeout_is_recorded() {
    let planned = machines(1);
    let (mut deployment, _) = start(&planned);
    let late = Clock { interrupted: false, elapsed_nanoseconds: 1_800_000_000_001, now_unix_seconds: 2000 };
    match deployment.on_event(None, late) {
        DeploymentAction::Finish { outcome: DeploymentOutcome::Stopped { error } } => {
            assert!(matches!(error, DeploymentError::TimedOut { .. }))
        }
        _ => panic!("expected the end"),
    }
    assert_eq!(deployment.summary().status, DeploymentStatus::TimedOut);
    assert_eq!(deployment.summary().interruption.as_ref().map(|i| i.kind.as_str()), Some("timeout"));
    assert_eq!(deployment.summary().error.as_deref(), Some("Deployment timed out after 1800.000 seconds"));
    assert_eq!(deployment.summary().timeout_seconds, 1800);
}

#[test]
fn deployment_at_its_timeout_goes_on() {
    let planned = machines(1);
    let (mut deployment, _) = start(&planned);
    let on_time = Clock { interrupted: false, elapsed_nanoseconds: 1_800_000_000_000, now_unix_seconds: 2000 };
    assert!(matches!(deployment.on_event(None, on_time), DeploymentAction::Machine { index: 0, .. }));
}

#[test]
fn stopped_time_is_rounded_to_milliseconds() {
    let planned = machines(1);
    let (mut deployment, _) = start(&planned);
    let interrupted = Clock { interrupted: true, elapsed_nanoseconds: 12_345_678_901, now_unix_seconds: 110 };
    deployment.on_event(None, interrupted);
    assert_eq!(deployment.summary().error.as_deref(), Some("Deployment interrupted after 12.346 seconds"));
}

#[test]
fn correlation_identifier_is_hexadecimal() {
    assert_eq!(correlation_identifier("lab", 255, 16, 4096), "deploy-lab-ff-10-1000");
    assert_eq!(correlation_identifier("x", 0, 0, 0), "deploy-x-0-0-0");
    assert_eq!(
        correlation_identifier("lab", 1_700_000_000, 123_456_789, 4242),
        format!("deploy-lab-{:x}-{:x}-{:x}", 1_700_000_000u64, 123_456_789u32, 4242u32)
    );
}

#[test]
fn stored_file_names() {
    assert_eq!(deployment_summary_file_name("deploy-lab-1"), "deploy-lab-1.json");
    assert_eq!(copied_image_file_name("vm-0"), "vm-0.qcow2");
}

#[test]
fn status_words() {
    assert_eq!(DeploymentStatus::InProgress.as_str(), "in_progress");
    assert_eq!(DeploymentStatus::TimedOut.as_str(), "timed_out");
    assert_eq!(PhaseStatus::Failed.as_str(), "failed");
}
