//! The decisions of a deployment. The caller performs each action the driver
//! asks for (checking the provider, then the phases of every machine in turn)
//! and reports how it went, together with what the clock and the interrupt
//! signal say at that moment; the driver keeps the deployment record and
//! chooses what comes next.

use crate::deployment::summary::{
    DeploymentStatus, DeploymentSummary, DeploymentSummaryView, InterruptionRecord,
    InterruptionRecordView, MachineSummary, fresh_summary, machine_views, text_option,
    MachineSummaryView, started_machine, unattempted_machine, with_completed_phase, with_failed_phase,
};
use crate::laboratories::machines::machine::Machine;
use crate::state::{Machine as Machine_, allows, successors, lemma_name_round_trip, state_name, state_named};
use crate::text::{decimal, digit, owned, push_char, push_decimal_wide};
use vstd::prelude::*;

verus! {

/// The phases of one machine's deployment, in the order they run.
#[derive(Debug, Clone, Copy, PartialEq, Eq, Structural)]
pub enum MachineAction {
    /// Copy the machine's image into the deployment's artifacts.
    PrepareArtifacts,
    /// Define the machine with the provider.
    CreateMachine,
    /// Build the first-boot configuration image.
    GenerateGuestInit,
    /// Store the first-boot configuration image with the artifacts.
    WriteGuestInit,
    /// Attach the first-boot configuration image to the machine.
    AttachGuestInit,
    /// Boot the machine.
    StartMachine,
}

/// How long a deployment may run, in seconds.
pub const DEPLOY_TIMEOUT_SECONDS: u64 = 1800;

/// How long a deployment may run, in nanoseconds.
pub const DEPLOY_TIMEOUT_NANOSECONDS: u128 = 1800000000000;

/// A machine the deployment will bring up.
pub struct PlannedMachine {
    pub identifier: String,
    pub name: String,
}

/// What the caller observed when it reported an event.
#[derive(Debug, Clone, Copy, PartialEq, Eq, Structural)]
pub struct Clock {
    /// An interrupt (Ctrl+C) has been received.
    pub interrupted: bool,
    /// Time spent so far, in nanoseconds.
    pub elapsed_nanoseconds: u128,
    /// The current time, in seconds since the Unix epoch.
    pub now_unix_seconds: u64,
}

/// How an action failed.
pub struct ActionFailure {
    /// The cause, recorded with the machine's phase.
    pub reason: String,
    /// The error reported for the whole deployment.
    pub report: String,
}

/// Why a deployment stopped before its end.
pub enum DeploymentError {
    TimedOut { elapsed_nanoseconds: u128, remediation: String },
    Interrupted { elapsed_nanoseconds: u128, remediation: String },
}

/// How a deployment ended.
pub enum DeploymentOutcome {
    /// Every machine is ready.
    Completed,
    /// The provider could not be reached.
    ProviderUnavailable,
    /// The machine at `index` failed.
    MachineFailed { index: usize },
    /// An interrupt or the timeout stopped the deployment.
    Stopped { error: DeploymentError },
}

/// What the caller is to do next.
pub enum DeploymentAction {
    /// Check that the provider is available.
    VerifyProvider,
    /// Run `action` for the machine at `index`.
    Machine { index: usize, action: MachineAction },
    /// Store the record; the deployment is over.
    Finish { outcome: DeploymentOutcome },
}

/// Where the driver stands.
#[derive(Debug, Clone, Copy, PartialEq, Eq, Structural)]
pub enum Pending {
    VerifyProvider,
    Machine { index: usize, action: MachineAction },
    Done,
}

/// A deployment under way.
pub struct Deployment {
    summary: DeploymentSummary,
    plan: Vec<PlannedMachine>,
    current: MachineSummary,
    pending: Pending,
}

/// `ActionFailure` with its texts taken as character sequences.
pub struct FailureView {
    pub reason: Seq<char>,
    pub report: Seq<char>,
}

/// `DeploymentError` with its texts taken as character sequences.
pub enum DeploymentErrorView {
    TimedOut { elapsed_nanoseconds: u128, remediation: Seq<char> },
    Interrupted { elapsed_nanoseconds: u128, remediation: Seq<char> },
}

/// `DeploymentOutcome` with its texts taken as character sequences.
pub enum OutcomeView {
    Completed,
    ProviderUnavailable,
    MachineFailed { index: usize },
    Stopped { error: DeploymentErrorView },
}

/// `DeploymentAction` with its texts taken as character sequences.
pub enum ActionView {
    VerifyProvider,
    Machine { index: usize, action: MachineAction },
    Finish { outcome: OutcomeView },
}

/// `Deployment` with its texts taken as character sequences.
pub struct DeploymentView {
    pub summary: DeploymentSummaryView,
    /// Identifier and name of each planned machine.
    pub plan: Seq<(Seq<char>, Seq<char>)>,
    pub current: MachineSummaryView,
    pub pending: Pending,
}

impl View for ActionFailure {
    type V = FailureView;

    open spec fn view(&self) -> FailureView {
        FailureView { reason: self.reason@, report: self.report@ }
    }
}

impl View for DeploymentError {
    type V = DeploymentErrorView;

    open spec fn view(&self) -> DeploymentErrorView {
        match self {
            DeploymentError::TimedOut { elapsed_nanoseconds, remediation } => DeploymentErrorView::TimedOut {
                elapsed_nanoseconds: *elapsed_nanoseconds,
                remediation: remediation@,
            },
            DeploymentError::Interrupted { elapsed_nanoseconds, remediation } => DeploymentErrorView::Interrupted {
                elapsed_nanoseconds: *elapsed_nanoseconds,
                remediation: remediation@,
            },
        }
    }
}

impl View for DeploymentOutcome {
    type V = OutcomeView;

    open spec fn view(&self) -> OutcomeView {
        match self {
            DeploymentOutcome::Completed => OutcomeView::Completed,
            DeploymentOutcome::ProviderUnavailable => OutcomeView::ProviderUnavailable,
            DeploymentOutcome::MachineFailed { index } => OutcomeView::MachineFailed { index: *index },
            DeploymentOutcome::Stopped { error } => OutcomeView::Stopped { error: error@ },
        }
    }
}

impl View for DeploymentAction {
    type V = ActionView;

    open spec fn view(&self) -> ActionView {
        match self {
            DeploymentAction::VerifyProvider => ActionView::VerifyProvider,
            DeploymentAction::Machine { index, action } => ActionView::Machine {
                index: *index,
                action: *action,
            },
            DeploymentAction::Finish { outcome } => ActionView::Finish { outcome: outcome@ },
        }
    }
}

/// The identifiers and names of a plan.
pub open spec fn plan_view(plan: Seq<PlannedMachine>) -> Seq<(Seq<char>, Seq<char>)> {
    plan.map_values(|m: PlannedMachine| (m.identifier@, m.name@))
}

impl View for Deployment {
    type V = DeploymentView;

    closed spec fn view(&self) -> DeploymentView {
        DeploymentView {
            summary: self.summary@,
            plan: plan_view(self.plan@),
            current: self.current@,
            pending: self.pending,
        }
    }
}

/// An optional failure taken by its view.
pub open spec fn failure_option(failure: Option<ActionFailure>) -> Option<FailureView> {
    match failure {
        Some(f) => Some(f@),
        None => None,
    }
}

/// The text recorded with the failed phase of a machine.
pub open spec fn phase_error(action: MachineAction, reason: Seq<char>) -> Seq<char> {
    if action == MachineAction::WriteGuestInit {
        "failed to write guest-init artifact: "@ + reason
    } else {
        reason
    }
}

/// The name recorded for the phase an action belongs to.
pub open spec fn phase_name(action: MachineAction) -> Seq<char> {
    match action {
        MachineAction::PrepareArtifacts => "prepare_machine_artifacts"@,
        MachineAction::CreateMachine => "create_machine"@,
        MachineAction::GenerateGuestInit => "generate_guest_init"@,
        MachineAction::WriteGuestInit => "generate_guest_init"@,
        MachineAction::AttachGuestInit => "attach_guest_init"@,
        MachineAction::StartMachine => "start_machine"@,
    }
}

/// A machine record after `action` succeeded, and the next action if any:
/// creating the machine makes it provisioning, storing its first-boot image
/// makes it initialized, and booting it makes it ready and completed.
pub open spec fn machine_success(summary: MachineSummaryView, action: MachineAction) -> (
    MachineSummaryView,
    Option<MachineAction>,
) {
    match action {
        MachineAction::PrepareArtifacts => (summary, Some(MachineAction::CreateMachine)),
        MachineAction::CreateMachine => (
            MachineSummaryView {
                final_state: "provisioning"@,
                ..with_completed_phase(summary, "create_machine"@)
            },
            Some(MachineAction::GenerateGuestInit),
        ),
        MachineAction::GenerateGuestInit => (summary, Some(MachineAction::WriteGuestInit)),
        MachineAction::WriteGuestInit => (
            MachineSummaryView {
                final_state: "initialized"@,
                ..with_completed_phase(summary, "generate_guest_init"@)
            },
            Some(MachineAction::AttachGuestInit),
        ),
        MachineAction::AttachGuestInit => (
            with_completed_phase(summary, "attach_guest_init"@),
            Some(MachineAction::StartMachine),
        ),
        MachineAction::StartMachine => (
            MachineSummaryView {
                outcome: "completed"@,
                final_state: "ready"@,
                ..with_completed_phase(summary, "start_machine"@)
            },
            None,
        ),
    }
}

/// A machine record after `action` ended, and the next action if any; a
/// failure ends the machine's deployment with the machine failed.
pub open spec fn machine_step(
    summary: MachineSummaryView,
    action: MachineAction,
    failure: Option<FailureView>,
) -> (MachineSummaryView, Option<MachineAction>) {
    match failure {
        Some(f) => (
            with_failed_phase(summary, phase_name(action), phase_error(action, f.reason), "failed"@),
            None,
        ),
        None => machine_success(summary, action),
    }
}

/// Records for the planned machines from position `from` on, none attempted.
pub open spec fn unattempted_from(plan: Seq<(Seq<char>, Seq<char>)>, from: int) -> Seq<
    MachineSummaryView,
> {
    Seq::new(
        (plan.len() - from) as nat,
        |k: int| unattempted_machine(plan[from + k].0, plan[from + k].1),
    )
}

/// The record closed at the time the clock gives.
pub open spec fn closed_at(summary: DeploymentSummaryView, clock: Clock) -> DeploymentSummaryView {
    DeploymentSummaryView {
        finished_at_unix_seconds: Some(clock.now_unix_seconds),
        elapsed_nanoseconds: clock.elapsed_nanoseconds,
        ..summary
    }
}

/// What to tell an operator after an interrupt between machines.
pub open spec fn interrupted_between_remediation() -> Seq<char> {
    "Allow the current machine operation to settle, then use `malina diagnose` to inspect the interruption point before retrying deployment."@
}

/// What to tell an operator after an interrupt once a machine is done.
pub open spec fn interrupted_after_remediation() -> Seq<char> {
    "Use `malina diagnose` to inspect the saved deployment summary, then rerun deployment when the operator is ready."@
}

/// What to tell an operator after a timeout.
pub open spec fn timed_out_remediation() -> Seq<char> {
    "Review the provider, guest-init artifacts, and machine boot logs, then rerun deployment after confirming the host is healthy."@
}

/// Whether the deployment has run longer than its timeout.
pub open spec fn over_time(clock: Clock) -> bool {
    clock.elapsed_nanoseconds > DEPLOY_TIMEOUT_NANOSECONDS
}

/// Elapsed nanoseconds rounded to whole milliseconds, a half rounding up.
pub open spec fn rounded_milliseconds(elapsed_nanoseconds: u128) -> nat {
    (elapsed_nanoseconds / 1000000 + if elapsed_nanoseconds % 1000000 >= 500000 {
        1int
    } else {
        0int
    }) as nat
}

/// Elapsed nanoseconds as seconds with three decimals.
pub open spec fn seconds_text(elapsed_nanoseconds: u128) -> Seq<char> {
    let ms = rounded_milliseconds(elapsed_nanoseconds);
    decimal(ms / 1000) + seq!['.', digit(ms % 1000 / 100), digit(ms % 100 / 10), digit(ms % 10)]
}

/// The error recorded for a deployment that stopped: how long it ran before
/// the timeout or the interrupt stopped it.
pub open spec fn stopped_message(error: DeploymentErrorView) -> Seq<char> {
    match error {
        DeploymentErrorView::TimedOut { elapsed_nanoseconds, .. } => "Deployment timed out after "@
            + seconds_text(elapsed_nanoseconds) + " seconds"@,
        DeploymentErrorView::Interrupted { elapsed_nanoseconds, .. } => "Deployment interrupted after "@
            + seconds_text(elapsed_nanoseconds) + " seconds"@,
    }
}

/// Whether the deployment must stop at a boundary between machines (`between`)
/// or after the last machine, and with what status, error and record. An
/// interrupt wins over a timeout.
pub open spec fn stop_reason(clock: Clock, between: bool, machine: Option<Seq<char>>) -> Option<
    (DeploymentStatus, DeploymentErrorView, InterruptionRecordView),
> {
    let phase = if between {
        "between-machines"@
    } else {
        "after-machine"@
    };
    if clock.interrupted {
        Some(
            (
                DeploymentStatus::Interrupted,
                DeploymentErrorView::Interrupted {
                    elapsed_nanoseconds: clock.elapsed_nanoseconds,
                    remediation: if between {
                        interrupted_between_remediation()
                    } else {
                        interrupted_after_remediation()
                    },
                },
                InterruptionRecordView {
                    kind: "signal"@,
                    phase,
                    machine_identifier: machine,
                    message: if between {
                        "Ctrl+C received while deployment was progressing"@
                    } else {
                        "Ctrl+C received after a machine phase completed"@
                    },
                },
            ),
        )
    } else if over_time(clock) {
        Some(
            (
                DeploymentStatus::TimedOut,
                DeploymentErrorView::TimedOut {
                    elapsed_nanoseconds: clock.elapsed_nanoseconds,
                    remediation: timed_out_remediation(),
                },
                InterruptionRecordView {
                    kind: "timeout"@,
                    phase,
                    machine_identifier: machine,
                    message: "Deployment exceeded the configured timeout"@,
                },
            ),
        )
    } else {
        None
    }
}

/// The deployment stopped for `reason`: the record takes the status, the
/// interruption and (unless it holds one already) the error of the stop,
/// lists the machines not attempted, and is closed.
pub open spec fn stopped(
    d: DeploymentView,
    clock: Clock,
    reason: (DeploymentStatus, DeploymentErrorView, InterruptionRecordView),
) -> (DeploymentView, ActionView) {
    (
        DeploymentView {
            summary: closed_at(
                DeploymentSummaryView {
                    status: reason.0,
                    interruption: Some(reason.2),
                    error: if d.summary.error is Some {
                        d.summary.error
                    } else {
                        Some(stopped_message(reason.1))
                    },
                    machines: d.summary.machines + unattempted_from(
                        d.plan,
                        d.summary.machines.len() as int,
                    ),
                    ..d.summary
                },
                clock,
            ),
            pending: Pending::Done,
            ..d
        },
        ActionView::Finish { outcome: OutcomeView::Stopped { error: reason.1 } },
    )
}

/// Going on with the machine at `index`, unless an interrupt or the timeout
/// stops the deployment first.
pub open spec fn enter_machine(d: DeploymentView, index: int, clock: Clock) -> (
    DeploymentView,
    ActionView,
) {
    match stop_reason(clock, true, Some(d.plan[index].0)) {
        Some(reason) => stopped(d, clock, reason),
        None => (
            DeploymentView {
                current: started_machine(d.plan[index].0, d.plan[index].1),
                pending: Pending::Machine { index: index as usize, action: MachineAction::PrepareArtifacts },
                ..d
            },
            ActionView::Machine { index: index as usize, action: MachineAction::PrepareArtifacts },
        ),
    }
}

/// The identifier of the last machine recorded, if any.
pub open spec fn last_identifier(machines: Seq<MachineSummaryView>) -> Option<Seq<char>> {
    if machines.len() > 0 {
        Some(machines.last().identifier)
    } else {
        None
    }
}

/// Ending the deployment once every machine is ready, unless an interrupt or
/// the timeout came in the meantime.
pub open spec fn conclude(d: DeploymentView, clock: Clock) -> (DeploymentView, ActionView) {
    match stop_reason(clock, false, last_identifier(d.summary.machines)) {
        Some(reason) => stopped(d, clock, reason),
        None => (
            DeploymentView {
                summary: closed_at(
                    DeploymentSummaryView { status: DeploymentStatus::Success, ..d.summary },
                    clock,
                ),
                pending: Pending::Done,
                ..d
            },
            ActionView::Finish { outcome: OutcomeView::Completed },
        ),
    }
}

/// After the provider check or after the machine at `index - 1`: on to the
/// machine at `index`, or to the end when there is none.
pub open spec fn proceed(d: DeploymentView, index: int, clock: Clock) -> (DeploymentView, ActionView) {
    if index < d.plan.len() {
        enter_machine(d, index, clock)
    } else {
        conclude(d, clock)
    }
}

/// The deployment after the pending action ended with `failure` (if any).
pub open spec fn next(d: DeploymentView, failure: Option<FailureView>, clock: Clock) -> (
    DeploymentView,
    ActionView,
) {
    match d.pending {
        Pending::VerifyProvider => match failure {
            Some(f) => (
                DeploymentView {
                    summary: closed_at(
                        DeploymentSummaryView {
                            status: DeploymentStatus::Failed,
                            error: Some(f.report),
                            machines: d.summary.machines + unattempted_from(d.plan, 0),
                            ..d.summary
                        },
                        clock,
                    ),
                    pending: Pending::Done,
                    ..d
                },
                ActionView::Finish { outcome: OutcomeView::ProviderUnavailable },
            ),
            None => proceed(d, 0, clock),
        },
        Pending::Machine { index, action } => {
            let (machine, following) = machine_step(d.current, action, failure);
            match following {
                Some(a) => (
                    DeploymentView {
                        current: machine,
                        pending: Pending::Machine { index, action: a },
                        ..d
                    },
                    ActionView::Machine { index, action: a },
                ),
                None => match failure {
                    Some(f) => (
                        DeploymentView {
                            summary: closed_at(
                                DeploymentSummaryView {
                                    status: DeploymentStatus::Failed,
                                    error: Some(f.report),
                                    machines: d.summary.machines.push(machine) + unattempted_from(
                                        d.plan,
                                        index + 1,
                                    ),
                                    ..d.summary
                                },
                                clock,
                            ),
                            current: machine,
                            pending: Pending::Done,
                            ..d
                        },
                        ActionView::Finish { outcome: OutcomeView::MachineFailed { index } },
                    ),
                    None => proceed(
                        DeploymentView {
                            summary: DeploymentSummaryView {
                                machines: d.summary.machines.push(machine),
                                ..d.summary
                            },
                            current: machine,
                            ..d
                        },
                        index + 1,
                        clock,
                    ),
                },
            }
        },
        Pending::Done => (d, ActionView::VerifyProvider),
    }
}

/// The state of a deployment that has just started: nothing recorded yet and
/// the provider to be checked.
pub open spec fn initial(summary: DeploymentSummaryView, plan: Seq<(Seq<char>, Seq<char>)>) -> DeploymentView {
    DeploymentView {
        summary,
        plan,
        current: started_machine(Seq::empty(), Seq::empty()),
        pending: Pending::VerifyProvider,
    }
}

fn stop_reason_exec(clock: Clock, between: bool, machine: Option<String>) -> (reason: Option<
    (DeploymentStatus, DeploymentError, InterruptionRecord),
>)
    ensures
        match (reason, stop_reason(clock, between, text_option(machine))) {
            (Some(r), Some(s)) => r.0 == s.0 && r.1@ == s.1 && r.2@ == s.2,
            (None, None) => true,
            _ => false,
        },
{
    let phase = if between {
        "between-machines"
    } else {
        "after-machine"
    };
    if clock.interrupted {
        let remediation = if between {
            owned(
                "Allow the current machine operation to settle, then use `malina diagnose` to inspect the interruption point before retrying deployment.",
            )
        } else {
            owned(
                "Use `malina diagnose` to inspect the saved deployment summary, then rerun deployment when the operator is ready.",
            )
        };
        let message = if between {
            owned("Ctrl+C received while deployment was progressing")
        } else {
            owned("Ctrl+C received after a machine phase completed")
        };
        Some(
            (
                DeploymentStatus::Interrupted,
                DeploymentError::Interrupted { elapsed_nanoseconds: clock.elapsed_nanoseconds, remediation },
                InterruptionRecord::new("signal", phase, machine, message),
            ),
        )
    } else if clock.elapsed_nanoseconds > DEPLOY_TIMEOUT_NANOSECONDS {
        Some(
            (
                DeploymentStatus::TimedOut,
                DeploymentError::TimedOut {
                    elapsed_nanoseconds: clock.elapsed_nanoseconds,
                    remediation: owned(
                        "Review the provider, guest-init artifacts, and machine boot logs, then rerun deployment after confirming the host is healthy.",
                    ),
                },
                InterruptionRecord::new(
                    "timeout",
                    phase,
                    machine,
                    owned("Deployment exceeded the configured timeout"),
                ),
            ),
        )
    } else {
        None
    }
}

/// Elapsed nanoseconds as seconds with three decimals.
fn push_seconds(out: &mut String, elapsed_nanoseconds: u128)
    ensures
        final(out)@ == old(out)@ + seconds_text(elapsed_nanoseconds),
{
    let round: u128 = if elapsed_nanoseconds % 1000000 >= 500000 {
        1
    } else {
        0
    };
    let ms: u128 = elapsed_nanoseconds / 1000000 + round;
    assert(ms as nat == rounded_milliseconds(elapsed_nanoseconds));
    push_decimal_wide(out, ms / 1000);
    push_char(out, '.');
    push_decimal_wide(out, ms % 1000 / 100);
    push_decimal_wide(out, ms % 100 / 10);
    push_decimal_wide(out, ms % 10);
    proof {
        let m = ms as nat;
        assert(decimal(m % 1000 / 100) == seq![digit(m % 1000 / 100)]);
        assert(decimal(m % 100 / 10) == seq![digit(m % 100 / 10)]);
        assert(decimal(m % 10) == seq![digit(m % 10)]);
        assert(out@ =~= old(out)@ + seconds_text(elapsed_nanoseconds));
    }
}

/// The error recorded for a deployment that stopped.
fn stopped_message_text(error: &DeploymentError) -> (message: String)
    ensures
        message@ == stopped_message(error@),
{
    let (mut message, elapsed) = match error {
        DeploymentError::TimedOut { elapsed_nanoseconds, .. } => (
            owned("Deployment timed out after "),
            *elapsed_nanoseconds,
        ),
        DeploymentError::Interrupted { elapsed_nanoseconds, .. } => (
            owned("Deployment interrupted after "),
            *elapsed_nanoseconds,
        ),
    };
    push_seconds(&mut message, elapsed);
    message.append(" seconds");
    message
}

/// Runs `action` on a machine record, given how it ended; returns the next
/// action for the machine, if any.
pub fn advance_machine(
    current: &mut MachineSummary,
    action: MachineAction,
    failure: &Option<ActionFailure>,
) -> (following: Option<MachineAction>)
    ensures
        (final(current)@, following) == machine_step(old(current)@, action, failure_option(*failure)),
{
    match failure {
        Some(f) => {
            let phase = match action {
                MachineAction::PrepareArtifacts => "prepare_machine_artifacts",
                MachineAction::CreateMachine => "create_machine",
                MachineAction::GenerateGuestInit => "generate_guest_init",
                MachineAction::WriteGuestInit => "generate_guest_init",
                MachineAction::AttachGuestInit => "attach_guest_init",
                MachineAction::StartMachine => "start_machine",
            };
            let error = match action {
                MachineAction::WriteGuestInit => {
                    let mut text = owned("failed to write guest-init artifact: ");
                    text.append(f.reason.as_str());
                    text
                },
                _ => f.reason.clone(),
            };
            current.fail(phase, error, "failed");
            None
        },
        None => match action {
            MachineAction::PrepareArtifacts => Some(MachineAction::CreateMachine),
            MachineAction::CreateMachine => {
                current.complete_phase("create_machine");
                current.final_state = owned("provisioning");
                Some(MachineAction::GenerateGuestInit)
            },
            MachineAction::GenerateGuestInit => Some(MachineAction::WriteGuestInit),
            MachineAction::WriteGuestInit => {
                current.complete_phase("generate_guest_init");
                current.final_state = owned("initialized");
                Some(MachineAction::AttachGuestInit)
            },
            MachineAction::AttachGuestInit => {
                current.complete_phase("attach_guest_init");
                Some(MachineAction::StartMachine)
            },
            MachineAction::StartMachine => {
                current.complete_phase("start_machine");
                current.outcome = owned("completed");
                current.final_state = owned("ready");
                None
            },
        },
    }
}

impl Deployment {
    /// Starts a deployment of `machines` with an empty record; the provider is
    /// to be checked first.
    pub fn start(
        correlation_identifier: String,
        laboratory_identifier: String,
        provider_identifier: String,
        configuration_path: String,
        started_at_unix_seconds: u64,
        machines: &Vec<Machine>,
    ) -> (started: (Deployment, DeploymentAction))
        ensures
            started.0@ == initial(
                fresh_summary(
                    correlation_identifier@,
                    laboratory_identifier@,
                    provider_identifier@,
                    configuration_path@,
                    started_at_unix_seconds,
                    DEPLOY_TIMEOUT_SECONDS,
                ),
                machines@.map_values(|m: Machine| (m.identifier.value@, m.name@)),
            ),
            started.1@ == ActionView::VerifyProvider,
            consistent(started.0@),
    {
        let summary = DeploymentSummary::new(
            correlation_identifier,
            laboratory_identifier,
            provider_identifier,
            configuration_path,
            started_at_unix_seconds,
            DEPLOY_TIMEOUT_SECONDS,
        );
        let mut plan: Vec<PlannedMachine> = Vec::new();
        let mut i: usize = 0;
        while i < machines.len()
            invariant
                i <= machines@.len(),
                plan_view(plan@) == machines@.take(i as int).map_values(
                    |m: Machine| (m.identifier.value@, m.name@),
                ),
            decreases machines.len() - i,
        {
            let ghost before = plan@;
            let planned = PlannedMachine {
                identifier: owned(machines[i].identifier.value.as_str()),
                name: owned(machines[i].name.as_str()),
            };
            plan.push(planned);
            proof {
                assert(plan_view(plan@) =~= plan_view(before).push((planned.identifier@, planned.name@)));
                assert(machines@.take(i + 1) =~= machines@.take(i as int).push(machines@[i as int]));
                assert(machines@.take(i + 1).map_values(|m: Machine| (m.identifier.value@, m.name@))
                    =~= machines@.take(i as int).map_values(
                    |m: Machine| (m.identifier.value@, m.name@),
                ).push((machines@[i as int].identifier.value@, machines@[i as int].name@)));
            }
            i = i + 1;
        }
        assert(machines@.take(machines@.len() as int) =~= machines@);
        let deployment = Deployment {
            summary,
            plan,
            current: MachineSummary::new("", String::new()),
            pending: Pending::VerifyProvider,
        };
        proof {
            reveal_strlit("");
            assert(""@ =~= Seq::<char>::empty());
        }
        (deployment, DeploymentAction::VerifyProvider)
    }

    /// The deployment's record as it stands.
    pub fn summary(&self) -> (summary: &DeploymentSummary)
        ensures
            summary@ == self@.summary,
    {
        &self.summary
    }

    /// Whether the deployment is over.
    pub fn is_finished(&self) -> (finished: bool)
        ensures
            finished == (self@.pending == Pending::Done),
    {
        match self.pending {
            Pending::Done => true,
            _ => false,
        }
    }

    fn close(&mut self, clock: Clock)
        ensures
            final(self)@ == (DeploymentView { summary: closed_at(old(self)@.summary, clock), ..old(self)@ }),
    {
        self.summary.finished_at_unix_seconds = Some(clock.now_unix_seconds);
        self.summary.elapsed_nanoseconds = clock.elapsed_nanoseconds;
    }

    fn add_not_attempted_machines(&mut self, from: usize)
        requires
            from <= old(self).plan@.len(),
        ensures
            final(self)@ == (DeploymentView {
                summary: DeploymentSummaryView {
                    machines: old(self)@.summary.machines + unattempted_from(old(self)@.plan, from as int),
                    ..old(self)@.summary
                },
                ..old(self)@
            }),
    {
        let ghost start = self@;
        let mut i: usize = from;
        while i < self.plan.len()
            invariant
                from <= i <= self.plan@.len(),
                self@ == (DeploymentView {
                    summary: DeploymentSummaryView {
                        machines: start.summary.machines + unattempted_from(start.plan, from as int).take(
                            i - from,
                        ),
                        ..start.summary
                    },
                    ..start
                }),
            decreases self.plan.len() - i,
        {
            let ghost before = self.summary.machines@;
            let record = MachineSummary::not_attempted(
                self.plan[i].identifier.as_str(),
                self.plan[i].name.as_str(),
            );
            self.summary.machines.push(record);
            proof {
                let rest = unattempted_from(start.plan, from as int);
                assert(self.plan@[i as int].identifier@ == start.plan[i as int].0);
                assert(machine_views(self.summary.machines@) =~= machine_views(before).push(record@));
                assert(rest.take(i + 1 - from) =~= rest.take(i - from).push(rest[i - from]));
                assert(self.summary@.machines =~= start.summary.machines + rest.take(i + 1 - from));
            }
            i = i + 1;
        }
        proof {
            let rest = unattempted_from(start.plan, from as int);
            assert(rest.take(self.plan@.len() - from) =~= rest);
        }
    }

    fn stop(&mut self, clock: Clock, reason: (DeploymentStatus, DeploymentError, InterruptionRecord)) -> (action: DeploymentAction)
        requires
            old(self)@.summary.machines.len() <= old(self)@.plan.len(),
        ensures
            (final(self)@, action@) == stopped(old(self)@, clock, (reason.0, reason.1@, reason.2@)),
    {
        let (status, error, record) = reason;
        self.summary.status = status;
        self.summary.interruption = Some(record);
        if self.summary.error.is_none() {
            self.summary.error = Some(stopped_message_text(&error));
        }
        let done = self.summary.machines.len();
        self.add_not_attempted_machines(done);
        self.close(clock);
        self.pending = Pending::Done;
        DeploymentAction::Finish { outcome: DeploymentOutcome::Stopped { error } }
    }

    fn enter(&mut self, index: usize, clock: Clock) -> (action: DeploymentAction)
        requires
            index < old(self)@.plan.len(),
            old(self)@.summary.machines.len() <= old(self)@.plan.len(),
        ensures
            (final(self)@, action@) == enter_machine(old(self)@, index as int, clock),
    {
        let identifier = owned(self.plan[index].identifier.as_str());
        match stop_reason_exec(clock, true, Some(identifier)) {
            Some(reason) => self.stop(clock, reason),
            None => {
                self.current = MachineSummary::new(
                    self.plan[index].identifier.as_str(),
                    owned(self.plan[index].name.as_str()),
                );
                self.pending = Pending::Machine { index, action: MachineAction::PrepareArtifacts };
                DeploymentAction::Machine { index, action: MachineAction::PrepareArtifacts }
            },
        }
    }

    fn conclude(&mut self, clock: Clock) -> (action: DeploymentAction)
        requires
            old(self)@.summary.machines.len() <= old(self)@.plan.len(),
        ensures
            (final(self)@, action@) == conclude(old(self)@, clock),
    {
        let n = self.summary.machines.len();
        let last = if n > 0 {
            Some(owned(self.summary.machines[n - 1].identifier.as_str()))
        } else {
            None
        };
        proof {
            if n > 0 {
                assert(machine_views(self.summary.machines@).last() == self.summary.machines@[n - 1]@);
            }
        }
        match stop_reason_exec(clock, false, last) {
            Some(reason) => self.stop(clock, reason),
            None => {
                self.summary.status = DeploymentStatus::Success;
                self.close(clock);
                self.pending = Pending::Done;
                DeploymentAction::Finish { outcome: DeploymentOutcome::Completed }
            },
        }
    }

    fn proceed(&mut self, index: usize, clock: Clock) -> (action: DeploymentAction)
        requires
            old(self)@.summary.machines.len() <= old(self)@.plan.len(),
        ensures
            (final(self)@, action@) == proceed(old(self)@, index as int, clock),
    {
        if index < self.plan.len() {
            self.enter(index, clock)
        } else {
            self.conclude(clock)
        }
    }

    /// Takes the outcome of the pending action (`failure` is `None` when it
    /// succeeded) and what the clock says, updates the record, and tells what
    /// to do next (see `next`).
    pub fn on_event(&mut self, failure: Option<ActionFailure>, clock: Clock) -> (action: DeploymentAction)
        requires
            consistent(old(self)@),
            old(self)@.pending != Pending::Done,
        ensures
            (final(self)@, action@) == next(old(self)@, failure_option(failure), clock),
            consistent(final(self)@),
    {
        proof {
            lemma_steps_keep_record_consistent(self@, failure_option(failure), clock);
        }
        match self.pending {
            Pending::VerifyProvider => match failure {
                Some(f) => {
                    self.summary.status = DeploymentStatus::Failed;
                    self.summary.error = Some(f.report);
                    self.add_not_attempted_machines(0);
                    self.close(clock);
                    self.pending = Pending::Done;
                    DeploymentAction::Finish { outcome: DeploymentOutcome::ProviderUnavailable }
                },
                None => self.proceed(0, clock),
            },
            Pending::Machine { index, action } => {
                let following = advance_machine(&mut self.current, action, &failure);
                match following {
                    Some(a) => {
                        self.pending = Pending::Machine { index, action: a };
                        DeploymentAction::Machine { index, action: a }
                    },
                    None => {
                        let ghost before = self.summary.machines@;
                        let record = self.current.duplicate();
                        self.summary.machines.push(record);
                        proof {
                            assert(machine_views(self.summary.machines@) =~= machine_views(before).push(record@));
                        }
                        match failure {
                            Some(f) => {
                                self.summary.status = DeploymentStatus::Failed;
                                self.summary.error = Some(f.report);
                                self.add_not_attempted_machines(index + 1);
                                self.close(clock);
                                self.pending = Pending::Done;
                                DeploymentAction::Finish { outcome: DeploymentOutcome::MachineFailed { index } }
                            },
                            None => self.proceed(index + 1, clock),
                        }
                    },
                }
            },
            Pending::Done => DeploymentAction::VerifyProvider,
        }
    }
}

/// Machine `i` of the record is machine `i` of the plan, for every recorded `i`.
pub open spec fn records_follow_plan(
    machines: Seq<MachineSummaryView>,
    plan: Seq<(Seq<char>, Seq<char>)>,
) -> bool {
    &&& machines.len() <= plan.len()
    &&& forall|i: int|
        0 <= i < machines.len() ==> (#[trigger] machines[i]).identifier == plan[i].0
            && machines[i].name == plan[i].1
}

/// A machine record of a machine that was brought up.
pub open spec fn ready(machine: MachineSummaryView) -> bool {
    machine.outcome == "completed"@ && machine.final_state == "ready"@
}

/// Every recorded machine was brought up.
pub open spec fn all_ready(machines: Seq<MachineSummaryView>) -> bool {
    forall|i: int| 0 <= i < machines.len() ==> ready(#[trigger] machines[i])
}

/// The lifecycle state a machine is in when `action` runs.
pub open spec fn state_before(action: MachineAction) -> Machine_ {
    match action {
        MachineAction::PrepareArtifacts => Machine_::Planned,
        MachineAction::CreateMachine => Machine_::Planned,
        MachineAction::GenerateGuestInit => Machine_::Provisioning,
        MachineAction::WriteGuestInit => Machine_::Provisioning,
        MachineAction::AttachGuestInit => Machine_::Initialized,
        MachineAction::StartMachine => Machine_::Initialized,
    }
}

/// The lifecycle state named by a machine record's final state.
pub open spec fn recorded_state(machine: MachineSummaryView) -> Option<Machine_> {
    state_named(machine.final_state)
}

/// A machine record moves only along the lifecycle: after any action that
/// succeeds, and after a failure once the machine is provisioning, its state
/// is unchanged or a state the lifecycle allows next. (A failure while the
/// image is prepared or the machine is created records a planned machine as
/// failed, which the lifecycle does not allow; those cases are left out.)
pub proof fn lemma_machine_records_follow_lifecycle(
    summary: MachineSummaryView,
    action: MachineAction,
    failure: Option<FailureView>,
)
    requires
        summary.final_state == state_name(state_before(action)),
        failure is Some ==> state_before(action) != Machine_::Planned,
    ensures
        ({
            let after = machine_step(summary, action, failure).0;
            recorded_state(after) matches Some(s) && (s == state_before(action) || allows(
                state_before(action),
                s,
            ))
        }),
{
    lemma_name_round_trip(Machine_::Planned);
    lemma_name_round_trip(Machine_::Provisioning);
    lemma_name_round_trip(Machine_::Initialized);
    lemma_name_round_trip(Machine_::Ready);
    lemma_name_round_trip(Machine_::Failed);
    assert(successors(Machine_::Planned)[0] == Machine_::Provisioning);
    assert(successors(Machine_::Provisioning)[0] == Machine_::Initialized);
    assert(successors(Machine_::Provisioning)[1] == Machine_::Failed);
    assert(successors(Machine_::Initialized)[0] == Machine_::Ready);
    assert(successors(Machine_::Initialized)[1] == Machine_::Failed);
}

/// What holds of a deployment record at every step: the record follows the
/// plan; while the deployment runs, the record is open, its status is "in
/// progress" and every recorded machine was brought up; once it is over, the
/// record is closed, lists every planned machine, reports success only when
/// every machine was brought up, and reports an interrupt or a timeout with
/// the record of where it happened.
pub open spec fn consistent(d: DeploymentView) -> bool {
    let machines = d.summary.machines;
    &&& d.plan.len() <= usize::MAX
    &&& records_follow_plan(machines, d.plan)
    &&& match d.pending {
        Pending::VerifyProvider => {
            &&& machines.len() == 0
            &&& d.summary.status == DeploymentStatus::InProgress
            &&& d.summary.interruption is None
            &&& d.summary.finished_at_unix_seconds is None
        },
        Pending::Machine { index, action } => {
            &&& index == machines.len()
            &&& index < d.plan.len()
            &&& d.current.identifier == d.plan[index as int].0
            &&& d.current.name == d.plan[index as int].1
            &&& d.current.outcome == "in-progress"@
            &&& d.current.final_state == state_name(state_before(action))
            &&& d.summary.status == DeploymentStatus::InProgress
            &&& d.summary.interruption is None
            &&& d.summary.finished_at_unix_seconds is None
            &&& all_ready(machines)
        },
        Pending::Done => {
            &&& machines.len() == d.plan.len()
            &&& d.summary.status != DeploymentStatus::InProgress
            &&& d.summary.finished_at_unix_seconds is Some
            &&& d.summary.status == DeploymentStatus::Success ==> all_ready(machines)
                && d.summary.interruption is None
            &&& (d.summary.status == DeploymentStatus::Interrupted || d.summary.status
                == DeploymentStatus::TimedOut) <==> d.summary.interruption is Some
        },
    }
}

proof fn lemma_unattempted_follow_plan(
    machines: Seq<MachineSummaryView>,
    plan: Seq<(Seq<char>, Seq<char>)>,
)
    requires
        records_follow_plan(machines, plan),
    ensures
        records_follow_plan(machines + unattempted_from(plan, machines.len() as int), plan),
        (machines + unattempted_from(plan, machines.len() as int)).len() == plan.len(),
{
    let all = machines + unattempted_from(plan, machines.len() as int);
    assert forall|i: int| 0 <= i < all.len() implies (#[trigger] all[i]).identifier == plan[i].0
        && all[i].name == plan[i].1 by {
        if i >= machines.len() {
            assert(all[i] == unattempted_from(plan, machines.len() as int)[i - machines.len()]);
        }
    }
}

proof fn lemma_stopped_consistent(
    d: DeploymentView,
    clock: Clock,
    reason: (DeploymentStatus, DeploymentErrorView, InterruptionRecordView),
)
    requires
        d.plan.len() <= usize::MAX,
        records_follow_plan(d.summary.machines, d.plan),
        reason.0 == DeploymentStatus::Interrupted || reason.0 == DeploymentStatus::TimedOut,
    ensures
        consistent(stopped(d, clock, reason).0),
{
    lemma_unattempted_follow_plan(d.summary.machines, d.plan);
}

/// Each step of a deployment keeps its record consistent with the plan (see
/// `consistent`); a deployment starts consistent (see `Deployment::start`), so
/// its record is consistent at every step and in particular once it is over.
pub proof fn lemma_steps_keep_record_consistent(
    d: DeploymentView,
    failure: Option<FailureView>,
    clock: Clock,
)
    requires
        consistent(d),
        d.pending != Pending::Done,
    ensures
        consistent(next(d, failure, clock).0),
{
    let machines = d.summary.machines;
    match d.pending {
        Pending::VerifyProvider => {
            match failure {
                Some(f) => {
                    lemma_unattempted_follow_plan(machines, d.plan);
                },
                None => {
                    lemma_proceed_consistent(d, 0, clock);
                },
            }
        },
        Pending::Machine { index, action } => {
            let (machine, following) = machine_step(d.current, action, failure);
            if following is None {
                let pushed = machines.push(machine);
                assert forall|i: int| 0 <= i < pushed.len() implies (#[trigger] pushed[i]).identifier
                    == d.plan[i].0 && pushed[i].name == d.plan[i].1 by {
                    if i < machines.len() {
                        assert(pushed[i] == machines[i]);
                    }
                }
                match failure {
                    Some(f) => {
                        lemma_unattempted_follow_plan(pushed, d.plan);
                    },
                    None => {
                        assert(ready(machine));
                        assert forall|i: int| 0 <= i < pushed.len() implies ready(#[trigger] pushed[i]) by {
                            if i < machines.len() {
                                assert(pushed[i] == machines[i]);
                            }
                        }
                        let d2 = DeploymentView {
                            summary: DeploymentSummaryView { machines: pushed, ..d.summary },
                            current: machine,
                            ..d
                        };
                        lemma_proceed_consistent(d2, index + 1, clock);
                    },
                }
            }
        },
        Pending::Done => {},
    }
}

proof fn lemma_proceed_consistent(d: DeploymentView, index: int, clock: Clock)
    requires
        d.plan.len() <= usize::MAX,
        records_follow_plan(d.summary.machines, d.plan),
        index == d.summary.machines.len(),
        all_ready(d.summary.machines),
        d.summary.status == DeploymentStatus::InProgress,
        d.summary.interruption is None,
        d.summary.finished_at_unix_seconds is None,
    ensures
        consistent(proceed(d, index, clock).0),
{
    if index < d.plan.len() {
        match stop_reason(clock, true, Some(d.plan[index].0)) {
            Some(reason) => lemma_stopped_consistent(d, clock, reason),
            None => {
                reveal_strlit("in-progress");
            },
        }
    } else {
        match stop_reason(clock, false, last_identifier(d.summary.machines)) {
            Some(reason) => lemma_stopped_consistent(d, clock, reason),
            None => {},
        }
    }
}

/// Once a deployment is over, its record lists every planned machine once, in
/// the planned order.
pub proof fn lemma_finished_record_lists_plan(d: DeploymentView)
    requires
        consistent(d),
        d.pending == Pending::Done,
    ensures
        d.summary.machines.len() == d.plan.len(),
        forall|i: int|
            0 <= i < d.plan.len() ==> (#[trigger] d.summary.machines[i]).identifier == d.plan[i].0,
{
}

/// A deployment that ends in success brought every planned machine to the
/// ready state.
pub proof fn lemma_success_means_every_machine_ready(d: DeploymentView)
    requires
        consistent(d),
        d.pending == Pending::Done,
        d.summary.status == DeploymentStatus::Success,
    ensures
        forall|i: int| 0 <= i < d.plan.len() ==> ready(#[trigger] d.summary.machines[i]),
{
}

} // verus!
