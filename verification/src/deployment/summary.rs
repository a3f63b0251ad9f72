//! The record of a deployment: one entry per machine with the phases it went
//! through, and the overall status.

use crate::text::owned;
use vstd::prelude::*;

verus! {

/// Where a deployment stands.
#[derive(Debug, Clone, Copy, PartialEq, Eq, Structural)]
pub enum DeploymentStatus {
    InProgress,
    Success,
    Failed,
    Interrupted,
    TimedOut,
}

/// The word recorded for a deployment status.
pub open spec fn status_name(status: DeploymentStatus) -> Seq<char> {
    match status {
        DeploymentStatus::InProgress => "in_progress"@,
        DeploymentStatus::Success => "success"@,
        DeploymentStatus::Failed => "failed"@,
        DeploymentStatus::Interrupted => "interrupted"@,
        DeploymentStatus::TimedOut => "timed_out"@,
    }
}

impl DeploymentStatus {
    /// The word recorded for the status.
    pub fn as_str(self) -> (name: &'static str)
        ensures
            name@ == status_name(self),
    {
        match self {
            DeploymentStatus::InProgress => "in_progress",
            DeploymentStatus::Success => "success",
            DeploymentStatus::Failed => "failed",
            DeploymentStatus::Interrupted => "interrupted",
            DeploymentStatus::TimedOut => "timed_out",
        }
    }
}

/// How a phase of a machine's deployment ended.
#[derive(Debug, Clone, Copy, PartialEq, Eq, Structural)]
pub enum PhaseStatus {
    Completed,
    Failed,
}

/// The word recorded for a phase status.
pub open spec fn phase_status_name(status: PhaseStatus) -> Seq<char> {
    match status {
        PhaseStatus::Completed => "completed"@,
        PhaseStatus::Failed => "failed"@,
    }
}

impl PhaseStatus {
    /// The word recorded for the status.
    pub fn as_str(self) -> (name: &'static str)
        ensures
            name@ == phase_status_name(self),
    {
        match self {
            PhaseStatus::Completed => "completed",
            PhaseStatus::Failed => "failed",
        }
    }
}

/// A phase of a machine's deployment as recorded.
pub struct PhaseRecord {
    pub name: String,
    pub status: String,
    pub error: Option<String>,
}

/// `PhaseRecord` with its texts taken as character sequences.
pub struct PhaseRecordView {
    pub name: Seq<char>,
    pub status: Seq<char>,
    pub error: Option<Seq<char>>,
}

/// An optional text taken as a character sequence.
pub open spec fn text_option(text: Option<String>) -> Option<Seq<char>> {
    match text {
        Some(t) => Some(t@),
        None => None,
    }
}

impl View for PhaseRecord {
    type V = PhaseRecordView;

    open spec fn view(&self) -> PhaseRecordView {
        PhaseRecordView { name: self.name@, status: self.status@, error: text_option(self.error) }
    }
}

/// The record of one machine's deployment.
pub struct MachineSummary {
    pub identifier: String,
    pub name: String,
    /// The last lifecycle state the machine reached.
    pub final_state: String,
    /// "in-progress", "not_attempted", "failed" or "completed".
    pub outcome: String,
    pub error: Option<String>,
    pub phases: Vec<PhaseRecord>,
}

/// `MachineSummary` with its texts taken as character sequences.
pub struct MachineSummaryView {
    pub identifier: Seq<char>,
    pub name: Seq<char>,
    pub final_state: Seq<char>,
    pub outcome: Seq<char>,
    pub error: Option<Seq<char>>,
    pub phases: Seq<PhaseRecordView>,
}

impl View for MachineSummary {
    type V = MachineSummaryView;

    open spec fn view(&self) -> MachineSummaryView {
        MachineSummaryView {
            identifier: self.identifier@,
            name: self.name@,
            final_state: self.final_state@,
            outcome: self.outcome@,
            error: text_option(self.error),
            phases: self.phases@.map_values(|p: PhaseRecord| p@),
        }
    }
}

/// The record of a machine whose deployment is starting.
pub open spec fn started_machine(identifier: Seq<char>, name: Seq<char>) -> MachineSummaryView {
    MachineSummaryView {
        identifier,
        name,
        final_state: "planned"@,
        outcome: "in-progress"@,
        error: None,
        phases: Seq::empty(),
    }
}

/// The record of a machine that was never attempted.
pub open spec fn unattempted_machine(identifier: Seq<char>, name: Seq<char>) -> MachineSummaryView {
    MachineSummaryView {
        identifier,
        name,
        final_state: "planned"@,
        outcome: "not_attempted"@,
        error: None,
        phases: Seq::empty(),
    }
}

/// A machine record with one more completed phase.
pub open spec fn with_completed_phase(summary: MachineSummaryView, phase: Seq<char>) -> MachineSummaryView {
    MachineSummaryView {
        phases: summary.phases.push(
            PhaseRecordView { name: phase, status: "completed"@, error: None },
        ),
        ..summary
    }
}

/// A machine record whose deployment failed in `phase`.
pub open spec fn with_failed_phase(
    summary: MachineSummaryView,
    phase: Seq<char>,
    error: Seq<char>,
    final_state: Seq<char>,
) -> MachineSummaryView {
    MachineSummaryView {
        phases: summary.phases.push(
            PhaseRecordView { name: phase, status: "failed"@, error: Some(error) },
        ),
        final_state,
        outcome: "failed"@,
        error: Some(error),
        ..summary
    }
}

fn copy_text_option(text: &Option<String>) -> (copy: Option<String>)
    ensures
        text_option(copy) == text_option(*text),
{
    match text {
        Some(t) => Some(t.clone()),
        None => None,
    }
}

impl PhaseRecord {
    /// A copy of the record.
    pub fn duplicate(&self) -> (copy: PhaseRecord)
        ensures
            copy@ == self@,
    {
        PhaseRecord {
            name: self.name.clone(),
            status: self.status.clone(),
            error: copy_text_option(&self.error),
        }
    }
}

impl MachineSummary {
    /// A copy of the record.
    pub fn duplicate(&self) -> (copy: MachineSummary)
        ensures
            copy@ == self@,
    {
        let mut phases: Vec<PhaseRecord> = Vec::new();
        let mut i: usize = 0;
        while i < self.phases.len()
            invariant
                i <= self.phases@.len(),
                phases@.map_values(|p: PhaseRecord| p@) == self.phases@.take(i as int).map_values(
                    |p: PhaseRecord| p@,
                ),
            decreases self.phases.len() - i,
        {
            let ghost before = phases@;
            let record = self.phases[i].duplicate();
            phases.push(record);
            proof {
                assert(phases@.map_values(|p: PhaseRecord| p@) =~= before.map_values(|p: PhaseRecord| p@).push(record@));
                assert(self.phases@.take(i + 1) =~= self.phases@.take(i as int).push(self.phases@[i as int]));
                assert(self.phases@.take(i + 1).map_values(|p: PhaseRecord| p@) =~= self.phases@.take(
                    i as int,
                ).map_values(|p: PhaseRecord| p@).push(self.phases@[i as int]@));
            }
            i = i + 1;
        }
        assert(self.phases@.take(self.phases@.len() as int) =~= self.phases@);
        MachineSummary {
            identifier: self.identifier.clone(),
            name: self.name.clone(),
            final_state: self.final_state.clone(),
            outcome: self.outcome.clone(),
            error: copy_text_option(&self.error),
            phases,
        }
    }

    /// The record of a machine whose deployment is starting.
    pub fn new(identifier: &str, name: String) -> (summary: MachineSummary)
        ensures
            summary@ == started_machine(identifier@, name@),
    {
        let summary = MachineSummary {
            identifier: owned(identifier),
            name,
            final_state: owned("planned"),
            outcome: owned("in-progress"),
            error: None,
            phases: Vec::new(),
        };
        assert(summary.phases@.map_values(|p: PhaseRecord| p@) =~= Seq::empty());
        summary
    }

    /// The record of a machine that was never attempted.
    pub fn not_attempted(identifier: &str, name: &str) -> (summary: MachineSummary)
        ensures
            summary@ == unattempted_machine(identifier@, name@),
    {
        let summary = MachineSummary {
            identifier: owned(identifier),
            name: owned(name),
            final_state: owned("planned"),
            outcome: owned("not_attempted"),
            error: None,
            phases: Vec::new(),
        };
        assert(summary.phases@.map_values(|p: PhaseRecord| p@) =~= Seq::empty());
        summary
    }

    /// Records that `name` completed.
    pub fn complete_phase(&mut self, name: &str)
        ensures
            final(self)@ == with_completed_phase(old(self)@, name@),
    {
        let ghost before = self.phases@;
        let record = PhaseRecord {
            name: owned(name),
            status: owned(PhaseStatus::Completed.as_str()),
            error: None,
        };
        self.phases.push(record);
        assert(self.phases@.map_values(|p: PhaseRecord| p@) =~= before.map_values(
            |p: PhaseRecord| p@,
        ).push(record@));
    }

    /// Records that `name` failed with `error`, leaving the machine in
    /// `final_state`.
    pub fn fail(&mut self, name: &str, error: String, final_state: &str)
        ensures
            final(self)@ == with_failed_phase(old(self)@, name@, error@, final_state@),
    {
        let ghost before = self.phases@;
        let record = PhaseRecord {
            name: owned(name),
            status: owned(PhaseStatus::Failed.as_str()),
            error: Some(error.clone()),
        };
        self.phases.push(record);
        assert(self.phases@.map_values(|p: PhaseRecord| p@) =~= before.map_values(
            |p: PhaseRecord| p@,
        ).push(record@));
        self.final_state = owned(final_state);
        self.outcome = owned("failed");
        self.error = Some(error);
    }
}

/// Why and where a deployment stopped before its end.
pub struct InterruptionRecord {
    /// "signal" or "timeout".
    pub kind: String,
    /// "between-machines" or "after-machine".
    pub phase: String,
    pub machine_identifier: Option<String>,
    pub message: String,
}

/// `InterruptionRecord` with its texts taken as character sequences.
pub struct InterruptionRecordView {
    pub kind: Seq<char>,
    pub phase: Seq<char>,
    pub machine_identifier: Option<Seq<char>>,
    pub message: Seq<char>,
}

impl View for InterruptionRecord {
    type V = InterruptionRecordView;

    open spec fn view(&self) -> InterruptionRecordView {
        InterruptionRecordView {
            kind: self.kind@,
            phase: self.phase@,
            machine_identifier: text_option(self.machine_identifier),
            message: self.message@,
        }
    }
}

impl InterruptionRecord {
    /// A record of a stop of the given kind and phase.
    pub fn new(kind: &str, phase: &str, machine_identifier: Option<String>, message: String) -> (record:
        InterruptionRecord)
        ensures
            record@ == (InterruptionRecordView {
                kind: kind@,
                phase: phase@,
                machine_identifier: text_option(machine_identifier),
                message: message@,
            }),
    {
        InterruptionRecord { kind: owned(kind), phase: owned(phase), machine_identifier, message }
    }
}

/// The record of a whole deployment.
pub struct DeploymentSummary {
    pub correlation_identifier: String,
    pub laboratory_identifier: String,
    pub provider_identifier: String,
    pub configuration_path: String,
    pub status: DeploymentStatus,
    pub started_at_unix_seconds: u64,
    pub finished_at_unix_seconds: Option<u64>,
    /// Time spent, in nanoseconds.
    pub elapsed_nanoseconds: u128,
    pub timeout_seconds: u64,
    pub error: Option<String>,
    pub interruption: Option<InterruptionRecord>,
    pub machines: Vec<MachineSummary>,
}

/// `DeploymentSummary` with its texts taken as character sequences.
pub struct DeploymentSummaryView {
    pub correlation_identifier: Seq<char>,
    pub laboratory_identifier: Seq<char>,
    pub provider_identifier: Seq<char>,
    pub configuration_path: Seq<char>,
    pub status: DeploymentStatus,
    pub started_at_unix_seconds: u64,
    pub finished_at_unix_seconds: Option<u64>,
    pub elapsed_nanoseconds: u128,
    pub timeout_seconds: u64,
    pub error: Option<Seq<char>>,
    pub interruption: Option<InterruptionRecordView>,
    pub machines: Seq<MachineSummaryView>,
}

/// An optional interruption record taken by its view.
pub open spec fn interruption_option(record: Option<InterruptionRecord>) -> Option<InterruptionRecordView> {
    match record {
        Some(r) => Some(r@),
        None => None,
    }
}

/// The views of a sequence of machine records.
pub open spec fn machine_views(machines: Seq<MachineSummary>) -> Seq<MachineSummaryView> {
    machines.map_values(|m: MachineSummary| m@)
}

impl View for DeploymentSummary {
    type V = DeploymentSummaryView;

    open spec fn view(&self) -> DeploymentSummaryView {
        DeploymentSummaryView {
            correlation_identifier: self.correlation_identifier@,
            laboratory_identifier: self.laboratory_identifier@,
            provider_identifier: self.provider_identifier@,
            configuration_path: self.configuration_path@,
            status: self.status,
            started_at_unix_seconds: self.started_at_unix_seconds,
            finished_at_unix_seconds: self.finished_at_unix_seconds,
            elapsed_nanoseconds: self.elapsed_nanoseconds,
            timeout_seconds: self.timeout_seconds,
            error: text_option(self.error),
            interruption: interruption_option(self.interruption),
            machines: machine_views(self.machines@),
        }
    }
}

/// The record of a deployment that has just started.
pub open spec fn fresh_summary(
    correlation_identifier: Seq<char>,
    laboratory_identifier: Seq<char>,
    provider_identifier: Seq<char>,
    configuration_path: Seq<char>,
    started_at_unix_seconds: u64,
    timeout_seconds: u64,
) -> DeploymentSummaryView {
    DeploymentSummaryView {
        correlation_identifier,
        laboratory_identifier,
        provider_identifier,
        configuration_path,
        status: DeploymentStatus::InProgress,
        started_at_unix_seconds,
        finished_at_unix_seconds: None,
        elapsed_nanoseconds: 0,
        timeout_seconds,
        error: None,
        interruption: None,
        machines: Seq::empty(),
    }
}

impl DeploymentSummary {
    /// The record of a deployment that has just started.
    pub fn new(
        correlation_identifier: String,
        laboratory_identifier: String,
        provider_identifier: String,
        configuration_path: String,
        started_at_unix_seconds: u64,
        timeout_seconds: u64,
    ) -> (summary: DeploymentSummary)
        ensures
            summary@ == fresh_summary(
                correlation_identifier@,
                laboratory_identifier@,
                provider_identifier@,
                configuration_path@,
                started_at_unix_seconds,
                timeout_seconds,
            ),
    {
        let summary = DeploymentSummary {
            correlation_identifier,
            laboratory_identifier,
            provider_identifier,
            configuration_path,
            status: DeploymentStatus::InProgress,
            started_at_unix_seconds,
            finished_at_unix_seconds: None,
            elapsed_nanoseconds: 0,
            timeout_seconds,
            error: None,
            interruption: None,
            machines: Vec::new(),
        };
        assert(machine_views(summary.machines@) =~= Seq::empty());
        summary
    }
}

} // verus!
