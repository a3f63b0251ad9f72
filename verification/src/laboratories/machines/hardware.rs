//! Virtual hardware of a machine and its checks against the host.

use crate::errors::validation::{Validation, ValidationView, verdict};
use crate::span::{Spanned, source_span, to_source_span};
use crate::text::{decimal, owned, push_decimal};
use vstd::prelude::*;

verus! {

/// The least number of CPUs a machine may have.
pub const MINIMUM_CPUS: u32 = 1;

/// The least memory, in megabytes, a machine may have.
pub const MINIMUM_MEMORY_MEGABYTE: u32 = 512;

/// Below this many CPUs a guest is easier to recognize as virtual.
pub const RECOMMENDED_MINIMUM_CPUS: u32 = 4;

/// Below this much memory, in megabytes, a guest is easier to recognize as
/// virtual.
pub const RECOMMENDED_MINIMUM_MEMORY_MEGABYTE: u32 = 8192;

/// The resources of the host that runs the laboratory.
#[derive(Debug, Clone, Copy, PartialEq, Eq, Structural)]
pub struct HostResources {
    /// Logical CPUs.
    pub cpus: usize,
    /// Total memory in megabytes.
    pub memory_megabyte: u64,
}

/// `sysinfo::System`: the number of logical CPUs and the total memory in
/// bytes, after refreshing both; `None` where the platform is not supported.
/// The answers depend on the machine and are left unsaid.
#[verifier::external_body]
fn host_cpus_and_memory_bytes() -> (answer: Option<(usize, u64)>) {
    match sysinfo::System::new() {
        Ok(mut system) => {
            system.refresh_cpu_all();
            system.refresh_memory();
            Some((system.cpus().len(), system.total_memory()))
        },
        Err(_) => None,
    }
}

/// The resources that a host report describes: the CPUs as counted and the
/// memory in whole megabytes; nothing of either where there is no report.
pub open spec fn host_from_report(report: Option<(usize, u64)>) -> HostResources {
    match report {
        Some((cpus, bytes)) => HostResources { cpus, memory_megabyte: bytes / 1048576 },
        None => HostResources { cpus: 0, memory_megabyte: 0 },
    }
}

impl HostResources {
    /// The resources of a host that reported `cpus` logical CPUs and a total
    /// memory of `bytes`, the memory rounded down to whole megabytes; nothing
    /// of either where the host reported nothing.
    pub fn from_report(report: Option<(usize, u64)>) -> (host: HostResources)
        ensures
            host == host_from_report(report),
    {
        match report {
            Some((cpus, bytes)) => HostResources { cpus, memory_megabyte: bytes / (1024 * 1024) },
            None => HostResources { cpus: 0, memory_megabyte: 0 },
        }
    }

    /// The host's CPU count and total memory in whole megabytes; nothing of
    /// either where the platform cannot report them. What the host reports
    /// depends on the machine, so the result is stated for every report.
    pub fn detect() -> (host: HostResources)
        ensures
            exists|report: Option<(usize, u64)>| host == #[trigger] host_from_report(report),
            host.memory_megabyte as int <= u64::MAX as int / 1048576int,
    {
        let report = host_cpus_and_memory_bytes();
        let host = HostResources::from_report(report);
        proof {
            match report {
                Some((cpus, bytes)) => {
                    assert(bytes as int / 1048576int <= u64::MAX as int / 1048576int) by (nonlinear_arith)
                        requires
                            bytes <= u64::MAX,
                    ;
                },
                None => {},
            }
        }
        host
    }
}

/// A machine's virtual CPUs and memory.
#[derive(Debug, Clone)]
pub struct Hardware {
    pub cpus: Spanned<u32>,
    pub memory_megabyte: Spanned<u32>,
}

/// The first problem with a machine's hardware: too few CPUs, more CPUs than
/// the host has, too little memory, more memory than the host has.
pub open spec fn hardware_verdict(
    hardware: Hardware,
    machine_identifier: Seq<char>,
    host: HostResources,
) -> Option<ValidationView> {
    if hardware.cpus.value < MINIMUM_CPUS {
        Some(ValidationView::InsufficientCpu {
            span: source_span(hardware.cpus.span),
            machine_identifier,
            actual: hardware.cpus.value,
        })
    } else if hardware.cpus.value > host.cpus {
        Some(ValidationView::ExcessiveCpu {
            span: source_span(hardware.cpus.span),
            machine_identifier,
            requested: hardware.cpus.value,
            host_cpus: host.cpus,
        })
    } else if hardware.memory_megabyte.value < MINIMUM_MEMORY_MEGABYTE {
        Some(ValidationView::InsufficientMemory {
            span: source_span(hardware.memory_megabyte.span),
            machine_identifier,
            actual: hardware.memory_megabyte.value,
            minimum: MINIMUM_MEMORY_MEGABYTE,
        })
    } else if hardware.memory_megabyte.value > host.memory_megabyte {
        Some(ValidationView::ExcessiveMemory {
            span: source_span(hardware.memory_megabyte.span),
            machine_identifier,
            requested: hardware.memory_megabyte.value,
            host_memory_megabyte: host.memory_megabyte,
        })
    } else {
        None
    }
}

/// Hardware passes its checks exactly when it has at least one CPU and
/// 512 MB of memory, and no more CPUs or memory than the host has.
pub proof fn lemma_hardware_bounds(hardware: Hardware, machine_identifier: Seq<char>, host: HostResources)
    ensures
        hardware_verdict(hardware, machine_identifier, host) is None <==> (1 <= hardware.cpus.value
            && hardware.cpus.value <= host.cpus && 512 <= hardware.memory_megabyte.value
            && hardware.memory_megabyte.value <= host.memory_megabyte),
{
}

/// Hardware that works but may make the guest look virtual.
#[derive(Debug, Clone, Copy, PartialEq, Eq, Structural)]
pub enum HardwareWarning {
    /// Less memory than recommended, in megabytes.
    LowMemory { actual: u32 },
    /// Fewer CPUs than recommended.
    FewCpus { actual: u32 },
}

/// The warnings for a machine's hardware, memory first.
pub open spec fn hardware_warnings(hardware: Hardware) -> Seq<HardwareWarning> {
    let memory = if hardware.memory_megabyte.value < RECOMMENDED_MINIMUM_MEMORY_MEGABYTE {
        seq![HardwareWarning::LowMemory { actual: hardware.memory_megabyte.value }]
    } else {
        Seq::empty()
    };
    let cpus = if hardware.cpus.value < RECOMMENDED_MINIMUM_CPUS {
        seq![HardwareWarning::FewCpus { actual: hardware.cpus.value }]
    } else {
        Seq::empty()
    };
    memory + cpus
}

/// The message logged for a hardware warning of the machine
/// `machine_identifier`.
pub open spec fn warning_message(warning: HardwareWarning, machine_identifier: Seq<char>) -> Seq<char> {
    match warning {
        HardwareWarning::LowMemory { actual } => "Machine '"@ + machine_identifier + "' memory "@ + decimal(
            actual as nat,
        ) + "MB ("@ + decimal(RECOMMENDED_MINIMUM_MEMORY_MEGABYTE as nat)
            + "MB recommended) may trigger VM detection"@,
        HardwareWarning::FewCpus { actual } => "Machine '"@ + machine_identifier + "' has "@ + decimal(
            actual as nat,
        ) + " CPUs ("@ + decimal(RECOMMENDED_MINIMUM_CPUS as nat) + " recommended) may trigger VM detection"@,
    }
}

impl HardwareWarning {
    /// The message logged for the warning about the machine
    /// `machine_identifier`.
    pub fn message(&self, machine_identifier: &str) -> (message: String)
        ensures
            message@ == warning_message(*self, machine_identifier@),
    {
        let mut message = owned("Machine '");
        message.append(machine_identifier);
        match self {
            HardwareWarning::LowMemory { actual } => {
                message.append("' memory ");
                push_decimal(&mut message, *actual as u64);
                message.append("MB (");
                push_decimal(&mut message, RECOMMENDED_MINIMUM_MEMORY_MEGABYTE as u64);
                message.append("MB recommended) may trigger VM detection");
            },
            HardwareWarning::FewCpus { actual } => {
                message.append("' has ");
                push_decimal(&mut message, *actual as u64);
                message.append(" CPUs (");
                push_decimal(&mut message, RECOMMENDED_MINIMUM_CPUS as u64);
                message.append(" recommended) may trigger VM detection");
            },
        }
        proof {
            assert(message@ =~= warning_message(*self, machine_identifier@));
        }
        message
    }
}

impl Hardware {
    /// Checks the CPUs and then the memory against the minimums and the host.
    pub fn validate(&self, machine_identifier: &str, host_resources: &HostResources) -> (outcome:
        Result<(), Validation>)
        ensures
            verdict(outcome) == hardware_verdict(*self, machine_identifier@, *host_resources),
            outcome is Ok <==> (1 <= self.cpus.value && self.cpus.value <= host_resources.cpus && 512
                <= self.memory_megabyte.value && self.memory_megabyte.value
                <= host_resources.memory_megabyte),
            self.memory_megabyte.value > host_resources.memory_megabyte ==> outcome is Err,
            self.cpus.value > host_resources.cpus ==> outcome is Err,
    {
        proof {
            lemma_hardware_bounds(*self, machine_identifier@, *host_resources);
        }
        self.validate_cpu(machine_identifier, host_resources)?;
        self.validate_memory(machine_identifier, host_resources)?;
        Ok(())
    }

    fn validate_cpu(&self, machine_identifier: &str, host_resources: &HostResources) -> (outcome:
        Result<(), Validation>)
        ensures
            self.cpus.value < MINIMUM_CPUS || self.cpus.value > host_resources.cpus ==> verdict(
                outcome,
            ) == hardware_verdict(*self, machine_identifier@, *host_resources),
            !(self.cpus.value < MINIMUM_CPUS || self.cpus.value > host_resources.cpus)
                ==> outcome is Ok,
    {
        if self.cpus.value < MINIMUM_CPUS {
            return Err(
                Validation::InsufficientCpu {
                    span: to_source_span(self.cpus.span),
                    machine_identifier: owned(machine_identifier),
                    actual: self.cpus.value,
                },
            );
        }
        if self.cpus.value as usize > host_resources.cpus {
            return Err(
                Validation::ExcessiveCpu {
                    span: to_source_span(self.cpus.span),
                    machine_identifier: owned(machine_identifier),
                    requested: self.cpus.value,
                    host_cpus: host_resources.cpus,
                },
            );
        }
        Ok(())
    }

    fn validate_memory(&self, machine_identifier: &str, host_resources: &HostResources) -> (outcome:
        Result<(), Validation>)
        requires
            !(self.cpus.value < MINIMUM_CPUS || self.cpus.value > host_resources.cpus),
        ensures
            verdict(outcome) == hardware_verdict(*self, machine_identifier@, *host_resources),
    {
        if self.memory_megabyte.value < MINIMUM_MEMORY_MEGABYTE {
            return Err(
                Validation::InsufficientMemory {
                    span: to_source_span(self.memory_megabyte.span),
                    machine_identifier: owned(machine_identifier),
                    actual: self.memory_megabyte.value,
                    minimum: MINIMUM_MEMORY_MEGABYTE,
                },
            );
        }
        if self.memory_megabyte.value as u64 > host_resources.memory_megabyte {
            return Err(
                Validation::ExcessiveMemory {
                    span: to_source_span(self.memory_megabyte.span),
                    machine_identifier: owned(machine_identifier),
                    requested: self.memory_megabyte.value,
                    host_memory_megabyte: host_resources.memory_megabyte,
                },
            );
        }
        Ok(())
    }

    /// The reasons, if any, for which the hardware may make the guest easy to
    /// recognize as virtual.
    pub fn check_warnings(&self) -> (warnings: Vec<HardwareWarning>)
        ensures
            warnings@ == hardware_warnings(*self),
    {
        let mut warnings = Vec::new();
        if self.memory_megabyte.value < RECOMMENDED_MINIMUM_MEMORY_MEGABYTE {
            warnings.push(HardwareWarning::LowMemory { actual: self.memory_megabyte.value });
        }
        if self.cpus.value < RECOMMENDED_MINIMUM_CPUS {
            warnings.push(HardwareWarning::FewCpus { actual: self.cpus.value });
        }
        assert(warnings@ =~= hardware_warnings(*self));
        warnings
    }
}

} // verus!
