//! The hardware floor of every machine and the host's CPU count: at least one
//! CPU, at least 512 MB of memory, no more CPUs than the host has.

use crate::errors::validation::{Validation, ValidationView, verdict};
use crate::laboratories::machines::hardware::{MINIMUM_CPUS, MINIMUM_MEMORY_MEGABYTE};
use crate::laboratories::machines::machine::Machine;
use crate::sequences::{first_some, lemma_first_some_at, lemma_first_some_none};
use crate::span::{source_span, to_source_span};
use crate::text::owned;
use vstd::prelude::*;

verus! {

/// The first problem with a machine's hardware against a host of
/// `host_cpus` CPUs: too few CPUs, too little memory, more CPUs than the host.
pub open spec fn hardware_floor_verdict(machine: Machine, host_cpus: usize) -> Option<
    ValidationView,
> {
    let hardware = machine.hardware;
    let identifier = machine.identifier.value@;
    if hardware.cpus.value < MINIMUM_CPUS {
        Some(ValidationView::InsufficientCpu {
            span: source_span(hardware.cpus.span),
            machine_identifier: identifier,
            actual: hardware.cpus.value,
        })
    } else if hardware.memory_megabyte.value < MINIMUM_MEMORY_MEGABYTE {
        Some(ValidationView::InsufficientMemory {
            span: source_span(hardware.memory_megabyte.span),
            machine_identifier: identifier,
            actual: hardware.memory_megabyte.value,
            minimum: MINIMUM_MEMORY_MEGABYTE,
        })
    } else if hardware.cpus.value > host_cpus {
        Some(ValidationView::ExcessiveCpu {
            span: source_span(hardware.cpus.span),
            machine_identifier: identifier,
            requested: hardware.cpus.value,
            host_cpus,
        })
    } else {
        None
    }
}

/// A machine passes the floor check exactly when it has at least one CPU,
/// at most as many as the host, and at least 512 MB of memory.
pub proof fn lemma_hardware_floor_bounds(machine: Machine, host_cpus: usize)
    ensures
        hardware_floor_verdict(machine, host_cpus) is None <==> (1 <= machine.hardware.cpus.value
            && machine.hardware.cpus.value <= host_cpus && 512 <= machine.hardware.memory_megabyte.value),
{
}

/// The first problem among `machines`, in order.
pub open spec fn all_machines_verdict(machines: Seq<Machine>, host_cpus: usize) -> Option<
    ValidationView,
> {
    first_some(Seq::new(machines.len(), |i: int| hardware_floor_verdict(machines[i], host_cpus)))
}

/// Checks a machine's CPUs and memory against the floor and the host.
pub fn validate_hardware(machine: &Machine, host_cpus: usize) -> (outcome: Result<(), Validation>)
    ensures
        verdict(outcome) == hardware_floor_verdict(*machine, host_cpus),
        outcome is Ok <==> (1 <= machine.hardware.cpus.value && machine.hardware.cpus.value <= host_cpus
            && 512 <= machine.hardware.memory_megabyte.value),
{
    proof {
        lemma_hardware_floor_bounds(*machine, host_cpus);
    }
    let hardware = &machine.hardware;
    let identifier = machine.identifier.value.as_str();
    let cpus = hardware.cpus.value;
    if cpus < MINIMUM_CPUS {
        return Err(
            Validation::InsufficientCpu {
                span: to_source_span(hardware.cpus.span),
                machine_identifier: owned(identifier),
                actual: cpus,
            },
        );
    }
    let memory_megabyte = hardware.memory_megabyte.value;
    if memory_megabyte < MINIMUM_MEMORY_MEGABYTE {
        return Err(
            Validation::InsufficientMemory {
                span: to_source_span(hardware.memory_megabyte.span),
                machine_identifier: owned(identifier),
                actual: memory_megabyte,
                minimum: MINIMUM_MEMORY_MEGABYTE,
            },
        );
    }
    if cpus as usize > host_cpus {
        return Err(
            Validation::ExcessiveCpu {
                span: to_source_span(hardware.cpus.span),
                machine_identifier: owned(identifier),
                requested: cpus,
                host_cpus,
            },
        );
    }
    Ok(())
}

/// `num_cpus::get`: the number of logical CPUs the process may use. The
/// number depends on the machine and is left unsaid.
#[verifier::external_body]
fn logical_cpus() -> usize {
    num_cpus::get()
}

/// Checks every machine against a host of `host_cpus` CPUs, stopping at the
/// first problem.
pub fn validate_machines(machines: &[Machine], host_cpus: usize) -> (outcome: Result<(), Validation>)
    ensures
        verdict(outcome) == all_machines_verdict(machines@, host_cpus),
        outcome is Ok <==> forall|i: int|
            0 <= i < machines@.len() ==> 1 <= (#[trigger] machines@[i]).hardware.cpus.value
                && machines@[i].hardware.cpus.value <= host_cpus && 512
                <= machines@[i].hardware.memory_megabyte.value,
{
    let ghost steps = Seq::new(
        machines@.len(),
        |i: int| hardware_floor_verdict(machines@[i], host_cpus),
    );
    let mut i: usize = 0;
    while i < machines.len()
        invariant
            i <= machines@.len(),
            steps == Seq::new(
                machines@.len(),
                |i: int| hardware_floor_verdict(machines@[i], host_cpus),
            ),
            forall|j: int| 0 <= j < i ==> steps[j] is None,
            forall|j: int|
                0 <= j < i ==> 1 <= (#[trigger] machines@[j]).hardware.cpus.value
                    && machines@[j].hardware.cpus.value <= host_cpus && 512
                    <= machines@[j].hardware.memory_megabyte.value,
        decreases machines.len() - i,
    {
        let outcome = validate_hardware(&machines[i], host_cpus);
        if outcome.is_err() {
            proof {
                lemma_first_some_at(steps, i as int);
            }
            return outcome;
        }
        i = i + 1;
    }
    proof {
        lemma_first_some_none(steps);
    }
    Ok(())
}

/// Checks every machine against the host this runs on. Which machines pass
/// depends on its CPU count, which is left unsaid: the outcome is that of
/// `validate_machines` for some CPU count.
pub fn validate_all_machines(machines: &[Machine]) -> (outcome: Result<(), Validation>)
    ensures
        exists|host_cpus: usize| verdict(outcome) == all_machines_verdict(machines@, host_cpus),
{
    let host_cpus = logical_cpus();
    validate_machines(machines, host_cpus)
}

} // verus!
