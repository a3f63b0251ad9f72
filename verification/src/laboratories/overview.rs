//! The overview printed once a configuration is found valid: the laboratory's
//! name, provider and machine count, then one line per machine with its CPUs
//! and memory.

use crate::laboratories::Configuration;
use crate::laboratories::laboratory::provider_name;
use crate::laboratories::machines::machine::Machine;
use crate::text::{decimal, owned, push_decimal};
use vstd::prelude::*;

verus! {

/// Memory in megabytes as shown to users: whole gigabytes where it is a
/// multiple of 1024 megabytes, megabytes otherwise.
pub open spec fn memory_text(megabytes: u32) -> Seq<char> {
    if megabytes % 1024 == 0 {
        decimal((megabytes / 1024) as nat) + "GB"@
    } else {
        decimal(megabytes as nat) + "MB"@
    }
}

/// The overview line of a machine.
pub open spec fn machine_line(machine: Machine) -> Seq<char> {
    "\n    ✓ "@ + machine.identifier.value@ + " ("@ + decimal(machine.hardware.cpus.value as nat)
        + " CPUs, "@ + memory_text(machine.hardware.memory_megabyte.value) + " RAM)"@
}

/// The overview lines of the first `count` machines.
pub open spec fn machine_lines(machines: Seq<Machine>, count: int) -> Seq<char>
    decreases count,
{
    if count <= 0 {
        Seq::empty()
    } else {
        machine_lines(machines, count - 1) + machine_line(machines[count - 1])
    }
}

/// The overview of a valid configuration.
pub open spec fn overview_text(configuration: Configuration) -> Seq<char> {
    let machines = configuration.machines.value@;
    "✓ Configuration is valid\n  - Laboratory name: "@ + configuration.laboratory.name@ + "\n  - Provider: "@
        + provider_name(configuration.laboratory.provider) + "\n  - Machines: "@ + decimal(machines.len())
        + machine_lines(machines, machines.len() as int)
}

fn push_memory(out: &mut String, megabytes: u32)
    ensures
        final(out)@ == old(out)@ + memory_text(megabytes),
{
    if megabytes % 1024 == 0 {
        push_decimal(out, (megabytes / 1024) as u64);
        out.append("GB");
    } else {
        push_decimal(out, megabytes as u64);
        out.append("MB");
    }
    proof {
        assert(out@ =~= old(out)@ + memory_text(megabytes));
    }
}

impl Configuration {
    /// The overview printed once the configuration is found valid.
    pub fn overview(&self) -> (text: String)
        ensures
            text@ == overview_text(*self),
    {
        let machines = &self.machines.value;
        let mut out = owned("✓ Configuration is valid\n  - Laboratory name: ");
        out.append(self.laboratory.name.as_str());
        out.append("\n  - Provider: ");
        out.append(self.laboratory.provider.as_str());
        out.append("\n  - Machines: ");
        push_decimal(&mut out, machines.len() as u64);
        let ghost head = out@;
        let mut i: usize = 0;
        while i < machines.len()
            invariant
                *machines == self.machines.value,
                i <= machines@.len(),
                out@ == head + machine_lines(machines@, i as int),
            decreases machines.len() - i,
        {
            let machine = &machines[i];
            out.append("\n    ✓ ");
            out.append(machine.identifier.value.as_str());
            out.append(" (");
            push_decimal(&mut out, machine.hardware.cpus.value as u64);
            out.append(" CPUs, ");
            push_memory(&mut out, machine.hardware.memory_megabyte.value);
            out.append(" RAM)");
            proof {
                assert(out@ =~= head + machine_lines(machines@, i as int) + machine_line(machines@[i as int]));
            }
            i = i + 1;
        }
        proof {
            assert(out@ =~= overview_text(*self));
        }
        out
    }
}

} // verus!
