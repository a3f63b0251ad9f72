//! The laboratory configuration: its model and its checks.

pub mod decode;
pub mod identifier;
pub mod laboratory;
pub mod machines;
pub mod overview;

use crate::errors::validation::{Validation, ValidationView, verdict};
use crate::laboratories::laboratory::Laboratory;
use crate::laboratories::machines::hardware::HostResources;
use crate::laboratories::machines::machine::{Machine, MachineFacts, facts_cover, facts_fit, machine_verdict, or_else};
use crate::sequences::{first_position, first_some, lemma_first_some_at, lemma_first_some_none, position_of_text, seen_before, texts};
use crate::span::{Spanned, source_span, to_source_span};
use crate::text::{decimal, owned, push_decimal};
use vstd::prelude::*;

verus! {

/// The configuration format version this library reads.
pub const CURRENT_VERSION: u64 = 1;

/// A laboratory configuration: format version, laboratory settings, machines.
pub struct Configuration {
    pub version: Spanned<u64>,
    pub laboratory: Laboratory,
    pub machines: Spanned<Vec<Machine>>,
}

/// The identifiers of the first `count` machines.
pub open spec fn machine_identifiers(machines: Seq<Machine>, count: int) -> Seq<Seq<char>> {
    Seq::new(count as nat, |j: int| machines[j].identifier.value@)
}

/// The positions of a repeated identifier, as "first, repeat".
pub open spec fn repeat_positions(first: int, repeat: int) -> Seq<char> {
    decimal(first as nat) + ", "@ + decimal(repeat as nat)
}

/// The problem with the `i`-th machine: its own, then an identifier that an
/// earlier machine already uses.
pub open spec fn machine_step(
    configuration: Configuration,
    host: HostResources,
    facts: Seq<MachineFacts>,
    i: int,
) -> Option<ValidationView> {
    let machines = configuration.machines.value@;
    let identifier = machines[i].identifier.value@;
    or_else(
        machine_verdict(machines[i], host, configuration.laboratory.provider, facts[i]),
        if seen_before(machine_identifiers(machines, i), identifier) {
            Some(ValidationView::DuplicateMachineIdentifier {
                span: source_span(machines[i].identifier.span),
                identifier,
                indices: repeat_positions(
                    first_position(machine_identifiers(machines, i), identifier),
                    i,
                ),
            })
        } else {
            None
        },
    )
}

/// The problems of each machine in order.
pub open spec fn machine_steps(
    configuration: Configuration,
    host: HostResources,
    facts: Seq<MachineFacts>,
) -> Seq<Option<ValidationView>> {
    Seq::new(
        configuration.machines.value@.len(),
        |i: int| machine_step(configuration, host, facts, i),
    )
}

/// The first problem with a configuration, given the host and what is known
/// of the paths of each machine: a format version other than the current one,
/// then no machine at all, then the first machine with a problem.
pub open spec fn configuration_verdict(
    configuration: Configuration,
    host: HostResources,
    facts: Seq<MachineFacts>,
) -> Option<ValidationView> {
    if configuration.version.value != CURRENT_VERSION {
        Some(ValidationView::FormatVersionMismatch {
            span: source_span(configuration.version.span),
            actual: configuration.version.value,
            expected: CURRENT_VERSION,
        })
    } else if configuration.machines.value@.len() == 0 {
        Some(ValidationView::EmptyMachines { span: source_span(configuration.machines.span) })
    } else {
        first_some(machine_steps(configuration, host, facts))
    }
}

/// Whether the facts fit the configuration: one fitting entry per machine.
pub open spec fn all_facts_cover(configuration: Configuration, facts: Seq<MachineFacts>) -> bool {
    &&& facts.len() == configuration.machines.value@.len()
    &&& forall|i: int|
        0 <= i < facts.len() ==> facts_cover(configuration.machines.value@[i], #[trigger] facts[i])
}

/// Whether the facts fit the configuration: one fitting entry per machine.
pub open spec fn all_facts_fit(configuration: Configuration, parent: Seq<char>, facts: Seq<MachineFacts>) -> bool {
    &&& facts.len() == configuration.machines.value@.len()
    &&& forall|i: int|
        0 <= i < facts.len() ==> facts_fit(configuration.machines.value@[i], parent, #[trigger] facts[i])
}

impl Configuration {
    /// Checks the configuration given the host and what is known of the paths
    /// of each machine.
    pub fn check(&self, host_resources: &HostResources, facts: &Vec<MachineFacts>) -> (outcome:
        Result<(), Validation>)
        requires
            all_facts_cover(*self, facts@),
        ensures
            verdict(outcome) == configuration_verdict(*self, *host_resources, facts@),
    {
        if self.version.value != CURRENT_VERSION {
            return Err(
                Validation::FormatVersionMismatch {
                    span: to_source_span(self.version.span),
                    actual: self.version.value,
                    expected: CURRENT_VERSION,
                },
            );
        }
        let machines = &self.machines.value;
        let n = machines.len();
        if n == 0 {
            return Err(Validation::EmptyMachines { span: to_source_span(self.machines.span) });
        }
        let ghost steps = machine_steps(*self, *host_resources, facts@);
        let mut seen: Vec<String> = Vec::new();
        let mut i: usize = 0;
        while i < n
            invariant
                *machines == self.machines.value,
                n == machines@.len(),
                n > 0,
                self.version.value == CURRENT_VERSION,
                all_facts_cover(*self, facts@),
                steps == machine_steps(*self, *host_resources, facts@),
                i <= n,
                forall|j: int| 0 <= j < i ==> steps[j] is None,
                texts(seen@) == machine_identifiers(machines@, i as int),
            decreases n - i,
        {
            let machine = &machines[i];
            assert(facts_cover(machines@[i as int], facts@[i as int]));
            match machine.check(host_resources, self.laboratory.provider, &facts[i]) {
                Err(error) => {
                    proof {
                        lemma_first_some_at(steps, i as int);
                    }
                    return Err(error);
                },
                Ok(()) => {},
            }
            let identifier = machine.identifier.value.as_str();
            match position_of_text(&seen, identifier) {
                Some(first) => {
                    let mut indices = String::new();
                    push_decimal(&mut indices, first as u64);
                    indices.append(", ");
                    push_decimal(&mut indices, i as u64);
                    proof {
                        assert(indices@ =~= repeat_positions(first as int, i as int));
                        lemma_first_some_at(steps, i as int);
                    }
                    return Err(
                        Validation::DuplicateMachineIdentifier {
                            span: to_source_span(machine.identifier.span),
                            identifier: owned(identifier),
                            indices,
                        },
                    );
                },
                None => {},
            }
            let ghost before = seen@;
            let copy = owned(identifier);
            assert(copy@ == machines@[i as int].identifier.value@);
            seen.push(copy);
            proof {
                let names = machine_identifiers(machines@, i + 1);
                let old_names = machine_identifiers(machines@, i as int);
                assert forall|j: int| 0 <= j < i + 1 implies texts(seen@)[j] == names[j] by {
                    assert(names[j] == machines@[j].identifier.value@);
                    if j < i {
                        assert(texts(before).len() == before.len());
                        assert(seen@[j] == before[j]);
                        assert(texts(before)[j] == old_names[j]);
                        assert(old_names[j] == machines@[j].identifier.value@);
                    } else {
                        assert(seen@[j] == copy);
                    }
                }
                assert(texts(seen@) =~= names);
            }
            i = i + 1;
        }
        proof {
            lemma_first_some_none(steps);
        }
        Ok(())
    }

    /// Checks the configuration: the format version, at least one machine,
    /// every machine against the host (relative paths being taken from
    /// `parent`), and distinct machine identifiers. The first problem found is
    /// reported.
    pub fn validate(&self, parent: &str) -> (outcome: Result<(), Validation>)
        ensures
            self.version.value != CURRENT_VERSION ==> verdict(outcome) == Some(
                ValidationView::FormatVersionMismatch {
                    span: source_span(self.version.span),
                    actual: self.version.value,
                    expected: CURRENT_VERSION,
                },
            ),
            self.version.value == CURRENT_VERSION ==> exists|host: HostResources, facts: Seq<MachineFacts>|
                all_facts_fit(*self, parent@, facts) && verdict(outcome) == #[trigger] configuration_verdict(
                    *self,
                    host,
                    facts,
                ),
    {
        if self.version.value != CURRENT_VERSION {
            return Err(
                Validation::FormatVersionMismatch {
                    span: to_source_span(self.version.span),
                    actual: self.version.value,
                    expected: CURRENT_VERSION,
                },
            );
        }
        let host = HostResources::detect();
        let machines = &self.machines.value;
        let mut facts: Vec<MachineFacts> = Vec::new();
        let mut i: usize = 0;
        while i < machines.len()
            invariant
                *machines == self.machines.value,
                i <= machines@.len(),
                facts@.len() == i,
                forall|j: int| 0 <= j < i ==> facts_fit(machines@[j], parent@, #[trigger] facts@[j]),
            decreases machines.len() - i,
        {
            facts.push(machines[i].inspect(parent));
            i = i + 1;
        }
        self.check(&host, &facts)
    }
}

} // verus!
