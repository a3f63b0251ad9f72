//! A machine declaration and its checks.

use crate::errors::validation::{Validation, ValidationView, verdict};
use crate::laboratories::identifier::Identifier;
use crate::laboratories::laboratory::{Provider, image_extensions};
use crate::laboratories::machines::hardware::{Hardware, HostResources, hardware_verdict};
use crate::laboratories::machines::operating_system::{OperatingSystem, image_verdict, is_windows, os_image};
use crate::laboratories::machines::packages::{Packages, packages_verdict};
use crate::laboratories::machines::script::{Script, script_verdict};
use crate::laboratories::machines::user::{User, user_verdict};
use crate::paths::{PathFacts, describes, inspect};
use crate::sequences::{contains_text, texts, first_some, lemma_first_some_at, lemma_first_some_none, seen_before};
use crate::span::{Spanned, source_span, to_source_span};
use crate::text::{owned, same_text, trim, trimmed, views};
use vstd::prelude::*;

verus! {

/// A virtual machine of the laboratory.
#[derive(Debug, Clone)]
pub struct Machine {
    pub identifier: Spanned<Identifier>,
    pub name: String,
    pub hardware: Hardware,
    pub operating_system: OperatingSystem,
    pub users: Spanned<Vec<User>>,
    pub packages: Option<Packages>,
    pub scripts: Option<Vec<Script>>,
}

/// What the checks know of the paths a machine declares: its image, then its
/// scripts in order.
pub struct MachineFacts {
    pub image: PathFacts,
    pub scripts: Vec<PathFacts>,
}

/// The first of two findings.
pub open spec fn or_else(first: Option<ValidationView>, second: Option<ValidationView>) -> Option<
    ValidationView,
> {
    if first is Some {
        first
    } else {
        second
    }
}

/// The trimmed names of the first `count` users.
pub open spec fn trimmed_usernames(users: Seq<User>, count: int) -> Seq<Seq<char>> {
    Seq::new(count as nat, |j: int| trimmed(users[j].username.value@))
}

/// The problem with the `i`-th user: its own, or a trimmed name already used.
pub open spec fn user_step(users: Seq<User>, machine_identifier: Seq<char>, i: int) -> Option<
    ValidationView,
> {
    or_else(
        user_verdict(users[i], machine_identifier),
        if seen_before(trimmed_usernames(users, i), trimmed(users[i].username.value@)) {
            Some(ValidationView::DuplicateUsername {
                span: source_span(users[i].username.span),
                machine_identifier,
                username: trimmed(users[i].username.value@),
            })
        } else {
            None
        },
    )
}

/// The first problem with a machine's users: none declared, then the first
/// user with a problem.
pub open spec fn users_verdict(users: Spanned<Vec<User>>, machine_identifier: Seq<char>) -> Option<
    ValidationView,
> {
    if users.value@.len() == 0 {
        Some(ValidationView::EmptyUsers { span: source_span(users.span), machine_identifier })
    } else {
        first_some(
            Seq::new(users.value@.len(), |i: int| user_step(users.value@, machine_identifier, i)),
        )
    }
}

/// The extension of a script, empty when it has none.
pub open spec fn extension_or_empty(facts: PathFacts) -> Seq<char> {
    match facts.extension {
        Some(extension) => extension@,
        None => Seq::empty(),
    }
}

/// The trimmed final component of a script path, empty when it has none.
pub open spec fn script_filename(facts: PathFacts) -> Seq<char> {
    match facts.file_name {
        Some(name) => trimmed(name@),
        None => Seq::empty(),
    }
}

/// The file names of the first `count` scripts.
pub open spec fn script_filenames(facts: Seq<PathFacts>, count: int) -> Seq<Seq<char>> {
    Seq::new(count as nat, |j: int| script_filename(facts[j]))
}

/// The problem with the `i`-th script: its own, then a Windows script that is
/// not PowerShell, then a file name already used.
pub open spec fn script_step(
    scripts: Seq<Script>,
    facts: Seq<PathFacts>,
    machine_identifier: Seq<char>,
    windows: bool,
    i: int,
) -> Option<ValidationView> {
    or_else(
        script_verdict(scripts[i], machine_identifier, facts[i]),
        if windows && extension_or_empty(facts[i]) != "ps1"@ {
            Some(ValidationView::InvalidWindowsScriptExtension {
                span: source_span(scripts[i].path.span),
                machine_identifier,
                actual: extension_or_empty(facts[i]),
            })
        } else if seen_before(script_filenames(facts, i), script_filename(facts[i])) {
            Some(ValidationView::DuplicateScriptFilename {
                span: source_span(scripts[i].path.span),
                machine_identifier,
                filename: script_filename(facts[i]),
            })
        } else {
            None
        },
    )
}

/// The problems of each script in order.
pub open spec fn script_steps(
    scripts: Seq<Script>,
    facts: Seq<PathFacts>,
    machine_identifier: Seq<char>,
    windows: bool,
) -> Seq<Option<ValidationView>> {
    Seq::new(scripts.len(), |i: int| script_step(scripts, facts, machine_identifier, windows, i))
}

/// The first problem with a machine's scripts.
pub open spec fn scripts_verdict(
    scripts: Option<Vec<Script>>,
    facts: Seq<PathFacts>,
    machine_identifier: Seq<char>,
    windows: bool,
) -> Option<ValidationView> {
    match scripts {
        None => None,
        Some(scripts) => first_some(script_steps(scripts@, facts, machine_identifier, windows)),
    }
}

/// The first problem with a machine, given the host and what is known of its
/// paths: hardware, then image, then users, then packages, then scripts.
pub open spec fn machine_verdict(
    machine: Machine,
    host: HostResources,
    provider: Provider,
    facts: MachineFacts,
) -> Option<ValidationView> {
    let id = machine.identifier.value@;
    or_else(
        hardware_verdict(machine.hardware, id, host),
        or_else(
            image_verdict(machine.operating_system, id, facts.image, image_extensions(provider)),
            or_else(
                users_verdict(machine.users, id),
                or_else(
                    match machine.packages {
                        Some(packages) => packages_verdict(packages, machine.operating_system, id),
                        None => None,
                    },
                    scripts_verdict(
                        machine.scripts,
                        facts.scripts@,
                        id,
                        is_windows(machine.operating_system),
                    ),
                ),
            ),
        ),
    )
}

/// Whether there are facts for each script of the machine.
pub open spec fn facts_cover(machine: Machine, facts: MachineFacts) -> bool {
    facts.scripts@.len() == match machine.scripts {
        Some(scripts) => scripts@.len(),
        None => 0,
    }
}

/// Whether the facts fit the machine: one per script, each describing its
/// written path, and the image's describing the image path.
pub open spec fn facts_fit(machine: Machine, parent: Seq<char>, facts: MachineFacts) -> bool {
    &&& facts_cover(machine, facts)
    &&& describes(parent, os_image(machine.operating_system).value@, facts.image)
    &&& forall|i: int|
        #![trigger facts.scripts@[i]]
        0 <= i < facts.scripts@.len() && machine.scripts is Some ==> describes(
            parent,
            machine.scripts->0@[i].path.value@,
            facts.scripts@[i],
        )
}

impl Machine {
    /// Gathers what is known of the machine's paths, relative ones being taken
    /// from `parent`.
    pub fn inspect(&self, parent: &str) -> (facts: MachineFacts)
        ensures
            facts_fit(*self, parent@, facts),
    {
        let image = inspect(parent, self.operating_system.image_path());
        let mut scripts: Vec<PathFacts> = Vec::new();
        if let Some(declared) = &self.scripts {
            let mut i: usize = 0;
            while i < declared.len()
                invariant
                    self.scripts == Some(*declared),
                    i <= declared.len(),
                    scripts@.len() == i,
                    forall|j: int|
                        #![trigger scripts@[j]]
                        0 <= j < i ==> describes(parent@, declared@[j].path.value@, scripts@[j]),
                decreases declared.len() - i,
            {
                scripts.push(inspect(parent, declared[i].path.value.as_str()));
                i = i + 1;
            }
        }
        MachineFacts { image, scripts }
    }

    fn validate_users(&self, identifier: &str) -> (outcome: Result<(), Validation>)
        ensures
            verdict(outcome) == users_verdict(self.users, identifier@),
    {
        let users = &self.users.value;
        let n = users.len();
        if n == 0 {
            return Err(
                Validation::EmptyUsers {
                    span: to_source_span(self.users.span),
                    machine_identifier: owned(identifier),
                },
            );
        }
        let ghost steps = Seq::new(n as nat, |i: int| user_step(users@, identifier@, i));
        let mut seen: Vec<String> = Vec::new();
        let mut i: usize = 0;
        while i < n
            invariant
                n == users@.len(),
                *users == self.users.value,
                steps == Seq::new(n as nat, |i: int| user_step(users@, identifier@, i)),
                i <= n,
                forall|j: int| 0 <= j < i ==> steps[j] is None,
                texts(seen@) == trimmed_usernames(users@, i as int),
            decreases n - i,
        {
            let user = &users[i];
            match user.validate(identifier) {
                Err(error) => {
                    proof {
                        lemma_first_some_at(steps, i as int);
                    }
                    return Err(error);
                },
                Ok(()) => {},
            }
            let normalized = trim(user.username.value.as_str());
            if contains_text(&seen, normalized.as_str()) {
                proof {
                    lemma_first_some_at(steps, i as int);
                }
                return Err(
                    Validation::DuplicateUsername {
                        span: to_source_span(user.username.span),
                        machine_identifier: owned(identifier),
                        username: normalized,
                    },
                );
            }
            let ghost before = seen@;
            let ghost added = normalized@;
            seen.push(normalized);
            proof {
                let names = trimmed_usernames(users@, i + 1);
                let old_names = trimmed_usernames(users@, i as int);
                assert forall|j: int| 0 <= j < i + 1 implies texts(seen@)[j]
                    == names[j] by {
                    if j < i {
                        assert(texts(before).len() == before.len());
                        assert(seen@[j] == before[j]);
                        assert(texts(before)[j] == old_names[j]);
                    } else {
                        assert(seen@[j]@ == added);
                    }
                }
                assert(texts(seen@) =~= names);
            }
            i = i + 1;
        }
        proof {
            lemma_first_some_none(steps);
        }
        Ok(())
    }

    fn validate_scripts(&self, identifier: &str, facts: &Vec<PathFacts>) -> (outcome: Result<
        (),
        Validation,
    >)
        requires
            self.scripts is Some ==> facts@.len() == self.scripts->0@.len(),
        ensures
            verdict(outcome) == scripts_verdict(
                self.scripts,
                facts@,
                identifier@,
                is_windows(self.operating_system),
            ),
    {
        let scripts = match &self.scripts {
            Some(scripts) => scripts,
            None => {
                return Ok(());
            },
        };
        let windows = match &self.operating_system {
            OperatingSystem::Windows { .. } => true,
            OperatingSystem::Linux { .. } => false,
        };
        assert(windows == is_windows(self.operating_system));
        let n = scripts.len();
        let ghost steps = script_steps(scripts@, facts@, identifier@, windows);
        let mut seen: Vec<String> = Vec::new();
        let mut i: usize = 0;
        while i < n
            invariant
                self.scripts == Some(*scripts),
                n == scripts@.len(),
                n == facts@.len(),
                steps == script_steps(scripts@, facts@, identifier@, windows),
                windows == is_windows(self.operating_system),
                i <= n,
                forall|j: int| 0 <= j < i ==> steps[j] is None,
                texts(seen@) == script_filenames(facts@, i as int),
            decreases n - i,
        {
            let script = &scripts[i];
            let script_facts = &facts[i];
            match script.check(identifier, script_facts) {
                Err(error) => {
                    proof {
                        lemma_first_some_at(steps, i as int);
                    }
                    return Err(error);
                },
                Ok(()) => {},
            }
            if windows {
                let extension = match &script_facts.extension {
                    Some(extension) => owned(extension.as_str()),
                    None => String::new(),
                };
                if !same_text(extension.as_str(), "ps1") {
                    proof {
                        lemma_first_some_at(steps, i as int);
                    }
                    return Err(
                        Validation::InvalidWindowsScriptExtension {
                            span: to_source_span(script.path.span),
                            machine_identifier: owned(identifier),
                            actual: extension,
                        },
                    );
                }
            }
            let filename = match &script_facts.file_name {
                Some(name) => trim(name.as_str()),
                None => String::new(),
            };
            if contains_text(&seen, filename.as_str()) {
                proof {
                    lemma_first_some_at(steps, i as int);
                }
                return Err(
                    Validation::DuplicateScriptFilename {
                        span: to_source_span(script.path.span),
                        machine_identifier: owned(identifier),
                        filename,
                    },
                );
            }
            let ghost before = seen@;
            let ghost added = filename@;
            seen.push(filename);
            proof {
                let names = script_filenames(facts@, i + 1);
                let old_names = script_filenames(facts@, i as int);
                assert(texts(before).len() == before.len());
                assert(old_names.len() == i);
                assert(before.len() == i);
                assert(seen@ == before.push(seen@[i as int]));
                assert forall|j: int| 0 <= j < i + 1 implies texts(seen@)[j]
                    == names[j] by {
                    if j < i {
                        assert(texts(before).len() == before.len());
                        assert(seen@[j] == before[j]);
                        assert(texts(before)[j] == old_names[j]);
                        assert(old_names[j] == script_filename(facts@[j]));
                        assert(names[j] == script_filename(facts@[j]));
                    } else {
                        assert(seen@[j]@ == added);
                        assert(names[j] == script_filename(facts@[j]));
                    }
                }
                assert(texts(seen@) =~= names);
            }
            i = i + 1;
        }
        proof {
            lemma_first_some_none(steps);
        }
        Ok(())
    }

    /// Checks the machine given the host and what is known of its paths.
    pub fn check(&self, host_resources: &HostResources, provider: Provider, facts: &MachineFacts) -> (outcome:
        Result<(), Validation>)
        requires
            facts_cover(*self, *facts),
        ensures
            verdict(outcome) == machine_verdict(*self, *host_resources, provider, *facts),
            self.hardware.cpus.value > host_resources.cpus ==> outcome is Err,
            self.hardware.memory_megabyte.value > host_resources.memory_megabyte ==> outcome is Err,
    {
        let identifier = self.identifier.value.as_str();
        self.hardware.validate(identifier, host_resources)?;
        let extensions = provider.supported_image_extensions();
        self.operating_system.check_image(identifier, &facts.image, &extensions)?;
        self.validate_users(identifier)?;
        if let Some(packages) = &self.packages {
            packages.validate(&self.operating_system, identifier)?;
        }
        self.validate_scripts(identifier, &facts.scripts)?;
        Ok(())
    }

    /// Checks the machine: hardware against the minimums and the host, the
    /// image, the users, the packages against the operating system, and the
    /// scripts, relative paths being taken from `parent`. The first problem
    /// found is reported.
    pub fn validate(&self, parent: &str, host_resources: &HostResources, provider: Provider) -> (outcome:
        Result<(), Validation>)
        ensures
            exists|facts: MachineFacts|
                facts_fit(*self, parent@, facts) && verdict(outcome) == #[trigger] machine_verdict(
                    *self,
                    *host_resources,
                    provider,
                    facts,
                ),
    {
        let facts = self.inspect(parent);
        self.check(host_resources, provider, &facts)
    }
}

} // verus!
