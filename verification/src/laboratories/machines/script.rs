//! Scripts run on a machine after its first boot.

use crate::errors::validation::{Validation, ValidationView, verdict};
use crate::paths::{PathFacts, describes, inspect};
use crate::span::{Spanned, source_span, to_source_span};
use crate::text::{blank, is_blank, owned};
use vstd::prelude::*;

verus! {

/// The shortest timeout a script may have, in seconds.
pub const MINIMUM_TIMEOUT_SECONDS: u32 = 1;

/// The longest timeout a script may have, in seconds.
pub const MAXIMUM_TIMEOUT_SECONDS: u32 = 3600;

/// What a failing script does to the deployment.
#[derive(Debug, Clone, Copy, PartialEq, Eq, Structural)]
pub enum OnFailure {
    /// Report the failure and go on.
    Warn,
    /// Stop the deployment.
    Fail,
    /// Stop the deployment, reporting the failure as an error.
    Error,
    /// Go on without reporting the failure.
    Ignore,
}

/// The configuration word of a failure policy.
pub open spec fn on_failure_name(policy: OnFailure) -> Seq<char> {
    match policy {
        OnFailure::Warn => "warn"@,
        OnFailure::Fail => "fail"@,
        OnFailure::Error => "error"@,
        OnFailure::Ignore => "ignore"@,
    }
}

impl OnFailure {
    /// The configuration word of the policy.
    pub fn as_str(&self) -> (name: &'static str)
        ensures
            name@ == on_failure_name(*self),
    {
        match self {
            OnFailure::Warn => "warn",
            OnFailure::Fail => "fail",
            OnFailure::Error => "error",
            OnFailure::Ignore => "ignore",
        }
    }
}

/// A script to run on a machine.
#[derive(Debug, Clone)]
pub struct Script {
    pub path: Spanned<String>,
    pub timeout_seconds: Option<Spanned<u32>>,
    pub on_failure: Option<Spanned<OnFailure>>,
}

/// The first problem with a script, given what is known of its path: a blank
/// path, a missing file, something other than a regular file, a timeout
/// outside 1 to 3600 seconds.
pub open spec fn script_verdict(
    script: Script,
    machine_identifier: Seq<char>,
    facts: PathFacts,
) -> Option<ValidationView> {
    if blank(script.path.value@) {
        Some(ValidationView::EmptyScriptPath { span: source_span(script.path.span), machine_identifier })
    } else if !facts.exists {
        Some(ValidationView::ScriptNotFound {
            span: source_span(script.path.span),
            machine_identifier,
            path: facts.resolved@,
        })
    } else if !facts.is_file {
        Some(ValidationView::ScriptIsNotAFile {
            span: source_span(script.path.span),
            machine_identifier,
            path: facts.resolved@,
        })
    } else if script.timeout_seconds matches Some(timeout) && (timeout.value
        < MINIMUM_TIMEOUT_SECONDS || timeout.value > MAXIMUM_TIMEOUT_SECONDS) {
        Some(ValidationView::InvalidScriptTimeout {
            span: source_span(script.timeout_seconds->0.span),
            machine_identifier,
            actual: script.timeout_seconds->0.value,
        })
    } else {
        None
    }
}

impl Script {
    /// Checks the script given what is known of its path.
    pub fn check(&self, machine_identifier: &str, facts: &PathFacts) -> (outcome: Result<(), Validation>)
        ensures
            verdict(outcome) == script_verdict(*self, machine_identifier@, *facts),
    {
        if is_blank(self.path.value.as_str()) {
            return Err(
                Validation::EmptyScriptPath {
                    span: to_source_span(self.path.span),
                    machine_identifier: owned(machine_identifier),
                },
            );
        }
        if !facts.exists {
            return Err(
                Validation::ScriptNotFound {
                    span: to_source_span(self.path.span),
                    machine_identifier: owned(machine_identifier),
                    path: owned(facts.resolved.as_str()),
                },
            );
        }
        if !facts.is_file {
            return Err(
                Validation::ScriptIsNotAFile {
                    span: to_source_span(self.path.span),
                    machine_identifier: owned(machine_identifier),
                    path: owned(facts.resolved.as_str()),
                },
            );
        }
        if let Some(timeout) = &self.timeout_seconds {
            if timeout.value < MINIMUM_TIMEOUT_SECONDS || timeout.value > MAXIMUM_TIMEOUT_SECONDS {
                return Err(
                    Validation::InvalidScriptTimeout {
                        span: to_source_span(timeout.span),
                        machine_identifier: owned(machine_identifier),
                        actual: timeout.value,
                    },
                );
            }
        }
        Ok(())
    }

    /// Checks the script: a named regular file, a relative path being taken
    /// from `parent`, with a timeout of 1 to 3600 seconds if one is given.
    pub fn validate(&self, machine_identifier: &str, parent: &str) -> (outcome: Result<(), Validation>)
        ensures
            exists|facts: PathFacts|
                describes(parent@, self.path.value@, facts) && verdict(outcome)
                    == #[trigger] script_verdict(*self, machine_identifier@, facts),
    {
        let facts = inspect(parent, self.path.value.as_str());
        self.check(machine_identifier, &facts)
    }
}

} // verus!
