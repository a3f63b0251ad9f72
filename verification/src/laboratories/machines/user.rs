//! Accounts created on a machine.

use crate::errors::validation::{Validation, ValidationView, verdict};
use crate::span::{Spanned, source_span, to_source_span};
use crate::text::{blank, is_blank, owned};
use vstd::prelude::*;

verus! {

/// An account to create on a machine.
#[derive(Debug, Clone)]
pub struct User {
    pub username: Spanned<String>,
    pub password: Spanned<String>,
}

/// The first problem with an account: a blank name, then a blank password.
pub open spec fn user_verdict(user: User, machine_identifier: Seq<char>) -> Option<ValidationView> {
    if blank(user.username.value@) {
        Some(ValidationView::EmptyUsername { span: source_span(user.username.span), machine_identifier })
    } else if blank(user.password.value@) {
        Some(ValidationView::EmptyPassword { span: source_span(user.password.span), machine_identifier })
    } else {
        None
    }
}

impl User {
    /// Checks that the name and the password are not blank.
    pub fn validate(&self, machine_identifier: &str) -> (outcome: Result<(), Validation>)
        ensures
            verdict(outcome) == user_verdict(*self, machine_identifier@),
    {
        if is_blank(self.username.value.as_str()) {
            return Err(
                Validation::EmptyUsername {
                    span: to_source_span(self.username.span),
                    machine_identifier: owned(machine_identifier),
                },
            );
        }
        if is_blank(self.password.value.as_str()) {
            return Err(
                Validation::EmptyPassword {
                    span: to_source_span(self.password.span),
                    machine_identifier: owned(machine_identifier),
                },
            );
        }
        Ok(())
    }
}

} // verus!
