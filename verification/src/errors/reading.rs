//! How a configuration that cannot be read is reported: the first problem of
//! the document, in words, with the place to highlight.

use crate::document::{TomlError, TomlErrorKind, TomlErrorKindView, TomlErrorView, error_views};
use crate::errors::validation::{SourceSpan, Validation, ValidationView};
use crate::span::{Span, source_span, to_source_span};
use crate::text::{format_quoted, owned, quoted_list, views};
use vstd::prelude::*;

verus! {

/// The message for a reading problem.
pub open spec fn toml_error_message(error: TomlErrorView) -> Seq<char> {
    match error.kind {
        TomlErrorKindView::UnexpectedKeys { keys, expected } => {
            let actual = quoted_list(keys.map_values(|k: (Seq<char>, Span)| k.0));
            (if keys.len() == 1 {
                "unknown field "@
            } else {
                "unknown fields "@
            }) + actual + ", expected one of "@ + quoted_list(expected)
        },
        TomlErrorKindView::MissingField { field } => "missing field `"@ + field + "`"@,
        TomlErrorKindView::UnexpectedValue { expected, value } => match value {
            Some(v) => "unknown variant `"@ + v + "`, expected "@ + quoted_list(expected),
            None => "expected "@ + quoted_list(expected),
        },
        TomlErrorKindView::Wanted { expected, found } => "found "@ + found + ", expected "@ + expected,
        TomlErrorKindView::OutOfRange { kind } => "out of range of '"@ + kind + "'"@,
        TomlErrorKindView::Other { message } => message,
    }
}

/// The place to highlight for a reading problem: the first unexpected key,
/// or the problem's own place; none for an empty place (0..0).
pub open spec fn highlighted(error: TomlErrorView) -> Option<SourceSpan> {
    let place = match error.kind {
        TomlErrorKindView::UnexpectedKeys { keys, .. } => if keys.len() > 0 {
            Some(keys[0].1)
        } else {
            None
        },
        _ => Some(error.span),
    };
    match place {
        None => None,
        Some(span) => if span.start == 0 && span.end == 0 {
            None
        } else {
            Some(source_span(span))
        },
    }
}

/// The report of a configuration whose reading gave `error` first.
pub open spec fn invalid_configuration(error: TomlErrorView) -> ValidationView {
    ValidationView::InvalidConfiguration {
        message: toml_error_message(error),
        span: highlighted(error),
    }
}

fn key_names(keys: &Vec<crate::span::Spanned<String>>) -> (names: Vec<&str>)
    ensures
        views(names@) == keys@.map_values(|k: crate::span::Spanned<String>| k.value@),
{
    let mut names: Vec<&str> = Vec::new();
    let mut i: usize = 0;
    while i < keys.len()
        invariant
            i <= keys@.len(),
            names@.len() == i,
            views(names@) == keys@.map_values(|k: crate::span::Spanned<String>| k.value@).take(
                i as int,
            ),
        decreases keys.len() - i,
    {
        let name = keys[i].value.as_str();
        names.push(name);
        proof {
            assert(views(names@) =~= keys@.map_values(
                |k: crate::span::Spanned<String>| k.value@,
            ).take(i + 1));
        }
        i = i + 1;
    }
    proof {
        assert(keys@.map_values(|k: crate::span::Spanned<String>| k.value@).take(
            keys@.len() as int,
        ) =~= keys@.map_values(|k: crate::span::Spanned<String>| k.value@));
    }
    names
}

fn string_names(items: &Vec<String>) -> (names: Vec<&str>)
    ensures
        views(names@) == crate::document::string_views(items@),
{
    let mut names: Vec<&str> = Vec::new();
    let mut i: usize = 0;
    while i < items.len()
        invariant
            i <= items@.len(),
            names@.len() == i,
            views(names@) == crate::document::string_views(items@).take(i as int),
        decreases items.len() - i,
    {
        let name = items[i].as_str();
        names.push(name);
        proof {
            assert(views(names@) =~= crate::document::string_views(items@).take(i + 1));
        }
        i = i + 1;
    }
    proof {
        assert(crate::document::string_views(items@).take(items@.len() as int)
            =~= crate::document::string_views(items@));
    }
    names
}

impl Validation {
    /// The message for a reading problem.
    pub fn format_toml_error(error: &TomlError) -> (message: String)
        ensures
            message@ == toml_error_message(error@),
    {
        match &error.kind {
            TomlErrorKind::UnexpectedKeys { keys, expected } => {
                let actual_names = key_names(keys);
                let actual = format_quoted(actual_names.as_slice());
                let expected_names = string_names(expected);
                let expected_list = format_quoted(expected_names.as_slice());
                proof {
                    assert(crate::document::key_views(keys@).map_values(
                        |k: (Seq<char>, Span)| k.0,
                    ) =~= keys@.map_values(|k: crate::span::Spanned<String>| k.value@));
                }
                let mut message = if keys.len() == 1 {
                    owned("unknown field ")
                } else {
                    owned("unknown fields ")
                };
                message.append(actual.as_str());
                message.append(", expected one of ");
                message.append(expected_list.as_str());
                message
            },
            TomlErrorKind::MissingField { field } => {
                let mut message = owned("missing field `");
                message.append(field.as_str());
                message.append("`");
                message
            },
            TomlErrorKind::UnexpectedValue { expected, value } => {
                let expected_names = string_names(expected);
                let expected_list = format_quoted(expected_names.as_slice());
                match value {
                    Some(v) => {
                        let mut message = owned("unknown variant `");
                        message.append(v.as_str());
                        message.append("`, expected ");
                        message.append(expected_list.as_str());
                        message
                    },
                    None => {
                        let mut message = owned("expected ");
                        message.append(expected_list.as_str());
                        message
                    },
                }
            },
            TomlErrorKind::Wanted { expected, found } => {
                let mut message = owned("found ");
                message.append(found.as_str());
                message.append(", expected ");
                message.append(expected.as_str());
                message
            },
            TomlErrorKind::OutOfRange { kind } => {
                let mut message = owned("out of range of '");
                message.append(kind.as_str());
                message.append("'");
                message
            },
            TomlErrorKind::Other { message } => owned(message.as_str()),
        }
    }

    /// The place to highlight for a reading problem.
    pub fn highlighted_span(error: &TomlError) -> (region: Option<SourceSpan>)
        ensures
            region == highlighted(error@),
    {
        let place = match &error.kind {
            TomlErrorKind::UnexpectedKeys { keys, .. } => if keys.len() > 0 {
                Some(keys[0].span)
            } else {
                None
            },
            _ => Some(error.span),
        };
        match place {
            None => None,
            Some(span) => if span.start == 0 && span.end == 0 {
                None
            } else {
                Some(to_source_span(span))
            },
        }
    }

    /// The report of a document that could not be parsed.
    pub fn from_toml_error(error: TomlError) -> (report: Validation)
        ensures
            report@ == invalid_configuration(error@),
    {
        let message = Validation::format_toml_error(&error);
        let span = Validation::highlighted_span(&error);
        Validation::InvalidConfiguration { message, span }
    }

    /// The report of a document that does not fit the configuration: its
    /// first problem.
    pub fn from_toml_deserialize_error(errors: Vec<TomlError>) -> (report: Validation)
        requires
            errors@.len() > 0,
        ensures
            report@ == invalid_configuration(error_views(errors@)[0]),
    {
        let message = Validation::format_toml_error(&errors[0]);
        let span = Validation::highlighted_span(&errors[0]);
        Validation::InvalidConfiguration { message, span }
    }
}

} // verus!
