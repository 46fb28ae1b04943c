//! What is reported when a derivation cannot go on.

use proc_macro2::Span;
use vstd::prelude::*;

verus! {

/// A region of source text, as `proc_macro2` hands it out. The library never
/// looks inside a span: it only carries the span of an offending element from
/// the input to the diagnostic that reports it.
#[verifier::external_type_specification]
#[verifier::external_body]
pub struct ExSpan(proc_macro2::Span);

/// The reasons for which a derivation is abandoned.
#[derive(Clone, Copy, Debug, PartialEq, Eq, Structural)]
pub enum ErrorKind {
    /// The input item is not an enum.
    InputNotEnum,
    /// An element of a `derive(..)` list is not a bare trait name.
    ConfigTraitNameInvalid,
    /// The value of `name = ..` is not a string literal.
    ConfigNameNotString,
}

/// A single report: what went wrong, where, and how to mend it.
#[derive(Debug)]
pub struct Diagnostic {
    pub kind: ErrorKind,
    pub span: Span,
    pub message: String,
    pub help: Option<String>,
}

/// The mathematical view of a [`Diagnostic`].
pub struct DiagnosticView {
    pub kind: ErrorKind,
    pub span: Span,
    pub message: Seq<char>,
    pub help: Option<Seq<char>>,
}

impl View for Diagnostic {
    type V = DiagnosticView;

    open spec fn view(&self) -> DiagnosticView {
        DiagnosticView {
            kind: self.kind,
            span: self.span,
            message: self.message@,
            help: match self.help {
                Some(h) => Some(h@),
                None => None,
            },
        }
    }
}

/// The report for an input item at `span` that is not an enum.
pub open spec fn input_not_enum(span: Span) -> DiagnosticView {
    DiagnosticView {
        kind: ErrorKind::InputNotEnum,
        span,
        message: "item is not an enum"@,
        help: Some("this derivation target must be an enum"@),
    }
}

/// The report for an element at `span` of a `derive(..)` list that is not a
/// bare trait name.
pub open spec fn trait_name_invalid(span: Span) -> DiagnosticView {
    DiagnosticView {
        kind: ErrorKind::ConfigTraitNameInvalid,
        span,
        message: "expected trait name"@,
        help: None,
    }
}

/// The report for a value at `span` of `name = ..` that is not a string
/// literal.
pub open spec fn name_not_string(span: Span) -> DiagnosticView {
    DiagnosticView {
        kind: ErrorKind::ConfigNameNotString,
        span,
        message: "expected string literal"@,
        help: None,
    }
}

impl Diagnostic {
    /// Builds the report described by [`input_not_enum`].
    pub fn input_not_enum(span: Span) -> (d: Diagnostic)
        ensures
            d@ == input_not_enum(span),
    {
        Diagnostic {
            kind: ErrorKind::InputNotEnum,
            span,
            message: String::from_str("item is not an enum"),
            help: Some(String::from_str("this derivation target must be an enum")),
        }
    }

    /// Builds the report described by [`trait_name_invalid`].
    pub fn trait_name_invalid(span: Span) -> (d: Diagnostic)
        ensures
            d@ == trait_name_invalid(span),
    {
        Diagnostic {
            kind: ErrorKind::ConfigTraitNameInvalid,
            span,
            message: String::from_str("expected trait name"),
            help: None,
        }
    }

    /// Builds the report described by [`name_not_string`].
    pub fn name_not_string(span: Span) -> (d: Diagnostic)
        ensures
            d@ == name_not_string(span),
    {
        Diagnostic {
            kind: ErrorKind::ConfigNameNotString,
            span,
            message: String::from_str("expected string literal"),
            help: None,
        }
    }
}

} // verus!
