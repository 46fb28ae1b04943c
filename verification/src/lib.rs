//! Derivation of a field-less companion enum.
//!
//! From the description of an enum whose variants may carry fields, this
//! library produces the text of a second enum with the same variants and no
//! fields, and of a `From` impl that takes a reference to a value of the
//! first to the matching variant of the second.
//!
//! The work is done in four stages, each a function of its argument alone:
//! [`parse::parse`], [`analyze::analyze`], [`lower::lower`] and
//! [`codegen::codegen`]. Every stage is verified to compute what a spec
//! function says of the mathematical views of its input, and [`unit_enum`]
//! is verified to be their composition. [`laws`] and [`conversion`] hold
//! what is proved of the stages together.
//!
//! The input of the first stage is an item held as plain values (see
//! [`syntax`]). [`read::read_item`] makes one from tokens, with `syn`.

use crate::analyze::{analyze, analyze_spec};
use crate::codegen::{codegen, codegen_spec};
use crate::diagnostic::{Diagnostic, DiagnosticView};
use crate::lower::{lower, lower_spec};
use crate::parse::{parse, parse_spec};
use crate::syntax::{SourceItem, SourceItemView};
use vstd::prelude::*;

pub mod analyze;
pub mod codegen;
pub mod conversion;
pub mod diagnostic;
pub mod laws;
pub mod lower;
pub mod parse;
pub mod read;
pub mod syntax;

verus! {

/// What [`unit_enum`] computes: the text that the four stages lead to, or
/// the report of the first stage that fails.
pub open spec fn unit_enum_spec(item: SourceItemView) -> Result<Seq<char>, DiagnosticView> {
    match parse_spec(item) {
        Err(d) => Err(d),
        Ok(e) => match analyze_spec(e) {
            Err(d) => Err(d),
            Ok(m) => Ok(codegen_spec(lower_spec(m))),
        },
    }
}

/// The view of the outcome of [`unit_enum`].
pub open spec fn text_result_view(r: Result<String, Diagnostic>) -> Result<
    Seq<char>,
    DiagnosticView,
> {
    match r {
        Ok(text) => Ok(text@),
        Err(d) => Err(d@),
    }
}

/// Derives the field-less companion of an enum: the source text of the new
/// enum followed by that of the `From` impl.
///
/// Either the whole text comes back or a single report: a stage that fails
/// ends the derivation, and nothing of the text is kept.
pub fn unit_enum(input: SourceItem) -> (r: Result<String, Diagnostic>)
    ensures
        text_result_view(r) == unit_enum_spec(input@),
{
    let item_enum = match parse(input) {
        Ok(item_enum) => item_enum,
        Err(d) => {
            return Err(d);
        },
    };
    let model = match analyze(item_enum) {
        Ok(model) => model,
        Err(d) => {
            return Err(d);
        },
    };
    let ir = lower(model);
    Ok(codegen(ir))
}

} // verus!
