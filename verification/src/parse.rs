//! First stage: is the item an enum?

use crate::diagnostic::{input_not_enum, Diagnostic, DiagnosticView};
use crate::syntax::{EnumDescriptor, EnumDescriptorView, SourceItem, SourceItemView};
use vstd::prelude::*;

verus! {

/// What [`parse`] computes.
pub open spec fn parse_spec(item: SourceItemView) -> Result<EnumDescriptorView, DiagnosticView> {
    match item {
        SourceItemView::Enum(e) => Ok(e),
        SourceItemView::Other(span) => Err(input_not_enum(span)),
    }
}

/// The view of the outcome of [`parse`].
pub open spec fn enum_result_view(r: Result<EnumDescriptor, Diagnostic>) -> Result<
    EnumDescriptorView,
    DiagnosticView,
> {
    match r {
        Ok(e) => Ok(e@),
        Err(d) => Err(d@),
    }
}

/// Unwraps the enum that an item is.
///
/// An enum is handed on as it is. Any other item ends the derivation with
/// [`ErrorKind::InputNotEnum`], reported at the item.
///
/// [`ErrorKind::InputNotEnum`]: crate::diagnostic::ErrorKind::InputNotEnum
pub fn parse(item: SourceItem) -> (r: Result<EnumDescriptor, Diagnostic>)
    ensures
        enum_result_view(r) == parse_spec(item@),
        item matches SourceItem::Enum(e) ==> r == Ok::<EnumDescriptor, Diagnostic>(e),
{
    match item {
        SourceItem::Enum(item_enum) => Ok(item_enum),
        SourceItem::Other(span) => Err(Diagnostic::input_not_enum(span)),
    }
}

} // verus!
