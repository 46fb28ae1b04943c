//! Laws of the derivation that hold across its stages.
//!
//! Each law is a proof about the spec functions of the stages, so it holds
//! of every input, and of the executable stages because they are verified
//! to compute what these spec functions say. The laws on what the emitted
//! conversion does to a value are in [`crate::conversion`].

use crate::analyze::{
    analyze_spec, config_entries, config_of, derive_elements, derives_of, is_first_name_entry,
    is_name_entry, marked_entries, name_literal, trait_name, trait_names, MARKER,
};
use crate::codegen::{derive_line, enum_header, enum_text, join, variant_lines};
use crate::diagnostic::input_not_enum;
use crate::lower::{idents_of, lower_spec};
use crate::syntax::{AttrView, EnumDescriptorView, LiteralKindView, SourceItemView};
use crate::unit_enum_spec;
use proc_macro2::Span;
use vstd::prelude::*;
use vstd::seq_lib::lemma_flatten_concat;

verus! {

/// An item that is not an enum is turned down with a report at the item, and
/// no text is written.
pub proof fn law_not_enum_rejected(span: Span)
    ensures
        unit_enum_spec(SourceItemView::Other(span)) == Err::<Seq<char>, _>(input_not_enum(span)),
{
}

/// A derivation succeeds on an enum where every element of every
/// `derive(..)` entry is a bare name and the first `name = ..` entry, if
/// there is one, holds a string.
pub proof fn law_success(e: EnumDescriptorView)
    requires
        derives_of(derive_elements(config_entries(e.attrs))) is Ok,
        name_literal(config_entries(e.attrs)) matches Some(lit) ==> lit.kind is Str,
    ensures
        config_of(e.attrs) is Ok,
        analyze_spec(e) is Ok,
        unit_enum_spec(SourceItemView::Enum(e)) is Ok,
{
}

/// The new enum has the variants of the original enum: as many, with the same
/// identifiers, in the same order, and one match arm for each. In the text, a
/// variant of the new enum is its identifier and nothing else, so none has
/// fields.
pub proof fn law_variants_preserved(e: EnumDescriptorView)
    requires
        analyze_spec(e) is Ok,
    ensures
        ({
            let ir = lower_spec(analyze_spec(e)->Ok_0);
            &&& ir.variants.len() == e.variants.len()
            &&& ir.variant_arms.len() == e.variants.len()
            &&& forall|i: int|
                0 <= i < e.variants.len() ==> {
                    &&& #[trigger] ir.variants[i] == e.variants[i].ident
                    &&& ir.variant_arms[i].pattern.path.variant_ident == e.variants[i].ident
                    &&& ir.variant_arms[i].body.variant_ident == e.variants[i].ident
                }
            &&& enum_text(ir) == derive_line(ir.derives) + enum_header(e.vis, ir.unit_enum_ident)
                + variant_lines(idents_of(e.variants)) + "}\n"@
        }),
{
}

/// Without a `name = ..` entry, the new enum is named after the original
/// enum, with `Unit` appended.
pub proof fn law_default_name(e: EnumDescriptorView)
    requires
        forall|i: int|
            0 <= i < config_entries(e.attrs).len() ==> !is_name_entry(
                #[trigger] config_entries(e.attrs)[i],
            ),
    ensures
        analyze_spec(e) matches Ok(m) ==> {
            &&& m.unit_enum_ident == e.ident + "Unit"@
            &&& lower_spec(m).unit_enum_ident == e.ident + "Unit"@
        },
{
    let entries = config_entries(e.attrs);
    assert forall|i: int| !is_first_name_entry(entries, i) by {
        if 0 <= i < entries.len() {
            assert(!is_name_entry(entries[i]));
        }
    }
    assert(name_literal(entries) is None);
}

/// With `name = "X"` as the first `name = ..` entry, the new enum is named
/// `X`, letter for letter.
pub proof fn law_configured_name(e: EnumDescriptorView, i: int, name: Seq<char>)
    requires
        is_first_name_entry(config_entries(e.attrs), i),
        config_entries(e.attrs)[i]->lit.kind == LiteralKindView::Str(name),
    ensures
        analyze_spec(e) matches Ok(m) ==> {
            &&& m.unit_enum_ident == name
            &&& lower_spec(m).unit_enum_ident == name
        },
{
    let entries = config_entries(e.attrs);
    let first = choose|k: int| is_first_name_entry(entries, k);
    assert(is_name_entry(entries[first]));
    assert(is_name_entry(entries[i]));
    assert(first == i);
}

/// The new enum derives the traits that the `derive(..)` entries list: all
/// of them, in the order in which they are written, and no others.
pub proof fn law_derives_in_order(e: EnumDescriptorView, names: Seq<Seq<char>>)
    requires
        derive_elements(config_entries(e.attrs)).len() == names.len(),
        forall|k: int|
            0 <= k < names.len() ==> #[trigger] trait_name(
                derive_elements(config_entries(e.attrs))[k],
            ) == Some(names[k]),
    ensures
        analyze_spec(e) matches Ok(m) ==> {
            &&& m.derives == names
            &&& lower_spec(m).derives == names
            &&& derive_line(lower_spec(m).derives) == "#[derive("@ + join(names, ", "@) + ")]\n"@
        },
{
    let elements = derive_elements(config_entries(e.attrs));
    assert forall|k: int| 0 <= k < elements.len() implies (#[trigger] trait_name(
        elements[k],
    )) is Some by {
        assert(trait_name(elements[k]) == Some(names[k]));
    }
    assert(trait_names(elements) =~= names);
}

/// The configuration of two runs of attributes, one behind the other, is
/// that of the first followed by that of the second.
proof fn lemma_config_entries_concat(x: Seq<AttrView>, y: Seq<AttrView>)
    ensures
        config_entries(x + y) == config_entries(x) + config_entries(y),
{
    let f = |a: AttrView| marked_entries(a);
    assert((x + y).map_values(f) =~= x.map_values(f) + y.map_values(f));
    lemma_flatten_concat(x.map_values(f), y.map_values(f));
}

/// An attribute without the marker has no part in the derivation: with it
/// or without it, at whatever place among the attributes, the outcome is the
/// same. So what the original enum derives for itself is not derived for the
/// new enum.
pub proof fn law_unmarked_attribute_ignored(e: EnumDescriptorView, a: AttrView, k: int)
    requires
        a.path != Some(MARKER@),
        0 <= k <= e.attrs.len(),
    ensures
        analyze_spec(EnumDescriptorView { attrs: e.attrs.insert(k, a), ..e }) == analyze_spec(e),
{
    let before = e.attrs.take(k);
    let after = e.attrs.skip(k);
    assert(e.attrs.insert(k, a) =~= before + seq![a] + after);
    assert(e.attrs =~= before + after);
    lemma_config_entries_concat(before + seq![a], after);
    lemma_config_entries_concat(before, seq![a]);
    lemma_config_entries_concat(before, after);
    assert(config_entries(seq![a]) =~= Seq::empty()) by {
        let f = |a: AttrView| marked_entries(a);
        assert(seq![a].map_values(f) =~= seq![marked_entries(a)]);
        seq![marked_entries(a)].lemma_flatten_one_element();
    }
    assert(config_entries(e.attrs.insert(k, a)) =~= config_entries(e.attrs));
}

/// The attribute with its arguments forgotten, unless it carries the marker.
pub open spec fn forget_unmarked(a: AttrView) -> AttrView {
    if a.path == Some(MARKER@) {
        a
    } else {
        AttrView { entries: None, ..a }
    }
}

/// The arguments of an attribute without the marker have no part in the
/// derivation: whether they are read or not, the outcome is the same.
pub proof fn law_unmarked_arguments_ignored(e: EnumDescriptorView)
    ensures
        analyze_spec(
            EnumDescriptorView { attrs: e.attrs.map_values(|a: AttrView| forget_unmarked(a)), ..e },
        ) == analyze_spec(e),
{
    let forgotten = e.attrs.map_values(|a: AttrView| forget_unmarked(a));
    let f = |a: AttrView| marked_entries(a);
    assert(forgotten.map_values(f) =~= e.attrs.map_values(f));
}

} // verus!
