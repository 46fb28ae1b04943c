//! What the emitted `From` impl does to a value.
//!
//! The impl is text, and what it computes is decided by the match arms that
//! the lowering stage lists. This module gives those arms their meaning: a
//! value of the original enum is a variant with some payload, a pattern
//! holds for a value of its variant whatever the payload holds, and a
//! `match` yields the body of the first arm whose pattern holds. The laws at
//! the end say what that meaning comes to for the arms of a derivation.

use crate::analyze::analyze_spec;
use crate::lower::{arm_of, arms_of, lower_spec, MatchArmView, PatternView, Rest, VariantPathView};
use crate::syntax::{EnumDescriptorView, FieldShapeView, VariantDescriptorView};
use vstd::prelude::*;

verus! {

/// What a value carries besides its variant. `C` stands for the contents of
/// a field, of which nothing is asked.
pub enum Payload<C> {
    /// Nothing.
    Unit,
    /// The contents of the positional fields, by position.
    Tuple(Seq<C>),
    /// The contents of the named fields, by name.
    Struct(Map<Seq<char>, C>),
}

/// A value of an enum.
pub struct Value<C> {
    pub enum_ident: Seq<char>,
    pub variant_ident: Seq<char>,
    pub payload: Payload<C>,
}

/// The payload has the fields that a variant declares: none, as many
/// positional ones, or ones of the same names.
pub open spec fn payload_fits<C>(payload: Payload<C>, fields: FieldShapeView) -> bool {
    match fields {
        FieldShapeView::Unit => payload is Unit,
        FieldShapeView::Unnamed(n) => payload matches Payload::Tuple(contents) && contents.len()
            == n,
        FieldShapeView::Named(names) => payload matches Payload::Struct(contents) && contents.dom()
            == names.to_set(),
    }
}

/// `value` is a value of the variant `variant` of the enum `orig`.
pub open spec fn is_value_of<C>(
    value: Value<C>,
    orig: Seq<char>,
    variant: VariantDescriptorView,
) -> bool {
    &&& value.enum_ident == orig
    &&& value.variant_ident == variant.ident
    &&& payload_fits(value.payload, variant.fields)
}

/// The pattern holds for the value: it names the value's variant, and stands
/// for fields of the kind that the value has. What the fields hold is not
/// looked at.
pub open spec fn pattern_holds<C>(pattern: PatternView, value: Value<C>) -> bool {
    &&& pattern.path.enum_ident == value.enum_ident
    &&& pattern.path.variant_ident == value.variant_ident
    &&& match pattern.rest {
        Rest::Unit => value.payload is Unit,
        Rest::Tuple => value.payload is Tuple,
        Rest::Struct => value.payload is Struct,
    }
}

/// The outcome of `match value { arms }`: the body of the first arm whose
/// pattern holds, and nothing where no pattern holds.
pub open spec fn match_value<C>(arms: Seq<MatchArmView>, value: Value<C>) -> Option<
    VariantPathView,
>
    decreases arms.len(),
{
    if arms.len() == 0 {
        None
    } else if pattern_holds(arms.first().pattern, value) {
        Some(arms.first().body)
    } else {
        match_value(arms.drop_first(), value)
    }
}

/// The variant `ident` of the enum `unit`.
pub open spec fn tag(unit: Seq<char>, ident: Seq<char>) -> VariantPathView {
    VariantPathView { enum_ident: unit, variant_ident: ident }
}

/// Matching a value of one of the variants against the arms for these
/// variants yields the variant of the value's identifier.
proof fn lemma_match_value_of_arms<C>(
    orig: Seq<char>,
    unit: Seq<char>,
    variants: Seq<VariantDescriptorView>,
    i: int,
    value: Value<C>,
)
    requires
        0 <= i < variants.len(),
        is_value_of(value, orig, variants[i]),
    ensures
        match_value(arms_of(orig, unit, variants), value) == Some(tag(unit, variants[i].ident)),
    decreases variants.len(),
{
    let arms = arms_of(orig, unit, variants);
    assert(arms.first() == arm_of(orig, unit, variants[0]));
    if pattern_holds(arms.first().pattern, value) {
    } else {
        assert(pattern_holds(arm_of(orig, unit, variants[i]).pattern, value));
        assert(i != 0);
        let rest = variants.drop_first();
        assert(arms.drop_first() =~= arms_of(orig, unit, rest));
        lemma_match_value_of_arms(orig, unit, rest, i - 1, value);
    }
}

/// The conversion keeps the variant: a value of the variant at any position
/// of the original enum, whatever its payload holds, is taken to the
/// variant of the new enum that has the same identifier.
pub proof fn law_conversion_keeps_variant<C>(e: EnumDescriptorView, i: int, value: Value<C>)
    requires
        analyze_spec(e) is Ok,
        0 <= i < e.variants.len(),
        is_value_of(value, e.ident, e.variants[i]),
    ensures
        ({
            let m = analyze_spec(e)->Ok_0;
            match_value(lower_spec(m).variant_arms, value) == Some(
                tag(m.unit_enum_ident, e.variants[i].ident),
            )
        }),
{
    let m = analyze_spec(e)->Ok_0;
    lemma_match_value_of_arms(m.orig_enum_ident, m.unit_enum_ident, m.variants, i, value);
}

/// Two values of the same variant are taken to the same variant of the new
/// enum, whatever their payloads hold.
pub proof fn law_same_variant_same_tag<C>(
    e: EnumDescriptorView,
    i: int,
    a: Value<C>,
    b: Value<C>,
)
    requires
        analyze_spec(e) is Ok,
        0 <= i < e.variants.len(),
        is_value_of(a, e.ident, e.variants[i]),
        is_value_of(b, e.ident, e.variants[i]),
    ensures
        ({
            let arms = lower_spec(analyze_spec(e)->Ok_0).variant_arms;
            &&& match_value(arms, a) is Some
            &&& match_value(arms, a) == match_value(arms, b)
        }),
{
    law_conversion_keeps_variant(e, i, a);
    law_conversion_keeps_variant(e, i, b);
}

/// Two values of different variants of a well-formed enum are taken to
/// different variants of the new enum.
pub proof fn law_distinct_variants_distinct_tags<C>(
    e: EnumDescriptorView,
    i: int,
    j: int,
    a: Value<C>,
    b: Value<C>,
)
    requires
        analyze_spec(e) is Ok,
        e.distinct_variants(),
        0 <= i < e.variants.len(),
        0 <= j < e.variants.len(),
        i != j,
        is_value_of(a, e.ident, e.variants[i]),
        is_value_of(b, e.ident, e.variants[j]),
    ensures
        ({
            let arms = lower_spec(analyze_spec(e)->Ok_0).variant_arms;
            match_value(arms, a) != match_value(arms, b)
        }),
{
    law_conversion_keeps_variant(e, i, a);
    law_conversion_keeps_variant(e, j, b);
}

} // verus!
