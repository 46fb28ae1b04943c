//! Third stage: from the model of a derivation to what is to be written.
//!
//! Every variant of the original enum gives one variant of the new enum,
//! which is its identifier and nothing else, and one match arm that takes
//! the original variant to it. The pattern of an arm never names a field: it
//! ends in `(..)` for positional fields and in `{ .. }` for named ones, so
//! that it holds for any number and any names of fields.

use crate::analyze::{Model, ModelView};
use crate::syntax::{
    strings_view, FieldShape, FieldShapeView, VariantDescriptor, VariantDescriptorView,
};
use vstd::prelude::*;

verus! {

/// A variant by the enum it belongs to: `Shape::Circle`.
#[derive(Clone, Debug, PartialEq, Eq)]
pub struct VariantPath {
    pub enum_ident: String,
    pub variant_ident: String,
}

pub struct VariantPathView {
    pub enum_ident: Seq<char>,
    pub variant_ident: Seq<char>,
}

impl View for VariantPath {
    type V = VariantPathView;

    open spec fn view(&self) -> VariantPathView {
        VariantPathView { enum_ident: self.enum_ident@, variant_ident: self.variant_ident@ }
    }
}

/// What follows the path in a pattern that disregards all fields.
#[derive(Clone, Copy, Debug, PartialEq, Eq, Structural)]
pub enum Rest {
    /// Nothing: the variant has no fields.
    Unit,
    /// `(..)`: the variant has positional fields.
    Tuple,
    /// `{ .. }`: the variant has named fields.
    Struct,
}

/// A pattern that holds for every value of one variant.
#[derive(Clone, Debug, PartialEq, Eq)]
pub struct Pattern {
    pub path: VariantPath,
    pub rest: Rest,
}

pub struct PatternView {
    pub path: VariantPathView,
    pub rest: Rest,
}

impl View for Pattern {
    type V = PatternView;

    open spec fn view(&self) -> PatternView {
        PatternView { path: self.path@, rest: self.rest }
    }
}

/// A match arm: `pattern => body`.
#[derive(Clone, Debug, PartialEq, Eq)]
pub struct MatchArm {
    pub pattern: Pattern,
    pub body: VariantPath,
}

pub struct MatchArmView {
    pub pattern: PatternView,
    pub body: VariantPathView,
}

impl View for MatchArm {
    type V = MatchArmView;

    open spec fn view(&self) -> MatchArmView {
        MatchArmView { pattern: self.pattern@, body: self.body@ }
    }
}

/// The views of the arms of a sequence, in order.
pub open spec fn arms_view(v: Seq<MatchArm>) -> Seq<MatchArmView> {
    v.map_values(|a: MatchArm| a@)
}

/// What the last stage writes out.
///
/// `variants` holds the variants of the new enum. A variant of the new enum
/// has no fields, so it is kept as its identifier.
#[derive(Clone, Debug, PartialEq, Eq)]
pub struct Ir {
    pub visibility: String,
    pub orig_enum_ident: String,
    pub orig_enum_generics: String,
    pub unit_enum_ident: String,
    pub variants: Vec<String>,
    pub derives: Vec<String>,
    pub variant_arms: Vec<MatchArm>,
}

pub struct IrView {
    pub visibility: Seq<char>,
    pub orig_enum_ident: Seq<char>,
    pub orig_enum_generics: Seq<char>,
    pub unit_enum_ident: Seq<char>,
    pub variants: Seq<Seq<char>>,
    pub derives: Seq<Seq<char>>,
    pub variant_arms: Seq<MatchArmView>,
}

impl View for Ir {
    type V = IrView;

    open spec fn view(&self) -> IrView {
        IrView {
            visibility: self.visibility@,
            orig_enum_ident: self.orig_enum_ident@,
            orig_enum_generics: self.orig_enum_generics@,
            unit_enum_ident: self.unit_enum_ident@,
            variants: strings_view(self.variants@),
            derives: strings_view(self.derives@),
            variant_arms: arms_view(self.variant_arms@),
        }
    }
}

/// What a pattern for a variant with the given fields ends in.
pub open spec fn rest_of(fields: FieldShapeView) -> Rest {
    match fields {
        FieldShapeView::Unit => Rest::Unit,
        FieldShapeView::Unnamed(_) => Rest::Tuple,
        FieldShapeView::Named(_) => Rest::Struct,
    }
}

/// The arm that takes the variant `v` of the enum `orig` to the variant of
/// the same identifier of the enum `unit`.
pub open spec fn arm_of(
    orig: Seq<char>,
    unit: Seq<char>,
    v: VariantDescriptorView,
) -> MatchArmView {
    MatchArmView {
        pattern: PatternView {
            path: VariantPathView { enum_ident: orig, variant_ident: v.ident },
            rest: rest_of(v.fields),
        },
        body: VariantPathView { enum_ident: unit, variant_ident: v.ident },
    }
}

/// The identifiers of the variants, in order.
pub open spec fn idents_of(variants: Seq<VariantDescriptorView>) -> Seq<Seq<char>> {
    Seq::new(variants.len(), |i: int| variants[i].ident)
}

/// The arms for the variants, in order: see [`arm_of`].
pub open spec fn arms_of(
    orig: Seq<char>,
    unit: Seq<char>,
    variants: Seq<VariantDescriptorView>,
) -> Seq<MatchArmView> {
    Seq::new(variants.len(), |i: int| arm_of(orig, unit, variants[i]))
}

/// What [`lower`] computes.
pub open spec fn lower_spec(m: ModelView) -> IrView {
    IrView {
        visibility: m.visibility,
        orig_enum_ident: m.orig_enum_ident,
        orig_enum_generics: m.orig_enum_generics,
        unit_enum_ident: m.unit_enum_ident,
        variants: idents_of(m.variants),
        derives: m.derives,
        variant_arms: arms_of(m.orig_enum_ident, m.unit_enum_ident, m.variants),
    }
}

/// Builds the arm described by [`arm_of`].
fn make_arm(orig: &String, unit: &String, variant: &VariantDescriptor) -> (arm: MatchArm)
    ensures
        arm@ == arm_of(orig@, unit@, variant@),
{
    let rest = match &variant.fields {
        FieldShape::Unit => Rest::Unit,
        FieldShape::Unnamed(_) => Rest::Tuple,
        FieldShape::Named(_) => Rest::Struct,
    };
    MatchArm {
        pattern: Pattern {
            path: VariantPath { enum_ident: orig.clone(), variant_ident: variant.ident.clone() },
            rest,
        },
        body: VariantPath { enum_ident: unit.clone(), variant_ident: variant.ident.clone() },
    }
}

/// Lowers the model of a derivation to the variants and match arms to write.
///
/// The result has, for the variant at each position of the model, at the
/// same position the identifier of that variant, and a match arm from the
/// original variant to the new one whose pattern is chosen by the kind of
/// the variant's fields alone. There is no other variant and no other arm.
/// Visibility, generics, both identifiers and the traits to derive are taken
/// over unchanged.
pub fn lower(model: Model) -> (ir: Ir)
    ensures
        ir@ == lower_spec(model@),
        ir@.variants.len() == model@.variants.len(),
        ir@.variant_arms.len() == model@.variants.len(),
        forall|i: int|
            0 <= i < model@.variants.len() ==> #[trigger] ir@.variants[i]
                == model@.variants[i].ident,
{
    let mut variants: Vec<String> = Vec::new();
    let mut variant_arms: Vec<MatchArm> = Vec::new();
    let mut i: usize = 0;
    while i < model.variants.len()
        invariant
            i <= model.variants.len(),
            variants.len() == i,
            variant_arms.len() == i,
            forall|k: int| 0 <= k < i ==> (#[trigger] variants[k])@ == model@.variants[k].ident,
            forall|k: int|
                0 <= k < i ==> (#[trigger] variant_arms[k])@ == arm_of(
                    model@.orig_enum_ident,
                    model@.unit_enum_ident,
                    model@.variants[k],
                ),
        decreases model.variants.len() - i,
    {
        let variant = &model.variants[i];
        variants.push(variant.ident.clone());
        variant_arms.push(make_arm(&model.orig_enum_ident, &model.unit_enum_ident, variant));
        i += 1;
    }
    let ir = Ir {
        visibility: model.visibility,
        orig_enum_ident: model.orig_enum_ident,
        orig_enum_generics: model.orig_enum_generics,
        unit_enum_ident: model.unit_enum_ident,
        variants,
        derives: model.derives,
        variant_arms,
    };
    assert(ir@.variants =~= lower_spec(model@).variants);
    assert(ir@.variant_arms =~= lower_spec(model@).variant_arms);
    ir
}

} // verus!
