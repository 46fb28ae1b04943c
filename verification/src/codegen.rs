//! Fourth stage: the source text of the two declarations.
//!
//! For an enum `All<T>` with the variants `Unit`, `Tuple(bool, i32)` and
//! `Struct { x: T, y: T }`, configured with `name = "AllType"` and
//! `derive(Clone, Copy)`, the text is
//!
//! ```text
//! #[derive(Clone, Copy)]
//! enum AllType {
//!     Unit,
//!     Tuple,
//!     Struct,
//! }
//!
//! impl<T> From<&All<T>> for AllType {
//!     fn from(orig: &All<T>) -> Self {
//!         match orig {
//!             All::Unit => AllType::Unit,
//!             All::Tuple(..) => AllType::Tuple,
//!             All::Struct { .. } => AllType::Struct,
//!         }
//!     }
//! }
//! ```
//!
//! The spec functions of this module say, piece by piece, what the text is;
//! [`codegen`] is proved to write exactly that.

use crate::lower::{
    arms_view, Ir, IrView, MatchArm, MatchArmView, Pattern, PatternView, Rest, VariantPath,
    VariantPathView,
};
use crate::syntax::strings_view;
use vstd::prelude::*;

verus! {

/// The parts, with `sep` between each two neighbours.
pub open spec fn join(parts: Seq<Seq<char>>, sep: Seq<char>) -> Seq<char>
    decreases parts.len(),
{
    if parts.len() == 0 {
        Seq::empty()
    } else if parts.len() == 1 {
        parts[0]
    } else {
        join(parts.drop_last(), sep) + sep + parts.last()
    }
}

/// The attribute that derives the traits.
pub open spec fn derive_line(derives: Seq<Seq<char>>) -> Seq<char> {
    "#[derive("@ + join(derives, ", "@) + ")]\n"@
}

/// The line that opens the new enum. A visibility is followed by a space;
/// an empty one leaves no trace.
pub open spec fn enum_header(visibility: Seq<char>, ident: Seq<char>) -> Seq<char> {
    if visibility.len() == 0 {
        "enum "@ + ident + " {\n"@
    } else {
        visibility + " enum "@ + ident + " {\n"@
    }
}

/// The line of one variant of the new enum.
pub open spec fn variant_line(ident: Seq<char>) -> Seq<char> {
    "    "@ + ident + ",\n"@
}

/// The lines of the variants of the new enum, in order.
pub open spec fn variant_lines(variants: Seq<Seq<char>>) -> Seq<char> {
    variants.flat_map(|ident: Seq<char>| variant_line(ident))
}

/// The declaration of the new enum.
pub open spec fn enum_text(ir: IrView) -> Seq<char> {
    derive_line(ir.derives) + enum_header(ir.visibility, ir.unit_enum_ident) + variant_lines(
        ir.variants,
    ) + "}\n"@
}

/// A variant by its enum: `All::Tuple`.
pub open spec fn path_text(p: VariantPathView) -> Seq<char> {
    p.enum_ident + "::"@ + p.variant_ident
}

/// A pattern: the path, and what stands for the fields.
pub open spec fn pattern_text(p: PatternView) -> Seq<char> {
    match p.rest {
        Rest::Unit => path_text(p.path),
        Rest::Tuple => path_text(p.path) + "(..)"@,
        Rest::Struct => path_text(p.path) + " { .. }"@,
    }
}

/// The line of one match arm.
pub open spec fn arm_line(arm: MatchArmView) -> Seq<char> {
    "            "@ + pattern_text(arm.pattern) + " => "@ + path_text(arm.body) + ",\n"@
}

/// The lines of the match arms, in order.
pub open spec fn arm_lines(arms: Seq<MatchArmView>) -> Seq<char> {
    arms.flat_map(|arm: MatchArmView| arm_line(arm))
}

/// The type of the original enum, with its generics.
pub open spec fn orig_type(ir: IrView) -> Seq<char> {
    ir.orig_enum_ident + ir.orig_enum_generics
}

/// The impl that converts a reference to a value of the original enum.
pub open spec fn impl_text(ir: IrView) -> Seq<char> {
    "impl"@ + ir.orig_enum_generics + " From<&"@ + orig_type(ir) + "> for "@ + ir.unit_enum_ident
        + " {\n    fn from(orig: &"@ + orig_type(ir) + ") -> Self {\n        match orig {\n"@
        + arm_lines(ir.variant_arms) + "        }\n    }\n}\n"@
}

/// What [`codegen`] writes: the enum, an empty line, the impl.
pub open spec fn codegen_spec(ir: IrView) -> Seq<char> {
    enum_text(ir) + "\n"@ + impl_text(ir)
}

/// One more part is joined on behind a separator, unless it is the first.
proof fn lemma_join_step(parts: Seq<Seq<char>>, sep: Seq<char>, i: int)
    requires
        0 <= i < parts.len(),
    ensures
        join(parts.take(i + 1), sep) == if i == 0 {
            parts[i]
        } else {
            join(parts.take(i), sep) + sep + parts[i]
        },
{
    assert(parts.take(i + 1).drop_last() =~= parts.take(i));
}

/// One more variant adds its line behind those of the variants before it.
proof fn lemma_variant_lines_step(variants: Seq<Seq<char>>, i: int)
    requires
        0 <= i < variants.len(),
    ensures
        variant_lines(variants.take(i + 1)) == variant_lines(variants.take(i)) + variant_line(
            variants[i],
        ),
{
    variants.lemma_flat_map_take_append(|ident: Seq<char>| variant_line(ident), i);
}

/// One more arm adds its line behind those of the arms before it.
proof fn lemma_arm_lines_step(arms: Seq<MatchArmView>, i: int)
    requires
        0 <= i < arms.len(),
    ensures
        arm_lines(arms.take(i + 1)) == arm_lines(arms.take(i)) + arm_line(arms[i]),
{
    arms.lemma_flat_map_take_append(|arm: MatchArmView| arm_line(arm), i);
}

/// Writes the parts with `sep` between them.
fn write_joined(parts: &Vec<String>, sep: &str) -> (out: String)
    ensures
        out@ == join(strings_view(parts@), sep@),
{
    let ghost all = strings_view(parts@);
    let mut out = String::new();
    let mut i: usize = 0;
    while i < parts.len()
        invariant
            i <= parts.len(),
            all == strings_view(parts@),
            out@ == join(all.take(i as int), sep@),
        decreases parts.len() - i,
    {
        proof {
            lemma_join_step(all, sep@, i as int);
        }
        if i > 0 {
            out.append(sep);
        }
        out.append(parts[i].as_str());
        i += 1;
    }
    assert(all.take(i as int) =~= all);
    out
}

/// Writes the text described by [`derive_line`].
fn write_derive_line(derives: &Vec<String>) -> (out: String)
    ensures
        out@ == derive_line(strings_view(derives@)),
{
    let mut out = String::from_str("#[derive(");
    out.append(write_joined(derives, ", ").as_str());
    out.append(")]\n");
    out
}

/// Writes the text described by [`enum_header`].
fn write_enum_header(visibility: &String, ident: &String) -> (out: String)
    ensures
        out@ == enum_header(visibility@, ident@),
{
    let mut out = String::new();
    if visibility.as_str().is_empty() {
        out.append("enum ");
    } else {
        out.append(visibility.as_str());
        out.append(" enum ");
    }
    out.append(ident.as_str());
    out.append(" {\n");
    out
}

/// Writes the text described by [`variant_lines`].
fn write_variant_lines(variants: &Vec<String>) -> (out: String)
    ensures
        out@ == variant_lines(strings_view(variants@)),
{
    let ghost all = strings_view(variants@);
    let mut out = String::new();
    let mut i: usize = 0;
    while i < variants.len()
        invariant
            i <= variants.len(),
            all == strings_view(variants@),
            out@ == variant_lines(all.take(i as int)),
        decreases variants.len() - i,
    {
        proof {
            lemma_variant_lines_step(all, i as int);
        }
        out.append("    ");
        out.append(variants[i].as_str());
        out.append(",\n");
        i += 1;
    }
    assert(all.take(i as int) =~= all);
    out
}

/// Writes the text described by [`path_text`].
fn write_path(path: &VariantPath) -> (out: String)
    ensures
        out@ == path_text(path@),
{
    let mut out = path.enum_ident.clone();
    out.append("::");
    out.append(path.variant_ident.as_str());
    out
}

/// Writes the text described by [`pattern_text`].
fn write_pattern(pattern: &Pattern) -> (out: String)
    ensures
        out@ == pattern_text(pattern@),
{
    let mut out = write_path(&pattern.path);
    match pattern.rest {
        Rest::Unit => {},
        Rest::Tuple => {
            out.append("(..)");
        },
        Rest::Struct => {
            out.append(" { .. }");
        },
    }
    out
}

/// Writes the text described by [`arm_line`].
fn write_arm_line(arm: &MatchArm) -> (out: String)
    ensures
        out@ == arm_line(arm@),
{
    let mut out = String::from_str("            ");
    out.append(write_pattern(&arm.pattern).as_str());
    out.append(" => ");
    out.append(write_path(&arm.body).as_str());
    out.append(",\n");
    out
}

/// Writes the text described by [`arm_lines`].
fn write_arm_lines(arms: &Vec<MatchArm>) -> (out: String)
    ensures
        out@ == arm_lines(arms_view(arms@)),
{
    let ghost all = arms_view(arms@);
    let mut out = String::new();
    let mut i: usize = 0;
    while i < arms.len()
        invariant
            i <= arms.len(),
            all == arms_view(arms@),
            out@ == arm_lines(all.take(i as int)),
        decreases arms.len() - i,
    {
        proof {
            lemma_arm_lines_step(all, i as int);
        }
        out.append(write_arm_line(&arms[i]).as_str());
        i += 1;
    }
    assert(all.take(i as int) =~= all);
    out
}

/// Writes the text described by [`enum_text`].
fn write_enum(ir: &Ir) -> (out: String)
    ensures
        out@ == enum_text(ir@),
{
    let mut out = write_derive_line(&ir.derives);
    out.append(write_enum_header(&ir.visibility, &ir.unit_enum_ident).as_str());
    out.append(write_variant_lines(&ir.variants).as_str());
    out.append("}\n");
    out
}

/// Writes the text described by [`orig_type`].
fn write_orig_type(ir: &Ir) -> (out: String)
    ensures
        out@ == orig_type(ir@),
{
    let mut out = ir.orig_enum_ident.clone();
    out.append(ir.orig_enum_generics.as_str());
    out
}

/// Writes the text described by [`impl_text`].
fn write_impl(ir: &Ir) -> (out: String)
    ensures
        out@ == impl_text(ir@),
{
    let orig = write_orig_type(ir);
    let mut out = String::from_str("impl");
    out.append(ir.orig_enum_generics.as_str());
    out.append(" From<&");
    out.append(orig.as_str());
    out.append("> for ");
    out.append(ir.unit_enum_ident.as_str());
    out.append(" {\n    fn from(orig: &");
    out.append(orig.as_str());
    out.append(") -> Self {\n        match orig {\n");
    out.append(write_arm_lines(&ir.variant_arms).as_str());
    out.append("        }\n    }\n}\n");
    out
}

/// Writes the source text of the two declarations: first the new enum,
/// then the `From` impl.
///
/// The enum has the visibility of the first enum, derives the listed traits in
/// the listed order, and has the listed variants in the listed order, none
/// with fields. The impl is generic over what the first enum is generic over
/// and adds no bounds; the body of its one function is a single `match`
/// with the listed arms in the listed order and no other arm.
pub fn codegen(ir: Ir) -> (text: String)
    ensures
        text@ == codegen_spec(ir@),
{
    let mut text = write_enum(&ir);
    text.append("\n");
    text.append(write_impl(&ir).as_str());
    text
}

} // verus!
