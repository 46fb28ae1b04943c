//! Second stage: from an enum declaration to the resolved model of a
//! derivation.
//!
//! The configuration of a derivation is written in the attributes of the
//! enum that carry the marker `unit_enum`:
//!
//! ```text
//! #[unit_enum(name = "Tag", derive(Clone, Copy))]
//! ```
//!
//! The entries of all such attributes form one list, in source order. The
//! elements of its `derive(..)` lists name the traits that the new enum
//! derives; its first `name = ".."` entry names the new enum. Attributes
//! without the marker, marked attributes without a list of entries, and
//! entries of another shape or key are passed over.

use crate::diagnostic::{name_not_string, trait_name_invalid, Diagnostic, DiagnosticView};
use crate::syntax::{
    attributes_view, elements_view, entries_view, opt_chars, strings_view, variants_view, Attr,
    AttrView, Element, ElementKind, ElementKindView, ElementView, Entry, EntryView,
    EnumDescriptor, EnumDescriptorView, Literal, LiteralKind, LiteralKindView, LiteralView,
    VariantDescriptor, VariantDescriptorView,
};
use vstd::prelude::*;

verus! {

/// The path that marks an attribute as configuration of this derivation.
pub const MARKER: &'static str = "unit_enum";

/// The key of the entries that list traits to derive.
pub const DERIVE: &'static str = "derive";

/// The key of the entry that names the new enum.
pub const NAME: &'static str = "name";

/// What is appended to the identifier of the original enum where no name is
/// configured.
pub const SUFFIX: &'static str = "Unit";

/// What the attributes of an enum configure.
#[derive(Clone, Debug, PartialEq, Eq)]
pub struct ConfigSpec {
    /// The name for the new enum, if one is configured.
    pub name: Option<String>,
    /// The traits that the new enum is to derive, in the order and as often
    /// as they are listed.
    pub derives: Vec<String>,
}

pub struct ConfigSpecView {
    pub name: Option<Seq<char>>,
    pub derives: Seq<Seq<char>>,
}

impl View for ConfigSpec {
    type V = ConfigSpecView;

    open spec fn view(&self) -> ConfigSpecView {
        ConfigSpecView { name: opt_chars(self.name), derives: strings_view(self.derives@) }
    }
}

/// All that the later stages need to know of a derivation.
#[derive(Clone, Debug, PartialEq, Eq)]
pub struct Model {
    pub visibility: String,
    pub variants: Vec<VariantDescriptor>,
    pub derives: Vec<String>,
    pub orig_enum_ident: String,
    pub orig_enum_generics: String,
    pub unit_enum_ident: String,
}

pub struct ModelView {
    pub visibility: Seq<char>,
    pub variants: Seq<VariantDescriptorView>,
    pub derives: Seq<Seq<char>>,
    pub orig_enum_ident: Seq<char>,
    pub orig_enum_generics: Seq<char>,
    pub unit_enum_ident: Seq<char>,
}

impl View for Model {
    type V = ModelView;

    open spec fn view(&self) -> ModelView {
        ModelView {
            visibility: self.visibility@,
            variants: variants_view(self.variants@),
            derives: strings_view(self.derives@),
            orig_enum_ident: self.orig_enum_ident@,
            orig_enum_generics: self.orig_enum_generics@,
            unit_enum_ident: self.unit_enum_ident@,
        }
    }
}

/// The entries that one attribute contributes to the configuration: its own
/// entries where it carries the marker and has a list of them, none
/// otherwise.
pub open spec fn marked_entries(a: AttrView) -> Seq<EntryView> {
    if a.path == Some(MARKER@) && a.entries is Some {
        a.entries->Some_0
    } else {
        Seq::empty()
    }
}

/// The configuration entries of an enum: those of its marked attributes, in
/// source order.
pub open spec fn config_entries(attrs: Seq<AttrView>) -> Seq<EntryView> {
    attrs.flat_map(|a: AttrView| marked_entries(a))
}

/// The elements that one entry contributes to the traits to derive: its own
/// elements where it is a list keyed `derive`, none otherwise.
pub open spec fn derive_list(e: EntryView) -> Seq<ElementView> {
    match e {
        EntryView::List { path, nested } => if path == Some(DERIVE@) {
            nested
        } else {
            Seq::empty()
        },
        _ => Seq::empty(),
    }
}

/// The elements of all `derive(..)` lists among `entries`, in source order.
pub open spec fn derive_elements(entries: Seq<EntryView>) -> Seq<ElementView> {
    entries.flat_map(|e: EntryView| derive_list(e))
}

/// The trait that an element names: the identifier of a bare path, nothing
/// for anything else.
pub open spec fn trait_name(el: ElementView) -> Option<Seq<char>> {
    match el.kind {
        ElementKindView::Path(p) => p,
        ElementKindView::Other => None,
    }
}

/// Every element names a trait.
pub open spec fn all_trait_names(elements: Seq<ElementView>) -> bool {
    forall|i: int| 0 <= i < elements.len() ==> (#[trigger] trait_name(elements[i])) is Some
}

/// `i` is the index of the first element that names no trait.
pub open spec fn is_first_invalid(elements: Seq<ElementView>, i: int) -> bool {
    &&& 0 <= i < elements.len()
    &&& trait_name(elements[i]) is None
    &&& forall|j: int| 0 <= j < i ==> (#[trigger] trait_name(elements[j])) is Some
}

/// The traits that the elements name, in order.
pub open spec fn trait_names(elements: Seq<ElementView>) -> Seq<Seq<char>> {
    elements.map_values(|el: ElementView| trait_name(el)->Some_0)
}

/// The traits to derive: the names of all elements, or a report at the
/// first element that names none.
pub open spec fn derives_of(elements: Seq<ElementView>) -> Result<Seq<Seq<char>>, DiagnosticView> {
    if all_trait_names(elements) {
        Ok(trait_names(elements))
    } else {
        let first = choose|i: int| is_first_invalid(elements, i);
        Err(trait_name_invalid(elements[first].span))
    }
}

/// The entry is a key with a literal, and the key is `name`.
pub open spec fn is_name_entry(e: EntryView) -> bool {
    e matches EntryView::NameValue { path, .. } && path == Some(NAME@)
}

/// `i` is the index of the first `name = ..` entry.
pub open spec fn is_first_name_entry(entries: Seq<EntryView>, i: int) -> bool {
    &&& 0 <= i < entries.len()
    &&& is_name_entry(entries[i])
    &&& forall|j: int| 0 <= j < i ==> !(#[trigger] is_name_entry(entries[j]))
}

/// The literal of the first `name = ..` entry, if there is such an entry.
pub open spec fn name_literal(entries: Seq<EntryView>) -> Option<LiteralView> {
    if exists|i: int| is_first_name_entry(entries, i) {
        let first = choose|i: int| is_first_name_entry(entries, i);
        Some(entries[first]->lit)
    } else {
        None
    }
}

/// The configured name: none without a `name = ..` entry, what a string
/// literal denotes, or a report at a literal that is no string.
pub open spec fn name_of(literal: Option<LiteralView>) -> Result<
    Option<Seq<char>>,
    DiagnosticView,
> {
    match literal {
        None => Ok(None),
        Some(lit) => match lit.kind {
            LiteralKindView::Str(s) => Ok(Some(s)),
            LiteralKindView::Other => Err(name_not_string(lit.span)),
        },
    }
}

/// What [`extract_config`] computes. The traits are resolved before the
/// name, so where both are at fault the report is about the traits.
pub open spec fn config_of(attrs: Seq<AttrView>) -> Result<ConfigSpecView, DiagnosticView> {
    let entries = config_entries(attrs);
    match derives_of(derive_elements(entries)) {
        Err(d) => Err(d),
        Ok(derives) => match name_of(name_literal(entries)) {
            Err(d) => Err(d),
            Ok(name) => Ok(ConfigSpecView { name, derives }),
        },
    }
}

/// The identifier of the new enum: the configured name, or without one the
/// identifier of the enum it is derived from with the suffix appended.
pub open spec fn unit_enum_ident(orig: Seq<char>, name: Option<Seq<char>>) -> Seq<char> {
    match name {
        Some(name) => name,
        None => orig + SUFFIX@,
    }
}

/// What [`analyze`] computes.
pub open spec fn analyze_spec(e: EnumDescriptorView) -> Result<ModelView, DiagnosticView> {
    match config_of(e.attrs) {
        Err(d) => Err(d),
        Ok(config) => Ok(
            ModelView {
                visibility: e.vis,
                variants: e.variants,
                derives: config.derives,
                orig_enum_ident: e.ident,
                orig_enum_generics: e.generics,
                unit_enum_ident: unit_enum_ident(e.ident, config.name),
            },
        ),
    }
}

/// The views of the entries that a sequence of references leads to.
spec fn entry_refs_view(v: Seq<&Entry>) -> Seq<EntryView> {
    v.map_values(|e: &Entry| e@)
}

/// The views of the elements that a sequence of references leads to.
spec fn element_refs_view(v: Seq<&Element>) -> Seq<ElementView> {
    v.map_values(|e: &Element| e@)
}

/// One more attribute adds its marked entries behind those of the
/// attributes before it.
proof fn lemma_config_entries_step(attrs: Seq<AttrView>, i: int)
    requires
        0 <= i < attrs.len(),
    ensures
        config_entries(attrs.take(i + 1)) == config_entries(attrs.take(i)) + marked_entries(
            attrs[i],
        ),
{
    attrs.lemma_flat_map_take_append(|a: AttrView| marked_entries(a), i);
}

/// One more entry adds its `derive(..)` elements behind those of the
/// entries before it.
proof fn lemma_derive_elements_step(entries: Seq<EntryView>, i: int)
    requires
        0 <= i < entries.len(),
    ensures
        derive_elements(entries.take(i + 1)) == derive_elements(entries.take(i)) + derive_list(
            entries[i],
        ),
{
    entries.lemma_flat_map_take_append(|e: EntryView| derive_list(e), i);
}

/// Collects the configuration entries of an enum's attributes.
fn collect_entries<'a>(attrs: &'a Vec<Attr>) -> (out: Vec<&'a Entry>)
    ensures
        entry_refs_view(out@) == config_entries(attributes_view(attrs@)),
{
    let ghost all = attributes_view(attrs@);
    let mut out: Vec<&'a Entry> = Vec::new();
    let mut i: usize = 0;
    while i < attrs.len()
        invariant
            i <= attrs.len(),
            all == attributes_view(attrs@),
            entry_refs_view(out@) == config_entries(all.take(i as int)),
        decreases attrs.len() - i,
    {
        let attr = &attrs[i];
        proof {
            lemma_config_entries_step(all, i as int);
        }
        if attr.path.is_ident(MARKER) {
            match &attr.entries {
                Some(entries) => {
                    let ghost before = entry_refs_view(out@);
                    let mut j: usize = 0;
                    while j < entries.len()
                        invariant
                            j <= entries.len(),
                            entry_refs_view(out@) == before + entries_view(entries@).take(j as int),
                        decreases entries.len() - j,
                    {
                        let ghost prev = out@;
                        out.push(&entries[j]);
                        assert(entry_refs_view(out@) =~= entry_refs_view(prev).push(
                            entries@[j as int]@,
                        ));
                        j += 1;
                    }
                },
                None => {},
            }
        }
        i += 1;
    }
    assert(all.take(i as int) =~= all);
    out
}

/// Collects the elements of the `derive(..)` lists among the entries.
fn collect_derive_elements<'a>(entries: &Vec<&'a Entry>) -> (out: Vec<&'a Element>)
    ensures
        element_refs_view(out@) == derive_elements(entry_refs_view(entries@)),
{
    let ghost all = entry_refs_view(entries@);
    let mut out: Vec<&'a Element> = Vec::new();
    let mut i: usize = 0;
    while i < entries.len()
        invariant
            i <= entries.len(),
            all == entry_refs_view(entries@),
            element_refs_view(out@) == derive_elements(all.take(i as int)),
        decreases entries.len() - i,
    {
        let entry: &'a Entry = entries[i];
        proof {
            lemma_derive_elements_step(all, i as int);
        }
        match entry {
            Entry::List { path, nested } => {
                if path.is_ident(DERIVE) {
                    let ghost before = element_refs_view(out@);
                    let mut j: usize = 0;
                    while j < nested.len()
                        invariant
                            j <= nested.len(),
                            element_refs_view(out@) == before + elements_view(nested@).take(
                                j as int,
                            ),
                        decreases nested.len() - j,
                    {
                        let ghost prev = out@;
                        out.push(&nested[j]);
                        assert(element_refs_view(out@) =~= element_refs_view(prev).push(
                            nested@[j as int]@,
                        ));
                        j += 1;
                    }
                }
            },
            _ => {},
        }
        i += 1;
    }
    assert(all.take(i as int) =~= all);
    out
}

/// The view of the outcome of resolving the traits to derive.
spec fn names_result_view(r: Result<Vec<String>, Diagnostic>) -> Result<
    Seq<Seq<char>>,
    DiagnosticView,
> {
    match r {
        Ok(names) => Ok(strings_view(names@)),
        Err(d) => Err(d@),
    }
}

/// Reads the trait names off the elements, and stops at the first element
/// that names none.
fn resolve_derives(elements: &Vec<&Element>) -> (r: Result<Vec<String>, Diagnostic>)
    ensures
        names_result_view(r) == derives_of(element_refs_view(elements@)),
{
    let ghost all = element_refs_view(elements@);
    let mut names: Vec<String> = Vec::new();
    let mut i: usize = 0;
    while i < elements.len()
        invariant
            i <= elements.len(),
            all == element_refs_view(elements@),
            names.len() == i,
            forall|k: int| 0 <= k < i ==> (#[trigger] trait_name(all[k])) == Some(names[k]@),
        decreases elements.len() - i,
    {
        let element: &Element = elements[i];
        let found: Option<String> = match &element.kind {
            ElementKind::Path(path) => match &path.ident {
                Some(ident) => Some(ident.clone()),
                None => None,
            },
            ElementKind::Other => None,
        };
        match found {
            Some(name) => {
                names.push(name);
            },
            None => {
                proof {
                    assert(is_first_invalid(all, i as int));
                    let first = choose|k: int| is_first_invalid(all, k);
                    assert(first == i);
                }
                return Err(Diagnostic::trait_name_invalid(element.span));
            },
        }
        i += 1;
    }
    assert(strings_view(names@) =~= trait_names(all));
    Ok(names)
}

/// The view of an optional reference to a literal.
spec fn opt_literal_view(l: Option<&Literal>) -> Option<LiteralView> {
    match l {
        Some(l) => Some(l@),
        None => None,
    }
}

/// Finds the literal of the first `name = ..` entry.
fn find_name<'a>(entries: &Vec<&'a Entry>) -> (r: Option<&'a Literal>)
    ensures
        opt_literal_view(r) == name_literal(entry_refs_view(entries@)),
{
    let ghost all = entry_refs_view(entries@);
    let mut i: usize = 0;
    while i < entries.len()
        invariant
            i <= entries.len(),
            all == entry_refs_view(entries@),
            forall|k: int| 0 <= k < i ==> !(#[trigger] is_name_entry(all[k])),
        decreases entries.len() - i,
    {
        let entry: &'a Entry = entries[i];
        match entry {
            Entry::NameValue { path, lit } => {
                if path.is_ident(NAME) {
                    proof {
                        assert(is_first_name_entry(all, i as int));
                        let first = choose|k: int| is_first_name_entry(all, k);
                        assert(first == i);
                    }
                    return Some(lit);
                }
            },
            _ => {},
        }
        i += 1;
    }
    None
}

/// The view of the outcome of resolving the configured name.
spec fn name_result_view(r: Result<Option<String>, Diagnostic>) -> Result<
    Option<Seq<char>>,
    DiagnosticView,
> {
    match r {
        Ok(name) => Ok(opt_chars(name)),
        Err(d) => Err(d@),
    }
}

/// Reads the configured name off the literal of a `name = ..` entry.
fn resolve_name(literal: Option<&Literal>) -> (r: Result<Option<String>, Diagnostic>)
    ensures
        name_result_view(r) == name_of(opt_literal_view(literal)),
{
    match literal {
        None => Ok(None),
        Some(lit) => match &lit.kind {
            LiteralKind::Str(s) => Ok(Some(s.clone())),
            LiteralKind::Other => Err(Diagnostic::name_not_string(lit.span)),
        },
    }
}

/// The view of the outcome of [`extract_config`].
pub open spec fn config_result_view(r: Result<ConfigSpec, Diagnostic>) -> Result<
    ConfigSpecView,
    DiagnosticView,
> {
    match r {
        Ok(config) => Ok(config@),
        Err(d) => Err(d@),
    }
}

/// Extracts what the attributes of an enum configure.
///
/// The traits to derive are the elements of all `derive(..)` entries of the
/// marked attributes, in source order and as often as they are written. An
/// element that is not a bare name ends the derivation with
/// [`ErrorKind::ConfigTraitNameInvalid`], reported at the first such
/// element. The name is that of the first `name = ..` entry, whose value must
/// be a string literal, else the derivation ends with
/// [`ErrorKind::ConfigNameNotString`], reported at that value.
///
/// [`ErrorKind::ConfigTraitNameInvalid`]: crate::diagnostic::ErrorKind::ConfigTraitNameInvalid
/// [`ErrorKind::ConfigNameNotString`]: crate::diagnostic::ErrorKind::ConfigNameNotString
pub fn extract_config(attrs: &Vec<Attr>) -> (r: Result<ConfigSpec, Diagnostic>)
    ensures
        config_result_view(r) == config_of(attributes_view(attrs@)),
{
    let entries = collect_entries(attrs);
    let elements = collect_derive_elements(&entries);
    let derives = match resolve_derives(&elements) {
        Ok(derives) => derives,
        Err(d) => {
            return Err(d);
        },
    };
    let name = match resolve_name(find_name(&entries)) {
        Ok(name) => name,
        Err(d) => {
            return Err(d);
        },
    };
    Ok(ConfigSpec { name, derives })
}

/// The view of the outcome of [`analyze`].
pub open spec fn model_result_view(r: Result<Model, Diagnostic>) -> Result<
    ModelView,
    DiagnosticView,
> {
    match r {
        Ok(m) => Ok(m@),
        Err(d) => Err(d@),
    }
}

/// Resolves the configuration of a derivation and bundles it with what the
/// enum declares.
///
/// The derivation ends with the report of [`extract_config`] where the
/// configuration is at fault. Otherwise the model holds the configured
/// traits and, as the identifier of the new enum, the configured name;
/// without a configured name the new enum is named after the enum it is
/// derived from, with `Unit` appended. Visibility, generics, identifier and
/// variants of that enum are taken over unchanged.
pub fn analyze(item_enum: EnumDescriptor) -> (r: Result<Model, Diagnostic>)
    ensures
        model_result_view(r) == analyze_spec(item_enum@),
{
    let config = match extract_config(&item_enum.attrs) {
        Ok(config) => config,
        Err(d) => {
            return Err(d);
        },
    };
    let unit_enum_ident = match config.name {
        Some(name) => name,
        None => {
            let mut ident = item_enum.ident.clone();
            ident.append(SUFFIX);
            ident
        },
    };
    Ok(
        Model {
            visibility: item_enum.vis,
            variants: item_enum.variants,
            derives: config.derives,
            orig_enum_ident: item_enum.ident,
            orig_enum_generics: item_enum.generics,
            unit_enum_ident,
        },
    )
}

} // verus!
