//! The input of a derivation: an item, and for an enum its attributes and
//! variants, held as plain values.
//!
//! The types here keep of a syntax tree what the derivation reads, and no
//! more. A path is kept as the identifier it consists of, if it is a single
//! one; an attribute as the entries of its argument list; an entry as a
//! key with a literal or with a list of elements. Every exec type has a view
//! in which strings are sequences of characters and vectors are sequences.

use proc_macro2::Span;
use vstd::prelude::*;

verus! {

/// The view of an optional string.
pub open spec fn opt_chars(s: Option<String>) -> Option<Seq<char>> {
    match s {
        Some(s) => Some(s@),
        None => None,
    }
}

/// The views of the strings of a sequence, in order.
pub open spec fn strings_view(v: Seq<String>) -> Seq<Seq<char>> {
    v.map_values(|s: String| s@)
}

/// A path such as `derive` or `std::fmt::Debug`.
///
/// `ident` is the path's identifier where the path is bare: no leading
/// `::`, one segment, no arguments. It is `None` for every other path.
#[derive(Clone, Debug, PartialEq, Eq)]
pub struct SimplePath {
    pub ident: Option<String>,
}

impl View for SimplePath {
    type V = Option<Seq<char>>;

    open spec fn view(&self) -> Option<Seq<char>> {
        opt_chars(self.ident)
    }
}

impl SimplePath {
    /// Whether the path is the bare identifier `name`.
    pub fn is_ident(&self, name: &str) -> (b: bool)
        ensures
            b == (self@ == Some(name@)),
    {
        match &self.ident {
            Some(ident) => {
                let wanted = String::from_str(name);
                *ident == wanted
            },
            None => false,
        }
    }
}

/// What a literal holds.
#[derive(Debug)]
pub enum LiteralKind {
    /// A string literal, with the text it denotes (escapes resolved, quotes
    /// removed).
    Str(String),
    /// Any other literal: a number, a character, a boolean, bytes.
    Other,
}

pub enum LiteralKindView {
    Str(Seq<char>),
    Other,
}

impl View for LiteralKind {
    type V = LiteralKindView;

    open spec fn view(&self) -> LiteralKindView {
        match self {
            LiteralKind::Str(s) => LiteralKindView::Str(s@),
            LiteralKind::Other => LiteralKindView::Other,
        }
    }
}

/// A literal and the place where it stands.
#[derive(Debug)]
pub struct Literal {
    pub kind: LiteralKind,
    pub span: Span,
}

pub struct LiteralView {
    pub kind: LiteralKindView,
    pub span: Span,
}

impl View for Literal {
    type V = LiteralView;

    open spec fn view(&self) -> LiteralView {
        LiteralView { kind: self.kind@, span: self.span }
    }
}

/// What an element of a list such as `derive(Clone, Copy)` is.
#[derive(Debug)]
pub enum ElementKind {
    /// A path standing alone.
    Path(SimplePath),
    /// Anything else: a literal, a nested list, a key with a value.
    Other,
}

pub enum ElementKindView {
    Path(Option<Seq<char>>),
    Other,
}

impl View for ElementKind {
    type V = ElementKindView;

    open spec fn view(&self) -> ElementKindView {
        match self {
            ElementKind::Path(p) => ElementKindView::Path(p@),
            ElementKind::Other => ElementKindView::Other,
        }
    }
}

/// An element of a list, and the place where it stands.
#[derive(Debug)]
pub struct Element {
    pub kind: ElementKind,
    pub span: Span,
}

pub struct ElementView {
    pub kind: ElementKindView,
    pub span: Span,
}

impl View for Element {
    type V = ElementView;

    open spec fn view(&self) -> ElementView {
        ElementView { kind: self.kind@, span: self.span }
    }
}

/// The views of the elements of a sequence, in order.
pub open spec fn elements_view(v: Seq<Element>) -> Seq<ElementView> {
    v.map_values(|e: Element| e@)
}

/// One entry of an attribute's argument list.
#[derive(Debug)]
pub enum Entry {
    /// A key with a literal: `name = "Tag"`.
    NameValue { path: SimplePath, lit: Literal },
    /// A key with a list: `derive(Clone, Copy)`.
    List { path: SimplePath, nested: Vec<Element> },
    /// Anything else: a literal, or a path standing alone.
    Other,
}

pub enum EntryView {
    NameValue { path: Option<Seq<char>>, lit: LiteralView },
    List { path: Option<Seq<char>>, nested: Seq<ElementView> },
    Other,
}

impl View for Entry {
    type V = EntryView;

    open spec fn view(&self) -> EntryView {
        match self {
            Entry::NameValue { path, lit } => EntryView::NameValue { path: path@, lit: lit@ },
            Entry::List { path, nested } => EntryView::List {
                path: path@,
                nested: elements_view(nested@),
            },
            Entry::Other => EntryView::Other,
        }
    }
}

/// The views of the entries of a sequence, in order.
pub open spec fn entries_view(v: Seq<Entry>) -> Seq<EntryView> {
    v.map_values(|e: Entry| e@)
}

/// An attribute: `#[path(entries)]`.
///
/// `entries` is `None` where what follows the path is not a parenthesised
/// list of entries (nothing, `= value`, tokens of another grammar), and
/// where it was not read because the attribute is none of this derivation's.
#[derive(Debug)]
pub struct Attr {
    pub path: SimplePath,
    pub entries: Option<Vec<Entry>>,
}

pub struct AttrView {
    pub path: Option<Seq<char>>,
    pub entries: Option<Seq<EntryView>>,
}

impl View for Attr {
    type V = AttrView;

    open spec fn view(&self) -> AttrView {
        AttrView {
            path: self.path@,
            entries: match self.entries {
                Some(es) => Some(entries_view(es@)),
                None => None,
            },
        }
    }
}

/// The views of the attributes of a sequence, in order.
pub open spec fn attributes_view(v: Seq<Attr>) -> Seq<AttrView> {
    v.map_values(|a: Attr| a@)
}

/// The fields of a variant.
#[derive(Clone, Debug, PartialEq, Eq)]
pub enum FieldShape {
    /// No fields: `Idle`.
    Unit,
    /// Positional fields, by their number: `Pair(bool, i32)` has 2.
    Unnamed(usize),
    /// Named fields, by their names: `Point { x: T, y: T }` has `x` and `y`.
    Named(Vec<String>),
}

pub enum FieldShapeView {
    Unit,
    Unnamed(nat),
    Named(Seq<Seq<char>>),
}

impl View for FieldShape {
    type V = FieldShapeView;

    open spec fn view(&self) -> FieldShapeView {
        match self {
            FieldShape::Unit => FieldShapeView::Unit,
            FieldShape::Unnamed(n) => FieldShapeView::Unnamed(*n as nat),
            FieldShape::Named(names) => FieldShapeView::Named(strings_view(names@)),
        }
    }
}

/// A variant of an enum.
#[derive(Clone, Debug, PartialEq, Eq)]
pub struct VariantDescriptor {
    pub ident: String,
    pub fields: FieldShape,
}

pub struct VariantDescriptorView {
    pub ident: Seq<char>,
    pub fields: FieldShapeView,
}

impl View for VariantDescriptor {
    type V = VariantDescriptorView;

    open spec fn view(&self) -> VariantDescriptorView {
        VariantDescriptorView { ident: self.ident@, fields: self.fields@ }
    }
}

/// The views of the variants of a sequence, in order.
pub open spec fn variants_view(v: Seq<VariantDescriptor>) -> Seq<VariantDescriptorView> {
    v.map_values(|x: VariantDescriptor| x@)
}

/// An enum declaration.
///
/// `vis` and `generics` are source text, possibly empty, that the derivation
/// copies and never reads: `pub(crate)`, `<T, const N: usize>`.
#[derive(Debug)]
pub struct EnumDescriptor {
    pub attrs: Vec<Attr>,
    pub vis: String,
    pub ident: String,
    pub generics: String,
    pub variants: Vec<VariantDescriptor>,
}

pub struct EnumDescriptorView {
    pub attrs: Seq<AttrView>,
    pub vis: Seq<char>,
    pub ident: Seq<char>,
    pub generics: Seq<char>,
    pub variants: Seq<VariantDescriptorView>,
}

impl View for EnumDescriptor {
    type V = EnumDescriptorView;

    open spec fn view(&self) -> EnumDescriptorView {
        EnumDescriptorView {
            attrs: attributes_view(self.attrs@),
            vis: self.vis@,
            ident: self.ident@,
            generics: self.generics@,
            variants: variants_view(self.variants@),
        }
    }
}

impl EnumDescriptorView {
    /// No two variants have the same identifier, as the language asks of an
    /// enum.
    pub open spec fn distinct_variants(self) -> bool {
        forall|i: int, j: int|
            0 <= i < j < self.variants.len() ==> self.variants[i].ident != self.variants[j].ident
    }
}

/// An item of source code.
#[derive(Debug)]
pub enum SourceItem {
    /// An enum.
    Enum(EnumDescriptor),
    /// Any other item (a struct, a union, a function, ..), by the place where
    /// it stands.
    Other(Span),
}

pub enum SourceItemView {
    Enum(EnumDescriptorView),
    Other(Span),
}

impl View for SourceItem {
    type V = SourceItemView;

    open spec fn view(&self) -> SourceItemView {
        match self {
            SourceItem::Enum(e) => SourceItemView::Enum(e@),
            SourceItem::Other(span) => SourceItemView::Other(*span),
        }
    }
}

} // verus!
