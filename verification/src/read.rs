//! From tokens to a [`SourceItem`]: the way into the derivation.
//!
//! The tokens are parsed by `syn`, and what the derivation reads of the
//! syntax tree is copied into the plain values of [`crate::syntax`].
//!
//! A tree of `syn` is opaque to the verifier. The functions in the first half
//! of this module reach into the tree, one step each: they make one call of
//! `syn`, pick one field, or tell the variants of one enum apart. Their
//! bodies are believed, not verified. What such a step returns is a function
//! of the node it is given and of nothing else; it is given a name, and that
//! the step returns what the name stands for is all that is claimed of it.
//! Nothing is claimed of what the names are: that is `syn`'s to decide.
//!
//! Over these names, the spec functions of the second part say which plain
//! value stands for which node ([`item_model`] and what it is built of). The
//! functions of the third part walk the tree by the steps of the first and
//! are verified to put together exactly that value. What the derivation
//! makes of an item, once it is read, is stated and proved for every item, by
//! [`crate::unit_enum`].
//!
//! # Literals that `syn` does not know
//!
//! `syn` 1 knows the literals that the language had in its time. Asked to
//! parse a literal of a later kind, such as the C string `c"text"`, it does
//! not return an error: it panics. So tokens are handed to `syn` only after
//! every literal among them, at any depth, was looked at: [`known_literal`]
//! says, by the first characters as `syn` itself goes by, which literals it
//! knows, and [`read_item`] turns tokens down that hold any other. This is
//! more than `syn` asks, which leaves the arguments of attributes and of
//! macros unparsed; a literal that `syn` does not know is turned down there
//! too.

use crate::analyze::MARKER;
use crate::syntax::{
    attributes_view, elements_view, entries_view, opt_chars, variants_view, Attr, AttrView,
    Element, ElementKind, ElementKindView, ElementView, Entry, EntryView, EnumDescriptor,
    EnumDescriptorView, FieldShape, FieldShapeView, Literal, LiteralKind, LiteralKindView,
    LiteralView, SimplePath, SourceItem, SourceItemView, VariantDescriptor,
    VariantDescriptorView,
};
use proc_macro2::{Span, TokenStream, TokenTree};
use quote::ToTokens;
use syn::spanned::Spanned;
use vstd::prelude::*;

verus! {

/// A sequence of tokens, as `proc_macro2` holds it.
#[verifier::external_type_specification]
#[verifier::external_body]
pub struct ExTokenStream(proc_macro2::TokenStream);

/// A token or a delimited group of tokens, as `proc_macro2` holds it.
#[verifier::external_type_specification]
#[verifier::external_body]
pub struct ExTokenTree(proc_macro2::TokenTree);

/// An item, as `syn` parses it.
#[verifier::external_type_specification]
#[verifier::external_body]
pub struct ExSynItem(syn::Item);

/// An enum, as `syn` parses it.
#[verifier::external_type_specification]
#[verifier::external_body]
pub struct ExSynItemEnum(syn::ItemEnum);

/// A variant of an enum, as `syn` parses it.
#[verifier::external_type_specification]
#[verifier::external_body]
pub struct ExSynVariant(syn::Variant);

/// An attribute, as `syn` parses it.
#[verifier::external_type_specification]
#[verifier::external_body]
pub struct ExSynAttribute(syn::Attribute);

/// An element of an argument list in an attribute, as `syn` parses it.
#[verifier::external_type_specification]
#[verifier::external_body]
pub struct ExSynNestedMeta(syn::NestedMeta);

/// A path, as `syn` parses it.
#[verifier::external_type_specification]
#[verifier::external_body]
pub struct ExSynPath(syn::Path);

/// A literal, as `syn` parses it.
#[verifier::external_type_specification]
#[verifier::external_body]
pub struct ExSynLit(syn::Lit);

/// What an optional reference leads to.
pub open spec fn opt_deref<T>(r: Option<&T>) -> Option<T> {
    match r {
        Some(x) => Some(*x),
        None => None,
    }
}

/// What the references of a sequence lead to, in order.
pub open spec fn derefs<T>(v: Seq<&T>) -> Seq<T> {
    v.map_values(|x: &T| *x)
}

/// What an optional vector holds.
pub open spec fn opt_seq<T>(v: Option<Vec<T>>) -> Option<Seq<T>> {
    match v {
        Some(v) => Some(v@),
        None => None,
    }
}

/// What an optional pair of references leads to.
pub open spec fn pair_deref<A, B>(pair: Option<(&A, &B)>) -> Option<(A, B)> {
    match pair {
        Some((a, b)) => Some((*a, *b)),
        None => None,
    }
}

/// What an optional pair of a reference and a vector of references leads to.
pub open spec fn list_deref<A, B>(list: Option<(&A, Vec<&B>)>) -> Option<(A, Seq<B>)> {
    match list {
        Some((a, v)) => Some((*a, derefs(v@))),
        None => None,
    }
}

/// What a sequence of tokens holds: its token trees, in order
/// (`TokenStream::into_iter`).
pub uninterp spec fn trees_of_stream(stream: TokenStream) -> Seq<TokenTree>;

/// The token trees of a sequence of tokens: see [`trees_of_stream`].
#[verifier::external_body]
fn token_trees(stream: &TokenStream) -> (trees: Vec<TokenTree>)
    ensures
        trees@ == trees_of_stream(*stream),
{
    stream.clone().into_iter().collect()
}

/// What `Group::stream` gives for a token tree that is a group: the tokens
/// between its delimiters. Nothing for any other token tree.
pub uninterp spec fn stream_of_group(tree: TokenTree) -> Option<TokenStream>;

/// Tells a group apart from the other token trees: see [`stream_of_group`].
#[verifier::external_body]
fn group_stream(tree: &TokenTree) -> (stream: Option<TokenStream>)
    ensures
        stream == stream_of_group(*tree),
{
    match tree {
        TokenTree::Group(group) => Some(group.stream()),
        _ => None,
    }
}

/// The text of a token tree that is a literal, as `Literal::to_string` writes
/// it. Nothing for any other token tree.
pub uninterp spec fn text_of_literal_token(tree: TokenTree) -> Option<Seq<char>>;

/// Tells a literal apart from the other token trees: see
/// [`text_of_literal_token`].
#[verifier::external_body]
fn literal_text(tree: &TokenTree) -> (text: Option<String>)
    ensures
        opt_chars(text) == text_of_literal_token(*tree),
{
    match tree {
        TokenTree::Literal(literal) => Some(literal.to_string()),
        _ => None,
    }
}

/// The character is a decimal digit.
pub open spec fn is_digit(c: char) -> bool {
    c == '0' || c == '1' || c == '2' || c == '3' || c == '4' || c == '5' || c == '6' || c == '7'
        || c == '8' || c == '9'
}

/// `syn` knows the literal of this text. It goes by the first characters:
/// a string starts with `"`, a raw string with `r`, a character with `'`, a
/// number with a digit or `-`, and bytes with `b` followed by `"`, `r` or
/// `'`. Any other literal of the language, as written by `proc_macro2`, is
/// one that `syn` gives up on.
pub open spec fn known_literal(text: Seq<char>) -> bool {
    &&& text.len() > 0
    &&& {
        ||| text[0] == '"'
        ||| text[0] == 'r'
        ||| text[0] == '\''
        ||| text[0] == '-'
        ||| is_digit(text[0])
        ||| (text[0] == 'b' && text.len() > 1 && (text[1] == '"' || text[1] == 'r' || text[1]
            == '\''))
    }
}

/// The token tree holds only literals that `syn` knows, in groups nested no
/// deeper than `depth`.
pub open spec fn tree_known(tree: TokenTree, depth: nat) -> bool
    decreases depth, 0nat,
{
    match stream_of_group(tree) {
        Some(inner) => if depth > 0 {
            stream_known(inner, (depth - 1) as nat)
        } else {
            false
        },
        None => match text_of_literal_token(tree) {
            Some(text) => known_literal(text),
            None => true,
        },
    }
}

/// The tokens hold only literals that `syn` knows, in groups nested no
/// deeper than `depth`.
pub open spec fn stream_known(stream: TokenStream, depth: nat) -> bool
    decreases depth, 1nat,
{
    forall|i: int|
        0 <= i < trees_of_stream(stream).len() ==> tree_known(
            #[trigger] trees_of_stream(stream)[i],
            depth,
        )
}

/// The tokens hold only literals that `syn` knows, at any depth that a
/// machine can hold.
pub open spec fn literals_known(stream: TokenStream) -> bool {
    stream_known(stream, usize::MAX as nat)
}

/// What `syn::parse2` makes of tokens, asked for an item: the item, or
/// nothing where the tokens are not exactly one item.
pub uninterp spec fn parsed_item(tokens: TokenStream) -> Option<syn::Item>;

/// `syn::parse2` for an item: see [`parsed_item`]. On a literal that `syn`
/// does not know the call panics, so tokens that hold one are left out.
#[verifier::external_body]
fn syn_item(tokens: TokenStream) -> (item: Option<syn::Item>)
    requires
        literals_known(tokens),
    ensures
        item == parsed_item(tokens),
{
    syn::parse2::<syn::Item>(tokens).ok()
}

/// The enum that an item is (the field of `syn::Item::Enum`), or nothing
/// for an item of any other variant.
pub uninterp spec fn enum_of_item(item: syn::Item) -> Option<syn::ItemEnum>;

/// Tells the variants of `syn::Item` apart: see [`enum_of_item`].
#[verifier::external_body]
fn as_enum(item: &syn::Item) -> (item_enum: Option<&syn::ItemEnum>)
    ensures
        opt_deref(item_enum) == enum_of_item(*item),
{
    match item {
        syn::Item::Enum(item_enum) => Some(item_enum),
        _ => None,
    }
}

/// What `Spanned::span` gives for an item: the place where it stands.
pub uninterp spec fn span_of_item(item: syn::Item) -> Span;

/// `Spanned::span` of an item: see [`span_of_item`].
#[verifier::external_body]
fn item_span(item: &syn::Item) -> (span: Span)
    ensures
        span == span_of_item(*item),
{
    item.span()
}

/// The identifier of an enum, as `Ident::to_string` writes it.
pub uninterp spec fn ident_of_enum(item_enum: syn::ItemEnum) -> Seq<char>;

/// The identifier of an enum, as a string: see [`ident_of_enum`].
#[verifier::external_body]
fn enum_ident(item_enum: &syn::ItemEnum) -> (ident: String)
    ensures
        ident@ == ident_of_enum(*item_enum),
{
    item_enum.ident.to_string()
}

/// The visibility of an enum, as the text of its tokens
/// (`ToTokens::to_token_stream`, then `TokenStream::to_string`).
pub uninterp spec fn visibility_of_enum(item_enum: syn::ItemEnum) -> Seq<char>;

/// The visibility of an enum, as text: see [`visibility_of_enum`].
#[verifier::external_body]
fn enum_visibility(item_enum: &syn::ItemEnum) -> (text: String)
    ensures
        text@ == visibility_of_enum(*item_enum),
{
    item_enum.vis.to_token_stream().to_string()
}

/// The generic parameters of an enum between `<` and `>`, as the text of
/// their tokens (`ToTokens::to_token_stream`, then `TokenStream::to_string`).
/// A `where` clause is no part of them.
pub uninterp spec fn generics_of_enum(item_enum: syn::ItemEnum) -> Seq<char>;

/// The generics of an enum, as text: see [`generics_of_enum`].
#[verifier::external_body]
fn enum_generics(item_enum: &syn::ItemEnum) -> (text: String)
    ensures
        text@ == generics_of_enum(*item_enum),
{
    item_enum.generics.to_token_stream().to_string()
}

/// The attributes of an enum: what its field `attrs` holds, in order.
pub uninterp spec fn attributes_of_enum(item_enum: syn::ItemEnum) -> Seq<syn::Attribute>;

/// The attributes of an enum: see [`attributes_of_enum`].
#[verifier::external_body]
fn enum_attributes(item_enum: &syn::ItemEnum) -> (attributes: &Vec<syn::Attribute>)
    ensures
        attributes@ == attributes_of_enum(*item_enum),
{
    &item_enum.attrs
}

/// The variants of an enum: what its field `variants` holds, in order.
pub uninterp spec fn variants_of_enum(item_enum: syn::ItemEnum) -> Seq<syn::Variant>;

/// The variants of an enum: see [`variants_of_enum`].
#[verifier::external_body]
fn enum_variants(item_enum: &syn::ItemEnum) -> (variants: Vec<&syn::Variant>)
    ensures
        derefs(variants@) == variants_of_enum(*item_enum),
{
    item_enum.variants.iter().collect()
}

/// The identifier of a variant, as `Ident::to_string` writes it.
pub uninterp spec fn ident_of_variant(variant: syn::Variant) -> Seq<char>;

/// The identifier of a variant, as a string: see [`ident_of_variant`].
#[verifier::external_body]
fn variant_ident(variant: &syn::Variant) -> (ident: String)
    ensures
        ident@ == ident_of_variant(*variant),
{
    variant.ident.to_string()
}

/// The fields of a variant, by the variant of its `syn::Fields`: of
/// positional fields their number (`Punctuated::len`), of named fields their
/// names in order, each as the text of its tokens.
pub uninterp spec fn fields_of_variant(variant: syn::Variant) -> FieldShapeView;

/// Tells the variants of `syn::Fields` apart: see [`fields_of_variant`].
#[verifier::external_body]
fn variant_fields(variant: &syn::Variant) -> (fields: FieldShape)
    ensures
        fields@ == fields_of_variant(*variant),
{
    match &variant.fields {
        syn::Fields::Unit => FieldShape::Unit,
        syn::Fields::Unnamed(fields) => FieldShape::Unnamed(fields.unnamed.len()),
        syn::Fields::Named(fields) => FieldShape::Named(
            fields.named.iter().map(|field| field.ident.to_token_stream().to_string()).collect(),
        ),
    }
}

/// The path of an attribute: its field `path`.
pub uninterp spec fn path_of_attribute(attribute: syn::Attribute) -> syn::Path;

/// The path of an attribute: see [`path_of_attribute`].
#[verifier::external_body]
fn attribute_path(attribute: &syn::Attribute) -> (path: &syn::Path)
    ensures
        *path == path_of_attribute(*attribute),
{
    &attribute.path
}

/// What `Attribute::parse_meta` makes of an attribute: the elements of the
/// argument list, in order, where the attribute parses as a path with a
/// list; nothing where it parses as anything else or does not parse.
pub uninterp spec fn list_of_attribute(attribute: syn::Attribute) -> Option<Seq<syn::NestedMeta>>;

/// The arguments of an attribute, unparsed: its field `tokens`.
pub uninterp spec fn tokens_of_attribute(attribute: syn::Attribute) -> TokenStream;

/// The arguments of an attribute: see [`tokens_of_attribute`].
#[verifier::external_body]
fn attribute_tokens(attribute: &syn::Attribute) -> (tokens: TokenStream)
    ensures
        tokens == tokens_of_attribute(*attribute),
{
    attribute.tokens.clone()
}

/// `Attribute::parse_meta`: see [`list_of_attribute`]. On a literal that
/// `syn` does not know the call panics, so an attribute whose arguments hold
/// one is left out.
#[verifier::external_body]
fn attribute_list(attribute: &syn::Attribute) -> (list: Option<Vec<syn::NestedMeta>>)
    requires
        literals_known(tokens_of_attribute(*attribute)),
    ensures
        opt_seq(list) == list_of_attribute(*attribute),
{
    match attribute.parse_meta() {
        Ok(syn::Meta::List(list)) => Some(list.nested.into_iter().collect()),
        _ => None,
    }
}

/// What `Path::get_ident` gives for a path, as `Ident::to_string` writes it:
/// the identifier that the path is, or nothing where the path has a leading
/// `::`, more than one segment, or arguments.
pub uninterp spec fn ident_of_path(path: syn::Path) -> Option<Seq<char>>;

/// `Path::get_ident`, as a string: see [`ident_of_path`].
#[verifier::external_body]
fn path_ident(path: &syn::Path) -> (ident: Option<String>)
    ensures
        opt_chars(ident) == ident_of_path(*path),
{
    path.get_ident().map(|ident| ident.to_string())
}

/// The key and the literal of an element of the form `key = literal` (the
/// fields `path` and `lit` of its `syn::MetaNameValue`), or nothing for an
/// element of any other form.
pub uninterp spec fn name_value_of_meta(meta: syn::NestedMeta) -> Option<(syn::Path, syn::Lit)>;

/// Tells `key = literal` apart from the other forms of an element: see
/// [`name_value_of_meta`].
#[verifier::external_body]
fn as_name_value(meta: &syn::NestedMeta) -> (pair: Option<(&syn::Path, &syn::Lit)>)
    ensures
        pair_deref(pair) == name_value_of_meta(*meta),
{
    match meta {
        syn::NestedMeta::Meta(syn::Meta::NameValue(pair)) => Some((&pair.path, &pair.lit)),
        _ => None,
    }
}

/// The key and the elements, in order, of an element of the form
/// `key(elements)` (the fields `path` and `nested` of its `syn::MetaList`),
/// or nothing for an element of any other form.
pub uninterp spec fn list_of_meta(meta: syn::NestedMeta) -> Option<
    (syn::Path, Seq<syn::NestedMeta>),
>;

/// Tells `key(elements)` apart from the other forms of an element: see
/// [`list_of_meta`].
#[verifier::external_body]
fn as_list(meta: &syn::NestedMeta) -> (list: Option<(&syn::Path, Vec<&syn::NestedMeta>)>)
    ensures
        list_deref(list) == list_of_meta(*meta),
{
    match meta {
        syn::NestedMeta::Meta(syn::Meta::List(list)) => Some(
            (&list.path, list.nested.iter().collect()),
        ),
        _ => None,
    }
}

/// The path that an element is where it is a path standing alone (the field
/// of its `syn::Meta::Path`), or nothing for an element of any other form.
pub uninterp spec fn path_of_meta(meta: syn::NestedMeta) -> Option<syn::Path>;

/// Tells a path standing alone apart from the other forms of an element:
/// see [`path_of_meta`].
#[verifier::external_body]
fn as_path(meta: &syn::NestedMeta) -> (path: Option<&syn::Path>)
    ensures
        opt_deref(path) == path_of_meta(*meta),
{
    match meta {
        syn::NestedMeta::Meta(syn::Meta::Path(path)) => Some(path),
        _ => None,
    }
}

/// What `Spanned::span` gives for an element: the place where it stands.
pub uninterp spec fn span_of_meta(meta: syn::NestedMeta) -> Span;

/// `Spanned::span` of an element: see [`span_of_meta`].
#[verifier::external_body]
fn element_span(meta: &syn::NestedMeta) -> (span: Span)
    ensures
        span == span_of_meta(*meta),
{
    meta.span()
}

/// What `LitStr::value` gives for a literal that is a string literal: the
/// text that it denotes. Nothing for any other literal.
pub uninterp spec fn text_of_literal(lit: syn::Lit) -> Option<Seq<char>>;

/// `LitStr::value`: see [`text_of_literal`].
#[verifier::external_body]
fn lit_str_value(lit: &syn::Lit) -> (text: Option<String>)
    ensures
        opt_chars(text) == text_of_literal(*lit),
{
    match lit {
        syn::Lit::Str(lit_str) => Some(lit_str.value()),
        _ => None,
    }
}

/// What `Lit::span` gives for a literal: the place where it stands.
pub uninterp spec fn span_of_literal(lit: syn::Lit) -> Span;

/// `Lit::span`: see [`span_of_literal`].
#[verifier::external_body]
fn lit_span(lit: &syn::Lit) -> (span: Span)
    ensures
        span == span_of_literal(*lit),
{
    lit.span()
}

/// The plain value for a literal: a string with the text it denotes, or
/// another literal; and its place.
pub open spec fn literal_model(lit: syn::Lit) -> LiteralView {
    LiteralView {
        kind: match text_of_literal(lit) {
            Some(text) => LiteralKindView::Str(text),
            None => LiteralKindView::Other,
        },
        span: span_of_literal(lit),
    }
}

/// The plain value for an element of a list: a path standing alone by its
/// identifier, or something else; and its place.
pub open spec fn element_model(meta: syn::NestedMeta) -> ElementView {
    ElementView {
        kind: match path_of_meta(meta) {
            Some(path) => ElementKindView::Path(ident_of_path(path)),
            None => ElementKindView::Other,
        },
        span: span_of_meta(meta),
    }
}

/// The plain values for the elements of a list, in order.
pub open spec fn elements_model(metas: Seq<syn::NestedMeta>) -> Seq<ElementView> {
    metas.map_values(|meta: syn::NestedMeta| element_model(meta))
}

/// The plain value for an entry of an attribute's argument list: a key with
/// a literal, a key with a list of elements, or something else.
pub open spec fn entry_model(meta: syn::NestedMeta) -> EntryView {
    match name_value_of_meta(meta) {
        Some((path, lit)) => EntryView::NameValue {
            path: ident_of_path(path),
            lit: literal_model(lit),
        },
        None => match list_of_meta(meta) {
            Some((path, nested)) => EntryView::List {
                path: ident_of_path(path),
                nested: elements_model(nested),
            },
            None => EntryView::Other,
        },
    }
}

/// The plain values for the entries of an argument list, in order.
pub open spec fn entries_model(metas: Seq<syn::NestedMeta>) -> Seq<EntryView> {
    metas.map_values(|meta: syn::NestedMeta| entry_model(meta))
}

/// The plain value for an attribute: its path by its identifier, and the
/// entries of its argument list where it carries the marker and parses as a
/// path with a list. The arguments of an attribute without the marker are of
/// another grammar and are never parsed; nor are arguments that hold a
/// literal that `syn` does not know.
pub open spec fn attribute_model(attribute: syn::Attribute) -> AttrView {
    let path = ident_of_path(path_of_attribute(attribute));
    AttrView {
        path,
        entries: if path == Some(MARKER@) && literals_known(tokens_of_attribute(attribute)) {
            match list_of_attribute(attribute) {
                Some(metas) => Some(entries_model(metas)),
                None => None,
            }
        } else {
            None
        },
    }
}

/// The plain values for the attributes of an enum, in order.
pub open spec fn attributes_model(attributes: Seq<syn::Attribute>) -> Seq<AttrView> {
    attributes.map_values(|attribute: syn::Attribute| attribute_model(attribute))
}

/// The plain value for a variant: its identifier and its fields.
pub open spec fn variant_model(variant: syn::Variant) -> VariantDescriptorView {
    VariantDescriptorView { ident: ident_of_variant(variant), fields: fields_of_variant(variant) }
}

/// The plain values for the variants of an enum, in order.
pub open spec fn variants_model(variants: Seq<syn::Variant>) -> Seq<VariantDescriptorView> {
    variants.map_values(|variant: syn::Variant| variant_model(variant))
}

/// The plain value for an enum: its attributes, visibility, identifier,
/// generics and variants.
pub open spec fn enum_model(item_enum: syn::ItemEnum) -> EnumDescriptorView {
    EnumDescriptorView {
        attrs: attributes_model(attributes_of_enum(item_enum)),
        vis: visibility_of_enum(item_enum),
        ident: ident_of_enum(item_enum),
        generics: generics_of_enum(item_enum),
        variants: variants_model(variants_of_enum(item_enum)),
    }
}

/// The plain value for an item: an enum, or the place of any other item.
pub open spec fn item_model(item: syn::Item) -> SourceItemView {
    match enum_of_item(item) {
        Some(item_enum) => SourceItemView::Enum(enum_model(item_enum)),
        None => SourceItemView::Other(span_of_item(item)),
    }
}

/// Why tokens could not be read as an item.
#[derive(Clone, Copy, Debug, PartialEq, Eq, Structural)]
pub enum ReadError {
    /// The tokens hold a literal that `syn` does not know.
    UnknownLiteral,
    /// The tokens are not exactly one item.
    NotAnItem,
}

/// What [`read_item`] makes of tokens: the plain value for the item that
/// they are; no item where they hold a literal that `syn` does not know, or
/// are not exactly one item.
pub open spec fn read_spec(tokens: TokenStream) -> Result<SourceItemView, ReadError> {
    if !literals_known(tokens) {
        Err(ReadError::UnknownLiteral)
    } else {
        match parsed_item(tokens) {
            Some(item) => Ok(item_model(item)),
            None => Err(ReadError::NotAnItem),
        }
    }
}

/// The view of the outcome of [`read_item`].
pub open spec fn item_result_view(r: Result<SourceItem, ReadError>) -> Result<
    SourceItemView,
    ReadError,
> {
    match r {
        Ok(item) => Ok(item@),
        Err(e) => Err(e),
    }
}

/// Of these attributes, only those with the marker have their arguments
/// read.
pub open spec fn marked_only(attrs: Seq<AttrView>) -> bool {
    forall|i: int|
        0 <= i < attrs.len() ==> ((#[trigger] attrs[i]).path != Some(MARKER@)
            ==> attrs[i].entries is None)
}

/// Whether the character is a decimal digit.
fn char_is_digit(c: char) -> (digit: bool)
    ensures
        digit == is_digit(c),
{
    c == '0' || c == '1' || c == '2' || c == '3' || c == '4' || c == '5' || c == '6' || c == '7'
        || c == '8' || c == '9'
}

/// Whether `syn` knows the literal of this text.
pub fn is_known_literal(text: &str) -> (known: bool)
    ensures
        known == known_literal(text@),
{
    let len = text.unicode_len();
    if len == 0 {
        return false;
    }
    let first = text.get_char(0);
    if first == '"' || first == 'r' || first == '\'' || first == '-' || char_is_digit(first) {
        true
    } else if first == 'b' && len > 1 {
        let second = text.get_char(1);
        second == '"' || second == 'r' || second == '\''
    } else {
        false
    }
}

/// Whether the token tree holds only literals that `syn` knows, in groups
/// nested no deeper than `depth`.
fn tree_is_known(tree: &TokenTree, depth: usize) -> (known: bool)
    ensures
        known == tree_known(*tree, depth as nat),
    decreases depth, 0nat,
{
    match group_stream(tree) {
        Some(inner) => {
            if depth > 0 {
                stream_is_known(&inner, depth - 1)
            } else {
                false
            }
        },
        None => match literal_text(tree) {
            Some(text) => is_known_literal(text.as_str()),
            None => true,
        },
    }
}

/// Whether the tokens hold only literals that `syn` knows, in groups nested
/// no deeper than `depth`.
fn stream_is_known(stream: &TokenStream, depth: usize) -> (known: bool)
    ensures
        known == stream_known(*stream, depth as nat),
    decreases depth, 1nat,
{
    let trees = token_trees(stream);
    let mut i: usize = 0;
    while i < trees.len()
        invariant
            i <= trees.len(),
            trees@ == trees_of_stream(*stream),
            forall|k: int| 0 <= k < i ==> tree_known(#[trigger] trees[k], depth as nat),
        decreases trees.len() - i,
    {
        if !tree_is_known(&trees[i], depth) {
            return false;
        }
        i += 1;
    }
    true
}

/// Copies a path.
fn read_path(path: &syn::Path) -> (out: SimplePath)
    ensures
        out@ == ident_of_path(*path),
{
    SimplePath { ident: path_ident(path) }
}

/// Copies a literal.
fn read_lit(lit: &syn::Lit) -> (out: Literal)
    ensures
        out@ == literal_model(*lit),
{
    let kind = match lit_str_value(lit) {
        Some(text) => LiteralKind::Str(text),
        None => LiteralKind::Other,
    };
    Literal { kind, span: lit_span(lit) }
}

/// Copies an element of a list.
fn read_element(meta: &syn::NestedMeta) -> (out: Element)
    ensures
        out@ == element_model(*meta),
{
    let kind = match as_path(meta) {
        Some(path) => ElementKind::Path(read_path(path)),
        None => ElementKind::Other,
    };
    Element { kind, span: element_span(meta) }
}

/// Copies the elements of a list, in order.
fn read_elements(metas: &Vec<&syn::NestedMeta>) -> (out: Vec<Element>)
    ensures
        elements_view(out@) == elements_model(derefs(metas@)),
{
    let mut out: Vec<Element> = Vec::new();
    let mut i: usize = 0;
    while i < metas.len()
        invariant
            i <= metas.len(),
            out.len() == i,
            forall|k: int| 0 <= k < i ==> (#[trigger] out[k])@ == element_model(*metas[k]),
        decreases metas.len() - i,
    {
        out.push(read_element(metas[i]));
        i += 1;
    }
    assert(elements_view(out@) =~= elements_model(derefs(metas@)));
    out
}

/// Copies one entry of an attribute's argument list.
fn read_entry(meta: &syn::NestedMeta) -> (out: Entry)
    ensures
        out@ == entry_model(*meta),
{
    match as_name_value(meta) {
        Some((path, lit)) => Entry::NameValue { path: read_path(path), lit: read_lit(lit) },
        None => match as_list(meta) {
            Some((path, nested)) => Entry::List {
                path: read_path(path),
                nested: read_elements(&nested),
            },
            None => Entry::Other,
        },
    }
}

/// Copies the entries of an attribute's argument list, in order.
fn read_entries(metas: &Vec<syn::NestedMeta>) -> (out: Vec<Entry>)
    ensures
        entries_view(out@) == entries_model(metas@),
{
    let mut out: Vec<Entry> = Vec::new();
    let mut i: usize = 0;
    while i < metas.len()
        invariant
            i <= metas.len(),
            out.len() == i,
            forall|k: int| 0 <= k < i ==> (#[trigger] out[k])@ == entry_model(metas[k]),
        decreases metas.len() - i,
    {
        out.push(read_entry(&metas[i]));
        i += 1;
    }
    assert(entries_view(out@) =~= entries_model(metas@));
    out
}

/// Copies an attribute. The arguments are read only where the attribute
/// carries the marker: those of any other attribute are of another grammar,
/// and not this derivation's to parse. Nor are they read where they hold a
/// literal that `syn` does not know.
fn read_attribute(attribute: &syn::Attribute) -> (attr: Attr)
    ensures
        attr@ == attribute_model(*attribute),
        attr@.path != Some(MARKER@) ==> attr@.entries is None,
{
    let path = read_path(attribute_path(attribute));
    let entries = if path.is_ident(MARKER) && stream_is_known(
        &attribute_tokens(attribute),
        usize::MAX,
    ) {
        match attribute_list(attribute) {
            Some(metas) => Some(read_entries(&metas)),
            None => None,
        }
    } else {
        None
    };
    Attr { path, entries }
}

/// Copies the attributes of an enum, in order.
fn read_attributes(attributes: &Vec<syn::Attribute>) -> (out: Vec<Attr>)
    ensures
        attributes_view(out@) == attributes_model(attributes@),
        marked_only(attributes_view(out@)),
{
    let mut out: Vec<Attr> = Vec::new();
    let mut i: usize = 0;
    while i < attributes.len()
        invariant
            i <= attributes.len(),
            out.len() == i,
            forall|k: int| 0 <= k < i ==> (#[trigger] out[k])@ == attribute_model(attributes[k]),
        decreases attributes.len() - i,
    {
        out.push(read_attribute(&attributes[i]));
        i += 1;
    }
    assert(attributes_view(out@) =~= attributes_model(attributes@));
    out
}

/// Copies the variants of an enum, in order.
fn read_variants(variants: &Vec<&syn::Variant>) -> (out: Vec<VariantDescriptor>)
    ensures
        variants_view(out@) == variants_model(derefs(variants@)),
{
    let mut out: Vec<VariantDescriptor> = Vec::new();
    let mut i: usize = 0;
    while i < variants.len()
        invariant
            i <= variants.len(),
            out.len() == i,
            forall|k: int| 0 <= k < i ==> (#[trigger] out[k])@ == variant_model(*variants[k]),
        decreases variants.len() - i,
    {
        let variant: &syn::Variant = variants[i];
        out.push(
            VariantDescriptor { ident: variant_ident(variant), fields: variant_fields(variant) },
        );
        i += 1;
    }
    assert(variants_view(out@) =~= variants_model(derefs(variants@)));
    out
}

/// Copies an enum.
fn read_enum(item_enum: &syn::ItemEnum) -> (out: EnumDescriptor)
    ensures
        out@ == enum_model(*item_enum),
        marked_only(out@.attrs),
{
    EnumDescriptor {
        attrs: read_attributes(enum_attributes(item_enum)),
        vis: enum_visibility(item_enum),
        ident: enum_ident(item_enum),
        generics: enum_generics(item_enum),
        variants: read_variants(&enum_variants(item_enum)),
    }
}

/// Reads the item that the tokens are.
///
/// Tokens that hold a literal that `syn` does not know, at any depth, are
/// turned down with [`ReadError::UnknownLiteral`] before `syn` sees them;
/// tokens that are not exactly one item, with [`ReadError::NotAnItem`]. An
/// enum comes back with its attributes, visibility, identifier, generics and
/// variants; any other item with the place where it stands. Of the
/// attributes of an enum, only those with the marker have their arguments
/// read.
///
/// What `syn` finds in the tokens is `syn`'s to decide; which plain value
/// stands for what it finds is stated by [`read_spec`] and proved here.
pub fn read_item(tokens: TokenStream) -> (item: Result<SourceItem, ReadError>)
    ensures
        item_result_view(item) == read_spec(tokens),
        item matches Ok(SourceItem::Enum(item_enum)) ==> marked_only(item_enum@.attrs),
{
    if !stream_is_known(&tokens, usize::MAX) {
        return Err(ReadError::UnknownLiteral);
    }
    match syn_item(tokens) {
        None => Err(ReadError::NotAnItem),
        Some(item) => match as_enum(&item) {
            Some(item_enum) => Ok(SourceItem::Enum(read_enum(item_enum))),
            None => Ok(SourceItem::Other(item_span(&item))),
        },
    }
}

} // verus!
