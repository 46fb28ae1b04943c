use unit_enum::analyze::{analyze, extract_config, ConfigSpec};
use unit_enum::diagnostic::{Diagnostic, ErrorKind};
use unit_enum::parse::parse;
use unit_enum::read::{is_known_literal, read_item, ReadError};
use unit_enum::syntax::{
    Attr, Element, ElementKind, Entry, EnumDescriptor, FieldShape, Literal, LiteralKind,
    SimplePath, SourceItem, VariantDescriptor,
};
use unit_enum::unit_enum;

fn read(src: &str) -> SourceItem {
    read_item(src.parse().unwrap()).expect("one item")
}

fn read_enum(src: &str) -> EnumDescriptor {
    match read(src) {
        SourceItem::Enum(item_enum) => item_enum,
        other => panic!("not an enum: {:?}", other),
    }
}

fn source_of(report: &Diagnostic) -> String {
    report.span.source_text().expect("a span with source text")
}

const ALL: &str = "\
#[derive(UnitEnum)]
#[unit_enum(name = \"AllType\", derive(Clone, Copy))]
enum All<T> {
    Unit,
    Tuple(bool, i32),
    Struct { x: T, y: T },
}";

#[test]
fn all_three_kinds_of_variant() {
    let expected = "\
#[derive(Clone, Copy)]
enum AllType {
    Unit,
    Tuple,
    Struct,
}

impl< T > From<&All< T >> for AllType {
    fn from(orig: &All< T >) -> Self {
        match orig {
            All::Unit => AllType::Unit,
            All::Tuple(..) => AllType::Tuple,
            All::Struct { .. } => AllType::Struct,
        }
    }
}
";
    assert_eq!(unit_enum(read(ALL)).unwrap(), expected);
}

#[test]
fn emitted_text_is_an_enum_and_an_impl() {
    let text = unit_enum(read(ALL)).unwrap();
    let file = syn::parse_str::<syn::File>(&text).unwrap();
    assert_eq!(file.items.len(), 2);
    match &file.items[0] {
        syn::Item::Enum(tag) => {
            assert_eq!(tag.ident, "AllType");
            assert!(tag.generics.params.is_empty());
            let idents: Vec<String> = tag.variants.iter().map(|v| v.ident.to_string()).collect();
            assert_eq!(idents, ["Unit", "Tuple", "Struct"]);
            assert!(tag.variants.iter().all(|v| matches!(v.fields, syn::Fields::Unit)));
            assert_eq!(tag.attrs.len(), 1);
            assert!(tag.attrs[0].path.is_ident("derive"));
        }
        _ => panic!("the first declaration is not an enum"),
    }
    match &file.items[1] {
        syn::Item::Impl(conversion) => {
            assert_eq!(conversion.generics.params.len(), 1);
            assert!(conversion.generics.where_clause.is_none());
            assert_eq!(conversion.items.len(), 1);
        }
        _ => panic!("the second declaration is not an impl"),
    }
}

#[test]
fn not_an_enum() {
    let report = unit_enum(read("struct Vec2 { x: i32, y: i32 }")).unwrap_err();
    assert_eq!(report.kind, ErrorKind::InputNotEnum);
    assert_eq!(report.message, "item is not an enum");
    assert_eq!(report.help.as_deref(), Some("this derivation target must be an enum"));
    assert_eq!(source_of(&report), "struct Vec2 { x: i32, y: i32 }");
}

#[test]
fn other_items_are_not_enums_either() {
    for src in ["fn f() {}", "union U { a: u8 }", "type T = u8;", "mod m {}", "const C: u8 = 0;"] {
        let report = unit_enum(read(src)).unwrap_err();
        assert_eq!(report.kind, ErrorKind::InputNotEnum, "{}", src);
    }
}

#[test]
fn tokens_that_are_no_item() {
    for src in ["1 + 2", "enum", "", "enum A {} enum B {}"] {
        let outcome = read_item(src.parse().unwrap());
        assert!(matches!(outcome, Err(ReadError::NotAnItem)), "{}", src);
    }
}

#[test]
fn qualified_trait_name() {
    let report =
        unit_enum(read("#[unit_enum(derive(Clone, std::fmt::Debug, Copy))] enum A { X }"))
            .unwrap_err();
    assert_eq!(report.kind, ErrorKind::ConfigTraitNameInvalid);
    assert_eq!(report.message, "expected trait name");
    assert_eq!(report.help, None);
    assert_eq!(source_of(&report), "std::fmt::Debug");
}

#[test]
fn applied_trait_name() {
    let report = unit_enum(read("#[unit_enum(derive(Foo(Bar)))] enum A { X }")).unwrap_err();
    assert_eq!(report.kind, ErrorKind::ConfigTraitNameInvalid);
    assert_eq!(report.message, "expected trait name");
    assert_eq!(source_of(&report), "Foo(Bar)");
}

#[test]
fn trait_name_with_leading_colons() {
    let report = unit_enum(read("#[unit_enum(derive(::Foo))] enum A { X }")).unwrap_err();
    assert_eq!(report.kind, ErrorKind::ConfigTraitNameInvalid);
    assert_eq!(source_of(&report), "::Foo");
}

#[test]
fn literal_and_pair_in_place_of_a_trait_name() {
    let report = unit_enum(read("#[unit_enum(derive(\"Clone\"))] enum A { X }")).unwrap_err();
    assert_eq!(report.kind, ErrorKind::ConfigTraitNameInvalid);
    assert_eq!(source_of(&report), "\"Clone\"");
    let report = unit_enum(read("#[unit_enum(derive(Clone = 1))] enum A { X }")).unwrap_err();
    assert_eq!(report.kind, ErrorKind::ConfigTraitNameInvalid);
    assert_eq!(source_of(&report), "Clone = 1");
}

#[test]
fn first_invalid_trait_name_is_reported() {
    let report = unit_enum(read(
        "#[unit_enum(derive(A, b::B))] #[unit_enum(derive(c::C), derive(D(e)))] enum A { X }",
    ))
    .unwrap_err();
    assert_eq!(report.kind, ErrorKind::ConfigTraitNameInvalid);
    assert_eq!(source_of(&report), "b::B");
}

#[test]
fn name_is_a_number() {
    let report = unit_enum(read("#[unit_enum(name = 42)] enum A { X }")).unwrap_err();
    assert_eq!(report.kind, ErrorKind::ConfigNameNotString);
    assert_eq!(report.message, "expected string literal");
    assert_eq!(report.help, None);
    assert_eq!(source_of(&report), "42");
}

#[test]
fn name_is_another_literal() {
    for literal in ["'c'", "true", "1.5", "b\"bytes\"", "b'x'"] {
        let src = format!("#[unit_enum(name = {})] enum A {{ X }}", literal);
        let report = unit_enum(read(&src)).unwrap_err();
        assert_eq!(report.kind, ErrorKind::ConfigNameNotString, "{}", literal);
        assert_eq!(source_of(&report), literal);
    }
}

#[test]
fn traits_are_resolved_before_the_name() {
    let report =
        unit_enum(read("#[unit_enum(name = 42, derive(a::B))] enum A { X }")).unwrap_err();
    assert_eq!(report.kind, ErrorKind::ConfigTraitNameInvalid);
    assert_eq!(source_of(&report), "a::B");
}

#[test]
fn default_name() {
    let model = analyze(read_enum("enum Shape { Circle(f64), Square { side: f64 } }")).unwrap();
    assert_eq!(model.unit_enum_ident, "ShapeUnit");
    assert_eq!(model.orig_enum_ident, "Shape");
    assert!(model.derives.is_empty());
    let model = analyze(read_enum("#[unit_enum(derive(Clone))] enum Unit { A }")).unwrap();
    assert_eq!(model.unit_enum_ident, "UnitUnit");
}

#[test]
fn configured_name() {
    let model = analyze(read_enum("#[unit_enum(name = \"Kind\")] enum Shape { Circle }")).unwrap();
    assert_eq!(model.unit_enum_ident, "Kind");
    let model = analyze(read_enum("#[unit_enum(name = \"X\")] enum Shape { Circle }")).unwrap();
    assert_eq!(model.unit_enum_ident, "X");
}

#[test]
fn configured_name_is_what_the_literal_denotes() {
    let model =
        analyze(read_enum("#[unit_enum(name = \"K\\u{69}nd\")] enum Shape { Circle }")).unwrap();
    assert_eq!(model.unit_enum_ident, "Kind");
    let model = analyze(read_enum("#[unit_enum(name = r#\"Raw\"#)] enum Shape { Circle }")).unwrap();
    assert_eq!(model.unit_enum_ident, "Raw");
}

#[test]
fn first_name_wins() {
    let model = analyze(read_enum(
        "#[unit_enum(name = \"First\", name = 2)] #[unit_enum(name = \"Third\")] enum A { X }",
    ))
    .unwrap();
    assert_eq!(model.unit_enum_ident, "First");
    let report =
        analyze(read_enum("#[unit_enum(name = 1)] #[unit_enum(name = \"Second\")] enum A { X }"))
            .unwrap_err();
    assert_eq!(report.kind, ErrorKind::ConfigNameNotString);
    assert_eq!(source_of(&report), "1");
}

#[test]
fn derives_in_order_and_as_often_as_written() {
    let model = analyze(read_enum(
        "#[unit_enum(derive(B, A), name = \"N\", derive())]
         #[unit_enum(derive(C, A))]
         enum E { X }",
    ))
    .unwrap();
    assert_eq!(model.derives, ["B", "A", "C", "A"]);
}

#[test]
fn own_derives_of_the_enum_are_not_taken_over() {
    let model = analyze(read_enum(
        "#[derive(Debug, PartialEq)]
         #[unit_enum(derive(Clone))]
         #[derive(Hash)]
         #[other(derive(Eq), name = \"Wrong\")]
         enum E { X }",
    ))
    .unwrap();
    assert_eq!(model.derives, ["Clone"]);
    assert_eq!(model.unit_enum_ident, "EUnit");
}

#[test]
fn marked_attributes_of_another_form_are_passed_over() {
    let model = analyze(read_enum(
        "#[unit_enum]
         #[unit_enum = \"Wrong\"]
         #[unit_enum(name(\"Wrong\"), derive = \"Wrong\", \"literal\", word, a::name = \"Wrong\")]
         #[unit_enum(not a list of entries)]
         #[a::unit_enum(name = \"Wrong\")]
         #[unit_enum(derive(Copy))]
         enum E { X }",
    ))
    .unwrap();
    assert_eq!(model.derives, ["Copy"]);
    assert_eq!(model.unit_enum_ident, "EUnit");
}

#[test]
fn visibility_generics_and_variants_are_taken_over() {
    let model = analyze(read_enum(
        "pub(crate) enum Slot<'a, T: Clone, const N: usize> where T: Copy {
            #[default] Empty = 1,
            Full(&'a T),
            Many { data: [T; N], r#type: u8 },
        }",
    ))
    .unwrap();
    assert_eq!(model.visibility, "pub (crate)");
    assert_eq!(model.orig_enum_generics, "< 'a , T : Clone , const N : usize >");
    assert_eq!(
        model.variants,
        vec![
            VariantDescriptor { ident: "Empty".to_string(), fields: FieldShape::Unit },
            VariantDescriptor { ident: "Full".to_string(), fields: FieldShape::Unnamed(1) },
            VariantDescriptor {
                ident: "Many".to_string(),
                fields: FieldShape::Named(vec!["data".to_string(), "r#type".to_string()]),
            },
        ]
    );
}

#[test]
fn generic_enum_with_visibility() {
    let text = unit_enum(read("pub enum Slot<'a, T> { Empty, Full(&'a T) }")).unwrap();
    let expected = "\
#[derive()]
pub enum SlotUnit {
    Empty,
    Full,
}

impl< 'a , T > From<&Slot< 'a , T >> for SlotUnit {
    fn from(orig: &Slot< 'a , T >) -> Self {
        match orig {
            Slot::Empty => SlotUnit::Empty,
            Slot::Full(..) => SlotUnit::Full,
        }
    }
}
";
    assert_eq!(text, expected);
    assert!(syn::parse_str::<syn::File>(&text).is_ok());
}

#[test]
fn enum_without_variants() {
    let text = unit_enum(read("enum Never {}")).unwrap();
    assert!(text.starts_with("#[derive()]\nenum NeverUnit {\n}\n"));
    assert!(syn::parse_str::<syn::File>(&text).is_ok());
}

#[test]
fn an_enum_written_by_hand() {
    let span = proc_macro2::Span::call_site();
    let bare = |name: &str| Element {
        kind: ElementKind::Path(SimplePath { ident: Some(name.to_string()) }),
        span,
    };
    let item = SourceItem::Enum(EnumDescriptor {
        attrs: vec![
            Attr { path: SimplePath { ident: Some("derive".to_string()) }, entries: None },
            Attr {
                path: SimplePath { ident: Some("unit_enum".to_string()) },
                entries: Some(vec![
                    Entry::Other,
                    Entry::List {
                        path: SimplePath { ident: Some("derive".to_string()) },
                        nested: vec![bare("Clone"), bare("Copy")],
                    },
                    Entry::NameValue {
                        path: SimplePath { ident: Some("name".to_string()) },
                        lit: Literal { kind: LiteralKind::Str("Tag".to_string()), span },
                    },
                    Entry::List { path: SimplePath { ident: None }, nested: vec![bare("Wrong")] },
                ]),
            },
        ],
        vis: "pub".to_string(),
        ident: "Shape".to_string(),
        generics: String::new(),
        variants: vec![VariantDescriptor { ident: "Dot".to_string(), fields: FieldShape::Unit }],
    });
    let model = analyze(parse(item).unwrap()).unwrap();
    assert_eq!(model.unit_enum_ident, "Tag");
    assert_eq!(model.derives, ["Clone", "Copy"]);
    assert_eq!(model.visibility, "pub");
}

#[test]
fn path_is_ident() {
    let derive = SimplePath { ident: Some("derive".to_string()) };
    assert!(derive.is_ident("derive"));
    assert!(!derive.is_ident("deriv"));
    assert!(!derive.is_ident("derives"));
    assert!(!derive.is_ident(""));
    assert!(!SimplePath { ident: None }.is_ident("derive"));
    assert!(!SimplePath { ident: None }.is_ident(""));
}

#[test]
fn reports_by_kind() {
    let span = proc_macro2::Span::call_site();
    let report = Diagnostic::input_not_enum(span);
    assert_eq!(report.kind, ErrorKind::InputNotEnum);
    let report = Diagnostic::trait_name_invalid(span);
    assert_eq!(report.kind, ErrorKind::ConfigTraitNameInvalid);
    assert_eq!(report.message, "expected trait name");
    assert_eq!(report.help, None);
    let report = Diagnostic::name_not_string(span);
    assert_eq!(report.kind, ErrorKind::ConfigNameNotString);
    assert_eq!(report.message, "expected string literal");
    assert_eq!(report.help, None);
}

#[test]
fn config_of_an_enum() {
    let item_enum = read_enum(
        "#[unit_enum(derive(Clone), name = \"Tag\")] #[unit_enum(derive(Copy))] enum E { X }",
    );
    let config = extract_config(&item_enum.attrs).unwrap();
    let expected = ConfigSpec {
        name: Some("Tag".to_string()),
        derives: vec!["Clone".to_string(), "Copy".to_string()],
    };
    assert_eq!(config, expected);
}

#[test]
fn config_of_an_enum_without_attributes() {
    let config = extract_config(&Vec::new()).unwrap();
    assert_eq!(config, ConfigSpec { name: None, derives: vec![] });
    let config = extract_config(&read_enum("#[derive(Debug)] enum E { X }").attrs).unwrap();
    assert_eq!(config, ConfigSpec { name: None, derives: vec![] });
}

#[test]
fn config_at_fault() {
    let attrs = read_enum("#[unit_enum(derive(1))] enum E { X }").attrs;
    assert_eq!(extract_config(&attrs).unwrap_err().kind, ErrorKind::ConfigTraitNameInvalid);
    let attrs = read_enum("#[unit_enum(name = 'n')] enum E { X }").attrs;
    assert_eq!(extract_config(&attrs).unwrap_err().kind, ErrorKind::ConfigNameNotString);
}

#[test]
fn arguments_are_read_of_marked_attributes_only() {
    let item_enum = read_enum(
        "#[derive(Debug)] #[unit_enum(derive(Clone))] #[unit_enum] #[a::unit_enum(x)] enum E { X }",
    );
    assert_eq!(item_enum.attrs.len(), 4);
    assert_eq!(item_enum.attrs[0].path.ident.as_deref(), Some("derive"));
    assert!(item_enum.attrs[0].entries.is_none());
    assert_eq!(item_enum.attrs[1].path.ident.as_deref(), Some("unit_enum"));
    assert_eq!(item_enum.attrs[1].entries.as_ref().map(|entries| entries.len()), Some(1));
    assert_eq!(item_enum.attrs[2].path.ident.as_deref(), Some("unit_enum"));
    assert!(item_enum.attrs[2].entries.is_none());
    assert_eq!(item_enum.attrs[3].path.ident, None);
    assert!(item_enum.attrs[3].entries.is_none());
}

#[test]
fn literals_that_are_not_known_are_turned_down() {
    for src in [
        "enum E { A = c\"x\" }",
        "enum E { A = cr\"x\" }",
        "enum E { A = cr#\"x\"# }",
        "#[unit_enum(name = c\"x\")] enum E { A }",
        "#[unit_enum(derive(Clone), name = \"N\", deep(er(c\"x\")))] enum E { A }",
        "#[other(c\"x\")] enum E { A }",
        "enum E { A = m!(c\"x\") }",
        "enum E { A([u8; { f(&[(c\"x\", 1)]) }]) }",
        "struct S { a: [u8; g(c\"x\")] }",
        "c\"x\"",
    ] {
        let outcome = read_item(src.parse().unwrap());
        assert!(matches!(outcome, Err(ReadError::UnknownLiteral)), "{}", src);
    }
}

#[test]
fn literals_that_are_known_are_read() {
    let item_enum = read_enum(
        "#[unit_enum(name = r#\"Raw\"#, other(\"s\", 'c', b'b', b\"bs\", br\"raw\", 1, 0x1F, 1.5e3, 2_u8))]
         #[doc = \"text\"]
         enum E<const N: usize = 3> {
             A = 0b101,
             B([u8; 0o17]) = -1,
             C { x: [char; m!('x', \"y\", 1e10f64)] },
         }",
    );
    assert_eq!(item_enum.variants.len(), 3);
    assert_eq!(analyze(item_enum).unwrap().unit_enum_ident, "Raw");
}

#[test]
fn known_literals_by_their_first_characters() {
    for text in [
        "\"s\"", "\"\"", "r\"s\"", "r#\"s\"#", "'c'", "b'c'", "b\"s\"", "br\"s\"", "br#\"s\"#", "0",
        "42", "0x1F", "1.5", "1e10", "9u8", "-1", "-1.5f32",
    ] {
        assert!(is_known_literal(text), "{}", text);
    }
    for text in ["c\"s\"", "cr\"s\"", "cr#\"s\"#", "", "b", "bx", "b1", "x", "true", "false", "_", "\u{e9}"] {
        assert!(!is_known_literal(text), "{}", text);
    }
}

#[test]
fn entries_and_elements_as_they_are_read() {
    let item_enum = read_enum(
        "#[unit_enum(name = \"A\\tB\", derive(Clone, a::B, C(d)), word, 7, other = 1.5)]
         enum E { X }",
    );
    let entries = item_enum.attrs[0].entries.as_ref().unwrap();
    assert_eq!(entries.len(), 5);
    match &entries[0] {
        Entry::NameValue { path, lit } => {
            assert_eq!(path.ident.as_deref(), Some("name"));
            assert!(matches!(&lit.kind, LiteralKind::Str(text) if text == "A\tB"));
            assert_eq!(lit.span.source_text().as_deref(), Some("\"A\\tB\""));
        }
        other => panic!("not a key with a literal: {:?}", other),
    }
    match &entries[1] {
        Entry::List { path, nested } => {
            assert_eq!(path.ident.as_deref(), Some("derive"));
            assert_eq!(nested.len(), 3);
            assert!(matches!(&nested[0].kind, ElementKind::Path(p) if p.is_ident("Clone")));
            assert!(matches!(&nested[1].kind, ElementKind::Path(p) if p.ident.is_none()));
            assert!(matches!(&nested[2].kind, ElementKind::Other));
            assert_eq!(nested[1].span.source_text().as_deref(), Some("a::B"));
        }
        other => panic!("not a key with a list: {:?}", other),
    }
    assert!(matches!(&entries[2], Entry::Other));
    assert!(matches!(&entries[3], Entry::Other));
    match &entries[4] {
        Entry::NameValue { path, lit } => {
            assert_eq!(path.ident.as_deref(), Some("other"));
            assert!(matches!(&lit.kind, LiteralKind::Other));
        }
        other => panic!("not a key with a literal: {:?}", other),
    }
}
