use unit_enum::analyze::{analyze, Model};
use unit_enum::codegen::codegen;
use unit_enum::diagnostic::ErrorKind;
use unit_enum::lower::{lower, Ir, MatchArm, Pattern, Rest, VariantPath};
use unit_enum::parse::parse;
use unit_enum::read::read_item;
use unit_enum::syntax::{EnumDescriptor, FieldShape, SourceItem, VariantDescriptor};

fn tokens(src: &str) -> proc_macro2::TokenStream {
    src.parse().unwrap()
}

fn read_enum(src: &str) -> EnumDescriptor {
    match read_item(tokens(src)) {
        Ok(SourceItem::Enum(item_enum)) => item_enum,
        other => panic!("not an enum: {:?}", other),
    }
}

fn variant(ident: &str, fields: FieldShape) -> VariantDescriptor {
    VariantDescriptor { ident: ident.to_string(), fields }
}

fn arm(orig: &str, unit: &str, ident: &str, rest: Rest) -> MatchArm {
    MatchArm {
        pattern: Pattern {
            path: VariantPath { enum_ident: orig.to_string(), variant_ident: ident.to_string() },
            rest,
        },
        body: VariantPath { enum_ident: unit.to_string(), variant_ident: ident.to_string() },
    }
}

#[test]
fn valid_input() {
    let item = read_item(tokens(
        "#[derive(UnitEnum)]
        enum State {
            On,
            Off,
        }",
    ))
    .unwrap();
    let item_enum = parse(item).unwrap();
    assert_eq!(item_enum.ident, "State");
    assert_eq!(
        item_enum.variants,
        vec![variant("On", FieldShape::Unit), variant("Off", FieldShape::Unit)]
    );
}

#[test]
fn invalid_input() {
    let item = read_item(tokens(
        "#[derive(UnitEnum)]
        struct Vec2 {
            x: i32,
            y: i32,
        }",
    ))
    .unwrap();
    let report = parse(item).unwrap_err();
    assert_eq!(report.kind, ErrorKind::InputNotEnum);
    assert_eq!(report.message, "item is not an enum");
    assert_eq!(report.help.as_deref(), Some("this derivation target must be an enum"));
}

#[test]
fn test_analyze() {
    let item_enum = read_enum(
        "#[unit_enum(name = \"AllUnit\", derive(PartialEq))]
        enum _All<T> {
            Unit,
            Tuple(bool, i32),
            Struct { x: T, y: T },
        }",
    );

    let actual = analyze(item_enum).unwrap();

    let variants = vec![
        variant("Unit", FieldShape::Unit),
        variant("Tuple", FieldShape::Unnamed(2)),
        variant("Struct", FieldShape::Named(vec!["x".to_string(), "y".to_string()])),
    ];

    let expected = Model {
        visibility: String::new(),
        variants,
        derives: vec!["PartialEq".to_string()],
        orig_enum_ident: "_All".to_string(),
        orig_enum_generics: "< T >".to_string(),
        unit_enum_ident: "AllUnit".to_string(),
    };

    assert_eq!(actual, expected);
}

#[test]
fn test_lower() {
    let variants = vec![
        variant("Unit", FieldShape::Unit),
        variant("Tuple", FieldShape::Unnamed(2)),
        variant("Struct", FieldShape::Named(vec!["x".to_string(), "y".to_string()])),
    ];

    let model = Model {
        visibility: "pub".to_string(),
        variants,
        derives: vec!["PartialEq".to_string()],
        orig_enum_ident: "All".to_string(),
        orig_enum_generics: "<T>".to_string(),
        unit_enum_ident: "AllUnit".to_string(),
    };

    let actual = lower(model);

    let expected = Ir {
        visibility: "pub".to_string(),
        orig_enum_ident: "All".to_string(),
        orig_enum_generics: "<T>".to_string(),
        variants: vec!["Unit".to_string(), "Tuple".to_string(), "Struct".to_string()],
        derives: vec!["PartialEq".to_string()],
        unit_enum_ident: "AllUnit".to_string(),
        variant_arms: vec![
            arm("All", "AllUnit", "Unit", Rest::Unit),
            arm("All", "AllUnit", "Tuple", Rest::Tuple),
            arm("All", "AllUnit", "Struct", Rest::Struct),
        ],
    };

    assert_eq!(actual, expected);
}

#[test]
fn test_codegen() {
    let ir = Ir {
        visibility: "pub".to_string(),
        orig_enum_ident: "State".to_string(),
        orig_enum_generics: "<>".to_string(),
        unit_enum_ident: "StateUnit".to_string(),
        variants: vec!["On".to_string(), "Off".to_string()],
        derives: vec!["PartialEq".to_string()],
        variant_arms: vec![
            arm("State", "StateUnit", "On", Rest::Unit),
            arm("State", "StateUnit", "Off", Rest::Unit),
        ],
    };
    let rust = codegen(ir);

    assert!(syn::parse_str::<syn::File>(&rust).is_ok());
}

#[test]
fn codegen_writes_the_documented_text() {
    let ir = Ir {
        visibility: "pub".to_string(),
        orig_enum_ident: "State".to_string(),
        orig_enum_generics: String::new(),
        unit_enum_ident: "StateUnit".to_string(),
        variants: vec!["On".to_string(), "Off".to_string()],
        derives: vec!["PartialEq".to_string(), "Eq".to_string(), "Debug".to_string()],
        variant_arms: vec![
            arm("State", "StateUnit", "On", Rest::Tuple),
            arm("State", "StateUnit", "Off", Rest::Struct),
        ],
    };
    let expected = "\
#[derive(PartialEq, Eq, Debug)]
pub enum StateUnit {
    On,
    Off,
}

impl From<&State> for StateUnit {
    fn from(orig: &State) -> Self {
        match orig {
            State::On(..) => StateUnit::On,
            State::Off { .. } => StateUnit::Off,
        }
    }
}
";
    assert_eq!(codegen(ir), expected);
}

#[test]
fn codegen_of_nothing_to_derive_and_no_variants() {
    let ir = Ir {
        visibility: String::new(),
        orig_enum_ident: "Never".to_string(),
        orig_enum_generics: String::new(),
        unit_enum_ident: "NeverUnit".to_string(),
        variants: vec![],
        derives: vec![],
        variant_arms: vec![],
    };
    let expected = "\
#[derive()]
enum NeverUnit {
}

impl From<&Never> for NeverUnit {
    fn from(orig: &Never) -> Self {
        match orig {
        }
    }
}
";
    let text = codegen(ir);
    assert_eq!(text, expected);
    assert!(syn::parse_str::<syn::File>(&text).is_ok());
}

#[test]
fn codegen_joins_one_and_two_traits() {
    let ir = |derives: Vec<String>| Ir {
        visibility: String::new(),
        orig_enum_ident: "A".to_string(),
        orig_enum_generics: String::new(),
        unit_enum_ident: "B".to_string(),
        variants: vec![],
        derives,
        variant_arms: vec![],
    };
    assert!(codegen(ir(vec!["Clone".to_string()])).starts_with("#[derive(Clone)]\nenum B {\n"));
    assert!(codegen(ir(vec!["Clone".to_string(), "Copy".to_string()]))
        .starts_with("#[derive(Clone, Copy)]\nenum B {\n"));
}

#[test]
fn lower_of_no_variants() {
    let model = Model {
        visibility: String::new(),
        variants: vec![],
        derives: vec![],
        orig_enum_ident: "Never".to_string(),
        orig_enum_generics: String::new(),
        unit_enum_ident: "NeverUnit".to_string(),
    };
    let ir = lower(model);
    assert!(ir.variants.is_empty());
    assert!(ir.variant_arms.is_empty());
    assert_eq!(ir.unit_enum_ident, "NeverUnit");
}

#[test]
fn lower_keeps_count_and_order() {
    let idents = ["C", "A", "B", "A2"];
    let model = Model {
        visibility: String::new(),
        variants: idents.iter().map(|i| variant(i, FieldShape::Unnamed(1))).collect(),
        derives: vec!["Z".to_string(), "Y".to_string(), "Z".to_string()],
        orig_enum_ident: "O".to_string(),
        orig_enum_generics: String::new(),
        unit_enum_ident: "U".to_string(),
    };
    let ir = lower(model);
    assert_eq!(ir.variants, idents);
    assert_eq!(ir.variant_arms.len(), idents.len());
    for (k, ident) in idents.iter().enumerate() {
        assert_eq!(ir.variant_arms[k], arm("O", "U", ident, Rest::Tuple));
    }
    assert_eq!(ir.derives, ["Z", "Y", "Z"]);
}
