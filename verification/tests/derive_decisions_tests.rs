use gpui_form::infinite_select_derive::{
    all_unit, decimal_text, fluent_texts, tree_variants, FieldsStyle, FluentTexts, VariantDecl,
    VariantInfo,
};
use gpui_form::infinite_select_source::infinite_select_impl_source;
use gpui_form::options::{KorumaField, KorumaOptions};

fn decl(name: &str, style: FieldsStyle, count: usize, field: Option<&str>, skip: bool) -> VariantDecl {
    VariantDecl {
        name: name.to_string(),
        style,
        field_count: count,
        first_field_name: field.map(|f| f.to_string()),
        inner_type: if count == 1 { format!("{}Inner", name) } else { String::new() },
        skip,
    }
}

#[test]
fn decimal_text_writes_numbers() {
    assert_eq!(decimal_text(0), "0");
    assert_eq!(decimal_text(7), "7");
    assert_eq!(decimal_text(10), "10");
    assert_eq!(decimal_text(1234567), "1234567");
}

#[test]
fn variants_are_classified_and_skips_dropped() {
    let decls = vec![
        decl("Docs", FieldsStyle::Unit, 0, None, false),
        decl("Web", FieldsStyle::Tuple, 1, None, false),
        decl("Hidden", FieldsStyle::Tuple, 3, None, true),
        decl("Usa", FieldsStyle::Struct, 1, Some("state"), false),
        decl("Empty", FieldsStyle::Struct, 0, None, false),
    ];
    let infos = tree_variants(&decls).expect("all kept variants are supported");
    assert_eq!(
        infos,
        vec![
            VariantInfo { index: 0, is_unit: true, field_name: None },
            VariantInfo { index: 1, is_unit: false, field_name: None },
            VariantInfo { index: 3, is_unit: false, field_name: Some("state".to_string()) },
            VariantInfo { index: 4, is_unit: true, field_name: None },
        ]
    );
    assert!(!all_unit(&infos));
}

#[test]
fn multi_field_variants_are_refused_with_message() {
    let tuple = vec![decl("Pair", FieldsStyle::Tuple, 2, None, false)];
    assert_eq!(
        tree_variants(&tuple).err(),
        Some(
            "InfiniteSelect only supports single-element tuple variants for tree construction, got 2 elements in variant `Pair`"
                .to_string()
        )
    );
    let record = vec![
        decl("Ok", FieldsStyle::Unit, 0, None, false),
        decl("Point", FieldsStyle::Struct, 12, Some("x"), false),
        decl("Later", FieldsStyle::Tuple, 5, None, false),
    ];
    assert_eq!(
        tree_variants(&record).err(),
        Some(
            "InfiniteSelect only supports single-field struct variants for tree construction, got 12 fields in variant `Point`"
                .to_string()
        )
    );
}

#[test]
fn unit_only_enums_are_all_unit() {
    let decls = vec![
        decl("A", FieldsStyle::Unit, 0, None, false),
        decl("B", FieldsStyle::Unit, 0, None, false),
    ];
    assert!(all_unit(&tree_variants(&decls).unwrap()));
}

#[test]
fn fluent_texts_need_key_and_keys_this() {
    let keys = vec!["label".to_string(), "other".to_string()];
    let texts = fluent_texts(&keys, true);
    assert!(texts.label_from_fluent);
    assert!(!texts.description_from_fluent);
    let texts = fluent_texts(&keys, false);
    assert!(!texts.label_from_fluent);
    let both = vec!["description".to_string(), "label".to_string()];
    assert!(fluent_texts(&both, true).description_from_fluent);
}

#[test]
fn koruma_word_uses_defaults() {
    assert!(!KorumaField::from_word().0.fluent);
    assert!(KorumaField::from_options(KorumaOptions { fluent: true }).0.fluent);
    assert!(!KorumaOptions::default().fluent);
}

fn compact(s: &str) -> String {
    s.chars().filter(|c| !c.is_whitespace()).collect()
}

#[test]
fn infinite_select_impl_is_valid_rust_with_one_arm_per_variant() {
    let decls = vec![
        decl("Docs", FieldsStyle::Unit, 0, None, false),
        decl("Web", FieldsStyle::Tuple, 1, None, false),
        decl("Hidden", FieldsStyle::Tuple, 3, None, true),
        decl("Usa", FieldsStyle::Struct, 1, Some("state"), false),
    ];
    let texts = FluentTexts { label_from_fluent: false, description_from_fluent: false };
    let source = infinite_select_impl_source("Region", &decls, texts).expect("variants are supported");
    let item: syn::ItemImpl = syn::parse_str(&source).expect("the impl parses");
    assert_eq!(item.items.len(), 17);
    let c = compact(&source);
    assert!(c.contains("implgpui_form_component::infinite_select::InfiniteSelectforRegion{"));
    assert!(c.contains("Self::Docs=>\"Docs\","));
    assert!(c.contains("Self::Usa{state:inner}=>inner.has_inner(),"));
    assert!(c.contains("Self::Web(_)=>true,"));
    assert!(c.contains("1+[<WebInneras"));
    assert!(!c.contains("Hidden"));
    assert!(c.contains("stringify!(Region).into()"));
}

#[test]
fn infinite_select_impl_refuses_a_variant_with_several_fields() {
    let decls = vec![decl("Pair", FieldsStyle::Tuple, 2, None, false)];
    let texts = FluentTexts { label_from_fluent: true, description_from_fluent: true };
    let err = infinite_select_impl_source("Region", &decls, texts).unwrap_err();
    assert_eq!(err, tree_variants(&decls).unwrap_err());
}

#[test]
fn infinite_select_impl_of_leaves_only_has_depth_one() {
    let decls = vec![decl("A", FieldsStyle::Unit, 0, None, false)];
    let texts = FluentTexts { label_from_fluent: true, description_from_fluent: false };
    let source = infinite_select_impl_source("Leaf", &decls, texts).unwrap();
    let c = compact(&source);
    assert!(c.contains("fndepth()->usize{1}"));
    assert!(c.contains("LeafLabelVariants::this_ftl().into()"));
    assert!(c.contains("stringify!(Leaf).into()"));
    let _: syn::ItemImpl = syn::parse_str(&source).unwrap();
}
