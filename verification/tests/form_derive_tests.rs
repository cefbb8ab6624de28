use gpui_form::components::{Components, ComponentsBehaviour};
use gpui_form::form_derive::{
    check_derive_fields, field_validation_rules, plan_form_derive, DeriveField, FieldValidation,
};
use gpui_form::schema::layout::FieldLayout;

fn field(name: &str, component: Option<Components>) -> DeriveField {
    DeriveField {
        name: name.to_string(),
        skip: false,
        component,
        was_optional: false,
        type_text: "String".to_string(),
        type_ident: "String".to_string(),
        override_type_text: None,
        default_text: None,
        layout: FieldLayout::new(),
        has_from: false,
        has_default: false,
        validation: None,
    }
}

fn texts(items: &[&str]) -> Vec<String> {
    items.iter().map(|s| s.to_string()).collect()
}

#[test]
fn struct_without_fields_must_be_marked_empty() {
    assert_eq!(
        check_derive_fields("User", &vec![]),
        Err("Struct `User` has no fields. Add `#[gpui_form(empty)]` attribute to explicitly mark it as an empty form.".to_string())
    );
    assert_eq!(check_derive_fields("User", &vec![field("name", Some(Components::Input))]), Ok(()));
}

#[test]
fn skipped_fields_still_generate_from_original() {
    let mut with_from = field("birth_date", Some(Components::DatePicker));
    with_from.has_from = true;
    with_from.was_optional = true;
    let mut skipped = field("skip_me", None);
    skipped.skip = true;
    let fields = vec![with_from, skipped];
    assert_eq!(check_derive_fields("TestForm", &fields), Ok(()));
    let plan = plan_form_derive(false, &fields);
    assert!(!plan.original_from_holder);
    assert_eq!(plan.skipped_fields, texts(&["skip_me"]));
    let unskipped = plan_form_derive(false, &vec![field("name", Some(Components::Input))]);
    assert!(unskipped.original_from_holder);
    assert!(unskipped.skipped_fields.is_empty());
}

#[test]
fn koruma_enabled_without_validators_derives_validate() {
    let mut note = field("note", Some(Components::Input));
    note.was_optional = true;
    let mut kind = field("kind", Some(Components::NumberInput(
        gpui_form::components::NumberInputOptions::from_word(),
    )));
    kind.was_optional = true;
    let plan = plan_form_derive(true, &vec![note, kind]);
    assert!(plan.koruma_enabled);
    assert!(plan.koruma_derive);
}

#[test]
fn required_rule_goes_first_for_wrapped_fields() {
    let mut name = field("name", Some(Components::Input));
    name.validation = Some(FieldValidation {
        validators: texts(&["LenValidation"]),
        element_validators: 0,
        is_newtype: false,
        is_nested: false,
        attrs: vec![],
    });
    assert_eq!(field_validation_rules(&name), texts(&["RequiredValidation", "LenValidation"]));

    let mut already = name.clone();
    already.validation = Some(FieldValidation {
        validators: texts(&["LenValidation", "RequiredValidation"]),
        element_validators: 0,
        is_newtype: false,
        is_nested: false,
        attrs: vec![],
    });
    assert_eq!(
        field_validation_rules(&already),
        texts(&["LenValidation", "RequiredValidation"])
    );

    let mut optional = name.clone();
    optional.was_optional = true;
    assert_eq!(field_validation_rules(&optional), texts(&["LenValidation"]));
}

#[test]
fn newtype_and_nested_rules_are_appended() {
    let mut f = field("address", Some(Components::Checkbox));
    f.validation = Some(FieldValidation {
        validators: texts(&[]),
        element_validators: 0,
        is_newtype: true,
        is_nested: true,
        attrs: vec![],
    });
    assert_eq!(field_validation_rules(&f), texts(&["NewtypeValidation", "NestedValidation"]));
}

#[test]
fn koruma_switches_on_only_when_needed() {
    let plain = vec![field("name", Some(Components::Input)), field("on", Some(Components::Checkbox))];
    let plan = plan_form_derive(false, &plain);
    assert!(!plan.koruma_enabled);
    assert!(!plan.koruma_derive, "no koruma without the attribute or a validated field");
    assert!(plan.derive_default);
    assert!(plan.fields[0].wrap_in_option);
    assert!(plan.fields[0].requires_required);
    assert!(!plan.fields[1].wrap_in_option);
    assert!(plan.fields[1].in_shape);

    let with_attr = plan_form_derive(true, &plain);
    assert!(with_attr.koruma_enabled);
    assert!(with_attr.koruma_derive);
    assert_eq!(with_attr.fields[0].validation_rules, texts(&["RequiredValidation"]));
}

#[test]
fn recognised_validation_enables_koruma_and_defaults_disable_default_derive() {
    let mut validated = field("age", Some(Components::Checkbox));
    validated.validation = Some(FieldValidation {
        validators: texts(&["RangeValidation"]),
        element_validators: 0,
        is_newtype: false,
        is_nested: false,
        attrs: vec![],
    });
    validated.has_default = true;
    let mut skipped = field("hidden", None);
    skipped.skip = true;
    let plan = plan_form_derive(false, &vec![validated, skipped]);
    assert!(plan.koruma_enabled);
    assert!(plan.koruma_derive);
    assert!(!plan.derive_default);
    assert!(!plan.fields[1].wrap_in_option);
    assert!(!plan.fields[1].in_shape);
    assert!(!plan.fields[1].requires_required);
}

#[test]
fn shape_metadata_follows_override_default_and_component() {
    let mut birth = field("birth_date", Some(Components::DatePicker));
    birth.was_optional = true;
    birth.type_text = "Timestamp".to_string();
    birth.override_type_text = Some("chrono::NaiveDate".to_string());
    let mut name = field("name", Some(Components::Input));
    name.default_text = Some("\"anon\".to_string()".to_string());
    let plan = plan_form_derive(false, &vec![birth, name, field("note", None)]);
    assert_eq!(plan.fields[0].shape_type, "chrono::NaiveDate");
    assert!(plan.fields[0].shape_optional);
    assert_eq!(plan.fields[0].behaviour, Some(ComponentsBehaviour::DatePicker));
    assert_eq!(plan.fields[1].shape_type, "String");
    assert_eq!(plan.fields[1].shape_default, Some("\"anon\".to_string()".to_string()));
    assert_eq!(plan.fields[2].behaviour, None);
    assert!(!plan.fields[2].in_shape);
}

#[test]
fn skip_is_ignored_on_a_field_that_names_a_component() {
    let mut shown = field("nickname", Some(Components::Input));
    shown.skip = true;
    let mut hidden = field("secret", None);
    hidden.skip = true;
    let plan = plan_form_derive(false, &vec![shown, hidden]);
    assert!(plan.fields[0].in_shape);
    assert!(plan.fields[0].wrap_in_option);
    assert!(!plan.fields[1].in_shape);
    assert_eq!(plan.skipped_fields, texts(&["secret"]));
    assert!(!plan.original_from_holder);
}

#[test]
fn layout_hints_reach_the_shape() {
    let mut email = field("email", Some(Components::Input));
    email.layout = FieldLayout::new().with_section(Some("Contact")).with_label(Some("E-mail"));
    let plan = plan_form_derive(false, &vec![email, field("note", None)]);
    let layout = plan.fields[0].shape_layout.expect("a shape field keeps its layout");
    assert_eq!(layout.section, Some("Contact"));
    assert_eq!(layout.label, Some("E-mail"));
    assert_eq!(plan.fields[1].shape_layout, None);
}
