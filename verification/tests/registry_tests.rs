use gpui_form::components::{
    BehaviourInfiniteSelectOptions, BehaviourSelectOptions, Components, InitialSelection,
    ComponentsBehaviour as CoreBehaviour, InfiniteSelectOptions, MetaItem, NumberInputOptions,
    SelectOptions,
};
use gpui_form::registry::{FieldVariant, GpuiFormShape};
use gpui_form::schema::components::{
    ComponentsBehaviour, InfiniteSelectBehaviour, NumberInputBehaviour, NumberInputKind,
    SelectBehaviour,
};

#[test]
fn field_names_follow_behaviour() {
    let field = FieldVariant::new(
        "max_age",
        "u8",
        false,
        ComponentsBehaviour::NumberInput(NumberInputBehaviour {
            validation_type: None,
            kind: NumberInputKind::UnsignedInteger,
        }),
    );
    assert_eq!(field.behaviour_suffix(), "number_input");
    assert_eq!(field.field_name_with_behaviour(), "max_age_number_input");
    assert_eq!(field.field_name_pascal(), "MaxAge");
    assert_eq!(field.kebab_id(), "max-age-number-input");
}

#[test]
fn validation_paths_keep_parseable_paths_in_order() {
    let rules: &'static [&'static str] = &["koruma::Required", "not a path", "crate::Len"];
    let field = FieldVariant::new("name", "String", false, ComponentsBehaviour::Input)
        .with_validations(rules);
    assert_eq!(field.validation_rules(), rules);
    assert_eq!(field.validation_paths(), vec!["koruma::Required", "crate::Len"]);
    assert_eq!(field.first_validation_path(), Some("koruma::Required"));
    let none = FieldVariant::new("name", "String", false, ComponentsBehaviour::Input);
    assert_eq!(none.first_validation_path(), None);
}

#[test]
fn shape_reports_validations_and_flags() {
    let rules: &'static [&'static str] = &["koruma::Required"];
    let fields: &'static [FieldVariant] = Box::leak(
        vec![
            FieldVariant::new("a", "String", false, ComponentsBehaviour::Input),
            FieldVariant::new("b", "String", false, ComponentsBehaviour::Input).with_validations(rules),
        ]
        .into_boxed_slice(),
    );
    let shape = GpuiFormShape::new("Demo", fields, "x/src/demo.rs", true);
    assert!(shape.has_validations());
    assert!(shape.has_koruma());
    assert!(!shape.has_skipped_fields());
    assert!(shape.with_skipped_fields(true).has_skipped_fields());
    let plain = GpuiFormShape::new("Demo", &[], "x/src/demo.rs", false);
    assert!(!plain.has_validations());
}

#[test]
fn core_behaviour_names() {
    assert_eq!(CoreBehaviour::DatePicker.variant_name(), "date_picker");
    assert_eq!(CoreBehaviour::DatePicker.component_ident_name(), "DatePicker");
    assert!(CoreBehaviour::Switch.is_value_only_field());
    assert!(!CoreBehaviour::Input.is_value_only_field());
    let select = CoreBehaviour::Select(BehaviourSelectOptions { partial: true, searchable: false });
    assert!(select.partial());
    assert!(select.subscribable());
}

#[test]
fn select_options_default_handling() {
    let options = SelectOptions::from_behaviour(BehaviourSelectOptions::default());
    assert!(options.use_enum_default());
    let named = options.with_field_default(Some("Second".to_string()));
    assert_eq!(named.named_index(), Some(&"Second".to_string()));
    assert!(!named.use_enum_default());
}

#[test]
fn number_input_as_type_is_last_as_entry() {
    let items = vec![
        MetaItem::NameValue { name: "as".to_string(), ident_value: Some("f64".to_string()) },
        MetaItem::Other,
        MetaItem::NameValue { name: "step".to_string(), ident_value: Some("one".to_string()) },
        MetaItem::NameValue { name: "as".to_string(), ident_value: Some("u32".to_string()) },
        MetaItem::NameValue { name: "as".to_string(), ident_value: None },
    ];
    assert_eq!(NumberInputOptions::from_list(&items).as_type, Some("u32".to_string()));
    assert_eq!(NumberInputOptions::from_list(&vec![MetaItem::Other]).as_type, None);
    assert_eq!(NumberInputOptions::from_word().as_type, None);
}

#[test]
fn components_record_their_behaviour() {
    let select = Components::Select(SelectOptions::from_behaviour(BehaviourSelectOptions {
        partial: false,
        searchable: true,
    }));
    assert_eq!(
        select.behaviour(),
        CoreBehaviour::Select(BehaviourSelectOptions { partial: false, searchable: true })
    );
    let cascading = Components::InfiniteSelect(InfiniteSelectOptions::from_behaviour(
        BehaviourInfiniteSelectOptions { searchable: false, max_depth: Some(2) },
    ));
    assert_eq!(
        cascading.behaviour(),
        CoreBehaviour::InfiniteSelect(BehaviourInfiniteSelectOptions {
            searchable: false,
            max_depth: Some(2),
        })
    );
    assert!(Components::Input.wraps_in_option());
    assert!(!Components::DatePicker.wraps_in_option());
    assert_eq!(Components::DatePicker.behaviour(), CoreBehaviour::DatePicker);
}

#[test]
fn focusable_behaviours_are_subscribable() {
    let all = [
        ComponentsBehaviour::Input,
        ComponentsBehaviour::NumberInput(NumberInputBehaviour {
            validation_type: None,
            kind: NumberInputKind::Float,
        }),
        ComponentsBehaviour::Checkbox,
        ComponentsBehaviour::Switch,
        ComponentsBehaviour::Select(SelectBehaviour { partial: false, searchable: false }),
        ComponentsBehaviour::InfiniteSelect(InfiniteSelectBehaviour {
            searchable: false,
            max_depth: None,
        }),
        ComponentsBehaviour::Custom,
        ComponentsBehaviour::DatePicker,
    ];
    for b in all {
        if b.focusable() {
            assert!(b.subscribable());
        }
    }
    assert!(ComponentsBehaviour::DatePicker.subscribable());
    assert!(!ComponentsBehaviour::DatePicker.focusable());
    assert_eq!(ComponentsBehaviour::Custom.component_name(), "custom");
}

#[test]
fn select_initial_selection_and_constructor() {
    let options = SelectOptions::from_behaviour(BehaviourSelectOptions { partial: true, searchable: false });
    assert_eq!(options.initial_selection(), InitialSelection::EnumDefault);
    assert!(!options.emits_state_constructor());
    let named = options.with_field_default(Some("Country::France".to_string()));
    assert_eq!(named.initial_selection(), InitialSelection::FieldDefault("Country::France".to_string()));
    let cascading = InfiniteSelectOptions::from_behaviour(BehaviourInfiniteSelectOptions::default());
    assert_eq!(cascading.initial_selection(), InitialSelection::EnumDefault);
}

#[test]
fn number_text_check_uses_as_type_first() {
    let plain = NumberInputOptions::from_word();
    let check = plain.text_check("u32");
    assert!(!check.signed);
    assert!(!check.pattern_only);
    assert!(plain.text_check("f64").signed);
    let with_as = NumberInputOptions::from_list(&vec![MetaItem::NameValue {
        name: "as".to_string(),
        ident_value: Some("i64".to_string()),
    }]);
    let check = with_as.text_check("Decimal");
    assert!(check.signed);
    assert!(check.pattern_only);
}
