use gpui_form::codegen::number_input_step_kind;
use gpui_form::component_source::{
    component_field_source, InfiniteSelectComponent, NumberInputComponent, SelectComponent,
    TupleSelectComponent,
};
use gpui_form::components::{
    BehaviourInfiniteSelectOptions, BehaviourSelectOptions, Components, FieldInformation,
    InfiniteSelectOptions, NumberInputOptions, SelectOptions,
};
use gpui_form::form_derive::{DeriveField, FieldValidation, ValidatorAttr};
use gpui_form::holder_source::{holder_field_attrs_source, validator_source, value_holder_source};
use gpui_form::registry::{FieldVariant, GpuiFormShape};
use gpui_form::scaffold_source::{
    component_entity_field_source, description_fn_source, entity_creation_source, entity_field_initializer_source,
    entity_focus_source, number_input_subscription_source,
};
use gpui_form::schema::components::{ComponentsBehaviour, NumberInputBehaviour, NumberInputKind};
use gpui_form::schema::layout::{FieldLayout, LayoutWidth};
use gpui_form::form_source::{
    components_source, expand_gpui_form_source, items_errors_source, shape_registration_source,
};

fn compact(input: &str) -> String {
    input.chars().filter(|c| !c.is_whitespace()).collect()
}

fn leak(fields: Vec<FieldVariant>) -> &'static [FieldVariant] {
    Box::leak(fields.into_boxed_slice())
}

fn number_field(name: &'static str, ty: &'static str, kind: NumberInputKind, as_type: Option<&'static str>) -> FieldVariant {
    FieldVariant::new(
        name,
        ty,
        false,
        ComponentsBehaviour::NumberInput(NumberInputBehaviour { kind, validation_type: as_type }),
    )
}

fn parses_as_methods(methods: &[String]) -> bool {
    syn::parse_str::<syn::ItemImpl>(&format!("impl Demo {{ {} }}", methods.join("\n"))).is_ok()
}

fn derive_field(name: &str, component: Option<Components>) -> DeriveField {
    DeriveField {
        name: name.to_string(),
        skip: false,
        component,
        was_optional: false,
        type_text: "String".to_string(),
        type_ident: "String".to_string(),
        override_type_text: None,
        default_text: None,
        layout: FieldLayout::new(),
        has_from: false,
        has_default: false,
        validation: None,
    }
}

#[test]
fn number_input_generator_emits_match_based_change_handler() {
    let field = number_field("age", "u32", NumberInputKind::UnsignedInteger, None);
    let generated = number_input_subscription_source(&field);
    let compact = compact(&generated.handlers[0]);
    assert!(compact.contains("matchevent{InputEvent::Change=>"), "{compact}");
    assert!(compact.contains("_=>{}"), "{compact}");
    assert!(!compact.contains("ifletInputEvent::Change=event"), "{compact}");
}

#[test]
fn number_input_as_float_keeps_custom_value_step_logic() {
    let field = number_field("balance", "rust_decimal::Decimal", NumberInputKind::Float, Some("f64"));
    let generated = number_input_subscription_source(&field);
    let compact = compact(&generated.handlers[1]);
    assert_eq!(number_input_step_kind(field.field_type), NumberInputKind::Custom);
    assert!(
        compact.contains("saturating_sub(1u8.into())") && compact.contains("saturating_add(1u8.into())"),
        "{compact}"
    );
    assert!(!compact.contains("-1.0") && !compact.contains("+1.0"), "{compact}");
}

#[test]
fn number_input_subscriptions_name_both_handlers_and_parse() {
    let field = number_field("age", "u32", NumberInputKind::UnsignedInteger, None);
    let generated = number_input_subscription_source(&field);
    assert_eq!(
        generated.calls,
        vec![
            "cx.subscribe_in(&age_number_input, window, Self::on_age_input_event)".to_string(),
            "cx.subscribe_in(&age_number_input, window, Self::on_age_number_input_event)".to_string(),
        ]
    );
    for call in &generated.calls {
        assert!(syn::parse_str::<syn::Expr>(call).is_ok(), "{call}");
    }
    assert!(parses_as_methods(&generated.handlers));
    let step = compact(&generated.handlers[1]);
    assert!(step.contains("fnon_age_number_input_event("));
    assert!(step.contains(".unwrap_or_default().saturating_sub(1);"));
    assert!(!step.contains("text.parse::<u32>()"));
    assert!(compact(&generated.handlers[0]).contains("self.current_data.age=text.parse::<u32>().ok();"));
}

#[test]
fn float_number_input_steps_by_one() {
    let field = number_field("ratio", "f32", NumberInputKind::Float, None);
    let step = compact(&number_input_subscription_source(&field).handlers[1]);
    assert!(step.contains("unwrap_or_default()-1.0;"));
    assert!(step.contains("unwrap_or_default()+1.0;"));
}

#[test]
fn description_uses_direct_all_for_non_optional_newtype_errors() {
    let fields = leak(vec![FieldVariant::new("index", "Age", false, ComponentsBehaviour::Input)
        .with_validations(&["NewtypeValidation"])]);
    let shape = GpuiFormShape::new("Demo", fields, "src/demo.rs", true);
    let compact = compact(&description_fn_source(&fields[0], &shape));
    assert!(compact.contains("leterrs=e.index().all();"), "{compact}");
    assert!(!compact.contains("e.index().and_then(|inner_error|"), "{compact}");
}

#[test]
fn description_unwraps_optional_newtype_inner_errors_before_all() {
    let fields = leak(vec![FieldVariant::new("age", "Age", true, ComponentsBehaviour::Input)
        .with_validations(&["NewtypeValidation"])]);
    let shape = GpuiFormShape::new("Demo", fields, "src/demo.rs", true);
    let compact = compact(&description_fn_source(&fields[0], &shape));
    assert!(
        compact.contains(
            "validation_errors.as_ref().and_then(|e|e.age()).map(|inner_error|inner_error.all()).filter(|errs|!errs.is_empty()).map(|errs|{"
        ),
        "{compact}"
    );
}

#[test]
fn description_unwraps_optional_nested_inner_errors_before_all() {
    let fields = leak(vec![FieldVariant::new("address", "Address", true, ComponentsBehaviour::Input)
        .with_validations(&["NestedValidation"])]);
    let shape = GpuiFormShape::new("Demo", fields, "src/demo.rs", true);
    let compact = compact(&description_fn_source(&fields[0], &shape));
    assert!(
        compact.contains(
            "validation_errors.as_ref().and_then(|e|e.address()).map(|inner_error|inner_error.all()).filter(|errs|!errs.is_empty()).map(|errs|{"
        ),
        "{compact}"
    );
}

#[test]
fn description_without_koruma_shows_only_the_text() {
    let fields = leak(vec![FieldVariant::new("age", "u8", false, ComponentsBehaviour::Input)
        .with_validations(&["RangeValidation"])
        .with_layout(FieldLayout::new().with_description(Some("Your age")))]);
    let shape = GpuiFormShape::new("Demo", fields, "src/demo.rs", false);
    let source = description_fn_source(&fields[0], &shape);
    assert_eq!(
        source,
        ".description_fn({\nlet description = \"Your age\";\nmove |_, _| {\ndiv()\n.flex()\n.flex_col()\n.gap_1()\n.child(div().child(description.clone()))\n}\n})"
    );
    assert!(syn::parse_str::<syn::Expr>(&format!("field(){}", source)).is_ok());
    let with_errors = description_fn_source(&fields[0], &GpuiFormShape::new("Demo", fields, "src/demo.rs", true));
    assert!(compact(&with_errors).contains("leterror_color=cx.theme().danger;"));
    assert!(syn::parse_str::<syn::Expr>(&format!("field(){}", with_errors)).is_ok());
}

#[test]
fn number_input_component_checks_unsigned_text_and_parses() {
    let component = NumberInputComponent(FieldInformation::new(
        NumberInputOptions { as_type: None },
        "age".to_string(),
        "u32".to_string(),
    ));
    let source = component.field_source();
    assert_eq!(source.structure, "pub age: ::gpui::Entity<::gpui_component::input::InputState>,\n");
    let c = compact(&source.declarations);
    assert!(c.contains("pubfnage(window:&mut::gpui::Window,"));
    assert!(c.contains("if!chars.iter().all(|&c|c.is_ascii_digit())"));
    assert!(c.contains("value.parse::<u32>().is_ok()"));
    assert!(!c.contains("chars[0]!='-'"));
    assert!(syn::parse_str::<syn::ItemStruct>(&format!("struct S {{ {} }}", source.structure)).is_ok());
    assert!(syn::parse_str::<syn::ItemImpl>(&format!("impl S {{ {} }}", source.declarations)).is_ok());
}

#[test]
fn number_input_component_with_as_type_checks_pattern_only() {
    let component = NumberInputComponent(FieldInformation::new(
        NumberInputOptions { as_type: Some("f64".to_string()) },
        "amount".to_string(),
        "Decimal".to_string(),
    ));
    let c = compact(&component.field_source().declarations);
    assert!(c.contains("chars[0]!='-'"), "signed from the `as` type: {c}");
    assert!(c.contains("true})"));
    assert!(!c.contains("value.parse::<"));
}

#[test]
fn select_component_binds_a_path_default_and_skips_partial_builders() {
    let options = SelectOptions::from_behaviour(BehaviourSelectOptions { partial: false, searchable: true })
        .with_field_default(Some("Country::France".to_string()));
    let source = SelectComponent(FieldInformation::new(options, "country".to_string(), "Country".to_string()))
        .field_source();
    let c = compact(&source.declarations);
    assert!(c.contains("let__gpui_form_default=Country::France;"));
    assert!(c.contains(".position(|x|x==__gpui_form_default)"));
    assert!(c.contains("::gpui_component::select::SearchableVec<Country>"));
    assert!(syn::parse_str::<syn::ItemImpl>(&format!("impl S {{ {} }}", source.declarations)).is_ok());

    let partial = SelectOptions::from_behaviour(BehaviourSelectOptions { partial: true, searchable: false });
    let source = SelectComponent(FieldInformation::new(partial, "country".to_string(), "Country".to_string()))
        .field_source();
    assert_eq!(source.declarations, "");
    assert_eq!(
        source.structure,
        "pub country: ::gpui::Entity<::gpui_component::select::SelectState<Vec<Country>>>,\n"
    );
}

#[test]
fn infinite_select_component_honours_default_and_max_depth() {
    let options = InfiniteSelectOptions::from_behaviour(BehaviourInfiniteSelectOptions {
        searchable: false,
        max_depth: Some(2),
    })
    .with_field_default(Some("Region::Europe".to_string()));
    let source = InfiniteSelectComponent(FieldInformation::new(options, "location".to_string(), "Region".to_string()))
        .field_source();
    let c = compact(&source.declarations);
    assert!(c.contains("let__gpui_form_default=Region::Europe;"));
    assert!(c.contains("::core::cmp::min(<RegionasInfiniteSelect>::depth(),2usize)"));
    assert!(c.contains("pubfnlocation_child_selects<V>("));
    assert!(compact(&source.structure).contains("publocation_path:::gpui_form::infinite_select::InfiniteSelectPath,"));
    assert!(syn::parse_str::<syn::ItemStruct>(&format!("struct S {{ {} }}", source.structure)).is_ok());
    assert!(syn::parse_str::<syn::ItemImpl>(&format!("impl S {{ {} }}", source.declarations)).is_ok());
}

#[test]
fn tuple_select_component_without_index_starts_unselected() {
    let component = TupleSelectComponent {
        name: "place".to_string(),
        field_type: "Place".to_string(),
        searchable: false,
        named_index: None,
        index_default: false,
    };
    let source = component.field_source();
    let c = compact(&source.declarations);
    assert!(c.contains("SelectState::new(items.into(),None,window,cx)"));
    assert!(c.contains("letmax_depth=<PlaceasTupleEnumInner>::depth();"));
    assert!(syn::parse_str::<syn::ItemImpl>(&format!("impl S {{ {} }}", source.declarations)).is_ok());
}

#[test]
fn component_field_source_dispatches_on_the_component() {
    let mut country = derive_field("country", Some(Components::Select(SelectOptions::from_behaviour(
        BehaviourSelectOptions { partial: false, searchable: false },
    ))));
    country.default_text = Some("crate::defaults::country()".to_string());
    let content = component_field_source(&country, "Country");
    assert_eq!(content.field_name, "country");
    assert!(!content.wrap_in_option);
    let c = compact(&content.source.expect("selects have a template").declarations);
    assert!(c.contains("x==Country::default()"), "a call is no path default: {c}");

    let none = component_field_source(&derive_field("note", None), "String");
    let empty = none.source.expect("no component, no items");
    assert_eq!(empty.structure, "");
    assert_eq!(empty.declarations, "");

    let input = component_field_source(&derive_field("name", Some(Components::Input)), "String");
    assert!(input.wrap_in_option);
    assert!(input.source.is_none());
}

#[test]
fn validators_render_with_type_and_arguments() {
    let v = ValidatorAttr {
        path: "RangeValidation".to_string(),
        infer_type: false,
        explicit_type: Some("u8".to_string()),
        args: vec![("min".to_string(), "1".to_string()), ("max".to_string(), "9".to_string())],
    };
    assert_eq!(validator_source(&v), "RangeValidation::<u8>(min = 1, max = 9)");
    let inferred = ValidatorAttr { path: "LenValidation".to_string(), infer_type: true, explicit_type: None, args: vec![] };
    assert_eq!(validator_source(&inferred), "LenValidation::<_>");
}

#[test]
fn holder_attributes_put_required_first() {
    let mut name = derive_field("name", Some(Components::Input));
    let v = ValidatorAttr { path: "LenValidation".to_string(), infer_type: true, explicit_type: None, args: vec![] };
    name.validation = Some(FieldValidation {
        validators: vec!["LenValidation".to_string()],
        element_validators: 0,
        is_newtype: false,
        is_nested: false,
        attrs: vec![v],
    });
    let attrs = holder_field_attrs_source(&name, true);
    assert_eq!(
        attrs,
        vec!["#[koruma(koruma_collection::general::RequiredValidation::<Option<_>>, LenValidation::<_>)]".to_string()]
    );
    for a in &attrs {
        assert!(syn::parse_str::<syn::ItemStruct>(&format!("{} struct S;", a)).is_ok());
    }
    assert!(holder_field_attrs_source(&name, false).is_empty());

    let mut address = derive_field("address", Some(Components::Checkbox));
    address.validation = Some(FieldValidation {
        validators: vec![],
        element_validators: 0,
        is_newtype: true,
        is_nested: true,
        attrs: vec![],
    });
    assert_eq!(
        holder_field_attrs_source(&address, true),
        vec!["#[koruma(newtype)]".to_string(), "#[koruma(nested)]".to_string()]
    );
}

#[test]
fn value_holder_wraps_text_inputs_and_converts_both_ways() {
    let mut name = derive_field("name", Some(Components::Input));
    name.default_text = Some("\"anon\".to_string()".to_string());
    let mut note = derive_field("note", Some(Components::Input));
    note.was_optional = true;
    let mut secret = derive_field("secret", None);
    secret.skip = true;
    secret.type_text = "u64".to_string();
    let fields = vec![name, note, derive_field("on", Some(Components::Checkbox)), secret];
    let source = value_holder_source("User", false, &fields, true, false);
    assert_eq!(
        source,
        "#[derive(Clone, Debug, ::koruma::Koruma)]\npub struct UserFormValueHolder {\n\
#[koruma(koruma_collection::general::RequiredValidation::<Option<_>>)]\n\
pub name: Option<String>,\npub note: Option<String>,\npub on: String,\npub secret: u64,\n}\n\
impl Default for UserFormValueHolder {\nfn default() -> Self {\nSelf {\n\
name: None,\nnote: None,\non: Default::default(),\nsecret: Default::default(),\n}\n}\n}\n\
impl From<User> for UserFormValueHolder {\nfn from(from: User) -> Self {\nSelf {\n\
name: if from.name == \"anon\".to_string() { None } else { Some(from.name) },\n\
note: from.note,\non: from.on,\nsecret: from.secret,\n}\n}\n}\n\
impl From<UserFormValueHolder> for User {\nfn from(from: UserFormValueHolder) -> Self {\nSelf {\n\
name: from.name.unwrap_or_else(|| \"anon\".to_string()),\n\
note: from.note,\non: from.on,\nsecret: from.secret,\n}\n}\n}\n"
    );
    assert!(syn::parse_file(&source).is_ok());
}

#[test]
fn value_holder_of_an_empty_unit_struct() {
    let source = value_holder_source("Blank", true, &vec![], false, false);
    let c = compact(&source);
    assert!(c.starts_with("#[derive(Clone,Debug)]pubstructBlankFormValueHolder{}"));
    assert!(c.contains("fnfrom(from:BlankFormValueHolder)->Self{let_=from;Self}"));
    assert!(syn::parse_file(&source).is_ok());
    let fluent = value_holder_source("Plain", false, &vec![derive_field("name", Some(Components::Input))], true, true);
    assert!(fluent.starts_with("#[derive(Clone, Debug, ::koruma::Koruma, ::koruma::KorumaAllFluent)]"));
    let without = value_holder_source("Plain", false, &vec![derive_field("name", Some(Components::Input))], false, true);
    assert!(without.starts_with("#[derive(Clone, Debug)]"));
    assert!(compact(&without).contains("pubname:Option<String>,"));
}

#[test]
fn shape_registration_lists_fields_with_their_layout() {
    let mut username = derive_field("username", Some(Components::Input));
    username.layout = FieldLayout::new()
        .with_section(Some("Account"))
        .with_label(Some("Username"))
        .with_description(Some("Shown publicly"))
        .with_placeholder(Some("pick a name"))
        .with_width(LayoutWidth::Half);
    let plain = derive_field("plain", Some(Components::Checkbox));
    let mut secret = derive_field("secret", None);
    secret.skip = true;
    secret.layout = FieldLayout::new().with_section(Some("Secret")).with_width(LayoutWidth::Half);
    let source = shape_registration_source("Signup", &vec![username, plain, secret]);
    let c = compact(&source);
    assert!(c.contains("stringify!(Signup)"));
    assert!(c.contains("::gpui_form::schema::layout::FieldLayout::new()"));
    assert!(c.contains(".with_section(Some(\"Account\"))"));
    assert!(c.contains(".with_label(Some(\"Username\"))"));
    assert!(c.contains(".with_description(Some(\"Shownpublicly\"))"));
    assert!(c.contains(".with_placeholder(Some(\"pickaname\"))"));
    assert!(c.contains(".with_width(::gpui_form::schema::layout::LayoutWidth::Half)"));
    assert!(c.contains(".with_width(::gpui_form::schema::layout::LayoutWidth::Full)"));
    assert!(!c.contains("\"Secret\""));
    assert_eq!(c.matches(".with_layout(").count(), 2);
    assert!(c.contains("FieldVariant::new(\"username\",\"String\",false,::gpui_form::core::components::ComponentsBehaviour::Input).with_validations(&[\"RequiredValidation\"])"));
    assert!(c.contains("FieldVariant::new(\"plain\",\"String\",false,::gpui_form::core::components::ComponentsBehaviour::Checkbox).with_validations(&[])"));
    assert!(syn::parse_file(&source).is_ok());
}

#[test]
fn shape_registration_records_override_type_rules_and_default() {
    let mut amount = derive_field("amount", Some(Components::NumberInput(NumberInputOptions { as_type: None })));
    amount.override_type_text = Some("rust_decimal::Decimal".to_string());
    amount.default_text = Some("\"0\".parse().unwrap()".to_string());
    amount.validation = Some(FieldValidation {
        validators: vec!["RangeValidation".to_string()],
        element_validators: 0,
        is_newtype: false,
        is_nested: false,
        attrs: vec![],
    });
    let c = compact(&shape_registration_source("Pay", &vec![amount]));
    assert!(c.contains("FieldVariant::new(\"amount\",\"rust_decimal::Decimal\",false,::gpui_form::core::components::ComponentsBehaviour::NumberInput)"));
    assert!(c.contains(".with_validations(&[\"RequiredValidation\",\"RangeValidation\"])"));
    assert!(c.contains(".with_default(\"\\\"0\\\".parse().unwrap()\")"));
}

#[test]
fn items_errors_track_fields_in_the_shape() {
    let mut secret = derive_field("secret", None);
    secret.skip = true;
    let fields = vec![
        derive_field("name", Some(Components::Input)),
        derive_field("note", None),
        derive_field("age", Some(Components::Input)),
        secret,
    ];
    let source = items_errors_source("User", &fields);
    let c = compact(&source);
    assert!(c.contains("pubstructUserFormItemsErrors{pubname:String,pubage:String,}"));
    assert!(c.contains("Self{name:String::new(),age:String::new(),}"));
    assert!(c.contains("pubfnhas_errors(&self)->bool{!self.name.is_empty()||!self.age.is_empty()}"));
    assert!(syn::parse_file(&source).is_ok());
}

#[test]
fn components_struct_collects_field_sources() {
    let age = derive_field("age", Some(Components::NumberInput(NumberInputOptions { as_type: None })));
    let country = derive_field("country", Some(Components::Select(SelectOptions::from_behaviour(
        BehaviourSelectOptions { partial: false, searchable: false },
    ))));
    let contents = vec![component_field_source(&age, "u8"), component_field_source(&country, "Country")];
    let source = components_source("User", &contents).expect("both templates are known");
    let c = compact(&source);
    assert!(c.contains("pubstructUserFormFields{pubage:::gpui::Entity<::gpui_component::input::InputState>,pubcountry:"));
    assert!(c.contains("implUserFormComponents{pubfnage("));
    assert!(syn::parse_file(&source).is_ok());
    let with_input = vec![component_field_source(&derive_field("name", Some(Components::Input)), "String")];
    assert!(components_source("User", &with_input).is_none());
}

#[test]
fn entity_pieces_use_the_behaviour_named_variable() {
    let fields = leak(vec![number_field("age", "u8", NumberInputKind::UnsignedInteger, None)
        .with_layout(FieldLayout::new().with_label(Some("Your age")))]);
    let shape = GpuiFormShape::new("User", fields, "src/user.rs", false);
    let f = &fields[0];
    assert_eq!(
        entity_creation_source(f, &shape),
        "let age_number_input =\ncx.new(|cx| UserFormComponents::age_number_input(window, cx));\n"
    );
    assert_eq!(entity_field_initializer_source(f), "age_number_input,");
    assert_eq!(entity_focus_source(f), "self.fields.age_number_input.focus_handle(cx),");
    let item = component_entity_field_source(f, &shape);
    let c = compact(&item);
    assert!(c.starts_with(".child(field().label(\"Yourage\").description_fn({"), "{c}");
    assert!(c.ends_with(".child(NumberInput::new(&self.fields.age_number_input)))"), "{c}");
    assert!(syn::parse_str::<syn::Expr>(&format!("form(){}", item)).is_ok());
}

#[test]
fn form_expansion_writes_every_item_in_order() {
    let mut age = derive_field("age", Some(Components::NumberInput(NumberInputOptions { as_type: None })));
    age.type_text = "u8".to_string();
    age.type_ident = "u8".to_string();
    let mut secret = derive_field("secret", None);
    secret.skip = true;
    let fields = vec![age, derive_field("on", Some(Components::Checkbox)), secret];
    let mut supported = fields.clone();
    supported.remove(1);
    let source = expand_gpui_form_source("User", false, false, &supported, false, false, true)
        .expect("the struct has fields")
        .expect("number inputs have a template");
    let c = compact(&source);
    let holder = c.find("pubstructUserFormValueHolder").unwrap();
    let fields_struct = c.find("pubstructUserFormFields{pubage:").unwrap();
    let shape = c.find("inventory::submit!").unwrap();
    let builders = c.find("implUserFormComponents{pubfnage(").unwrap();
    let errors = c.find("pubstructUserFormItemsErrors{pubage:String,}").unwrap();
    assert!(holder < fields_struct && fields_struct < shape && shape < builders && builders < errors);
    assert!(c.contains("pubsecret:String,"), "skipped fields stay in the holder: {c}");
    assert!(syn::parse_file(&source).is_ok());

    assert_eq!(
        expand_gpui_form_source("User", false, false, &fields, false, false, true),
        Ok(None),
        "checkbox templates are not held here"
    );
    assert_eq!(
        expand_gpui_form_source("User", false, false, &vec![], false, false, true),
        Err("Struct `User` has no fields. Add `#[gpui_form(empty)]` attribute to explicitly mark it as an empty form.".to_string())
    );
}

#[test]
fn empty_form_expansion_keeps_unit_structs() {
    let source = expand_gpui_form_source("Blank", true, true, &vec![], false, false, true)
        .unwrap()
        .unwrap();
    let c = compact(&source);
    assert!(c.contains("pubstructBlankFormFields;"));
    assert!(c.contains("GpuiFormShape::new(stringify!(Blank),&[],file!())"));
    assert!(c.ends_with("pubstructBlankFormComponents;"));
    assert!(syn::parse_file(&source).is_ok());
}

fn compact_tokenish(tokens: &str) -> String {
    tokens.split_whitespace().collect::<String>()
}

#[test]
fn layout_all_five_hints_plus_width_bare_ident_emit_chain() {
    let mut username = derive_field("username", Some(Components::Input));
    username.layout = FieldLayout::new()
        .with_section(Some("Account"))
        .with_label(Some("Username"))
        .with_description(Some("Shown publicly"))
        .with_placeholder(Some("pick a name"))
        .with_width("half".parse::<LayoutWidth>().unwrap());
    let compact = compact_tokenish(&shape_registration_source("Signup", &vec![username]));
    assert!(compact.contains("::gpui_form::schema::layout::FieldLayout::new()"), "{compact}");
    assert!(compact.contains(".with_section(Some(\"Account\"))"), "{compact}");
    assert!(compact.contains(".with_label(Some(\"Username\"))"), "{compact}");
    assert!(
        compact.contains(".with_description(Some(\"Shownpublicly\"))")
            || compact.contains(".with_description(Some(\"Shown publicly\"))"),
        "{compact}"
    );
    assert!(
        compact.contains(".with_placeholder(Some(\"pickaname\"))")
            || compact.contains(".with_placeholder(Some(\"pick a name\"))"),
        "{compact}"
    );
    assert!(compact.contains(".with_width(::gpui_form::schema::layout::LayoutWidth::Half)"), "{compact}");
    assert!(compact.contains(".with_layout("), "{compact}");
}

#[test]
fn layout_quoted_width_and_third_variant_map_correctly() {
    let mut a = derive_field("a", Some(Components::Input));
    a.layout = FieldLayout::new().with_width("third".parse::<LayoutWidth>().unwrap());
    let mut b = derive_field("b", Some(Components::Input));
    b.layout = FieldLayout::new().with_width("full".parse::<LayoutWidth>().unwrap());
    let compact = compact_tokenish(&shape_registration_source("Form", &vec![a, b]));
    assert!(compact.contains(".with_width(::gpui_form::schema::layout::LayoutWidth::Third)"), "{compact}");
    assert!(compact.contains(".with_width(::gpui_form::schema::layout::LayoutWidth::Full)"), "{compact}");
}

#[test]
fn layout_absent_hints_default_to_full_and_no_string_builders() {
    let compact = compact(&shape_registration_source("Plain", &vec![derive_field("name", Some(Components::Input))]));
    assert!(compact.contains(".with_width(::gpui_form::schema::layout::LayoutWidth::Full)"), "{compact}");
    assert!(!compact.contains(".with_section("), "{compact}");
    assert!(!compact.contains(".with_label("), "{compact}");
    assert!(!compact.contains(".with_description("), "{compact}");
    assert!(!compact.contains(".with_placeholder("), "{compact}");
}

#[test]
fn layout_on_skipped_field_is_ignored() {
    let visible = derive_field("visible", Some(Components::Input));
    let mut secret = derive_field("secret", None);
    secret.skip = true;
    secret.layout = FieldLayout::new()
        .with_section(Some("Secret"))
        .with_label(Some("Hidden"))
        .with_width(LayoutWidth::Half);
    let compact = compact(&shape_registration_source("Mixed", &vec![visible, secret]));
    assert!(!compact.contains("\"Secret\""), "{compact}");
    assert!(!compact.contains("\"Hidden\""), "{compact}");
    assert!(!compact.contains("LayoutWidth::Half"), "{compact}");
    assert_eq!(compact.matches(".with_layout(").count(), 1, "{compact}");
}

#[test]
fn layout_width_unknown_variant_is_rejected() {
    assert!("bogus".parse::<LayoutWidth>().is_err());
}
